use apollo_fusion::packets::adcs::convert_acs_mode;
use apollo_fusion::packets::gps::{
    convert_posvel_type, convert_solution_status, convert_system_status, convert_time_status,
};
use apollo_fusion::services::{get, Services, EPS_SERVICE, GPS_SERVICE, MCU_SERVICE};
use apollo_fusion::text::{same_text, trim_char};

#[test]
fn acs_modes() {
    let names = [
        "TEST_MODE",
        "RATE_NULLING",
        "RESERVED1",
        "NADIR_POINTING",
        "LAT_LONG_POINTING",
        "QBX_MODE",
        "RESERVED2",
        "NORMAL_SUN",
        "LAT_LONG_SUN",
        "QINTERTIAL",
        "RESERVED3",
        "QTABLE",
        "SUN_RAM",
    ];
    for (code, name) in names.iter().enumerate() {
        assert_eq!(convert_acs_mode(name) as usize, code);
        assert_eq!(convert_acs_mode(&format!("\"{}\"", name)) as usize, code);
    }
}

#[test]
fn unknown_acs_mode() {
    assert_eq!(convert_acs_mode(""), 0xFF);
    assert_eq!(convert_acs_mode("\"\""), 0xFF);
    assert_eq!(convert_acs_mode("test_mode"), 0xFF);
    assert_eq!(convert_acs_mode(" TEST_MODE"), 0xFF);
    assert_eq!(convert_acs_mode("QINERTIAL"), 0xFF);
    assert_eq!(convert_acs_mode("SUN_RAM2"), 0xFF);
}

#[test]
fn system_status_flags() {
    let flags: [(&str, u32); 25] = [
        ("ERROR_PRESENT", 0x0000_0001),
        ("TEMPERATURE_WARNING", 0x0000_0002),
        ("VOLTAGE_SUPPLY_WARNING", 0x0000_0004),
        ("ANTENNA_NOT_POWERED", 0x0000_0008),
        ("LNA_FAILURE", 0x0000_0010),
        ("ANTENNA_OPEN", 0x0000_0020),
        ("ANTENNA_SHORTENED", 0x0000_0040),
        ("CPU_OVERLOAD", 0x0000_0080),
        ("COM1_BUFFER_OVERRUN", 0x0000_0100),
        ("COM2_BUFFER_OVERRUN", 0x0000_0200),
        ("COM3_BUFFER_OVERRUN", 0x0000_0400),
        ("LINK_OVERRUN", 0x0000_0800),
        ("AUX_TRANSMIT_OVERRUN", 0x0000_2000),
        ("AGC_OUT_OF_RANGE", 0x0000_4000),
        ("INS_RESET", 0x0001_0000),
        ("GPS_ALMANAC_INVALID", 0x0004_0000),
        ("POSITION_SOLUTION_INVALID", 0x0008_0000),
        ("POSITION_FIXED", 0x0010_0000),
        ("CLOCK_STEERING_DISABLED", 0x0020_0000),
        ("CLOCK_MODEL_INVALID", 0x0040_0000),
        ("EXTERNAL_OSCILLATOR_LOCKED", 0x0080_0000),
        ("SOFTWARE_RESOURCE_WARNING", 0x0100_0000),
        ("AUX3_STATUS_EVENT", 0x2000_0000),
        ("AUX2_STATUS_EVENT", 0x4000_0000),
        ("AUX1_STATUS_EVENT", 0x8000_0000),
    ];
    for (name, bit) in flags {
        assert_eq!(convert_system_status(name), bit, "{}", name);
        assert_eq!(convert_system_status(&format!("\"{}\"", name)), bit, "{}", name);
    }
    assert_eq!(convert_system_status(""), 0);
    assert_eq!(convert_system_status("NO_SUCH_FLAG"), 0);
}

#[test]
fn solution_statuses() {
    let codes: [(&str, u8); 14] = [
        ("SOL_COMPUTED", 0),
        ("INSUFFICIENT_OBSERVATIONS", 1),
        ("NO_CONVERGENCE", 2),
        ("SINGULARITY", 3),
        ("COVARIANCE_TRACE_EXCEEDED", 4),
        ("TEST_DISTANCE_EXCEEDED", 5),
        ("COLD_START", 6),
        ("HEIGHT_VELOCITY_EXCEEDED", 7),
        ("VARIANCE_EXCEEDED", 8),
        ("RESIDUALS_TOO_LARGE", 9),
        ("INTEGRITY_WARNING", 13),
        ("PENDING", 18),
        ("INVALID_FIX", 19),
        ("UNAUTHORIZED", 20),
    ];
    for (name, code) in codes {
        assert_eq!(convert_solution_status(name), code, "{}", name);
        assert_eq!(convert_solution_status(&format!("\"{}\"", name)), code, "{}", name);
    }
    assert_eq!(convert_solution_status(""), 255);
    assert_eq!(convert_solution_status("SOLVED"), 255);
}

#[test]
fn position_and_velocity_types() {
    let codes: [(&str, u16); 23] = [
        ("NONE", 0),
        ("FIXED_POS", 1),
        ("FIXED_HEIGHT", 2),
        ("DOPPLER_VELOCITY", 8),
        ("SINGLE", 16),
        ("PSRDIFF", 17),
        ("WAAS", 18),
        ("PROPAGATED", 19),
        ("OMNISTAR", 20),
        ("L1FLOAT", 32),
        ("IONO_FREE_FLOAT", 33),
        ("NARROW_FLOAT", 34),
        ("L1INTEGER", 48),
        ("NARROW_INTEGER", 50),
        ("OMNISTAR_HP", 64),
        ("OMNISTAR_XP", 65),
        ("PPPCONVERGING", 68),
        ("PPP", 69),
        ("OPERATIONAL", 70),
        ("WARNING", 71),
        ("OUT_OF_BOUNDS", 72),
        ("PPPBASIC_CONVERGING", 77),
        ("PPPBASIC", 78),
    ];
    for (name, code) in codes {
        assert_eq!(convert_posvel_type(name), code, "{}", name);
        assert_eq!(convert_posvel_type(&format!("\"{}\"", name)), code, "{}", name);
    }
    assert_eq!(convert_posvel_type(""), 0xFFFF);
    assert_eq!(convert_posvel_type("PPP "), 0xFFFF);
}

#[test]
fn time_statuses() {
    let codes: [(&str, u8); 11] = [
        ("UNKNOWN", 20),
        ("APPROXIMATE", 60),
        ("COARSE_ADJUSTING", 80),
        ("COARSE", 100),
        ("COARSE_STEERING", 120),
        ("FREE_WHEELING", 130),
        ("FINE_ADJUSTING", 140),
        ("FINE", 160),
        ("FINE_BACKUP_STEERING", 170),
        ("FINE_STEERING", 180),
        ("SAT_TIME", 200),
    ];
    for (name, code) in codes {
        assert_eq!(convert_time_status(name), code, "{}", name);
    }
    assert_eq!(convert_time_status(""), 255);
    assert_eq!(convert_time_status("fine"), 255);
}

#[test]
fn time_status_keeps_quotes() {
    assert_eq!(convert_time_status("\"FINE\""), 255);
}

#[test]
fn trimming() {
    assert_eq!(trim_char("\"abc\"", '"'), "abc");
    assert_eq!(trim_char("\"\"\"abc\"\"", '"'), "abc");
    assert_eq!(trim_char("abc", '"'), "abc");
    assert_eq!(trim_char("a\"b", '"'), "a\"b");
    assert_eq!(trim_char("\"a\"b\"", '"'), "a\"b");
    assert_eq!(trim_char("\"\"", '"'), "");
    assert_eq!(trim_char("\"", '"'), "");
    assert_eq!(trim_char("", '"'), "");
    assert_eq!(trim_char("xxhéllo wörldx", 'x'), "héllo wörld");
    assert_eq!(trim_char("ééaé", 'é'), "a");
}

#[test]
fn comparing_text() {
    assert!(same_text("", ""));
    assert!(same_text("abc", "abc"));
    assert!(same_text("héllo", "héllo"));
    assert!(!same_text("abc", "abd"));
    assert!(!same_text("abc", "ab"));
    assert!(!same_text("ab", "abc"));
    assert!(!same_text("", "a"));
    assert!(!same_text("e", "é"));
}

#[test]
fn services_by_name() {
    let mut services = Services::new();
    assert_eq!(get(&services, MCU_SERVICE), None);
    services.insert(GPS_SERVICE.to_string(), "0.0.0.0:8123".to_string());
    services.insert(EPS_SERVICE.to_string(), "0.0.0.0:8124".to_string());
    services.insert(MCU_SERVICE.to_string(), "0.0.0.0:8150".to_string());
    assert_eq!(get(&services, "novatel-oem6-service"), Some("0.0.0.0:8123"));
    assert_eq!(get(&services, "clyde-3g-eps-service"), Some("0.0.0.0:8124"));
    assert_eq!(get(&services, "pumpkin-mcu-service"), Some("0.0.0.0:8150"));
    assert_eq!(get(&services, "telemetry-service"), None);
    assert_eq!(get(&services, ""), None);
}

#[test]
fn later_entry_replaces_earlier() {
    let mut services = Services::new();
    services.insert("a".to_string(), "1".to_string());
    services.insert("b".to_string(), "2".to_string());
    services.insert("a".to_string(), "3".to_string());
    assert_eq!(get(&services, "a"), Some("3"));
    assert_eq!(get(&services, "b"), Some("2"));
}
