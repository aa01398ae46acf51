//! Where the hardware services can be reached.

use crate::text::same_text;
use vstd::prelude::*;

verus! {

/// The service of the navigation receiver.
pub const GPS_SERVICE: &'static str = "novatel-oem6-service";

/// The service of the power system.
pub const EPS_SERVICE: &'static str = "clyde-3g-eps-service";

/// The service of the module controllers.
pub const MCU_SERVICE: &'static str = "pumpkin-mcu-service";

/// A service and the address it answers at.
pub struct Service {
    pub name: String,
    pub hosturl: String,
}

/// The addresses that a list of services gives, by name. Of two entries with
/// one name the later counts.
pub open spec fn addresses_of(entries: Seq<Service>) -> Map<Seq<char>, Seq<char>>
    decreases entries.len(),
{
    if entries.len() == 0 {
        Map::empty()
    } else {
        addresses_of(entries.drop_last()).insert(entries.last().name@, entries.last().hosturl@)
    }
}

/// The known services.
pub struct Services {
    pub entries: Vec<Service>,
}

impl View for Services {
    type V = Map<Seq<char>, Seq<char>>;

    open spec fn view(&self) -> Map<Seq<char>, Seq<char>> {
        addresses_of(self.entries@)
    }
}

impl Services {
    /// No services.
    pub fn new() -> (services: Services)
        ensures
            services@ == Map::<Seq<char>, Seq<char>>::empty(),
    {
        Services { entries: Vec::new() }
    }

    /// Makes a service known under its name, in place of any other of that
    /// name.
    pub fn insert(&mut self, name: String, hosturl: String)
        ensures
            final(self)@ == old(self)@.insert(name@, hosturl@),
    {
        let ghost before = self.entries@;
        let ghost key = name@;
        let ghost value = hosturl@;
        self.entries.push(Service { name, hosturl });
        assert(self.entries@.drop_last() == before);
        assert(self.entries@.last().name@ == key);
        assert(self.entries@.last().hosturl@ == value);
    }
}

/// Looks up the address of a service by its name.
pub fn get<'a>(services: &'a Services, name: &str) -> (hosturl: Option<&'a str>)
    ensures
        match hosturl {
            Some(url) => services@.contains_key(name@) && services@[name@] == url@,
            None => !services@.contains_key(name@),
        },
{
    let mut i: usize = services.entries.len();
    assert(services.entries@.take(i as int) == services.entries@);
    while i > 0
        invariant
            i <= services.entries@.len(),
            addresses_of(services.entries@).contains_key(name@) == addresses_of(
                services.entries@.take(i as int),
            ).contains_key(name@),
            addresses_of(services.entries@).contains_key(name@) ==> addresses_of(
                services.entries@,
            )[name@] == addresses_of(services.entries@.take(i as int))[name@],
        decreases i,
    {
        let ghost upto = services.entries@.take(i as int);
        assert(upto.drop_last() == services.entries@.take(i - 1));
        assert(upto.last() == services.entries@[i - 1]);
        let entry = &services.entries[i - 1];
        if same_text(entry.name.as_str(), name) {
            return Some(entry.hosturl.as_str());
        }
        i -= 1;
    }
    None
}

} // verus!
