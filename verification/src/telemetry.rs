//! Telemetry as a flat list of named values.
//!
//! What a subsystem reports is a JSON object, often with objects and arrays
//! inside. The telemetry store takes named values only, so a report is
//! flattened: the name of a value is the names on the way to it, joined by
//! underscores, and an item of an array has its index for a name.

use crate::command::{hex_char, hex_digit};
use crate::json;
use vstd::prelude::*;
use vstd::string::*;

verus! {

/// How deep objects may lie within objects and still be taken apart. No
/// document that `serde_json` reads lies deeper.
pub const MAX_DEPTH: usize = 128;

/// A named value.
pub type Entry = (Seq<char>, Seq<char>);

/// The decimal text of a number.
pub open spec fn decimal_text(n: nat) -> Seq<char>
    decreases n,
{
    if n < 10 {
        seq![hex_char(n as int)]
    } else {
        decimal_text(n / 10).push(hex_char((n % 10) as int))
    }
}

/// The entries for the items of an array under a name: each item displayed,
/// under the name with the item's index after it. `first` is the index of
/// the first item.
pub open spec fn flat_items(items: Seq<serde_json::Value>, name: Seq<char>, first: nat) -> Seq<
    Entry,
>
    decreases items.len(),
{
    if items.len() == 0 {
        Seq::empty()
    } else {
        flat_items(items.drop_last(), name, first).push(
            (name + decimal_text((first + items.len() - 1) as nat), json::rendered(items.last())),
        )
    }
}

/// The entries for the members of an object, with `prefix` before each
/// name.
///
/// A member that is an object gives the entries of its own members, with
/// its name and an underscore added to the prefix, as long as `depth` is
/// not used up. A member that is an array gives an entry for each item. Any
/// other member gives one entry: its name and the value displayed.
pub open spec fn flat_members(
    members: Seq<(Seq<char>, serde_json::Value)>,
    prefix: Seq<char>,
    depth: nat,
) -> Seq<Entry>
    decreases depth, members.len(),
{
    if members.len() == 0 {
        Seq::empty()
    } else {
        let (key, value) = members.last();
        let before = flat_members(members.drop_last(), prefix, depth);
        let name = prefix + key;
        if depth > 0 && json::members(value).is_some() {
            before + flat_members(
                json::members(value).unwrap(),
                name + seq!['_'],
                (depth - 1) as nat,
            )
        } else if json::members(value).is_none() && json::items(value).is_some() {
            before + flat_items(json::items(value).unwrap(), name + seq!['_'], 0)
        } else {
            before.push((name, json::rendered(value)))
        }
    }
}

/// The entries for a report: those of its members, and none where the
/// report is no object.
pub open spec fn flat(report: serde_json::Value, prefix: Seq<char>, depth: nat) -> Seq<Entry> {
    match json::members(report) {
        Some(members) => flat_members(members, prefix, depth),
        None => Seq::empty(),
    }
}

/// The member of a reading that holds its value.
pub const DATA_KEY: &'static str = "data";

/// What stands for a reading that holds no value.
pub const NO_DATA: &'static str = "null";

/// The value of a reading, displayed; [`NO_DATA`] where it holds none.
pub open spec fn reading_value(reading: serde_json::Value) -> Seq<char> {
    match json::member(reading, DATA_KEY@) {
        Some(data) => json::rendered(data),
        None => NO_DATA@,
    }
}

/// The entries for the fields of a module's telemetry: each field's name
/// with the value of its reading.
pub open spec fn module_fields(fields: Seq<(Seq<char>, serde_json::Value)>) -> Seq<Entry> {
    Seq::new(fields.len(), |i: int| (fields[i].0, reading_value(fields[i].1)))
}

/// The entries for a module's telemetry text: `None` where the text is not
/// JSON, the entries of its fields where it is an object, and none where it
/// is anything else.
pub open spec fn module_entries_of(text: Seq<char>) -> Option<Seq<Entry>> {
    match json::parsed(text) {
        Some(report) => Some(
            match json::members(report) {
                Some(fields) => module_fields(fields),
                None => Seq::empty(),
            },
        ),
        None => None,
    }
}

/// The named values that a list of pairs of strings holds.
pub open spec fn entries_of(pairs: Seq<(String, String)>) -> Seq<Entry> {
    Seq::new(pairs.len(), |i: int| (pairs[i].0@, pairs[i].1@))
}

/// Appends the decimal text of a number.
pub fn push_decimal_text(out: &mut String, n: usize)
    ensures
        final(out)@ == old(out)@ + decimal_text(n as nat),
    decreases n,
{
    if n >= 10 {
        push_decimal_text(out, n / 10);
    }
    out.append(hex_digit((n % 10) as u8));
    assert(final(out)@ =~= old(out)@ + decimal_text(n as nat));
}

fn push_entry(out: &mut Vec<(String, String)>, name: String, value: String)
    ensures
        entries_of(final(out)@) == entries_of(old(out)@).push((name@, value@)),
{
    let ghost n = name@;
    let ghost v = value@;
    out.push((name, value));
    assert(entries_of(out@) =~= entries_of(old(out)@).push((n, v)));
}

fn push_items(out: &mut Vec<(String, String)>, items: &Vec<&serde_json::Value>, name: &str)
    ensures
        entries_of(final(out)@) == entries_of(old(out)@) + flat_items(
            json::items_of_refs(items@),
            name@,
            0,
        ),
{
    let ghost all = json::items_of_refs(items@);
    let mut i: usize = 0;
    assert(all.take(0) == Seq::<serde_json::Value>::empty());
    assert(entries_of(out@) =~= entries_of(old(out)@) + flat_items(all.take(0), name@, 0));
    while i < items.len()
        invariant
            i <= items@.len(),
            all == json::items_of_refs(items@),
            entries_of(out@) == entries_of(old(out)@) + flat_items(all.take(i as int), name@, 0),
        decreases items@.len() - i,
    {
        let ghost before = entries_of(out@);
        let mut full = String::from_str(name);
        push_decimal_text(&mut full, i);
        let value = json::render(items[i]);
        push_entry(out, full, value);
        i += 1;
        proof {
            let done = all.take(i as int);
            assert(done.drop_last() == all.take(i - 1));
            assert(done.last() == *items@[i - 1]);
            assert(entries_of(out@) =~= entries_of(old(out)@) + flat_items(done, name@, 0));
        }
    }
    assert(all.take(i as int) == all);
}

fn push_members(
    out: &mut Vec<(String, String)>,
    members: &Vec<(String, &serde_json::Value)>,
    prefix: &str,
    depth: usize,
)
    ensures
        entries_of(final(out)@) == entries_of(old(out)@) + flat_members(
            json::members_of_pairs(members@),
            prefix@,
            depth as nat,
        ),
    decreases depth, members@.len(), 0nat,
{
    let ghost all = json::members_of_pairs(members@);
    let mut i: usize = 0;
    assert(all.take(0) == Seq::<(Seq<char>, serde_json::Value)>::empty());
    assert(entries_of(out@) =~= entries_of(old(out)@) + flat_members(
        all.take(0),
        prefix@,
        depth as nat,
    ));
    while i < members.len()
        invariant
            i <= members@.len(),
            all == json::members_of_pairs(members@),
            entries_of(out@) == entries_of(old(out)@) + flat_members(
                all.take(i as int),
                prefix@,
                depth as nat,
            ),
        decreases depth, members@.len() - i, 1nat,
    {
        let ghost before = entries_of(out@);
        let value = members[i].1;
        let mut name = String::from_str(prefix);
        name.append(members[i].0.as_str());
        let inner = if depth > 0 {
            json::object_members(value)
        } else {
            None
        };
        match inner {
            Some(inner) => {
                name.append("_");
                proof {
                    reveal_strlit("_");
                    assert("_"@ =~= seq!['_']);
                }
                push_members(out, &inner, name.as_str(), depth - 1);
            },
            None => {
                let object = json::object_members(value);
                let array = if object.is_none() {
                    json::array_items(value)
                } else {
                    None
                };
                match array {
                    Some(array) => {
                        name.append("_");
                        proof {
                            reveal_strlit("_");
                            assert("_"@ =~= seq!['_']);
                        }
                        push_items(out, &array, name.as_str());
                    },
                    None => {
                        let text = json::render(value);
                        push_entry(out, name, text);
                    },
                }
            },
        }
        i += 1;
        proof {
            let done = all.take(i as int);
            assert(done.drop_last() == all.take(i - 1));
            assert(done.last() == (members@[i - 1].0@, *members@[i - 1].1));
            assert(entries_of(out@) =~= entries_of(old(out)@) + flat_members(
                done,
                prefix@,
                depth as nat,
            ));
        }
    }
    assert(all.take(i as int) == all);
}

/// Reads the telemetry that a module's controller reports as text: a JSON
/// object that maps each field to a reading of the form
/// `{"timestamp": .., "data": ..}`. Each field gives one named value, the
/// value of its reading as it is displayed.
pub fn module_entries(text: &str) -> (entries: Option<Vec<(String, String)>>)
    ensures
        match entries {
            Some(list) => module_entries_of(text@) == Some(entries_of(list@)),
            None => module_entries_of(text@).is_none(),
        },
{
    let report = match json::parse(text) {
        Ok(report) => report,
        Err(_) => return None,
    };
    let mut list: Vec<(String, String)> = Vec::new();
    let fields = match json::object_members(&report) {
        Some(fields) => fields,
        None => {
            assert(entries_of(list@) =~= Seq::<Entry>::empty());
            return Some(list);
        },
    };
    let ghost all = json::members_of_pairs(fields@);
    let mut i: usize = 0;
    assert(entries_of(list@) =~= module_fields(all.take(0)));
    while i < fields.len()
        invariant
            i <= fields@.len(),
            all == json::members_of_pairs(fields@),
            entries_of(list@) == module_fields(all.take(i as int)),
        decreases fields@.len() - i,
    {
        let value = match json::lookup(fields[i].1, DATA_KEY) {
            Some(data) => json::render(data),
            None => String::from_str(NO_DATA),
        };
        let name = fields[i].0.clone();
        push_entry(&mut list, name, value);
        i += 1;
        assert(entries_of(list@) =~= module_fields(all.take(i as int)));
    }
    assert(all.take(i as int) == all);
    Some(list)
}

/// Flattens a report and appends its named values to `telem_vec`, each name
/// with `prefix` before it. Objects that lie deeper than [`MAX_DEPTH`] within
/// the report are not taken apart but displayed whole.
pub fn process_json(telem_vec: &mut Vec<(String, String)>, data: &serde_json::Value, prefix: String)
    ensures
        entries_of(final(telem_vec)@) == entries_of(old(telem_vec)@) + flat(
            *data,
            prefix@,
            MAX_DEPTH as nat,
        ),
{
    match json::object_members(data) {
        Some(members) => push_members(telem_vec, &members, prefix.as_str(), MAX_DEPTH),
        None => {
            assert(entries_of(telem_vec@) =~= entries_of(old(telem_vec)@) + Seq::<Entry>::empty());
        },
    }
}

} // verus!
