//! The metadata bag: a string-keyed collection of typed values describing
//! the currently loaded track, and the per-field extraction rules.
//!
//! The bus hands a player's metadata over as a generic variant dictionary;
//! the surrounding application converts each entry to a plain `MetaValue`
//! before the logic here reads it. Every field is extracted independently: a
//! missing key or a value of the wrong shape yields `None`, never an error.

use vstd::prelude::*;
use crate::text::str_eq;

verus! {

/// One typed value from the bag. Anything that is neither a string nor a
/// string list is kept only as `Other`: no field extractor accepts it.
pub enum MetaValue {
    Text(String),
    TextList(Vec<String>),
    Other,
}

/// One key-value entry of the bag.
pub struct MetaEntry {
    pub key: String,
    pub value: MetaValue,
}

/// A string-keyed metadata bag. Lookup finds the first entry with a matching
/// key, so a bag built from a dictionary (unique keys) behaves exactly as
/// the dictionary does.
pub struct MetadataBag {
    pub entries: Vec<MetaEntry>,
}

/// The first value stored under `key`, if any.
pub open spec fn spec_lookup(entries: Seq<MetaEntry>, key: Seq<char>) -> Option<MetaValue>
    decreases entries.len(),
{
    if entries.len() == 0 {
        None
    } else if entries[0].key@ == key {
        Some(entries[0].value)
    } else {
        spec_lookup(entries.skip(1), key)
    }
}

/// The title/album rule: the value under `key`, provided it is a string.
pub open spec fn spec_extract_string(bag: MetadataBag, key: Seq<char>) -> Option<Seq<char>> {
    match spec_lookup(bag.entries@, key) {
        Some(MetaValue::Text(s)) => Some(s@),
        _ => None,
    }
}

/// The artist rule: the first element of the string list under `key`,
/// provided the value is a non-empty string list.
pub open spec fn spec_extract_first(bag: MetadataBag, key: Seq<char>) -> Option<Seq<char>> {
    match spec_lookup(bag.entries@, key) {
        Some(MetaValue::TextList(v)) => if v@.len() > 0 {
            Some(v@[0]@)
        } else {
            None
        },
        _ => None,
    }
}

/// The view of an optional extracted string.
pub open spec fn opt_str_view(o: Option<String>) -> Option<Seq<char>> {
    match o {
        Some(s) => Some(s@),
        None => None,
    }
}

impl MetadataBag {
    /// An empty bag.
    pub fn new() -> (b: Self)
        ensures
            b.entries@.len() == 0,
    {
        MetadataBag { entries: Vec::new() }
    }

    fn lookup(&self, key: &str) -> (r: Option<&MetaValue>)
        ensures
            match r {
                Some(v) => spec_lookup(self.entries@, key@) == Some(*v),
                None => spec_lookup(self.entries@, key@) is None,
            },
    {
        let n = self.entries.len();
        let mut i: usize = 0;
        proof {
            assert(self.entries@.skip(0) =~= self.entries@);
        }
        while i < n
            invariant
                n == self.entries@.len(),
                0 <= i <= n,
                spec_lookup(self.entries@, key@) == spec_lookup(self.entries@.skip(i as int), key@),
            decreases n - i,
        {
            if str_eq(self.entries[i].key.as_str(), key) {
                return Some(&self.entries[i].value);
            }
            proof {
                assert(self.entries@.skip(i as int).skip(1) =~= self.entries@.skip(i + 1));
            }
            i = i + 1;
        }
        proof {
            assert(self.entries@.skip(n as int) =~= Seq::<MetaEntry>::empty());
        }
        None
    }
}

/// Read a string-valued field from the bag: `None` when the key is absent or
/// the value is not string-shaped.
pub fn extract_string(bag: &MetadataBag, key: &str) -> (r: Option<String>)
    ensures
        opt_str_view(r) == spec_extract_string(*bag, key@),
{
    match bag.lookup(key) {
        Some(MetaValue::Text(s)) => Some(s.clone()),
        _ => None,
    }
}

/// Read the first element of a string-list-valued field from the bag:
/// `None` when the key is absent, the value is not list-shaped, or the list
/// is empty. Only the first of several artists is surfaced.
pub fn extract_string_array(bag: &MetadataBag, key: &str) -> (r: Option<String>)
    ensures
        opt_str_view(r) == spec_extract_first(*bag, key@),
{
    match bag.lookup(key) {
        Some(MetaValue::TextList(v)) => if v.len() > 0 {
            Some(v[0].clone())
        } else {
            None
        },
        _ => None,
    }
}

} // verus!
