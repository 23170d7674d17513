//! The metadata map a player returns: a read-only snapshot of string keys
//! and closed-variant values. The transport layer fills one entry at a time
//! through `insert`; lookups see the map that those insertions built, with a
//! later insertion of a key shadowing an earlier one.

use vstd::prelude::*;

use crate::error::MprisError;
use crate::proto::PropValue;
use crate::proto::PropValueView;
use crate::util::str_eq;

verus! {

/// The map that a sequence of insertions builds, later entries winning.
pub open spec fn spec_entries_map(s: Seq<(String, PropValue)>) -> Map<Seq<char>, PropValueView>
    decreases s.len(),
{
    if s.len() == 0 {
        Map::empty()
    } else {
        spec_entries_map(s.drop_last()).insert(s.last().0@, s.last().1@)
    }
}

/// A snapshot of a player's track metadata.
pub struct Metadata {
    entries: Vec<(String, PropValue)>,
}

impl View for Metadata {
    type V = Map<Seq<char>, PropValueView>;

    closed spec fn view(&self) -> Map<Seq<char>, PropValueView> {
        spec_entries_map(self.entries@)
    }
}

proof fn lemma_entries_map_last_match(s: Seq<(String, PropValue)>, i: int, k: Seq<char>)
    requires
        0 <= i < s.len(),
        s[i].0@ == k,
        forall|j: int| i < j < s.len() ==> s[j].0@ != k,
    ensures
        spec_entries_map(s).contains_key(k),
        spec_entries_map(s)[k] == s[i].1@,
    decreases s.len(),
{
    if i == s.len() - 1 {
    } else {
        assert(forall|j: int| i < j < s.drop_last().len() ==> s.drop_last()[j].0@ != k);
        lemma_entries_map_last_match(s.drop_last(), i, k);
        assert(s.last().0@ != k);
    }
}

proof fn lemma_entries_map_absent(s: Seq<(String, PropValue)>, k: Seq<char>)
    requires
        forall|j: int| 0 <= j < s.len() ==> s[j].0@ != k,
    ensures
        !spec_entries_map(s).contains_key(k),
    decreases s.len(),
{
    if s.len() > 0 {
        lemma_entries_map_absent(s.drop_last(), k);
    }
}

impl Metadata {
    /// An empty snapshot.
    pub fn new() -> (r: Metadata)
        ensures
            r@ == Map::<Seq<char>, PropValueView>::empty(),
    {
        Metadata { entries: Vec::new() }
    }

    /// Adds one entry; an existing value under the same key is shadowed.
    pub fn insert(&mut self, key: String, value: PropValue)
        ensures
            final(self)@ == old(self)@.insert(key@, value@),
    {
        let ghost k = key@;
        let ghost v = value@;
        let ghost before = self.entries@;
        self.entries.push((key, value));
        proof {
            assert(self.entries@.drop_last() =~= before);
            assert(self.entries@.last().0@ == k);
            assert(self.entries@.last().1@ == v);
        }
    }

    /// Looks a key up; `Some` exactly when the snapshot holds it.
    pub fn get(&self, key: &str) -> (r: Option<&PropValue>)
        ensures
            r is Some <==> self@.contains_key(key@),
            r matches Some(v) ==> v@ == self@[key@],
    {
        let mut i: usize = self.entries.len();
        while i > 0
            invariant
                i <= self.entries@.len(),
                forall|j: int| i <= j < self.entries@.len() ==> self.entries@[j].0@ != key@,
            decreases i,
        {
            i = i - 1;
            if str_eq(self.entries[i].0.as_str(), key) {
                proof {
                    lemma_entries_map_last_match(self.entries@, i as int, key@);
                }
                return Some(&self.entries[i].1);
            }
        }
        proof {
            lemma_entries_map_absent(self.entries@, key@);
        }
        None
    }
}

/// Extracts one entry from a retrieved metadata snapshot. A key the
/// snapshot lacks is a missing property — a distinct outcome from any
/// transport failure, which would already have kept the snapshot from
/// existing.
pub fn get_metadata_property<'a>(metadata: &'a Metadata, key: &str) -> (r: Result<
    &'a PropValue,
    MprisError,
>)
    ensures
        r matches Ok(v) ==> metadata@.contains_key(key@) && v@ == metadata@[key@],
        r matches Err(e) ==> !metadata@.contains_key(key@) && e is MissingProperty,
{
    match metadata.get(key) {
        Some(v) => Ok(v),
        None => Err(MprisError::MissingProperty),
    }
}

} // verus!
