//! Notifications and their metadata.
//!
//! A notification carries a title, a message, a category tag, a priority
//! ordinal and a mapping of string metadata keys to string values.  The
//! metadata is stored as a vector of entries; its meaning is the map obtained
//! by inserting the entries in order, so a later entry with the same key
//! wins, exactly as when the receiving side reads the serialized object.

use vstd::prelude::*;
use crate::text::lit_chars;

verus! {

/// One notification, ready for the wire.
pub struct Notification {
    pub title: Vec<char>,
    pub message: Vec<char>,
    /// The wire `type` tag of the notification.
    pub category: Vec<char>,
    /// Urgency, `0` (lowest) to `3` (highest).
    pub priority: u8,
    pub metadata: Vec<(Vec<char>, Vec<char>)>,
}

/// The mathematical content of a notification.
pub struct NotifSpec {
    pub title: Seq<char>,
    pub message: Seq<char>,
    pub category: Seq<char>,
    pub priority: int,
    pub metadata: Map<Seq<char>, Seq<char>>,
}

/// The views of a sequence of metadata entries.
pub open spec fn pairs_view(m: Seq<(Vec<char>, Vec<char>)>) -> Seq<(Seq<char>, Seq<char>)> {
    m.map_values(|p: (Vec<char>, Vec<char>)| (p.0@, p.1@))
}

/// `acc` with `entries` inserted in order; a later key wins.
pub open spec fn insert_entries(
    acc: Map<Seq<char>, Seq<char>>,
    entries: Seq<(Seq<char>, Seq<char>)>,
) -> Map<Seq<char>, Seq<char>>
    decreases entries.len(),
{
    if entries.len() == 0 {
        acc
    } else {
        insert_entries(acc.insert(entries[0].0, entries[0].1), entries.drop_first())
    }
}

/// The map meant by a metadata vector.
pub open spec fn meta_map(m: Seq<(Vec<char>, Vec<char>)>) -> Map<Seq<char>, Seq<char>> {
    insert_entries(Map::empty(), pairs_view(m))
}

/// Whether the notification `n` realizes the content `m`.
pub open spec fn matches_spec(n: Notification, m: NotifSpec) -> bool {
    &&& n.title@ == m.title
    &&& n.message@ == m.message
    &&& n.category@ == m.category
    &&& n.priority as int == m.priority
    &&& meta_map(n.metadata@) == m.metadata
}

pub proof fn lemma_insert_entries_push(
    acc: Map<Seq<char>, Seq<char>>,
    entries: Seq<(Seq<char>, Seq<char>)>,
    k: Seq<char>,
    v: Seq<char>,
)
    ensures
        insert_entries(acc, entries + seq![(k, v)]) == insert_entries(acc, entries).insert(k, v),
    decreases entries.len(),
{
    if entries.len() == 0 {
        let s = entries + seq![(k, v)];
        assert(s[0] == (k, v));
        assert(s.drop_first() =~= Seq::<(Seq<char>, Seq<char>)>::empty());
        assert(insert_entries(acc, s) == insert_entries(acc.insert(k, v), s.drop_first()));
        assert(insert_entries(acc.insert(k, v), s.drop_first()) == acc.insert(k, v));
    } else {
        assert((entries + seq![(k, v)])[0] == entries[0]);
        assert((entries + seq![(k, v)]).drop_first() =~= entries.drop_first() + seq![(k, v)]);
        lemma_insert_entries_push(
            acc.insert(entries[0].0, entries[0].1),
            entries.drop_first(),
            k,
            v,
        );
    }
}

/// Append one metadata entry; at map level this is an insert.
pub fn meta_push(m: &mut Vec<(Vec<char>, Vec<char>)>, key: &str, val: Vec<char>)
    ensures
        meta_map(final(m)@) == meta_map(old(m)@).insert(key@, val@),
{
    let ghost vv = val@;
    let k = lit_chars(key);
    m.push((k, val));
    proof {
        assert(pairs_view(m@) =~~= pairs_view(old(m)@) + seq![(key@, vv)]);
        lemma_insert_entries_push(Map::empty(), pairs_view(old(m)@), key@, vv);
    }
}

/// Append one metadata entry whose key is already a vector.
pub fn meta_push_pair(m: &mut Vec<(Vec<char>, Vec<char>)>, key: Vec<char>, val: Vec<char>)
    ensures
        meta_map(final(m)@) == meta_map(old(m)@).insert(key@, val@),
{
    let ghost kv = key@;
    let ghost vv = val@;
    m.push((key, val));
    proof {
        assert(pairs_view(m@) =~~= pairs_view(old(m)@) + seq![(kv, vv)]);
        lemma_insert_entries_push(Map::empty(), pairs_view(old(m)@), kv, vv);
    }
}

} // verus!
