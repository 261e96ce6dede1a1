//! Loosely-typed tool arguments.
//!
//! A lifecycle event carries its tool arguments as an arbitrary structured
//! document.  The library models such a document as [`ArgValue`] and reads it
//! only through fallible accessors: a missing or wrongly-shaped field never
//! fails, it simply yields `None`, which callers treat as "skip this branch".

use vstd::prelude::*;
use crate::text::eq_lit;

verus! {

/// One structured argument value.
///
/// Numbers that fit a signed 64-bit integer are held exactly; any other
/// number is collapsed to `OtherNumber`, since no classification rule reads
/// numeric fields.  Object fields keep their textual keys in document order.
#[derive(Debug)]
pub enum ArgValue {
    Null,
    Flag(bool),
    Int(i64),
    OtherNumber,
    Text(Vec<char>),
    Items(Vec<ArgValue>),
    Fields(Vec<(Vec<char>, ArgValue)>),
}

// ---------------------------------------------------------------------------
// Specification-level accessors
// ---------------------------------------------------------------------------

/// The first entry with key `key`, if any.
pub open spec fn entries_lookup(entries: Seq<(Vec<char>, ArgValue)>, key: Seq<char>) -> Option<
    ArgValue,
>
    decreases entries.len(),
{
    if entries.len() == 0 {
        None
    } else if entries[0].0@ == key {
        Some(entries[0].1)
    } else {
        entries_lookup(entries.drop_first(), key)
    }
}

/// The value of field `key`, if `v` is an object that has it.
pub open spec fn lookup(v: ArgValue, key: Seq<char>) -> Option<ArgValue> {
    match v {
        ArgValue::Fields(entries) => entries_lookup(entries@, key),
        _ => None,
    }
}

/// The characters of `v`, if `v` is text.
pub open spec fn as_text(v: ArgValue) -> Option<Seq<char>> {
    match v {
        ArgValue::Text(t) => Some(t@),
        _ => None,
    }
}

/// The elements of `v`, if `v` is a list.
pub open spec fn as_items(v: ArgValue) -> Option<Seq<ArgValue>> {
    match v {
        ArgValue::Items(l) => Some(l@),
        _ => None,
    }
}

/// The text of field `key`: `None` when the field is absent or not text.
pub open spec fn key_text(v: ArgValue, key: Seq<char>) -> Option<Seq<char>> {
    match lookup(v, key) {
        Some(w) => as_text(w),
        None => None,
    }
}

/// The value of the first *present* key among `keys`, if any.
pub open spec fn chain_lookup(v: ArgValue, keys: Seq<Seq<char>>) -> Option<ArgValue>
    decreases keys.len(),
{
    if keys.len() == 0 {
        None
    } else {
        match lookup(v, keys[0]) {
            Some(w) => Some(w),
            None => chain_lookup(v, keys.drop_first()),
        }
    }
}

/// The text of the first present key among `keys`: `None` when no key is
/// present, or when the first present key does not hold text.
pub open spec fn chain_text(v: ArgValue, keys: Seq<Seq<char>>) -> Option<Seq<char>> {
    match chain_lookup(v, keys) {
        Some(w) => as_text(w),
        None => None,
    }
}

/// The length of the list in field `key`; zero when absent or not a list.
pub open spec fn list_len_or_zero(v: ArgValue, key: Seq<char>) -> nat {
    match lookup(v, key) {
        Some(ArgValue::Items(l)) => l@.len(),
        _ => 0,
    }
}

/// How many of `items` are objects whose `status` field is the text
/// `completed`.
pub open spec fn count_completed(items: Seq<ArgValue>) -> nat
    decreases items.len(),
{
    if items.len() == 0 {
        0
    } else {
        (if key_text(items[0], "status"@) == Some("completed"@) {
            1nat
        } else {
            0nat
        }) + count_completed(items.drop_first())
    }
}

pub proof fn lemma_count_completed_le_len(items: Seq<ArgValue>)
    ensures
        count_completed(items) <= items.len(),
    decreases items.len(),
{
    if items.len() > 0 {
        lemma_count_completed_le_len(items.drop_first());
    }
}

// ---------------------------------------------------------------------------
// Executable accessors
// ---------------------------------------------------------------------------

impl ArgValue {
    /// The value of field `key`, if this is an object that has it.
    pub fn get<'a>(&'a self, key: &str) -> (r: Option<&'a ArgValue>)
        ensures
            match lookup(*self, key@) {
                Some(w) => r is Some && *r->0 == w,
                None => r is None,
            },
    {
        match self {
            ArgValue::Fields(entries) => {
                let n = entries.len();
                let mut i: usize = 0;
                proof {
                    assert(entries@.skip(0) =~= entries@);
                }
                while i < n
                    invariant
                        n == entries@.len(),
                        i <= n,
                        lookup(*self, key@) == entries_lookup(entries@, key@),
                        entries_lookup(entries@, key@) == entries_lookup(
                            entries@.skip(i as int),
                            key@,
                        ),
                    decreases n - i,
                {
                    if eq_lit(&entries[i].0, key) {
                        proof {
                            assert(entries@.skip(i as int)[0] == entries@[i as int]);
                            assert(entries_lookup(entries@.skip(i as int), key@) == Some(
                                entries@[i as int].1));
                            assert(lookup(*self, key@) == entries_lookup(entries@, key@));
                        }
                        return Some(&entries[i].1);
                    }
                    proof {
                        assert(entries@.skip(i as int)[0] == entries@[i as int]);
                        assert(entries@.skip(i as int).drop_first() =~= entries@.skip(i + 1));
                    }
                    i = i + 1;
                }
                proof {
                    assert(entries@.skip(i as int) =~= Seq::<(Vec<char>, ArgValue)>::empty());
                }
                None
            },
            _ => None,
        }
    }

    /// The characters of this value, if it is text.
    pub fn text_ref<'a>(&'a self) -> (r: Option<&'a Vec<char>>)
        ensures
            match as_text(*self) {
                Some(t) => r is Some && r->0@ == t,
                None => r is None,
            },
    {
        match self {
            ArgValue::Text(t) => Some(t),
            _ => None,
        }
    }

    /// The elements of this value, if it is a list.
    pub fn items_ref<'a>(&'a self) -> (r: Option<&'a Vec<ArgValue>>)
        ensures
            match as_items(*self) {
                Some(l) => r is Some && r->0@ == l,
                None => r is None,
            },
    {
        match self {
            ArgValue::Items(l) => Some(l),
            _ => None,
        }
    }

    /// The text of field `key`, if present and textual.
    pub fn get_text<'a>(&'a self, key: &str) -> (r: Option<&'a Vec<char>>)
        ensures
            match key_text(*self, key@) {
                Some(t) => r is Some && r->0@ == t,
                None => r is None,
            },
    {
        match self.get(key) {
            Some(w) => w.text_ref(),
            None => None,
        }
    }

    /// The text of the first present key among `keys`, if textual.
    pub fn chain_get_text<'a>(&'a self, keys: &Vec<&str>) -> (r: Option<&'a Vec<char>>)
        ensures
            match chain_text(*self, keys.deep_view()) {
                Some(t) => r is Some && r->0@ == t,
                None => r is None,
            },
    {
        let n = keys.len();
        let mut i: usize = 0;
        proof {
            assert(keys.deep_view().skip(0) =~~= keys.deep_view());
        }
        while i < n
            invariant
                n == keys@.len(),
                i <= n,
                chain_lookup(*self, keys.deep_view()) == chain_lookup(
                    *self,
                    keys.deep_view().skip(i as int),
                ),
            decreases n - i,
        {
            proof {
                assert(keys.deep_view().skip(i as int)[0] == keys.deep_view()[i as int]);
                assert(keys.deep_view()[i as int] == keys@[i as int]@);
                assert(keys.deep_view().skip(i as int).drop_first() =~~= keys.deep_view().skip(
                    i + 1));
            }
            match self.get(keys[i]) {
                Some(w) => {
                    return w.text_ref();
                },
                None => {},
            }
            i = i + 1;
        }
        proof {
            assert(keys.deep_view().skip(i as int) =~~= Seq::<Seq<char>>::empty());
        }
        None
    }

    /// The length of the list in field `key`; zero when absent or not a list.
    pub fn get_list_len(&self, key: &str) -> (r: usize)
        ensures
            r == list_len_or_zero(*self, key@),
    {
        match self.get(key) {
            Some(w) => match w {
                ArgValue::Items(l) => l.len(),
                _ => 0,
            },
            None => 0,
        }
    }
}

/// How many of `items` are objects whose `status` field is `completed`.
pub fn count_completed_items(items: &Vec<ArgValue>) -> (r: usize)
    ensures
        r == count_completed(items@),
{
    let n = items.len();
    let mut acc: usize = 0;
    let mut i: usize = 0;
    proof {
        lemma_count_completed_le_len(items@);
        assert(items@.skip(0) =~= items@);
    }
    while i < n
        invariant
            n == items@.len(),
            i <= n,
            acc <= i,
            count_completed(items@) == acc + count_completed(items@.skip(i as int)),
        decreases n - i,
    {
        proof {
            assert(items@.skip(i as int)[0] == items@[i as int]);
            assert(items@.skip(i as int).drop_first() =~= items@.skip(i + 1));
            lemma_count_completed_le_len(items@.skip(i + 1));
        }
        let done = match items[i].get_text("status") {
            Some(t) => eq_lit(t, "completed"),
            None => false,
        };
        if done {
            acc = acc + 1;
        }
        i = i + 1;
    }
    proof {
        assert(items@.skip(i as int) =~= Seq::<ArgValue>::empty());
    }
    acc
}

} // verus!
