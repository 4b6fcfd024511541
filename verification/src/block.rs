//! One block of the transcoder's progress channel: the `key=value` lines
//! that have come in since the last delimiter.

use vstd::prelude::*;
use vstd::string::{StrSliceExecFns, StringExecFns};

use crate::text::{chars_of, find_char};

verus! {

/// What `line` splits into at its first `=`: the text before it and the text
/// after it. A line without `=` splits into nothing.
pub open spec fn key_value_of(line: Seq<char>) -> Option<(Seq<char>, Seq<char>)> {
    match line.index_of_first('=') {
        Some(at) => Some((line.subrange(0, at), line.subrange(at + 1, line.len() as int))),
        None => None,
    }
}

/// Splits a progress line at its first `=` into key and value.
pub fn split_key_value(line: &str) -> (pair: Option<(String, String)>)
    ensures
        match pair {
            Some((key, value)) => key_value_of(line@) == Some((key@, value@)),
            None => key_value_of(line@) is None,
        },
{
    let chars = chars_of(line);
    match find_char(chars.as_slice(), '=') {
        Some(at) => {
            let key = String::from_str(line.substring_char(0, at));
            let value = String::from_str(line.substring_char(at + 1, chars.len()));
            Some((key, value))
        },
        None => None,
    }
}

/// The keys and values of the current progress block. A key occurs once; a
/// later value for it replaces the earlier one.
pub struct ProgressBlock {
    entries: Vec<(String, String)>,
}

/// Whether the entry at `i` holds `key`.
spec fn holds_key(entries: Seq<(String, String)>, i: int, key: Seq<char>) -> bool {
    0 <= i < entries.len() && entries[i].0@ == key
}

/// No two entries hold the same key.
spec fn keys_distinct(entries: Seq<(String, String)>) -> bool {
    forall|i: int, j: int|
        0 <= i < entries.len() && 0 <= j < entries.len() && i != j ==> (#[trigger] entries[i]).0@
            != (#[trigger] entries[j]).0@
}

/// The map that the entries stand for.
spec fn map_of(entries: Seq<(String, String)>) -> Map<Seq<char>, Seq<char>> {
    Map::new(
        |key: Seq<char>| exists|i: int| holds_key(entries, i, key),
        |key: Seq<char>| entries[choose|i: int| holds_key(entries, i, key)].1@,
    )
}

impl View for ProgressBlock {
    type V = Map<Seq<char>, Seq<char>>;

    closed spec fn view(&self) -> Map<Seq<char>, Seq<char>> {
        map_of(self.entries@)
    }
}

impl ProgressBlock {
    /// Every block holds each of its keys once.
    #[verifier::type_invariant]
    spec fn inv(&self) -> bool {
        keys_distinct(self.entries@)
    }

    /// A block without entries.
    pub fn new() -> (block: ProgressBlock)
        ensures
            block@ == Map::<Seq<char>, Seq<char>>::empty(),
    {
        let block = ProgressBlock { entries: Vec::new() };
        assert(block@ =~= Map::<Seq<char>, Seq<char>>::empty());
        block
    }

    /// The index of the entry that holds `key`.
    fn position(&self, key: &String) -> (found: Option<usize>)
        ensures
            match found {
                Some(i) => holds_key(self.entries@, i as int, key@),
                None => forall|i: int| !holds_key(self.entries@, i, key@),
            },
    {
        let mut i: usize = 0;
        while i < self.entries.len()
            invariant
                i <= self.entries.len(),
                forall|j: int| 0 <= j < i ==> !holds_key(self.entries@, j, key@),
            decreases self.entries.len() - i,
        {
            if self.entries[i].0 == *key {
                return Some(i);
            }
            i = i + 1;
        }
        None
    }

    /// Records `value` under `key`, in place of what the key had before.
    pub fn insert(&mut self, key: String, value: String)
        ensures
            final(self)@ == old(self)@.insert(key@, value@),
    {
        proof {
            use_type_invariant(&*self);
        }
        let ghost before = self.entries@;
        let found = self.position(&key);
        let mut entries: Vec<(String, String)> = Vec::new();
        core::mem::swap(&mut entries, &mut self.entries);
        match found {
            Some(i) => {
                entries.set(i, (key, value));
                let ghost after = entries@;
                assert forall|j: int, k: Seq<char>| holds_key(after, j, k) <==> holds_key(
                    before,
                    j,
                    k,
                ) by {}
                assert(keys_distinct(after)) by {
                    assert forall|a: int, b: int|
                        0 <= a < after.len() && 0 <= b < after.len() && a != b implies (
                    #[trigger] after[a]).0@ != (#[trigger] after[b]).0@ by {
                        assert(holds_key(before, a, after[a].0@));
                        assert(holds_key(before, b, after[b].0@));
                    }
                }
                assert(map_of(after) =~= map_of(before).insert(key@, value@)) by {
                    assert forall|k: Seq<char>| map_of(after).contains_key(k) implies #[trigger] map_of(
                        after,
                    )[k] == map_of(before).insert(key@, value@)[k] by {
                        let a = choose|j: int| holds_key(after, j, k);
                        let b = choose|j: int| holds_key(before, j, k);
                        assert(holds_key(before, a, k));
                        assert(a == b);
                    }
                    assert(holds_key(before, i as int, key@));
                }
            },
            None => {
                entries.push((key, value));
                let ghost after = entries@;
                let ghost last = before.len() as int;
                assert(holds_key(after, last, key@));
                assert forall|j: int, k: Seq<char>| holds_key(after, j, k) <==> (holds_key(
                    before,
                    j,
                    k,
                ) || (j == last && k == key@)) by {}
                assert(keys_distinct(after)) by {
                    assert forall|a: int, b: int|
                        0 <= a < after.len() && 0 <= b < after.len() && a != b implies (
                    #[trigger] after[a]).0@ != (#[trigger] after[b]).0@ by {
                        if a < last {
                            assert(holds_key(before, a, after[a].0@));
                        }
                        if b < last {
                            assert(holds_key(before, b, after[b].0@));
                        }
                    }
                }
                assert(map_of(after) =~= map_of(before).insert(key@, value@)) by {
                    assert forall|k: Seq<char>| map_of(after).contains_key(k) implies #[trigger] map_of(
                        after,
                    )[k] == map_of(before).insert(key@, value@)[k] by {
                        let a = choose|j: int| holds_key(after, j, k);
                        if k != key@ {
                            let b = choose|j: int| holds_key(before, j, k);
                            assert(holds_key(before, a, k));
                            assert(holds_key(after, b, k));
                            assert(a == b);
                        } else {
                            assert(a == last);
                        }
                    }
                }
            },
        }
        self.entries = entries;
    }

    /// Looks up the value recorded under `key`.
    pub fn get(&self, key: &str) -> (value: Option<&String>)
        ensures
            match value {
                Some(value) => self@.contains_key(key@) && self@[key@] == value@,
                None => !self@.contains_key(key@),
            },
    {
        proof {
            use_type_invariant(self);
        }
        let key = String::from_str(key);
        match self.position(&key) {
            Some(i) => {
                proof {
                    let chosen = choose|j: int| holds_key(self.entries@, j, key@);
                    assert(holds_key(self.entries@, i as int, key@));
                    assert(chosen == i);
                }
                Some(&self.entries[i].1)
            },
            None => None,
        }
    }

    /// Forgets every entry.
    pub fn clear(&mut self)
        ensures
            final(self)@ == Map::<Seq<char>, Seq<char>>::empty(),
    {
        self.entries = Vec::new();
        assert(self@ =~= Map::<Seq<char>, Seq<char>>::empty());
    }
}

} // verus!
