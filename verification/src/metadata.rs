//! The metadata of an object: a finite map from names to texts.

use crate::text::same_text;
use vstd::prelude::*;

verus! {

/// Some entry of `entries` is named `name`.
pub open spec fn has_name(entries: Seq<(String, String)>, name: Seq<char>) -> bool {
    exists|i: int| 0 <= i < entries.len() && (#[trigger] entries[i]).0@ == name
}

/// Position of an entry of `entries` that is named `name`.
pub open spec fn position_of(entries: Seq<(String, String)>, name: Seq<char>) -> int {
    choose|i: int| 0 <= i < entries.len() && (#[trigger] entries[i]).0@ == name
}

/// No two entries of `entries` have the same name.
pub open spec fn distinct_names(entries: Seq<(String, String)>) -> bool {
    forall|i: int, j: int|
        0 <= i < j < entries.len() ==> (#[trigger] entries[i]).0@ != (#[trigger] entries[j]).0@
}

/// The map that a list of entries with distinct names stands for.
pub open spec fn map_of(entries: Seq<(String, String)>) -> Map<Seq<char>, Seq<char>> {
    Map::new(
        |name: Seq<char>| has_name(entries, name),
        |name: Seq<char>| entries[position_of(entries, name)].1@,
    )
}

/// The metadata of an object. Each name occurs at most once.
#[derive(Debug)]
pub struct Metadata {
    entries: Vec<(String, String)>,
}

impl View for Metadata {
    type V = Map<Seq<char>, Seq<char>>;

    closed spec fn view(&self) -> Map<Seq<char>, Seq<char>> {
        map_of(self.entries@)
    }
}

impl Metadata {
    #[verifier::type_invariant]
    spec fn well_formed(&self) -> bool {
        distinct_names(self.entries@)
    }

    /// Metadata without entries.
    pub fn new() -> (res: Metadata)
        ensures
            res@ == Map::<Seq<char>, Seq<char>>::empty(),
    {
        let res = Metadata { entries: Vec::new() };
        proof {
            assert(res@ =~= Map::<Seq<char>, Seq<char>>::empty());
        }
        res
    }

    /// Where the entry named `name` stands, if there is one.
    fn find(&self, name: &str) -> (res: Option<usize>)
        ensures
            (match res {
                Some(i) => i < self.entries@.len() && self.entries@[i as int].0@ == name@,
                None => !has_name(self.entries@, name@),
            }),
    {
        let mut i: usize = 0;
        while i < self.entries.len()
            invariant
                i <= self.entries@.len(),
                forall|j: int| 0 <= j < i ==> (#[trigger] self.entries@[j]).0@ != name@,
            decreases self.entries@.len() - i,
        {
            if same_text(self.entries[i].0.as_str(), name) {
                return Some(i);
            }
            i = i + 1;
        }
        None
    }

    /// The text kept under `name`, if there is one.
    pub fn get(&self, name: &str) -> (res: Option<&String>)
        ensures
            (match res {
                Some(value) => self@.contains_key(name@) && self@[name@] == value@,
                None => !self@.contains_key(name@),
            }),
    {
        proof {
            use_type_invariant(self);
        }
        match self.find(name) {
            Some(i) => {
                proof {
                    assert(has_name(self.entries@, name@));
                    let p = position_of(self.entries@, name@);
                    assert(p == i);
                }
                Some(&self.entries[i].1)
            },
            None => None,
        }
    }

    /// Keeps `value` under `name`, in place of what was kept there.
    pub fn insert(&mut self, name: String, value: String)
        ensures
            final(self)@ == old(self)@.insert(name@, value@),
    {
        proof {
            use_type_invariant(&*self);
        }
        let ghost before = self.entries@;
        let found = self.find(name.as_str());
        let mut entries: Vec<(String, String)> = Vec::new();
        std::mem::swap(&mut entries, &mut self.entries);
        match found {
            Some(i) => {
                entries.set(i, (name, value));
            },
            None => {
                entries.push((name, value));
            },
        }
        let ghost after = entries@;
        proof {
            assert(distinct_names(after));
        }
        std::mem::swap(&mut entries, &mut self.entries);
        proof {
            assert forall|k: Seq<char>| has_name(after, k) <==> (k == name@ || has_name(
                before,
                k,
            )) by {
                if has_name(before, k) {
                    let p = position_of(before, k);
                    assert(after[p].0@ == k);
                }
                if k == name@ {
                    match found {
                        Some(i) => {
                            assert(after[i as int].0@ == k);
                        },
                        None => {
                            assert(after[after.len() - 1].0@ == k);
                        },
                    }
                }
                if has_name(after, k) && k != name@ {
                    let p = position_of(after, k);
                    assert(before[p].0@ == k);
                }
            }
            assert forall|k: Seq<char>| has_name(after, k) implies #[trigger] map_of(after)[k]
                == map_of(before).insert(name@, value@)[k] by {
                let p = position_of(after, k);
                if k == name@ {
                    match found {
                        Some(i) => {
                            assert(after[i as int].0@ == k);
                            assert(p == i);
                        },
                        None => {
                            assert(after[after.len() - 1].0@ == k);
                            assert(p == after.len() - 1);
                        },
                    }
                } else {
                    assert(before[p].0@ == k);
                    assert(position_of(before, k) == p);
                }
            }
            assert(map_of(after) =~= map_of(before).insert(name@, value@));
        }
    }

    /// The entries, each name once, in no particular order.
    pub fn entries(&self) -> (res: &Vec<(String, String)>)
        ensures
            distinct_names(res@),
            map_of(res@) == self@,
    {
        proof {
            use_type_invariant(self);
        }
        &self.entries
    }
}

} // verus!
