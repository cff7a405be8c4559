//! A small set of strings, used for the target allow-list, the targets seen
//! while processing manifests, and the reference set the garbage collector
//! consults.

use vstd::prelude::*;
use crate::strutil::str_eq;

verus! {

/// A set of strings; membership goes by character content.
pub struct StrSet {
    items: Vec<String>,
}

proof fn lemma_push_to_set(s: Seq<Seq<char>>, x: Seq<char>)
    ensures
        s.push(x).to_set() == s.to_set().insert(x),
{
    assert(s.push(x).to_set() =~= s.to_set().insert(x)) by {
        assert forall|e: Seq<char>| s.push(x).contains(e) implies s.to_set().insert(x).contains(
            e,
        ) by {
            let k = choose|k: int| 0 <= k < s.push(x).len() && s.push(x)[k] == e;
            if k < s.len() {
                assert(s[k] == e);
            }
        };
        assert forall|e: Seq<char>| s.to_set().insert(x).contains(e) implies s.push(x).contains(
            e,
        ) by {
            if e == x {
                assert(s.push(x)[s.len() as int] == e);
            } else {
                let k = choose|k: int| 0 <= k < s.len() && s[k] == e;
                assert(s.push(x)[k] == e);
            }
        };
    }
}

impl View for StrSet {
    type V = Set<Seq<char>>;

    closed spec fn view(&self) -> Set<Seq<char>> {
        self.items.deep_view().to_set()
    }
}

impl StrSet {
    pub fn new() -> (r: StrSet)
        ensures
            r@ == Set::<Seq<char>>::empty(),
    {
        let items: Vec<String> = Vec::new();
        proof {
            assert(items.deep_view() =~= Seq::<Seq<char>>::empty());
            assert(items.deep_view().to_set() =~= Set::<Seq<char>>::empty());
        }
        StrSet { items }
    }

    /// Builds the set holding exactly the given strings.
    pub fn from_items(items: Vec<String>) -> (r: StrSet)
        ensures
            r@ == items.deep_view().to_set(),
    {
        StrSet { items }
    }

    pub fn contains(&self, x: &str) -> (r: bool)
        ensures
            r == self@.contains(x@),
    {
        let mut i: usize = 0;
        while i < self.items.len()
            invariant
                i <= self.items.len(),
                forall|k: int| 0 <= k < i ==> self.items.deep_view()[k] != x@,
            decreases self.items.len() - i,
        {
            if str_eq(self.items[i].as_str(), x) {
                proof {
                    assert(self.items.deep_view()[i as int] == x@);
                    assert(self.items.deep_view().contains(x@));
                }
                return true;
            }
            i += 1;
        }
        proof {
            if self.items.deep_view().contains(x@) {
                let k = choose|k: int|
                    0 <= k < self.items.deep_view().len() && self.items.deep_view()[k] == x@;
                assert(self.items.deep_view()[k] == x@);
            }
        }
        false
    }

    pub fn insert(&mut self, x: String)
        ensures
            final(self)@ == old(self)@.insert(x@),
    {
        if self.contains(x.as_str()) {
            proof {
                assert(self@ =~= old(self)@.insert(x@));
            }
        } else {
            let ghost pre = self.items.deep_view();
            self.items.push(x);
            proof {
                assert(self.items.deep_view() =~= pre.push(x@));
                lemma_push_to_set(pre, x@);
            }
        }
    }

    /// Adds every member of `other`.
    pub fn insert_all(&mut self, other: &StrSet)
        ensures
            final(self)@ == old(self)@.union(other@),
    {
        let ghost dv = other.items.deep_view();
        let mut i: usize = 0;
        proof {
            assert(dv.subrange(0, 0).to_set() =~= Set::<Seq<char>>::empty());
            assert(self@ =~= old(self)@.union(dv.subrange(0, 0).to_set()));
        }
        while i < other.items.len()
            invariant
                i <= other.items@.len(),
                dv == other.items.deep_view(),
                self@ == old(self)@.union(dv.subrange(0, i as int).to_set()),
            decreases other.items@.len() - i,
        {
            self.insert(other.items[i].clone());
            proof {
                assert(dv.subrange(0, i + 1) =~= dv.subrange(0, i as int).push(dv[i as int]));
                lemma_push_to_set(dv.subrange(0, i as int), dv[i as int]);
                assert(self@ =~= old(self)@.union(dv.subrange(0, i + 1).to_set()));
            }
            i += 1;
        }
        proof {
            assert(dv.subrange(0, other.items@.len() as int) =~= dv);
        }
    }

    /// The members, one each, for a caller that walks the set.
    pub fn items(&self) -> (r: &Vec<String>)
        ensures
            r.deep_view().to_set() == self@,
            forall|k: int| 0 <= k < r.deep_view().len() ==> self@.contains(#[trigger] r.deep_view()[k]),
    {
        proof {
            assert forall|k: int|
                0 <= k < self.items.deep_view().len() implies self@.contains(
                #[trigger] self.items.deep_view()[k],
            ) by {
                assert(self.items.deep_view().contains(self.items.deep_view()[k]));
            };
        }
        &self.items
    }
}

} // verus!
