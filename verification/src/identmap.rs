//! The scope identifier map: a stable numeric index for every
//! reactively-trackable name visible in the current lexical scope.
//!
//! One instance exists per lexical scope. A nested function component
//! gets a fresh, empty map of its own: identifiers of the enclosing
//! scope are deliberately not visible as dependency sources inside a
//! nested component body.

use vstd::prelude::*;

use crate::ast::strings_view;
use crate::text::str_eq;

verus! {

/// First index of `n` among `names`, or `-1` when absent.
pub open spec fn find_index(names: Seq<Seq<char>>, n: Seq<char>) -> int
    decreases names,
{
    if names.len() == 0 {
        -1
    } else if names[0] == n {
        0
    } else {
        let r = find_index(names.drop_first(), n);
        if r < 0 {
            -1
        } else {
            r + 1
        }
    }
}

/// What the map holds after a lookup-or-create of `n`.
pub open spec fn register_name(names: Seq<Seq<char>>, n: Seq<char>) -> Seq<Seq<char>> {
    if names.contains(n) {
        names
    } else {
        names.push(n)
    }
}

/// The index a lookup-or-create of `n` yields.
pub open spec fn name_index(names: Seq<Seq<char>>, n: Seq<char>) -> int {
    if names.contains(n) {
        find_index(names, n)
    } else {
        names.len() as int
    }
}

/// `find_index` finds the first occurrence, and only that.
pub proof fn lemma_find_index(names: Seq<Seq<char>>, n: Seq<char>)
    ensures
        names.contains(n) <==> find_index(names, n) >= 0,
        find_index(names, n) >= 0 ==> find_index(names, n) < names.len() && names[find_index(
            names,
            n,
        )] == n,
        forall|j: int| 0 <= j < find_index(names, n) ==> names[j] != n,
    decreases names,
{
    if names.len() > 0 {
        lemma_find_index(names.drop_first(), n);
        if names[0] == n {
            assert(names.contains(n));
        } else {
            assert forall|j: int| 0 <= j < find_index(names, n) implies names[j] != n by {
                if j > 0 {
                    assert(names.drop_first()[j - 1] == names[j]);
                }
            }
            assert(names.drop_first().contains(n) <==> names.contains(n)) by {
                if names.contains(n) {
                    let j = choose|j: int| 0 <= j < names.len() && names[j] == n;
                    assert(names.drop_first()[j - 1] == n);
                }
                if names.drop_first().contains(n) {
                    let j = choose|j: int|
                        0 <= j < names.drop_first().len() && names.drop_first()[j] == n;
                    assert(names[j + 1] == n);
                }
            }
        }
    }
}

/// A scan that saw `names[i] == n` after `i` misses pins `find_index`.
pub proof fn lemma_find_index_at(names: Seq<Seq<char>>, n: Seq<char>, i: int)
    requires
        0 <= i < names.len(),
        names[i] == n,
        forall|j: int| 0 <= j < i ==> names[j] != n,
    ensures
        find_index(names, n) == i,
        names.contains(n),
    decreases names,
{
    assert(names.contains(n));
    if i > 0 {
        lemma_find_index_at(names.drop_first(), n, i - 1);
    }
}

/// The scope identifier map. Names are stored in assignment order;
/// the index of a name is its position.
#[derive(Debug, PartialEq, Eq)]
pub struct IdentMap {
    pub names: Vec<String>,
}

impl View for IdentMap {
    type V = Seq<Seq<char>>;

    open spec fn view(&self) -> Seq<Seq<char>> {
        strings_view(self.names@)
    }
}

impl IdentMap {
    /// No name is stored twice.
    pub open spec fn well_formed(&self) -> bool {
        forall|i: int, j: int| 0 <= i < j < self@.len() ==> self@[i] != self@[j]
    }

    /// A fresh, empty scope.
    pub fn new() -> (m: IdentMap)
        ensures
            m@ == Seq::<Seq<char>>::empty(),
            m.well_formed(),
    {
        let m = IdentMap { names: Vec::new() };
        proof {
            assert(m@ =~= Seq::<Seq<char>>::empty());
        }
        m
    }

    /// Read-only lookup: the index of `name`, if it is tracked here.
    pub fn lookup(&self, name: &str) -> (r: Option<usize>)
        ensures
            match r {
                Some(i) => self@.contains(name@) && i as int == find_index(self@, name@),
                None => !self@.contains(name@),
            },
    {
        let n = self.names.len();
        let mut i: usize = 0;
        while i < n
            invariant
                n == self.names@.len(),
                i <= n,
                forall|j: int| 0 <= j < i ==> self@[j] != name@,
            decreases n - i,
        {
            if str_eq(self.names[i].as_str(), name) {
                proof {
                    lemma_find_index_at(self@, name@, i as int);
                }
                return Some(i);
            }
            i += 1;
        }
        proof {
            assert(!self@.contains(name@)) by {
                if self@.contains(name@) {
                    let j = choose|j: int| 0 <= j < self@.len() && self@[j] == name@;
                    assert(self@[j] != name@);
                }
            }
        }
        None
    }

    /// Lookup-or-create: always succeeds; the same name always yields
    /// the same index for the lifetime of the scope, and a new name is
    /// assigned the next index in order.
    pub fn get_or_create(&mut self, name: &str) -> (idx: usize)
        requires
            old(self).well_formed(),
        ensures
            final(self).well_formed(),
            final(self)@ == register_name(old(self)@, name@),
            idx as int == name_index(old(self)@, name@),
    {
        let n = self.names.len();
        let mut i: usize = 0;
        while i < n
            invariant
                n == self.names@.len(),
                i <= n,
                self.well_formed(),
                self@ == old(self)@,
                forall|j: int| 0 <= j < i ==> self@[j] != name@,
            decreases n - i,
        {
            if str_eq(self.names[i].as_str(), name) {
                proof {
                    lemma_find_index_at(self@, name@, i as int);
                    assert(self.well_formed());
                }
                return i;
            }
            i += 1;
        }
        proof {
            assert(!self@.contains(name@)) by {
                if self@.contains(name@) {
                    let j = choose|j: int| 0 <= j < self@.len() && self@[j] == name@;
                    assert(self@[j] != name@);
                }
            }
        }
        let ghost before = self@;
        self.names.push(name.to_owned());
        proof {
            assert(self@ =~= before.push(name@));
        }
        n
    }
}

} // verus!
