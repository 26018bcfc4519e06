//! Bonds: the name that each caller has given to the kitty. A caller is known
//! by the bytes of its identity.

use vstd::prelude::*;

verus! {

/// What the bonds hold: for each caller with a bond, the name it chose.
pub type Names = Map<Seq<u8>, Seq<char>>;

/// One caller with the name it chose.
struct Bond {
    caller: Vec<u8>,
    name: String,
}

/// The names that callers have given to the kitty, one for each caller.
pub struct KittyBonds {
    bonds: Vec<Bond>,
}

spec fn has_bond(bonds: Seq<Bond>, caller: Seq<u8>) -> bool {
    exists|i: int| 0 <= i < bonds.len() && (#[trigger] bonds[i]).caller@ == caller
}

spec fn bond_of(bonds: Seq<Bond>, caller: Seq<u8>) -> int {
    choose|i: int| 0 <= i < bonds.len() && (#[trigger] bonds[i]).caller@ == caller
}

spec fn distinct_callers(bonds: Seq<Bond>) -> bool {
    forall|i: int, j: int|
        0 <= i < j < bonds.len() ==> (#[trigger] bonds[i]).caller@ != (#[trigger] bonds[j]).caller@
}

spec fn names_of(bonds: Seq<Bond>) -> Names {
    Map::new(
        |caller: Seq<u8>| has_bond(bonds, caller),
        |caller: Seq<u8>| bonds[bond_of(bonds, caller)].name@,
    )
}

/// With distinct callers, the bond at `i` is the one that its caller leads
/// to.
proof fn lemma_bond_found(bonds: Seq<Bond>, i: int)
    requires
        distinct_callers(bonds),
        0 <= i < bonds.len(),
    ensures
        has_bond(bonds, bonds[i].caller@),
        bond_of(bonds, bonds[i].caller@) == i,
        names_of(bonds).contains_key(bonds[i].caller@),
        names_of(bonds)[bonds[i].caller@] == bonds[i].name@,
{
    let caller = bonds[i].caller@;
    let j = bond_of(bonds, caller);
    assert(0 <= j < bonds.len() && bonds[j].caller@ == caller);
    if j < i {
        assert(bonds[j].caller@ != bonds[i].caller@);
    } else if i < j {
        assert(bonds[i].caller@ != bonds[j].caller@);
    }
}

/// Tells whether two byte strings are the same.
pub fn same_bytes(left: &Vec<u8>, right: &Vec<u8>) -> (same: bool)
    ensures
        same == (left@ == right@),
{
    if left.len() != right.len() {
        return false;
    }
    let mut i: usize = 0;
    while i < left.len()
        invariant
            i <= left.len(),
            left.len() == right.len(),
            forall|j: int| 0 <= j < i ==> left@[j] == right@[j],
        decreases left.len() - i,
    {
        if left[i] != right[i] {
            return false;
        }
        i += 1;
    }
    assert(left@ =~= right@);
    true
}

impl View for KittyBonds {
    type V = Names;

    closed spec fn view(&self) -> Names {
        names_of(self.bonds@)
    }
}

impl KittyBonds {
    #[verifier::type_invariant]
    spec fn inv(self) -> bool {
        distinct_callers(self.bonds@)
    }

    /// No bonds.
    pub fn new() -> (bonds: KittyBonds)
        ensures
            bonds@ == Names::empty(),
    {
        let bonds = KittyBonds { bonds: Vec::new() };
        assert(bonds@ =~= Names::empty());
        bonds
    }

    /// The index of the bond of `caller`, if it has one.
    fn find(&self, caller: &Vec<u8>) -> (at: Option<usize>)
        ensures
            match at {
                Some(i) => i < self.bonds.len() && self.bonds[i as int].caller@ == caller@,
                None => !has_bond(self.bonds@, caller@),
            },
    {
        let mut i: usize = 0;
        while i < self.bonds.len()
            invariant
                i <= self.bonds.len(),
                forall|j: int| 0 <= j < i ==> (#[trigger] self.bonds[j]).caller@ != caller@,
            decreases self.bonds.len() - i,
        {
            if same_bytes(&self.bonds[i].caller, caller) {
                return Some(i);
            }
            i += 1;
        }
        None
    }

    /// Binds `caller` to `name`, in place of the name it had, if any.
    pub fn save(&mut self, caller: Vec<u8>, name: String)
        ensures
            final(self)@ == old(self)@.insert(caller@, name@),
    {
        proof {
            use_type_invariant(&*self);
        }
        let found = self.find(&caller);
        let ghost before = self.bonds@;
        let mut bonds: Vec<Bond> = Vec::new();
        core::mem::swap(&mut self.bonds, &mut bonds);
        match found {
            Some(i) => {
                bonds[i].name = name;
                proof {
                    let after = bonds@;
                    assert forall|k: Seq<u8>| has_bond(after, k) == has_bond(before, k) by {
                        if has_bond(after, k) {
                            let j = bond_of(after, k);
                            assert(before[j].caller@ == k);
                        }
                        if has_bond(before, k) {
                            let j = bond_of(before, k);
                            assert(after[j].caller@ == k);
                        }
                    }
                    assert(distinct_callers(after)) by {
                        assert forall|a: int, b: int| 0 <= a < b < after.len() implies (
                        #[trigger] after[a]).caller@ != (#[trigger] after[b]).caller@ by {
                            assert(before[a].caller@ != before[b].caller@);
                        }
                    }
                    lemma_bond_found(after, i as int);
                    assert forall|k: Seq<u8>| #[trigger]
                        names_of(after).contains_key(k) && k != caller@ implies names_of(after)[k]
                        == names_of(before)[k] by {
                        let j = bond_of(after, k);
                        lemma_bond_found(after, j);
                        lemma_bond_found(before, j);
                    }
                    assert(names_of(after) =~= names_of(before).insert(caller@, name@));
                }
            },
            None => {
                bonds.push(Bond { caller, name });
                proof {
                    let after = bonds@;
                    assert(distinct_callers(after)) by {
                        assert forall|a: int, b: int| 0 <= a < b < after.len() implies (
                        #[trigger] after[a]).caller@ != (#[trigger] after[b]).caller@ by {
                            if b < before.len() {
                                assert(before[a].caller@ != before[b].caller@);
                            } else {
                                assert(before[a].caller@ != caller@);
                            }
                        }
                    }
                    lemma_bond_found(after, before.len() as int);
                    assert forall|k: Seq<u8>| k != caller@ implies (has_bond(after, k) == has_bond(
                        before,
                        k,
                    )) by {
                        if has_bond(after, k) {
                            let j = bond_of(after, k);
                            assert(before[j].caller@ == k);
                        }
                        if has_bond(before, k) {
                            let j = bond_of(before, k);
                            assert(after[j].caller@ == k);
                        }
                    }
                    assert forall|k: Seq<u8>| #[trigger]
                        names_of(after).contains_key(k) && k != caller@ implies names_of(after)[k]
                        == names_of(before)[k] by {
                        let j = bond_of(before, k);
                        lemma_bond_found(before, j);
                        assert(after[j] == before[j]);
                        lemma_bond_found(after, j);
                    }
                    assert(names_of(after) =~= names_of(before).insert(caller@, name@));
                }
            },
        }
        self.bonds = bonds;
    }

    /// The name that `caller` gave to the kitty; none where it gave none.
    pub fn name_of(&self, caller: &Vec<u8>) -> (name: Option<String>)
        ensures
            match name {
                Some(n) => self@.contains_key(caller@) && n@ == self@[caller@],
                None => !self@.contains_key(caller@),
            },
    {
        proof {
            use_type_invariant(self);
        }
        match self.find(caller) {
            Some(i) => {
                proof {
                    lemma_bond_found(self.bonds@, i as int);
                }
                Some(self.bonds[i].name.clone())
            },
            None => None,
        }
    }
}

/// A caller reads back the name that it saved last; the names of other
/// callers stay as they were.
pub proof fn lemma_saved_name(names: Names, caller: Seq<u8>, name: Seq<char>, other: Seq<u8>)
    ensures
        names.insert(caller, name).contains_key(caller),
        names.insert(caller, name)[caller] == name,
        other != caller ==> names.insert(caller, name).contains_key(other) == names.contains_key(other),
        other != caller && names.contains_key(other) ==> names.insert(caller, name)[other]
            == names[other],
{
}

} // verus!
