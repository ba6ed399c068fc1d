use vstd::prelude::*;
use crate::error::PresetError;

verus! {

/// The names of `s` with every repeat of an earlier name left out.
pub open spec fn first_occurrences(s: Seq<Seq<char>>) -> Seq<Seq<char>>
    decreases s.len(),
{
    if s.len() == 0 {
        seq![]
    } else {
        let before = first_occurrences(s.drop_last());
        if before.contains(s.last()) {
            before
        } else {
            before.push(s.last())
        }
    }
}

/// How many times `n` occurs in `s`.
pub open spec fn occurrences(s: Seq<Seq<char>>, n: Seq<char>) -> nat
    decreases s.len(),
{
    if s.len() == 0 {
        0
    } else {
        occurrences(s.drop_last(), n) + if s.last() == n { 1nat } else { 0nat }
    }
}

proof fn lemma_absent_occurs_never(s: Seq<Seq<char>>, n: Seq<char>)
    requires
        !s.contains(n),
    ensures
        occurrences(s, n) == 0,
    decreases s.len(),
{
    if s.len() > 0 {
        assert(!s.drop_last().contains(n)) by {
            if s.drop_last().contains(n) {
                let k = choose|k: int| 0 <= k < s.drop_last().len() && s.drop_last()[k] == n;
                assert(s[k] == n);
            }
        }
        lemma_absent_occurs_never(s.drop_last(), n);
    }
}

/// Adding a preset whose name the store does not hold yet, then listing the
/// store, shows that name exactly once, and no name twice.
pub proof fn lemma_added_name_listed_once(names: Seq<Seq<char>>, n: Seq<char>)
    requires
        names.no_duplicates(),
        !names.contains(n),
    ensures
        occurrences(names.push(n), n) == 1,
        names.push(n).no_duplicates(),
{
    lemma_absent_occurs_never(names, n);
    assert(names.push(n).drop_last() =~= names);
    let all = names.push(n);
    assert forall|a: int, b: int| 0 <= a < all.len() && 0 <= b < all.len() && a != b implies all[a] != all[b] by {
        if a < names.len() && b < names.len() {
            assert(all[a] == names[a] && all[b] == names[b]);
        } else if a < names.len() {
            assert(all[a] == names[a]);
        } else {
            assert(all[b] == names[b]);
        }
    }
}

/// Removing a preset, then listing the store, never shows its name.
pub proof fn lemma_removed_name_not_listed(names: Seq<Seq<char>>, k: int)
    requires
        names.no_duplicates(),
        0 <= k < names.len(),
    ensures
        !names.remove(k).contains(names[k]),
        occurrences(names.remove(k), names[k]) == 0,
{
    let rest = names.remove(k);
    assert(!rest.contains(names[k])) by {
        if rest.contains(names[k]) {
            let j = choose|j: int| 0 <= j < rest.len() && rest[j] == names[k];
            if j < k {
                assert(rest[j] == names[j]);
            } else {
                assert(rest[j] == names[j + 1]);
            }
        }
    }
    lemma_absent_occurs_never(rest, names[k]);
}

/// The names of the presets in the store, each once, in the order in which
/// the store listed them.
pub struct Registry {
    names: Vec<String>,
}

impl View for Registry {
    type V = Seq<Seq<char>>;

    closed spec fn view(&self) -> Seq<Seq<char>> {
        self.names@.map_values(|s: String| s@)
    }
}

impl Registry {
    /// No name is held twice.
    pub open spec fn wf(&self) -> bool {
        self@.no_duplicates()
    }

    /// A registry of the given names, in order, with repeats left out.
    pub fn from_names(names: Vec<String>) -> (r: Registry)
        ensures
            r.wf(),
            r@ == first_occurrences(names@.map_values(|s: String| s@)),
    {
        let ghost all = names@.map_values(|s: String| s@);
        let mut r = Registry { names: Vec::new() };
        let mut i: usize = 0;
        assert(r@ =~= first_occurrences(all.take(0)));
        while i < names.len()
            invariant
                0 <= i <= names@.len(),
                all == names@.map_values(|s: String| s@),
                r.wf(),
                r@ == first_occurrences(all.take(i as int)),
            decreases names@.len() - i,
        {
            assert(all.take(i as int + 1).drop_last() =~= all.take(i as int));
            if !r.contains(&names[i]) {
                let ghost before = r@;
                r.names.push(names[i].clone());
                assert(r@ =~= before.push(names@[i as int]@));
            }
            i = i + 1;
        }
        assert(all.take(names@.len() as int) =~= all);
        r
    }

    /// Whether a preset of this name is in the store.
    pub fn contains(&self, name: &String) -> (r: bool)
        ensures
            r == self@.contains(name@),
    {
        let mut i: usize = 0;
        while i < self.names.len()
            invariant
                0 <= i <= self.names@.len(),
                forall|k: int| 0 <= k < i ==> self@[k] != name@,
            decreases self.names@.len() - i,
        {
            if self.names[i] == *name {
                assert(self@[i as int] == name@);
                return true;
            }
            i = i + 1;
        }
        false
    }

    /// The names, in order.
    pub fn names(&self) -> (r: Vec<String>)
        ensures
            r@.map_values(|s: String| s@) == self@,
    {
        let mut r: Vec<String> = Vec::new();
        let mut i: usize = 0;
        while i < self.names.len()
            invariant
                0 <= i <= self.names@.len(),
                r@.map_values(|s: String| s@) == self@.take(i as int),
            decreases self.names@.len() - i,
        {
            let ghost before = r@.map_values(|s: String| s@);
            r.push(self.names[i].clone());
            assert(r@.map_values(|s: String| s@) =~= before.push(self.names@[i as int]@));
            assert(self@.take(i as int + 1) =~= self@.take(i as int).push(self@[i as int]));
            i = i + 1;
        }
        assert(self@.take(self@.len() as int) =~= self@);
        r
    }

    /// Records a new preset. A name already present is refused and the
    /// registry is left as it was.
    pub fn add(&mut self, name: &String) -> (r: Result<(), PresetError>)
        requires
            old(self).wf(),
        ensures
            final(self).wf(),
            old(self)@.contains(name@) ==> {
                &&& r matches Err(PresetError::PresetExists { name: n })
                &&& n@ == name@
                &&& final(self)@ == old(self)@
            },
            !old(self)@.contains(name@) ==> r is Ok && final(self)@ == old(self)@.push(name@),
    {
        if self.contains(name) {
            Err(PresetError::PresetExists { name: name.clone() })
        } else {
            let ghost before = self@;
            self.names.push(name.clone());
            assert(self@ =~= before.push(name@));
            Ok(())
        }
    }

    /// Forgets a preset. A name that is not present is refused and the
    /// registry is left as it was.
    pub fn remove(&mut self, name: &String) -> (r: Result<(), PresetError>)
        requires
            old(self).wf(),
        ensures
            final(self).wf(),
            !old(self)@.contains(name@) ==> {
                &&& r matches Err(PresetError::PresetNotFound { name: n })
                &&& n@ == name@
                &&& final(self)@ == old(self)@
            },
            old(self)@.contains(name@) ==> {
                &&& r is Ok
                &&& exists|k: int| 0 <= k < old(self)@.len() && old(self)@[k] == name@ && final(self)@ == old(self)@.remove(k)
            },
            !final(self)@.contains(name@),
    {
        let mut i: usize = 0;
        while i < self.names.len()
            invariant
                0 <= i <= self.names@.len(),
                self.wf(),
                self@ == old(self)@,
                forall|k: int| 0 <= k < i ==> self@[k] != name@,
            decreases self.names@.len() - i,
        {
            if self.names[i] == *name {
                let ghost before = self@;
                assert(before[i as int] == name@);
                assert(old(self)@.contains(name@));
                self.names.remove(i);
                assert(self@ =~= before.remove(i as int));
                proof {
                    assert forall|k: int| 0 <= k < self@.len() implies self@[k] != name@ by {
                        if k < i {
                        } else {
                            assert(self@[k] == before[k + 1]);
                            assert(before[k + 1] != before[i as int]);
                        }
                    }
                    assert forall|a: int, b: int| 0 <= a < self@.len() && 0 <= b < self@.len() && a != b implies self@[a] != self@[b] by {
                        let a1 = if a < i { a } else { a + 1 };
                        let b1 = if b < i { b } else { b + 1 };
                        assert(self@[a] == before[a1] && self@[b] == before[b1]);
                    }
                }
                return Ok(());
            }
            i = i + 1;
        }
        Err(PresetError::PresetNotFound { name: name.clone() })
    }
}

} // verus!
