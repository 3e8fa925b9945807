use vstd::prelude::*;
use vstd::std_specs::cmp::PartialEqSpecImpl;

use crate::name_order::{
    lemma_name_before_irreflexive, lemma_name_before_total, lemma_name_before_transitive,
    lemma_sorted_no_duplicates, name_before, name_precedes, strictly_sorted,
};

verus! {

/// The views of `names`, in order.
pub open spec fn name_views(names: Seq<String>) -> Seq<Seq<char>> {
    names.map_values(|n: String| n@)
}

/// The predicate of being in `set`.
pub open spec fn held_by(set: Set<Seq<char>>) -> spec_fn(Seq<char>) -> bool {
    |name: Seq<char>| set.contains(name)
}

/// Appending `v` to `s` adds `v` to the set of its elements.
proof fn lemma_push_to_set<A>(s: Seq<A>, v: A)
    ensures
        s.push(v).to_set() == s.to_set().insert(v),
{
    assert forall|x: A| s.push(v).to_set().contains(x) == s.to_set().insert(v).contains(x) by {
        if s.push(v).contains(x) {
            let k = choose|k: int| 0 <= k < s.push(v).len() && s.push(v)[k] == x;
            if k < s.len() {
                assert(s[k] == x);
            }
        }
        if s.contains(x) {
            let k = choose|k: int| 0 <= k < s.len() && s[k] == x;
            assert(s.push(v)[k] == x);
        }
        if x == v {
            assert(s.push(v)[s.len() as int] == v);
        }
    }
    assert(s.push(v).to_set() =~= s.to_set().insert(v));
}

/// Inserting `v` into `s` adds `v` to the set of its elements.
proof fn lemma_insert_to_set<A>(s: Seq<A>, i: int, v: A)
    requires
        0 <= i <= s.len(),
    ensures
        s.insert(i, v).to_set() == s.to_set().insert(v),
{
    let t = s.insert(i, v);
    assert forall|x: A| t.to_set().contains(x) == s.to_set().insert(v).contains(x) by {
        if t.contains(x) {
            let k = choose|k: int| 0 <= k < t.len() && t[k] == x;
            if k < i {
                assert(s[k] == x);
            } else if k > i {
                assert(s[k - 1] == x);
            }
        }
        if s.contains(x) {
            let k = choose|k: int| 0 <= k < s.len() && s[k] == x;
            if k < i {
                assert(t[k] == x);
            } else {
                assert(t[k + 1] == x);
            }
        }
        if x == v {
            assert(t[i] == v);
        }
    }
    assert(t.to_set() =~= s.to_set().insert(v));
}

/// A finite set of capability names. Names are open strings, so that newer
/// peers can add values without breaking older ones; each name occurs once.
#[derive(Debug)]
pub struct CapabilitySet {
    names: Vec<String>,
}

impl CapabilitySet {
    /// The names held, in name order.
    pub closed spec fn names_view(&self) -> Seq<Seq<char>> {
        name_views(self.names@)
    }

    #[verifier::type_invariant]
    spec fn well_formed(self) -> bool {
        &&& name_views(self.names@).no_duplicates()
        &&& strictly_sorted(name_views(self.names@))
    }

    /// The set of names held.
    pub closed spec fn as_set(&self) -> Set<Seq<char>> {
        self.names_view().to_set()
    }
}

impl View for CapabilitySet {
    type V = Set<Seq<char>>;

    open spec fn view(&self) -> Set<Seq<char>> {
        self.as_set()
    }
}

impl CapabilitySet {
    /// The empty set.
    pub fn new() -> (s: Self)
        ensures
            s@ == Set::<Seq<char>>::empty(),
            s@.finite(),
            s.names_view() == Seq::<Seq<char>>::empty(),
    {
        let s = CapabilitySet { names: Vec::new() };
        proof {
            assert(s.names_view() =~= Seq::<Seq<char>>::empty());
            assert(s@ =~= Set::<Seq<char>>::empty());
        }
        s
    }

    proof fn lemma_finite(&self)
        requires
            self.names_view().no_duplicates(),
        ensures
            self@.finite(),
            self@.len() == self.names_view().len(),
            self@.len() == self.names@.len(),
    {
        self.names_view().unique_seq_to_set();
    }

    /// The number of names in the set.
    pub fn len(&self) -> (n: usize)
        ensures
            n == self@.len(),
            self@.finite(),
    {
        proof {
            use_type_invariant(self);
            self.lemma_finite();
        }
        self.names.len()
    }

    /// Whether the set holds no name.
    pub fn is_empty(&self) -> (b: bool)
        ensures
            b <==> self@ == Set::<Seq<char>>::empty(),
    {
        proof {
            use_type_invariant(self);
            self.lemma_finite();
            if self.names.len() > 0 {
                assert(self@.contains(self.names_view()[0]));
            } else {
                assert(self@ =~= Set::<Seq<char>>::empty());
            }
        }
        self.names.len() == 0
    }

    /// Index of `name` among the names held, if it is held.
    fn position(&self, name: &String) -> (r: Option<usize>)
        ensures
            match r {
                Some(i) => i < self.names@.len() && self.names@[i as int]@ == name@,
                None => !self@.contains(name@),
            },
    {
        let mut i: usize = 0;
        while i < self.names.len()
            invariant
                0 <= i <= self.names@.len(),
                forall|j: int| 0 <= j < i ==> self.names@[j]@ != name@,
            decreases self.names@.len() - i,
        {
            if self.names[i] == *name {
                return Some(i);
            }
            i = i + 1;
        }
        proof {
            if self@.contains(name@) {
                let k = choose|k: int| 0 <= k < self.names_view().len() && self.names_view()[k] == name@;
                assert(self.names@[k]@ == name@);
            }
        }
        None
    }

    /// Whether `name` is in the set.
    pub fn contains(&self, name: &str) -> (b: bool)
        ensures
            b <==> self@.contains(name@),
    {
        let owned = String::from_str(name);
        let r = self.position(&owned);
        proof {
            if let Some(i) = r {
                assert(self.names_view()[i as int] == name@);
            }
        }
        r.is_some()
    }

    /// Adds `name`; returns whether it was not yet in the set. The names stay
    /// in name order.
    pub fn insert(&mut self, name: String) -> (added: bool)
        ensures
            final(self)@ == old(self)@.insert(name@),
            added <==> !old(self)@.contains(name@),
            strictly_sorted(final(self).names_view()),
    {
        proof {
            use_type_invariant(&*self);
        }
        let ghost before = self.names_view();
        let ghost view = name@;
        let mut i: usize = 0;
        while i < self.names.len() && name_precedes(self.names[i].as_str(), name.as_str())
            invariant
                0 <= i <= self.names@.len(),
                before == name_views(self.names@),
                view == name@,
                forall|j: int| 0 <= j < i ==> name_before(#[trigger] before[j], view),
            decreases self.names@.len() - i,
        {
            i = i + 1;
        }
        // Every name from position `i` on comes after `name`, unless it is `name`.
        proof {
            assert forall|k: int| i <= k < before.len() && before[i as int] != view implies name_before(
                view,
                #[trigger] before[k],
            ) by {
                lemma_name_before_total(before[i as int], view);
                if k > i {
                    lemma_name_before_transitive(view, before[i as int], before[k]);
                }
            }
        }
        if i < self.names.len() && self.names[i] == name {
            proof {
                assert(before[i as int] == view);
                assert(self@.insert(name@) =~= self@);
            }
            return false;
        }
        proof {
            assert(!before.contains(view)) by {
                if before.contains(view) {
                    let k = choose|k: int| 0 <= k < before.len() && before[k] == view;
                    lemma_name_before_irreflexive(view);
                    if k < i {
                        assert(name_before(before[k], view));
                    } else {
                        assert(before[i as int] != view);
                        assert(name_before(view, before[k]));
                    }
                }
            }
        }
        let mut names: Vec<String> = Vec::new();
        std::mem::swap(&mut names, &mut self.names);
        names.insert(i, name);
        proof {
            let after = name_views(names@);
            assert(after =~= before.insert(i as int, view));
            assert forall|a: int, b: int| 0 <= a < b < after.len() implies name_before(
                after[a],
                after[b],
            ) by {
                if b < i {
                } else if b == i {
                } else if a < i {
                    lemma_name_before_transitive(before[a], view, before[b - 1]);
                } else if a == i {
                } else {
                }
            }
            lemma_sorted_no_duplicates(after);
            lemma_insert_to_set(before, i as int, view);
        }
        self.names = names;
        true
    }

    /// The names held by both `self` and `other`, in name order.
    pub fn intersection(&self, other: &CapabilitySet) -> (common: CapabilitySet)
        ensures
            common@ == self@.intersect(other@),
            common.names_view() == self.names_view().filter(held_by(other@)),
            strictly_sorted(common.names_view()),
    {
        proof {
            use_type_invariant(self);
        }
        let mut names: Vec<String> = Vec::new();
        let mut i: usize = 0;
        while i < self.names.len()
            invariant
                0 <= i <= self.names@.len(),
                name_views(self.names@).no_duplicates(),
                strictly_sorted(name_views(self.names@)),
                name_views(names@).no_duplicates(),
                strictly_sorted(name_views(names@)),
                forall|k: int|
                    #![trigger name_views(names@)[k]]
                    0 <= k < names@.len() ==> exists|j: int|
                        0 <= j < i && name_views(self.names@)[j] == name_views(names@)[k],
                name_views(names@).to_set() =~= name_views(self.names@).take(i as int).to_set().intersect(
                    other@,
                ),
                name_views(names@) == name_views(self.names@).take(i as int).filter(held_by(other@)),
            decreases self.names@.len() - i,
        {
            let ghost before = name_views(names@);
            let ghost view = self.names@[i as int]@;
            assert(name_views(self.names@)[i as int] == view);
            if other.contains(self.names[i].as_str()) {
                names.push(self.names[i].clone());
                proof {
                    assert(name_views(names@) =~= before.push(view));
                    assert forall|a: int, b: int|
                        0 <= a < name_views(names@).len() && 0 <= b < name_views(names@).len()
                            && a != b implies name_views(names@)[a] != name_views(names@)[b] by {
                        if a == before.len() as int {
                            let j = choose|j: int|
                                0 <= j < i && name_views(self.names@)[j] == before[b];
                            assert(name_views(self.names@)[j] != name_views(self.names@)[i as int]);
                        } else if b == before.len() as int {
                            let j = choose|j: int|
                                0 <= j < i && name_views(self.names@)[j] == before[a];
                            assert(name_views(self.names@)[j] != name_views(self.names@)[i as int]);
                        }
                    }
                    assert forall|a: int, b: int| 0 <= a < b < name_views(names@).len() implies name_before(
                        name_views(names@)[a],
                        name_views(names@)[b],
                    ) by {
                        if b == before.len() as int {
                            let j = choose|j: int|
                                0 <= j < i && name_views(self.names@)[j] == before[a];
                            assert(name_before(name_views(self.names@)[j], name_views(self.names@)[i as int]));
                        } else {
                            assert(before[a] == name_views(names@)[a]);
                            assert(before[b] == name_views(names@)[b]);
                        }
                    }
                    assert forall|k: int|
                        #![trigger name_views(names@)[k]]
                        0 <= k < names@.len() implies exists|j: int|
                            0 <= j < i + 1 && name_views(self.names@)[j] == name_views(names@)[k] by {
                        if k == before.len() as int {
                            assert(name_views(self.names@)[i as int] == name_views(names@)[k]);
                        } else {
                            assert(before[k] == name_views(names@)[k]);
                        }
                    }
                }
                proof {
                    lemma_push_to_set(before, view);
                }
            } else {
                proof {
                    assert forall|k: int|
                        #![trigger name_views(names@)[k]]
                        0 <= k < names@.len() implies exists|j: int|
                            0 <= j < i + 1 && name_views(self.names@)[j] == name_views(names@)[k] by {
                        assert(name_views(names@)[k] == before[k]);
                    }
                }
            }
            proof {
                assert(name_views(self.names@).take(i + 1) =~= name_views(self.names@).take(
                    i as int,
                ).push(view));
                lemma_push_to_set(name_views(self.names@).take(i as int), view);
                assert(name_views(self.names@).take(i + 1).drop_last() =~= name_views(
                    self.names@,
                ).take(i as int));
                assert(name_views(self.names@).take(i + 1).last() == view);
                assert(held_by(other@)(view) == other@.contains(view));
                reveal_with_fuel(Seq::<Seq<char>>::filter, 1);
                assert(name_views(self.names@).take(i + 1).filter(held_by(other@)) == (if other@.contains(view) {
                    name_views(self.names@).take(i as int).filter(held_by(other@)).push(view)
                } else {
                    name_views(self.names@).take(i as int).filter(held_by(other@))
                }));
            }
            i = i + 1;
        }
        proof {
            assert(name_views(self.names@).take(i as int) =~= name_views(self.names@));
        }
        let common = CapabilitySet { names };
        proof {
            assert(common@ =~= self@.intersect(other@));
        }
        common
    }

    /// Whether every name of `self` is held by `other`.
    pub fn is_subset(&self, other: &CapabilitySet) -> (b: bool)
        ensures
            b <==> self@.subset_of(other@),
    {
        let mut i: usize = 0;
        while i < self.names.len()
            invariant
                0 <= i <= self.names@.len(),
                forall|j: int| 0 <= j < i ==> other@.contains(#[trigger] self.names@[j]@),
            decreases self.names@.len() - i,
        {
            if !other.contains(self.names[i].as_str()) {
                proof {
                    assert(self.names_view()[i as int] == self.names@[i as int]@);
                    assert(self@.contains(self.names@[i as int]@));
                }
                return false;
            }
            i = i + 1;
        }
        proof {
            assert forall|x: Seq<char>| self@.contains(x) implies other@.contains(x) by {
                let k = choose|k: int| 0 <= k < self.names_view().len() && self.names_view()[k] == x;
                assert(self.names@[k]@ == x);
            }
        }
        true
    }

    /// The names held, each once, in name order.
    pub fn names(&self) -> (names: &Vec<String>)
        ensures
            name_views(names@) == self.names_view(),
            name_views(names@).no_duplicates(),
            strictly_sorted(name_views(names@)),
            name_views(names@).to_set() == self@,
    {
        proof {
            use_type_invariant(self);
        }
        &self.names
    }
}

} // verus!

verus! {

impl Clone for CapabilitySet {
    fn clone(&self) -> (copy: Self)
        ensures
            copy@ == self@,
            copy.names_view() == self.names_view(),
    {
        proof {
            use_type_invariant(self);
        }
        let mut names: Vec<String> = Vec::new();
        let mut i: usize = 0;
        while i < self.names.len()
            invariant
                0 <= i <= self.names@.len(),
                name_views(names@) =~= name_views(self.names@).take(i as int),
            decreases self.names@.len() - i,
        {
            names.push(self.names[i].clone());
            proof {
                assert(name_views(self.names@).take(i + 1) =~= name_views(self.names@).take(
                    i as int,
                ).push(self.names@[i as int]@));
            }
            i = i + 1;
        }
        proof {
            assert(name_views(self.names@).take(i as int) =~= name_views(self.names@));
        }
        CapabilitySet { names }
    }
}

impl PartialEq for CapabilitySet {
    fn eq(&self, other: &Self) -> (same: bool) {
        proof {
            use_type_invariant(self);
            use_type_invariant(other);
            self.lemma_finite();
            other.lemma_finite();
        }
        if self.names.len() != other.names.len() {
            return false;
        }
        let sub = self.is_subset(other);
        proof {
            if sub {
                vstd::set_lib::lemma_subset_equality(self@, other@);
            }
        }
        sub
    }
}

impl PartialEqSpecImpl for CapabilitySet {
    open spec fn obeys_eq_spec() -> bool {
        true
    }

    open spec fn eq_spec(&self, other: &Self) -> bool {
        self@ == other@
    }
}

impl Eq for CapabilitySet {
}

} // verus!
