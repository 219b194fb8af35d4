//! Templates: one appearance per slot, with the operations on them.
use std::marker::PhantomData;
use vstd::prelude::*;
use crate::skins::{Appearance, SkinId, appearance_at, empty_appearance, encoded_len, lemma_bytes_read_back, lemma_read_bytes_back};
use crate::le::{le_at, le_bytes, lemma_le_bytes_of_value, lemma_le_roundtrip, push_u16_le, read_u16_le};
use crate::error::ChatLinkError;
use crate::slots::{FashionSlot, TravelSlot, WardrobeSlot};

verus! {

/// The appearance a template holds for slot number `i` when a map gives none.
pub open spec fn default_for<S: FashionSlot>(i: nat) -> Appearance {
    empty_appearance(S::spec_from_index(i).spec_dyeable())
}

/// A map from the slots of `S` to appearances; each slot has at most one entry.
#[derive(Debug)]
pub struct SlotMap<S: FashionSlot> {
    entries: Vec<Option<Appearance>>,
    marker: PhantomData<S>,
}

impl<S: FashionSlot> View for SlotMap<S> {
    /// The entry of each slot, by slot number.
    type V = Seq<Option<Appearance>>;

    closed spec fn view(&self) -> Seq<Option<Appearance>> {
        Seq::new(S::spec_count(), |i: int| self.entries@[i])
    }
}

impl<S: FashionSlot> SlotMap<S> {
    #[verifier::type_invariant]
    spec fn wf(self) -> bool {
        self.entries@.len() == S::spec_count()
    }

    /// A map has one entry place per slot.
    pub proof fn lemma_len(&self)
        ensures
            self@.len() == S::spec_count(),
    {
    }

    /// The map without entries.
    pub fn new() -> (r: Self)
        ensures
            r@.len() == S::spec_count(),
            forall|i: int| 0 <= i < r@.len() ==> r@[i] is None,
    {
        let n = S::count();
        let mut entries: Vec<Option<Appearance>> = Vec::new();
        for i in 0..n
            invariant
                n == S::spec_count(),
                entries@.len() == i,
                forall|j: int| 0 <= j < i ==> entries@[j] is None,
        {
            entries.push(None);
        }
        SlotMap { entries, marker: PhantomData }
    }

    /// Sets the entry of `slot`, replacing any earlier one.
    pub fn insert(&mut self, slot: S, appearance: Appearance)
        ensures
            final(self)@ == old(self)@.update(slot.spec_index() as int, Some(appearance)),
    {
        proof {
            use_type_invariant(&*self);
            S::lemma_slot_index(slot);
        }
        let i = slot.index();
        let mut entries = copy_vec(&self.entries);
        entries.set(i, Some(appearance));
        *self = SlotMap { entries, marker: PhantomData };
        proof {
            assert(final(self)@ =~= old(self)@.update(slot.spec_index() as int, Some(appearance)));
        }
    }

    /// Removes the entry of `slot`, if any.
    pub fn remove(&mut self, slot: S)
        ensures
            final(self)@ == old(self)@.update(slot.spec_index() as int, None),
    {
        proof {
            use_type_invariant(&*self);
            S::lemma_slot_index(slot);
        }
        let i = slot.index();
        let mut entries = copy_vec(&self.entries);
        entries.set(i, None);
        *self = SlotMap { entries, marker: PhantomData };
        proof {
            assert(final(self)@ =~= old(self)@.update(slot.spec_index() as int, None));
        }
    }

    /// The entry of `slot`.
    pub fn get(&self, slot: S) -> (r: Option<Appearance>)
        ensures
            r == self@[slot.spec_index() as int],
    {
        proof {
            use_type_invariant(self);
            S::lemma_slot_index(slot);
        }
        self.entries[slot.index()]
    }

    /// Whether `slot` has an entry.
    pub fn contains_key(&self, slot: S) -> (r: bool)
        ensures
            r == self@[slot.spec_index() as int] is Some,
    {
        self.get(slot).is_some()
    }

    /// The number of slots with an entry.
    pub fn len(&self) -> (r: usize)
        ensures
            r == count_entries(self@, self@.len()),
    {
        proof {
            use_type_invariant(self);
        }
        let n = S::count();
        let mut c: usize = 0;
        for i in 0..n
            invariant
                n == S::spec_count(),
                self.entries@.len() == n,
                c == count_entries(self@, i as nat),
                c <= i,
        {
            if self.entries[i].is_some() {
                c = c + 1;
            }
        }
        c
    }

    /// Keeps the entries of the slots in `filter` and drops the others.
    pub fn retain(&mut self, filter: &SlotFilter<S>)
        ensures
            final(self)@.len() == old(self)@.len(),
            forall|i: int|
                0 <= i < final(self)@.len() ==> final(self)@[i] == (if filter@[i] {
                    old(self)@[i]
                } else {
                    None
                }),
    {
        proof {
            use_type_invariant(&*self);
            use_type_invariant(filter);
        }
        let n = S::count();
        let ghost before = self@;
        let mut entries = copy_vec(&self.entries);
        for i in 0..n
            invariant
                n == S::spec_count(),
                entries@.len() == n,
                filter.members@.len() == n,
                before.len() == n,
                before == Seq::new(n as nat, |j: int| old(self).entries@[j]),
                forall|j: int|
                    0 <= j < i ==> entries@[j] == (if filter@[j] {
                        before[j]
                    } else {
                        None
                    }),
                forall|j: int| i <= j < n ==> entries@[j] == before[j],
        {
            if !filter.members[i] {
                entries.set(i, None);
            }
        }
        *self = SlotMap { entries, marker: PhantomData };
    }
}

impl<S: FashionSlot> Clone for SlotMap<S> {
    fn clone(&self) -> (r: Self)
        ensures
            r@ == self@,
    {
        proof {
            use_type_invariant(self);
        }
        SlotMap { entries: copy_vec(&self.entries), marker: PhantomData }
    }
}

impl<S: FashionSlot> Clone for SlotFilter<S> {
    fn clone(&self) -> (r: Self)
        ensures
            r@ == self@,
    {
        proof {
            use_type_invariant(self);
        }
        SlotFilter { members: copy_vec(&self.members), marker: PhantomData }
    }
}

/// An element-wise copy of a vector of `Copy` values.
pub fn copy_vec<T: Copy>(v: &Vec<T>) -> (r: Vec<T>)
    ensures
        r@ == v@,
{
    let mut r: Vec<T> = Vec::new();
    for i in 0..v.len()
        invariant
            r@ == v@.take(i as int),
    {
        r.push(v[i]);
        proof {
            assert(r@ =~= v@.take(i + 1));
        }
    }
    proof {
        assert(v@.take(v@.len() as int) =~= v@);
    }
    r
}

/// The number of entries among the first `n` slots.
pub open spec fn count_entries(m: Seq<Option<Appearance>>, n: nat) -> nat
    decreases n,
{
    if n == 0 {
        0
    } else {
        count_entries(m, (n - 1) as nat) + if m[n - 1] is Some {
            1nat
        } else {
            0nat
        }
    }
}

/// A set of slots of `S`.
#[derive(Debug)]
pub struct SlotFilter<S: FashionSlot> {
    members: Vec<bool>,
    marker: PhantomData<S>,
}

impl<S: FashionSlot> View for SlotFilter<S> {
    /// Whether each slot is in the set, by slot number.
    type V = Seq<bool>;

    closed spec fn view(&self) -> Seq<bool> {
        Seq::new(S::spec_count(), |i: int| self.members@[i])
    }
}

impl<S: FashionSlot> SlotFilter<S> {
    #[verifier::type_invariant]
    spec fn wf(self) -> bool {
        self.members@.len() == S::spec_count()
    }

    fn filled(value: bool) -> (r: Self)
        ensures
            r@.len() == S::spec_count(),
            forall|i: int| 0 <= i < r@.len() ==> r@[i] == value,
    {
        let n = S::count();
        let mut members: Vec<bool> = Vec::new();
        for i in 0..n
            invariant
                n == S::spec_count(),
                members@.len() == i,
                forall|j: int| 0 <= j < i ==> members@[j] == value,
        {
            members.push(value);
        }
        SlotFilter { members, marker: PhantomData }
    }

    /// The empty set.
    pub fn none() -> (r: Self)
        ensures
            r@.len() == S::spec_count(),
            forall|i: int| 0 <= i < r@.len() ==> !r@[i],
    {
        Self::filled(false)
    }

    /// Whether `slot` is in the set.
    pub fn contains(&self, slot: S) -> (r: bool)
        ensures
            r == self@[slot.spec_index() as int],
    {
        proof {
            use_type_invariant(self);
            S::lemma_slot_index(slot);
        }
        self.members[slot.index()]
    }

    /// Adds `slot`.
    pub fn insert(&mut self, slot: S)
        ensures
            final(self)@ == old(self)@.update(slot.spec_index() as int, true),
    {
        proof {
            use_type_invariant(&*self);
            S::lemma_slot_index(slot);
        }
        let i = slot.index();
        let mut members = copy_vec(&self.members);
        members.set(i, true);
        *self = SlotFilter { members, marker: PhantomData };
        proof {
            assert(final(self)@ =~= old(self)@.update(slot.spec_index() as int, true));
        }
    }

    /// Removes `slot`.
    pub fn remove(&mut self, slot: S)
        ensures
            final(self)@ == old(self)@.update(slot.spec_index() as int, false),
    {
        proof {
            use_type_invariant(&*self);
            S::lemma_slot_index(slot);
        }
        let i = slot.index();
        let mut members = copy_vec(&self.members);
        members.set(i, false);
        *self = SlotFilter { members, marker: PhantomData };
        proof {
            assert(final(self)@ =~= old(self)@.update(slot.spec_index() as int, false));
        }
    }
}

/// Whether slot number `i` is among `slots`.
pub open spec fn listed<S: FashionSlot>(slots: Seq<S>, i: int) -> bool {
    exists|k: int| 0 <= k < slots.len() && slots[k].spec_index() == i
}

/// Operations on sets of slots.
pub trait SlotFilterExt<S: FashionSlot>: Sized + View<V = Seq<bool>> {
    /// The set of all slots.
    fn all() -> (r: Self)
        ensures
            r@.len() == S::spec_count(),
            forall|i: int| 0 <= i < r@.len() ==> r@[i],
    ;

    /// Replaces the set by its complement.
    fn invert(&mut self)
        ensures
            final(self)@.len() == old(self)@.len(),
            forall|i: int| 0 <= i < final(self)@.len() ==> final(self)@[i] == !old(self)@[i],
    ;

    /// Removes every slot of `slots`.
    fn remove_all(&mut self, slots: &[S])
        ensures
            final(self)@.len() == old(self)@.len(),
            forall|i: int|
                0 <= i < final(self)@.len() ==> final(self)@[i] == (old(self)@[i] && !listed(
                    slots@,
                    i,
                )),
    ;

    /// Keeps only the slots that are also in `slots`.
    fn retain_all(&mut self, slots: &[S])
        ensures
            final(self)@.len() == old(self)@.len(),
            forall|i: int|
                0 <= i < final(self)@.len() ==> final(self)@[i] == (old(self)@[i] && listed(
                    slots@,
                    i,
                )),
    ;
}

impl<S: FashionSlot> SlotFilterExt<S> for SlotFilter<S> {
    fn all() -> (r: Self) {
        Self::filled(true)
    }

    fn invert(&mut self) {
        proof {
            use_type_invariant(&*self);
        }
        let n = S::count();
        let ghost before = self@;
        let mut members = copy_vec(&self.members);
        for i in 0..n
            invariant
                n == S::spec_count(),
                members@.len() == n,
                before.len() == n,
                before == Seq::new(n as nat, |j: int| old(self).members@[j]),
                forall|j: int| 0 <= j < i ==> members@[j] == !before[j],
                forall|j: int| i <= j < n ==> members@[j] == before[j],
        {
            let v = members[i];
            members.set(i, !v);
        }
        *self = SlotFilter { members, marker: PhantomData };
    }

    fn remove_all(&mut self, slots: &[S]) {
        let listed_slots = Self::of_slots(slots);
        let n = S::count();
        let mut members: Vec<bool> = Vec::new();
        let mut i: usize = 0;
        while i < n
            invariant
                n == S::spec_count(),
                i <= n,
                members@.len() == i,
                listed_slots@.len() == n,
                self@.len() == n,
                forall|j: int| 0 <= j < n ==> listed_slots@[j] == listed(slots@, j),
                forall|j: int| 0 <= j < i ==> members@[j] == (self@[j] && !listed_slots@[j]),
            decreases n - i,
        {
            proof {
                S::lemma_index_slot(i as nat);
            }
            let slot = S::from_index(i);
            let v = self.contains(slot) && !listed_slots.contains(slot);
            members.push(v);
            i = i + 1;
        }
        *self = SlotFilter { members, marker: PhantomData };
    }

    fn retain_all(&mut self, slots: &[S]) {
        let listed_slots = Self::of_slots(slots);
        let n = S::count();
        let mut members: Vec<bool> = Vec::new();
        let mut i: usize = 0;
        while i < n
            invariant
                n == S::spec_count(),
                i <= n,
                members@.len() == i,
                listed_slots@.len() == n,
                self@.len() == n,
                forall|j: int| 0 <= j < n ==> listed_slots@[j] == listed(slots@, j),
                forall|j: int| 0 <= j < i ==> members@[j] == (self@[j] && listed_slots@[j]),
            decreases n - i,
        {
            proof {
                S::lemma_index_slot(i as nat);
            }
            let slot = S::from_index(i);
            let v = self.contains(slot) && listed_slots.contains(slot);
            members.push(v);
            i = i + 1;
        }
        *self = SlotFilter { members, marker: PhantomData };
    }
}

impl<S: FashionSlot> SlotFilter<S> {
    /// The set of the slots listed in `slots`.
    pub fn of_slots(slots: &[S]) -> (r: Self)
        ensures
            r@.len() == S::spec_count(),
            forall|i: int| 0 <= i < S::spec_count() ==> r@[i] == listed(slots@, i),
    {
        let mut keep = Self::none();
        let n = slots.len();
        for k in 0..n
            invariant
                n == slots@.len(),
                keep@.len() == S::spec_count(),
                forall|i: int|
                    0 <= i < S::spec_count() ==> keep@[i] == (exists|m: int|
                        0 <= m < k && slots@[m].spec_index() == i),
        {
            let s = slots[k];
            proof {
                S::lemma_slot_index(s);
            }
            let ghost prev = keep@;
            keep.insert(s);
            proof {
                assert forall|j: int| 0 <= j < S::spec_count() implies keep@[j] == (exists|m: int|
                    0 <= m < k + 1 && slots@[m].spec_index() == j) by {
                    if j == s.spec_index() {
                        assert(slots@[k as int].spec_index() == j);
                    } else {
                        assert(keep@[j] == prev[j]);
                        if exists|m: int| 0 <= m < k + 1 && slots@[m].spec_index() == j {
                            let m = choose|m: int| 0 <= m < k + 1 && slots@[m].spec_index() == j;
                            assert(m != k);
                        }
                    }
                }
            }
        }
        keep
    }
}

/// A template: one appearance for each slot of `S`.
#[derive(Debug, PartialEq, Eq)]
pub struct Template<S: FashionSlot> {
    slots: Vec<Appearance>,
    marker: PhantomData<S>,
}

impl<S: FashionSlot> View for Template<S> {
    /// The appearance of each slot, by slot number.
    type V = Seq<Appearance>;

    closed spec fn view(&self) -> Seq<Appearance> {
        Seq::new(S::spec_count(), |i: int| self.slots@[i])
    }
}

/// The appearances that `Template::new` builds from a map: the entry of each slot,
/// or the empty appearance of the slot where there is none.
pub open spec fn filled_from<S: FashionSlot>(m: Seq<Option<Appearance>>) -> Seq<Appearance> {
    Seq::new(
        S::spec_count(),
        |i: int|
            match m[i] {
                Some(a) => a,
                None => default_for::<S>(i as nat),
            },
    )
}

impl<S: FashionSlot> Clone for Template<S> {
    fn clone(&self) -> (r: Self)
        ensures
            r@ == self@,
    {
        proof {
            use_type_invariant(self);
        }
        Template { slots: copy_vec(&self.slots), marker: PhantomData }
    }
}

impl<S: FashionSlot> Template<S> {
    #[verifier::type_invariant]
    spec fn wf(self) -> bool {
        self.slots@.len() == S::spec_count()
    }

    /// A template has one appearance per slot.
    pub proof fn lemma_len(&self)
        ensures
            self@.len() == S::spec_count(),
    {
    }

    /// A template from a sequence of exactly one appearance per slot.
    fn from_vec(slots: Vec<Appearance>) -> (r: Self)
        requires
            slots@.len() == S::spec_count(),
        ensures
            r@ == slots@,
    {
        let r = Template { slots, marker: PhantomData };
        assert(r@ =~= r.slots@);
        r
    }

    /// The template that holds the appearance of `slots` for each slot that has one,
    /// and the empty appearance for the others.
    pub fn new(slots: SlotMap<S>) -> (r: Self)
        ensures
            r@ == filled_from::<S>(slots@),
    {
        let n = S::count();
        let mut v: Vec<Appearance> = Vec::new();
        let mut i: usize = 0;
        while i < n
            invariant
                n == S::spec_count(),
                i <= n,
                v@.len() == i,
                slots@.len() == n,
                forall|j: int| 0 <= j < i ==> v@[j] == filled_from::<S>(slots@)[j],
            decreases n - i,
        {
            proof {
                S::lemma_index_slot(i as nat);
            }
            let slot = S::from_index(i);
            let a = match slots.get(slot) {
                Some(a) => a,
                None => Appearance::empty(slot.dyeable()),
            };
            v.push(a);
            i = i + 1;
        }
        let r = Self::from_vec(v);
        assert(r@ =~= filled_from::<S>(slots@));
        r
    }

    /// The appearance of `slot`.
    pub fn get_slot(&self, slot: &S) -> (r: Appearance)
        ensures
            r == self@[slot.spec_index() as int],
    {
        proof {
            use_type_invariant(self);
            S::lemma_slot_index(*slot);
        }
        self.slots[slot.index()]
    }

    /// Each slot with its appearance, in slot order.
    pub fn iter(&self) -> (r: Vec<(S, Appearance)>)
        ensures
            r@.len() == S::spec_count(),
            forall|i: int|
                0 <= i < r@.len() ==> r@[i] == (S::spec_from_index(i as nat), self@[i]),
    {
        proof {
            use_type_invariant(self);
        }
        let n = S::count();
        let mut r: Vec<(S, Appearance)> = Vec::new();
        let mut i: usize = 0;
        while i < n
            invariant
                n == S::spec_count(),
                i <= n,
                self.slots@.len() == n,
                r@.len() == i,
                forall|j: int| 0 <= j < i ==> r@[j] == (S::spec_from_index(j as nat), self@[j]),
            decreases n - i,
        {
            r.push((S::from_index(i), self.slots[i]));
            i = i + 1;
        }
        r
    }

    /// The map of the slots to their appearances; empty appearances are left out
    /// unless `include_empty`.
    pub fn as_map(&self, include_empty: bool) -> (r: SlotMap<S>)
        ensures
            r@.len() == S::spec_count(),
            forall|i: int|
                0 <= i < r@.len() ==> r@[i] == (if include_empty || !self@[i].spec_is_empty() {
                    Some(self@[i])
                } else {
                    None
                }),
    {
        proof {
            use_type_invariant(self);
        }
        let n = S::count();
        let mut m = SlotMap::<S>::new();
        let mut i: usize = 0;
        while i < n
            invariant
                n == S::spec_count(),
                i <= n,
                self.slots@.len() == n,
                m@.len() == n,
                forall|j: int|
                    0 <= j < i ==> m@[j] == (if include_empty || !self@[j].spec_is_empty() {
                        Some(self@[j])
                    } else {
                        None
                    }),
                forall|j: int| i <= j < n ==> m@[j] is None,
            decreases n - i,
        {
            proof {
                S::lemma_index_slot(i as nat);
            }
            let slot = S::from_index(i);
            let appearance = self.slots[i];
            if include_empty || !appearance.is_empty() {
                m.insert(slot, appearance);
            }
            i = i + 1;
        }
        m
    }

    /// The template that keeps the appearances of the slots in `filter` and holds
    /// the empty appearance in the other slots.
    pub fn filter(&self, filter: &SlotFilter<S>) -> (r: Self)
        ensures
            r@ == filtered_slots::<S>(self@, filter@),
            forall|i: int|
                0 <= i < S::spec_count() ==> r@[i] == (if filter@[i] {
                    self@[i]
                } else {
                    default_for::<S>(i as nat)
                }),
    {
        let mut filtered = self.as_map(true);
        filtered.retain(filter);
        let r = Self::new(filtered);
        assert(r@ =~= filtered_slots::<S>(self@, filter@));
        r
    }

    /// The template that merges, slot by slot, the appearances of `other` into
    /// those of `self` (see `Appearance::merge`).
    pub fn merge(&self, other: &Self, ignore_skin: bool, ignore_dyes: bool) -> (r: Self)
        ensures
            r@ == merged_slots::<S>(self@, other@, ignore_skin, ignore_dyes),
            forall|i: int|
                0 <= i < S::spec_count() ==> r@[i] == self@[i].spec_merge(
                    other@[i],
                    ignore_skin,
                    ignore_dyes,
                ),
    {
        let mut slots = self.as_map(false);
        let entries = self.iter();
        let n = entries.len();
        let mut i: usize = 0;
        while i < n
            invariant
                n == S::spec_count(),
                i <= n,
                slots@.len() == n,
                entries@.len() == n,
                forall|j: int|
                    0 <= j < n ==> entries@[j] == (S::spec_from_index(j as nat), self@[j]),
                forall|j: int|
                    0 <= j < i ==> slots@[j] == Some(
                        self@[j].spec_merge(other@[j], ignore_skin, ignore_dyes),
                    ),
            decreases n - i,
        {
            let (slot, appearance) = entries[i];
            proof {
                S::lemma_index_slot(i as nat);
            }
            let merged = appearance.merge(&other.get_slot(&slot), ignore_skin, ignore_dyes);
            slots.insert(slot, merged);
            i = i + 1;
        }
        let r = Self::new(slots);
        assert(r@ =~= merged_slots::<S>(self@, other@, ignore_skin, ignore_dyes));
        r
    }
}

/// The slots that a filter keeps: a slot outside the filter holds the empty
/// appearance of its place.
pub open spec fn filtered_slots<S: FashionSlot>(slots: Seq<Appearance>, keep: Seq<bool>) -> Seq<
    Appearance,
> {
    Seq::new(
        S::spec_count(),
        |i: int|
            if keep[i] {
                slots[i]
            } else {
                default_for::<S>(i as nat)
            },
    )
}

/// The slots of two templates merged slot by slot (see `Appearance::merge`).
pub open spec fn merged_slots<S: FashionSlot>(
    slots: Seq<Appearance>,
    other: Seq<Appearance>,
    ignore_skin: bool,
    ignore_dyes: bool,
) -> Seq<Appearance> {
    Seq::new(S::spec_count(), |i: int| slots[i].spec_merge(other[i], ignore_skin, ignore_dyes))
}

/// Filtering twice keeps the slots that both filters keep.
pub proof fn law_filter_twice<S: FashionSlot>(slots: Seq<Appearance>, f: Seq<bool>, g: Seq<bool>)
    ensures
        filtered_slots::<S>(filtered_slots::<S>(slots, f), g) == filtered_slots::<S>(
            slots,
            Seq::new(S::spec_count(), |i: int| f[i] && g[i]),
        ),
{
    assert(filtered_slots::<S>(filtered_slots::<S>(slots, f), g) =~= filtered_slots::<S>(
        slots,
        Seq::new(S::spec_count(), |i: int| f[i] && g[i]),
    ));
}

/// A filter that keeps every slot keeps the template as it is.
pub proof fn law_filter_all<S: FashionSlot>(slots: Seq<Appearance>, keep: Seq<bool>)
    requires
        slots.len() == S::spec_count(),
        forall|i: int| 0 <= i < S::spec_count() ==> keep[i],
    ensures
        filtered_slots::<S>(slots, keep) == slots,
{
    assert(filtered_slots::<S>(slots, keep) =~= slots);
}

/// Merging in a template whose slots are all empty, or ignoring both skins and dyes,
/// keeps the template as it is.
pub proof fn law_merge_neutral<S: FashionSlot>(
    slots: Seq<Appearance>,
    other: Seq<Appearance>,
    ignore_skin: bool,
    ignore_dyes: bool,
)
    requires
        slots.len() == S::spec_count(),
    ensures
        merged_slots::<S>(slots, other, true, true) == slots,
        (forall|i: int| 0 <= i < S::spec_count() ==> (#[trigger] other[i]).spec_is_empty())
            ==> merged_slots::<S>(slots, other, ignore_skin, ignore_dyes) == slots,
{
    assert(merged_slots::<S>(slots, other, true, true) =~= slots);
    if forall|i: int| 0 <= i < S::spec_count() ==> (#[trigger] other[i]).spec_is_empty() {
        assert(merged_slots::<S>(slots, other, ignore_skin, ignore_dyes) =~= slots);
    }
}

/// Merging the same template in twice gives what merging it once gives.
pub proof fn law_merge_idempotent<S: FashionSlot>(
    slots: Seq<Appearance>,
    other: Seq<Appearance>,
    ignore_skin: bool,
    ignore_dyes: bool,
)
    ensures
        merged_slots::<S>(
            merged_slots::<S>(slots, other, ignore_skin, ignore_dyes),
            other,
            ignore_skin,
            ignore_dyes,
        ) == merged_slots::<S>(slots, other, ignore_skin, ignore_dyes),
{
    assert(merged_slots::<S>(
        merged_slots::<S>(slots, other, ignore_skin, ignore_dyes),
        other,
        ignore_skin,
        ignore_dyes,
    ) =~= merged_slots::<S>(slots, other, ignore_skin, ignore_dyes));
}

/// Whether slot number `i` of `S` holds dyes.
pub open spec fn dyeable_at<S: FashionSlot>(i: nat) -> bool {
    S::spec_from_index(i).spec_dyeable()
}

/// Bit `i` of `v`.
pub open spec fn bit(v: u16, i: u16) -> bool {
    (v >> i) & 1u16 == 1u16
}

/// The bit of `slot` in a visibility mask: `1` shifted by the slot's number.
pub fn visibility_bit<S: FashionSlot>(slot: S) -> (r: u16)
    ensures
        r == 1u16 << (slot.spec_index() as u16),
        bit(r, slot.spec_index() as u16),
{
    proof {
        S::lemma_slot_index(slot);
        S::lemma_count();
    }
    let i: u16 = slot.index() as u16;
    let r: u16 = 1u16 << i;
    assert(i < 16 ==> ((1u16 << i) >> i) & 1u16 == 1u16) by (bit_vector);
    r
}

/// The mask of every slot of `S`: the low `count` bits set.
pub fn visibility_mask<S: FashionSlot>() -> (r: u16)
    ensures
        r as u32 == (1u32 << (S::spec_count() as u32)) - 1,
        forall|v: u16| #[trigger] visibility_fits::<S>(v) <==> v & !r == 0,
{
    proof {
        S::lemma_count();
    }
    let n: u32 = S::count() as u32;
    assert(0 < n <= 16 ==> (1u32 << n) - 1 <= 0xffff && (1u32 << n) >= 1) by (bit_vector);
    let r: u16 = ((1u32 << n) - 1) as u16;
    assert forall|v: u16| #[trigger] visibility_fits::<S>(v) <==> v & !r == 0 by {
        assert(0 < n <= 16 && r as u32 == (1u32 << n) - 1 ==> ((v as u32) < (1u32 << n)
            <==> v & !r == 0)) by (bit_vector);
    }
    r
}

/// Whether `slot` is set in the visibility mask `visibility`.
pub fn is_visible<S: FashionSlot>(slot: S, visibility: u16) -> (r: bool)
    ensures
        r == bit(visibility, slot.spec_index() as u16),
{
    proof {
        S::lemma_slot_index(slot);
        S::lemma_count();
    }
    let i: u16 = slot.index() as u16;
    let b: u16 = visibility_bit(slot);
    assert(i < 16 && b == 1u16 << i ==> ((visibility & b) != 0 <==> (visibility >> i) & 1u16
        == 1u16)) by (bit_vector);
    (visibility & b) != 0
}

/// Where the bytes of slot number `i` start in a payload of `S`.
pub open spec fn slot_offset<S: FashionSlot>(i: nat) -> nat
    decreases i,
{
    if i == 0 {
        0
    } else {
        slot_offset::<S>((i - 1) as nat) + encoded_len(dyeable_at::<S>((i - 1) as nat))
    }
}

/// The length of a payload of `S`: the bytes of every slot, then two bytes of visibility.
pub open spec fn payload_len<S: FashionSlot>() -> nat {
    slot_offset::<S>(S::spec_count()) + 2
}

/// The visibility mask stored in the last two bytes of a payload.
pub open spec fn payload_visibility(bytes: Seq<u8>) -> u16 {
    le_at(bytes, bytes.len() - 2)
}

/// A visibility mask is valid for `S` when it sets no bit beyond the slots of `S`.
pub open spec fn visibility_fits<S: FashionSlot>(v: u16) -> bool {
    (v as u32) < (1u32 << (S::spec_count() as u32))
}

/// Whether slot `j` counts as visible when a template is written: always-visible
/// slots do, the others when their appearance says so.
pub open spec fn shown<S: FashionSlot>(slots: Seq<Appearance>, j: nat) -> bool {
    S::spec_from_index(j).spec_always_visible() || slots[j as int].spec_visible()
}

/// The visibility mask of the first `n` slots: bit `j` is set when slot `j` is shown.
pub open spec fn visibility_bits<S: FashionSlot>(slots: Seq<Appearance>, n: nat) -> u16
    decreases n,
{
    if n == 0 {
        0u16
    } else {
        visibility_bits::<S>(slots, (n - 1) as nat) | (if shown::<S>(slots, (n - 1) as nat) {
            1u16 << ((n - 1) as u16)
        } else {
            0u16
        })
    }
}

/// The bytes of the first `n` slots, in slot order.
pub open spec fn encoded_slots(slots: Seq<Appearance>, n: nat) -> Seq<u8>
    decreases n,
{
    if n == 0 {
        Seq::empty()
    } else {
        encoded_slots(slots, (n - 1) as nat) + slots[n - 1].spec_bytes()
    }
}

/// The payload of a template with appearances `slots`.
pub open spec fn encoded_template<S: FashionSlot>(slots: Seq<Appearance>) -> Seq<u8> {
    encoded_slots(slots, S::spec_count()) + le_bytes(visibility_bits::<S>(slots, S::spec_count()))
}

/// A payload is accepted when it has the length of `S` and a valid visibility mask.
pub open spec fn payload_accepted<S: FashionSlot>(bytes: Seq<u8>) -> bool {
    &&& bytes.len() == payload_len::<S>()
    &&& visibility_fits::<S>(payload_visibility(bytes))
}

/// The appearances that an accepted payload holds: each slot read at its offset,
/// visible when its bit of the mask is set.
pub open spec fn decoded_slots<S: FashionSlot>(bytes: Seq<u8>) -> Seq<Appearance> {
    Seq::new(
        S::spec_count(),
        |i: int|
            appearance_at(
                bytes,
                slot_offset::<S>(i as nat) as int,
                dyeable_at::<S>(i as nat),
                bit(payload_visibility(bytes), i as u16),
            ),
    )
}

/// Offsets grow by the size of each slot and stay within ten bytes a slot.
pub proof fn lemma_offset_bound<S: FashionSlot>(i: nat, j: nat)
    requires
        i <= j,
    ensures
        slot_offset::<S>(i) <= slot_offset::<S>(j),
        slot_offset::<S>(j) <= 10 * j,
    decreases j,
{
    if j > 0 {
        if i < j {
            lemma_offset_bound::<S>(i, (j - 1) as nat);
        } else {
            lemma_offset_bound::<S>((j - 1) as nat, (j - 1) as nat);
        }
    }
}

impl<S: FashionSlot> Template<S> {
    /// The payload of this template.
    pub open spec fn spec_serialize(self) -> Seq<u8> {
        encoded_template::<S>(self@)
    }

    /// The length of a payload of `S`.
    pub fn payload_size() -> (r: usize)
        ensures
            r == payload_len::<S>(),
            r <= 162,
    {
        let n = S::count();
        proof {
            S::lemma_count();
        }
        let mut size: usize = 0;
        let mut i: usize = 0;
        while i < n
            invariant
                n == S::spec_count(),
                n <= 16,
                i <= n,
                size == slot_offset::<S>(i as nat),
                size <= 10 * i,
            decreases n - i,
        {
            proof {
                S::lemma_index_slot(i as nat);
            }
            let slot = S::from_index(i);
            size = size + Appearance::encoded_size(slot.dyeable());
            i = i + 1;
        }
        size + 2
    }

    /// The visibility mask of this template: bit `i` is set when slot `i` is
    /// always visible or its appearance is visible.
    pub fn visibility(&self) -> (r: u16)
        ensures
            r == visibility_bits::<S>(self@, S::spec_count()),
    {
        proof {
            use_type_invariant(self);
            S::lemma_count();
        }
        let n = S::count();
        let mut acc: u16 = 0;
        let mut i: usize = 0;
        while i < n
            invariant
                n == S::spec_count(),
                n <= 16,
                i <= n,
                self.slots@.len() == n,
                acc == visibility_bits::<S>(self@, i as nat),
            decreases n - i,
        {
            proof {
                S::lemma_index_slot(i as nat);
            }
            let slot = S::from_index(i);
            let flag: u16 = if slot.always_visible() || self.slots[i].is_visible() {
                1u16 << (i as u16)
            } else {
                0u16
            };
            acc = acc | flag;
            i = i + 1;
        }
        acc
    }

    /// Writes the payload: the bytes of each slot in order, then the visibility mask.
    pub fn serialize(&self) -> (r: Vec<u8>)
        ensures
            r@ == self.spec_serialize(),
    {
        proof {
            use_type_invariant(self);
        }
        let n = S::count();
        let mut buffer: Vec<u8> = Vec::new();
        let mut i: usize = 0;
        while i < n
            invariant
                n == S::spec_count(),
                i <= n,
                self.slots@.len() == n,
                buffer@ == encoded_slots(self@, i as nat),
            decreases n - i,
        {
            self.slots[i].serialize(&mut buffer);
            i = i + 1;
        }
        let v = self.visibility();
        push_u16_le(&mut buffer, v);
        buffer
    }

    /// Reads the visibility mask from the last two bytes (little-endian): `Ok` with the
    /// mask when it sets no bit beyond the slots of `S`, else `InvalidVisibility` with
    /// the mask.
    pub fn read_visibility(bytes: &[u8]) -> (r: Result<u16, ChatLinkError>)
        requires
            bytes@.len() >= 2,
        ensures
            visibility_fits::<S>(payload_visibility(bytes@)) ==> r == Ok::<u16, ChatLinkError>(
                payload_visibility(bytes@),
            ),
            !visibility_fits::<S>(payload_visibility(bytes@)) ==> (r matches Err(
                ChatLinkError::InvalidVisibility(v),
            ) && v == payload_visibility(bytes@)),
    {
        let n = S::count();
        proof {
            S::lemma_count();
        }
        let visibility = read_u16_le(bytes, bytes.len() - 2).unwrap();
        if (visibility as u32) < (1u32 << (n as u32)) {
            Ok(visibility)
        } else {
            Err(ChatLinkError::InvalidVisibility(visibility))
        }
    }

    /// Reads a payload. It must have the length of `S` (else `TruncatedData` with the
    /// payload) and a visibility mask that sets no bit beyond the slots of `S` (else
    /// `InvalidVisibility` with the mask); then each slot is read at its offset and is
    /// visible when its bit is set.
    pub fn from_bytes(bytes: &[u8]) -> (r: Result<Self, ChatLinkError>)
        ensures
            bytes@.len() != payload_len::<S>() <==> r matches Err(ChatLinkError::TruncatedData(_)),
            r matches Err(ChatLinkError::TruncatedData(v)) ==> v@ == bytes@,
            bytes@.len() == payload_len::<S>() && !visibility_fits::<S>(payload_visibility(bytes@))
                <==> r matches Err(ChatLinkError::InvalidVisibility(_)),
            r matches Err(ChatLinkError::InvalidVisibility(v)) ==> v == payload_visibility(bytes@),
            payload_accepted::<S>(bytes@) <==> r is Ok,
            r matches Ok(t) ==> t@ == decoded_slots::<S>(bytes@),
            r is Err ==> (r matches Err(ChatLinkError::TruncatedData(_)) || r matches Err(
                ChatLinkError::InvalidVisibility(_),
            )),
    {
        let size = Self::payload_size();
        if bytes.len() != size {
            return Err(ChatLinkError::TruncatedData(vstd::slice::slice_to_vec(bytes)));
        }
        let n = S::count();
        proof {
            S::lemma_count();
            lemma_offset_bound::<S>(0, n as nat);
        }
        let visibility = Self::read_visibility(bytes)?;
        let mut slots: Vec<Appearance> = Vec::new();
        let mut pos: usize = 0;
        let mut i: usize = 0;
        while i < n
            invariant
                n == S::spec_count(),
                n <= 16,
                i <= n,
                bytes@.len() == payload_len::<S>(),
                visibility == payload_visibility(bytes@),
                pos == slot_offset::<S>(i as nat),
                slots@.len() == i,
                forall|j: int| 0 <= j < i ==> slots@[j] == decoded_slots::<S>(bytes@)[j],
            decreases n - i,
        {
            proof {
                S::lemma_index_slot(i as nat);
                lemma_offset_bound::<S>((i + 1) as nat, n as nat);
            }
            let slot = S::from_index(i);
            let visible = ((visibility >> (i as u16)) & 1) == 1;
            let (appearance, next) = Appearance::read(bytes, pos, slot.dyeable(), visible).unwrap();
            slots.push(appearance);
            pos = next;
            i = i + 1;
        }
        let t = Self::from_vec(slots);
        assert(t@ =~= decoded_slots::<S>(bytes@));
        Ok(t)
    }
}

/// Bit `j` of `a | (1 << k)` is bit `j` of `a`, or set when `j == k`.
proof fn lemma_bit_or_single(a: u16, k: u16, j: u16)
    requires
        k < 16,
        j < 16,
    ensures
        bit(a | (1u16 << k), j) == (bit(a, j) || j == k),
        bit(a | 0u16, j) == bit(a, j),
        !bit(0u16, j),
{
    assert(((a | (1u16 << k)) >> j) & 1u16 == 1u16 <==> (((a >> j) & 1u16 == 1u16) || j == k))
        by (bit_vector)
        requires
            k < 16,
            j < 16,
    ;
    assert(((a | 0u16) >> j) & 1u16 == 1u16 <==> ((a >> j) & 1u16 == 1u16)) by (bit_vector);
    assert(!((0u16 >> j) & 1u16 == 1u16)) by (bit_vector);
}

/// Two masks with the same sixteen bits are equal.
proof fn lemma_bits_equal(a: u16, b: u16)
    requires
        forall|j: u16| j < 16 ==> bit(a, j) == bit(b, j),
    ensures
        a == b,
{
    assert(bit(a, 0u16) == bit(b, 0u16));
    assert(bit(a, 1u16) == bit(b, 1u16));
    assert(bit(a, 2u16) == bit(b, 2u16));
    assert(bit(a, 3u16) == bit(b, 3u16));
    assert(bit(a, 4u16) == bit(b, 4u16));
    assert(bit(a, 5u16) == bit(b, 5u16));
    assert(bit(a, 6u16) == bit(b, 6u16));
    assert(bit(a, 7u16) == bit(b, 7u16));
    assert(bit(a, 8u16) == bit(b, 8u16));
    assert(bit(a, 9u16) == bit(b, 9u16));
    assert(bit(a, 10u16) == bit(b, 10u16));
    assert(bit(a, 11u16) == bit(b, 11u16));
    assert(bit(a, 12u16) == bit(b, 12u16));
    assert(bit(a, 13u16) == bit(b, 13u16));
    assert(bit(a, 14u16) == bit(b, 14u16));
    assert(bit(a, 15u16) == bit(b, 15u16));
    assert(a == b) by (bit_vector)
        requires
        bit(a, 0u16) == bit(b, 0u16),
        bit(a, 1u16) == bit(b, 1u16),
        bit(a, 2u16) == bit(b, 2u16),
        bit(a, 3u16) == bit(b, 3u16),
        bit(a, 4u16) == bit(b, 4u16),
        bit(a, 5u16) == bit(b, 5u16),
        bit(a, 6u16) == bit(b, 6u16),
        bit(a, 7u16) == bit(b, 7u16),
        bit(a, 8u16) == bit(b, 8u16),
        bit(a, 9u16) == bit(b, 9u16),
        bit(a, 10u16) == bit(b, 10u16),
        bit(a, 11u16) == bit(b, 11u16),
        bit(a, 12u16) == bit(b, 12u16),
        bit(a, 13u16) == bit(b, 13u16),
        bit(a, 14u16) == bit(b, 14u16),
        bit(a, 15u16) == bit(b, 15u16),
    ;
}

/// A mask below `1 << c` has no bit set from `c` on.
proof fn lemma_fits_high_bits(v: u16, c: u32, j: u16)
    requires
        c <= 16,
        c <= j < 16,
        (v as u32) < (1u32 << c),
    ensures
        !bit(v, j),
{
    assert(!(((v >> j) & 1u16) == 1u16)) by (bit_vector)
        requires
            c <= 16,
            c <= j < 16,
            (v as u32) < (1u32 << c),
    ;
}

/// Adding bit `k` to a mask below `1 << k` gives a mask below `1 << (k + 1)`.
proof fn lemma_fits_step(a: u16, f: u16, k: u32)
    requires
        k < 16,
        (a as u32) < (1u32 << k),
        f == 0u16 || f == (1u16 << (k as u16)),
    ensures
        ((a | f) as u32) < (1u32 << (k + 1) as u32),
{
    assert(((a | f) as u32) < (1u32 << (k + 1) as u32)) by (bit_vector)
        requires
            k < 16,
            (a as u32) < (1u32 << k),
            f == 0u16 || f == (1u16 << (k as u16)),
    ;
}

/// Bit `j` of the visibility of the first `n` slots is set exactly when `j < n`
/// and slot `j` is shown; the mask stays below `1 << n`.
pub proof fn lemma_visibility_bits<S: FashionSlot>(slots: Seq<Appearance>, n: nat)
    requires
        n <= 16,
    ensures
        forall|j: u16|
            #![trigger bit(visibility_bits::<S>(slots, n), j)]
            j < 16 ==> bit(visibility_bits::<S>(slots, n), j) == ((j as nat) < n && shown::<S>(
                slots,
                j as nat,
            )),
        (visibility_bits::<S>(slots, n) as u32) < (1u32 << (n as u32)),
    decreases n,
{
    if n == 0 {
        assert(visibility_bits::<S>(slots, n) == 0u16);
        assert forall|j: u16| j < 16 implies #[trigger] bit(visibility_bits::<S>(slots, n), j) == ((j as nat) < n && shown::<S>(
            slots,
            j as nat,
        )) by {
            lemma_bit_or_single(0u16, 0u16, j);
        }
        assert((0u16 as u32) < (1u32 << 0u32)) by (bit_vector);
    } else {
        let k = (n - 1) as nat;
        lemma_visibility_bits::<S>(slots, k);
        let a = visibility_bits::<S>(slots, k);
        let f: u16 = if shown::<S>(slots, k) {
            1u16 << (k as u16)
        } else {
            0u16
        };
        assert(visibility_bits::<S>(slots, n) == a | f);
        assert forall|j: u16| j < 16 implies #[trigger] bit(visibility_bits::<S>(slots, n), j) == ((j as nat) < n && shown::<S>(
            slots,
            j as nat,
        )) by {
            lemma_bit_or_single(a, k as u16, j);
            assert(bit(visibility_bits::<S>(slots, n), j) == bit(a | f, j));
            assert(bit(a, j) == ((j as nat) < k && shown::<S>(slots, j as nat)));
            if shown::<S>(slots, k) {
                assert(bit(a | f, j) == (bit(a, j) || j == (k as u16)));
            } else {
                assert(bit(a | f, j) == bit(a, j));
            }
        }
        lemma_fits_step(a, f, k as u32);
    }
}

/// The bytes of the first `n` slots take the offset of slot `n`, when every slot
/// has the dyeable kind of its place.
pub proof fn lemma_encoded_len<S: FashionSlot>(slots: Seq<Appearance>, n: nat)
    requires
        n <= slots.len(),
        forall|j: int| 0 <= j < n ==> slots[j].spec_is_dyeable() == dyeable_at::<S>(j as nat),
    ensures
        encoded_slots(slots, n).len() == slot_offset::<S>(n),
    decreases n,
{
    if n > 0 {
        lemma_encoded_len::<S>(slots, (n - 1) as nat);
        lemma_bytes_read_back(slots[n - 1], Seq::empty(), Seq::empty(), true);
    }
}

/// The bytes of the first `m` slots begin the bytes of the first `n`, for `m <= n`.
pub proof fn lemma_encoded_prefix(slots: Seq<Appearance>, m: nat, n: nat)
    requires
        m <= n,
    ensures
        encoded_slots(slots, m).len() <= encoded_slots(slots, n).len(),
        encoded_slots(slots, n).subrange(0, encoded_slots(slots, m).len() as int)
            == encoded_slots(slots, m),
    decreases n,
{
    if m < n {
        lemma_encoded_prefix(slots, m, (n - 1) as nat);
        let a = encoded_slots(slots, (n - 1) as nat);
        let whole = encoded_slots(slots, n);
        let len_m = encoded_slots(slots, m).len() as int;
        assert(whole.subrange(0, len_m) =~= a.subrange(0, len_m));
    } else {
        assert(encoded_slots(slots, n).subrange(0, encoded_slots(slots, n).len() as int)
            =~= encoded_slots(slots, n));
    }
}

/// An appearance read within a prefix of the bytes is the one read from the bytes.
proof fn lemma_appearance_in_prefix(a: Seq<u8>, b: Seq<u8>, p: int, d: bool, v: bool)
    requires
        0 <= p,
        p + encoded_len(d) <= b.len(),
        b.len() <= a.len(),
        a.subrange(0, b.len() as int) == b,
    ensures
        appearance_at(a, p, d, v) == appearance_at(b, p, d, v),
{
    assert forall|k: int| 0 <= k < b.len() implies a[k] == b[k] by {
        assert(a.subrange(0, b.len() as int)[k] == a[k]);
    }
}

/// Writing a template and reading the payload back gives the template, with each
/// slot marked visible when it is shown. This holds for every template whose slots
/// have the dyeable kind of their place, as those that `from_bytes` and `new` build
/// from matching appearances do.
pub proof fn law_payload_roundtrip<S: FashionSlot>(slots: Seq<Appearance>)
    requires
        slots.len() == S::spec_count(),
        forall|i: int|
            0 <= i < S::spec_count() ==> slots[i].spec_is_dyeable() == dyeable_at::<S>(i as nat),
    ensures
        payload_accepted::<S>(encoded_template::<S>(slots)),
        decoded_slots::<S>(encoded_template::<S>(slots)) == Seq::new(
            S::spec_count(),
            |i: int| slots[i].with_visible(shown::<S>(slots, i as nat)),
        ),
{
    let n = S::spec_count();
    S::lemma_count();
    let vis = visibility_bits::<S>(slots, n);
    let body = encoded_slots(slots, n);
    let all = encoded_template::<S>(slots);
    lemma_encoded_len::<S>(slots, n);
    lemma_le_roundtrip(vis);
    lemma_visibility_bits::<S>(slots, n);
    assert(all.len() == payload_len::<S>());
    assert(all[all.len() - 2] == le_bytes(vis)[0]);
    assert(all[all.len() - 1] == le_bytes(vis)[1]);
    assert(payload_visibility(all) == vis);
    assert forall|i: int| 0 <= i < n implies decoded_slots::<S>(all)[i] == slots[i].with_visible(
        shown::<S>(slots, i as nat),
    ) by {
        let prefix = encoded_slots(slots, i as nat);
        let upto = encoded_slots(slots, (i + 1) as nat);
        lemma_encoded_len::<S>(slots, i as nat);
        lemma_encoded_len::<S>(slots, (i + 1) as nat);
        lemma_encoded_prefix(slots, (i + 1) as nat, n);
        let v = bit(vis, i as u16);
        assert(v == shown::<S>(slots, i as nat));
        lemma_bytes_read_back(slots[i], prefix, Seq::empty(), v);
        assert(prefix + slots[i].spec_bytes() + Seq::empty() =~= upto);
        assert(all.subrange(0, upto.len() as int) =~= body.subrange(0, upto.len() as int));
        lemma_appearance_in_prefix(all, upto, slot_offset::<S>(i as nat) as int, dyeable_at::<S>(i as nat), v);
    }
    assert(decoded_slots::<S>(all) =~= Seq::new(
        S::spec_count(),
        |i: int| slots[i].with_visible(shown::<S>(slots, i as nat)),
    ));
}

/// The bytes of the first `n` decoded slots are the first bytes of the payload.
proof fn lemma_decoded_encoding<S: FashionSlot>(bytes: Seq<u8>, n: nat)
    requires
        n <= S::spec_count(),
        bytes.len() == payload_len::<S>(),
    ensures
        encoded_slots(decoded_slots::<S>(bytes), n) == bytes.subrange(0, slot_offset::<S>(n) as int),
    decreases n,
{
    let d = decoded_slots::<S>(bytes);
    if n == 0 {
        assert(bytes.subrange(0, 0) =~= Seq::<u8>::empty());
    } else {
        let k = (n - 1) as nat;
        lemma_decoded_encoding::<S>(bytes, k);
        lemma_offset_bound::<S>(n, S::spec_count());
        lemma_read_bytes_back(
            bytes,
            slot_offset::<S>(k) as int,
            dyeable_at::<S>(k),
            bit(payload_visibility(bytes), k as u16),
        );
        assert(bytes.subrange(0, slot_offset::<S>(n) as int) =~= bytes.subrange(
            0,
            slot_offset::<S>(k) as int,
        ) + bytes.subrange(slot_offset::<S>(k) as int, slot_offset::<S>(n) as int));
    }
}

/// Reading an accepted payload and writing the template back gives the payload,
/// provided the payload marks every always-visible slot as visible (writing always
/// sets those bits).
pub proof fn law_payload_rewrite<S: FashionSlot>(bytes: Seq<u8>)
    requires
        payload_accepted::<S>(bytes),
        forall|i: u16|
            (i as nat) < S::spec_count() && S::spec_from_index(i as nat).spec_always_visible()
                ==> #[trigger] bit(payload_visibility(bytes), i),
    ensures
        encoded_template::<S>(decoded_slots::<S>(bytes)) == bytes,
{
    let n = S::spec_count();
    S::lemma_count();
    let d = decoded_slots::<S>(bytes);
    let v = payload_visibility(bytes);
    lemma_decoded_encoding::<S>(bytes, n);
    lemma_visibility_bits::<S>(d, n);
    assert forall|j: u16| j < 16 implies bit(visibility_bits::<S>(d, n), j) == bit(v, j) by {
        if (j as nat) < n {
            assert(d[j as int].spec_visible() == bit(v, j));
            if S::spec_from_index(j as nat).spec_always_visible() {
                assert(bit(v, j));
            }
            assert(shown::<S>(d, j as nat) == bit(v, j));
        } else {
            lemma_fits_high_bits(v, n as u32, j);
        }
    }
    lemma_bits_equal(visibility_bits::<S>(d, n), v);
    lemma_le_bytes_of_value(bytes[bytes.len() - 2], bytes[bytes.len() - 1]);
    assert(bytes =~= bytes.subrange(0, slot_offset::<S>(n) as int) + seq![
        bytes[bytes.len() - 2],
        bytes[bytes.len() - 1],
    ]);
}

/// Where the slots of a wardrobe payload lie: the aquabreather's skin in the first
/// two bytes, then ten bytes (skin and four dyes) for the backpack, chest, shoes,
/// gloves, head, legs, shoulders and outfit, then two bytes for each weapon, then
/// the two bytes of the mask.
pub proof fn law_wardrobe_payload_layout()
    ensures
        slot_offset::<WardrobeSlot>(WardrobeSlot::Aquabreather.spec_index()) == 0,
        slot_offset::<WardrobeSlot>(WardrobeSlot::Backpack.spec_index()) == 2,
        slot_offset::<WardrobeSlot>(WardrobeSlot::Chest.spec_index()) == 12,
        slot_offset::<WardrobeSlot>(WardrobeSlot::Shoes.spec_index()) == 22,
        slot_offset::<WardrobeSlot>(WardrobeSlot::Gloves.spec_index()) == 32,
        slot_offset::<WardrobeSlot>(WardrobeSlot::Head.spec_index()) == 42,
        slot_offset::<WardrobeSlot>(WardrobeSlot::Legs.spec_index()) == 52,
        slot_offset::<WardrobeSlot>(WardrobeSlot::Shoulders.spec_index()) == 62,
        slot_offset::<WardrobeSlot>(WardrobeSlot::Outfit.spec_index()) == 72,
        slot_offset::<WardrobeSlot>(WardrobeSlot::WeaponAquaticA.spec_index()) == 82,
        slot_offset::<WardrobeSlot>(WardrobeSlot::WeaponAquaticB.spec_index()) == 84,
        slot_offset::<WardrobeSlot>(WardrobeSlot::WeaponA1.spec_index()) == 86,
        slot_offset::<WardrobeSlot>(WardrobeSlot::WeaponA2.spec_index()) == 88,
        slot_offset::<WardrobeSlot>(WardrobeSlot::WeaponB1.spec_index()) == 90,
        slot_offset::<WardrobeSlot>(WardrobeSlot::WeaponB2.spec_index()) == 92,
        payload_len::<WardrobeSlot>() == 96,
{
    assert(slot_offset::<WardrobeSlot>(0) == 0);
    assert(!dyeable_at::<WardrobeSlot>(0));
    assert(encoded_len(false) == 2 && encoded_len(true) == 10);
    assert(slot_offset::<WardrobeSlot>(1) == 2);
    assert(slot_offset::<WardrobeSlot>(2) == 12);
    assert(slot_offset::<WardrobeSlot>(3) == 22);
    assert(slot_offset::<WardrobeSlot>(4) == 32);
    assert(slot_offset::<WardrobeSlot>(5) == 42);
    assert(slot_offset::<WardrobeSlot>(6) == 52);
    assert(slot_offset::<WardrobeSlot>(7) == 62);
    assert(slot_offset::<WardrobeSlot>(8) == 72);
    assert(slot_offset::<WardrobeSlot>(9) == 82);
    assert(slot_offset::<WardrobeSlot>(10) == 84);
    assert(slot_offset::<WardrobeSlot>(11) == 86);
    assert(slot_offset::<WardrobeSlot>(12) == 88);
    assert(slot_offset::<WardrobeSlot>(13) == 90);
    assert(slot_offset::<WardrobeSlot>(14) == 92);
    assert(slot_offset::<WardrobeSlot>(15) == 94);
}

/// Where the slots of a travel payload lie: ten bytes (skin and four dyes) for each
/// of the twelve slots in order, then the two bytes of the mask.
pub proof fn law_travel_payload_layout(s: TravelSlot)
    ensures
        slot_offset::<TravelSlot>(s.spec_index()) == 10 * s.spec_index(),
        payload_len::<TravelSlot>() == 122,
{
    lemma_travel_offsets(12);
}

proof fn lemma_travel_offsets(n: nat)
    requires
        n <= 12,
    ensures
        forall|i: nat| i <= n ==> #[trigger] slot_offset::<TravelSlot>(i) == 10 * i,
    decreases n,
{
    if n > 0 {
        lemma_travel_offsets((n - 1) as nat);
        assert(slot_offset::<TravelSlot>(n) == slot_offset::<TravelSlot>((n - 1) as nat) + 10);
    }
}

/// Each slot of an accepted payload is read at its offset, with the kind of its
/// place, and is visible exactly when its bit of the mask is set.
pub proof fn law_slots_read_at_their_place<S: FashionSlot>(p: Seq<u8>, s: S)
    requires
        payload_accepted::<S>(p),
    ensures
        decoded_slots::<S>(p)[s.spec_index() as int].spec_skin() == SkinId(
            le_at(p, slot_offset::<S>(s.spec_index()) as int),
        ),
        decoded_slots::<S>(p)[s.spec_index() as int].spec_is_dyeable() == s.spec_dyeable(),
        decoded_slots::<S>(p)[s.spec_index() as int].spec_visible() == bit(
            payload_visibility(p),
            s.spec_index() as u16,
        ),
{
    S::lemma_slot_index(s);
}

/// The mask written for a wardrobe template sets a slot's bit when the slot is
/// chest, shoes or legs, and otherwise exactly when its appearance is visible: a
/// hidden head or gloves stays hidden.
pub proof fn law_wardrobe_written_visibility(slots: Seq<Appearance>, s: WardrobeSlot)
    requires
        slots.len() == 15,
    ensures
        bit(visibility_bits::<WardrobeSlot>(slots, 15), s.spec_index() as u16) == (s
            == WardrobeSlot::Chest || s == WardrobeSlot::Shoes || s == WardrobeSlot::Legs
            || slots[s.spec_index() as int].spec_visible()),
{
    WardrobeSlot::lemma_slot_index(s);
    lemma_visibility_bits::<WardrobeSlot>(slots, 15);
}

} // verus!
