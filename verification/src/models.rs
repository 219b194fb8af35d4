//! The skins of a template as the program shows them: by slot, with names once
//! they are known.
use std::marker::PhantomData;
use vstd::prelude::*;
use crate::skins::{Appearance, Dyes};
use crate::slots::{FashionSlot, WardrobeSlot};
use crate::skins::{DyeId, SkinId};
use crate::template::{default_for, filled_from, SlotMap, Template};

verus! {

/// A dye, with its name once it is known.
#[derive(Debug)]
pub struct Dye {
    pub id: u16,
    pub name: Option<String>,
}

/// A skin, with its name once it is known, its dyes if the slot has any, and
/// whether it is shown.
#[derive(Debug)]
pub struct Skin {
    pub id: u32,
    pub name: Option<String>,
    pub dyes: Option<(Dye, Dye, Dye, Dye)>,
    pub visible: Option<bool>,
}

/// The four dyes, without names.
pub open spec fn unnamed_dyes(d: Dyes) -> (Dye, Dye, Dye, Dye) {
    (
        Dye { id: (d.0).0, name: None },
        Dye { id: (d.1).0, name: None },
        Dye { id: (d.2).0, name: None },
        Dye { id: (d.3).0, name: None },
    )
}

/// The skin that an appearance shows, without names.
pub open spec fn skin_of(a: Appearance) -> Skin {
    Skin {
        id: a.spec_skin().0 as u32,
        name: None,
        dyes: match a.spec_dyes() {
            Some(d) => Some(unnamed_dyes(d)),
            None => None,
        },
        visible: Some(a.spec_visible()),
    }
}

impl Skin {
    /// The skin that `a` shows, without names.
    pub fn from_appearance(a: &Appearance) -> (r: Skin)
        ensures
            r == skin_of(*a),
    {
        let dyes = match a.dyes() {
            Some(d) => Some(
                (
                    Dye { id: d.0.id(), name: None },
                    Dye { id: d.1.id(), name: None },
                    Dye { id: d.2.id(), name: None },
                    Dye { id: d.3.id(), name: None },
                ),
            ),
            None => None,
        };
        Skin { id: a.skin().id() as u32, name: None, dyes, visible: Some(a.is_visible()) }
    }
}

/// The appearance a skin stands for: its id (the low sixteen bits), its dyes where
/// it has any (a dyeable appearance) or none (a non-dyeable one), and visible
/// unless it says otherwise.
pub open spec fn appearance_of_skin(s: Skin) -> Appearance {
    let skin = SkinId(s.id as u16);
    let visible = match s.visible {
        Some(v) => v,
        None => true,
    };
    match s.dyes {
        Some(d) => Appearance::Dyeable {
            skin,
            visible,
            dyes: Dyes(DyeId(d.0.id), DyeId(d.1.id), DyeId(d.2.id), DyeId(d.3.id)),
        },
        None => Appearance::NonDyeable { skin, visible },
    }
}

/// The skin of an appearance stands for that appearance.
pub proof fn law_skin_appearance_roundtrip(a: Appearance)
    ensures
        appearance_of_skin(skin_of(a)) == a,
{
    let x: u16 = a.spec_skin().0;
    assert((x as u32) as u16 == x) by (bit_vector);
}

impl Skin {
    /// The appearance the skin stands for (see `appearance_of_skin`).
    pub fn to_appearance(&self) -> (r: Appearance)
        ensures
            r == appearance_of_skin(*self),
    {
        let skin = SkinId(self.id as u16);
        let visible = match self.visible {
            Some(v) => v,
            None => true,
        };
        match &self.dyes {
            Some(d) => Appearance::Dyeable {
                skin,
                visible,
                dyes: Dyes(DyeId(d.0.id), DyeId(d.1.id), DyeId(d.2.id), DyeId(d.3.id)),
            },
            None => Appearance::NonDyeable { skin, visible },
        }
    }
}

/// Sets the entry of `slot` to the appearance of `skin`, where there is a skin.
pub fn insert_slot<S: FashionSlot>(slots: &mut SlotMap<S>, skin: &Option<Skin>, slot: S)
    ensures
        final(slots)@ == match skin {
            Some(s) => old(slots)@.update(slot.spec_index() as int, Some(appearance_of_skin(*s))),
            None => old(slots)@,
        },
{
    if let Some(s) = skin {
        slots.insert(slot, s.to_appearance());
    }
}

/// The entries that skins by slot give a template.
pub open spec fn entries_of_skins(skins: Seq<Option<Skin>>) -> Seq<Option<Appearance>> {
    skins.map_values(
        |o: Option<Skin>|
            match o {
                Some(s) => Some(appearance_of_skin(s)),
                None => None,
            },
    )
}

/// The skins that a template's data holds: the skin of each non-empty slot.
pub open spec fn skins_of_template(slots: Seq<Appearance>) -> Seq<Option<Skin>> {
    slots.map_values(
        |a: Appearance|
            if a.spec_is_empty() {
                None
            } else {
                Some(skin_of(a))
            },
    )
}

/// Turning a template into its data and back gives the template, with each empty
/// slot the empty appearance of its place.
pub proof fn law_data_roundtrip<S: FashionSlot>(slots: Seq<Appearance>)
    requires
        slots.len() == S::spec_count(),
    ensures
        filled_from::<S>(entries_of_skins(skins_of_template(slots))) == Seq::new(
            S::spec_count(),
            |i: int|
                if slots[i].spec_is_empty() {
                    default_for::<S>(i as nat)
                } else {
                    slots[i]
                },
        ),
{
    assert forall|i: int| 0 <= i < S::spec_count() implies #[trigger] filled_from::<S>(
        entries_of_skins(skins_of_template(slots)),
    )[i] == (if slots[i].spec_is_empty() {
        default_for::<S>(i as nat)
    } else {
        slots[i]
    }) by {
        law_skin_appearance_roundtrip(slots[i]);
    }
    assert(filled_from::<S>(entries_of_skins(skins_of_template(slots))) =~= Seq::new(
        S::spec_count(),
        |i: int|
            if slots[i].spec_is_empty() {
                default_for::<S>(i as nat)
            } else {
                slots[i]
            },
    ));
}

/// The skins that `entries` give each slot: the last entry of a slot wins, and a
/// slot without an entry has no skin.
pub open spec fn gathered<S: FashionSlot>(entries: Seq<(S, Skin)>) -> Seq<Option<Skin>>
    decreases entries.len(),
{
    if entries.len() == 0 {
        Seq::new(S::spec_count(), |i: int| None)
    } else {
        gathered::<S>(entries.drop_last()).update(
            entries.last().0.spec_index() as int,
            Some(entries.last().1),
        )
    }
}

/// The number of slots among the first `n` that have a skin.
pub open spec fn count_skins(s: Seq<Option<Skin>>, n: nat) -> nat
    decreases n,
{
    if n == 0 {
        0
    } else {
        count_skins(s, (n - 1) as nat) + if s[n - 1] is Some {
            1nat
        } else {
            0nat
        }
    }
}

proof fn lemma_gathered_len<S: FashionSlot>(entries: Seq<(S, Skin)>)
    ensures
        gathered::<S>(entries).len() == S::spec_count(),
    decreases entries.len(),
{
    if entries.len() > 0 {
        lemma_gathered_len::<S>(entries.drop_last());
        S::lemma_slot_index(entries.last().0);
    }
}

/// The skins of a template, by slot; slots without a skin are left out.
#[derive(Debug)]
pub struct TemplateData<S: FashionSlot> {
    slots: Vec<Option<Skin>>,
    marker: PhantomData<S>,
}

/// The skins of a wardrobe template, by slot.
pub type WardrobeTemplateData = TemplateData<WardrobeSlot>;

impl<S: FashionSlot> View for TemplateData<S> {
    type V = Seq<Option<Skin>>;

    closed spec fn view(&self) -> Seq<Option<Skin>> {
        self.slots@
    }
}

impl<S: FashionSlot> TemplateData<S> {
    #[verifier::type_invariant]
    spec fn wf(self) -> bool {
        self.slots@.len() == S::spec_count()
    }

    /// The data of `entries`: each slot gets the skin of its last entry.
    pub fn new(entries: Vec<(S, Skin)>) -> (r: Self)
        ensures
            r@ == gathered::<S>(entries@),
    {
        let n = S::count();
        let mut slots: Vec<Option<Skin>> = Vec::new();
        let mut i: usize = 0;
        while i < n
            invariant
                n == S::spec_count(),
                i <= n,
                slots@.len() == i,
                forall|j: int| 0 <= j < i ==> slots@[j] is None,
            decreases n - i,
        {
            slots.push(None);
            i = i + 1;
        }
        let ghost all = entries@;
        let total = entries.len();
        let mut rest = entries;
        let mut k: usize = 0;
        proof {
            assert(all.subrange(0, 0) =~= Seq::<(S, Skin)>::empty());
            assert(slots@ =~= gathered::<S>(Seq::<(S, Skin)>::empty()));
            assert(rest@ =~= all.subrange(0, all.len() as int));
        }
        while rest.len() > 0
            invariant
                n == S::spec_count(),
                all.len() == total,
                k <= all.len(),
                rest@ == all.subrange(k as int, all.len() as int),
                slots@ == gathered::<S>(all.subrange(0, k as int)),
            decreases rest@.len(),
        {
            let (slot, skin) = rest.remove(0);
            proof {
                S::lemma_slot_index(slot);
                lemma_gathered_len::<S>(all.subrange(0, k as int));
                assert(all.subrange(0, k + 1).drop_last() =~= all.subrange(0, k as int));
                assert(all.subrange(0, k + 1).last() == all[k as int]);
                assert(all[k as int] == (slot, skin));
                assert(rest@ =~= all.subrange(k + 1, all.len() as int));
            }
            slots.set(slot.index(), Some(skin));
            k = k + 1;
        }
        assert(all.subrange(0, k as int) =~= all);
        proof {
            lemma_gathered_len::<S>(all);
        }
        TemplateData { slots, marker: PhantomData }
    }

    /// The data of a template: the skin of each slot whose appearance is not empty.
    pub fn from_template(template: &Template<S>) -> (r: Self)
        ensures
            r@ == skins_of_template(template@),
            r@.len() == S::spec_count(),
            forall|i: int|
                0 <= i < S::spec_count() ==> #[trigger] r@[i] == (if template@[i].spec_is_empty() {
                    None
                } else {
                    Some(skin_of(template@[i]))
                }),
    {
        let entries = template.iter();
        let n = entries.len();
        let mut slots: Vec<Option<Skin>> = Vec::new();
        let mut i: usize = 0;
        while i < n
            invariant
                n == S::spec_count(),
                entries@.len() == n,
                forall|j: int|
                    0 <= j < n ==> entries@[j] == (S::spec_from_index(j as nat), template@[j]),
                i <= n,
                slots@.len() == i,
                forall|j: int|
                    0 <= j < i ==> #[trigger] slots@[j] == (if template@[j].spec_is_empty() {
                        None
                    } else {
                        Some(skin_of(template@[j]))
                    }),
            decreases n - i,
        {
            let a = entries[i].1;
            if a.is_empty() {
                slots.push(None);
            } else {
                slots.push(Some(Skin::from_appearance(&a)));
            }
            i = i + 1;
        }
        proof {
            template.lemma_len();
        }
        assert(slots@ =~= skins_of_template(template@));
        TemplateData { slots, marker: PhantomData }
    }

    /// The template that the data stands for: each slot with a skin holds the
    /// skin's appearance, the others are empty.
    pub fn to_template(&self) -> (r: Template<S>)
        ensures
            r@ == filled_from::<S>(entries_of_skins(self@)),
    {
        proof {
            use_type_invariant(self);
        }
        let n = S::count();
        let mut map = SlotMap::<S>::new();
        let mut i: usize = 0;
        proof {
            map.lemma_len();
        }
        while i < n
            invariant
                n == S::spec_count(),
                self.slots@.len() == n,
                i <= n,
                map@.len() == n,
                forall|j: int| 0 <= j < i ==> #[trigger] map@[j] == entries_of_skins(self@)[j],
                forall|j: int| i <= j < n ==> #[trigger] map@[j] is None,
            decreases n - i,
        {
            proof {
                S::lemma_index_slot(i as nat);
            }
            let slot = S::from_index(i);
            insert_slot(&mut map, &self.slots[i], slot);
            i = i + 1;
        }
        assert(map@ =~= entries_of_skins(self@));
        Template::<S>::new(map)
    }

    /// The number of slots with a skin.
    pub fn len(&self) -> (r: usize)
        ensures
            r == count_skins(self@, S::spec_count()),
    {
        proof {
            use_type_invariant(self);
            S::lemma_count();
        }
        let n = S::count();
        let mut c: usize = 0;
        let mut i: usize = 0;
        while i < n
            invariant
                n == S::spec_count(),
                n <= 16,
                self.slots@.len() == n,
                i <= n,
                c == count_skins(self@, i as nat),
                c <= i,
            decreases n - i,
        {
            if self.slots[i].is_some() {
                c = c + 1;
            }
            i = i + 1;
        }
        c
    }

    /// Whether no slot has a skin.
    pub fn is_empty(&self) -> (r: bool)
        ensures
            r == (count_skins(self@, S::spec_count()) == 0),
    {
        self.len() == 0
    }

    /// The skin of `slot`, if it has one.
    pub fn get(&self, slot: &S) -> (r: Option<&Skin>)
        ensures
            match r {
                Some(s) => self@[slot.spec_index() as int] == Some(*s),
                None => self@[slot.spec_index() as int] is None,
            },
    {
        proof {
            use_type_invariant(self);
            S::lemma_slot_index(*slot);
        }
        match &self.slots[slot.index()] {
            Some(s) => Some(s),
            None => None,
        }
    }
}

/// Whether an appearance has dyes.
#[derive(Debug, Clone, Copy, PartialEq, Eq, Structural)]
pub enum AppearanceKind {
    Dyeable,
    NonDyeable,
}

/// A slot holds an appearance of the wrong kind: `slot` should be `expected` but was
/// `found`.
#[derive(Debug, Clone, Copy, PartialEq, Eq, Structural)]
pub enum ModelError {
    IncorrectSlotVariant { slot: WardrobeSlot, expected: AppearanceKind, found: AppearanceKind },
}

impl AppearanceKind {
    /// The name of the kind as `{:?}` writes it.
    pub open spec fn spec_debug_name(self) -> Seq<char> {
        match self {
            AppearanceKind::Dyeable => "Dyeable"@,
            AppearanceKind::NonDyeable => "NonDyeable"@,
        }
    }

    /// The name of the kind as `{:?}` writes it.
    pub fn debug_name(self) -> (r: &'static str)
        ensures
            r@ == self.spec_debug_name(),
    {
        match self {
            AppearanceKind::Dyeable => "Dyeable",
            AppearanceKind::NonDyeable => "NonDyeable",
        }
    }
}

impl ModelError {
    /// What the error says: "`slot` should be `expected` but was `found`".
    pub open spec fn spec_message(&self) -> Seq<char> {
        match self {
            ModelError::IncorrectSlotVariant { slot, expected, found } => slot.spec_debug_name()
                + " should be "@ + expected.spec_debug_name() + " but was "@
                + found.spec_debug_name(),
        }
    }

    /// What the error says.
    pub fn message(&self) -> (r: String)
        ensures
            r@ == self.spec_message(),
    {
        match self {
            ModelError::IncorrectSlotVariant { slot, expected, found } => {
                let mut s = <String as StringExecFns>::from_str(slot.debug_name());
                s.append(" should be ");
                s.append(expected.debug_name());
                s.append(" but was ");
                s.append(found.debug_name());
                s
            },
        }
    }
}

/// The skin that a map gives a slot without dyes: `None` when it has no entry, the
/// skin of its appearance when that has no dyes; an appearance with dyes is an
/// `IncorrectSlotVariant` error: the slot should be non-dyeable but was dyeable.
pub open spec fn plain_skin_result(entry: Option<Appearance>, slot: WardrobeSlot) -> Result<
    Option<Skin>,
    ModelError,
> {
    match entry {
        None => Ok(None),
        Some(a) => if a.spec_is_dyeable() {
            Err(
                ModelError::IncorrectSlotVariant {
                    slot,
                    expected: AppearanceKind::NonDyeable,
                    found: AppearanceKind::Dyeable,
                },
            )
        } else {
            Ok(Some(skin_of(a)))
        },
    }
}

/// The skin that a map gives a slot with dyes: `None` when it has no entry, the
/// skin of its appearance when that has dyes; an appearance without dyes is an
/// `IncorrectSlotVariant` error: the slot should be dyeable but was non-dyeable.
pub open spec fn dyed_skin_result(entry: Option<Appearance>, slot: WardrobeSlot) -> Result<
    Option<Skin>,
    ModelError,
> {
    match entry {
        None => Ok(None),
        Some(a) => if !a.spec_is_dyeable() {
            Err(
                ModelError::IncorrectSlotVariant {
                    slot,
                    expected: AppearanceKind::Dyeable,
                    found: AppearanceKind::NonDyeable,
                },
            )
        } else {
            Ok(Some(skin_of(a)))
        },
    }
}

/// The skin of a slot without dyes (see `plain_skin_result`).
pub fn skin_from_map(map: &SlotMap<WardrobeSlot>, slot: WardrobeSlot) -> (r: Result<
    Option<Skin>,
    ModelError,
>)
    ensures
        r == plain_skin_result(map@[slot.spec_index() as int], slot),
{
    match map.get(slot) {
        None => Ok(None),
        Some(a) => match a {
            Appearance::NonDyeable { .. } => Ok(Some(Skin::from_appearance(&a))),
            Appearance::Dyeable { .. } => Err(
                ModelError::IncorrectSlotVariant {
                    slot,
                    expected: AppearanceKind::NonDyeable,
                    found: AppearanceKind::Dyeable,
                },
            ),
        },
    }
}

/// The skin of a slot with dyes (see `dyed_skin_result`).
pub fn dyable_skin_from_map(map: &SlotMap<WardrobeSlot>, slot: WardrobeSlot) -> (r: Result<
    Option<Skin>,
    ModelError,
>)
    ensures
        r == dyed_skin_result(map@[slot.spec_index() as int], slot),
{
    match map.get(slot) {
        None => Ok(None),
        Some(a) => match a {
            Appearance::NonDyeable { .. } => Err(
                ModelError::IncorrectSlotVariant {
                    slot,
                    expected: AppearanceKind::Dyeable,
                    found: AppearanceKind::NonDyeable,
                },
            ),
            Appearance::Dyeable { .. } => Ok(Some(Skin::from_appearance(&a))),
        },
    }
}

/// The skin that a map gives slot `slot`: checked against the slot's kind (see
/// `plain_skin_result` and `dyed_skin_result`).
pub open spec fn slot_skin_result(entry: Option<Appearance>, slot: WardrobeSlot) -> Result<
    Option<Skin>,
    ModelError,
> {
    if slot.spec_dyeable() {
        dyed_skin_result(entry, slot)
    } else {
        plain_skin_result(entry, slot)
    }
}

/// The first of the first `n` slots whose entry has the wrong kind, as an error.
pub open spec fn first_kind_error(m: Seq<Option<Appearance>>, n: nat) -> Option<ModelError>
    decreases n,
{
    if n == 0 {
        None
    } else {
        match first_kind_error(m, (n - 1) as nat) {
            Some(e) => Some(e),
            None => match slot_skin_result(m[n - 1], WardrobeSlot::spec_from_index((n - 1) as nat)) {
                Err(e) => Some(e),
                Ok(_) => None,
            },
        }
    }
}

/// Once a slot has the wrong kind, it stays the first one with the wrong kind.
proof fn lemma_first_kind_error_stays(m: Seq<Option<Appearance>>, a: nat, b: nat)
    requires
        a <= b,
        first_kind_error(m, a) is Some,
    ensures
        first_kind_error(m, b) == first_kind_error(m, a),
    decreases b - a,
{
    if a < b {
        lemma_first_kind_error_stays(m, a, (b - 1) as nat);
    }
}

impl TemplateData<WardrobeSlot> {
    /// The data of a map of wardrobe slots: each entry must have the kind of its
    /// slot (dyes exactly where the slot takes dyes); the first slot, in slot order,
    /// where it does not is the error.
    pub fn from_map(map: &SlotMap<WardrobeSlot>) -> (r: Result<Self, ModelError>)
        ensures
            match first_kind_error(map@, WardrobeSlot::spec_count()) {
                Some(e) => r == Err::<Self, ModelError>(e),
                None => r matches Ok(d) && forall|i: int|
                    0 <= i < WardrobeSlot::spec_count() ==> slot_skin_result(
                        map@[i],
                        WardrobeSlot::spec_from_index(i as nat),
                    ) == Ok::<Option<Skin>, ModelError>(#[trigger] d@[i]),
            },
    {
        let n = WardrobeSlot::count();
        let mut slots: Vec<Option<Skin>> = Vec::new();
        let mut i: usize = 0;
        proof {
            map.lemma_len();
        }
        while i < n
            invariant
                n == WardrobeSlot::spec_count(),
                map@.len() == n,
                i <= n,
                slots@.len() == i,
                first_kind_error(map@, i as nat) is None,
                forall|j: int|
                    0 <= j < i ==> slot_skin_result(map@[j], WardrobeSlot::spec_from_index(j as nat))
                        == Ok::<Option<Skin>, ModelError>(#[trigger] slots@[j]),
            decreases n - i,
        {
            proof {
                WardrobeSlot::lemma_index_slot(i as nat);
            }
            let slot = WardrobeSlot::from_index(i);
            let result = if slot.dyeable() {
                dyable_skin_from_map(map, slot)
            } else {
                skin_from_map(map, slot)
            };
            match result {
                Ok(skin) => slots.push(skin),
                Err(e) => {
                    proof {
                        lemma_first_kind_error_stays(map@, (i + 1) as nat, n as nat);
                    }
                    return Err(e);
                },
            }
            i = i + 1;
        }
        Ok(TemplateData { slots, marker: PhantomData })
    }
}

} // verus!
