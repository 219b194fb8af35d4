//! The skin and dye ids that a template refers to, each listed once.
use vstd::prelude::*;
use crate::skins::{Appearance, DyeId, SkinId};
use crate::slots::{FashionSlot, FashionSlotKind, TravelSlot, WardrobeSlot};
use crate::template::Template;

verus! {

/// The skin that slot `i` of `s` shows.
pub open spec fn skin_at(s: Seq<Appearance>, i: int) -> SkinId {
    s[i].spec_skin()
}

/// The kind of slot `i` of `S`, with the skin that `s` shows there.
pub open spec fn kind_skin_at<S: FashionSlot>(s: Seq<Appearance>, i: int) -> (
    FashionSlotKind,
    SkinId,
) {
    (S::spec_from_index(i as nat).spec_kind(), s[i].spec_skin())
}

/// Slot `i` of `s` has dyes, and `d` is one of them.
pub open spec fn holds_dye(s: Seq<Appearance>, i: int, d: DyeId) -> bool {
    s[i].spec_dyes() matches Some(ds) && ds.spec_ids().contains(d)
}

/// Pushing an element that is not there yet keeps a sequence free of duplicates,
/// and adds just that element.
pub proof fn lemma_push_new<T>(s: Seq<T>, x: T)
    requires
        s.no_duplicates(),
        !s.contains(x),
    ensures
        s.push(x).no_duplicates(),
        forall|p: T| s.push(x).contains(p) <==> (s.contains(p) || p == x),
{
    let t = s.push(x);
    assert(t[s.len() as int] == x);
    assert forall|p: T| t.contains(p) <==> (s.contains(p) || p == x) by {
        if s.contains(p) {
            let k = choose|k: int| 0 <= k < s.len() && s[k] == p;
            assert(t[k] == p);
        }
        if t.contains(p) {
            let k = choose|k: int| 0 <= k < t.len() && t[k] == p;
            if k < s.len() {
                assert(s[k] == p);
            }
        }
    }
    assert forall|i: int, j: int| 0 <= i < t.len() && 0 <= j < t.len() && i != j implies t[i]
        != t[j] by {
        if i < s.len() && j < s.len() {
            assert(s[i] != s[j]);
        } else if i < s.len() {
            assert(s[i] == t[i]);
        } else if j < s.len() {
            assert(s[j] == t[j]);
        }
    }
}

/// Adds `x` to `v` unless it is there already.
fn add_skin(v: &mut Vec<SkinId>, x: SkinId)
    requires
        old(v)@.no_duplicates(),
    ensures
        final(v)@.no_duplicates(),
        forall|p: SkinId| final(v)@.contains(p) <==> (old(v)@.contains(p) || p == x),
{
    let mut i: usize = 0;
    while i < v.len()
        invariant
            v@ == old(v)@,
            v@.no_duplicates(),
            i <= v@.len(),
            forall|j: int| 0 <= j < i ==> v@[j] != x,
        decreases v@.len() - i,
    {
        if v[i] == x {
            assert(v@[i as int] == x);
            return;
        }
        i = i + 1;
    }
    proof {
        lemma_push_new(v@, x);
    }
    v.push(x);
}

/// Adds `x` to `v` unless it is there already.
fn add_dye(v: &mut Vec<DyeId>, x: DyeId)
    requires
        old(v)@.no_duplicates(),
    ensures
        final(v)@.no_duplicates(),
        forall|p: DyeId| final(v)@.contains(p) <==> (old(v)@.contains(p) || p == x),
{
    let mut i: usize = 0;
    while i < v.len()
        invariant
            v@ == old(v)@,
            v@.no_duplicates(),
            i <= v@.len(),
            forall|j: int| 0 <= j < i ==> v@[j] != x,
        decreases v@.len() - i,
    {
        if v[i] == x {
            assert(v@[i as int] == x);
            return;
        }
        i = i + 1;
    }
    proof {
        lemma_push_new(v@, x);
    }
    v.push(x);
}

/// Adds `(kind, skin)` to `v` unless it is there already.
fn add_kind_skin(v: &mut Vec<(FashionSlotKind, SkinId)>, kind: FashionSlotKind, skin: SkinId)
    requires
        old(v)@.no_duplicates(),
    ensures
        final(v)@.no_duplicates(),
        forall|p: (FashionSlotKind, SkinId)|
            final(v)@.contains(p) <==> (old(v)@.contains(p) || p == (kind, skin)),
{
    let mut i: usize = 0;
    while i < v.len()
        invariant
            v@ == old(v)@,
            v@.no_duplicates(),
            i <= v@.len(),
            forall|j: int| 0 <= j < i ==> v@[j] != (kind, skin),
        decreases v@.len() - i,
    {
        if v[i].0 == kind && v[i].1 == skin {
            assert(v@[i as int] == (kind, skin));
            return;
        }
        i = i + 1;
    }
    proof {
        lemma_push_new(v@, (kind, skin));
    }
    v.push((kind, skin));
}

impl<S: FashionSlot> Template<S> {
    /// The skins of the template by the kind of their slot: each pair of a slot kind
    /// and a skin that some slot of that kind shows, listed once. Empty skins count.
    pub fn all_skin_ids(&self) -> (r: Vec<(FashionSlotKind, SkinId)>)
        ensures
            r@.no_duplicates(),
            forall|p: (FashionSlotKind, SkinId)|
                r@.contains(p) <==> exists|i: int|
                    0 <= i < S::spec_count() && p == #[trigger] kind_skin_at::<S>(self@, i),
    {
        let entries = self.iter();
        let n = entries.len();
        let mut r: Vec<(FashionSlotKind, SkinId)> = Vec::new();
        let mut i: usize = 0;
        while i < n
            invariant
                n == S::spec_count(),
                entries@.len() == n,
                forall|j: int|
                    0 <= j < n ==> entries@[j] == (S::spec_from_index(j as nat), self@[j]),
                i <= n,
                r@.no_duplicates(),
                forall|p: (FashionSlotKind, SkinId)|
                    r@.contains(p) <==> exists|j: int|
                        0 <= j < i && p == #[trigger] kind_skin_at::<S>(self@, j),
            decreases n - i,
        {
            let (slot, appearance) = entries[i];
            let ghost before = r@;
            add_kind_skin(&mut r, slot.kind(), appearance.skin());
            proof {
                let x = kind_skin_at::<S>(self@, i as int);
                assert forall|p: (FashionSlotKind, SkinId)| r@.contains(p) <==> exists|j: int|
                    0 <= j < i + 1 && p == #[trigger] kind_skin_at::<S>(self@, j) by {
                    if p == x {
                        assert(0 <= i < i + 1 && p == kind_skin_at::<S>(self@, i as int));
                    }
                    if exists|j: int| 0 <= j < i + 1 && p == #[trigger] kind_skin_at::<S>(self@, j) {
                        let j = choose|j: int| 0 <= j < i + 1 && p == #[trigger] kind_skin_at::<S>(self@, j);
                        if j < i {
                            assert(before.contains(p));
                        }
                    }
                }
            }
            i = i + 1;
        }
        r
    }

    /// The dyes of the template: each dye that some dyeable slot holds, listed once.
    pub fn all_dye_ids(&self) -> (r: Vec<DyeId>)
        ensures
            r@.no_duplicates(),
            forall|d: DyeId|
                r@.contains(d) <==> exists|i: int|
                    0 <= i < S::spec_count() && #[trigger] holds_dye(self@, i, d),
    {
        let entries = self.iter();
        let n = entries.len();
        let mut r: Vec<DyeId> = Vec::new();
        let mut i: usize = 0;
        while i < n
            invariant
                n == S::spec_count(),
                entries@.len() == n,
                forall|j: int|
                    0 <= j < n ==> entries@[j] == (S::spec_from_index(j as nat), self@[j]),
                i <= n,
                r@.no_duplicates(),
                forall|d: DyeId|
                    r@.contains(d) <==> exists|j: int| 0 <= j < i && #[trigger] holds_dye(self@, j, d),
            decreases n - i,
        {
            let (_, appearance) = entries[i];
            let ghost before = r@;
            match appearance.dyes() {
                Some(ds) => {
                    add_dye(&mut r, ds.0);
                    add_dye(&mut r, ds.1);
                    add_dye(&mut r, ds.2);
                    add_dye(&mut r, ds.3);
                    proof {
                        let ids = ds.spec_ids();
                        assert forall|d: DyeId| ids.contains(d) <==> (d == ds.0 || d == ds.1 || d
                            == ds.2 || d == ds.3) by {
                            if d == ds.0 { assert(ids[0] == d); }
                            if d == ds.1 { assert(ids[1] == d); }
                            if d == ds.2 { assert(ids[2] == d); }
                            if d == ds.3 { assert(ids[3] == d); }
                        }
                    }
                },
                None => {},
            }
            proof {
                assert forall|d: DyeId| r@.contains(d) <==> exists|j: int|
                    0 <= j < i + 1 && #[trigger] holds_dye(self@, j, d) by {
                    if holds_dye(self@, i as int, d) {
                        assert(0 <= i < i + 1 && holds_dye(self@, i as int, d));
                    }
                    if exists|j: int| 0 <= j < i + 1 && #[trigger] holds_dye(self@, j, d) {
                        let j = choose|j: int| 0 <= j < i + 1 && #[trigger] holds_dye(self@, j, d);
                        if j < i {
                            assert(before.contains(d));
                        }
                    }
                }
            }
            i = i + 1;
        }
        r
    }
}

impl Template<WardrobeSlot> {
    /// The equipment skins of a wardrobe template: each skin that a slot other than
    /// the outfit shows, listed once. Empty skins are left out.
    pub fn all_equipment_skin_ids(&self) -> (r: Vec<SkinId>)
        ensures
            r@.no_duplicates(),
            forall|k: SkinId|
                r@.contains(k) <==> exists|i: int|
                    0 <= i < WardrobeSlot::spec_count() && WardrobeSlot::spec_from_index(i as nat)
                        != WardrobeSlot::Outfit && !k.spec_is_empty() && k == #[trigger] skin_at(
                        self@,
                        i,
                    ),
    {
        let entries = self.iter();
        let n = entries.len();
        let mut r: Vec<SkinId> = Vec::new();
        let mut i: usize = 0;
        while i < n
            invariant
                n == WardrobeSlot::spec_count(),
                entries@.len() == n,
                forall|j: int|
                    0 <= j < n ==> entries@[j] == (WardrobeSlot::spec_from_index(j as nat), self@[j]),
                i <= n,
                r@.no_duplicates(),
                forall|k: SkinId|
                    r@.contains(k) <==> exists|j: int|
                        0 <= j < i && WardrobeSlot::spec_from_index(j as nat) != WardrobeSlot::Outfit
                            && !k.spec_is_empty() && k == #[trigger] skin_at(self@, j),
            decreases n - i,
        {
            let (slot, appearance) = entries[i];
            let skin = appearance.skin();
            let ghost before = r@;
            let keep = match slot {
                WardrobeSlot::Outfit => false,
                _ => !skin.is_empty(),
            };
            if keep {
                add_skin(&mut r, skin);
            }
            proof {
                assert forall|k: SkinId| r@.contains(k) <==> exists|j: int|
                    0 <= j < i + 1 && WardrobeSlot::spec_from_index(j as nat) != WardrobeSlot::Outfit
                        && !k.spec_is_empty() && k == #[trigger] skin_at(self@, j) by {
                    if keep && k == skin {
                        assert(skin == skin_at(self@, i as int));
                    }
                    if exists|j: int|
                        0 <= j < i + 1 && WardrobeSlot::spec_from_index(j as nat)
                            != WardrobeSlot::Outfit && !k.spec_is_empty() && k == #[trigger] skin_at(
                            self@,
                            j,
                        ) {
                        let j = choose|j: int|
                            0 <= j < i + 1 && WardrobeSlot::spec_from_index(j as nat)
                                != WardrobeSlot::Outfit && !k.spec_is_empty() && k
                                == #[trigger] skin_at(self@, j);
                        if j < i {
                            assert(before.contains(k));
                        }
                    }
                }
            }
            i = i + 1;
        }
        r
    }
}

impl Template<TravelSlot> {
    /// Each non-empty skin that a slot other than a mount (glider, doorway, skiff)
    /// shows, listed once.
    pub fn all_mount_ids(&self) -> (r: Vec<SkinId>)
        ensures
            r@.no_duplicates(),
            forall|k: SkinId|
                r@.contains(k) <==> exists|i: int|
                    0 <= i < TravelSlot::spec_count() && !TravelSlot::spec_from_index(
                        i as nat,
                    ).spec_is_mount() && !k.spec_is_empty() && k == #[trigger] skin_at(self@, i),
    {
        let entries = self.iter();
        let n = entries.len();
        let mut r: Vec<SkinId> = Vec::new();
        let mut i: usize = 0;
        while i < n
            invariant
                n == TravelSlot::spec_count(),
                entries@.len() == n,
                forall|j: int|
                    0 <= j < n ==> entries@[j] == (TravelSlot::spec_from_index(j as nat), self@[j]),
                i <= n,
                r@.no_duplicates(),
                forall|k: SkinId|
                    r@.contains(k) <==> exists|j: int|
                        0 <= j < i && !TravelSlot::spec_from_index(j as nat).spec_is_mount()
                            && !k.spec_is_empty() && k == #[trigger] skin_at(self@, j),
            decreases n - i,
        {
            let (slot, appearance) = entries[i];
            let skin = appearance.skin();
            let ghost before = r@;
            let keep = !slot.is_mount() && !skin.is_empty();
            if keep {
                add_skin(&mut r, skin);
            }
            proof {
                assert forall|k: SkinId| r@.contains(k) <==> exists|j: int|
                    0 <= j < i + 1 && !TravelSlot::spec_from_index(j as nat).spec_is_mount()
                        && !k.spec_is_empty() && k == #[trigger] skin_at(self@, j) by {
                    if keep && k == skin {
                        assert(skin == skin_at(self@, i as int));
                    }
                    if exists|j: int|
                        0 <= j < i + 1 && !TravelSlot::spec_from_index(j as nat).spec_is_mount()
                            && !k.spec_is_empty() && k == #[trigger] skin_at(self@, j) {
                        let j = choose|j: int|
                            0 <= j < i + 1 && !TravelSlot::spec_from_index(j as nat).spec_is_mount()
                                && !k.spec_is_empty() && k == #[trigger] skin_at(self@, j);
                        if j < i {
                            assert(before.contains(k));
                        }
                    }
                }
            }
            i = i + 1;
        }
        r
    }
}

} // verus!
