//! A character's equipment, as the API reports it, and the wardrobe template it
//! amounts to.
use vstd::prelude::*;
use crate::skins::{Appearance, DyeId, Dyes, SkinId};
use crate::slot_type::SlotType;
use crate::slots::{FashionSlot, WardrobeSlot};
use crate::template::{filled_from, SlotMap, Template};

verus! {

/// The slot an equipped item sits in, as the API names it. `Other` stands for the
/// slots that have no wardrobe appearance (accessories, rings, tools, ...).
#[derive(Debug, Clone, Copy, PartialEq, Eq, Structural)]
pub enum EquipmentSlot {
    HelmAquatic,
    Backpack,
    Coat,
    Boots,
    Gloves,
    Helm,
    Leggings,
    Shoulders,
    WeaponAquaticA,
    WeaponAquaticB,
    WeaponA1,
    WeaponA2,
    WeaponB1,
    WeaponB2,
    Other,
}

/// An equipped item: its item id, its slot, the skin applied to it and its dye
/// channels, where the API reports them.
#[derive(Debug)]
pub struct Equip {
    pub id: u32,
    pub slot: Option<EquipmentSlot>,
    pub skin: Option<u32>,
    pub dyes: Option<Vec<Option<u16>>>,
}

/// The wardrobe slot of an equipment slot, if it has one.
pub open spec fn wardrobe_slot_of(slot: EquipmentSlot) -> Option<WardrobeSlot> {
    match slot {
        EquipmentSlot::HelmAquatic => Some(WardrobeSlot::Aquabreather),
        EquipmentSlot::Backpack => Some(WardrobeSlot::Backpack),
        EquipmentSlot::Coat => Some(WardrobeSlot::Chest),
        EquipmentSlot::Boots => Some(WardrobeSlot::Shoes),
        EquipmentSlot::Gloves => Some(WardrobeSlot::Gloves),
        EquipmentSlot::Helm => Some(WardrobeSlot::Head),
        EquipmentSlot::Leggings => Some(WardrobeSlot::Legs),
        EquipmentSlot::Shoulders => Some(WardrobeSlot::Shoulders),
        EquipmentSlot::WeaponAquaticA => Some(WardrobeSlot::WeaponAquaticA),
        EquipmentSlot::WeaponAquaticB => Some(WardrobeSlot::WeaponAquaticB),
        EquipmentSlot::WeaponA1 => Some(WardrobeSlot::WeaponA1),
        EquipmentSlot::WeaponA2 => Some(WardrobeSlot::WeaponA2),
        EquipmentSlot::WeaponB1 => Some(WardrobeSlot::WeaponB1),
        EquipmentSlot::WeaponB2 => Some(WardrobeSlot::WeaponB2),
        EquipmentSlot::Other => None,
    }
}

/// The wardrobe slot of an equipment slot, if it has one.
pub fn to_wardrobe_slot(slot: &EquipmentSlot) -> (r: Option<WardrobeSlot>)
    ensures
        r == wardrobe_slot_of(*slot),
{
    match slot {
        EquipmentSlot::HelmAquatic => Some(WardrobeSlot::Aquabreather),
        EquipmentSlot::Backpack => Some(WardrobeSlot::Backpack),
        EquipmentSlot::Coat => Some(WardrobeSlot::Chest),
        EquipmentSlot::Boots => Some(WardrobeSlot::Shoes),
        EquipmentSlot::Gloves => Some(WardrobeSlot::Gloves),
        EquipmentSlot::Helm => Some(WardrobeSlot::Head),
        EquipmentSlot::Leggings => Some(WardrobeSlot::Legs),
        EquipmentSlot::Shoulders => Some(WardrobeSlot::Shoulders),
        EquipmentSlot::WeaponAquaticA => Some(WardrobeSlot::WeaponAquaticA),
        EquipmentSlot::WeaponAquaticB => Some(WardrobeSlot::WeaponAquaticB),
        EquipmentSlot::WeaponA1 => Some(WardrobeSlot::WeaponA1),
        EquipmentSlot::WeaponA2 => Some(WardrobeSlot::WeaponA2),
        EquipmentSlot::WeaponB1 => Some(WardrobeSlot::WeaponB1),
        EquipmentSlot::WeaponB2 => Some(WardrobeSlot::WeaponB2),
        EquipmentSlot::Other => None,
    }
}

/// The slot type of an equipment slot, if it has a wardrobe appearance.
pub open spec fn slot_type_of(slot: EquipmentSlot) -> Option<SlotType> {
    match slot {
        EquipmentSlot::HelmAquatic => Some(SlotType::Aquabreather),
        EquipmentSlot::Backpack => Some(SlotType::Backpack),
        EquipmentSlot::Coat => Some(SlotType::Chest),
        EquipmentSlot::Boots => Some(SlotType::Shoes),
        EquipmentSlot::Gloves => Some(SlotType::Gloves),
        EquipmentSlot::Helm => Some(SlotType::Head),
        EquipmentSlot::Leggings => Some(SlotType::Legs),
        EquipmentSlot::Shoulders => Some(SlotType::Shoulders),
        EquipmentSlot::WeaponAquaticA => Some(SlotType::WeaponAquaticA),
        EquipmentSlot::WeaponAquaticB => Some(SlotType::WeaponAquaticB),
        EquipmentSlot::WeaponA1 => Some(SlotType::WeaponA1),
        EquipmentSlot::WeaponA2 => Some(SlotType::WeaponA2),
        EquipmentSlot::WeaponB1 => Some(SlotType::WeaponB1),
        EquipmentSlot::WeaponB2 => Some(SlotType::WeaponB2),
        EquipmentSlot::Other => None,
    }
}

/// The slot type of an equipment slot, if it has a wardrobe appearance.
pub fn to_slot_type(slot: &EquipmentSlot) -> (r: Option<SlotType>)
    ensures
        r == slot_type_of(*slot),
{
    match slot {
        EquipmentSlot::HelmAquatic => Some(SlotType::Aquabreather),
        EquipmentSlot::Backpack => Some(SlotType::Backpack),
        EquipmentSlot::Coat => Some(SlotType::Chest),
        EquipmentSlot::Boots => Some(SlotType::Shoes),
        EquipmentSlot::Gloves => Some(SlotType::Gloves),
        EquipmentSlot::Helm => Some(SlotType::Head),
        EquipmentSlot::Leggings => Some(SlotType::Legs),
        EquipmentSlot::Shoulders => Some(SlotType::Shoulders),
        EquipmentSlot::WeaponAquaticA => Some(SlotType::WeaponAquaticA),
        EquipmentSlot::WeaponAquaticB => Some(SlotType::WeaponAquaticB),
        EquipmentSlot::WeaponA1 => Some(SlotType::WeaponA1),
        EquipmentSlot::WeaponA2 => Some(SlotType::WeaponA2),
        EquipmentSlot::WeaponB1 => Some(SlotType::WeaponB1),
        EquipmentSlot::WeaponB2 => Some(SlotType::WeaponB2),
        EquipmentSlot::Other => None,
    }
}

impl Equip {
    /// Whether the item's default skin must be looked up: it carries no skin.
    pub fn needs_default_skin(&self) -> (r: bool)
        ensures
            r == self.skin is None,
    {
        self.skin.is_none()
    }

    /// The item with `default_skin`, the default skin the API gives the item, where
    /// it carries no skin of its own; unchanged otherwise.
    pub fn with_default_skin(self, default_skin: Option<u32>) -> (r: Equip)
        ensures
            r == (if self.skin is None {
                Equip { skin: default_skin, ..self }
            } else {
                self
            }),
    {
        if self.skin.is_none() {
            Equip { skin: default_skin, ..self }
        } else {
            self
        }
    }
}

/// Channel `i` of reported dyes: the reported dye, or "no dye" where there is none.
pub open spec fn dye_at(dyes: Seq<Option<u16>>, i: int) -> DyeId {
    if 0 <= i < dyes.len() && dyes[i] is Some {
        DyeId(dyes[i]->0)
    } else {
        DyeId(1)
    }
}

/// The first four reported dyes as the four channels; missing ones are "no dye".
pub open spec fn dyes_of(dyes: Seq<Option<u16>>) -> Dyes {
    Dyes(dye_at(dyes, 0), dye_at(dyes, 1), dye_at(dyes, 2), dye_at(dyes, 3))
}

/// The four channels from the first four reported dyes; a missing or unset one is
/// "no dye".
pub fn dyes_from_iter(dyes: &Vec<Option<u16>>) -> (r: Dyes)
    ensures
        r == dyes_of(dyes@),
{
    let d0 = channel(dyes, 0);
    let d1 = channel(dyes, 1);
    let d2 = channel(dyes, 2);
    let d3 = channel(dyes, 3);
    Dyes::new(d0, d1, d2, d3)
}

fn channel(dyes: &Vec<Option<u16>>, i: usize) -> (r: DyeId)
    ensures
        r == dye_at(dyes@, i as int),
{
    if i < dyes.len() {
        match dyes[i] {
            Some(id) => DyeId(id),
            None => DyeId::default(),
        }
    } else {
        DyeId::default()
    }
}

/// The skin id of a reported skin: the low sixteen bits of the API's id.
pub open spec fn skin_id_of(id: u32) -> SkinId {
    SkinId(id as u16)
}

/// The appearance an equipped item gives its wardrobe slot: its skin (none when it
/// has none), visible, and in a dyeable slot its reported dyes (none reported is
/// "no dye" in each channel).
pub open spec fn equip_appearance(slot: WardrobeSlot, skin: Option<u32>, dyes: Option<
    Seq<Option<u16>>,
>) -> Appearance {
    let s = match skin {
        Some(id) => skin_id_of(id),
        None => SkinId(0),
    };
    if slot.spec_dyeable() {
        Appearance::Dyeable {
            skin: s,
            visible: true,
            dyes: match dyes {
                Some(d) => dyes_of(d),
                None => Dyes(DyeId(1), DyeId(1), DyeId(1), DyeId(1)),
            },
        }
    } else {
        Appearance::NonDyeable { skin: s, visible: true }
    }
}

/// The reported dyes of an item.
pub open spec fn equip_dyes(e: Equip) -> Option<Seq<Option<u16>>> {
    match e.dyes {
        Some(d) => Some(d@),
        None => None,
    }
}

/// The appearance an equipped item gives `slot` (see `equip_appearance`).
pub fn appearance_from(slot: &WardrobeSlot, equip: &Equip) -> (r: Appearance)
    ensures
        r == equip_appearance(*slot, equip.skin, equip_dyes(*equip)),
{
    let skin = match equip.skin {
        Some(id) => SkinId(id as u16),
        None => SkinId(0),
    };
    if slot.dyeable() {
        let dyes = match &equip.dyes {
            Some(d) => dyes_from_iter(d),
            None => Dyes::default(),
        };
        Appearance::Dyeable { skin, visible: true, dyes }
    } else {
        Appearance::NonDyeable { skin, visible: true }
    }
}

/// The entries that equipped items give the wardrobe slots: each item in a slot with
/// a wardrobe appearance sets it, a later item winning over an earlier one.
pub open spec fn equipment_entries(equips: Seq<Equip>) -> Seq<Option<Appearance>>
    decreases equips.len(),
{
    if equips.len() == 0 {
        Seq::new(WardrobeSlot::spec_count(), |i: int| None)
    } else {
        let rest = equipment_entries(equips.drop_last());
        let e = equips.last();
        match e.slot {
            Some(s) => match wardrobe_slot_of(s) {
                Some(w) => rest.update(
                    w.spec_index() as int,
                    Some(equip_appearance(w, e.skin, equip_dyes(e))),
                ),
                None => rest,
            },
            None => rest,
        }
    }
}

proof fn lemma_equipment_entries_len(equips: Seq<Equip>)
    ensures
        equipment_entries(equips).len() == WardrobeSlot::spec_count(),
    decreases equips.len(),
{
    if equips.len() > 0 {
        lemma_equipment_entries_len(equips.drop_last());
    }
}

/// Adds `x` to `v` unless it is there already.
fn add_id(v: &mut Vec<u32>, x: u32)
    requires
        old(v)@.no_duplicates(),
    ensures
        final(v)@.no_duplicates(),
        forall|p: u32| final(v)@.contains(p) <==> (old(v)@.contains(p) || p == x),
{
    let mut i: usize = 0;
    while i < v.len()
        invariant
            v@ == old(v)@,
            v@.no_duplicates(),
            i <= v@.len(),
            forall|j: int| 0 <= j < i ==> v@[j] != x,
        decreases v@.len() - i,
    {
        if v[i] == x {
            assert(v@[i as int] == x);
            return;
        }
        i = i + 1;
    }
    proof {
        crate::ids::lemma_push_new(v@, x);
    }
    v.push(x);
}

/// The equipment of one tab of a character.
#[derive(Debug)]
pub struct Equipment {
    pub char_name: String,
    pub tab_id: usize,
    pub tab_name: String,
    pub slots: Vec<Equip>,
}

impl Equipment {
    /// The equipment of the tab `tab_id`, named `tab_name`, of the character
    /// `char_name`.
    pub fn new(char_name: &str, tab_id: usize, tab_name: String, slots: Vec<Equip>) -> (r: Equipment)
        ensures
            r.char_name@ == char_name@,
            r.tab_id == tab_id,
            r.tab_name == tab_name,
            r.slots == slots,
    {
        Equipment { char_name: <String as StringExecFns>::from_str(char_name), tab_id, tab_name, slots }
    }

    /// The same character and tab with other items.
    pub fn with_slots(&self, slots: Vec<Equip>) -> (r: Equipment)
        ensures
            r.char_name@ == self.char_name@,
            r.tab_id == self.tab_id,
            r.tab_name@ == self.tab_name@,
            r.slots == slots,
    {
        Equipment {
            char_name: self.char_name.clone(),
            tab_id: self.tab_id,
            tab_name: self.tab_name.clone(),
            slots,
        }
    }

    /// The item ids of the items that carry no skin, each listed once.
    pub fn all_item_ids(&self) -> (r: Vec<u32>)
        ensures
            r@.no_duplicates(),
            forall|id: u32|
                r@.contains(id) <==> exists|i: int|
                    0 <= i < self.slots@.len() && self.slots@[i].skin is None && #[trigger] self.slots@[i].id
                        == id,
    {
        let mut r: Vec<u32> = Vec::new();
        let mut i: usize = 0;
        while i < self.slots.len()
            invariant
                i <= self.slots@.len(),
                r@.no_duplicates(),
                forall|id: u32|
                    r@.contains(id) <==> exists|j: int|
                        0 <= j < i && self.slots@[j].skin is None && #[trigger] self.slots@[j].id
                            == id,
            decreases self.slots@.len() - i,
        {
            let e = &self.slots[i];
            let ghost before = r@;
            if e.skin.is_none() {
                add_id(&mut r, e.id);
            }
            proof {
                assert forall|id: u32| r@.contains(id) <==> exists|j: int|
                    0 <= j < i + 1 && self.slots@[j].skin is None && #[trigger] self.slots@[j].id
                        == id by {
                    if e.skin is None && id == e.id {
                        assert(self.slots@[i as int].id == id);
                    }
                    if exists|j: int|
                        0 <= j < i + 1 && self.slots@[j].skin is None && #[trigger] self.slots@[j].id
                            == id {
                        let j = choose|j: int|
                            0 <= j < i + 1 && self.slots@[j].skin is None
                                && #[trigger] self.slots@[j].id == id;
                        if j < i {
                            assert(before.contains(id));
                        }
                    }
                }
            }
            i = i + 1;
        }
        r
    }

    /// The wardrobe template that the equipment shows: each item in a slot with a
    /// wardrobe appearance gives that slot its appearance (a later item winning),
    /// and the other slots are empty.
    pub fn to_template(&self) -> (r: Template<WardrobeSlot>)
        ensures
            r@ == filled_from::<WardrobeSlot>(equipment_entries(self.slots@)),
    {
        let mut map = SlotMap::<WardrobeSlot>::new();
        let mut i: usize = 0;
        proof {
            assert(self.slots@.subrange(0, 0) =~= Seq::<Equip>::empty());
            assert(map@ =~= equipment_entries(Seq::<Equip>::empty()));
        }
        while i < self.slots.len()
            invariant
                i <= self.slots@.len(),
                map@ == equipment_entries(self.slots@.subrange(0, i as int)),
            decreases self.slots@.len() - i,
        {
            let e = &self.slots[i];
            let ghost pre = self.slots@.subrange(0, i as int);
            let ghost next = self.slots@.subrange(0, i + 1);
            assert(next.drop_last() =~= pre);
            assert(next.last() == *e);
            if let Some(s) = &e.slot {
                if let Some(w) = to_wardrobe_slot(s) {
                    let a = appearance_from(&w, e);
                    map.insert(w, a);
                }
            }
            i = i + 1;
        }
        assert(self.slots@.subrange(0, self.slots@.len() as int) =~= self.slots@);
        Template::<WardrobeSlot>::new(map)
    }
}

/// Each piece of equipment goes to the wardrobe slot of the same piece: the aquatic
/// helm to the aquabreather, the coat to the chest, the boots to the shoes, the
/// gloves to the gloves, the helm to the head, the leggings to the legs, the
/// shoulders to the shoulders, the backpack and each weapon to its own slot; other
/// equipment has none. The slot type agrees, place for place.
pub proof fn law_equipment_pieces(e: EquipmentSlot)
    ensures
        wardrobe_slot_of(EquipmentSlot::HelmAquatic) == Some(WardrobeSlot::Aquabreather),
        wardrobe_slot_of(EquipmentSlot::Backpack) == Some(WardrobeSlot::Backpack),
        wardrobe_slot_of(EquipmentSlot::Coat) == Some(WardrobeSlot::Chest),
        wardrobe_slot_of(EquipmentSlot::Boots) == Some(WardrobeSlot::Shoes),
        wardrobe_slot_of(EquipmentSlot::Gloves) == Some(WardrobeSlot::Gloves),
        wardrobe_slot_of(EquipmentSlot::Helm) == Some(WardrobeSlot::Head),
        wardrobe_slot_of(EquipmentSlot::Leggings) == Some(WardrobeSlot::Legs),
        wardrobe_slot_of(EquipmentSlot::Shoulders) == Some(WardrobeSlot::Shoulders),
        wardrobe_slot_of(EquipmentSlot::WeaponAquaticA) == Some(WardrobeSlot::WeaponAquaticA),
        wardrobe_slot_of(EquipmentSlot::WeaponAquaticB) == Some(WardrobeSlot::WeaponAquaticB),
        wardrobe_slot_of(EquipmentSlot::WeaponA1) == Some(WardrobeSlot::WeaponA1),
        wardrobe_slot_of(EquipmentSlot::WeaponA2) == Some(WardrobeSlot::WeaponA2),
        wardrobe_slot_of(EquipmentSlot::WeaponB1) == Some(WardrobeSlot::WeaponB1),
        wardrobe_slot_of(EquipmentSlot::WeaponB2) == Some(WardrobeSlot::WeaponB2),
        wardrobe_slot_of(EquipmentSlot::Other) is None,
        slot_type_of(EquipmentSlot::Gloves) == Some(SlotType::Gloves),
        slot_type_of(EquipmentSlot::Shoulders) == Some(SlotType::Shoulders),
        slot_type_of(EquipmentSlot::Helm) == Some(SlotType::Head),
        wardrobe_slot_of(e) is Some <==> slot_type_of(e) is Some,
        wardrobe_slot_of(e) matches Some(w) ==> w.spec_index() == slot_type_of(e)->Some_0.spec_index(),
{
}

} // verus!
