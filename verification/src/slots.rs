//! The slots of wardrobe and travel templates.
use vstd::prelude::*;
use crate::text::same_text;

verus! {

/// Which kind of fashion item a slot holds.
#[derive(Debug, Clone, Copy, PartialEq, Eq, Hash, Structural)]
pub enum FashionSlotKind {
    Equipment,
    Outfit,
    Mount,
    Glider,
    Skiff,
    Doorway,
}

/// A slot of a template. The slots of one type are numbered `0 .. count` in their
/// declaration order; that number is their place in a payload and their bit in the
/// visibility mask.
pub trait FashionSlot: Sized + Copy {
    spec fn spec_index(self) -> nat;

    spec fn spec_count() -> nat;

    spec fn spec_from_index(i: nat) -> Self;

    spec fn spec_dyeable(self) -> bool;

    spec fn spec_always_visible(self) -> bool;

    spec fn spec_kind(self) -> FashionSlotKind;

    proof fn lemma_slot_index(s: Self)
        ensures
            s.spec_index() < Self::spec_count(),
            Self::spec_from_index(s.spec_index()) == s,
    ;

    proof fn lemma_index_slot(i: nat)
        requires
            i < Self::spec_count(),
        ensures
            Self::spec_from_index(i).spec_index() == i,
    ;

    proof fn lemma_count()
        ensures
            0 < Self::spec_count() <= 16,
    ;

    /// The number of slots.
    fn count() -> (n: usize)
        ensures
            n == Self::spec_count(),
    ;

    /// The number of this slot.
    fn index(self) -> (i: usize)
        ensures
            i == self.spec_index(),
    ;

    /// The slot with number `i`.
    fn from_index(i: usize) -> (s: Self)
        requires
            i < Self::spec_count(),
        ensures
            s == Self::spec_from_index(i as nat),
    ;

    /// Whether the slot holds dyes.
    fn dyeable(self) -> (b: bool)
        ensures
            b == self.spec_dyeable(),
    ;

    /// Whether the slot counts as visible whatever its appearance says.
    fn always_visible(self) -> (b: bool)
        ensures
            b == self.spec_always_visible(),
    ;

    /// The kind of fashion item the slot holds.
    fn kind(self) -> (k: FashionSlotKind)
        ensures
            k == self.spec_kind(),
    ;
}

/// All slots of a type, in order.
pub fn variants<S: FashionSlot>() -> (r: Vec<S>)
    ensures
        r@.len() == S::spec_count(),
        forall|i: int| 0 <= i < r@.len() ==> r@[i] == S::spec_from_index(i as nat),
{
    let n = S::count();
    let mut r: Vec<S> = Vec::new();
    for i in 0..n
        invariant
            n == S::spec_count(),
            r@.len() == i,
            forall|j: int| 0 <= j < i ==> r@[j] == S::spec_from_index(j as nat),
    {
        r.push(S::from_index(i));
    }
    r
}

/// The slots of a wardrobe (equipment) template.
#[derive(Debug, Clone, Copy, PartialEq, Eq, Hash, Structural)]
pub enum WardrobeSlot {
    Aquabreather,
    Backpack,
    Chest,
    Shoes,
    Gloves,
    Head,
    Legs,
    Shoulders,
    Outfit,
    WeaponAquaticA,
    WeaponAquaticB,
    WeaponA1,
    WeaponA2,
    WeaponB1,
    WeaponB2,
}

impl WardrobeSlot {
    pub open spec fn number(self) -> nat {
        match self {
            WardrobeSlot::Aquabreather => 0,
            WardrobeSlot::Backpack => 1,
            WardrobeSlot::Chest => 2,
            WardrobeSlot::Shoes => 3,
            WardrobeSlot::Gloves => 4,
            WardrobeSlot::Head => 5,
            WardrobeSlot::Legs => 6,
            WardrobeSlot::Shoulders => 7,
            WardrobeSlot::Outfit => 8,
            WardrobeSlot::WeaponAquaticA => 9,
            WardrobeSlot::WeaponAquaticB => 10,
            WardrobeSlot::WeaponA1 => 11,
            WardrobeSlot::WeaponA2 => 12,
            WardrobeSlot::WeaponB1 => 13,
            WardrobeSlot::WeaponB2 => 14,
        }
    }

    pub open spec fn of_number(i: nat) -> WardrobeSlot {
        if i == 0 {
            WardrobeSlot::Aquabreather
        } else if i == 1 {
            WardrobeSlot::Backpack
        } else if i == 2 {
            WardrobeSlot::Chest
        } else if i == 3 {
            WardrobeSlot::Shoes
        } else if i == 4 {
            WardrobeSlot::Gloves
        } else if i == 5 {
            WardrobeSlot::Head
        } else if i == 6 {
            WardrobeSlot::Legs
        } else if i == 7 {
            WardrobeSlot::Shoulders
        } else if i == 8 {
            WardrobeSlot::Outfit
        } else if i == 9 {
            WardrobeSlot::WeaponAquaticA
        } else if i == 10 {
            WardrobeSlot::WeaponAquaticB
        } else if i == 11 {
            WardrobeSlot::WeaponA1
        } else if i == 12 {
            WardrobeSlot::WeaponA2
        } else if i == 13 {
            WardrobeSlot::WeaponB1
        } else {
            WardrobeSlot::WeaponB2
        }
    }
}

impl FashionSlot for WardrobeSlot {
    open spec fn spec_index(self) -> nat {
        self.number()
    }

    open spec fn spec_count() -> nat {
        15
    }

    open spec fn spec_from_index(i: nat) -> Self {
        WardrobeSlot::of_number(i)
    }

    /// Armor pieces, the backpack and the outfit hold dyes; weapons and the aquabreather do not.
    open spec fn spec_dyeable(self) -> bool {
        match self {
            WardrobeSlot::Backpack | WardrobeSlot::Chest | WardrobeSlot::Shoes
            | WardrobeSlot::Gloves | WardrobeSlot::Head | WardrobeSlot::Legs
            | WardrobeSlot::Shoulders | WardrobeSlot::Outfit => true,
            _ => false,
        }
    }

    /// Chest, shoes and legs cannot be hidden.
    open spec fn spec_always_visible(self) -> bool {
        match self {
            WardrobeSlot::Chest | WardrobeSlot::Shoes | WardrobeSlot::Legs => true,
            _ => false,
        }
    }

    open spec fn spec_kind(self) -> FashionSlotKind {
        match self {
            WardrobeSlot::Outfit => FashionSlotKind::Outfit,
            _ => FashionSlotKind::Equipment,
        }
    }

    proof fn lemma_slot_index(s: Self) {
    }

    proof fn lemma_index_slot(i: nat) {
    }

    proof fn lemma_count() {
    }

    fn count() -> (n: usize) {
        15
    }

    fn index(self) -> (i: usize) {
        match self {
            WardrobeSlot::Aquabreather => 0,
            WardrobeSlot::Backpack => 1,
            WardrobeSlot::Chest => 2,
            WardrobeSlot::Shoes => 3,
            WardrobeSlot::Gloves => 4,
            WardrobeSlot::Head => 5,
            WardrobeSlot::Legs => 6,
            WardrobeSlot::Shoulders => 7,
            WardrobeSlot::Outfit => 8,
            WardrobeSlot::WeaponAquaticA => 9,
            WardrobeSlot::WeaponAquaticB => 10,
            WardrobeSlot::WeaponA1 => 11,
            WardrobeSlot::WeaponA2 => 12,
            WardrobeSlot::WeaponB1 => 13,
            WardrobeSlot::WeaponB2 => 14,
        }
    }

    fn from_index(i: usize) -> (s: Self) {
        if i == 0 {
            WardrobeSlot::Aquabreather
        } else if i == 1 {
            WardrobeSlot::Backpack
        } else if i == 2 {
            WardrobeSlot::Chest
        } else if i == 3 {
            WardrobeSlot::Shoes
        } else if i == 4 {
            WardrobeSlot::Gloves
        } else if i == 5 {
            WardrobeSlot::Head
        } else if i == 6 {
            WardrobeSlot::Legs
        } else if i == 7 {
            WardrobeSlot::Shoulders
        } else if i == 8 {
            WardrobeSlot::Outfit
        } else if i == 9 {
            WardrobeSlot::WeaponAquaticA
        } else if i == 10 {
            WardrobeSlot::WeaponAquaticB
        } else if i == 11 {
            WardrobeSlot::WeaponA1
        } else if i == 12 {
            WardrobeSlot::WeaponA2
        } else if i == 13 {
            WardrobeSlot::WeaponB1
        } else {
            WardrobeSlot::WeaponB2
        }
    }

    fn dyeable(self) -> (b: bool) {
        match self {
            WardrobeSlot::Backpack | WardrobeSlot::Chest | WardrobeSlot::Shoes
            | WardrobeSlot::Gloves | WardrobeSlot::Head | WardrobeSlot::Legs
            | WardrobeSlot::Shoulders | WardrobeSlot::Outfit => true,
            _ => false,
        }
    }

    fn always_visible(self) -> (b: bool) {
        match self {
            WardrobeSlot::Chest | WardrobeSlot::Shoes | WardrobeSlot::Legs => true,
            _ => false,
        }
    }

    fn kind(self) -> (k: FashionSlotKind) {
        match self {
            WardrobeSlot::Outfit => FashionSlotKind::Outfit,
            _ => FashionSlotKind::Equipment,
        }
    }
}

/// Groups of wardrobe slots that are often handled together.
#[derive(Debug, Clone, Copy, PartialEq, Eq, Structural)]
pub enum EquipmentCategory {
    Underwater,
    Armors,
    Weapons,
}

impl EquipmentCategory {
    pub open spec fn spec_slots(self) -> Seq<WardrobeSlot> {
        match self {
            EquipmentCategory::Underwater => seq![
                WardrobeSlot::Aquabreather,
                WardrobeSlot::WeaponAquaticA,
                WardrobeSlot::WeaponAquaticB,
            ],
            EquipmentCategory::Armors => seq![
                WardrobeSlot::Aquabreather,
                WardrobeSlot::Chest,
                WardrobeSlot::Shoes,
                WardrobeSlot::Gloves,
                WardrobeSlot::Head,
                WardrobeSlot::Legs,
                WardrobeSlot::Shoulders,
            ],
            EquipmentCategory::Weapons => seq![
                WardrobeSlot::WeaponAquaticA,
                WardrobeSlot::WeaponAquaticB,
                WardrobeSlot::WeaponA1,
                WardrobeSlot::WeaponA2,
                WardrobeSlot::WeaponB1,
                WardrobeSlot::WeaponB2,
            ],
        }
    }

    /// The slots of the category.
    pub fn slots(&self) -> (r: Vec<WardrobeSlot>)
        ensures
            r@ == self.spec_slots(),
    {
        let r = match self {
            EquipmentCategory::Underwater => vec![
                WardrobeSlot::Aquabreather,
                WardrobeSlot::WeaponAquaticA,
                WardrobeSlot::WeaponAquaticB,
            ],
            EquipmentCategory::Armors => vec![
                WardrobeSlot::Aquabreather,
                WardrobeSlot::Chest,
                WardrobeSlot::Shoes,
                WardrobeSlot::Gloves,
                WardrobeSlot::Head,
                WardrobeSlot::Legs,
                WardrobeSlot::Shoulders,
            ],
            EquipmentCategory::Weapons => vec![
                WardrobeSlot::WeaponAquaticA,
                WardrobeSlot::WeaponAquaticB,
                WardrobeSlot::WeaponA1,
                WardrobeSlot::WeaponA2,
                WardrobeSlot::WeaponB1,
                WardrobeSlot::WeaponB2,
            ],
        };
        assert(r@ =~= self.spec_slots());
        r
    }
}

/// The slots of a travel template: glider, doorway, mounts and skiff.
#[derive(Debug, Clone, Copy, PartialEq, Eq, Hash, Structural)]
pub enum TravelSlot {
    Glider,
    Doorway,
    Jackal,
    Griffon,
    Springer,
    Skimmer,
    Raptor,
    Beetle,
    Warclaw,
    Skyscale,
    Skiff,
    Turtle,
}

impl TravelSlot {
    pub open spec fn number(self) -> nat {
        match self {
            TravelSlot::Glider => 0,
            TravelSlot::Doorway => 1,
            TravelSlot::Jackal => 2,
            TravelSlot::Griffon => 3,
            TravelSlot::Springer => 4,
            TravelSlot::Skimmer => 5,
            TravelSlot::Raptor => 6,
            TravelSlot::Beetle => 7,
            TravelSlot::Warclaw => 8,
            TravelSlot::Skyscale => 9,
            TravelSlot::Skiff => 10,
            TravelSlot::Turtle => 11,
        }
    }

    pub open spec fn of_number(i: nat) -> TravelSlot {
        if i == 0 {
            TravelSlot::Glider
        } else if i == 1 {
            TravelSlot::Doorway
        } else if i == 2 {
            TravelSlot::Jackal
        } else if i == 3 {
            TravelSlot::Griffon
        } else if i == 4 {
            TravelSlot::Springer
        } else if i == 5 {
            TravelSlot::Skimmer
        } else if i == 6 {
            TravelSlot::Raptor
        } else if i == 7 {
            TravelSlot::Beetle
        } else if i == 8 {
            TravelSlot::Warclaw
        } else if i == 9 {
            TravelSlot::Skyscale
        } else if i == 10 {
            TravelSlot::Skiff
        } else {
            TravelSlot::Turtle
        }
    }

    /// The mounts: every slot but glider, doorway and skiff.
    pub open spec fn spec_is_mount(self) -> bool {
        !(self is Glider || self is Doorway || self is Skiff)
    }

    /// Whether the slot holds a mount skin.
    pub fn is_mount(self) -> (r: bool)
        ensures
            r == self.spec_is_mount(),
    {
        match self {
            TravelSlot::Jackal | TravelSlot::Griffon | TravelSlot::Springer
            | TravelSlot::Skimmer | TravelSlot::Raptor | TravelSlot::Beetle
            | TravelSlot::Warclaw | TravelSlot::Skyscale | TravelSlot::Turtle => true,
            _ => false,
        }
    }
}

impl FashionSlot for TravelSlot {
    open spec fn spec_index(self) -> nat {
        self.number()
    }

    open spec fn spec_count() -> nat {
        12
    }

    open spec fn spec_from_index(i: nat) -> Self {
        TravelSlot::of_number(i)
    }

    /// Every travel slot holds dyes.
    open spec fn spec_dyeable(self) -> bool {
        true
    }

    /// Every travel slot counts as visible.
    open spec fn spec_always_visible(self) -> bool {
        true
    }

    open spec fn spec_kind(self) -> FashionSlotKind {
        match self {
            TravelSlot::Glider => FashionSlotKind::Glider,
            TravelSlot::Doorway => FashionSlotKind::Doorway,
            TravelSlot::Skiff => FashionSlotKind::Skiff,
            _ => FashionSlotKind::Mount,
        }
    }

    proof fn lemma_slot_index(s: Self) {
    }

    proof fn lemma_index_slot(i: nat) {
    }

    proof fn lemma_count() {
    }

    fn count() -> (n: usize) {
        12
    }

    fn index(self) -> (i: usize) {
        match self {
            TravelSlot::Glider => 0,
            TravelSlot::Doorway => 1,
            TravelSlot::Jackal => 2,
            TravelSlot::Griffon => 3,
            TravelSlot::Springer => 4,
            TravelSlot::Skimmer => 5,
            TravelSlot::Raptor => 6,
            TravelSlot::Beetle => 7,
            TravelSlot::Warclaw => 8,
            TravelSlot::Skyscale => 9,
            TravelSlot::Skiff => 10,
            TravelSlot::Turtle => 11,
        }
    }

    fn from_index(i: usize) -> (s: Self) {
        if i == 0 {
            TravelSlot::Glider
        } else if i == 1 {
            TravelSlot::Doorway
        } else if i == 2 {
            TravelSlot::Jackal
        } else if i == 3 {
            TravelSlot::Griffon
        } else if i == 4 {
            TravelSlot::Springer
        } else if i == 5 {
            TravelSlot::Skimmer
        } else if i == 6 {
            TravelSlot::Raptor
        } else if i == 7 {
            TravelSlot::Beetle
        } else if i == 8 {
            TravelSlot::Warclaw
        } else if i == 9 {
            TravelSlot::Skyscale
        } else if i == 10 {
            TravelSlot::Skiff
        } else {
            TravelSlot::Turtle
        }
    }

    fn dyeable(self) -> (b: bool) {
        true
    }

    fn always_visible(self) -> (b: bool) {
        true
    }

    fn kind(self) -> (k: FashionSlotKind) {
        match self {
            TravelSlot::Glider => FashionSlotKind::Glider,
            TravelSlot::Doorway => FashionSlotKind::Doorway,
            TravelSlot::Skiff => FashionSlotKind::Skiff,
            _ => FashionSlotKind::Mount,
        }
    }
}

/// Groups of travel slots.
#[derive(Debug, Clone, Copy, PartialEq, Eq, Structural)]
pub enum TravelCategory {
    Mount,
}

impl TravelCategory {
    pub open spec fn spec_slots(self) -> Seq<TravelSlot> {
        seq![
            TravelSlot::Jackal,
            TravelSlot::Griffon,
            TravelSlot::Springer,
            TravelSlot::Skimmer,
            TravelSlot::Raptor,
            TravelSlot::Beetle,
            TravelSlot::Warclaw,
            TravelSlot::Skyscale,
            TravelSlot::Turtle,
        ]
    }

    /// The slots of the category.
    pub fn slots(&self) -> (r: Vec<TravelSlot>)
        ensures
            r@ == self.spec_slots(),
            forall|i: int| 0 <= i < r@.len() ==> r@[i].spec_is_mount(),
    {
        let r = vec![
            TravelSlot::Jackal,
            TravelSlot::Griffon,
            TravelSlot::Springer,
            TravelSlot::Skimmer,
            TravelSlot::Raptor,
            TravelSlot::Beetle,
            TravelSlot::Warclaw,
            TravelSlot::Skyscale,
            TravelSlot::Turtle,
        ];
        assert(r@ =~= self.spec_slots());
        r
    }
}

impl WardrobeSlot {
    /// The name of the wardrobe slot, in snake case.
    pub open spec fn spec_name(self) -> Seq<char> {
        match self {
            WardrobeSlot::Aquabreather => "aquabreather"@,
            WardrobeSlot::Backpack => "backpack"@,
            WardrobeSlot::Chest => "chest"@,
            WardrobeSlot::Shoes => "shoes"@,
            WardrobeSlot::Gloves => "gloves"@,
            WardrobeSlot::Head => "head"@,
            WardrobeSlot::Legs => "legs"@,
            WardrobeSlot::Shoulders => "shoulders"@,
            WardrobeSlot::Outfit => "outfit"@,
            WardrobeSlot::WeaponAquaticA => "weapon_aquatic_a"@,
            WardrobeSlot::WeaponAquaticB => "weapon_aquatic_b"@,
            WardrobeSlot::WeaponA1 => "weapon_a1"@,
            WardrobeSlot::WeaponA2 => "weapon_a2"@,
            WardrobeSlot::WeaponB1 => "weapon_b1"@,
            WardrobeSlot::WeaponB2 => "weapon_b2"@,
        }
    }

    /// The wardrobe slot named `text` (its snake-case name), if any.
    pub open spec fn spec_from_name(text: Seq<char>) -> Option<WardrobeSlot> {
        if text == "aquabreather"@ {
            Some(WardrobeSlot::Aquabreather)
        } else if text == "backpack"@ {
            Some(WardrobeSlot::Backpack)
        } else if text == "chest"@ {
            Some(WardrobeSlot::Chest)
        } else if text == "shoes"@ {
            Some(WardrobeSlot::Shoes)
        } else if text == "gloves"@ {
            Some(WardrobeSlot::Gloves)
        } else if text == "head"@ {
            Some(WardrobeSlot::Head)
        } else if text == "legs"@ {
            Some(WardrobeSlot::Legs)
        } else if text == "shoulders"@ {
            Some(WardrobeSlot::Shoulders)
        } else if text == "outfit"@ {
            Some(WardrobeSlot::Outfit)
        } else if text == "weapon_aquatic_a"@ {
            Some(WardrobeSlot::WeaponAquaticA)
        } else if text == "weapon_aquatic_b"@ {
            Some(WardrobeSlot::WeaponAquaticB)
        } else if text == "weapon_a1"@ {
            Some(WardrobeSlot::WeaponA1)
        } else if text == "weapon_a2"@ {
            Some(WardrobeSlot::WeaponA2)
        } else if text == "weapon_b1"@ {
            Some(WardrobeSlot::WeaponB1)
        } else if text == "weapon_b2"@ {
            Some(WardrobeSlot::WeaponB2)
        } else {
            None
        }
    }

    /// The name of the wardrobe slot, in snake case.
    pub fn name(self) -> (r: &'static str)
        ensures
            r@ == self.spec_name(),
    {
        match self {
            WardrobeSlot::Aquabreather => "aquabreather",
            WardrobeSlot::Backpack => "backpack",
            WardrobeSlot::Chest => "chest",
            WardrobeSlot::Shoes => "shoes",
            WardrobeSlot::Gloves => "gloves",
            WardrobeSlot::Head => "head",
            WardrobeSlot::Legs => "legs",
            WardrobeSlot::Shoulders => "shoulders",
            WardrobeSlot::Outfit => "outfit",
            WardrobeSlot::WeaponAquaticA => "weapon_aquatic_a",
            WardrobeSlot::WeaponAquaticB => "weapon_aquatic_b",
            WardrobeSlot::WeaponA1 => "weapon_a1",
            WardrobeSlot::WeaponA2 => "weapon_a2",
            WardrobeSlot::WeaponB1 => "weapon_b1",
            WardrobeSlot::WeaponB2 => "weapon_b2",
        }
    }

    /// The wardrobe slot named `s` (its snake-case name), if any.
    pub fn from_name(s: &str) -> (r: Option<WardrobeSlot>)
        ensures
            r == WardrobeSlot::spec_from_name(s@),
    {
        if same_text(s, "aquabreather") {
            Some(WardrobeSlot::Aquabreather)
        } else if same_text(s, "backpack") {
            Some(WardrobeSlot::Backpack)
        } else if same_text(s, "chest") {
            Some(WardrobeSlot::Chest)
        } else if same_text(s, "shoes") {
            Some(WardrobeSlot::Shoes)
        } else if same_text(s, "gloves") {
            Some(WardrobeSlot::Gloves)
        } else if same_text(s, "head") {
            Some(WardrobeSlot::Head)
        } else if same_text(s, "legs") {
            Some(WardrobeSlot::Legs)
        } else if same_text(s, "shoulders") {
            Some(WardrobeSlot::Shoulders)
        } else if same_text(s, "outfit") {
            Some(WardrobeSlot::Outfit)
        } else if same_text(s, "weapon_aquatic_a") {
            Some(WardrobeSlot::WeaponAquaticA)
        } else if same_text(s, "weapon_aquatic_b") {
            Some(WardrobeSlot::WeaponAquaticB)
        } else if same_text(s, "weapon_a1") {
            Some(WardrobeSlot::WeaponA1)
        } else if same_text(s, "weapon_a2") {
            Some(WardrobeSlot::WeaponA2)
        } else if same_text(s, "weapon_b1") {
            Some(WardrobeSlot::WeaponB1)
        } else if same_text(s, "weapon_b2") {
            Some(WardrobeSlot::WeaponB2)
        } else {
            None
        }
    }
}

/// Each wardrobe slot is found again by its name.
pub proof fn law_wardrobe_slot_names(x: WardrobeSlot)
    ensures
        WardrobeSlot::spec_from_name(x.spec_name()) == Some(x),
{
    match x {
        WardrobeSlot::Aquabreather => {
            reveal_strlit("aquabreather");
        },
        WardrobeSlot::Backpack => {
            reveal_strlit("backpack");
            reveal_strlit("aquabreather");
            assert("backpack"@.len() != "aquabreather"@.len());
        },
        WardrobeSlot::Chest => {
            reveal_strlit("chest");
            reveal_strlit("aquabreather");
            assert("chest"@.len() != "aquabreather"@.len());
            reveal_strlit("backpack");
            assert("chest"@.len() != "backpack"@.len());
        },
        WardrobeSlot::Shoes => {
            reveal_strlit("shoes");
            reveal_strlit("aquabreather");
            assert("shoes"@.len() != "aquabreather"@.len());
            reveal_strlit("backpack");
            assert("shoes"@.len() != "backpack"@.len());
            reveal_strlit("chest");
            assert("shoes"@[0] != "chest"@[0]);
        },
        WardrobeSlot::Gloves => {
            reveal_strlit("gloves");
            reveal_strlit("aquabreather");
            assert("gloves"@.len() != "aquabreather"@.len());
            reveal_strlit("backpack");
            assert("gloves"@.len() != "backpack"@.len());
            reveal_strlit("chest");
            assert("gloves"@.len() != "chest"@.len());
            reveal_strlit("shoes");
            assert("gloves"@.len() != "shoes"@.len());
        },
        WardrobeSlot::Head => {
            reveal_strlit("head");
            reveal_strlit("aquabreather");
            assert("head"@.len() != "aquabreather"@.len());
            reveal_strlit("backpack");
            assert("head"@.len() != "backpack"@.len());
            reveal_strlit("chest");
            assert("head"@.len() != "chest"@.len());
            reveal_strlit("shoes");
            assert("head"@.len() != "shoes"@.len());
            reveal_strlit("gloves");
            assert("head"@.len() != "gloves"@.len());
        },
        WardrobeSlot::Legs => {
            reveal_strlit("legs");
            reveal_strlit("aquabreather");
            assert("legs"@.len() != "aquabreather"@.len());
            reveal_strlit("backpack");
            assert("legs"@.len() != "backpack"@.len());
            reveal_strlit("chest");
            assert("legs"@.len() != "chest"@.len());
            reveal_strlit("shoes");
            assert("legs"@.len() != "shoes"@.len());
            reveal_strlit("gloves");
            assert("legs"@.len() != "gloves"@.len());
            reveal_strlit("head");
            assert("legs"@[0] != "head"@[0]);
        },
        WardrobeSlot::Shoulders => {
            reveal_strlit("shoulders");
            reveal_strlit("aquabreather");
            assert("shoulders"@.len() != "aquabreather"@.len());
            reveal_strlit("backpack");
            assert("shoulders"@.len() != "backpack"@.len());
            reveal_strlit("chest");
            assert("shoulders"@.len() != "chest"@.len());
            reveal_strlit("shoes");
            assert("shoulders"@.len() != "shoes"@.len());
            reveal_strlit("gloves");
            assert("shoulders"@.len() != "gloves"@.len());
            reveal_strlit("head");
            assert("shoulders"@.len() != "head"@.len());
            reveal_strlit("legs");
            assert("shoulders"@.len() != "legs"@.len());
        },
        WardrobeSlot::Outfit => {
            reveal_strlit("outfit");
            reveal_strlit("aquabreather");
            assert("outfit"@.len() != "aquabreather"@.len());
            reveal_strlit("backpack");
            assert("outfit"@.len() != "backpack"@.len());
            reveal_strlit("chest");
            assert("outfit"@.len() != "chest"@.len());
            reveal_strlit("shoes");
            assert("outfit"@.len() != "shoes"@.len());
            reveal_strlit("gloves");
            assert("outfit"@[0] != "gloves"@[0]);
            reveal_strlit("head");
            assert("outfit"@.len() != "head"@.len());
            reveal_strlit("legs");
            assert("outfit"@.len() != "legs"@.len());
            reveal_strlit("shoulders");
            assert("outfit"@.len() != "shoulders"@.len());
        },
        WardrobeSlot::WeaponAquaticA => {
            reveal_strlit("weapon_aquatic_a");
            reveal_strlit("aquabreather");
            assert("weapon_aquatic_a"@.len() != "aquabreather"@.len());
            reveal_strlit("backpack");
            assert("weapon_aquatic_a"@.len() != "backpack"@.len());
            reveal_strlit("chest");
            assert("weapon_aquatic_a"@.len() != "chest"@.len());
            reveal_strlit("shoes");
            assert("weapon_aquatic_a"@.len() != "shoes"@.len());
            reveal_strlit("gloves");
            assert("weapon_aquatic_a"@.len() != "gloves"@.len());
            reveal_strlit("head");
            assert("weapon_aquatic_a"@.len() != "head"@.len());
            reveal_strlit("legs");
            assert("weapon_aquatic_a"@.len() != "legs"@.len());
            reveal_strlit("shoulders");
            assert("weapon_aquatic_a"@.len() != "shoulders"@.len());
            reveal_strlit("outfit");
            assert("weapon_aquatic_a"@.len() != "outfit"@.len());
        },
        WardrobeSlot::WeaponAquaticB => {
            reveal_strlit("weapon_aquatic_b");
            reveal_strlit("aquabreather");
            assert("weapon_aquatic_b"@.len() != "aquabreather"@.len());
            reveal_strlit("backpack");
            assert("weapon_aquatic_b"@.len() != "backpack"@.len());
            reveal_strlit("chest");
            assert("weapon_aquatic_b"@.len() != "chest"@.len());
            reveal_strlit("shoes");
            assert("weapon_aquatic_b"@.len() != "shoes"@.len());
            reveal_strlit("gloves");
            assert("weapon_aquatic_b"@.len() != "gloves"@.len());
            reveal_strlit("head");
            assert("weapon_aquatic_b"@.len() != "head"@.len());
            reveal_strlit("legs");
            assert("weapon_aquatic_b"@.len() != "legs"@.len());
            reveal_strlit("shoulders");
            assert("weapon_aquatic_b"@.len() != "shoulders"@.len());
            reveal_strlit("outfit");
            assert("weapon_aquatic_b"@.len() != "outfit"@.len());
            reveal_strlit("weapon_aquatic_a");
            assert("weapon_aquatic_b"@[15] != "weapon_aquatic_a"@[15]);
        },
        WardrobeSlot::WeaponA1 => {
            reveal_strlit("weapon_a1");
            reveal_strlit("aquabreather");
            assert("weapon_a1"@.len() != "aquabreather"@.len());
            reveal_strlit("backpack");
            assert("weapon_a1"@.len() != "backpack"@.len());
            reveal_strlit("chest");
            assert("weapon_a1"@.len() != "chest"@.len());
            reveal_strlit("shoes");
            assert("weapon_a1"@.len() != "shoes"@.len());
            reveal_strlit("gloves");
            assert("weapon_a1"@.len() != "gloves"@.len());
            reveal_strlit("head");
            assert("weapon_a1"@.len() != "head"@.len());
            reveal_strlit("legs");
            assert("weapon_a1"@.len() != "legs"@.len());
            reveal_strlit("shoulders");
            assert("weapon_a1"@[0] != "shoulders"@[0]);
            reveal_strlit("outfit");
            assert("weapon_a1"@.len() != "outfit"@.len());
            reveal_strlit("weapon_aquatic_a");
            assert("weapon_a1"@.len() != "weapon_aquatic_a"@.len());
            reveal_strlit("weapon_aquatic_b");
            assert("weapon_a1"@.len() != "weapon_aquatic_b"@.len());
        },
        WardrobeSlot::WeaponA2 => {
            reveal_strlit("weapon_a2");
            reveal_strlit("aquabreather");
            assert("weapon_a2"@.len() != "aquabreather"@.len());
            reveal_strlit("backpack");
            assert("weapon_a2"@.len() != "backpack"@.len());
            reveal_strlit("chest");
            assert("weapon_a2"@.len() != "chest"@.len());
            reveal_strlit("shoes");
            assert("weapon_a2"@.len() != "shoes"@.len());
            reveal_strlit("gloves");
            assert("weapon_a2"@.len() != "gloves"@.len());
            reveal_strlit("head");
            assert("weapon_a2"@.len() != "head"@.len());
            reveal_strlit("legs");
            assert("weapon_a2"@.len() != "legs"@.len());
            reveal_strlit("shoulders");
            assert("weapon_a2"@[0] != "shoulders"@[0]);
            reveal_strlit("outfit");
            assert("weapon_a2"@.len() != "outfit"@.len());
            reveal_strlit("weapon_aquatic_a");
            assert("weapon_a2"@.len() != "weapon_aquatic_a"@.len());
            reveal_strlit("weapon_aquatic_b");
            assert("weapon_a2"@.len() != "weapon_aquatic_b"@.len());
            reveal_strlit("weapon_a1");
            assert("weapon_a2"@[8] != "weapon_a1"@[8]);
        },
        WardrobeSlot::WeaponB1 => {
            reveal_strlit("weapon_b1");
            reveal_strlit("aquabreather");
            assert("weapon_b1"@.len() != "aquabreather"@.len());
            reveal_strlit("backpack");
            assert("weapon_b1"@.len() != "backpack"@.len());
            reveal_strlit("chest");
            assert("weapon_b1"@.len() != "chest"@.len());
            reveal_strlit("shoes");
            assert("weapon_b1"@.len() != "shoes"@.len());
            reveal_strlit("gloves");
            assert("weapon_b1"@.len() != "gloves"@.len());
            reveal_strlit("head");
            assert("weapon_b1"@.len() != "head"@.len());
            reveal_strlit("legs");
            assert("weapon_b1"@.len() != "legs"@.len());
            reveal_strlit("shoulders");
            assert("weapon_b1"@[0] != "shoulders"@[0]);
            reveal_strlit("outfit");
            assert("weapon_b1"@.len() != "outfit"@.len());
            reveal_strlit("weapon_aquatic_a");
            assert("weapon_b1"@.len() != "weapon_aquatic_a"@.len());
            reveal_strlit("weapon_aquatic_b");
            assert("weapon_b1"@.len() != "weapon_aquatic_b"@.len());
            reveal_strlit("weapon_a1");
            assert("weapon_b1"@[7] != "weapon_a1"@[7]);
            reveal_strlit("weapon_a2");
            assert("weapon_b1"@[7] != "weapon_a2"@[7]);
        },
        WardrobeSlot::WeaponB2 => {
            reveal_strlit("weapon_b2");
            reveal_strlit("aquabreather");
            assert("weapon_b2"@.len() != "aquabreather"@.len());
            reveal_strlit("backpack");
            assert("weapon_b2"@.len() != "backpack"@.len());
            reveal_strlit("chest");
            assert("weapon_b2"@.len() != "chest"@.len());
            reveal_strlit("shoes");
            assert("weapon_b2"@.len() != "shoes"@.len());
            reveal_strlit("gloves");
            assert("weapon_b2"@.len() != "gloves"@.len());
            reveal_strlit("head");
            assert("weapon_b2"@.len() != "head"@.len());
            reveal_strlit("legs");
            assert("weapon_b2"@.len() != "legs"@.len());
            reveal_strlit("shoulders");
            assert("weapon_b2"@[0] != "shoulders"@[0]);
            reveal_strlit("outfit");
            assert("weapon_b2"@.len() != "outfit"@.len());
            reveal_strlit("weapon_aquatic_a");
            assert("weapon_b2"@.len() != "weapon_aquatic_a"@.len());
            reveal_strlit("weapon_aquatic_b");
            assert("weapon_b2"@.len() != "weapon_aquatic_b"@.len());
            reveal_strlit("weapon_a1");
            assert("weapon_b2"@[7] != "weapon_a1"@[7]);
            reveal_strlit("weapon_a2");
            assert("weapon_b2"@[7] != "weapon_a2"@[7]);
            reveal_strlit("weapon_b1");
            assert("weapon_b2"@[8] != "weapon_b1"@[8]);
        },
    }
}

impl TravelSlot {
    /// The name of the travel slot, in snake case.
    pub open spec fn spec_name(self) -> Seq<char> {
        match self {
            TravelSlot::Glider => "glider"@,
            TravelSlot::Doorway => "doorway"@,
            TravelSlot::Jackal => "jackal"@,
            TravelSlot::Griffon => "griffon"@,
            TravelSlot::Springer => "springer"@,
            TravelSlot::Skimmer => "skimmer"@,
            TravelSlot::Raptor => "raptor"@,
            TravelSlot::Beetle => "beetle"@,
            TravelSlot::Warclaw => "warclaw"@,
            TravelSlot::Skyscale => "skyscale"@,
            TravelSlot::Skiff => "skiff"@,
            TravelSlot::Turtle => "turtle"@,
        }
    }

    /// The travel slot named `text` (its snake-case name), if any.
    pub open spec fn spec_from_name(text: Seq<char>) -> Option<TravelSlot> {
        if text == "glider"@ {
            Some(TravelSlot::Glider)
        } else if text == "doorway"@ {
            Some(TravelSlot::Doorway)
        } else if text == "jackal"@ {
            Some(TravelSlot::Jackal)
        } else if text == "griffon"@ {
            Some(TravelSlot::Griffon)
        } else if text == "springer"@ {
            Some(TravelSlot::Springer)
        } else if text == "skimmer"@ {
            Some(TravelSlot::Skimmer)
        } else if text == "raptor"@ {
            Some(TravelSlot::Raptor)
        } else if text == "beetle"@ {
            Some(TravelSlot::Beetle)
        } else if text == "warclaw"@ {
            Some(TravelSlot::Warclaw)
        } else if text == "skyscale"@ {
            Some(TravelSlot::Skyscale)
        } else if text == "skiff"@ {
            Some(TravelSlot::Skiff)
        } else if text == "turtle"@ {
            Some(TravelSlot::Turtle)
        } else {
            None
        }
    }

    /// The name of the travel slot, in snake case.
    pub fn name(self) -> (r: &'static str)
        ensures
            r@ == self.spec_name(),
    {
        match self {
            TravelSlot::Glider => "glider",
            TravelSlot::Doorway => "doorway",
            TravelSlot::Jackal => "jackal",
            TravelSlot::Griffon => "griffon",
            TravelSlot::Springer => "springer",
            TravelSlot::Skimmer => "skimmer",
            TravelSlot::Raptor => "raptor",
            TravelSlot::Beetle => "beetle",
            TravelSlot::Warclaw => "warclaw",
            TravelSlot::Skyscale => "skyscale",
            TravelSlot::Skiff => "skiff",
            TravelSlot::Turtle => "turtle",
        }
    }

    /// The travel slot named `s` (its snake-case name), if any.
    pub fn from_name(s: &str) -> (r: Option<TravelSlot>)
        ensures
            r == TravelSlot::spec_from_name(s@),
    {
        if same_text(s, "glider") {
            Some(TravelSlot::Glider)
        } else if same_text(s, "doorway") {
            Some(TravelSlot::Doorway)
        } else if same_text(s, "jackal") {
            Some(TravelSlot::Jackal)
        } else if same_text(s, "griffon") {
            Some(TravelSlot::Griffon)
        } else if same_text(s, "springer") {
            Some(TravelSlot::Springer)
        } else if same_text(s, "skimmer") {
            Some(TravelSlot::Skimmer)
        } else if same_text(s, "raptor") {
            Some(TravelSlot::Raptor)
        } else if same_text(s, "beetle") {
            Some(TravelSlot::Beetle)
        } else if same_text(s, "warclaw") {
            Some(TravelSlot::Warclaw)
        } else if same_text(s, "skyscale") {
            Some(TravelSlot::Skyscale)
        } else if same_text(s, "skiff") {
            Some(TravelSlot::Skiff)
        } else if same_text(s, "turtle") {
            Some(TravelSlot::Turtle)
        } else {
            None
        }
    }
}

/// Each travel slot is found again by its name.
pub proof fn law_travel_slot_names(x: TravelSlot)
    ensures
        TravelSlot::spec_from_name(x.spec_name()) == Some(x),
{
    match x {
        TravelSlot::Glider => {
            reveal_strlit("glider");
        },
        TravelSlot::Doorway => {
            reveal_strlit("doorway");
            reveal_strlit("glider");
            assert("doorway"@.len() != "glider"@.len());
        },
        TravelSlot::Jackal => {
            reveal_strlit("jackal");
            reveal_strlit("glider");
            assert("jackal"@[0] != "glider"@[0]);
            reveal_strlit("doorway");
            assert("jackal"@.len() != "doorway"@.len());
        },
        TravelSlot::Griffon => {
            reveal_strlit("griffon");
            reveal_strlit("glider");
            assert("griffon"@.len() != "glider"@.len());
            reveal_strlit("doorway");
            assert("griffon"@[0] != "doorway"@[0]);
            reveal_strlit("jackal");
            assert("griffon"@.len() != "jackal"@.len());
        },
        TravelSlot::Springer => {
            reveal_strlit("springer");
            reveal_strlit("glider");
            assert("springer"@.len() != "glider"@.len());
            reveal_strlit("doorway");
            assert("springer"@.len() != "doorway"@.len());
            reveal_strlit("jackal");
            assert("springer"@.len() != "jackal"@.len());
            reveal_strlit("griffon");
            assert("springer"@.len() != "griffon"@.len());
        },
        TravelSlot::Skimmer => {
            reveal_strlit("skimmer");
            reveal_strlit("glider");
            assert("skimmer"@.len() != "glider"@.len());
            reveal_strlit("doorway");
            assert("skimmer"@[0] != "doorway"@[0]);
            reveal_strlit("jackal");
            assert("skimmer"@.len() != "jackal"@.len());
            reveal_strlit("griffon");
            assert("skimmer"@[0] != "griffon"@[0]);
            reveal_strlit("springer");
            assert("skimmer"@.len() != "springer"@.len());
        },
        TravelSlot::Raptor => {
            reveal_strlit("raptor");
            reveal_strlit("glider");
            assert("raptor"@[0] != "glider"@[0]);
            reveal_strlit("doorway");
            assert("raptor"@.len() != "doorway"@.len());
            reveal_strlit("jackal");
            assert("raptor"@[0] != "jackal"@[0]);
            reveal_strlit("griffon");
            assert("raptor"@.len() != "griffon"@.len());
            reveal_strlit("springer");
            assert("raptor"@.len() != "springer"@.len());
            reveal_strlit("skimmer");
            assert("raptor"@.len() != "skimmer"@.len());
        },
        TravelSlot::Beetle => {
            reveal_strlit("beetle");
            reveal_strlit("glider");
            assert("beetle"@[0] != "glider"@[0]);
            reveal_strlit("doorway");
            assert("beetle"@.len() != "doorway"@.len());
            reveal_strlit("jackal");
            assert("beetle"@[0] != "jackal"@[0]);
            reveal_strlit("griffon");
            assert("beetle"@.len() != "griffon"@.len());
            reveal_strlit("springer");
            assert("beetle"@.len() != "springer"@.len());
            reveal_strlit("skimmer");
            assert("beetle"@.len() != "skimmer"@.len());
            reveal_strlit("raptor");
            assert("beetle"@[0] != "raptor"@[0]);
        },
        TravelSlot::Warclaw => {
            reveal_strlit("warclaw");
            reveal_strlit("glider");
            assert("warclaw"@.len() != "glider"@.len());
            reveal_strlit("doorway");
            assert("warclaw"@[0] != "doorway"@[0]);
            reveal_strlit("jackal");
            assert("warclaw"@.len() != "jackal"@.len());
            reveal_strlit("griffon");
            assert("warclaw"@[0] != "griffon"@[0]);
            reveal_strlit("springer");
            assert("warclaw"@.len() != "springer"@.len());
            reveal_strlit("skimmer");
            assert("warclaw"@[0] != "skimmer"@[0]);
            reveal_strlit("raptor");
            assert("warclaw"@.len() != "raptor"@.len());
            reveal_strlit("beetle");
            assert("warclaw"@.len() != "beetle"@.len());
        },
        TravelSlot::Skyscale => {
            reveal_strlit("skyscale");
            reveal_strlit("glider");
            assert("skyscale"@.len() != "glider"@.len());
            reveal_strlit("doorway");
            assert("skyscale"@.len() != "doorway"@.len());
            reveal_strlit("jackal");
            assert("skyscale"@.len() != "jackal"@.len());
            reveal_strlit("griffon");
            assert("skyscale"@.len() != "griffon"@.len());
            reveal_strlit("springer");
            assert("skyscale"@[1] != "springer"@[1]);
            reveal_strlit("skimmer");
            assert("skyscale"@.len() != "skimmer"@.len());
            reveal_strlit("raptor");
            assert("skyscale"@.len() != "raptor"@.len());
            reveal_strlit("beetle");
            assert("skyscale"@.len() != "beetle"@.len());
            reveal_strlit("warclaw");
            assert("skyscale"@.len() != "warclaw"@.len());
        },
        TravelSlot::Skiff => {
            reveal_strlit("skiff");
            reveal_strlit("glider");
            assert("skiff"@.len() != "glider"@.len());
            reveal_strlit("doorway");
            assert("skiff"@.len() != "doorway"@.len());
            reveal_strlit("jackal");
            assert("skiff"@.len() != "jackal"@.len());
            reveal_strlit("griffon");
            assert("skiff"@.len() != "griffon"@.len());
            reveal_strlit("springer");
            assert("skiff"@.len() != "springer"@.len());
            reveal_strlit("skimmer");
            assert("skiff"@.len() != "skimmer"@.len());
            reveal_strlit("raptor");
            assert("skiff"@.len() != "raptor"@.len());
            reveal_strlit("beetle");
            assert("skiff"@.len() != "beetle"@.len());
            reveal_strlit("warclaw");
            assert("skiff"@.len() != "warclaw"@.len());
            reveal_strlit("skyscale");
            assert("skiff"@.len() != "skyscale"@.len());
        },
        TravelSlot::Turtle => {
            reveal_strlit("turtle");
            reveal_strlit("glider");
            assert("turtle"@[0] != "glider"@[0]);
            reveal_strlit("doorway");
            assert("turtle"@.len() != "doorway"@.len());
            reveal_strlit("jackal");
            assert("turtle"@[0] != "jackal"@[0]);
            reveal_strlit("griffon");
            assert("turtle"@.len() != "griffon"@.len());
            reveal_strlit("springer");
            assert("turtle"@.len() != "springer"@.len());
            reveal_strlit("skimmer");
            assert("turtle"@.len() != "skimmer"@.len());
            reveal_strlit("raptor");
            assert("turtle"@[0] != "raptor"@[0]);
            reveal_strlit("beetle");
            assert("turtle"@[0] != "beetle"@[0]);
            reveal_strlit("warclaw");
            assert("turtle"@.len() != "warclaw"@.len());
            reveal_strlit("skyscale");
            assert("turtle"@.len() != "skyscale"@.len());
            reveal_strlit("skiff");
            assert("turtle"@.len() != "skiff"@.len());
        },
    }
}

impl EquipmentCategory {
    /// The name of the equipment category, in snake case.
    pub open spec fn spec_name(self) -> Seq<char> {
        match self {
            EquipmentCategory::Underwater => "underwater"@,
            EquipmentCategory::Armors => "armors"@,
            EquipmentCategory::Weapons => "weapons"@,
        }
    }

    /// The equipment category named `text` (its snake-case name), if any.
    pub open spec fn spec_from_name(text: Seq<char>) -> Option<EquipmentCategory> {
        if text == "underwater"@ {
            Some(EquipmentCategory::Underwater)
        } else if text == "armors"@ {
            Some(EquipmentCategory::Armors)
        } else if text == "weapons"@ {
            Some(EquipmentCategory::Weapons)
        } else {
            None
        }
    }

    /// The name of the equipment category, in snake case.
    pub fn name(self) -> (r: &'static str)
        ensures
            r@ == self.spec_name(),
    {
        match self {
            EquipmentCategory::Underwater => "underwater",
            EquipmentCategory::Armors => "armors",
            EquipmentCategory::Weapons => "weapons",
        }
    }

    /// The equipment category named `s` (its snake-case name), if any.
    pub fn from_name(s: &str) -> (r: Option<EquipmentCategory>)
        ensures
            r == EquipmentCategory::spec_from_name(s@),
    {
        if same_text(s, "underwater") {
            Some(EquipmentCategory::Underwater)
        } else if same_text(s, "armors") {
            Some(EquipmentCategory::Armors)
        } else if same_text(s, "weapons") {
            Some(EquipmentCategory::Weapons)
        } else {
            None
        }
    }
}

/// Each equipment category is found again by its name.
pub proof fn law_equipment_category_names(x: EquipmentCategory)
    ensures
        EquipmentCategory::spec_from_name(x.spec_name()) == Some(x),
{
    match x {
        EquipmentCategory::Underwater => {
            reveal_strlit("underwater");
        },
        EquipmentCategory::Armors => {
            reveal_strlit("armors");
            reveal_strlit("underwater");
            assert("armors"@.len() != "underwater"@.len());
        },
        EquipmentCategory::Weapons => {
            reveal_strlit("weapons");
            reveal_strlit("underwater");
            assert("weapons"@.len() != "underwater"@.len());
            reveal_strlit("armors");
            assert("weapons"@.len() != "armors"@.len());
        },
    }
}

impl TravelCategory {
    /// The name of the travel category, in snake case.
    pub open spec fn spec_name(self) -> Seq<char> {
        match self {
            TravelCategory::Mount => "mount"@,
        }
    }

    /// The travel category named `text` (its snake-case name), if any.
    pub open spec fn spec_from_name(text: Seq<char>) -> Option<TravelCategory> {
        if text == "mount"@ {
            Some(TravelCategory::Mount)
        } else {
            None
        }
    }

    /// The name of the travel category, in snake case.
    pub fn name(self) -> (r: &'static str)
        ensures
            r@ == self.spec_name(),
    {
        match self {
            TravelCategory::Mount => "mount",
        }
    }

    /// The travel category named `s` (its snake-case name), if any.
    pub fn from_name(s: &str) -> (r: Option<TravelCategory>)
        ensures
            r == TravelCategory::spec_from_name(s@),
    {
        if same_text(s, "mount") {
            Some(TravelCategory::Mount)
        } else {
            None
        }
    }
}

/// Each travel category is found again by its name.
pub proof fn law_travel_category_names(x: TravelCategory)
    ensures
        TravelCategory::spec_from_name(x.spec_name()) == Some(x),
{
    match x {
        TravelCategory::Mount => {
            reveal_strlit("mount");
        },
    }
}

impl WardrobeSlot {
    /// The name of the slot as `{:?}` writes it: the name of its variant.
    pub open spec fn spec_debug_name(self) -> Seq<char> {
        match self {
            WardrobeSlot::Aquabreather => "Aquabreather"@,
            WardrobeSlot::Backpack => "Backpack"@,
            WardrobeSlot::Chest => "Chest"@,
            WardrobeSlot::Shoes => "Shoes"@,
            WardrobeSlot::Gloves => "Gloves"@,
            WardrobeSlot::Head => "Head"@,
            WardrobeSlot::Legs => "Legs"@,
            WardrobeSlot::Shoulders => "Shoulders"@,
            WardrobeSlot::Outfit => "Outfit"@,
            WardrobeSlot::WeaponAquaticA => "WeaponAquaticA"@,
            WardrobeSlot::WeaponAquaticB => "WeaponAquaticB"@,
            WardrobeSlot::WeaponA1 => "WeaponA1"@,
            WardrobeSlot::WeaponA2 => "WeaponA2"@,
            WardrobeSlot::WeaponB1 => "WeaponB1"@,
            WardrobeSlot::WeaponB2 => "WeaponB2"@,
        }
    }

    /// The name of the slot as `{:?}` writes it: the name of its variant.
    pub fn debug_name(self) -> (r: &'static str)
        ensures
            r@ == self.spec_debug_name(),
    {
        match self {
            WardrobeSlot::Aquabreather => "Aquabreather",
            WardrobeSlot::Backpack => "Backpack",
            WardrobeSlot::Chest => "Chest",
            WardrobeSlot::Shoes => "Shoes",
            WardrobeSlot::Gloves => "Gloves",
            WardrobeSlot::Head => "Head",
            WardrobeSlot::Legs => "Legs",
            WardrobeSlot::Shoulders => "Shoulders",
            WardrobeSlot::Outfit => "Outfit",
            WardrobeSlot::WeaponAquaticA => "WeaponAquaticA",
            WardrobeSlot::WeaponAquaticB => "WeaponAquaticB",
            WardrobeSlot::WeaponA1 => "WeaponA1",
            WardrobeSlot::WeaponA2 => "WeaponA2",
            WardrobeSlot::WeaponB1 => "WeaponB1",
            WardrobeSlot::WeaponB2 => "WeaponB2",
        }
    }
}

/// The places of the wardrobe slots in the game's payload: the aquabreather, the
/// backpack, then chest, shoes, gloves, head, legs, shoulders, the outfit, and the
/// six weapon slots; each place holds exactly one slot.
pub proof fn law_wardrobe_slot_places()
    ensures
        WardrobeSlot::Aquabreather.spec_index() == 0,
        WardrobeSlot::Backpack.spec_index() == 1,
        WardrobeSlot::Chest.spec_index() == 2,
        WardrobeSlot::Shoes.spec_index() == 3,
        WardrobeSlot::Gloves.spec_index() == 4,
        WardrobeSlot::Head.spec_index() == 5,
        WardrobeSlot::Legs.spec_index() == 6,
        WardrobeSlot::Shoulders.spec_index() == 7,
        WardrobeSlot::Outfit.spec_index() == 8,
        WardrobeSlot::WeaponAquaticA.spec_index() == 9,
        WardrobeSlot::WeaponAquaticB.spec_index() == 10,
        WardrobeSlot::WeaponA1.spec_index() == 11,
        WardrobeSlot::WeaponA2.spec_index() == 12,
        WardrobeSlot::WeaponB1.spec_index() == 13,
        WardrobeSlot::WeaponB2.spec_index() == 14,
        WardrobeSlot::spec_count() == 15,
        forall|i: nat| i < 15 ==> (#[trigger] WardrobeSlot::spec_from_index(i)).spec_index() == i,
{
}

/// Which wardrobe slots hold dyes (the backpack, the six armor pieces and the
/// outfit) and which are shown whatever their flag (only chest, shoes and legs).
pub proof fn law_wardrobe_slot_kinds(s: WardrobeSlot)
    ensures
        s.spec_dyeable() <==> !(s == WardrobeSlot::Aquabreather || s == WardrobeSlot::WeaponAquaticA
            || s == WardrobeSlot::WeaponAquaticB || s == WardrobeSlot::WeaponA1 || s
            == WardrobeSlot::WeaponA2 || s == WardrobeSlot::WeaponB1 || s == WardrobeSlot::WeaponB2),
        s.spec_always_visible() <==> (s == WardrobeSlot::Chest || s == WardrobeSlot::Shoes || s
            == WardrobeSlot::Legs),
{
}

/// The places of the travel slots in the game's payload: glider, doorway, the nine
/// mounts in the game's order with the skiff before the turtle.
pub proof fn law_travel_slot_places()
    ensures
        TravelSlot::Glider.spec_index() == 0,
        TravelSlot::Doorway.spec_index() == 1,
        TravelSlot::Jackal.spec_index() == 2,
        TravelSlot::Griffon.spec_index() == 3,
        TravelSlot::Springer.spec_index() == 4,
        TravelSlot::Skimmer.spec_index() == 5,
        TravelSlot::Raptor.spec_index() == 6,
        TravelSlot::Beetle.spec_index() == 7,
        TravelSlot::Warclaw.spec_index() == 8,
        TravelSlot::Skyscale.spec_index() == 9,
        TravelSlot::Skiff.spec_index() == 10,
        TravelSlot::Turtle.spec_index() == 11,
        TravelSlot::spec_count() == 12,
        forall|i: nat| i < 12 ==> (#[trigger] TravelSlot::spec_from_index(i)).spec_index() == i,
{
}

/// Every travel slot holds dyes and is shown whatever its flag.
pub proof fn law_travel_slot_kinds(s: TravelSlot)
    ensures
        s.spec_dyeable(),
        s.spec_always_visible(),
{
}

} // verus!
