//! Wardrobe slot types with their bits in a visibility mask, and the mask itself.
use vstd::prelude::*;
use crate::error::ChatLinkError;
use crate::le::{le_at, read_u16_le};

verus! {

/// A wardrobe slot, by its place in the visibility mask.
#[derive(Debug, Clone, Copy, PartialEq, Eq, Hash, Structural)]
pub enum SlotType {
    Aquabreather,
    Backpack,
    Chest,
    Shoes,
    Gloves,
    Head,
    Legs,
    Shoulders,
    Outfit,
    WeaponAquaticA,
    WeaponAquaticB,
    WeaponA1,
    WeaponA2,
    WeaponB1,
    WeaponB2,
}

/// The bits of a visibility mask that name a slot: the low fifteen.
pub open spec fn known_bits() -> u16 {
    0x7fffu16
}

/// A set of slots, as a mask with one bit per slot.
#[derive(Debug, Clone, Copy, PartialEq, Eq, Structural)]
pub struct Visibility(u16);

impl SlotType {
    /// The place of the slot in the mask, `0` for the aquabreather up to `14`.
    pub open spec fn spec_index(self) -> u16 {
        match self {
            SlotType::Aquabreather => 0,
            SlotType::Backpack => 1,
            SlotType::Chest => 2,
            SlotType::Shoes => 3,
            SlotType::Gloves => 4,
            SlotType::Head => 5,
            SlotType::Legs => 6,
            SlotType::Shoulders => 7,
            SlotType::Outfit => 8,
            SlotType::WeaponAquaticA => 9,
            SlotType::WeaponAquaticB => 10,
            SlotType::WeaponA1 => 11,
            SlotType::WeaponA2 => 12,
            SlotType::WeaponB1 => 13,
            SlotType::WeaponB2 => 14,
        }
    }

    /// The mask that holds just this slot: bit `index`.
    pub fn visibility(self) -> (r: Visibility)
        ensures
            r.spec_bits() == 1u16 << self.spec_index(),
    {
        let bits: u16 = match self {
            SlotType::Aquabreather => 1,
            SlotType::Backpack => 2,
            SlotType::Chest => 4,
            SlotType::Shoes => 8,
            SlotType::Gloves => 16,
            SlotType::Head => 32,
            SlotType::Legs => 64,
            SlotType::Shoulders => 128,
            SlotType::Outfit => 256,
            SlotType::WeaponAquaticA => 512,
            SlotType::WeaponAquaticB => 1024,
            SlotType::WeaponA1 => 2048,
            SlotType::WeaponA2 => 4096,
            SlotType::WeaponB1 => 8192,
            SlotType::WeaponB2 => 16384,
        };
        let ghost i: u16 = self.spec_index();
        assert(bits == 1u16 << i) by (bit_vector)
            requires
                (i == 0 && bits == 1) || (i == 1 && bits == 2) || (i == 2 && bits == 4) || (i == 3
                    && bits == 8) || (i == 4 && bits == 16) || (i == 5 && bits == 32) || (i == 6
                    && bits == 64) || (i == 7 && bits == 128) || (i == 8 && bits == 256) || (i == 9
                    && bits == 512) || (i == 10 && bits == 1024) || (i == 11 && bits == 2048) || (i
                    == 12 && bits == 4096) || (i == 13 && bits == 8192) || (i == 14 && bits
                    == 16384),
        ;
        Visibility(bits)
    }

    /// Whether the slot holds dyes: the backpack, the armor pieces and the outfit.
    pub open spec fn spec_dyable(self) -> bool {
        match self {
            SlotType::Backpack | SlotType::Chest | SlotType::Shoes | SlotType::Gloves
            | SlotType::Head | SlotType::Legs | SlotType::Shoulders | SlotType::Outfit => true,
            _ => false,
        }
    }

    /// Whether the slot holds dyes.
    pub fn dyable(self) -> (r: bool)
        ensures
            r == self.spec_dyable(),
    {
        match self {
            SlotType::Backpack | SlotType::Chest | SlotType::Shoes | SlotType::Gloves
            | SlotType::Head | SlotType::Legs | SlotType::Shoulders | SlotType::Outfit => true,
            _ => false,
        }
    }

    /// Whether the slot counts as visible whatever its flag: chest, shoes and legs.
    pub fn always_visible(self) -> (r: bool)
        ensures
            r == (self == SlotType::Chest || self == SlotType::Shoes || self == SlotType::Legs),
    {
        match self {
            SlotType::Chest | SlotType::Shoes | SlotType::Legs => true,
            _ => false,
        }
    }

    /// The place of the slot.
    pub fn index(self) -> (r: usize)
        ensures
            r == self.spec_index(),
    {
        match self {
            SlotType::Aquabreather => 0,
            SlotType::Backpack => 1,
            SlotType::Chest => 2,
            SlotType::Shoes => 3,
            SlotType::Gloves => 4,
            SlotType::Head => 5,
            SlotType::Legs => 6,
            SlotType::Shoulders => 7,
            SlotType::Outfit => 8,
            SlotType::WeaponAquaticA => 9,
            SlotType::WeaponAquaticB => 10,
            SlotType::WeaponA1 => 11,
            SlotType::WeaponA2 => 12,
            SlotType::WeaponB1 => 13,
            SlotType::WeaponB2 => 14,
        }
    }
}

/// The bits of the wardrobe slots in a visibility mask, in the game's order: the
/// aquabreather is bit 0, then backpack, chest, shoes, gloves, head, legs,
/// shoulders, outfit, and the six weapon slots up to bit 14.
pub proof fn law_slot_type_places()
    ensures
        SlotType::Aquabreather.spec_index() == 0,
        SlotType::Backpack.spec_index() == 1,
        SlotType::Chest.spec_index() == 2,
        SlotType::Shoes.spec_index() == 3,
        SlotType::Gloves.spec_index() == 4,
        SlotType::Head.spec_index() == 5,
        SlotType::Legs.spec_index() == 6,
        SlotType::Shoulders.spec_index() == 7,
        SlotType::Outfit.spec_index() == 8,
        SlotType::WeaponAquaticA.spec_index() == 9,
        SlotType::WeaponAquaticB.spec_index() == 10,
        SlotType::WeaponA1.spec_index() == 11,
        SlotType::WeaponA2.spec_index() == 12,
        SlotType::WeaponB1.spec_index() == 13,
        SlotType::WeaponB2.spec_index() == 14,
{
}

/// A slot's mask names a known slot and no other.
pub proof fn law_slot_bit_known(t: SlotType)
    ensures
        (1u16 << t.spec_index()) & !known_bits() == 0,
        (1u16 << t.spec_index()) != 0,
{
    let i = t.spec_index();
    assert(i < 15);
    assert(i < 15 ==> (1u16 << i) & !0x7fffu16 == 0 && (1u16 << i) != 0) by (bit_vector);
}

/// Distinct slots have distinct bits.
pub proof fn law_slot_bits_distinct(a: SlotType, b: SlotType)
    ensures
        a != b ==> (1u16 << a.spec_index()) & (1u16 << b.spec_index()) == 0,
{
    let i = a.spec_index();
    let j = b.spec_index();
    assert(i < 15 && j < 15);
    assert(i < 15 && j < 15 && i != j ==> (1u16 << i) & (1u16 << j) == 0) by (bit_vector);
}

impl Visibility {
    pub closed spec fn spec_bits(self) -> u16 {
        self.0
    }

    /// The raw mask.
    pub fn bits(self) -> (r: u16)
        ensures
            r == self.spec_bits(),
    {
        self.0
    }

    /// The mask with no slot.
    pub fn empty() -> (r: Visibility)
        ensures
            r.spec_bits() == 0,
    {
        Visibility(0)
    }

    /// The mask of `bits`, if it names known slots only; `None` when it sets a bit
    /// beyond the fifteen slots.
    pub fn from_bits(bits: u16) -> (r: Option<Visibility>)
        ensures
            bits & !known_bits() == 0 <==> r is Some,
            r matches Some(v) ==> v.spec_bits() == bits,
    {
        if bits & !0x7fffu16 == 0 {
            Some(Visibility(bits))
        } else {
            None
        }
    }

    /// Whether every slot of `other` is in this mask.
    pub fn contains(self, other: Visibility) -> (r: bool)
        ensures
            r == (self.spec_bits() & other.spec_bits() == other.spec_bits()),
    {
        self.0 & other.0 == other.0
    }

    /// The slots of either mask.
    pub fn union(self, other: Visibility) -> (r: Visibility)
        ensures
            r.spec_bits() == self.spec_bits() | other.spec_bits(),
    {
        Visibility(self.0 | other.0)
    }

    /// Reads the mask in the last two bytes (little-endian). Fewer than two bytes give
    /// `TruncatedData` with the bytes; a mask with an unknown bit gives
    /// `InvalidVisibility` with the mask.
    pub fn from_bytes(bytes: &[u8]) -> (r: Result<Visibility, ChatLinkError>)
        ensures
            bytes@.len() < 2 ==> (r matches Err(ChatLinkError::TruncatedData(v)) && v@ == bytes@),
            bytes@.len() >= 2 ==> visibility_read(bytes@, bytes@.len() - 2, r),
    {
        if bytes.len() < 2 {
            return Err(ChatLinkError::TruncatedData(vstd::slice::slice_to_vec(bytes)));
        }
        Self::read(bytes, bytes.len() - 2)
    }

    /// Reads the little-endian mask at `pos`. Fewer than two bytes from `pos` on give
    /// `TruncatedData` with those bytes; a mask with an unknown bit gives
    /// `InvalidVisibility` with the mask.
    pub fn read(bytes: &[u8], pos: usize) -> (r: Result<Visibility, ChatLinkError>)
        ensures
            pos + 2 > bytes@.len() ==> (r matches Err(ChatLinkError::TruncatedData(v)) && v@
                == (if pos <= bytes@.len() {
                bytes@.subrange(pos as int, bytes@.len() as int)
            } else {
                Seq::empty()
            })),
            pos + 2 <= bytes@.len() ==> visibility_read(bytes@, pos as int, r),
    {
        match read_u16_le(bytes, pos) {
            None => {
                let rest: Vec<u8> = if pos <= bytes.len() {
                    vstd::slice::slice_to_vec(vstd::slice::slice_subrange(bytes, pos, bytes.len()))
                } else {
                    Vec::new()
                };
                Err(ChatLinkError::TruncatedData(rest))
            },
            Some(bits) => match Self::from_bits(bits) {
                Some(v) => Ok(v),
                None => Err(ChatLinkError::InvalidVisibility(bits)),
            },
        }
    }
}

/// `r` is what reading a mask from the two bytes at `pos` gives: the mask when it
/// names known slots only, else `InvalidVisibility` with it.
pub open spec fn visibility_read(bytes: Seq<u8>, pos: int, r: Result<Visibility, ChatLinkError>) -> bool {
    let bits = le_at(bytes, pos);
    if bits & !known_bits() == 0 {
        r matches Ok(v) && v.spec_bits() == bits
    } else {
        r matches Err(ChatLinkError::InvalidVisibility(b)) && b == bits
    }
}

/// Groups of wardrobe slots.
#[derive(Debug, Clone, Copy, PartialEq, Eq, Structural)]
pub enum EquipmentCategory {
    Underwater,
    Armors,
    Weapons,
}

impl EquipmentCategory {
    /// The slots of the group, in slot order.
    pub open spec fn spec_slots(self) -> Seq<SlotType> {
        match self {
            EquipmentCategory::Underwater => seq![
                SlotType::Aquabreather,
                SlotType::WeaponAquaticA,
                SlotType::WeaponAquaticB,
            ],
            EquipmentCategory::Armors => seq![
                SlotType::Aquabreather,
                SlotType::Chest,
                SlotType::Shoes,
                SlotType::Gloves,
                SlotType::Head,
                SlotType::Legs,
                SlotType::Shoulders,
            ],
            EquipmentCategory::Weapons => seq![
                SlotType::WeaponAquaticA,
                SlotType::WeaponAquaticB,
                SlotType::WeaponA1,
                SlotType::WeaponA2,
                SlotType::WeaponB1,
                SlotType::WeaponB2,
            ],
        }
    }

    /// The slots of the group, in slot order.
    pub fn slots(&self) -> (r: Vec<SlotType>)
        ensures
            r@ == self.spec_slots(),
    {
        let r = match self {
            EquipmentCategory::Underwater => vec![
                SlotType::Aquabreather,
                SlotType::WeaponAquaticA,
                SlotType::WeaponAquaticB,
            ],
            EquipmentCategory::Armors => vec![
                SlotType::Aquabreather,
                SlotType::Chest,
                SlotType::Shoes,
                SlotType::Gloves,
                SlotType::Head,
                SlotType::Legs,
                SlotType::Shoulders,
            ],
            EquipmentCategory::Weapons => vec![
                SlotType::WeaponAquaticA,
                SlotType::WeaponAquaticB,
                SlotType::WeaponA1,
                SlotType::WeaponA2,
                SlotType::WeaponB1,
                SlotType::WeaponB2,
            ],
        };
        assert(r@ =~= self.spec_slots());
        r
    }
}

} // verus!
