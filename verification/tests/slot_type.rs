use gw2fashionista::error::ChatLinkError;
use gw2fashionista::slot_type::{EquipmentCategory, SlotType, Visibility};

#[test]
fn slot_bits_follow_the_slot_order() {
    assert_eq!(SlotType::Aquabreather.visibility().bits(), 1);
    assert_eq!(SlotType::Chest.visibility().bits(), 4);
    assert_eq!(SlotType::Outfit.visibility().bits(), 256);
    assert_eq!(SlotType::WeaponB2.visibility().bits(), 1 << 14);
}

#[test]
fn masks_with_unknown_bits_are_refused() {
    assert!(Visibility::from_bits(0x7fff).is_some());
    assert!(Visibility::from_bits(0x8000).is_none());
    assert_eq!(Visibility::from_bits(0).unwrap(), Visibility::empty());
}

#[test]
fn masks_combine() {
    let chest = SlotType::Chest.visibility();
    let legs = SlotType::Legs.visibility();
    let both = chest.union(legs);
    assert!(both.contains(chest));
    assert!(both.contains(legs));
    assert!(!chest.contains(legs));
    assert!(both.contains(Visibility::empty()));
}

#[test]
fn mask_is_read_from_the_last_two_bytes() {
    let v = Visibility::from_bytes(&[9, 9, 0x44, 0x00]).unwrap();
    assert_eq!(v.bits(), 0x44);
    assert!(matches!(
        Visibility::from_bytes(&[0xff, 0xff]),
        Err(ChatLinkError::InvalidVisibility(0xffff))
    ));
    assert!(matches!(
        Visibility::from_bytes(&[1]),
        Err(ChatLinkError::TruncatedData(v)) if v == vec![1]
    ));
    assert!(matches!(
        Visibility::read(&[1, 2, 3], 2),
        Err(ChatLinkError::TruncatedData(v)) if v == vec![3]
    ));
    assert_eq!(Visibility::read(&[1, 2, 3], 1).unwrap().bits(), 0x0302);
}

#[test]
fn categories_list_their_slots() {
    assert_eq!(
        EquipmentCategory::Underwater.slots(),
        vec![SlotType::Aquabreather, SlotType::WeaponAquaticA, SlotType::WeaponAquaticB]
    );
    assert_eq!(EquipmentCategory::Armors.slots().len(), 7);
    assert_eq!(EquipmentCategory::Weapons.slots().len(), 6);
}

#[test]
fn slot_types_know_their_dyes_and_visibility() {
    assert!(!SlotType::Aquabreather.dyable());
    assert!(SlotType::Backpack.dyable());
    assert!(SlotType::Outfit.dyable());
    assert!(!SlotType::WeaponB2.dyable());
    assert!(SlotType::Chest.always_visible());
    assert!(SlotType::Legs.always_visible());
    assert!(!SlotType::Head.always_visible());
    assert_eq!(SlotType::Aquabreather.index(), 0);
    assert_eq!(SlotType::WeaponB2.index(), 14);
    assert_eq!(SlotType::Outfit.visibility().bits(), 1 << SlotType::Outfit.index());
}
