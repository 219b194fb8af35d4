use gw2fashionista::gw2::equipment::to_slot_type;
use gw2fashionista::slot_type::SlotType;
use gw2fashionista::gw2::equipment::{
    appearance_from, dyes_from_iter, to_wardrobe_slot, Equip, EquipmentSlot, Equipment,
};
use gw2fashionista::gw2::error::{EndpointFailure, Error, ErrorKind};
use gw2fashionista::gw2::fetch::settle_bulk;
use gw2fashionista::skins::{Appearance, Dyes, SkinId};
use gw2fashionista::slots::WardrobeSlot;

fn equip(id: u32, slot: EquipmentSlot, skin: Option<u32>, dyes: Option<Vec<Option<u16>>>) -> Equip {
    Equip { id, slot: Some(slot), skin, dyes }
}

#[test]
fn equipment_slots_map_to_wardrobe_slots() {
    assert_eq!(to_wardrobe_slot(&EquipmentSlot::HelmAquatic), Some(WardrobeSlot::Aquabreather));
    assert_eq!(to_wardrobe_slot(&EquipmentSlot::Coat), Some(WardrobeSlot::Chest));
    assert_eq!(to_wardrobe_slot(&EquipmentSlot::Boots), Some(WardrobeSlot::Shoes));
    assert_eq!(to_wardrobe_slot(&EquipmentSlot::Leggings), Some(WardrobeSlot::Legs));
    assert_eq!(to_wardrobe_slot(&EquipmentSlot::WeaponB2), Some(WardrobeSlot::WeaponB2));
    assert_eq!(to_wardrobe_slot(&EquipmentSlot::Other), None);
}

#[test]
fn dyes_come_from_the_first_four_channels() {
    assert_eq!(dyes_from_iter(&vec![Some(5), None, Some(7)]), Dyes::from_ids(5, 1, 7, 1));
    assert_eq!(dyes_from_iter(&vec![Some(2), Some(3), Some(4), Some(5), Some(6)]), Dyes::from_ids(2, 3, 4, 5));
    assert_eq!(dyes_from_iter(&vec![]), Dyes::default());
}

#[test]
fn items_give_appearances() {
    let coat = equip(1, EquipmentSlot::Coat, Some(70000), Some(vec![Some(9)]));
    assert_eq!(
        appearance_from(&WardrobeSlot::Chest, &coat),
        Appearance::Dyeable { skin: SkinId(4464), visible: true, dyes: Dyes::from_ids(9, 1, 1, 1) }
    );
    let sword = equip(2, EquipmentSlot::WeaponA1, None, None);
    assert_eq!(
        appearance_from(&WardrobeSlot::WeaponA1, &sword),
        Appearance::NonDyeable { skin: SkinId(0), visible: true }
    );
    let helm = equip(3, EquipmentSlot::Helm, Some(4), None);
    assert_eq!(
        appearance_from(&WardrobeSlot::Head, &helm),
        Appearance::Dyeable { skin: SkinId(4), visible: true, dyes: Dyes::default() }
    );
}

#[test]
fn equipment_gives_a_template() {
    let tab = Equipment::new(
        "Zizi",
        1,
        "Fashion".to_string(),
        vec![
            equip(10, EquipmentSlot::Helm, Some(4), Some(vec![Some(2), Some(3), Some(4), Some(5)])),
            equip(11, EquipmentSlot::Other, None, None),
            equip(12, EquipmentSlot::Helm, Some(6), None),
            equip(13, EquipmentSlot::WeaponA1, None, None),
            equip(13, EquipmentSlot::WeaponA2, None, None),
        ],
    );
    let t = tab.to_template();
    assert_eq!(
        t.get_slot(&WardrobeSlot::Head),
        Appearance::Dyeable { skin: SkinId(6), visible: true, dyes: Dyes::default() }
    );
    assert!(t.get_slot(&WardrobeSlot::Chest).is_empty());
    assert_eq!(
        t.get_slot(&WardrobeSlot::WeaponA1),
        Appearance::NonDyeable { skin: SkinId(0), visible: true }
    );
    let mut ids = tab.all_item_ids();
    ids.sort();
    assert_eq!(ids, vec![11, 13]);
    let other = tab.with_slots(Vec::new());
    assert_eq!(other.char_name, "Zizi");
    assert_eq!(other.tab_id, 1);
    assert!(other.to_template().iter().iter().all(|(_, a)| a.is_empty()));
}

#[test]
fn bulk_requests_settle_not_found_as_empty() {
    assert_eq!(settle_bulk::<u8>(Ok(vec![1, 2])).unwrap(), vec![1, 2]);
    let not_found = Error::from_failure("v2/items", String::new(), EndpointFailure::ApiStatus(404));
    assert!(settle_bulk::<u8>(Err(not_found)).unwrap().is_empty());
    let transient = Error::from_kind(ErrorKind::Transient);
    assert!(settle_bulk::<u8>(Err(transient)).unwrap_err().is_transient());
}

#[test]
fn items_without_a_skin_take_their_default() {
    let bare = equip(5, EquipmentSlot::Gloves, None, None);
    assert!(bare.needs_default_skin());
    let filled = bare.with_default_skin(Some(77));
    assert_eq!(filled.skin, Some(77));
    assert!(!filled.needs_default_skin());
    let kept = filled.with_default_skin(Some(88));
    assert_eq!(kept.skin, Some(77));
    assert_eq!(to_slot_type(&EquipmentSlot::Gloves), Some(SlotType::Gloves));
    assert_eq!(to_slot_type(&EquipmentSlot::HelmAquatic), Some(SlotType::Aquabreather));
    assert_eq!(to_slot_type(&EquipmentSlot::Other), None);
}
