use gw2fashionista::models::{
    dyable_skin_from_map, skin_from_map, AppearanceKind, ModelError, Skin, TemplateData,
};
use gw2fashionista::skins::{Appearance, Dyes, SkinId};
use gw2fashionista::slots::WardrobeSlot;
use gw2fashionista::template::{SlotMap, Template};

const ZIZI_ARMOR_TEMPLATE: &str = "DwAAPQkBAAEAAQABAAwAGAURBhEGAQAjABgFEQYBAAEA/AABABEGGAUYBdIDGAURBgEAAQALAAEAEQYRBgEAohYYBREGAQABAAAAAQABAAEAAQAAAAAAAAAAAAAAAAD/fw==";

fn skin(id: u32) -> Skin {
    Skin { id, name: None, dyes: None, visible: Some(true) }
}

#[test]
fn template_data_keeps_the_set_slots() {
    let t = Template::<WardrobeSlot>::from_str(ZIZI_ARMOR_TEMPLATE).unwrap();
    let data = TemplateData::from_template(&t);
    assert_eq!(data.len(), 7);
    assert!(!data.is_empty());
    assert!(data.get(&WardrobeSlot::Aquabreather).is_none());
    assert!(data.get(&WardrobeSlot::Outfit).is_none());
    let chest = data.get(&WardrobeSlot::Chest).unwrap();
    assert_eq!(chest.id, t.get_slot(&WardrobeSlot::Chest).skin().id() as u32);
    assert!(chest.name.is_none());
    let dyes = chest.dyes.as_ref().unwrap();
    let expected = t.get_slot(&WardrobeSlot::Chest).dyes().unwrap().to_ids();
    assert_eq!((dyes.0.id, dyes.1.id, dyes.2.id, dyes.3.id), expected);
    assert_eq!(chest.visible, Some(true));
}

#[test]
fn template_data_from_entries_keeps_the_last() {
    let data = TemplateData::<WardrobeSlot>::new(vec![
        (WardrobeSlot::Head, skin(1)),
        (WardrobeSlot::Legs, skin(2)),
        (WardrobeSlot::Head, skin(3)),
    ]);
    assert_eq!(data.len(), 2);
    assert_eq!(data.get(&WardrobeSlot::Head).unwrap().id, 3);
    assert_eq!(data.get(&WardrobeSlot::Legs).unwrap().id, 2);
    assert!(TemplateData::<WardrobeSlot>::new(Vec::new()).is_empty());
}

#[test]
fn slots_must_hold_their_kind() {
    let mut map = SlotMap::<WardrobeSlot>::new();
    map.insert(
        WardrobeSlot::Head,
        Appearance::Dyeable { skin: SkinId(5), visible: true, dyes: Dyes::default() },
    );
    assert!(TemplateData::from_map(&map).is_ok());
    assert_eq!(dyable_skin_from_map(&map, WardrobeSlot::Head).unwrap().unwrap().id, 5);
    assert!(skin_from_map(&map, WardrobeSlot::Aquabreather).unwrap().is_none());

    map.insert(
        WardrobeSlot::Aquabreather,
        Appearance::Dyeable { skin: SkinId(6), visible: true, dyes: Dyes::default() },
    );
    map.insert(WardrobeSlot::Legs, Appearance::NonDyeable { skin: SkinId(7), visible: true });
    assert_eq!(
        TemplateData::from_map(&map).unwrap_err(),
        ModelError::IncorrectSlotVariant {
            slot: WardrobeSlot::Aquabreather,
            expected: AppearanceKind::NonDyeable,
            found: AppearanceKind::Dyeable,
        }
    );
    assert_eq!(
        dyable_skin_from_map(&map, WardrobeSlot::Legs).unwrap_err(),
        ModelError::IncorrectSlotVariant {
            slot: WardrobeSlot::Legs,
            expected: AppearanceKind::Dyeable,
            found: AppearanceKind::NonDyeable,
        }
    );
}

#[test]
fn template_data_converts_back() {
    let t = Template::<WardrobeSlot>::from_str(ZIZI_ARMOR_TEMPLATE).unwrap();
    let data = TemplateData::from_template(&t);
    assert_eq!(data.to_template(), t);
    let zizi = "D1sDPQkBAAEAAQABAAwAGAURBhEGAQAjABgFEQYBAAEA/AABABEGGAUYBdIDGAURBgEAAQALAAEAEQYRBgEAohYYBREGAQABAHwAAQABAAEAAQDjE6APPBI8Ej0SAAD+fg==";
    let t = Template::<WardrobeSlot>::from_str(zizi).unwrap();
    assert_eq!(TemplateData::from_template(&t).to_template(), t);
}

#[test]
fn skins_stand_for_appearances() {
    let plain = Skin { id: 70000, name: None, dyes: None, visible: None };
    assert_eq!(
        plain.to_appearance(),
        Appearance::NonDyeable { skin: SkinId(4464), visible: true }
    );
    let mut map = SlotMap::<WardrobeSlot>::new();
    gw2fashionista::models::insert_slot(&mut map, &Some(skin(9)), WardrobeSlot::WeaponA1);
    gw2fashionista::models::insert_slot(&mut map, &None, WardrobeSlot::WeaponA2);
    assert_eq!(
        map.get(WardrobeSlot::WeaponA1),
        Some(Appearance::NonDyeable { skin: SkinId(9), visible: true })
    );
    assert_eq!(map.get(WardrobeSlot::WeaponA2), None);
}

#[test]
fn model_errors_say_what_went_wrong() {
    let e = ModelError::IncorrectSlotVariant {
        slot: WardrobeSlot::WeaponA1,
        expected: AppearanceKind::NonDyeable,
        found: AppearanceKind::Dyeable,
    };
    assert_eq!(e.message(), "WeaponA1 should be NonDyeable but was Dyeable");
}
