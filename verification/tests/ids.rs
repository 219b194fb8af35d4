use gw2fashionista::skins::{DyeId, SkinId};
use gw2fashionista::slots::{FashionSlotKind, TravelSlot, WardrobeSlot};
use gw2fashionista::template::Template;

const ZIZI_ARMOR_TEMPLATE: &str = "DwAAPQkBAAEAAQABAAwAGAURBhEGAQAjABgFEQYBAAEA/AABABEGGAUYBdIDGAURBgEAAQALAAEAEQYRBgEAohYYBREGAQABAAAAAQABAAEAAQAAAAAAAAAAAAAAAAD/fw==";
const WARDROBE_EMPTY: &str = "DwAAAAABAAEAAQABAAAAAQABAAEAAQAAAAEAAQABAAEAAAABAAEAAQABAAAAAQABAAEAAQAAAAEAAQABAAEAAAABAAEAAQABAAAAAQABAAEAAQAAAAAAAAAAAAAAAAD/fw==";
const TRAVEL_ZIZI: &str = "EJkAGAUYBREGEQYFAH4AgwAYBYECbgK7ARgFGAUYBUoBEQYYBRgFGAXzARgFEQYYBRgFJAMRBhgFfgB+AJMBEQYYBagCDQbnAhgFEQYYBdkByAIRBhgFqAJ+AHACGAURBhEGGAWdAREGGAUYBREG+AERBhgFGAURBv8P";

fn no_duplicates<T: PartialEq>(v: &[T]) -> bool {
    v.iter().enumerate().all(|(i, x)| v[..i].iter().all(|y| y != x))
}

#[test]
fn skin_ids_of_an_empty_template() {
    let t = Template::<WardrobeSlot>::from_str(WARDROBE_EMPTY).unwrap();
    let skins = t.all_skin_ids();
    assert_eq!(skins.len(), 2);
    assert!(skins.contains(&(FashionSlotKind::Equipment, SkinId(0))));
    assert!(skins.contains(&(FashionSlotKind::Outfit, SkinId(0))));
    assert_eq!(t.all_dye_ids(), vec![DyeId(1)]);
    assert!(t.all_equipment_skin_ids().is_empty());
}

#[test]
fn skin_ids_of_an_armor_template() {
    let t = Template::<WardrobeSlot>::from_str(ZIZI_ARMOR_TEMPLATE).unwrap();
    let equipment = t.all_equipment_skin_ids();
    assert!(no_duplicates(&equipment));
    let mut expected: Vec<SkinId> = t
        .iter()
        .into_iter()
        .filter(|(slot, a)| *slot != WardrobeSlot::Outfit && !a.skin().is_empty())
        .map(|(_, a)| a.skin())
        .collect();
    expected.dedup();
    assert_eq!(equipment.len(), 7);
    for skin in &expected {
        assert!(equipment.contains(skin));
    }

    let dyes = t.all_dye_ids();
    assert!(no_duplicates(&dyes));
    for (_, a) in t.iter() {
        if let Some(d) = a.dyes() {
            for id in d.ids() {
                assert!(dyes.contains(&id));
            }
        }
    }
}

#[test]
fn travel_ids_leave_out_the_mounts() {
    let t = Template::<TravelSlot>::from_str(TRAVEL_ZIZI).unwrap();
    let ids = t.all_mount_ids();
    let glider = t.get_slot(&TravelSlot::Glider).skin();
    let doorway = t.get_slot(&TravelSlot::Doorway).skin();
    let skiff = t.get_slot(&TravelSlot::Skiff).skin();
    assert!(no_duplicates(&ids));
    assert!(ids.contains(&glider));
    assert!(ids.contains(&doorway));
    assert!(ids.contains(&skiff));
    assert!(ids.len() <= 3);
    let kinds: Vec<FashionSlotKind> = t.all_skin_ids().iter().map(|(k, _)| *k).collect();
    assert!(kinds.contains(&FashionSlotKind::Mount));
    assert!(kinds.contains(&FashionSlotKind::Glider));
    assert!(kinds.contains(&FashionSlotKind::Skiff));
    assert!(kinds.contains(&FashionSlotKind::Doorway));
}
