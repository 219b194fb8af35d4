use gw2fashionista::chatlink::ChatLink;
use gw2fashionista::error::ChatLinkError;
use gw2fashionista::slots::{EquipmentCategory, TravelSlot, WardrobeSlot};
use gw2fashionista::template::{
    is_visible, visibility_bit, visibility_mask, SlotFilter, SlotFilterExt, Template,
};

const PEEKABOO_TEMPLATE: &str = "D7UfzTMeBQYA4gQGAJ4AHgUGAB4FAQCsAAYABgAeBQEANSgBAAYAHgUBAMkDHgUGAAEAAQDVAAYAHgUeBQEAoRYeBQYAAQABADIAAQABAAEAAQBoEqAPFCovKj8SAAD/fg==";
const ZIZI_TEMPLATE: &str = "D1sDPQkBAAEAAQABAAwAGAURBhEGAQAjABgFEQYBAAEA/AABABEGGAUYBdIDGAURBgEAAQALAAEAEQYRBgEAohYYBREGAQABAHwAAQABAAEAAQDjE6APPBI8Ej0SAAD+fg==";
const ZIZI_ARMOR_TEMPLATE: &str = "DwAAPQkBAAEAAQABAAwAGAURBhEGAQAjABgFEQYBAAEA/AABABEGGAUYBdIDGAURBgEAAQALAAEAEQYRBgEAohYYBREGAQABAAAAAQABAAEAAQAAAAAAAAAAAAAAAAD/fw==";

fn wardrobe(raw: &str) -> Template<WardrobeSlot> {
    Template::<WardrobeSlot>::from_str(raw).unwrap()
}

fn is_armor_or_backpack(slot: WardrobeSlot) -> bool {
    matches!(
        slot,
        WardrobeSlot::Backpack
            | WardrobeSlot::Chest
            | WardrobeSlot::Shoes
            | WardrobeSlot::Gloves
            | WardrobeSlot::Head
            | WardrobeSlot::Legs
            | WardrobeSlot::Shoulders
    )
}

#[test]
fn travel_test_payload_size() {
    assert_eq!(Template::<TravelSlot>::payload_size(), 122)
}

#[test]
fn wardrobe_test_payload_size() {
    assert_eq!(Template::<WardrobeSlot>::payload_size(), 96)
}

#[test]
fn mod_test_payload_size() {
    assert_eq!(Template::<WardrobeSlot>::payload_size(), 96)
}

#[test]
fn test_invalid_visibility() {
    let bytes = &[0xFF, 0xFF];
    let result = Template::<WardrobeSlot>::read_visibility(bytes);
    assert!(matches!(result, Err(ChatLinkError::InvalidVisibility(_))))
}

#[test]
fn test_filter_zizi() {
    let template = &wardrobe(ZIZI_TEMPLATE);

    let mut filter = SlotFilter::<WardrobeSlot>::all();
    filter.remove(WardrobeSlot::Outfit);
    filter.remove_all(&EquipmentCategory::Underwater.slots());
    filter.remove_all(&EquipmentCategory::Weapons.slots());

    let filtered = template.filter(&filter);

    let filtered_link = &ChatLink::WardrobeTemplate(filtered);
    assert_eq!(
        filtered_link.to_string(),
        format!("[&{}]", ZIZI_ARMOR_TEMPLATE)
    );
}

#[test]
fn test_merge_peekaboo_with_zizi_armor() {
    let base_template = &wardrobe(PEEKABOO_TEMPLATE);
    let armor_template = &wardrobe(ZIZI_ARMOR_TEMPLATE);

    let merged = base_template.merge(armor_template, false, false);

    for (slot, appearance) in merged.iter() {
        if is_armor_or_backpack(slot) {
            assert_eq!(appearance, armor_template.get_slot(&slot));
        } else {
            assert_eq!(appearance, base_template.get_slot(&slot));
        }
    }
}

#[test]
fn test_merge_peekaboo_with_zizi_armor_skins_only() {
    let base_template = &wardrobe(PEEKABOO_TEMPLATE);
    let armor_template = &wardrobe(ZIZI_ARMOR_TEMPLATE);

    let merged = base_template.merge(armor_template, false, true);

    for (slot, appearance) in merged.iter() {
        if is_armor_or_backpack(slot) {
            assert_eq!(appearance.skin(), armor_template.get_slot(&slot).skin());
            assert_eq!(
                appearance.is_visible(),
                armor_template.get_slot(&slot).is_visible()
            );
            assert_eq!(appearance.dyes(), base_template.get_slot(&slot).dyes());
        } else {
            assert_eq!(appearance, base_template.get_slot(&slot));
        }
    }
}

#[test]
fn test_merge_peekaboo_with_zizi_armor_dyes_only() {
    let base_template = &wardrobe(PEEKABOO_TEMPLATE);
    let armor_template = &wardrobe(ZIZI_ARMOR_TEMPLATE);

    let merged = base_template.merge(armor_template, true, false);

    for (slot, appearance) in merged.iter() {
        if is_armor_or_backpack(slot) {
            assert_eq!(appearance.skin(), base_template.get_slot(&slot).skin());
            assert_eq!(
                appearance.is_visible(),
                base_template.get_slot(&slot).is_visible()
            );
            assert_eq!(appearance.dyes(), armor_template.get_slot(&slot).dyes());
        } else {
            assert_eq!(appearance, base_template.get_slot(&slot));
        }
    }
}

#[test]
fn filtering_twice_keeps_what_both_keep() {
    let template = &wardrobe(ZIZI_TEMPLATE);
    let mut armor = SlotFilter::<WardrobeSlot>::none();
    for slot in EquipmentCategory::Armors.slots() {
        armor.insert(slot);
    }
    let mut no_aquatic = SlotFilter::<WardrobeSlot>::all();
    no_aquatic.remove_all(&EquipmentCategory::Underwater.slots());
    let mut both = armor.clone();
    both.retain_all(&[
        WardrobeSlot::Chest,
        WardrobeSlot::Shoes,
        WardrobeSlot::Gloves,
        WardrobeSlot::Head,
        WardrobeSlot::Legs,
        WardrobeSlot::Shoulders,
    ]);
    assert_eq!(template.filter(&armor).filter(&no_aquatic), template.filter(&both));
    assert_eq!(template.filter(&SlotFilter::all()), *template);
}

#[test]
fn merging_empty_or_twice_changes_nothing_more() {
    let base = &wardrobe(PEEKABOO_TEMPLATE);
    let armor = &wardrobe(ZIZI_ARMOR_TEMPLATE);
    let empty = &wardrobe("DwAAAAABAAEAAQABAAAAAQABAAEAAQAAAAEAAQABAAEAAAABAAEAAQABAAAAAQABAAEAAQAAAAEAAQABAAEAAAABAAEAAQABAAAAAQABAAEAAQAAAAAAAAAAAAAAAAD/fw==");
    assert_eq!(base.merge(empty, false, false), *base);
    assert_eq!(base.merge(armor, true, true), *base);
    for (skins, dyes) in [(false, false), (true, false), (false, true)] {
        let once = base.merge(armor, skins, dyes);
        assert_eq!(once.merge(armor, skins, dyes), once);
    }
}

#[test]
fn slot_bits_and_masks() {
    assert_eq!(visibility_bit(WardrobeSlot::Aquabreather), 1);
    assert_eq!(visibility_bit(WardrobeSlot::Chest), 4);
    assert_eq!(visibility_bit(TravelSlot::Doorway), 2);
    assert_eq!(visibility_mask::<WardrobeSlot>(), 0x7fff);
    assert_eq!(visibility_mask::<TravelSlot>(), 0x0fff);
    assert!(is_visible(WardrobeSlot::Chest, 0b0100));
    assert!(!is_visible(WardrobeSlot::Chest, 0b1011));
    assert!(is_visible(TravelSlot::Glider, 0xffff));
    assert!(!is_visible(TravelSlot::Glider, 0));
}
