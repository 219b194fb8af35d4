use gw2fashionista::chatlink::ChatLink;
use gw2fashionista::error::ChatLinkError;
use gw2fashionista::skins::{Appearance, Dyes, SkinId};
use gw2fashionista::slots::{variants, FashionSlot, WardrobeSlot};
use gw2fashionista::template::{SlotMap, Template};

const EMPTY_TEMPLATE: &str = "DwAAAAABAAEAAQABAAAAAQABAAEAAQAAAAEAAQABAAEAAAABAAEAAQABAAAAAQABAAEAAQAAAAEAAQABAAEAAAABAAEAAQABAAAAAQABAAEAAQAAAAAAAAAAAAAAAAD/fw==";
const ZIZI_TEMPLATE: &str = "D1sDPQkBAAEAAQABAAwAGAURBhEGAQAjABgFEQYBAAEA/AABABEGGAUYBdIDGAURBgEAAQALAAEAEQYRBgEAohYYBREGAQABAHwAAQABAAEAAQDjE6APPBI8Ej0SAAD+fg==";
const ZIZI_ARMOR_TEMPLATE: &str = "DwAAPQkBAAEAAQABAAwAGAURBhEGAQAjABgFEQYBAAEA/AABABEGGAUYBdIDGAURBgEAAQALAAEAEQYRBgEAohYYBREGAQABAAAAAQABAAEAAQAAAAAAAAAAAAAAAAD/fw==";

fn empty_skin(slot: WardrobeSlot) -> Appearance {
    if slot.dyeable() {
        Appearance::Dyeable {
            skin: SkinId::default(),
            visible: true,
            dyes: Dyes::default(),
        }
    } else {
        Appearance::NonDyeable {
            skin: SkinId::default(),
            visible: true,
        }
    }
}

fn unset_dyes() -> Dyes {
    Dyes::from_ids(1, 1, 1, 1)
}

#[test]
fn test_parse_empty_link() {
    let raw = "";

    let result = ChatLink::from_str(raw);
    assert!(matches!(result, Err(ChatLinkError::EmptyPayload)));

    let raw_with_brackets = format!("[&{}]", raw);
    let result_with_brackets = ChatLink::from_str(raw_with_brackets.as_str());
    assert!(matches!(result_with_brackets, Err(ChatLinkError::EmptyPayload)));
}

#[test]
fn parse_chatlink_test_parse_not_chat_link() {
    let raw = "This is not a chat link";

    let result = ChatLink::from_str(raw);
    assert!(matches!(result, Err(ChatLinkError::InvalidString)));

    let raw_with_brackets = format!("[&{}]", raw);
    let result_with_brackets = ChatLink::from_str(raw_with_brackets.as_str());
    assert!(matches!(result_with_brackets, Err(ChatLinkError::InvalidString)));
}

#[test]
fn parse_chatlink_test_parse_invalid_base64() {
    let raw = "hello";

    let result = ChatLink::from_str(raw);
    assert!(matches!(result, Err(ChatLinkError::InvalidBase64(_))));

    let raw_with_brackets = format!("[&{}]", raw);
    let result_with_brackets = ChatLink::from_str(raw_with_brackets.as_str());
    assert!(matches!(result_with_brackets, Err(ChatLinkError::InvalidBase64(_))));
}

#[test]
fn parse_chatlink_test_parse_invalid_link_type() {
    let raw = "abcd";

    let result = ChatLink::from_str(raw);
    assert!(matches!(result, Err(ChatLinkError::UnknownType(_))));

    let raw_with_brackets = format!("[&{}]", raw);
    let result_with_brackets = ChatLink::from_str(raw_with_brackets.as_str());
    assert!(matches!(result_with_brackets, Err(ChatLinkError::UnknownType(_))));
}

#[test]
fn parse_chatlink_test_parse_invalid_length() {
    let raw = "DwAAAAABAAEAAQABAAAAAQABAAEAAQAAAAEAAQABAAEAAAABAAEAAQABAAAAAQABAAEAAQAAAAEAAQABAAEAAAABAAEAAQABAAAAAQABAAEAAQAAAAAAAAAAAAD/fw==";

    let result = ChatLink::from_str(raw);
    assert!(matches!(result, Err(ChatLinkError::TruncatedData(_))));

    let raw_with_brackets = format!("[&{}]", raw);
    let result_with_brackets = ChatLink::from_str(raw_with_brackets.as_str());
    assert!(matches!(result_with_brackets, Err(ChatLinkError::TruncatedData(_))));
}

#[test]
fn parse_chatlink_test_parse_empty() {
    let raw = EMPTY_TEMPLATE;
    let mut expected_slots = SlotMap::<WardrobeSlot>::new();
    for slot in variants::<WardrobeSlot>() {
        expected_slots.insert(slot, empty_skin(slot));
    }
    let expected_template = Template::<WardrobeSlot>::new(expected_slots);

    let result = &ChatLink::from_str(raw).unwrap();
    let ChatLink::WardrobeTemplate(actual) = result else {
        panic!("Expected WardrobeTemplate, got {result:?}");
    };

    assert_eq!(actual, &expected_template);
    for (slot, appearance) in actual.iter() {
        assert!(
            appearance.is_empty(),
            "Expect empty slot {slot:?} but got {appearance:?}"
        );
    }

    let raw_with_brackets = format!("[&{}]", raw);
    let result_with_brackets = &ChatLink::from_str(raw_with_brackets.as_str()).unwrap();

    assert!(
        matches!(result_with_brackets, ChatLink::WardrobeTemplate(actual) if actual == &expected_template)
    );

    let actual_encoded: String = result_with_brackets.to_string();
    assert_eq!(actual_encoded, raw_with_brackets);
}

#[test]
fn parse_chatlink_test_parse_zizi() {
    let raw = format!("[&{}]", ZIZI_TEMPLATE);
    let result = &ChatLink::from_str(raw.as_str()).unwrap();

    let ChatLink::WardrobeTemplate(actual) = result else {
        panic!("Expected WardrobeTemplate, got {result:?}");
    };

    for (slot, appearance) in actual.iter() {
        match appearance {
            Appearance::NonDyeable { skin, visible } => match slot {
                WardrobeSlot::WeaponB2 => {
                    assert_eq!(skin, SkinId::default(), "Expected unset skin_id for {skin:?}");
                    assert!(visible, "Expected skin to be visible for {skin:?}");
                    assert!(
                        appearance.is_empty(),
                        "Expect empty slot {slot:?} but got {appearance:?}"
                    );
                }
                WardrobeSlot::Aquabreather => {
                    assert_ne!(skin, SkinId::default(), "Expected skin_id set for {skin:?}");
                    assert!(!visible, "Expected skin to not be visible for {skin:?}");
                    assert!(!appearance.is_empty(), "Expect not empty slot {slot:?}");
                }
                WardrobeSlot::WeaponAquaticA
                | WardrobeSlot::WeaponAquaticB
                | WardrobeSlot::WeaponA1
                | WardrobeSlot::WeaponA2
                | WardrobeSlot::WeaponB1 => {
                    assert_ne!(skin, SkinId::default(), "Expected skin_id set for {skin:?}");
                    assert!(visible, "Expected skin to be visible for {skin:?}");
                    assert!(!appearance.is_empty(), "Expect not empty slot {slot:?}");
                }
                _ => panic!("Dyable skin should not be non-dyable {skin:?}"),
            },
            Appearance::Dyeable {
                skin,
                visible,
                dyes,
            } => {
                assert!(!appearance.is_empty(), "Expect not empty slot {slot:?}");
                match slot {
                    WardrobeSlot::Outfit => {
                        assert_ne!(skin, SkinId::default(), "Expected skin_id set for {skin:?}");
                        assert!(!visible, "Expected skin to not be visible for {skin:?}");
                        assert_eq!(dyes, unset_dyes(), "Expected unset dyes for {skin:?}");
                    }
                    WardrobeSlot::Backpack => {
                        assert_ne!(skin, SkinId::default(), "Expected skin_id set for {skin:?}");
                        assert!(visible, "Expected skin to be visible for {skin:?}");
                        assert_eq!(dyes, unset_dyes(), "Expected unset dyes for {skin:?}");
                    }
                    WardrobeSlot::Chest
                    | WardrobeSlot::Shoes
                    | WardrobeSlot::Gloves
                    | WardrobeSlot::Head
                    | WardrobeSlot::Legs
                    | WardrobeSlot::Shoulders => {
                        assert_ne!(skin, SkinId::default(), "Expected skin_id set for {skin:?}");
                        assert!(visible, "Expected skin to be visible for {skin:?}");
                        assert_ne!(dyes, unset_dyes(), "Expected dyes set for {skin:?}");
                    }
                    _ => panic!("Skin should not be dyable {skin:?}"),
                }
            }
        }
    }

    let actual_encoded: String = result.to_string();
    assert_eq!(actual_encoded, raw);
}

#[test]
fn test_parse_zizi_armor_only() {
    let raw = format!("[&{}]", ZIZI_ARMOR_TEMPLATE);
    let result = &ChatLink::from_str(raw.as_str()).unwrap();

    let ChatLink::WardrobeTemplate(actual) = result else {
        panic!("Expected WardrobeTemplate, got {result:?}");
    };

    for (slot, appearance) in actual.iter() {
        match appearance {
            Appearance::NonDyeable { skin, visible } => match slot {
                WardrobeSlot::WeaponAquaticA
                | WardrobeSlot::WeaponAquaticB
                | WardrobeSlot::WeaponA1
                | WardrobeSlot::WeaponA2
                | WardrobeSlot::WeaponB1
                | WardrobeSlot::WeaponB2
                | WardrobeSlot::Aquabreather => {
                    assert_eq!(skin, SkinId::default(), "Expected unset skin_id for {skin:?}");
                    assert!(visible, "Expected skin to be visible for {skin:?}");
                    assert!(
                        appearance.is_empty(),
                        "Expect empty slot {slot:?} but got {appearance:?}"
                    );
                }
                _ => panic!("Dyable skin should not be non-dyable {appearance:?}"),
            },
            Appearance::Dyeable {
                skin,
                visible,
                dyes,
            } => match slot {
                WardrobeSlot::Outfit => {
                    assert_eq!(skin, SkinId::default(), "Expected unset skin_id for {skin:?}");
                    assert!(visible, "Expected skin to be visible for {skin:?}");
                    assert_eq!(dyes, unset_dyes(), "Expected unset dyes for {skin:?}");
                    assert!(
                        appearance.is_empty(),
                        "Expect empty slot {slot:?} but got {appearance:?}"
                    );
                }
                WardrobeSlot::Backpack => {
                    assert_ne!(skin, SkinId::default(), "Expected skin_id set for {skin:?}");
                    assert!(visible, "Expected skin to be visible for {skin:?}");
                    assert_eq!(dyes, unset_dyes(), "Expected unset dyes for {skin:?}");
                    assert!(!appearance.is_empty(), "Expect not empty slot {slot:?}");
                }
                WardrobeSlot::Chest
                | WardrobeSlot::Shoes
                | WardrobeSlot::Gloves
                | WardrobeSlot::Head
                | WardrobeSlot::Legs
                | WardrobeSlot::Shoulders => {
                    assert_ne!(skin, SkinId::default(), "Expected skin_id set for {skin:?}");
                    assert!(visible, "Expected skin to be visible for {skin:?}");
                    assert_ne!(dyes, unset_dyes(), "Expected dyes set for {skin:?}");
                    assert!(!appearance.is_empty(), "Expect not empty slot {slot:?}");
                }
                _ => panic!("Skin should not be dyable {skin:?}"),
            },
        }
    }

    let actual_encoded: String = result.to_string();
    assert_eq!(actual_encoded, raw);
}
