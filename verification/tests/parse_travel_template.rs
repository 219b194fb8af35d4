use gw2fashionista::chatlink::ChatLink;
use gw2fashionista::error::ChatLinkError;
use gw2fashionista::skins::{Appearance, Dyes, SkinId};
use gw2fashionista::slots::{variants, TravelSlot};
use gw2fashionista::template::{SlotMap, Template};

const EMPTY_TEMPLATE: &str = "EAAAAQABAAEAAQAAAAEAAQABAAEAAAABAAEAAQABAAAAAQABAAEAAQAAAAEAAQABAAEAAAABAAEAAQABAAAAAQABAAEAAQAAAAEAAQABAAEAAAABAAEAAQABAAAAAQABAAEAAQAAAAEAAQABAAEAAAABAAEAAQABAP8P";
const PEEKABOO_TEMPLATE: &str = "EJAABgDiBOIEHgUFAB4F4gTiBOIEbgIeBeIEHgXiBEoBBgAeBUgF4gTzAeIEHgVIBR4FJAPiBOIEHgVIBZMBBgAeBeIESAXnAkgFHgXiBOIEyAIGAB4F4gRIBXAC4gQGAAYAXwHDAR4F4gQeBeIE+AEeBeIESAUeBf8P";
const ZIZI_TEMPLATE: &str = "EJkAGAUYBREGEQYFAH4AgwAYBYECbgK7ARgFGAUYBUoBEQYYBRgFGAXzARgFEQYYBRgFJAMRBhgFfgB+AJMBEQYYBagCDQbnAhgFEQYYBdkByAIRBhgFqAJ+AHACGAURBhEGGAWdAREGGAUYBREG+AERBhgFGAURBv8P";

fn empty_skin() -> Appearance {
    Appearance::Dyeable {
        skin: SkinId::default(),
        visible: true,
        dyes: Dyes::default(),
    }
}

fn assert_all_slots_set(raw: &str) {
    let result = &ChatLink::from_str(raw).unwrap();

    let ChatLink::TravelTemplate(actual) = result else {
        panic!("Expected TravelTemplate, got {result:?}");
    };

    for (slot, appearance) in actual.iter() {
        match appearance {
            Appearance::Dyeable {
                skin,
                visible,
                dyes,
            } => {
                assert!(visible, "Expected skin to be visible for {skin:?}");
                assert!(!appearance.is_empty(), "Expect not empty slot {slot:?}");
                match slot {
                    TravelSlot::Glider
                    | TravelSlot::Doorway
                    | TravelSlot::Jackal
                    | TravelSlot::Griffon
                    | TravelSlot::Springer
                    | TravelSlot::Skimmer
                    | TravelSlot::Raptor
                    | TravelSlot::Beetle
                    | TravelSlot::Warclaw
                    | TravelSlot::Skyscale
                    | TravelSlot::Skiff
                    | TravelSlot::Turtle => {
                        assert_ne!(skin, SkinId::default(), "Expected skin_id set for {skin:?}");
                        assert!(visible, "Expected skin to be visible for {skin:?}");
                        assert_ne!(
                            dyes,
                            Dyes::from_ids(1, 1, 1, 1),
                            "Expected dyes set for {skin:?}"
                        );
                    }
                }
            }
            _ => panic!("Travel template slot {slot:?} should be dyeable"),
        }
    }

    let actual_encoded: String = result.to_string();
    assert_eq!(actual_encoded, raw);
}

#[test]
fn parse_travel_template_test_parse_not_chat_link() {
    let raw = "This is not a chat link";

    let result = ChatLink::from_str(raw);
    assert!(matches!(result, Err(ChatLinkError::InvalidString)));

    let raw_with_brackets = format!("[&{}]", raw);
    let result_with_brackets = ChatLink::from_str(raw_with_brackets.as_str());
    assert!(matches!(result_with_brackets, Err(ChatLinkError::InvalidString)));
}

#[test]
fn parse_travel_template_test_parse_invalid_base64() {
    let raw = "hello";

    let result = ChatLink::from_str(raw);
    assert!(matches!(result, Err(ChatLinkError::InvalidBase64(_))));

    let raw_with_brackets = format!("[&{}]", raw);
    let result_with_brackets = ChatLink::from_str(raw_with_brackets.as_str());
    assert!(matches!(result_with_brackets, Err(ChatLinkError::InvalidBase64(_))));
}

#[test]
fn parse_travel_template_test_parse_invalid_link_type() {
    let raw = "abcd";

    let result = ChatLink::from_str(raw);
    assert!(matches!(result, Err(ChatLinkError::UnknownType(_))));

    let raw_with_brackets = format!("[&{}]", raw);
    let result_with_brackets = ChatLink::from_str(raw_with_brackets.as_str());
    assert!(matches!(result_with_brackets, Err(ChatLinkError::UnknownType(_))));
}

#[test]
fn parse_travel_template_test_parse_invalid_length() {
    let raw = "EAAAAQABAAEAAQAAAAEAAQABAAEAAAABAAEAAQABAAAAAQABAAEAAQAAAAEAAQABAAEBAAEAAQABAAAAAQABAAEAAQAAAAEAAQABAAEAAAABAAEAAQABAAAAAQABAAEAAQAAAAEAAQABAAEAAAABAAEAAQABAP8P";

    let result = ChatLink::from_str(raw);
    assert!(matches!(result, Err(ChatLinkError::TruncatedData(_))));

    let raw_with_brackets = format!("[&{}]", raw);
    let result_with_brackets = ChatLink::from_str(raw_with_brackets.as_str());
    assert!(matches!(result_with_brackets, Err(ChatLinkError::TruncatedData(_))));
}

#[test]
fn parse_travel_template_test_parse_empty() {
    let raw = EMPTY_TEMPLATE;
    let mut expected_slots = SlotMap::<TravelSlot>::new();
    for slot in variants::<TravelSlot>() {
        expected_slots.insert(slot, empty_skin());
    }
    let expected_template = Template::<TravelSlot>::new(expected_slots);

    let result = &ChatLink::from_str(raw).unwrap();
    let ChatLink::TravelTemplate(actual) = result else {
        panic!("Expected TravelTemplate, got {result:?}");
    };

    assert_eq!(actual, &expected_template);
    for (slot, appearance) in actual.iter() {
        assert!(
            appearance.is_empty(),
            "Expect empty slot {slot:?} but got {appearance:?}"
        );
    }

    let raw_with_brackets = format!("[&{}]", raw);
    let result_with_brackets = &ChatLink::from_str(raw_with_brackets.as_str()).unwrap();

    assert!(
        matches!(result_with_brackets, ChatLink::TravelTemplate(actual) if actual == &expected_template)
    );

    let actual_encoded: String = result_with_brackets.to_string();
    assert_eq!(actual_encoded, raw_with_brackets);
}

#[test]
fn test_parse_peekaboo() {
    assert_all_slots_set(&format!("[&{}]", PEEKABOO_TEMPLATE));
}

#[test]
fn parse_travel_template_test_parse_zizi() {
    assert_all_slots_set(&format!("[&{}]", ZIZI_TEMPLATE));
}
