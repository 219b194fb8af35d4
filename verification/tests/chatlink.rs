use gw2fashionista::chatlink::{decode_header, is_base64_text, strip_delimiters, ChatLink, ChatLinkType};
use gw2fashionista::error::ChatLinkError;
use gw2fashionista::slots::{TravelSlot, WardrobeSlot};
use gw2fashionista::template::Template;

const WARDROBE_ZIZI: &str = "D1sDPQkBAAEAAQABAAwAGAURBhEGAQAjABgFEQYBAAEA/AABABEGGAUYBdIDGAURBgEAAQALAAEAEQYRBgEAohYYBREGAQABAHwAAQABAAEAAQDjE6APPBI8Ej0SAAD+fg==";
const TRAVEL_EMPTY: &str = "EAAAAQABAAEAAQAAAAEAAQABAAEAAAABAAEAAQABAAAAAQABAAEAAQAAAAEAAQABAAEAAAABAAEAAQABAAAAAQABAAEAAQAAAAEAAQABAAEAAAABAAEAAQABAAAAAQABAAEAAQAAAAEAAQABAAEAAAABAAEAAQABAP8P";

#[test]
fn delimiters_come_in_pairs() {
    assert_eq!(strip_delimiters("[&abc]").unwrap(), "abc");
    assert_eq!(strip_delimiters("&abc").unwrap(), "abc");
    assert_eq!(strip_delimiters("[abc]").unwrap(), "abc");
    assert_eq!(strip_delimiters("abc").unwrap(), "abc");
    assert!(matches!(strip_delimiters("[abc"), Err(ChatLinkError::InvalidString)));
    assert!(matches!(strip_delimiters("abc]"), Err(ChatLinkError::InvalidString)));
    assert!(matches!(strip_delimiters("["), Err(ChatLinkError::InvalidString)));
    assert_eq!(strip_delimiters("[]").unwrap(), "");
}

#[test]
fn base64_text_is_recognized() {
    assert!(is_base64_text("AZaz09+/="));
    assert!(!is_base64_text("a b"));
    assert!(!is_base64_text("é"));
}

#[test]
fn header_gives_type_and_payload() {
    let (t, p) = decode_header(&[2, 9, 8]).unwrap();
    assert_eq!(t, ChatLinkType::Item);
    assert_eq!(p, &[9, 8]);
    assert!(matches!(decode_header(&[]), Err(ChatLinkError::EmptyPayload)));
    assert!(matches!(decode_header(&[0]), Err(ChatLinkError::UnknownType(0))));
    assert!(matches!(decode_header(&[17, 1]), Err(ChatLinkError::UnknownType(17))));
}

#[test]
fn type_codes_go_both_ways() {
    for code in 1u8..=16 {
        assert_eq!(ChatLinkType::from_code(code).unwrap().code(), code);
    }
    assert!(ChatLinkType::from_code(0).is_none());
    assert!(ChatLinkType::from_code(17).is_none());
    assert_eq!(ChatLinkType::WardrobeTemplate.code(), 0x0f);
    assert_eq!(ChatLinkType::TravelTemplate.code(), 0x10);
}

#[test]
fn other_links_keep_their_bytes() {
    // an item link: type byte 2, then a count and an item id
    let link = ChatLink::from_str("[&AgH2LgAA]").unwrap();
    assert_eq!(link.link_type(), ChatLinkType::Item);
    assert!(matches!(&link, ChatLink::Unparsed { bytes, .. } if bytes == &vec![1, 0xf6, 0x2e, 0, 0]));
    assert_eq!(link.encode(), vec![2, 1, 0xf6, 0x2e, 0, 0]);
    assert_eq!(link.to_string(), "[&AgH2LgAA]");
}

#[test]
fn templates_of_the_wrong_type_are_refused() {
    let err = Template::<TravelSlot>::from_str(WARDROBE_ZIZI).unwrap_err();
    assert!(matches!(
        err,
        ChatLinkError::UnexpectedType {
            expected: ChatLinkType::TravelTemplate,
            found: ChatLinkType::WardrobeTemplate
        }
    ));
    let err = Template::<WardrobeSlot>::try_from_link(ChatLink::from_str("AgH2LgAA").unwrap()).unwrap_err();
    assert!(matches!(
        err,
        ChatLinkError::UnexpectedType { expected: ChatLinkType::WardrobeTemplate, found: ChatLinkType::Item }
    ));
}

#[test]
fn a_mask_beyond_the_slots_is_refused() {
    // the empty travel template with its mask raised to 0x1fff: a thirteenth slot
    let link = ChatLink::from_str(TRAVEL_EMPTY).unwrap();
    let mut bytes = link.encode();
    let n = bytes.len();
    bytes[n - 1] = 0x1f;
    bytes[n - 2] = 0xff;
    let payload = &bytes[1..];
    assert!(matches!(
        Template::<TravelSlot>::from_bytes(payload),
        Err(ChatLinkError::InvalidVisibility(0x1fff))
    ));
}

#[test]
fn written_templates_read_back() {
    let t = Template::<WardrobeSlot>::from_str(WARDROBE_ZIZI).unwrap();
    let text = t.to_string();
    assert_eq!(text, format!("[&{}]", WARDROBE_ZIZI));
    let again = Template::<WardrobeSlot>::from_str(&text).unwrap();
    assert_eq!(again, t);
    let bytes = t.serialize();
    assert_eq!(bytes.len(), 96);
    assert_eq!(Template::<WardrobeSlot>::from_bytes(&bytes).unwrap(), t);
    let travel = Template::<TravelSlot>::from_str(TRAVEL_EMPTY).unwrap();
    assert_eq!(travel.to_string(), format!("[&{}]", TRAVEL_EMPTY));
}

#[test]
fn decoded_bytes_read_as_links() {
    let link = ChatLink::from_bytes(&[4, 0x2e, 0x04, 0, 0]).unwrap();
    assert_eq!(link.link_type(), ChatLinkType::MapLink);
    assert!(matches!(&link, ChatLink::Unparsed { bytes, .. } if bytes == &vec![0x2e, 0x04, 0, 0]));
    assert!(matches!(ChatLink::from_bytes(&[]), Err(ChatLinkError::EmptyPayload)));
    assert!(matches!(ChatLink::from_bytes(&[0x20]), Err(ChatLinkError::UnknownType(0x20))));
    assert!(matches!(ChatLink::from_bytes(&[0x0f, 1, 2]), Err(ChatLinkError::TruncatedData(v)) if v == vec![1, 2]));
    let travel = ChatLink::from_str(TRAVEL_EMPTY).unwrap();
    let bytes = travel.encode();
    assert_eq!(bytes.len(), 123);
    let again = ChatLink::from_bytes(&bytes).unwrap();
    assert_eq!(again.encode(), bytes);
}
