use gw2fashionista::names::{
    capitalize_character_name, capitalize_word, is_allowed_character_name_char, judge_fashion_name,
    normalize_char_name, normalize_whitespaces, validate_character_name, validate_fashion_name,
    CharacterName, CharacterNameError, FashionName, FashionNameError, TagName, TagNameError,
};
use gw2fashionista::fashion::{FashionBuilder, TagBuilder};
use gw2fashionista::text::{collapse_whitespace, is_white_space, trim, word_ranges};

#[test]
fn fashion_name_is_trimmed_and_single_spaced() {
    let name = FashionName::try_new("  Zizi \t in   the  rain \n").unwrap();
    assert_eq!(name.as_str(), "Zizi in the rain");
}

#[test]
fn fashion_name_reads_back_as_itself() {
    let name = FashionName::try_new("  Kodan \u{3000} winter  ").unwrap();
    let again = FashionName::try_new(name.as_str()).unwrap();
    assert_eq!(name, again);
    assert_eq!(again.into_inner(), "Kodan winter");
}

#[test]
fn fashion_name_empty_is_refused() {
    assert!(matches!(FashionName::try_new(""), Err(FashionNameError::Empty)));
    assert!(matches!(FashionName::try_new(" \t\n "), Err(FashionNameError::Empty)));
}

#[test]
fn fashion_name_uuid_is_refused() {
    let uuid = "67e55044-10b1-426f-9247-bb680e5fe0c8";
    assert!(matches!(FashionName::try_new(uuid), Err(FashionNameError::IsUuid)));
    assert!(matches!(
        FashionName::try_new(" 67e5504410b1426f9247bb680e5fe0c8 "),
        Err(FashionNameError::IsUuid)
    ));
    assert!(matches!(
        validate_fashion_name("{67e55044-10b1-426f-9247-bb680e5fe0c8}"),
        Err(FashionNameError::IsUuid)
    ));
    assert!(validate_fashion_name("67e55044-10b1-426f-9247-bb680e5fe0c").is_ok());
}

#[test]
fn fashion_name_verdict_takes_the_uuid_answer() {
    assert_eq!(judge_fashion_name("", true), Err(FashionNameError::Empty));
    assert_eq!(judge_fashion_name("x", true), Err(FashionNameError::IsUuid));
    assert_eq!(judge_fashion_name("x", false), Ok(()));
}

#[test]
fn character_name_is_capitalized() {
    let name = CharacterName::try_new("  zIZÏ   skyHOOF ").unwrap();
    assert_eq!(name.as_str(), "Zizï Skyhoof");
    assert_eq!(normalize_char_name("kodan\t\tWARRIOR"), "Kodan Warrior");
    assert_eq!(capitalize_character_name("élan vital"), "Élan Vital");
    assert_eq!(capitalize_word("hELLO"), "Hello");
    assert_eq!(capitalize_word(""), "");
}

#[test]
fn character_name_length_counts_bytes() {
    assert!(matches!(
        CharacterName::try_new("ab"),
        Err(CharacterNameError::InvalidLength(2))
    ));
    assert!(matches!(
        validate_character_name("Abcdefghij Klmnopqrst"),
        Err(CharacterNameError::InvalidLength(21))
    ));
    // ten two-byte letters: twenty bytes
    assert!(matches!(
        validate_character_name("éééééééééé"),
        Err(CharacterNameError::InvalidLength(20))
    ));
    assert!(validate_character_name("ééééééééé").is_ok());
    assert!(validate_character_name("Abc").is_ok());
}

#[test]
fn character_name_with_other_characters_is_refused() {
    assert!(matches!(
        CharacterName::try_new("Zizi 7 Sky"),
        Err(CharacterNameError::InvalidCharacter('7'))
    ));
    assert!(matches!(
        validate_character_name("Zi-zi"),
        Err(CharacterNameError::InvalidCharacter('-'))
    ));
    assert!(is_allowed_character_name_char('Œ'));
    assert!(is_allowed_character_name_char(' '));
    assert!(!is_allowed_character_name_char('ø'));
    assert!(!is_allowed_character_name_char('_'));
}

#[test]
fn tag_name_is_lowercase_and_single_spaced() {
    let tag = TagName::try_new("  Winter   LOOK ").unwrap();
    assert_eq!(tag.as_str(), "winter look");
    assert!(matches!(TagName::try_new("   "), Err(TagNameError::NotEmptyViolated)));
}

#[test]
fn whitespace_runs_become_one_space() {
    assert_eq!(normalize_whitespaces("a \t\n b"), "a b");
    assert_eq!(normalize_whitespaces("  a  "), " a ");
    assert_eq!(collapse_whitespace("x\u{2003}\u{2003}y"), "x y");
    assert_eq!(collapse_whitespace(""), "");
}

#[test]
fn trim_drops_outer_whitespace() {
    assert_eq!(trim("  a b \n"), "a b");
    assert_eq!(trim("\u{a0}x\u{85}"), "x");
    assert_eq!(trim("   "), "");
    assert!(is_white_space('\u{3000}'));
    assert!(!is_white_space('x'));
}

#[test]
fn words_are_found() {
    let s = "  ab c   def ";
    let ranges = word_ranges(s);
    let words: Vec<&str> = ranges.iter().map(|&(a, b)| &s[a..b]).collect();
    assert_eq!(words, vec!["ab", "c", "def"]);
    assert!(word_ranges("   ").is_empty());
}

#[test]
fn errors_say_what_went_wrong() {
    assert_eq!(FashionNameError::Empty.message(), "Fashion name is empty");
    assert_eq!(FashionNameError::IsUuid.message(), "Fashion name is a UUID");
    assert_eq!(
        CharacterNameError::InvalidLength(21).message(),
        "Invalid character name length: 21"
    );
    assert_eq!(
        CharacterNameError::InvalidLength(0).message(),
        "Invalid character name length: 0"
    );
    assert_eq!(
        CharacterNameError::InvalidCharacter('7').message(),
        "Character name includes invalid characters: '7'"
    );
    assert_eq!(
        CharacterNameError::InvalidCharacter('\n').message(),
        "Character name includes invalid characters: '\\n'"
    );
    assert_eq!(gw2fashionista::text::decimal_text(1234567), "1234567");
}

#[test]
fn tag_names_are_refused_exactly_when_blank() {
    assert!(TagName::try_new("").is_err());
    assert!(TagName::try_new(" \t\u{3000}\n ").is_err());
    assert_eq!(TagName::try_new("  İ  ").unwrap().as_str(), "i\u{307}");
    assert_eq!(TagName::try_new(" x ").unwrap().as_str(), "x");
}

#[test]
fn every_uuid_form_is_refused_as_a_fashion_name() {
    let forms = [
        "550e8400e29b41d4a716446655440000",
        "550E8400-E29B-41D4-A716-446655440000",
        "{550e8400-e29b-41d4-a716-446655440000}",
        "URN:uuid:550e8400-e29b-41d4-a716-446655440000",
    ];
    for f in forms {
        assert_eq!(validate_fashion_name(f), Err(FashionNameError::IsUuid), "{f}");
    }
    let not_uuids = [
        "550e8400e29b41d4a716446655440000f",
        "550e8400-e29b-41d4-a716+446655440000",
        "(550e8400-e29b-41d4-a716-446655440000)",
        "urn:uuid:550e8400e29b41d4a716446655440000",
        "g50e8400e29b41d4a716446655440000",
    ];
    for f in not_uuids {
        assert_eq!(validate_fashion_name(f), Ok(()), "{f}");
    }
}

#[test]
fn tag_builders_fail_exactly_on_a_blank_tag() {
    assert!(TagBuilder::new().name_str("  ").is_err());
    assert!(TagBuilder::new().name_str(" Rain ").is_ok());
    assert!(FashionBuilder::new().tags_str(&["rain", " \t "]).is_err());
    let b = FashionBuilder::new().tags_str(&["Rain", " snow  day "]).unwrap();
    assert_eq!(b.tags.iter().map(|t| t.as_str()).collect::<Vec<_>>(), vec!["rain", "snow day"]);
}
