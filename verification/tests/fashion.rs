use gw2fashionista::chatlink::ChatLink;
use gw2fashionista::fashion::{
    merge_tags, Fashion, FashionBuilder, FashionIdentifier, FashionRecord, Tag, TagBuilder, Tags,
};
use gw2fashionista::names::{CharacterNameError, FashionNameError, TagName, TagNameError};
use gw2fashionista::slots::WardrobeSlot;
use gw2fashionista::template::Template;

const ZIZI_ARMOR_TEMPLATE: &str = "DwAAPQkBAAEAAQABAAwAGAURBhEGAQAjABgFEQYBAAEA/AABABEGGAUYBdIDGAURBgEAAQALAAEAEQYRBgEAohYYBREGAQABAAAAAQABAAEAAQAAAAAAAAAAAAAAAAD/fw==";

fn tags(names: &[&str]) -> Vec<TagName> {
    names.iter().map(|n| TagName::try_new(n).unwrap()).collect()
}

fn texts(tags: &[TagName]) -> Vec<String> {
    tags.iter().map(|t| t.as_str().to_string()).collect()
}

fn fashion(name: &str) -> Fashion {
    FashionBuilder::new().name_str(name).unwrap().build().unwrap()
}

#[test]
fn tags_list_is_split_on_commas_and_trimmed() {
    let list = Tags(" winter , Kodan,, ,rain ".to_string());
    assert_eq!(list.iter(), vec!["winter", "Kodan", "rain"]);
    assert!(Tags(String::new()).iter().is_empty());
    assert!(Tags(",,".to_string()).iter().is_empty());
}

#[test]
fn tags_list_gives_tag_names() {
    let list = Tags("Winter Look, rain".to_string());
    let names = list.tag_names().unwrap();
    assert_eq!(texts(&names), vec!["winter look", "rain"]);
}

#[test]
fn merge_tags_appends_the_new_ones() {
    let mut existing = tags(&["a", "b"]);
    merge_tags(&mut existing, &tags(&["b", "c", "c", "a", "d"]));
    assert_eq!(texts(&existing), vec!["a", "b", "c", "c", "d"]);
}

#[test]
fn patch_takes_what_is_set() {
    let template = Template::<WardrobeSlot>::from_str(ZIZI_ARMOR_TEMPLATE).unwrap();
    let base = FashionBuilder::new()
        .name_str("Old name")
        .unwrap()
        .description("old".to_string())
        .tags(tags(&["a"]))
        .created_at(7)
        .build()
        .unwrap();
    let other = FashionBuilder::new()
        .name_str("New name")
        .unwrap()
        .character_str("zizi skyhoof")
        .unwrap()
        .wardrobe_template(template.clone())
        .tags(tags(&["a", "b"]))
        .build()
        .unwrap();

    let patched = base.patch(&other);
    assert_eq!(patched.name.as_str(), "New name");
    assert_eq!(patched.description.as_deref(), Some("old"));
    assert_eq!(patched.character.as_ref().unwrap().as_str(), "Zizi Skyhoof");
    assert_eq!(patched.wardrobe_template, Some(template));
    assert!(patched.travel_template.is_none());
    assert_eq!(patched.created_at, Some(7));
    assert_eq!(texts(&patched.tags), vec!["a", "b"]);
}

#[test]
fn patch_without_tags_keeps_the_tags() {
    let base = FashionBuilder::new()
        .name_str("Base")
        .unwrap()
        .tags(tags(&["x"]))
        .build()
        .unwrap();
    let patched = base.patch(&fashion("Other"));
    assert_eq!(texts(&patched.tags), vec!["x"]);
    assert_eq!(patched.name.as_str(), "Other");
}

#[test]
fn patching_twice_is_patching_once() {
    let base = FashionBuilder::new()
        .name_str("Base")
        .unwrap()
        .description("old".to_string())
        .tags(tags(&["x", "y"]))
        .build()
        .unwrap();
    let other = FashionBuilder::new()
        .name_str("Other")
        .unwrap()
        .description("new".to_string())
        .tags(tags(&["y", "z", "z"]))
        .build()
        .unwrap();
    let once = base.clone().patch(&other);
    let twice = base.patch(&other).patch(&other);
    assert_eq!(texts(&once.tags), vec!["x", "y", "z", "z"]);
    assert_eq!(texts(&twice.tags), texts(&once.tags));
    assert_eq!(twice.description, once.description);
    assert_eq!(twice.name.as_str(), once.name.as_str());
}

#[test]
fn identifier_is_the_id_or_the_names() {
    let id = uuid::Uuid::from_u128(42);
    let with_id = fashion("A").with_id(id);
    assert!(matches!(FashionIdentifier::from_fashion(&with_id), FashionIdentifier::Id(x) if x == id));

    let named = FashionBuilder::new()
        .name_str("A  look")
        .unwrap()
        .character_str("zizi")
        .unwrap()
        .build()
        .unwrap();
    match FashionIdentifier::from_fashion(&named) {
        FashionIdentifier::NameAndCharacter { name, character } => {
            assert_eq!(name, "A look");
            assert_eq!(character.as_deref(), Some("Zizi"));
        }
        other => panic!("unexpected {other:?}"),
    }
}

#[test]
fn builder_reports_name_errors() {
    assert!(matches!(
        FashionBuilder::new().name_str("  "),
        Err(FashionNameError::Empty)
    ));
    assert!(matches!(
        FashionBuilder::new().character_str("x"),
        Err(CharacterNameError::InvalidLength(1))
    ));
    assert!(matches!(
        FashionBuilder::new().tags_str(&["ok", " "]),
        Err(TagNameError::NotEmptyViolated)
    ));
    let b = FashionBuilder::new().tags_str(&["One", "two"]).unwrap();
    assert_eq!(texts(&b.tags), vec!["one", "two"]);
    assert!(b.build().is_none());
    assert!(Fashion::builder().build().is_none());
}

#[test]
fn tag_builder_sets_name_and_count() {
    let tag = TagBuilder::new().name_str(" Rain ").unwrap().count(3).build().unwrap();
    assert_eq!(tag.name.as_str(), "rain");
    assert_eq!(tag.count, 3);
    let tag: Tag = tag.with_count(5);
    assert_eq!(tag.count, 5);
    assert!(Tag::builder().build().is_none());
    assert!(matches!(
        TagBuilder::new().name_str(""),
        Err(TagNameError::NotEmptyViolated)
    ));
}

#[test]
fn fashion_templates_print_as_links() {
    let template = Template::<WardrobeSlot>::from_str(ZIZI_ARMOR_TEMPLATE).unwrap();
    let f = FashionBuilder::new()
        .name_str("Armor")
        .unwrap()
        .wardrobe_template(template)
        .build()
        .unwrap();
    let link = ChatLink::WardrobeTemplate(f.wardrobe_template.clone().unwrap());
    assert_eq!(link.to_string(), format!("[&{}]", ZIZI_ARMOR_TEMPLATE));
}

#[test]
fn tag_lists_are_written_with_commas_and_read_back() {
    let names = tags(&["winter look", "rain", "kodan"]);
    let list = Tags::from_names(&names);
    assert_eq!(list.0, "winter look,rain,kodan");
    assert_eq!(list.iter(), vec!["winter look", "rain", "kodan"]);
    assert_eq!(Tags::from_names(&[]).0, "");
    assert!(Tags::from_names(&[]).iter().is_empty());
}

#[test]
fn records_carry_the_fashion_and_read_back() {
    let template = Template::<WardrobeSlot>::from_str(ZIZI_ARMOR_TEMPLATE).unwrap();
    let f = FashionBuilder::new()
        .name_str("Zizi")
        .unwrap()
        .character_str("zizi the kodan")
        .unwrap()
        .description("snow".to_string())
        .wardrobe_template(template)
        .tags(tags(&["winter look", "rain"]))
        .created_at(1_700_000_000_000)
        .build()
        .unwrap();
    let record = FashionRecord::from_fashion(&f);
    assert_eq!(record.tags.0, "winter look,rain");
    assert_eq!(record.name.as_str(), "Zizi");
    assert_eq!(record.character.as_ref().unwrap().as_str(), "Zizi The Kodan");
    assert_eq!(record.description.as_deref(), Some("snow"));
    assert_eq!(record.created_at, Some(1_700_000_000_000));
    assert_eq!(record.updated_at, None);
    let back = Fashion::try_from_record(record).unwrap();
    assert_eq!(texts(&back.tags), vec!["winter look", "rain"]);
    assert_eq!(back.name.as_str(), "Zizi");
    let link = ChatLink::WardrobeTemplate(back.wardrobe_template.clone().unwrap());
    assert_eq!(link.to_string(), format!("[&{}]", ZIZI_ARMOR_TEMPLATE));
}

#[test]
fn records_read_their_tag_list() {
    let f = fashion("Zizi");
    let mut record = FashionRecord::from_fashion(&f);
    assert_eq!(record.tags.0, "");
    assert!(Fashion::try_from_record(FashionRecord::from_fashion(&f)).unwrap().tags.is_empty());
    record.tags = Tags(" Rain ,, Snow   Day ".to_string());
    let back = Fashion::try_from_record(record).unwrap();
    assert_eq!(texts(&back.tags), vec!["rain", "snow day"]);
}
