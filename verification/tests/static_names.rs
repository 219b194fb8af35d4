use gw2fashionista::gw2::static_names::read_file;
use gw2fashionista::slots::FashionSlotKind;

const ALL_KINDS: [FashionSlotKind; 6] = [
    FashionSlotKind::Equipment,
    FashionSlotKind::Outfit,
    FashionSlotKind::Mount,
    FashionSlotKind::Glider,
    FashionSlotKind::Skiff,
    FashionSlotKind::Doorway,
];

fn assert_names_file_parses(content: &str) {
    let file: toml::Table = toml::from_str(content).unwrap();
    let entries = match file.get("skins") {
        Some(value) => value.as_array().unwrap().clone(),
        None => Vec::new(),
    };
    for entry in entries {
        let entry = entry.as_table().unwrap();
        let keys: Vec<&String> = entry.keys().collect();
        for key in keys {
            assert!(["id", "name", "wiki", "last_checked"].contains(&key.as_str()));
        }
        assert!(entry["id"].as_integer().unwrap() > 0);
        assert!(!entry["name"].as_str().unwrap().is_empty());
        assert!(!entry["wiki"].as_str().unwrap().is_empty());
        assert!(entry["last_checked"].as_datetime().is_some());
    }
}

#[test]
fn static_names_static_data_parses() {
    for kind in ALL_KINDS {
        assert_names_file_parses(read_file(kind));
    }
}

#[test]
fn missing_static_data_parses() {
    for kind in ALL_KINDS {
        let content = gw2fashionista::gw2::missing::read_file(kind);
        let file: toml::Table = toml::from_str(content).unwrap();
        let entries = match file.get("skins") {
            Some(value) => value.as_array().unwrap().clone(),
            None => Vec::new(),
        };
        for entry in entries {
            let entry = entry.as_table().unwrap();
            assert!(entry["id"].as_integer().unwrap() > 0);
            assert!(!entry["name"].as_str().unwrap().is_empty());
            assert!(!entry["wiki"].as_str().unwrap().is_empty());
            let date = entry["last_checked"].as_datetime().unwrap().date.unwrap();
            assert!(!date.year >= 2026);
        }
    }
}

#[test]
fn static_names_keep_their_source() {
    let checked: toml::value::Datetime = "2024-05-01".parse().unwrap();
    let n = gw2fashionista::gw2::static_names::StaticName {
        id: 12,
        name: "Kodan Hood".to_string(),
        wiki: "https://wiki.guildwars2.com/wiki/Kodan_Hood".to_string(),
        last_checked: checked,
    };
    let c = n.clone();
    assert_eq!(c.name(), "Kodan Hood");
    assert_eq!(c.id, 12);
    assert_eq!(c.wiki, n.wiki);
    assert_eq!(c.last_checked, checked);
}
