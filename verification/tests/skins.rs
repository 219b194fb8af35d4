use gw2fashionista::skins::{Appearance, DyeId, Dyes, SkinId};
use gw2fashionista::slots::{EquipmentCategory, FashionSlot, FashionSlotKind, TravelCategory, TravelSlot, WardrobeSlot};
use gw2fashionista::template::{SlotFilter, SlotFilterExt, SlotMap, Template};

fn dyed(skin: u16, visible: bool, dyes: (u16, u16, u16, u16)) -> Appearance {
    Appearance::Dyeable { skin: SkinId(skin), visible, dyes: Dyes::from_ids(dyes.0, dyes.1, dyes.2, dyes.3) }
}

#[test]
fn empty_ids() {
    assert!(SkinId::new(0).is_empty());
    assert!(!SkinId::new(1).is_empty());
    assert!(DyeId::new(1).is_empty());
    assert!(!DyeId::new(0).is_empty());
    assert_eq!(SkinId::default(), SkinId(0));
    assert_eq!(DyeId::default(), DyeId(1));
    assert!(Dyes::default().is_empty());
    assert!(!Dyes::new(DyeId(1), DyeId(1), DyeId(2), DyeId(1)).is_empty());
    assert_eq!(Dyes::from_ids(1, 2, 3, 4).ids(), vec![DyeId(1), DyeId(2), DyeId(3), DyeId(4)]);
}

#[test]
fn ids_are_read_little_endian() {
    let bytes = [0x34, 0x12, 1, 0, 2, 0, 3, 0, 4, 0];
    assert_eq!(SkinId::from_cursor(&bytes, 0), Some(SkinId(0x1234)));
    assert_eq!(DyeId::from_cursor(&bytes, 8), Some(DyeId(4)));
    assert_eq!(DyeId::from_cursor(&bytes, 9), None);
    assert_eq!(Dyes::from_cursor(&bytes, 2), Some(Dyes::from_ids(1, 2, 3, 4)));
    assert_eq!(Dyes::from_cursor(&bytes, 3), None);
}

#[test]
fn appearances_read_and_write() {
    let bytes = [0x34, 0x12, 1, 0, 2, 0, 3, 0, 4, 0];
    let (a, next) = Appearance::read(&bytes, 0, true, false).unwrap();
    assert_eq!(a, dyed(0x1234, false, (1, 2, 3, 4)));
    assert_eq!(next, 10);
    let (b, next) = Appearance::read(&bytes, 2, false, true).unwrap();
    assert_eq!(b, Appearance::NonDyeable { skin: SkinId(1), visible: true });
    assert_eq!(next, 4);
    assert!(Appearance::read(&bytes, 1, true, true).is_none());
    let mut out = Vec::new();
    a.serialize(&mut out);
    assert_eq!(out, bytes.to_vec());
    assert_eq!(Appearance::encoded_size(true), 10);
    assert_eq!(Appearance::encoded_size(false), 2);
}

#[test]
fn merge_takes_what_is_not_ignored() {
    let base = dyed(10, true, (2, 3, 4, 5));
    let other = dyed(20, false, (6, 7, 8, 9));
    assert_eq!(base.merge(&other, false, false), other);
    assert_eq!(base.merge(&other, true, true), base);
    assert_eq!(base.merge(&other, true, false), dyed(10, true, (6, 7, 8, 9)));
    assert_eq!(base.merge(&other, false, true), dyed(20, false, (2, 3, 4, 5)));
    assert_eq!(base.merge(&Appearance::empty(true), false, false), base);
    assert_eq!(Appearance::empty(false), Appearance::NonDyeable { skin: SkinId(0), visible: true });
    // merging twice is merging once
    let once = base.merge(&other, true, false);
    assert_eq!(once.merge(&other, true, false), once);
}

#[test]
fn slots_and_categories() {
    assert_eq!(WardrobeSlot::count(), 15);
    assert_eq!(TravelSlot::count(), 12);
    assert!(WardrobeSlot::Outfit.dyeable());
    assert!(!WardrobeSlot::WeaponA1.dyeable());
    assert!(WardrobeSlot::Legs.always_visible());
    assert!(!WardrobeSlot::Head.always_visible());
    assert_eq!(WardrobeSlot::Outfit.kind(), FashionSlotKind::Outfit);
    assert_eq!(TravelSlot::Skiff.kind(), FashionSlotKind::Skiff);
    assert_eq!(TravelSlot::Turtle.kind(), FashionSlotKind::Mount);
    assert!(TravelSlot::Griffon.is_mount());
    assert!(!TravelSlot::Glider.is_mount());
    assert_eq!(TravelCategory::Mount.slots().len(), 9);
    assert_eq!(EquipmentCategory::Armors.slots().len(), 7);
    for i in 0..WardrobeSlot::count() {
        assert_eq!(WardrobeSlot::from_index(i).index(), i);
    }
}

#[test]
fn filters_and_maps() {
    let mut f = SlotFilter::<TravelSlot>::none();
    assert!(!f.contains(TravelSlot::Glider));
    f.insert(TravelSlot::Glider);
    assert!(f.contains(TravelSlot::Glider));
    f.invert();
    assert!(!f.contains(TravelSlot::Glider));
    assert!(f.contains(TravelSlot::Jackal));
    let mut all = SlotFilter::<TravelSlot>::all();
    all.retain_all(&TravelCategory::Mount.slots());
    assert!(!all.contains(TravelSlot::Skiff));
    assert!(all.contains(TravelSlot::Raptor));

    let mut m = SlotMap::<TravelSlot>::new();
    assert_eq!(m.len(), 0);
    m.insert(TravelSlot::Skiff, dyed(3, true, (1, 1, 1, 1)));
    assert!(m.contains_key(TravelSlot::Skiff));
    assert_eq!(m.len(), 1);
    m.remove(TravelSlot::Skiff);
    assert!(!m.contains_key(TravelSlot::Skiff));

    let t = Template::<TravelSlot>::new(SlotMap::new());
    assert!(t.iter().iter().all(|(_, a)| a.is_empty()));
    assert_eq!(t.as_map(false).len(), 0);
    assert_eq!(t.as_map(true).len(), 12);
    assert_eq!(t.filter(&SlotFilter::none()), t);
}

#[test]
fn slots_are_named_in_snake_case() {
    assert_eq!(WardrobeSlot::WeaponAquaticA.name(), "weapon_aquatic_a");
    assert_eq!(WardrobeSlot::from_name("weapon_b1"), Some(WardrobeSlot::WeaponB1));
    assert_eq!(WardrobeSlot::from_name("Head"), None);
    assert_eq!(TravelSlot::from_name("skyscale"), Some(TravelSlot::Skyscale));
    assert_eq!(TravelSlot::Skiff.name(), "skiff");
    assert_eq!(EquipmentCategory::from_name("armors"), Some(EquipmentCategory::Armors));
    assert_eq!(TravelCategory::Mount.name(), "mount");
    assert_eq!(TravelCategory::from_name("mounts"), None);
    for slot in gw2fashionista::slots::variants::<WardrobeSlot>() {
        assert_eq!(WardrobeSlot::from_name(slot.name()), Some(slot));
    }
    for slot in gw2fashionista::slots::variants::<TravelSlot>() {
        assert_eq!(TravelSlot::from_name(slot.name()), Some(slot));
    }
}

#[test]
fn ids_convert_to_and_from_integers() {
    assert_eq!(SkinId::from(4464u16), SkinId(4464));
    assert_eq!(u16::from(SkinId(4464)), 4464);
    assert_eq!(u32::from(SkinId(65535)), 65535u32);
    assert_eq!(DyeId::from(9u16), DyeId(9));
    assert_eq!(u16::from(DyeId(9)), 9);
    assert_eq!(u32::from(DyeId(1)), 1u32);
    let raw: u16 = SkinId(12).into();
    assert_eq!(raw, 12);
}
