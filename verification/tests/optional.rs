use skylanders::character::Character;
use skylanders::optional::from_base;
use skylanders::optional::to_base;
use skylanders::optional::Optional;
use skylanders::skyfigures;
use skylanders::skyutils::value_bytes;
use skylanders::skyutils::Skylander;
use skylanders::skyutils::SkylanderBase;
use skylanders::skyutils::Toy;
use skylanders::skyvariants::Variant;

fn all_kinds() -> Vec<Toy> {
    vec![
        Toy::Character(skyfigures::Character::Spyro),
        Toy::Vehicle(skyfigures::Vehicle::HotStreak),
        Toy::Trap(skyfigures::Trap::Kaos),
        Toy::Item(skyfigures::Item::Anvil),
        Toy::Expansion(skyfigures::Expansion::Dragon),
        Toy::ImaginatorCrystal(skyfigures::ImaginatorCrystal::Magic),
        Toy::Unknown(0xFFFF),
    ]
}

fn kind_fits(holder: &Optional, toy: Toy) -> bool {
    match (holder, toy) {
        (Optional::Character(_), Toy::Character(_)) => true,
        (Optional::Vehicle(_), Toy::Vehicle(_)) => true,
        (Optional::Trap(_), Toy::Trap(_)) => true,
        (Optional::Item(_), Toy::Item(_)) => true,
        (Optional::Expansion(_), Toy::Expansion(_)) => true,
        (Optional::ImaginatorCrystal(_), Toy::ImaginatorCrystal(_)) => true,
        (Optional::Unknown(_), Toy::Unknown(_)) => true,
        _ => false,
    }
}

#[test]
fn a_figure_goes_under_the_kind_of_its_toy() {
    for toy in all_kinds() {
        let base = SkylanderBase::new(toy, Variant::Series1, Some([1, 2, 3, 4]));
        let bytes = *base.data();
        let holder = from_base(base);
        assert!(kind_fits(&holder, toy));
        let back = to_base(holder).expect("a figure");
        assert_eq!(&back.data()[..], &bytes[..]);
        assert_eq!(back.get_figure(), toy);
        assert_eq!(back.get_variant(), Variant::Series1);
    }
}

#[test]
fn a_new_figure_goes_under_the_kind_of_its_toy() {
    for toy in all_kinds() {
        let holder = Optional::new(toy, Variant::Series2, None);
        assert!(kind_fits(&holder, toy));
        let base = to_base(holder).expect("a figure");
        let expected = SkylanderBase::new(toy, Variant::Series2, None);
        assert_eq!(&base.data()[..], &expected.data()[..]);
        assert_eq!(base.get_figure(), toy);
    }
}

#[test]
fn no_figure_gives_none() {
    assert!(to_base(Optional::NoFigure).is_none());
}

#[test]
fn a_loaded_figure_goes_under_the_kind_that_its_header_reads_as() {
    let mut c = Character::new(
        Toy::Character(skyfigures::Character::Spyro),
        Variant::Series1,
        None,
    );
    c.set_gold(3);
    let loaded = from_base(SkylanderBase::from_bytes(&c.to_bytes()));
    match loaded {
        Optional::Character(c) => assert_eq!(c.get_gold(), 3),
        _ => panic!("a character was saved"),
    }
}

#[test]
fn bytes_of_a_value() {
    assert_eq!(value_bytes(0x1122_3344_5566_7788, 1), vec![0x88]);
    assert_eq!(value_bytes(0x1122_3344_5566_7788, 2), vec![0x88, 0x77]);
    assert_eq!(value_bytes(0x1122_3344_5566_7788, 4), vec![0x88, 0x77, 0x66, 0x55]);
    assert_eq!(
        value_bytes(0x1122_3344_5566_7788, 8),
        vec![0x88, 0x77, 0x66, 0x55, 0x44, 0x33, 0x22, 0x11]
    );
    assert_eq!(value_bytes(300, 1), vec![44]);
    assert_eq!(value_bytes(300, 2), 300u16.to_le_bytes().to_vec());
    assert_eq!(value_bytes(300, 4), 300u32.to_le_bytes().to_vec());
    assert_eq!(value_bytes(u64::MAX, 8), vec![0xFF; 8]);
    assert_eq!(value_bytes(0, 8), vec![0; 8]);
}

#[test]
fn no_bytes_for_any_other_size() {
    for size in [0u8, 3, 5, 6, 7, 9, 16, 255] {
        assert_eq!(value_bytes(0x1234, size), Vec::<u8>::new());
    }
}
