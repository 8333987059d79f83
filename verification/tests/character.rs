use skylanders::character::level_for;
use skylanders::character::levels;
use skylanders::character::u24_to_le;
use skylanders::character::Character;
use skylanders::character::MAX_XP;
use skylanders::skyfigures;
use skylanders::skyhats::Hat;
use skylanders::skyutils::Skylander;
use skylanders::skyutils::SkylanderBase;
use skylanders::skyutils::Toy;
use skylanders::skyutils::UpgradePath;
use skylanders::skyvariants::Variant;

fn trigger_happy() -> Character {
    Character::new(
        Toy::Character(skyfigures::Character::TriggerHappy),
        Variant::Series3,
        Some([0x20, 0x24, 0x49, 0x12]),
    )
}

/// A character whose second primary and secondary areas are the current ones.
fn second_areas_current() -> Character {
    let mut c = trigger_happy();
    c.set_bytes(0x249, &[2]);
    c.set_bytes(0x89, &[1]);
    c.set_bytes(0x2D2, &[2]);
    c.set_bytes(0x112, &[1]);
    c
}

#[test]
fn a_new_character_has_nothing() {
    let c = trigger_happy();
    assert_eq!(c.get_xp(), 0);
    assert_eq!(c.get_level(), 1);
    assert_eq!(c.get_gold(), 0);
    assert_eq!(c.get_upgrades(), 0);
    assert!(c.get_upgrade_path() == UpgradePath::NoPath);
    assert!(!c.get_wowpow());
    assert_eq!(c.get_hat(), Ok(Hat::NoHat));
    assert_eq!(c.get_figure(), Toy::Character(skyfigures::Character::TriggerHappy));
    assert_eq!(c.get_variant(), Variant::Series3);
}

#[test]
fn xp_split_correctness() {
    let mut c = trigger_happy();
    c.set_xp(100_000);
    let data = c.skylander().data();
    assert_eq!(&data[0x80..0x82], &[0xE8, 0x80]);
    assert_eq!(&data[0x113..0x115], &[0x0C, 0xF8]);
    assert_eq!(&data[0x118..0x11B], &[0xAC, 0x0D, 0x00]);
    // and the same in the second area of each pair
    assert_eq!(&data[0x240..0x242], &[0xE8, 0x80]);
    assert_eq!(&data[0x2D3..0x2D5], &[0x0C, 0xF8]);
    assert_eq!(&data[0x2D8..0x2DB], &[0xAC, 0x0D, 0x00]);
    assert_eq!(c.get_xp(), 100_000);
}

#[test]
fn xp_fills_the_first_part_first() {
    let mut c = trigger_happy();
    c.set_xp(32_999);
    assert_eq!(&c.skylander().data()[0x80..0x82], &32_999u16.to_le_bytes());
    assert_eq!(&c.skylander().data()[0x113..0x115], &[0, 0]);
    c.set_xp(33_001);
    assert_eq!(&c.skylander().data()[0x80..0x82], &33_000u16.to_le_bytes());
    assert_eq!(&c.skylander().data()[0x113..0x115], &[1, 0]);
    assert_eq!(&c.skylander().data()[0x118..0x11B], &[0, 0, 0]);
    c.set_xp(96_501);
    assert_eq!(&c.skylander().data()[0x113..0x115], &63_500u16.to_le_bytes());
    assert_eq!(&c.skylander().data()[0x118..0x11B], &[1, 0, 0]);
    assert_eq!(c.get_xp(), 96_501);
}

#[test]
fn xp_round_trip_up_to_the_cap() {
    let mut c = trigger_happy();
    for xp in [0u32, 1, 999, 1000, 32_999, 33_000, 33_001, 96_499, 96_500, 96_501, 197_499, 197_500] {
        c.set_xp(xp);
        assert_eq!(c.get_xp(), xp);
    }
}

#[test]
fn xp_beyond_the_cap_is_the_cap() {
    let mut c = trigger_happy();
    for xp in [197_501u32, 200_000, 1 << 24, u32::MAX] {
        c.set_xp(xp);
        assert_eq!(c.get_xp(), 197_500);
    }
    assert_eq!(&c.skylander().data()[0x118..0x11B], &[0x88, 0x8A, 0x01]);
    assert_eq!(MAX_XP, 197_500);
}

#[test]
fn max_xp_is_the_cap() {
    let mut c = trigger_happy();
    c.max_xp();
    assert_eq!(c.get_xp(), 197_500);
    assert_eq!(c.get_level(), 20);
}

#[test]
fn level_threshold() {
    let mut c = trigger_happy();
    c.set_level(10);
    assert_eq!(c.get_xp(), 33_000);
    assert_eq!(c.get_level(), 10);
    c.set_xp(32_999);
    assert_eq!(c.get_level(), 9);
}

#[test]
fn level_round_trip() {
    let mut c = trigger_happy();
    for level in 1..=20u8 {
        c.set_level(level);
        assert_eq!(c.get_level(), level);
        assert_eq!(c.get_xp() as i32, levels(level as usize));
    }
}

#[test]
fn table_of_levels() {
    let expected = [
        -1, 0, 1000, 2200, 3800, 6000, 9000, 13000, 18200, 24800, 33000, 42700, 53900, 66600, 80800,
        96500, 113700, 132400, 152600, 174300, 197500,
    ];
    for (level, xp) in expected.iter().enumerate() {
        assert_eq!(levels(level), *xp);
    }
}

#[test]
fn level_for_every_step_of_the_table() {
    assert_eq!(level_for(0), 1);
    assert_eq!(level_for(999), 1);
    assert_eq!(level_for(1000), 2);
    assert_eq!(level_for(2199), 2);
    assert_eq!(level_for(174_299), 18);
    assert_eq!(level_for(174_300), 19);
    assert_eq!(level_for(197_499), 19);
    assert_eq!(level_for(197_500), 20);
    assert_eq!(level_for(0x7fff_ffff), 20);
    assert_eq!(level_for(u32::MAX), 20);
    for level in 1..=20usize {
        let xp = levels(level) as u32;
        assert_eq!(level_for(xp) as usize, level);
        if level > 1 {
            assert_eq!(level_for(xp - 1) as usize, level - 1);
        }
    }
}

#[test]
fn level_of_experience_written_by_hand() {
    // more than any setter writes: all three parts full
    let mut c = trigger_happy();
    c.set_bytes(0x80, &[0xFF, 0xFF]);
    c.set_bytes(0x113, &[0xFF, 0xFF]);
    c.set_bytes(0x118, &[0xFF, 0xFF, 0xFF]);
    assert_eq!(c.get_xp(), 65_535 + 65_535 + 0xFF_FFFF);
    assert_eq!(c.get_level(), 20);
}

#[test]
fn three_byte_words() {
    assert_eq!(u24_to_le(3500), [0xAC, 0x0D, 0x00]);
    assert_eq!(u24_to_le(101_000), [0x88, 0x8A, 0x01]);
    assert_eq!(u24_to_le(0xAB_CDEF_12), [0x12, 0xEF, 0xCD]);
}

#[test]
fn gold_round_trip() {
    let mut c = trigger_happy();
    c.set_gold(12_345);
    assert_eq!(c.get_gold(), 12_345);
    assert_eq!(&c.skylander().data()[0x83..0x85], &[0x39, 0x30]);
    assert_eq!(&c.skylander().data()[0x243..0x245], &[0x39, 0x30]);
    // no cap in the codec
    c.set_gold(65_001);
    assert_eq!(c.get_gold(), 65_001);
    c.max_gold();
    assert_eq!(c.get_gold(), u16::MAX);
    c.set_gold(0);
    assert_eq!(c.get_gold(), 0);
}

#[test]
fn setters_set_the_counters_and_count_as_a_change() {
    let mut c = trigger_happy();
    assert!(!c.skylander().is_modified());
    c.set_gold(1);
    let base = c.skylander();
    assert!(base.is_modified());
    assert_eq!(base.data()[0x89], 1);
    assert_eq!(base.data()[0x249], 0);
    assert_eq!(base.data()[0x112], 1);
    assert_eq!(base.data()[0x2D2], 0);
    assert_eq!(base.data()[0x93], 1);
    assert_eq!(base.data()[0x96], 1);
    assert_eq!(base.data()[0x253], 1);
    assert_eq!(base.data()[0x256], 1);
}

#[test]
fn upgrades_and_path_share_a_word() {
    let mut c = trigger_happy();
    c.set_upgrades(0b1010_0101);
    assert_eq!(c.get_upgrades(), 0b1010_0101);
    assert!(c.get_upgrade_path() == UpgradePath::NoPath);
    assert_eq!(&c.skylander().data()[0x90..0x92], &[0x94, 0x02]);
    c.set_upgrade_path(UpgradePath::Bottom);
    assert_eq!(c.get_upgrades(), 0b1010_0101);
    assert!(c.get_upgrade_path() == UpgradePath::Bottom);
    assert_eq!(&c.skylander().data()[0x90..0x92], &[0x97, 0x02]);
    assert_eq!(&c.skylander().data()[0x250..0x252], &[0x97, 0x02]);
    c.set_upgrades(0xFF);
    assert_eq!(c.get_upgrades(), 0xFF);
    assert!(c.get_upgrade_path() == UpgradePath::Bottom);
    c.set_upgrade_path(UpgradePath::Top);
    assert!(c.get_upgrade_path() == UpgradePath::Top);
    assert_eq!(c.get_upgrades(), 0xFF);
    assert_eq!(&c.skylander().data()[0x90..0x92], &[0xFD, 0x03]);
    c.set_upgrade_path(UpgradePath::NoPath);
    assert!(c.get_upgrade_path() == UpgradePath::NoPath);
    assert_eq!(c.get_upgrades(), 0xFF);
    c.set_upgrades(0);
    assert_eq!(c.get_upgrades(), 0);
    assert_eq!(&c.skylander().data()[0x90..0x92], &[0x00, 0x00]);
}

#[test]
fn the_unassigned_path_reads_as_none() {
    let mut c = trigger_happy();
    c.set_bytes(0x90, &[0b0000_0110]);
    assert!(c.get_upgrade_path() == UpgradePath::NoPath);
    assert_eq!(c.get_upgrades(), 1);
    // writing the upgrades again writes the path as it was read
    c.set_upgrades(1);
    assert_eq!(&c.skylander().data()[0x90..0x92], &[0b0000_0100, 0]);
}

#[test]
fn wowpow_round_trip() {
    let mut c = trigger_happy();
    c.set_wowpow(true);
    assert!(c.get_wowpow());
    assert_eq!(c.skylander().data()[0x116], 1);
    assert_eq!(c.skylander().data()[0x2D6], 1);
    c.set_wowpow(false);
    assert!(!c.get_wowpow());
    assert_eq!(c.skylander().data()[0x116], 0);
    c.set_bytes(0x116, &[2]);
    assert!(!c.get_wowpow());
}

#[test]
fn hat_round_trip() {
    let mut c = trigger_happy();
    c.set_hat(Hat::Tophat);
    assert_eq!(c.get_hat(), Ok(Hat::Tophat));
    assert_eq!(&c.skylander().data()[0x94..0x96], &[11, 0]);
    assert_eq!(&c.skylander().data()[0x254..0x256], &[11, 0]);
    c.set_hat(Hat::EonHelm);
    assert_eq!(c.get_hat(), Ok(Hat::EonHelm));
    assert_eq!(&c.skylander().data()[0x94..0x96], &[0x18, 0x01]);
    for hat in Hat::all() {
        c.set_hat(hat);
        assert_eq!(c.get_hat(), Ok(hat));
    }
}

#[test]
fn an_uncatalogued_hat_reads_as_none() {
    let mut c = trigger_happy();
    c.set_hat(Hat::Crown);
    c.set_bytes(0x94, &[47, 0]);
    c.set_bytes(0x254, &[47, 0]);
    assert_eq!(c.get_hat(), Ok(Hat::NoHat));
    c.set_bytes(0x94, &[0xFF, 0xFF]);
    assert_eq!(c.get_hat(), Ok(Hat::NoHat));
    // the catalogue itself still says that it has no such hat
    assert_eq!(Hat::try_from(47), Err("Invalid Hat value"));
}

#[test]
fn getters_read_the_area_with_the_higher_counter() {
    let mut c = second_areas_current();
    c.set_bytes(0x243, &[0x10, 0x27]);
    c.set_bytes(0x83, &[0x01, 0x00]);
    assert_eq!(c.get_gold(), 10_000);
    c.set_bytes(0x240, &[0xE8, 0x03]);
    c.set_bytes(0x2D3, &[0x02, 0x00]);
    c.set_bytes(0x2D8, &[0x03, 0x00, 0x00]);
    assert_eq!(c.get_xp(), 1005);
    assert_eq!(c.get_level(), 2);
    c.set_bytes(0x250, &[0b0001_0111, 0]);
    assert_eq!(c.get_upgrades(), 0b101);
    assert!(c.get_upgrade_path() == UpgradePath::Bottom);
    c.set_bytes(0x254, &[3, 0]);
    assert_eq!(c.get_hat(), Ok(Hat::Goggles));
    c.set_bytes(0x2D6, &[1]);
    assert!(c.get_wowpow());
    // with the first areas current again, what they hold is read
    c.set_bytes(0x89, &[3]);
    c.set_bytes(0x112, &[3]);
    assert_eq!(c.get_gold(), 1);
    assert_eq!(c.get_xp(), 0);
    assert!(!c.get_wowpow());
}

#[test]
fn setting_the_path_keeps_upgrades_read_from_the_second_area() {
    let mut c = second_areas_current();
    c.set_bytes(0x250, &[0b1111_0101, 0b10]);
    c.set_bytes(0x90, &[0, 0]);
    let upgrades = c.get_upgrades();
    assert_eq!(upgrades, 0b1011_1101);
    c.set_upgrade_path(UpgradePath::Bottom);
    assert_eq!(c.get_upgrades(), upgrades);
    assert!(c.get_upgrade_path() == UpgradePath::Bottom);
    // both areas now hold the word
    assert_eq!(&c.skylander().data()[0x90..0x92], &[0b1111_0111, 0b10]);
    assert_eq!(&c.skylander().data()[0x250..0x252], &[0b1111_0111, 0b10]);
}

#[test]
fn setting_upgrades_keeps_a_path_read_from_the_second_area() {
    let mut c = second_areas_current();
    c.set_bytes(0x250, &[0b01, 0]);
    c.set_bytes(0x90, &[0b11, 0]);
    assert!(c.get_upgrade_path() == UpgradePath::Top);
    c.set_upgrades(0x80);
    assert!(c.get_upgrade_path() == UpgradePath::Top);
    assert_eq!(c.get_upgrades(), 0x80);
}

#[test]
fn a_character_is_a_figure_and_back() {
    let base = SkylanderBase::new(
        Toy::Character(skyfigures::Character::Spyro),
        Variant::Series1,
        None,
    );
    let bytes = *base.data();
    let mut c = Character::from(base);
    assert_eq!(&c.skylander().data()[..], &bytes[..]);
    c.set_gold(7);
    let back: SkylanderBase = c.into();
    assert_eq!(&back.data()[0x83..0x85], &[7, 0]);
    assert_eq!(back.get_figure(), Toy::Character(skyfigures::Character::Spyro));
}

#[test]
fn a_changed_character_survives_saving_and_loading() {
    let mut c = trigger_happy();
    c.set_xp(100_000);
    c.set_gold(4321);
    c.set_hat(Hat::Crown);
    c.set_upgrades(0b11);
    c.set_upgrade_path(UpgradePath::Top);
    c.set_wowpow(true);
    let saved = c.to_bytes();
    assert_eq!(
        &saved[0x80..0x90],
        &Character::from_bytes(&saved).to_bytes()[0x80..0x90]
    );
    let loaded = Character::from_bytes(&saved);
    assert_eq!(loaded.get_xp(), 100_000);
    assert_eq!(loaded.get_level(), 15);
    assert_eq!(loaded.get_gold(), 4321);
    assert_eq!(loaded.get_hat(), Ok(Hat::Crown));
    assert_eq!(loaded.get_upgrades(), 0b11);
    assert!(loaded.get_upgrade_path() == UpgradePath::Top);
    assert!(loaded.get_wowpow());
    assert_eq!(loaded.get_figure(), Toy::Character(skyfigures::Character::TriggerHappy));
    assert_eq!(&loaded.to_bytes()[..], &saved[..]);
}

#[test]
fn saved_bytes_of_a_character_with_experience() {
    let mut c = trigger_happy();
    c.set_xp(100_000);
    let saved = c.to_bytes();
    assert_eq!(
        &saved[0x80..0x90],
        &[0xE2, 0x26, 0x4E, 0xF3, 0xAE, 0xB3, 0x08, 0x4B, 0x1D, 0xA4, 0x69, 0x62, 0x6B, 0x4F, 0x86, 0x32]
    );
    assert_eq!(
        &saved[0x90..0xA0],
        &[0x74, 0xA9, 0x7C, 0xD6, 0x58, 0xE2, 0xEA, 0x42, 0xCA, 0x98, 0xB4, 0x2E, 0x38, 0xC3, 0xC2, 0x8C]
    );
    assert_eq!(
        &saved[0x110..0x120],
        &[0xBC, 0x06, 0x87, 0xB1, 0x4D, 0x16, 0x1A, 0xF7, 0x08, 0xBE, 0x0E, 0x80, 0xB4, 0x03, 0x6B, 0xFB]
    );
    // sector 0 and the trailers are saved in the clear
    assert_eq!(&saved[..0x40], &c.skylander().data()[..0x40]);
    assert_eq!(&saved[0x70..0x80], &c.skylander().data()[0x70..0x80]);
    let loaded = Character::from_bytes(&saved);
    assert_eq!(
        &loaded.skylander().data()[0x80..0x90],
        &[0xE8, 0x80, 0x00, 0x00, 0x00, 0x00, 0x00, 0x00, 0x00, 0x01, 0x46, 0xE0, 0x6D, 0xCD, 0x4B, 0x72]
    );
    assert_eq!(
        &loaded.skylander().data()[0x110..0x120],
        &[0x96, 0xB1, 0x01, 0x0C, 0xF8, 0x00, 0x00, 0x00, 0xAC, 0x0D, 0x00, 0x00, 0x00, 0x00, 0x00, 0x00]
    );
    assert_eq!(
        &loaded.skylander().data()[0x240..0x250],
        &[0xE8, 0x80, 0x00, 0x00, 0x00, 0x00, 0x00, 0x00, 0x00, 0x00, 0x46, 0xE0, 0x6D, 0xCD, 0x2A, 0xCA]
    );
    assert_eq!(
        &loaded.skylander().data()[0x2D0..0x2E0],
        &[0x4A, 0xCA, 0x00, 0x0C, 0xF8, 0x00, 0x00, 0x00, 0xAC, 0x0D, 0x00, 0x00, 0x00, 0x00, 0x00, 0x00]
    );
}

#[test]
fn clearing_a_character_empties_it() {
    let mut c = trigger_happy();
    c.set_xp(5000);
    c.set_gold(5);
    c.clear();
    assert_eq!(c.get_xp(), 0);
    assert_eq!(c.get_gold(), 0);
    assert!(!c.skylander().is_modified());
    assert_eq!(&c.skylander().data()[..4], &[0x20, 0x24, 0x49, 0x12]);
}
