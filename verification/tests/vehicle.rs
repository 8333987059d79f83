use skylanders::skyfigures::Vehicle::HotStreak;
use skylanders::skyutils::Skylander;
use skylanders::skyutils::SkylanderBase;
use skylanders::skyutils::Toy;
use skylanders::skyutils::BLOCK_SIZE;
use skylanders::skyvariants::Variant;
use skylanders::vehicle::count_bits;
use skylanders::vehicle::unary_bits;
use skylanders::vehicle::Mod;
use skylanders::vehicle::Vehicle;

const AREA_0: usize = 0x80;
const AREA_1: usize = 0x240;

fn hot_streak() -> Vehicle {
    Vehicle::new(Toy::Vehicle(HotStreak), Variant::Vehicle, None)
}

#[test]
fn test_set_get_upgrades() {
    let mut v = Vehicle::new(Toy::Vehicle(HotStreak), Variant::Vehicle, None);
    let (shield, weapon) = v.get_upgrades();

    assert_eq!(shield, 0);
    assert_eq!(weapon, 0);

    v.set_upgrades(0, 5);

    let mut bytes = [0u8; 2];
    bytes.copy_from_slice(&v.skylander().data()[AREA_0 + BLOCK_SIZE..AREA_0 + BLOCK_SIZE + 2]);
    assert_eq!(&bytes, &[0xE0, 0x03]);

    let (shield, weapon) = v.get_upgrades();

    assert_eq!(shield, 0);
    assert_eq!(weapon, 5);

    v.set_upgrades(5, 0);

    let mut bytes = [0u8; 2];
    bytes.copy_from_slice(&v.skylander().data()[AREA_0 + BLOCK_SIZE..AREA_0 + BLOCK_SIZE + 2]);
    assert_eq!(&bytes, &[0x1F, 0x00]);

    let (shield, weapon) = v.get_upgrades();

    assert_eq!(shield, 5);
    assert_eq!(weapon, 0);

    v.set_upgrades(2, 3);

    let mut bytes = [0u8; 2];
    bytes.copy_from_slice(&v.skylander().data()[AREA_0 + BLOCK_SIZE..AREA_0 + BLOCK_SIZE + 2]);
    assert_eq!(&bytes, &[0xE3, 0x00]);

    let (shield, weapon) = v.get_upgrades();

    assert_eq!(shield, 2);
    assert_eq!(weapon, 3);
}

#[test]
fn vehicle_upgrades_round_trip_for_every_pair() {
    let mut v = hot_streak();
    for shield in 0..=5u8 {
        for weapon in 0..=5u8 {
            v.set_upgrades(shield, weapon);
            assert_eq!(v.get_upgrades(), (shield, weapon));
            let data = v.skylander().data();
            assert_eq!(&data[AREA_0 + 0x10..AREA_0 + 0x12], &data[AREA_1 + 0x10..AREA_1 + 0x12]);
        }
    }
    v.set_upgrades(5, 5);
    assert_eq!(&v.skylander().data()[0x90..0x92], &[0xFF, 0x03]);
}

#[test]
fn vehicle_upgrades_count_the_set_bits() {
    let mut v = hot_streak();
    // bits 0, 2 and 4 of the shield; bit 6 of the word, the second of the weapon
    v.set_bytes(0x90, &[0b0101_0101, 0]);
    assert_eq!(v.get_upgrades(), (3, 1));
    // bits above the tenth count for nothing
    v.set_bytes(0x90, &[0, 0b1111_1100]);
    assert_eq!(v.get_upgrades(), (0, 0));
}

#[test]
fn unary_numbers_and_their_bits() {
    assert_eq!(unary_bits(0), 0);
    assert_eq!(unary_bits(1), 1);
    assert_eq!(unary_bits(2), 3);
    assert_eq!(unary_bits(3), 7);
    assert_eq!(unary_bits(4), 15);
    assert_eq!(unary_bits(5), 31);
    assert_eq!(count_bits(0), 0);
    assert_eq!(count_bits(31), 5);
    assert_eq!(count_bits(0b10101), 3);
    for n in 0..=5u8 {
        assert_eq!(count_bits(unary_bits(n)), n);
    }
}

#[test]
fn mod_codes() {
    assert_eq!(u8::from(Mod::First), 0);
    assert_eq!(u8::from(Mod::Second), 1);
    assert_eq!(u8::from(Mod::Third), 2);
    assert_eq!(u8::from(Mod::Fourth), 3);
    assert_eq!(Mod::try_from(0), Ok(Mod::First));
    assert_eq!(Mod::try_from(1), Ok(Mod::Second));
    assert_eq!(Mod::try_from(2), Ok(Mod::Third));
    assert_eq!(Mod::try_from(3), Ok(Mod::Fourth));
    assert_eq!(Mod::try_from(4), Err("Unknown Type"));
    assert_eq!(Mod::try_from(0xFF), Err("Unknown Type"));
    assert_eq!(format!("{:?}", Mod::Third), "Third");
}

#[test]
fn a_new_vehicle_has_the_first_of_everything() {
    let v = hot_streak();
    assert_eq!(v.get_performance_upgrade(), Ok(Mod::First));
    assert_eq!(v.get_speciality_mod(), Ok(Mod::First));
    assert_eq!(v.get_horn(), Ok(Mod::First));
    assert_eq!(v.get_gears(), 0);
    assert_eq!(v.get_upgrades(), (0, 0));
    assert_eq!(v.get_figure(), Toy::Vehicle(HotStreak));
    assert_eq!(v.get_variant(), Variant::Vehicle);
}

#[test]
fn performance_and_speciality_share_a_byte() {
    let mut v = hot_streak();
    v.set_performance_upgrade(Mod::Third);
    assert_eq!(v.get_performance_upgrade(), Ok(Mod::Third));
    assert_eq!(v.get_speciality_mod(), Ok(Mod::First));
    assert_eq!(v.skylander().data()[0xCE], 0x02);
    v.set_speciality_mod(Mod::Fourth);
    assert_eq!(v.get_speciality_mod(), Ok(Mod::Fourth));
    assert_eq!(v.get_performance_upgrade(), Ok(Mod::Third));
    assert_eq!(v.skylander().data()[0xCE], 0x32);
    assert_eq!(v.skylander().data()[0x28E], 0x32);
    v.set_performance_upgrade(Mod::Second);
    assert_eq!(v.get_speciality_mod(), Ok(Mod::Fourth));
    assert_eq!(v.get_performance_upgrade(), Ok(Mod::Second));
    assert_eq!(v.skylander().data()[0xCE], 0x31);
}

#[test]
fn every_pair_of_performance_and_speciality() {
    let all = [Mod::First, Mod::Second, Mod::Third, Mod::Fourth];
    let mut v = hot_streak();
    for perf in all {
        for spec in all {
            v.set_speciality_mod(spec);
            v.set_performance_upgrade(perf);
            assert_eq!(v.get_performance_upgrade(), Ok(perf));
            assert_eq!(v.get_speciality_mod(), Ok(spec));
            v.set_speciality_mod(spec);
            assert_eq!(v.get_performance_upgrade(), Ok(perf));
        }
    }
}

#[test]
fn a_modification_that_is_none_of_the_four() {
    let mut v = hot_streak();
    v.set_bytes(0xCE, &[0x4F]);
    assert_eq!(v.get_performance_upgrade(), Err("Unknown Type"));
    assert_eq!(v.get_speciality_mod(), Err("Unknown Type"));
    // writing one of the two writes the other as the first
    v.set_performance_upgrade(Mod::Second);
    assert_eq!(v.get_performance_upgrade(), Ok(Mod::Second));
    assert_eq!(v.get_speciality_mod(), Ok(Mod::First));
    assert_eq!(v.skylander().data()[0xCE], 0x01);
    v.set_bytes(0xCF, &[4]);
    assert_eq!(v.get_horn(), Err("Unknown Type"));
}

#[test]
fn horn_round_trip() {
    let mut v = hot_streak();
    for horn in [Mod::Fourth, Mod::Third, Mod::Second, Mod::First] {
        v.set_horn(horn);
        assert_eq!(v.get_horn(), Ok(horn));
        assert_eq!(v.skylander().data()[0xCF], u8::from(horn));
        assert_eq!(v.skylander().data()[0x28F], u8::from(horn));
    }
}

#[test]
fn gears_round_trip() {
    let mut v = hot_streak();
    v.set_gears(33_000);
    assert_eq!(v.get_gears(), 33_000);
    assert_eq!(&v.skylander().data()[0x118..0x11A], &[0xE8, 0x80]);
    assert_eq!(&v.skylander().data()[0x2D8..0x2DA], &[0xE8, 0x80]);
    v.set_gears(u16::MAX);
    assert_eq!(v.get_gears(), u16::MAX);
    v.set_gears(0);
    assert_eq!(v.get_gears(), 0);
}

#[test]
fn vehicle_getters_read_the_area_with_the_higher_counter() {
    let mut v = hot_streak();
    v.set_bytes(0x249, &[5]);
    v.set_bytes(0x2D2, &[5]);
    v.set_bytes(0x28E, &[0x21]);
    v.set_bytes(0x28F, &[3]);
    v.set_bytes(0x2D8, &[0x34, 0x12]);
    v.set_bytes(0x250, &[0x23, 0x00]);
    assert_eq!(v.get_performance_upgrade(), Ok(Mod::Second));
    assert_eq!(v.get_speciality_mod(), Ok(Mod::Third));
    assert_eq!(v.get_horn(), Ok(Mod::Fourth));
    assert_eq!(v.get_gears(), 0x1234);
    assert_eq!(v.get_upgrades(), (2, 1));
    // a setter keeps what it read there
    v.set_performance_upgrade(Mod::Fourth);
    assert_eq!(v.get_speciality_mod(), Ok(Mod::Third));
    assert_eq!(v.skylander().data()[0xCE], 0x23);
}

#[test]
fn a_vehicle_is_a_figure_and_back() {
    let mut v = hot_streak();
    v.set_gears(9);
    let base: SkylanderBase = v.into();
    assert_eq!(&base.data()[0x118..0x11A], &[9, 0]);
    let v = Vehicle::from(base);
    assert_eq!(v.get_gears(), 9);
}

#[test]
fn a_changed_vehicle_survives_saving_and_loading() {
    let mut v = hot_streak();
    v.set_gears(777);
    v.set_upgrades(4, 1);
    v.set_horn(Mod::Second);
    v.set_speciality_mod(Mod::Third);
    let saved = v.to_bytes();
    let loaded = Vehicle::from_bytes(&saved);
    assert_eq!(loaded.get_gears(), 777);
    assert_eq!(loaded.get_upgrades(), (4, 1));
    assert_eq!(loaded.get_horn(), Ok(Mod::Second));
    assert_eq!(loaded.get_speciality_mod(), Ok(Mod::Third));
    assert_eq!(loaded.get_performance_upgrade(), Ok(Mod::First));
    assert_eq!(loaded.get_figure(), Toy::Vehicle(HotStreak));
    assert_eq!(&loaded.to_bytes()[..], &saved[..]);
}
