use skylanders::skyfigures::Character;
use skylanders::skyutils::area_bounds;
use skylanders::skyutils::calculate_checksums;
use skylanders::skyutils::calculate_key_a;
use skylanders::skyutils::encryption_skylander;
use skylanders::skyutils::get_figure_type;
use skylanders::skyutils::key_a_to_bytes;
use skylanders::skyutils::make_block_seed;
use skylanders::skyutils::new_tag;
use skylanders::skyutils::u16_from_le;
use skylanders::skyutils::u16_to_le;
use skylanders::skyutils::update_used;
use skylanders::skyutils::window_crc;
use skylanders::skyutils::write_sector_trailer;
use skylanders::skyutils::Skylander;
use skylanders::skyutils::SkylanderBase;
use skylanders::skyutils::Toy;
use skylanders::skyutils::NUM_BLOCKS;
use skylanders::skyutils::NUM_BYTES;
use skylanders::skyvariants::Variant;

const UID: [u8; 4] = [0x20, 0x24, 0x49, 0x12];

fn trigger_happy() -> SkylanderBase {
    SkylanderBase::new(Toy::Character(Character::TriggerHappy), Variant::Series3, Some(UID))
}

#[test]
fn crc16_has_the_check_value_of_ccitt_false() {
    let mut data = [0u8; NUM_BYTES];
    data[..9].copy_from_slice(b"123456789");
    assert_eq!(window_crc(&data, 0, 9, 0, 0, 0), 0x29B1);
}

#[test]
fn window_crc_joins_two_stretches_and_padding() {
    let mut data = [0u8; NUM_BYTES];
    data[..9].copy_from_slice(b"123456789");
    data[100..104].copy_from_slice(b"1234");
    data[200..205].copy_from_slice(b"56789");
    assert_eq!(window_crc(&data, 100, 4, 200, 5, 0), 0x29B1);
    assert_ne!(window_crc(&data, 100, 4, 200, 5, 1), 0x29B1);
    // nine digits and 7 zero bytes are the first 16 bytes of the tag
    assert_eq!(window_crc(&data, 0, 9, 0, 0, 7), window_crc(&data, 0, 16, 0, 0, 0));
}

#[test]
fn little_endian_words() {
    assert_eq!(u16_to_le(0x2205), [0x05, 0x22]);
    assert_eq!(u16_from_le(0x05, 0x22), 0x2205);
    assert_eq!(u16_to_le(33000), [0xE8, 0x80]);
    assert_eq!(u16_from_le(0xFF, 0xFF), 0xFFFF);
    assert_eq!(key_a_to_bytes(0x1122_3344_5566_7788), [0x88, 0x77, 0x66, 0x55, 0x44, 0x33]);
}

#[test]
fn new_tag_has_the_manufacturer_block() {
    let sky = trigger_happy();
    let data = sky.data();
    assert_eq!(&data[..4], &UID);
    assert_eq!(data[4], 0x20 ^ 0x24 ^ 0x49 ^ 0x12);
    assert_eq!(data[4], 0x5F);
    assert_eq!(data[5], 0x81);
    assert_eq!(&data[6..8], &[0x01, 0x0F]);
    assert_eq!(&data[8..0x10], &[0u8; 8]);
}

#[test]
fn new_tag_has_the_toy_header_and_its_checksum() {
    let sky = trigger_happy();
    let data = sky.data();
    assert_eq!(&data[0x10..0x12], &[19, 0]);
    assert_eq!(&data[0x12..0x1C], &[0u8; 10]);
    assert_eq!(&data[0x1C..0x1E], &[0x05, 0x22]);
    assert_eq!(&data[0x1E..0x20], &[0x36, 0x4E]);
    assert_eq!(window_crc(data, 0, 0x1E, 0, 0, 0), u16_from_le(data[0x1E], data[0x1F]));
    assert_eq!(&data[0x20..0x30], &[0u8; 16]);
}

#[test]
fn new_tag_has_the_trailer_of_sector_0() {
    let sky = trigger_happy();
    let data = sky.data();
    assert_eq!(&data[0x30..0x36], &[0x4B, 0x0B, 0x20, 0x10, 0x7C, 0xCB]);
    assert_eq!(&data[0x36..0x3A], &[0x0F, 0x0F, 0x0F, 0x69]);
    assert_eq!(&data[0x3A..0x40], &[0u8; 6]);
}

#[test]
fn new_tag_has_derived_keys_in_the_other_trailers() {
    let sky = trigger_happy();
    let data = sky.data();
    assert_eq!(&data[64 + 48..64 + 54], &[0xEE, 0x3E, 0x0E, 0x0D, 0xE5, 0xC3]);
    assert_eq!(&data[64 * 15 + 48..64 * 15 + 54], &[0xE5, 0xBC, 0xB5, 0xEB, 0x53, 0x2D]);
    for sector in 1..16 {
        let trailer = 64 * sector + 48;
        assert_eq!(&data[trailer + 6..trailer + 10], &[0x7F, 0x0F, 0x08, 0x69]);
        assert_eq!(&data[trailer + 10..trailer + 16], &[0u8; 6]);
        // the data blocks of the sector are empty
        assert_eq!(&data[64 * sector..trailer], &[0u8; 48][..]);
    }
}

#[test]
fn new_tag_without_identifying_bytes_has_four_zeros() {
    let sky = SkylanderBase::new(Toy::Character(Character::TriggerHappy), Variant::Series3, None);
    let data = sky.data();
    assert_eq!(&data[..5], &[0u8; 5]);
    assert_eq!(&data[0x1E..0x20], &[0x78, 0x05]);
    assert_eq!(&data[64 + 48..64 + 54], &[0x8B, 0x23, 0x42, 0x6B, 0x30, 0x82]);
    assert_eq!(&data[64 * 7 + 48..64 * 7 + 54], &[0x54, 0xCF, 0x00, 0x65, 0x75, 0xE4]);
    assert_eq!(&new_tag(19, 0x2205, &[0; 4])[..], &data[..]);
}

#[test]
fn new_figure_keeps_toy_and_variant() {
    let sky = trigger_happy();
    assert_eq!(sky.get_figure(), Toy::Character(Character::TriggerHappy));
    assert_eq!(sky.get_variant(), Variant::Series3);
    assert!(!sky.is_modified());
}

#[test]
fn new_figure_uses_sector_0_and_the_trailers() {
    let sky = trigger_happy();
    let used = sky.used();
    for block in 0..NUM_BLOCKS {
        // block 2 is empty; of the others, only block 0, block 1 and the trailers hold anything
        let expected = block == 0 || block == 1 || block % 4 == 3;
        assert_eq!(used[block], expected, "block {}", block);
    }
}

#[test]
fn calculate_key_a_writes_what_a_single_trailer_write_does() {
    let mut data = [0u8; NUM_BYTES];
    data[..4].copy_from_slice(&UID);
    let mut other = data;
    calculate_key_a(&mut data);
    assert_eq!(&data[..64], &other[..64]);
    write_sector_trailer(&mut other, 1, 0xC3E5_0D0E_3EEE);
    assert_eq!(&data[64..128], &other[64..128]);
    assert_eq!(&other[64 + 48..64 + 58], &[0xEE, 0x3E, 0x0E, 0x0D, 0xE5, 0xC3, 0x7F, 0x0F, 0x08, 0x69]);
}

#[test]
fn update_used_finds_the_blocks_with_a_byte() {
    let mut data = [0u8; NUM_BYTES];
    data[16 * 5 + 15] = 1;
    data[16 * 63] = 0xFF;
    let used = update_used(&data);
    for block in 0..NUM_BLOCKS {
        assert_eq!(used[block], block == 5 || block == 63);
    }
    // the first block counts like any other
    data[3] = 7;
    assert!(update_used(&data)[0]);
}

#[test]
fn seed_of_a_block() {
    let sky = SkylanderBase::new(Toy::Character(Character::TriggerHappy), Variant::Series3, None);
    let seed = make_block_seed(sky.data(), 4);
    assert_eq!(seed.len(), 0x56);
    assert_eq!(&seed[..0x20], &sky.data()[..0x20]);
    assert_eq!(seed[0x20], 4);
    assert_eq!(&seed[0x21..], b" Copyright (C) 2010 Activision. All Rights Reserved. ");
}

#[test]
fn a_used_zero_block_is_encrypted_under_the_key_of_its_seed() {
    // MD5 of the seed of block 4 is F4 34 7C 0A 5F 62 C5 84 1F 1C 32 3C A8 4A 76 11
    let mut data = new_tag(19, 0x2205, &[0; 4]);
    let mut used = update_used(&data);
    used[4] = true;
    encryption_skylander(&mut data, &used, true);
    assert_eq!(
        &data[0x40..0x50],
        &[0xBE, 0xBF, 0xCA, 0x44, 0x4B, 0x93, 0xB2, 0x4E, 0xF6, 0xED, 0x86, 0x80, 0xB2, 0x5D, 0x32, 0x19]
    );
    // again, from the start: the same bytes
    let mut again = new_tag(19, 0x2205, &[0; 4]);
    encryption_skylander(&mut again, &used, true);
    assert_eq!(&again[..], &data[..]);
}

#[test]
fn a_used_zero_block_is_decrypted_under_the_key_of_its_seed() {
    let mut data = new_tag(19, 0x2205, &[0; 4]);
    let mut used = update_used(&data);
    used[4] = true;
    encryption_skylander(&mut data, &used, false);
    assert_eq!(
        &data[0x40..0x50],
        &[0x1C, 0xF9, 0xDC, 0xC9, 0xC8, 0x4E, 0xFD, 0xBA, 0x95, 0xBE, 0xD4, 0x73, 0x77, 0x53, 0x02, 0x30]
    );
}

#[test]
fn encryption_leaves_sector_0_trailers_and_unused_blocks() {
    let mut data = [0u8; NUM_BYTES];
    for (i, byte) in data.iter_mut().enumerate() {
        *byte = (i % 251) as u8;
    }
    let plain = data;
    let mut used = [true; NUM_BLOCKS];
    used[9] = false;
    encryption_skylander(&mut data, &used, true);
    for block in 0..NUM_BLOCKS {
        let range = 16 * block..16 * block + 16;
        if block < 4 || block % 4 == 3 || block == 9 {
            assert_eq!(&data[range.clone()], &plain[range], "block {}", block);
        } else {
            assert_ne!(&data[range.clone()], &plain[range], "block {}", block);
        }
    }
}

#[test]
fn decryption_undoes_encryption_and_encryption_undoes_decryption() {
    let mut data = [0u8; NUM_BYTES];
    for (i, byte) in data.iter_mut().enumerate() {
        *byte = (i * 7 % 256) as u8;
    }
    let start = data;
    let used = update_used(&data);
    encryption_skylander(&mut data, &used, true);
    assert_ne!(&data[..], &start[..]);
    encryption_skylander(&mut data, &used, false);
    assert_eq!(&data[..], &start[..]);
    encryption_skylander(&mut data, &used, false);
    encryption_skylander(&mut data, &used, true);
    assert_eq!(&data[..], &start[..]);
}

#[test]
fn checksums_of_an_empty_tag() {
    let mut data = [0u8; NUM_BYTES];
    let before = data;
    calculate_checksums(&mut data);
    for i in 0..NUM_BYTES {
        let is_checksum = (0x8A..0x90).contains(&i)
            || (0x24A..0x250).contains(&i)
            || (0x110..0x112).contains(&i)
            || (0x2D0..0x2D2).contains(&i);
        if !is_checksum {
            assert_eq!(data[i], before[i]);
        }
    }
    // both primary areas hold the same, and so do both secondary areas
    assert_eq!(&data[0x8A..0x90], &data[0x24A..0x250]);
    assert_eq!(&data[0x110..0x112], &data[0x2D0..0x2D2]);
}

#[test]
fn each_checksum_is_that_of_what_it_covers() {
    let mut data = [0u8; NUM_BYTES];
    for (i, byte) in data.iter_mut().enumerate() {
        *byte = (i * 13 % 256) as u8;
    }
    calculate_checksums(&mut data);
    for base in [0x80usize, 0x240] {
        let stored3 = u16_from_le(data[base + 0x0A], data[base + 0x0B]);
        assert_eq!(stored3, window_crc(&data, base + 0x50, 0x20, base + 0x80, 0x10, 224));
        let stored2 = u16_from_le(data[base + 0x0C], data[base + 0x0D]);
        assert_eq!(stored2, window_crc(&data, base + 0x10, 0x20, base + 0x40, 0x10, 0));
        let stored1 = u16_from_le(data[base + 0x0E], data[base + 0x0F]);
        let mut with_placeholder = data;
        with_placeholder[base + 0x0E] = 0x05;
        with_placeholder[base + 0x0F] = 0x00;
        assert_eq!(stored1, window_crc(&with_placeholder, base, 0x10, 0, 0, 0));
    }
    for base in [0x110usize, 0x2D0] {
        let stored6 = u16_from_le(data[base], data[base + 1]);
        let mut with_placeholder = data;
        with_placeholder[base] = 0x06;
        with_placeholder[base + 1] = 0x01;
        assert_eq!(stored6, window_crc(&with_placeholder, base, 0x20, base + 0x30, 0x20, 0));
    }
}

#[test]
fn saving_a_new_figure_gives_its_bytes_as_they_are() {
    let sky = trigger_happy();
    let saved = sky.to_bytes();
    assert_eq!(&saved[..], &sky.data()[..]);
}

#[test]
fn new_character_round_trip() {
    let sky1 = trigger_happy();
    let file_a = sky1.to_bytes();
    let sky2 = SkylanderBase::from_bytes(&file_a);
    let file_b = sky2.to_bytes();
    assert_eq!(&file_a[..], &file_b[..]);
    assert_eq!(sky2.get_figure(), Toy::Character(Character::TriggerHappy));
    assert_eq!(sky2.get_variant(), Variant::Series3);
    assert_eq!(&sky2.data()[..], &sky1.data()[..]);
    assert_eq!(&sky2.used()[..], &sky1.used()[..]);
    assert!(!sky2.is_modified());
}

#[test]
fn loading_any_bytes_and_saving_gives_them_back() {
    let mut bytes = [0u8; NUM_BYTES];
    for (i, byte) in bytes.iter_mut().enumerate() {
        *byte = (i * 31 % 256) as u8;
    }
    bytes[16 * 6..16 * 7].copy_from_slice(&[0u8; 16]);
    let sky = SkylanderBase::from_bytes(&bytes);
    assert!(!sky.used()[6]);
    assert_eq!(&sky.data()[16 * 6..16 * 7], &[0u8; 16]);
    assert_ne!(&sky.data()[16 * 5..16 * 6], &bytes[16 * 5..16 * 6]);
    assert_eq!(&sky.to_bytes()[..], &bytes[..]);
}

#[test]
fn loading_reads_an_uncatalogued_toy_as_unknown() {
    let mut sky = trigger_happy();
    sky.set_bytes(0x10, &[0xFF, 0xFF]);
    sky.set_bytes(0x1C, &[0x34, 0x12]);
    // the figure in hand is what it was made as
    assert_eq!(sky.get_figure(), Toy::Character(Character::TriggerHappy));
    let loaded = SkylanderBase::from_bytes(&sky.to_bytes());
    assert_eq!(loaded.get_figure(), Toy::Unknown(0xFFFF));
    assert_eq!(loaded.get_variant(), Variant::Unknown(0x1234));
    assert_eq!(&loaded.data()[0x10..0x12], &[0xFF, 0xFF]);
    let again = SkylanderBase::from_bytes(&loaded.to_bytes());
    assert_eq!(again.get_figure(), Toy::Unknown(0xFFFF));
    assert_eq!(&again.data()[..], &loaded.data()[..]);
}

#[test]
fn set_bytes_writes_marks_and_counts_as_a_change() {
    let mut sky = trigger_happy();
    sky.set_bytes(0x4E, &[1, 2, 3, 4]);
    assert!(sky.is_modified());
    assert_eq!(&sky.data()[0x4E..0x52], &[1, 2, 3, 4]);
    assert_eq!(sky.data()[0x4D], 0);
    assert_eq!(sky.data()[0x52], 0);
    // the write reaches the blocks 4 and 5
    assert!(sky.used()[4]);
    assert!(sky.used()[5]);
    assert!(!sky.used()[6]);
}

#[test]
fn set_bytes_at_both_ends_of_the_tag() {
    let mut sky = trigger_happy();
    sky.set_bytes(0, &[0xAA]);
    sky.set_bytes(NUM_BYTES - 1, &[0xBB]);
    assert_eq!(sky.data()[0], 0xAA);
    assert_eq!(sky.data()[NUM_BYTES - 1], 0xBB);
    let whole = [0x11u8; NUM_BYTES];
    sky.set_bytes(0, &whole);
    assert_eq!(&sky.data()[..], &whole[..]);
    assert!(sky.used().iter().all(|used| *used));
}

#[test]
fn set_bytes_of_nothing_marks_nothing() {
    let mut sky = trigger_happy();
    let used_before = *sky.used();
    let data_before = *sky.data();
    sky.set_bytes(0x100, &[]);
    assert_eq!(&sky.used()[..], &used_before[..]);
    assert_eq!(&sky.data()[..], &data_before[..]);
    assert!(sky.is_modified());
}

#[test]
fn write_ones_sets_the_counters() {
    let mut sky = trigger_happy();
    sky.set_bytes(0x249, &[9]);
    sky.set_bytes(0x2D2, &[9]);
    assert_eq!(sky.current_primary(), 0x240);
    assert_eq!(sky.current_secondary(), 0x2D0);
    sky.write_ones();
    let data = sky.data();
    assert_eq!(data[0x89], 1);
    assert_eq!(data[0x249], 0);
    assert_eq!(data[0x112], 1);
    assert_eq!(data[0x2D2], 0);
    assert_eq!(data[0x93], 1);
    assert_eq!(data[0x96], 1);
    assert_eq!(data[0x253], 1);
    assert_eq!(data[0x256], 1);
    assert_eq!(sky.current_primary(), 0x80);
    assert_eq!(sky.current_secondary(), 0x110);
    for block in [0x08, 0x09, 0x24, 0x25, 0x11, 0x2D] {
        assert!(sky.used()[block]);
    }
}

#[test]
fn with_equal_counters_the_first_area_of_each_pair_is_current() {
    let sky = trigger_happy();
    assert_eq!(sky.current_primary(), 0x80);
    assert_eq!(sky.current_secondary(), 0x110);
}

#[test]
fn clear_zeroes_the_data_blocks_and_keeps_the_rest() {
    let mut sky = trigger_happy();
    let fresh = *sky.data();
    let whole = [0x5Au8; NUM_BYTES];
    sky.set_bytes(0x40, &whole[0x40..]);
    sky.set_bytes(0, &fresh[..0x40]);
    let before = *sky.data();
    sky.clear();
    let data = sky.data();
    assert_eq!(&data[..64], &before[..64]);
    for sector in 1..16 {
        assert_eq!(&data[64 * sector..64 * sector + 48], &[0u8; 48][..]);
        assert_eq!(&data[64 * sector + 48..64 * sector + 64], &before[64 * sector + 48..64 * sector + 64]);
    }
    assert!(!sky.is_modified());
    assert_eq!(&sky.used()[..], &update_used(data)[..]);
    assert!(!sky.used()[4]);
    assert!(sky.used()[7]);
    assert_eq!(sky.get_figure(), Toy::Character(Character::TriggerHappy));
}

#[test]
fn a_changed_figure_is_saved_with_checksums_and_encrypted() {
    let mut sky = trigger_happy();
    sky.set_bytes(0x300, &[1]);
    let saved = sky.to_bytes();
    // the figure in hand is as it was
    assert_eq!(&sky.data()[0x8A..0x90], &[0u8; 6]);
    let loaded = SkylanderBase::from_bytes(&saved);
    let mut expected = *sky.data();
    calculate_checksums(&mut expected);
    assert_eq!(&loaded.data()[..], &expected[..]);
    // the four blocks with checksums count as used, and are encrypted
    for block in [0x08usize, 0x24, 0x11, 0x2D, 0x30] {
        assert!(loaded.used()[block]);
        assert_ne!(&saved[16 * block..16 * block + 16], &expected[16 * block..16 * block + 16]);
    }
    assert_eq!(&loaded.to_bytes()[..], &saved[..]);
}

#[test]
fn get_figure_type_asks_every_catalogue() {
    assert_eq!(get_figure_type(19), Toy::Character(Character::TriggerHappy));
    assert_eq!(u16::from(get_figure_type(210)), 210);
    assert!(matches!(get_figure_type(210), Toy::Trap(_)));
    assert!(matches!(get_figure_type(3224), Toy::Vehicle(_)));
    assert!(matches!(get_figure_type(200), Toy::Item(_)));
    assert!(matches!(get_figure_type(300), Toy::Expansion(_)));
    assert!(matches!(get_figure_type(680), Toy::ImaginatorCrystal(_)));
    assert_eq!(get_figure_type(33), Toy::Unknown(33));
    assert_eq!(get_figure_type(0xFFFF), Toy::Unknown(0xFFFF));
}

#[test]
fn bounds_of_the_four_areas() {
    assert_eq!(area_bounds(0), (0x80, 0x110));
    assert_eq!(area_bounds(1), (0x240, 0x2D0));
    assert_eq!(area_bounds(2), (0x110, 0x160));
    assert_eq!(area_bounds(3), (0x2D0, 0x320));
}

#[test]
fn an_empty_buffer_has_no_used_block() {
    let data = [0u8; NUM_BYTES];
    assert!(update_used(&data).iter().all(|used| !*used));
    let loaded = SkylanderBase::from_bytes(&data);
    assert!(loaded.used().iter().all(|used| !*used));
    assert_eq!(&loaded.to_bytes()[..], &data[..]);
}

#[test]
fn a_raw_write_is_saved_with_every_block_of_checksums_encrypted() {
    let mut sky = trigger_happy();
    sky.set_bytes(0x50, &[0xAB]);
    assert!(!sky.used()[0x08]);
    let saved = sky.to_bytes();
    let mut plain = *sky.data();
    calculate_checksums(&mut plain);
    let mut mask = *sky.used();
    for block in [0x08usize, 0x11, 0x24, 0x2D] {
        mask[block] = true;
    }
    let mut decrypted = saved;
    encryption_skylander(&mut decrypted, &mask, false);
    assert_eq!(&decrypted[..], &plain[..]);
    // sector 0 and the trailers are saved as they stand
    assert_eq!(&saved[..0x40], &sky.data()[..0x40]);
    for sector in 1..16 {
        assert_eq!(&saved[64 * sector + 48..64 * sector + 64], &sky.data()[64 * sector + 48..64 * sector + 64]);
    }
    // a block that is not used is saved as it stands
    assert_eq!(&saved[0x60..0x70], &[0u8; 16]);
    // the figure in hand is as it was
    assert_eq!(sky.data()[0x50], 0xAB);
    assert_eq!(&sky.data()[0x8A..0x90], &[0u8; 6]);
}
