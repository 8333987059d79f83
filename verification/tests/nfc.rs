use skylanders::nfc::from_nfc_blocks;
use skylanders::nfc::read_data_steps;
use skylanders::nfc::read_sector0_steps;
use skylanders::nfc::write_steps;
use skylanders::nfc::NfcStep;
use skylanders::skyfigures;
use skylanders::skyhats::Hat;
use skylanders::skyutils::Skylander;
use skylanders::skyutils::SkylanderBase;
use skylanders::skyutils::Toy;
use skylanders::skyvariants::Variant;

const UID: [u8; 4] = [0x20, 0x24, 0x49, 0x12];

fn changed_character() -> skylanders::character::Character {
    let mut c = skylanders::character::Character::new(
        Toy::Character(skyfigures::Character::TriggerHappy),
        Variant::Series3,
        Some(UID),
    );
    c.set_xp(100_000);
    c.set_hat(Hat::Viking);
    c
}

#[test]
fn reading_begins_with_sector_0() {
    let steps = read_sector0_steps();
    assert_eq!(
        steps,
        vec![
            NfcStep::Authenticate { block: 0, key: [0x4B, 0x0B, 0x20, 0x10, 0x7C, 0xCB] },
            NfcStep::Read { block: 0 },
            NfcStep::Read { block: 1 },
            NfcStep::Read { block: 2 },
            NfcStep::Read { block: 3 },
        ]
    );
}

#[test]
fn reading_goes_on_with_the_derived_keys() {
    let mut sector0 = [0u8; 64];
    sector0[..4].copy_from_slice(&UID);
    let steps = read_data_steps(&sector0);
    assert_eq!(steps.len(), 60);
    assert_eq!(
        &steps[..4],
        &[
            NfcStep::Authenticate { block: 4, key: [0xEE, 0x3E, 0x0E, 0x0D, 0xE5, 0xC3] },
            NfcStep::Read { block: 4 },
            NfcStep::Read { block: 5 },
            NfcStep::Read { block: 6 },
        ]
    );
    assert_eq!(
        &steps[56..],
        &[
            NfcStep::Authenticate { block: 60, key: [0xE5, 0xBC, 0xB5, 0xEB, 0x53, 0x2D] },
            NfcStep::Read { block: 60 },
            NfcStep::Read { block: 61 },
            NfcStep::Read { block: 62 },
        ]
    );
    // no trailer is read
    for step in &steps {
        if let NfcStep::Read { block } = step {
            assert_ne!(block % 4, 3);
        }
        assert!(!matches!(step, NfcStep::Write { .. }));
    }
}

#[test]
fn writing_opens_each_sector_with_the_key_of_its_trailer() {
    let c = changed_character();
    let saved = c.to_bytes();
    let steps = write_steps(&c);
    assert_eq!(steps.len(), 90);
    let mut k = 0;
    for sector in 1..16usize {
        for j in 0..3usize {
            let block = 4 * sector + j;
            let mut key = [0u8; 6];
            key.copy_from_slice(&saved[64 * sector + 48..64 * sector + 54]);
            let mut data = [0u8; 16];
            data.copy_from_slice(&saved[16 * block..16 * block + 16]);
            assert_eq!(steps[2 * k], NfcStep::Authenticate { block: block as u8, key });
            assert_eq!(steps[2 * k + 1], NfcStep::Write { block: block as u8, data });
            k += 1;
        }
    }
    assert_eq!(
        steps[0],
        NfcStep::Authenticate { block: 4, key: [0xEE, 0x3E, 0x0E, 0x0D, 0xE5, 0xC3] }
    );
    let mut only_xp = skylanders::character::Character::new(
        Toy::Character(skyfigures::Character::TriggerHappy),
        Variant::Series3,
        Some(UID),
    );
    only_xp.set_xp(100_000);
    assert_eq!(
        write_steps(&only_xp)[7],
        NfcStep::Write {
            block: 8,
            data: [
                0xE2, 0x26, 0x4E, 0xF3, 0xAE, 0xB3, 0x08, 0x4B, 0x1D, 0xA4, 0x69, 0x62, 0x6B, 0x4F,
                0x86, 0x32
            ]
        }
    );
}

#[test]
fn what_was_written_to_a_card_is_read_from_it() {
    let c = changed_character();
    let saved = c.to_bytes();
    // the card gives back sector 0 and the blocks that were written
    let mut sector0 = [0u8; 64];
    sector0.copy_from_slice(&saved[..64]);
    let mut blocks = Vec::new();
    for step in write_steps(&c) {
        if let NfcStep::Write { data, .. } = step {
            blocks.push(data);
        }
    }
    assert_eq!(blocks.len(), 45);
    let read = from_nfc_blocks(&sector0, &blocks);
    assert_eq!(&read.to_bytes()[..], &saved[..]);
    assert_eq!(read.get_figure(), Toy::Character(skyfigures::Character::TriggerHappy));
    assert_eq!(read.get_variant(), Variant::Series3);
    let read = skylanders::character::Character::from(read);
    assert_eq!(read.get_xp(), 100_000);
    assert_eq!(read.get_hat(), Ok(Hat::Viking));
}

#[test]
fn an_empty_card_reads_as_a_new_figure() {
    let fresh = SkylanderBase::new(
        Toy::Character(skyfigures::Character::TriggerHappy),
        Variant::Series3,
        Some(UID),
    );
    let mut sector0 = [0u8; 64];
    sector0.copy_from_slice(&fresh.data()[..64]);
    let blocks = vec![[0u8; 16]; 45];
    let read = from_nfc_blocks(&sector0, &blocks);
    assert_eq!(&read.data()[..], &fresh.data()[..]);
    assert_eq!(&read.used()[..], &fresh.used()[..]);
}
