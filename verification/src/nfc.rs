//! What to ask of a card reader, and in what order, to read a figure from a
//! card and to write one to it. Nothing here talks to a reader: the steps
//! are handed out as values, and what the reader gave comes back as values.

use crate::crypto::crc48_key;
use crate::skyutils::calculate_key_a;
use crate::skyutils::copy_into;
use crate::skyutils::is_data_block;
use crate::skyutils::key_a_bytes;
use crate::skyutils::key_a_sector_0;
use crate::skyutils::lemma_sector_keys_derived;
use crate::skyutils::read_block;
use crate::skyutils::sector0_key;
use crate::skyutils::with_sector_keys;
use crate::skyutils::zeros;
use crate::skyutils::Skylander;
use crate::skyutils::SkylanderBase;
use crate::skyutils::TagState;
use crate::skyutils::BLOCKS_PER_SECTOR;
use crate::skyutils::BLOCK_SIZE;
use crate::skyutils::NUM_BYTES;
use crate::skyutils::NUM_SECTORS;
use crate::skyutils::SECTOR_SIZE;
use vstd::prelude::*;

verus! {

/// One request to a card reader.
#[derive(Clone, Copy, Debug, PartialEq, Eq)]
pub enum NfcStep {
    /// Open the sector of `block` with `key`, as its first key.
    Authenticate { block: u8, key: [u8; 6] },
    /// Read the 16 bytes of `block`.
    Read { block: u8 },
    /// Write `data` to `block`.
    Write { block: u8, data: [u8; 16] },
}

/// Whether `step` asks to open the sector of `block` with `key`.
pub open spec fn is_authenticate(step: NfcStep, block: int, key: Seq<u8>) -> bool {
    step matches NfcStep::Authenticate { block: b, key: k } && b == block && k@ == key
}

/// Whether `step` asks to read `block`.
pub open spec fn is_read(step: NfcStep, block: int) -> bool {
    step matches NfcStep::Read { block: b } && b == block
}

/// Whether `step` asks to write `data` to `block`.
pub open spec fn is_write(step: NfcStep, block: int, data: Seq<u8>) -> bool {
    step matches NfcStep::Write { block: b, data: d } && b == block && d@ == data
}

/// The number of the `k`-th data block of sectors 1 to 15, counted from zero.
pub open spec fn data_block_number(k: int) -> int {
    4 * (k / 3 + 1) + k % 3
}

/// The bytes of a card as they are before decryption: sector 0 as it was
/// read, the 45 data blocks of sectors 1 to 15 as they were read, in order,
/// and the trailers of those sectors with their derived keys.
pub open spec fn card_image(sector0: Seq<u8>, blocks: Seq<[u8; 16]>) -> Seq<u8> {
    Seq::new(
        NUM_BYTES as nat,
        |i: int|
            if is_data_block(i / 16) {
                blocks[3 * (i / 64 - 1) + i / 16 % 4]@[i % 16]
            } else {
                with_sector_keys(sector0 + zeros(960))[i]
            },
    )
}

/// The first steps of reading a card: open sector 0 with the key that
/// every tag has, and read its four blocks.
pub fn read_sector0_steps() -> (steps: Vec<NfcStep>)
    ensures
        steps@.len() == 5,
        is_authenticate(steps@[0], 0, sector0_key()),
        forall|j: int| 0 <= j < 4 ==> is_read(#[trigger] steps@[1 + j], j),
{
    let mut steps: Vec<NfcStep> = Vec::new();
    steps.push(NfcStep::Authenticate { block: 0, key: key_a_sector_0() });
    let mut j: usize = 0;
    while j < BLOCKS_PER_SECTOR
        invariant
            j <= BLOCKS_PER_SECTOR,
            steps@.len() == 1 + j,
            is_authenticate(steps@[0], 0, sector0_key()),
            forall|k: int| 0 <= k < j ==> is_read(#[trigger] steps@[1 + k], k),
        decreases BLOCKS_PER_SECTOR - j,
    {
        steps.push(NfcStep::Read { block: j as u8 });
        j += 1;
    }
    steps
}

/// The rest of reading a card, once sector 0 is known: for each sector
/// from 1 to 15, open it with the key derived from the identifying bytes
/// and the sector's number, and read its three data blocks.
pub fn read_data_steps(sector0: &[u8; 64]) -> (steps: Vec<NfcStep>)
    ensures
        steps@.len() == 60,
        forall|s: int|
            1 <= s < 16 ==> is_authenticate(
                #[trigger] steps@[4 * (s - 1)],
                4 * s,
                key_a_bytes(crc48_key(sector0@.subrange(0, 4).push(s as u8))),
            ),
        forall|s: int, j: int|
            1 <= s < 16 && 0 <= j < 3 ==> is_read(#[trigger] steps@[4 * (s - 1) + 1 + j], 4 * s + j),
{
    let mut data = [0u8;NUM_BYTES];
    copy_into(&mut data, 0, sector0.as_slice());
    assert(data@.subrange(0, 4) =~= sector0@.subrange(0, 4));
    let ghost filled = data@;
    calculate_key_a(&mut data);
    let mut steps: Vec<NfcStep> = Vec::new();
    let mut i: usize = 1;
    while i < NUM_SECTORS
        invariant
            1 <= i <= NUM_SECTORS,
            data@ == with_sector_keys(filled),
            filled.len() == NUM_BYTES,
            filled.subrange(0, 4) == sector0@.subrange(0, 4),
            steps@.len() == 4 * (i - 1),
            forall|s: int|
                1 <= s < i ==> is_authenticate(
                    #[trigger] steps@[4 * (s - 1)],
                    4 * s,
                    key_a_bytes(crc48_key(sector0@.subrange(0, 4).push(s as u8))),
                ),
            forall|s: int, j: int|
                1 <= s < i && 0 <= j < 3 ==> is_read(
                    #[trigger] steps@[4 * (s - 1) + 1 + j],
                    4 * s + j,
                ),
        decreases NUM_SECTORS - i,
    {
        let trailer = i * SECTOR_SIZE + 3 * BLOCK_SIZE;
        let key: [u8; 6] = [
            data[trailer],
            data[trailer + 1],
            data[trailer + 2],
            data[trailer + 3],
            data[trailer + 4],
            data[trailer + 5],
        ];
        proof {
            lemma_sector_keys_derived(filled, i as int);
            assert(key@ =~= data@.subrange(64 * i + 48, 64 * i + 54));
        }
        let sector_hdr = i * BLOCKS_PER_SECTOR;
        let ghost before = steps@;
        steps.push(NfcStep::Authenticate { block: sector_hdr as u8, key });
        steps.push(NfcStep::Read { block: sector_hdr as u8 });
        steps.push(NfcStep::Read { block: (sector_hdr + 1) as u8 });
        steps.push(NfcStep::Read { block: (sector_hdr + 2) as u8 });
        proof {
            assert forall|s: int| 1 <= s < i + 1 implies is_authenticate(
                #[trigger] steps@[4 * (s - 1)],
                4 * s,
                key_a_bytes(crc48_key(sector0@.subrange(0, 4).push(s as u8))),
            ) by {
                if s < i {
                    assert(steps@[4 * (s - 1)] == before[4 * (s - 1)]);
                }
            }
            assert forall|s: int, j: int| 1 <= s < i + 1 && 0 <= j < 3 implies is_read(
                #[trigger] steps@[4 * (s - 1) + 1 + j],
                4 * s + j,
            ) by {
                if s < i {
                    assert(steps@[4 * (s - 1) + 1 + j] == before[4 * (s - 1) + 1 + j]);
                }
            }
        }
        i += 1;
    }
    steps
}

/// Puts together what was read from a card and loads the figure: `blocks`
/// are the 45 data blocks of sectors 1 to 15, in the order in which they
/// were asked for.
pub fn from_nfc_blocks(sector0: &[u8; 64], blocks: &[[u8; 16]]) -> (r: SkylanderBase)
    requires
        blocks@.len() == 45,
    ensures
        r@ == TagState::decoded(card_image(sector0@, blocks@)),
        r@.wf(),
{
    let mut data = [0u8;NUM_BYTES];
    copy_into(&mut data, 0, sector0.as_slice());
    assert(data@ =~= sector0@ + zeros(960));
    calculate_key_a(&mut data);
    let ghost keyed = data@;
    let mut k: usize = 0;
    while k < 45
        invariant
            k <= 45,
            blocks@.len() == 45,
            data@.len() == NUM_BYTES,
            keyed == with_sector_keys(sector0@ + zeros(960)),
            forall|i: int|
                0 <= i < NUM_BYTES ==> data@[i] == if is_data_block(i / 16) && 3 * (i / 64 - 1) + i
                    / 16 % 4 < k {
                    blocks@[3 * (i / 64 - 1) + i / 16 % 4]@[i % 16]
                } else {
                    keyed[i]
                },
        decreases 45 - k,
    {
        let block = (k / 3 + 1) * BLOCKS_PER_SECTOR + k % 3;
        let ghost before = data@;
        copy_into(&mut data, block * BLOCK_SIZE, blocks[k].as_slice());
        assert forall|i: int| 0 <= i < NUM_BYTES implies data@[i] == if is_data_block(i / 16) && 3
            * (i / 64 - 1) + i / 16 % 4 < k + 1 {
            blocks@[3 * (i / 64 - 1) + i / 16 % 4]@[i % 16]
        } else {
            keyed[i]
        } by {
            if 16 * block <= i < 16 * block + 16 {
                assert(i / 16 == block && i % 16 == i - 16 * block);
                assert(i / 64 == k / 3 + 1 && i / 16 % 4 == k % 3);
            } else {
                assert(data@[i] == before[i]);
                if is_data_block(i / 16) {
                    assert(3 * (i / 64 - 1) + i / 16 % 4 != k);
                }
            }
        }
        k += 1;
    }
    assert(data@ =~= card_image(sector0@, blocks@));
    SkylanderBase::from_bytes(&data)
}

/// The steps of writing a figure to a card: the figure is made ready as
/// for saving, and for each data block of sectors 1 to 15, in order, its
/// sector is opened with the key that the figure holds in the sector's
/// trailer, and the block is written. Sector 0 and the trailers are never
/// written.
pub fn write_steps<T: Skylander>(figure: &T) -> (steps: Vec<NfcStep>)
    ensures
        steps@.len() == 90,
        forall|k: int|
            0 <= k < 45 ==> is_authenticate(
                #[trigger] steps@[2 * k],
                data_block_number(k),
                figure@.encoded().subrange(
                    64 * (k / 3 + 1) + 48,
                    64 * (k / 3 + 1) + 54,
                ),
            ),
        forall|k: int|
            0 <= k < 45 ==> is_write(
                #[trigger] steps@[2 * k + 1],
                data_block_number(k),
                figure@.encoded().subrange(
                    16 * data_block_number(k),
                    16 * data_block_number(k) + 16,
                ),
            ),
{
    let data = figure.to_bytes();
    let mut steps: Vec<NfcStep> = Vec::new();
    let mut k: usize = 0;
    while k < 45
        invariant
            k <= 45,
            data@ == figure@.encoded(),
            steps@.len() == 2 * k,
            forall|n: int|
                0 <= n < k ==> is_authenticate(
                    #[trigger] steps@[2 * n],
                    data_block_number(n),
                    data@.subrange(64 * (n / 3 + 1) + 48, 64 * (n / 3 + 1) + 54),
                ),
            forall|n: int|
                0 <= n < k ==> is_write(
                    #[trigger] steps@[2 * n + 1],
                    data_block_number(n),
                    data@.subrange(16 * data_block_number(n), 16 * data_block_number(n) + 16),
                ),
        decreases 45 - k,
    {
        let sector = k / 3 + 1;
        let block = sector * BLOCKS_PER_SECTOR + k % 3;
        let trailer = sector * SECTOR_SIZE + 3 * BLOCK_SIZE;
        let key: [u8; 6] = [
            data[trailer],
            data[trailer + 1],
            data[trailer + 2],
            data[trailer + 3],
            data[trailer + 4],
            data[trailer + 5],
        ];
        assert(key@ =~= data@.subrange(64 * (k / 3 + 1) + 48, 64 * (k / 3 + 1) + 54));
        let copy = read_block(&data, block);
        let ghost before = steps@;
        steps.push(NfcStep::Authenticate { block: block as u8, key });
        steps.push(NfcStep::Write { block: block as u8, data: copy });
        proof {
            assert forall|n: int| 0 <= n < k + 1 implies is_authenticate(
                #[trigger] steps@[2 * n],
                data_block_number(n),
                data@.subrange(64 * (n / 3 + 1) + 48, 64 * (n / 3 + 1) + 54),
            ) by {
                if n < k {
                    assert(steps@[2 * n] == before[2 * n]);
                }
            }
            assert forall|n: int| 0 <= n < k + 1 implies is_write(
                #[trigger] steps@[2 * n + 1],
                data_block_number(n),
                data@.subrange(16 * data_block_number(n), 16 * data_block_number(n) + 16),
            ) by {
                if n < k {
                    assert(steps@[2 * n + 1] == before[2 * n + 1]);
                }
            }
        }
        k += 1;
    }
    steps
}

} // verus!
