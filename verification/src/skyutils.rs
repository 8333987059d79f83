//! The tag codec: the 1024 bytes of a figure, their sectors and blocks, the
//! keys of the sector trailers, the encryption of the data blocks, the
//! checksums of the four areas, and the figure that holds them.

use crate::crypto::aes128_ecb_decrypt;
use crate::crypto::aes128_ecb_encrypt;
use crate::crypto::aes_decrypt_block;
use crate::crypto::aes_encrypt_block;
use crate::crypto::crc16_ccitt_false;
use crate::crypto::crc16_checksum;
use crate::crypto::crc48_key;
use crate::crypto::key_a;
use crate::crypto::md5_digest;
use crate::crypto::md5_hash;
use crate::skyfigures::Character;
use crate::skyfigures::Expansion;
use crate::skyfigures::ImaginatorCrystal;
use crate::skyfigures::Item;
use crate::skyfigures::Trap;
use crate::skyfigures::Vehicle;
use crate::skyvariants::Variant;
use vstd::prelude::*;
use vstd::std_specs::convert::FromSpecImpl;
use vstd::std_specs::convert::TryFromSpecImpl;

verus! {

pub const BLOCK_SIZE: usize = 16;

pub const BLOCKS_PER_SECTOR: usize = 4;

pub const SECTOR_SIZE: usize = 64;

pub const NUM_SECTORS: usize = 16;

/// The number of bytes that a figure (a Mifare Classic 1K tag) stores.
pub const NUM_BYTES: usize = 1024;

pub const NUM_BLOCKS: usize = 64;

/// Where each of the four areas begins. Areas 0 and 1 are the two copies of
/// the primary state, areas 2 and 3 the two copies of the secondary state.
pub open spec fn area_start(area: int) -> int {
    if area == 0 {
        0x80
    } else if area == 1 {
        0x240
    } else if area == 2 {
        0x110
    } else {
        0x2D0
    }
}

/// The bounds `[start, end)` of area `area`.
pub fn area_bounds(area: usize) -> (r: (usize, usize))
    requires
        area < 4,
    ensures
        r.0 == area_start(area as int),
        r.1 == r.0 + if area < 2 {
            0x90int
        } else {
            0x50int
        },
{
    if area == 0 {
        (0x80, 0x110)
    } else if area == 1 {
        (0x240, 0x2D0)
    } else if area == 2 {
        (0x110, 0x160)
    } else {
        (0x2D0, 0x320)
    }
}

/// The two bytes of `v`, low byte first.
pub open spec fn le16_bytes(v: u16) -> Seq<u8> {
    seq![(v % 256) as u8, (v / 256) as u8]
}

/// The 16-bit value whose low byte is `lo` and whose high byte is `hi`.
pub open spec fn le16_value(lo: u8, hi: u8) -> u16 {
    (lo + 256 * hi) as u16
}

/// The 16-bit value that `d` holds at `at`, low byte first.
pub open spec fn le16_at(d: Seq<u8>, at: int) -> u16 {
    le16_value(d[at], d[at + 1])
}

/// `d` with the bytes from `start` on replaced by `bytes`.
pub open spec fn write_at(d: Seq<u8>, start: int, bytes: Seq<u8>) -> Seq<u8> {
    Seq::new(
        d.len(),
        |i: int|
            if start <= i < start + bytes.len() {
                bytes[i - start]
            } else {
                d[i]
            },
    )
}

/// Splits `v` into its little-endian bytes.
pub fn u16_to_le(v: u16) -> (r: [u8; 2])
    ensures
        r@ == le16_bytes(v),
{
    let lo: u8 = (v & 0xff) as u8;
    let hi: u8 = (v >> 8) as u8;
    assert(v & 0xff == v % 256) by (bit_vector);
    assert(v >> 8 == v / 256) by (bit_vector);
    let r = [lo, hi];
    assert(r@ =~= le16_bytes(v));
    r
}

/// Joins two little-endian bytes into a 16-bit value.
pub fn u16_from_le(lo: u8, hi: u8) -> (r: u16)
    ensures
        r == le16_value(lo, hi),
{
    let r: u16 = (lo as u16) | ((hi as u16) << 8);
    assert(((lo as u16) | ((hi as u16) << 8)) == lo as u16 + 256 * (hi as u16)) by (bit_vector);
    r
}

/// The `size` low bytes of `value`, lowest first.
pub open spec fn le_bytes(value: int, size: nat) -> Seq<u8> {
    Seq::new(size, |k: int| (value / byte_weight(k) % 256) as u8)
}

/// What the byte `k` of a number counts for, for `k` from 0 to 7.
pub open spec fn byte_weight(k: int) -> int {
    if k <= 0 {
        0x1
    } else if k == 1 {
        0x100
    } else if k == 2 {
        0x1_0000
    } else if k == 3 {
        0x100_0000
    } else if k == 4 {
        0x1_0000_0000
    } else if k == 5 {
        0x100_0000_0000
    } else if k == 6 {
        0x1_0000_0000_0000
    } else {
        0x100_0000_0000_0000
    }
}

/// The bytes to write for a value of 1, 2, 4 or 8 bytes: as many of its
/// low bytes, lowest first. For any other size, no bytes.
pub fn value_bytes(value: u64, size: u8) -> (r: Vec<u8>)
    ensures
        r@ == if size == 1 || size == 2 || size == 4 || size == 8 {
            le_bytes(value as int, size as nat)
        } else {
            Seq::<u8>::empty()
        },
{
    let mut r: Vec<u8> = Vec::new();
    if size == 1 || size == 2 || size == 4 || size == 8 {
        let all: [u8; 8] = [
            (value & 0xff) as u8,
            ((value >> 8) & 0xff) as u8,
            ((value >> 16) & 0xff) as u8,
            ((value >> 24) & 0xff) as u8,
            ((value >> 32) & 0xff) as u8,
            ((value >> 40) & 0xff) as u8,
            ((value >> 48) & 0xff) as u8,
            ((value >> 56) & 0xff) as u8,
        ];
        assert(value & 0xff == value % 256 && (value >> 8) & 0xff == value / 0x100 % 256 && (value
            >> 16) & 0xff == value / 0x1_0000 % 256 && (value >> 24) & 0xff == value / 0x100_0000
            % 256 && (value >> 32) & 0xff == value / 0x1_0000_0000 % 256 && (value >> 40) & 0xff
            == value / 0x100_0000_0000 % 256 && (value >> 48) & 0xff == value / 0x1_0000_0000_0000
            % 256 && (value >> 56) & 0xff == value / 0x100_0000_0000_0000 % 256) by (bit_vector);
        let mut k: usize = 0;
        while k < size as usize
            invariant
                k <= size <= 8,
                r@.len() == k,
                forall|j: int| 0 <= j < 8 ==> all@[j] == (value as int / byte_weight(j) % 256) as u8,
                forall|j: int| 0 <= j < k ==> r@[j] == (value as int / byte_weight(j) % 256) as u8,
            decreases size - k,
        {
            r.push(all[k]);
            k += 1;
        }
        assert(r@ =~= le_bytes(value as int, size as nat));
    }
    r
}

/// Writing a 16-bit value and reading it again gives the value back.
pub proof fn lemma_le16_roundtrip(v: u16)
    ensures
        le16_value(le16_bytes(v)[0], le16_bytes(v)[1]) == v,
{
}

/// Copies `bytes` into `data` from `start` on.
pub fn copy_into(data: &mut [u8; NUM_BYTES], start: usize, bytes: &[u8])
    requires
        start + bytes@.len() <= NUM_BYTES,
    ensures
        final(data)@ == write_at(old(data)@, start as int, bytes@),
{
    let mut i: usize = 0;
    while i < bytes.len()
        invariant
            i <= bytes@.len(),
            start + bytes@.len() <= NUM_BYTES,
            data@.len() == NUM_BYTES,
            forall|k: int|
                0 <= k < NUM_BYTES ==> data@[k] == if start <= k < start + i {
                    bytes@[k - start]
                } else {
                    old(data)@[k]
                },
        decreases bytes@.len() - i,
    {
        data[start + i] = bytes[i];
        i += 1;
    }
    assert(data@ =~= write_at(old(data)@, start as int, bytes@));
}

/// Whether block `b` of `d` holds a byte that is not zero.
pub open spec fn block_nonzero(d: Seq<u8>, b: int) -> bool {
    exists|k: int| 16 * b <= k < 16 * b + 16 && #[trigger] d[k] != 0
}

/// Which of the 64 blocks of `d` count as used: every block with a byte
/// that is not zero, and no other.
pub open spec fn used_mask(d: Seq<u8>) -> Seq<bool> {
    Seq::new(64, |b: int| block_nonzero(d, b))
}

/// Finds the used blocks of a tag.
pub fn update_used(data: &[u8; NUM_BYTES]) -> (used: [bool; NUM_BLOCKS])
    ensures
        used@ == used_mask(data@),
{
    let mut used = [false;NUM_BLOCKS];
    let mut i: usize = 0;
    while i < NUM_BLOCKS
        invariant
            i <= NUM_BLOCKS,
            used@.len() == NUM_BLOCKS,
            forall|b: int| 0 <= b < i ==> used@[b] == block_nonzero(data@, b),
            forall|b: int| i <= b < NUM_BLOCKS ==> !used@[b],
        decreases NUM_BLOCKS - i,
    {
        let block_start = i * BLOCK_SIZE;
        let mut j: usize = 0;
        let mut found = false;
        while j < BLOCK_SIZE && !found
            invariant
                i < NUM_BLOCKS,
                block_start == i * 16,
                j <= BLOCK_SIZE,
                !found ==> forall|k: int| 16 * i <= k < 16 * i + j ==> data@[k] == 0,
                found ==> block_nonzero(data@, i as int),
            decreases BLOCK_SIZE - j + if found { 0int } else { 1int },
        {
            if data[block_start + j] != 0x00u8 {
                found = true;
            } else {
                j += 1;
            }
        }
        if found {
            used[i] = true;
        }
        i += 1;
    }
    assert(used@ =~= used_mask(data@));
    used
}

/// The six low bytes of `k`, lowest first: the form in which a sector
/// trailer holds its key.
pub open spec fn key_a_bytes(k: u64) -> Seq<u8> {
    seq![
        (k % 256) as u8,
        (k / 0x100 % 256) as u8,
        (k / 0x1_0000 % 256) as u8,
        (k / 0x100_0000 % 256) as u8,
        (k / 0x1_0000_0000 % 256) as u8,
        (k / 0x100_0000_0000 % 256) as u8,
    ]
}

/// The access bytes that follow the key in the trailers of sectors 1 to 15.
pub open spec fn sector_access() -> Seq<u8> {
    seq![0x7Fu8, 0x0Fu8, 0x08u8, 0x69u8]
}

/// The key of sector `sector` of the tag `d`: the 48-bit checksum of the
/// tag's four identifying bytes followed by the sector's number.
pub open spec fn sector_key_a(d: Seq<u8>, sector: int) -> Seq<u8> {
    key_a_bytes(crc48_key(d.subrange(0, 4).push(sector as u8)))
}

/// `d` with the trailer of `sector` holding the key `key` and the access bytes.
pub open spec fn with_trailer(d: Seq<u8>, sector: int, key: u64) -> Seq<u8> {
    write_at(
        write_at(d, 64 * sector + 48, key_a_bytes(key)),
        64 * sector + 54,
        sector_access(),
    )
}

/// `d` with the trailers of the sectors from 1 up to, not including, `n`
/// holding their derived keys and the access bytes.
pub open spec fn sector_keys_upto(d: Seq<u8>, n: int) -> Seq<u8> {
    Seq::new(
        d.len(),
        |i: int|
            if 1 <= i / 64 < n && 48 <= i % 64 < 54 {
                sector_key_a(d, i / 64)[i % 64 - 48]
            } else if 1 <= i / 64 < n && 54 <= i % 64 < 58 {
                sector_access()[i % 64 - 54]
            } else {
                d[i]
            },
    )
}

/// `d` with the trailers of sectors 1 to 15 holding their derived keys and
/// the access bytes.
pub open spec fn with_sector_keys(d: Seq<u8>) -> Seq<u8> {
    sector_keys_upto(d, 16)
}

/// Splits a key into the six bytes that a sector trailer holds.
pub fn key_a_to_bytes(k: u64) -> (r: [u8; 6])
    ensures
        r@ == key_a_bytes(k),
{
    let r = [
        (k & 0xff) as u8,
        ((k >> 8) & 0xff) as u8,
        ((k >> 16) & 0xff) as u8,
        ((k >> 24) & 0xff) as u8,
        ((k >> 32) & 0xff) as u8,
        ((k >> 40) & 0xff) as u8,
    ];
    assert(k & 0xff == k % 256 && (k >> 8) & 0xff == k / 0x100 % 256 && (k >> 16) & 0xff == k
        / 0x1_0000 % 256 && (k >> 24) & 0xff == k / 0x100_0000 % 256 && (k >> 32) & 0xff == k
        / 0x1_0000_0000 % 256 && (k >> 40) & 0xff == k / 0x100_0000_0000 % 256) by (bit_vector);
    assert(r@ =~= key_a_bytes(k));
    r
}

/// Writes the key `key` and the access bytes into the trailer of `sector`.
pub fn write_sector_trailer(data: &mut [u8; NUM_BYTES], sector: usize, key: u64)
    requires
        sector < NUM_SECTORS,
    ensures
        final(data)@ == with_trailer(old(data)@, sector as int, key),
{
    let trailer = sector * SECTOR_SIZE + 3 * BLOCK_SIZE;
    let key_bytes = key_a_to_bytes(key);
    copy_into(data, trailer, &key_bytes);
    let access: [u8; 4] = [0x7F, 0x0F, 0x08, 0x69];
    assert(access@ =~= sector_access());
    copy_into(data, trailer + 6, &access);
}

/// Calculates and sets the key of each sector trailer from 1 to 15.
pub fn calculate_key_a(data: &mut [u8; NUM_BYTES])
    ensures
        final(data)@ == with_sector_keys(old(data)@),
{
    let mut i: usize = 1;
    assert(data@ =~= sector_keys_upto(old(data)@, 1));
    while i < NUM_SECTORS
        invariant
            1 <= i <= NUM_SECTORS,
            data@.len() == NUM_BYTES,
            data@ == sector_keys_upto(old(data)@, i as int),
        decreases NUM_SECTORS - i,
    {
        let input: [u8; 5] = [data[0], data[1], data[2], data[3], i as u8];
        assert(input@ =~= old(data)@.subrange(0, 4).push(i as u8));
        let key = key_a(&input);
        write_sector_trailer(data, i, key);
        assert(data@ =~= sector_keys_upto(old(data)@, i + 1)) by {
            assert(key_a_bytes(key) == sector_key_a(old(data)@, i as int));
            assert forall|k: int| 0 <= k < NUM_BYTES implies data@[k] == sector_keys_upto(
                old(data)@,
                i + 1,
            )[k] by {
                if 64 * i + 48 <= k < 64 * i + 58 {
                    assert(k / 64 == i && k % 64 == k - 64 * i);
                } else {
                    assert(!(k / 64 == i && 48 <= k % 64 < 58));
                }
            }
        }
        i += 1;
    }
}

/// In a tag whose keys were derived, the trailer of each sector from 1 to 15
/// begins with the six low bytes, lowest first, of the 48-bit checksum of the
/// four identifying bytes and the sector's number, and goes on with the
/// access bytes; everything else is as it was.
pub proof fn lemma_sector_keys_derived(d: Seq<u8>, sector: int)
    requires
        d.len() == NUM_BYTES,
        1 <= sector < 16,
    ensures
        with_sector_keys(d).subrange(64 * sector + 48, 64 * sector + 54) == key_a_bytes(
            crc48_key(d.subrange(0, 4).push(sector as u8)),
        ),
        with_sector_keys(d).subrange(64 * sector + 54, 64 * sector + 58) == sector_access(),
        with_sector_keys(d).subrange(0, 64) == d.subrange(0, 64),
{
    let w = with_sector_keys(d);
    assert forall|j: int| 0 <= j < 6 implies w[64 * sector + 48 + j] == sector_key_a(d, sector)[j] by {
        let k = 64 * sector + 48 + j;
        assert(k / 64 == sector && k % 64 == 48 + j);
    }
    assert(w.subrange(64 * sector + 48, 64 * sector + 54) =~= sector_key_a(d, sector));
    assert forall|j: int| 0 <= j < 4 implies w[64 * sector + 54 + j] == sector_access()[j] by {
        let k = 64 * sector + 54 + j;
        assert(k / 64 == sector && k % 64 == 54 + j);
    }
    assert(w.subrange(64 * sector + 54, 64 * sector + 58) =~= sector_access());
    assert(w.subrange(0, 64) =~= d.subrange(0, 64));
}

/// The 53 bytes that end every seed: the text
/// `" Copyright (C) 2010 Activision. All Rights Reserved. "`.
pub open spec fn hash_const() -> Seq<u8> {
    seq![
        0x20u8, 0x43u8, 0x6Fu8, 0x70u8, 0x79u8, 0x72u8, 0x69u8, 0x67u8, 0x68u8, 0x74u8, 0x20u8,
        0x28u8, 0x43u8, 0x29u8, 0x20u8, 0x32u8, 0x30u8, 0x31u8, 0x30u8, 0x20u8, 0x41u8, 0x63u8,
        0x74u8, 0x69u8, 0x76u8, 0x69u8, 0x73u8, 0x69u8, 0x6Fu8, 0x6Eu8, 0x2Eu8, 0x20u8, 0x41u8,
        0x6Cu8, 0x6Cu8, 0x20u8, 0x52u8, 0x69u8, 0x67u8, 0x68u8, 0x74u8, 0x73u8, 0x20u8, 0x52u8,
        0x65u8, 0x73u8, 0x65u8, 0x72u8, 0x76u8, 0x65u8, 0x64u8, 0x2Eu8, 0x20u8,
    ]
}

/// The 86 bytes that are hashed into the key of block `b`: the first two
/// blocks of the tag, the block's number, and the closing text.
pub open spec fn block_seed(d: Seq<u8>, b: int) -> Seq<u8> {
    d.subrange(0, 32).push(b as u8) + hash_const()
}

/// The AES key of block `b` of the tag `d`.
pub open spec fn block_key(d: Seq<u8>, b: int) -> Seq<u8> {
    md5_digest(block_seed(d, b))
}

/// Whether block `b` is a data block of sectors 1 to 15: the blocks that are
/// stored encrypted. Sector 0 and the sector trailers never are.
pub open spec fn is_data_block(b: int) -> bool {
    4 <= b < 64 && b % 4 != 3
}

/// One block under one key, encrypted or decrypted.
pub open spec fn crypt_block(key: Seq<u8>, block: Seq<u8>, encrypt: bool) -> Seq<u8> {
    if encrypt {
        aes128_ecb_encrypt(key, block)
    } else {
        aes128_ecb_decrypt(key, block)
    }
}

/// The tag `d` with every used data block encrypted, or decrypted, under
/// its own key; all other bytes as they are.
pub open spec fn crypt_tag(d: Seq<u8>, used: Seq<bool>, encrypt: bool) -> Seq<u8> {
    Seq::new(
        d.len(),
        |i: int|
            if is_data_block(i / 16) && used[i / 16] {
                crypt_block(
                    block_key(d, i / 16),
                    d.subrange(16 * (i / 16), 16 * (i / 16) + 16),
                    encrypt,
                )[i % 16]
            } else {
                d[i]
            },
    )
}

/// The closing text of every seed.
pub fn hash_const_bytes() -> (r: [u8; 53])
    ensures
        r@ == hash_const(),
{
    let r: [u8; 53] = [
        0x20, 0x43, 0x6F, 0x70, 0x79, 0x72, 0x69, 0x67, 0x68, 0x74, 0x20, 0x28, 0x43, 0x29, 0x20,
        0x32, 0x30, 0x31, 0x30, 0x20, 0x41, 0x63, 0x74, 0x69, 0x76, 0x69, 0x73, 0x69, 0x6F, 0x6E,
        0x2E, 0x20, 0x41, 0x6C, 0x6C, 0x20, 0x52, 0x69, 0x67, 0x68, 0x74, 0x73, 0x20, 0x52, 0x65,
        0x73, 0x65, 0x72, 0x76, 0x65, 0x64, 0x2E, 0x20,
    ];
    assert(r@ =~= hash_const());
    r
}

/// Builds the seed of block `block_idx` from the first two blocks of the tag.
pub fn make_block_seed(data: &[u8; NUM_BYTES], block_idx: usize) -> (seed: [u8; 86])
    requires
        block_idx < NUM_BLOCKS,
    ensures
        seed@ == block_seed(data@, block_idx as int),
{
    let mut seed = [0u8;86];
    let tail = hash_const_bytes();
    let mut i: usize = 0;
    while i < 0x20
        invariant
            i <= 0x20,
            seed@.len() == 86,
            forall|k: int| 0 <= k < i ==> seed@[k] == data@[k],
        decreases 0x20 - i,
    {
        seed[i] = data[i];
        i += 1;
    }
    seed[0x20] = block_idx as u8;
    let mut j: usize = 0;
    while j < 53
        invariant
            j <= 53,
            seed@.len() == 86,
            tail@ == hash_const(),
            forall|k: int| 0 <= k < 0x20 ==> seed@[k] == data@[k],
            seed@[0x20] == block_idx as u8,
            forall|k: int| 0 <= k < j ==> seed@[0x21 + k] == tail@[k],
        decreases 53 - j,
    {
        seed[0x21 + j] = tail[j];
        j += 1;
    }
    assert(seed@ =~= block_seed(data@, block_idx as int)) by {
        let want = block_seed(data@, block_idx as int);
        assert(want.len() == 86);
        assert forall|k: int| 0 <= k < 86 implies seed@[k] == want[k] by {
            if k > 0x20 {
                assert(seed@[0x21 + (k - 0x21)] == tail@[k - 0x21]);
            }
        }
    }
    seed
}

/// Copies block `block_idx` out of the tag.
pub fn read_block(data: &[u8; NUM_BYTES], block_idx: usize) -> (block: [u8; 16])
    requires
        block_idx < NUM_BLOCKS,
    ensures
        block@ == data@.subrange(16 * block_idx, 16 * block_idx + 16),
{
    let mut block = [0u8;16];
    let start = block_idx * BLOCK_SIZE;
    let mut i: usize = 0;
    while i < BLOCK_SIZE
        invariant
            i <= BLOCK_SIZE,
            start == 16 * block_idx,
            block_idx < NUM_BLOCKS,
            block@.len() == 16,
            forall|k: int| 0 <= k < i ==> block@[k] == data@[start + k],
        decreases BLOCK_SIZE - i,
    {
        block[i] = data[start + i];
        i += 1;
    }
    assert(block@ =~= data@.subrange(16 * block_idx, 16 * block_idx + 16));
    block
}

/// Encrypts or decrypts the 1024 bytes of a tag in place. Checks neither
/// sector 0 nor what the data blocks hold.
/// - If `encrypt` is true, the used data blocks of sectors 1 to 15 are
///   encrypted; if it is false, they are decrypted.
/// - Doing the opposite afterwards, with the same used blocks, gives the
///   bytes back as they were.
pub fn encryption_skylander(data: &mut [u8; NUM_BYTES], used: &[bool; NUM_BLOCKS], encrypt: bool)
    ensures
        final(data)@ == crypt_tag(old(data)@, used@, encrypt),
        crypt_tag(final(data)@, used@, !encrypt) == old(data)@,
{
    let mut b: usize = 4;
    while b < NUM_BLOCKS
        invariant
            4 <= b <= NUM_BLOCKS,
            data@.len() == NUM_BYTES,
            forall|i: int|
                0 <= i < NUM_BYTES ==> data@[i] == if i / 16 < b {
                    crypt_tag(old(data)@, used@, encrypt)[i]
                } else {
                    old(data)@[i]
                },
            forall|c: int|
                4 <= c < b && is_data_block(c) && used@[c] ==> crypt_block(
                    block_key(old(data)@, c),
                    #[trigger] data@.subrange(16 * c, 16 * c + 16),
                    !encrypt,
                ) == old(data)@.subrange(16 * c, 16 * c + 16),
        decreases NUM_BLOCKS - b,
    {
        let ghost before = data@;
        if b % BLOCKS_PER_SECTOR != 3 && used[b] {
            let seed = make_block_seed(data, b);
            assert(seed@ == block_seed(old(data)@, b as int)) by {
                assert(data@.subrange(0, 32) =~= old(data)@.subrange(0, 32));
            }
            let key = md5_hash(&seed);
            let block = read_block(data, b);
            assert(block@ == old(data)@.subrange(16 * b, 16 * b + 16)) by {
                assert forall|k: int| 16 * b <= k < 16 * b + 16 implies data@[k] == old(data)@[k] by {
                    assert(k / 16 == b);
                }
                assert(data@.subrange(16 * b, 16 * b + 16) =~= old(data)@.subrange(
                    16 * b,
                    16 * b + 16,
                ));
            }
            let out = if encrypt {
                aes_encrypt_block(&key, &block)
            } else {
                aes_decrypt_block(&key, &block)
            };
            copy_into(data, b * BLOCK_SIZE, &out);
            proof {
                assert(out@ == crypt_block(block_key(old(data)@, b as int), block@, encrypt));
                assert(crypt_block(block_key(old(data)@, b as int), out@, !encrypt) == block@);
                assert(data@.subrange(16 * b, 16 * b + 16) =~= out@);
                assert forall|i: int| 0 <= i < NUM_BYTES implies data@[i] == if i / 16 < b + 1 {
                    crypt_tag(old(data)@, used@, encrypt)[i]
                } else {
                    old(data)@[i]
                } by {
                    if 16 * b <= i < 16 * b + 16 {
                        assert(i / 16 == b && i % 16 == i - 16 * b);
                    } else {
                        assert(i / 16 != b);
                        assert(data@[i] == before[i]);
                    }
                }
                assert forall|c: int|
                    4 <= c < b + 1 && is_data_block(c) && used@[c] implies crypt_block(
                    block_key(old(data)@, c),
                    #[trigger] data@.subrange(16 * c, 16 * c + 16),
                    !encrypt,
                ) == old(data)@.subrange(16 * c, 16 * c + 16) by {
                    if c < b {
                        assert(data@.subrange(16 * c, 16 * c + 16) =~= before.subrange(
                            16 * c,
                            16 * c + 16,
                        ));
                    }
                }
            }
        } else {
            proof {
                assert forall|i: int| 0 <= i < NUM_BYTES implies data@[i] == if i / 16 < b + 1 {
                    crypt_tag(old(data)@, used@, encrypt)[i]
                } else {
                    old(data)@[i]
                } by {
                    if i / 16 == b {
                        assert(!(is_data_block(b as int) && used@[b as int]));
                    }
                }
            }
        }
        b += 1;
    }
    proof {
        let done = data@;
        assert(done =~= crypt_tag(old(data)@, used@, encrypt)) by {
            assert forall|i: int| 0 <= i < NUM_BYTES implies done[i] == crypt_tag(
                old(data)@,
                used@,
                encrypt,
            )[i] by {
                assert(i / 16 < 64);
            }
        }
        assert(done.subrange(0, 32) =~= old(data)@.subrange(0, 32)) by {
            assert forall|i: int| 0 <= i < 32 implies done[i] == old(data)@[i] by {
                assert(i / 16 < 4);
            }
        }
        assert(crypt_tag(done, used@, !encrypt) =~= old(data)@) by {
            assert forall|i: int| 0 <= i < NUM_BYTES implies crypt_tag(done, used@, !encrypt)[i]
                == old(data)@[i] by {
                let c = i / 16;
                if is_data_block(c) && used@[c] {
                    assert(block_key(done, c) == block_key(old(data)@, c));
                    assert(crypt_block(
                        block_key(old(data)@, c),
                        done.subrange(16 * c, 16 * c + 16),
                        !encrypt,
                    ) == old(data)@.subrange(16 * c, 16 * c + 16));
                    assert(old(data)@.subrange(16 * c, 16 * c + 16)[i % 16] == old(data)@[i]);
                } else {
                    assert(done[i] == crypt_tag(old(data)@, used@, encrypt)[i]);
                }
            }
        }
    }
}

/// `n` zero bytes.
pub open spec fn zeros(n: nat) -> Seq<u8> {
    Seq::new(n, |i: int| 0u8)
}

/// What the third checksum of the area at `base` covers: 32 and 16 bytes of
/// the area, and 224 zero bytes after them.
pub open spec fn type3_input(d: Seq<u8>, base: int) -> Seq<u8> {
    d.subrange(base + 0x50, base + 0x70) + d.subrange(base + 0x80, base + 0x90) + zeros(224)
}

/// What the second checksum of the area at `base` covers.
pub open spec fn type2_input(d: Seq<u8>, base: int) -> Seq<u8> {
    d.subrange(base + 0x10, base + 0x30) + d.subrange(base + 0x40, base + 0x50)
}

/// What the first checksum of the area at `base` covers: the first block of
/// the area, with the bytes 5 and 0 where the checksum itself is stored.
pub open spec fn type1_input(d: Seq<u8>, base: int) -> Seq<u8> {
    d.subrange(base, base + 0x0E) + seq![0x05u8, 0x00u8]
}

/// What the checksum of the secondary area at `base` covers: two stretches
/// of the area, with the bytes 6 and 1 where the checksum itself is stored.
pub open spec fn type6_input(d: Seq<u8>, base: int) -> Seq<u8> {
    seq![0x06u8, 0x01u8] + d.subrange(base + 2, base + 0x20) + d.subrange(
        base + 0x30,
        base + 0x50,
    )
}

/// `d` with the three checksums of the primary area at `base` stored.
pub open spec fn with_area_checksums(d: Seq<u8>, base: int) -> Seq<u8> {
    let c3 = write_at(d, base + 0x0A, le16_bytes(crc16_ccitt_false(type3_input(d, base))));
    let c2 = write_at(c3, base + 0x0C, le16_bytes(crc16_ccitt_false(type2_input(d, base))));
    write_at(c2, base + 0x0E, le16_bytes(crc16_ccitt_false(type1_input(c2, base))))
}

/// `d` with the checksum of the secondary area at `base` stored.
pub open spec fn with_type6_checksum(d: Seq<u8>, base: int) -> Seq<u8> {
    write_at(d, base, le16_bytes(crc16_ccitt_false(type6_input(d, base))))
}

/// `d` with the eight checksums of the four areas stored.
pub open spec fn with_checksums(d: Seq<u8>) -> Seq<u8> {
    with_type6_checksum(
        with_type6_checksum(with_area_checksums(with_area_checksums(d, 0x80), 0x240), 0x110),
        0x2D0,
    )
}

/// Whether the byte at `i` belongs to one of the eight stored checksums.
pub open spec fn is_checksum_byte(i: int) -> bool {
    0x8A <= i < 0x90 || 0x24A <= i < 0x250 || 0x110 <= i < 0x112 || 0x2D0 <= i < 0x2D2
}

/// Whether the three checksums stored in the primary area at `base` are
/// those of what they cover.
pub open spec fn area_checksums_valid(d: Seq<u8>, base: int) -> bool {
    &&& le16_at(d, base + 0x0A) == crc16_ccitt_false(type3_input(d, base))
    &&& le16_at(d, base + 0x0C) == crc16_ccitt_false(type2_input(d, base))
    &&& le16_at(d, base + 0x0E) == crc16_ccitt_false(type1_input(d, base))
}

/// Whether each of the eight checksums stored in `d` is that of what it covers.
pub open spec fn checksums_valid(d: Seq<u8>) -> bool {
    &&& area_checksums_valid(d, 0x80)
    &&& area_checksums_valid(d, 0x240)
    &&& le16_at(d, 0x110) == crc16_ccitt_false(type6_input(d, 0x110))
    &&& le16_at(d, 0x2D0) == crc16_ccitt_false(type6_input(d, 0x2D0))
}

/// Two sequences that agree from `lo` up to `hi` have the same stretch there.
pub proof fn lemma_subrange_agree(x: Seq<u8>, y: Seq<u8>, lo: int, hi: int)
    requires
        0 <= lo <= hi <= x.len(),
        hi <= y.len(),
        forall|i: int| lo <= i < hi ==> x[i] == y[i],
    ensures
        x.subrange(lo, hi) == y.subrange(lo, hi),
{
    assert(x.subrange(lo, hi) =~= y.subrange(lo, hi));
}

/// The checksum of two stretches of the tag and `pad` zero bytes after them.
pub fn window_crc(
    data: &[u8; NUM_BYTES],
    first: usize,
    first_len: usize,
    second: usize,
    second_len: usize,
    pad: usize,
) -> (crc: u16)
    requires
        first + first_len <= NUM_BYTES,
        second + second_len <= NUM_BYTES,
    ensures
        crc == crc16_ccitt_false(
            data@.subrange(first as int, first + first_len) + data@.subrange(
                second as int,
                second + second_len,
            ) + zeros(pad as nat),
        ),
{
    let mut seed: Vec<u8> = Vec::new();
    let mut i: usize = 0;
    while i < first_len
        invariant
            i <= first_len,
            first + first_len <= NUM_BYTES,
            seed@ == data@.subrange(first as int, first + i),
        decreases first_len - i,
    {
        seed.push(data[first + i]);
        assert(seed@ =~= data@.subrange(first as int, first + i + 1));
        i += 1;
    }
    let mut j: usize = 0;
    while j < second_len
        invariant
            j <= second_len,
            second + second_len <= NUM_BYTES,
            first + first_len <= NUM_BYTES,
            seed@ == data@.subrange(first as int, first + first_len) + data@.subrange(
                second as int,
                second + j,
            ),
        decreases second_len - j,
    {
        seed.push(data[second + j]);
        assert(seed@ =~= data@.subrange(first as int, first + first_len) + data@.subrange(
            second as int,
            second + j + 1,
        ));
        j += 1;
    }
    let mut k: usize = 0;
    while k < pad
        invariant
            k <= pad,
            second + second_len <= NUM_BYTES,
            first + first_len <= NUM_BYTES,
            seed@ == data@.subrange(first as int, first + first_len) + data@.subrange(
                second as int,
                second + second_len,
            ) + zeros(k as nat),
        decreases pad - k,
    {
        seed.push(0u8);
        assert(seed@ =~= data@.subrange(first as int, first + first_len) + data@.subrange(
            second as int,
            second + second_len,
        ) + zeros((k + 1) as nat));
        k += 1;
    }
    crc16_checksum(seed.as_slice())
}

/// Stores a checksum at `at`, low byte first.
pub fn store_checksum(data: &mut [u8; NUM_BYTES], at: usize, crc: u16)
    requires
        at + 2 <= NUM_BYTES,
    ensures
        final(data)@ == write_at(old(data)@, at as int, le16_bytes(crc)),
{
    let bytes = u16_to_le(crc);
    copy_into(data, at, &bytes);
}

/// Calculates the three checksums of the primary area at `base` and stores
/// them. The place of the first checksum holds 5 and 0 while it is computed.
pub fn calculate_area_checksums(data: &mut [u8; NUM_BYTES], base: usize)
    requires
        base + 0x90 <= NUM_BYTES,
    ensures
        final(data)@ == with_area_checksums(old(data)@, base as int),
{
    let ghost d = data@;
    data[base + 0x0E] = 0x05;
    data[base + 0x0F] = 0x00;
    let ghost p = data@;
    let crc3 = window_crc(data, base + 0x50, 0x20, base + 0x80, 0x10, 0xE0);
    proof {
        lemma_subrange_agree(p, d, base + 0x50, base + 0x70);
        lemma_subrange_agree(p, d, base + 0x80, base + 0x90);
    }
    store_checksum(data, base + 0x0A, crc3);
    let crc2 = window_crc(data, base + 0x10, 0x20, base + 0x40, 0x10, 0);
    proof {
        lemma_subrange_agree(data@, d, base + 0x10, base + 0x30);
        lemma_subrange_agree(data@, d, base + 0x40, base + 0x50);
        assert(zeros(0) =~= Seq::<u8>::empty());
        assert(type2_input(d, base as int) =~= type2_input(d, base as int) + zeros(0));
    }
    store_checksum(data, base + 0x0C, crc2);
    let ghost q = data@;
    let crc1 = window_crc(data, base, 0x10, 0, 0, 0);
    proof {
        let c3 = write_at(d, base + 0x0A, le16_bytes(crc3));
        let c2 = write_at(c3, base + 0x0C, le16_bytes(crc2));
        assert(q.subrange(base as int, base + 0x10) + q.subrange(0, 0) + zeros(0) =~= type1_input(
            c2,
            base as int,
        ));
    }
    store_checksum(data, base + 0x0E, crc1);
    assert(data@ =~= with_area_checksums(d, base as int));
}

/// Calculates the checksum of the secondary area at `base` and stores it.
/// Its place holds 6 and 1 while it is computed.
pub fn calculate_type6_checksum(data: &mut [u8; NUM_BYTES], base: usize)
    requires
        base + 0x50 <= NUM_BYTES,
    ensures
        final(data)@ == with_type6_checksum(old(data)@, base as int),
{
    let ghost d = data@;
    data[base] = 0x06;
    data[base + 1] = 0x01;
    let ghost p = data@;
    let crc = window_crc(data, base, 0x20, base + 0x30, 0x20, 0);
    proof {
        assert(p.subrange(base as int, base + 0x20) + p.subrange(base + 0x30, base + 0x50) + zeros(
            0,
        ) =~= type6_input(d, base as int));
    }
    store_checksum(data, base, crc);
    assert(data@ =~= with_type6_checksum(d, base as int));
}

/// Calculates all eight checksums and writes them in place.
pub fn calculate_checksums(data: &mut [u8; NUM_BYTES])
    ensures
        final(data)@ == with_checksums(old(data)@),
        checksums_valid(final(data)@),
        forall|i: int| 0 <= i < NUM_BYTES && !is_checksum_byte(i) ==> final(data)@[i] == old(data)@[i],
{
    calculate_area_checksums(data, 0x80);
    calculate_area_checksums(data, 0x240);
    calculate_type6_checksum(data, 0x110);
    calculate_type6_checksum(data, 0x2D0);
    proof {
        lemma_checksums_valid(old(data)@);
    }
}

/// After the three checksums of a primary area were stored, they are those
/// of what they cover, and only their six bytes have changed.
pub proof fn lemma_area_checksums_valid(d: Seq<u8>, base: int)
    requires
        d.len() == NUM_BYTES,
        0 <= base,
        base + 0x90 <= NUM_BYTES,
    ensures
        area_checksums_valid(with_area_checksums(d, base), base),
        with_area_checksums(d, base).len() == NUM_BYTES,
        forall|i: int|
            0 <= i < NUM_BYTES && !(base + 0x0A <= i < base + 0x10) ==> with_area_checksums(
                d,
                base,
            )[i] == d[i],
{
    let c3 = write_at(d, base + 0x0A, le16_bytes(crc16_ccitt_false(type3_input(d, base))));
    let c2 = write_at(c3, base + 0x0C, le16_bytes(crc16_ccitt_false(type2_input(d, base))));
    let w = with_area_checksums(d, base);
    lemma_le16_roundtrip(crc16_ccitt_false(type3_input(d, base)));
    lemma_le16_roundtrip(crc16_ccitt_false(type2_input(d, base)));
    lemma_le16_roundtrip(crc16_ccitt_false(type1_input(c2, base)));
    lemma_subrange_agree(w, d, base + 0x50, base + 0x70);
    lemma_subrange_agree(w, d, base + 0x80, base + 0x90);
    lemma_subrange_agree(w, d, base + 0x10, base + 0x30);
    lemma_subrange_agree(w, d, base + 0x40, base + 0x50);
    lemma_subrange_agree(w, c2, base, base + 0x0E);
}

/// After all checksums of a tag were stored, each of them is that of what
/// it covers in the tag as it then stands, and no other byte has changed.
pub proof fn lemma_checksums_valid(d: Seq<u8>)
    requires
        d.len() == NUM_BYTES,
    ensures
        checksums_valid(with_checksums(d)),
        with_checksums(d).len() == NUM_BYTES,
        forall|i: int| 0 <= i < NUM_BYTES && !is_checksum_byte(i) ==> with_checksums(d)[i] == d[i],
{
    let a = with_area_checksums(d, 0x80);
    lemma_area_checksums_valid(d, 0x80);
    let b = with_area_checksums(a, 0x240);
    lemma_area_checksums_valid(a, 0x240);
    let c = with_type6_checksum(b, 0x110);
    let w = with_type6_checksum(c, 0x2D0);
    lemma_le16_roundtrip(crc16_ccitt_false(type6_input(b, 0x110)));
    lemma_le16_roundtrip(crc16_ccitt_false(type6_input(c, 0x2D0)));
    // the first primary area is as it was after its own checksums
    lemma_subrange_agree(w, a, 0xd0, 0xf0);
    lemma_subrange_agree(w, a, 0x100, 0x110);
    lemma_subrange_agree(w, a, 0x90, 0xb0);
    lemma_subrange_agree(w, a, 0xc0, 0xd0);
    lemma_subrange_agree(w, a, 0x80, 0x8e);
    // and so is the second
    lemma_subrange_agree(w, b, 0x290, 0x2b0);
    lemma_subrange_agree(w, b, 0x2c0, 0x2d0);
    lemma_subrange_agree(w, b, 0x250, 0x270);
    lemma_subrange_agree(w, b, 0x280, 0x290);
    lemma_subrange_agree(w, b, 0x240, 0x24e);
    // the two secondary areas
    lemma_subrange_agree(w, b, 0x112, 0x130);
    lemma_subrange_agree(w, b, 0x140, 0x160);
    lemma_subrange_agree(w, c, 0x2d2, 0x2f0);
    lemma_subrange_agree(w, c, 0x300, 0x320);
}

/// What a figure is: a value of one of the six catalogues, or `Unknown` with
/// a number that none of them names.
#[derive(Clone, Copy, Debug, PartialEq, Eq, Structural)]
pub enum Toy {
    Character(Character),
    Trap(Trap),
    Vehicle(Vehicle),
    Item(Item),
    Expansion(Expansion),
    ImaginatorCrystal(ImaginatorCrystal),
    Unknown(u16),
}

impl Toy {
    /// The 16-bit number that stands for this toy on a tag.
    pub open spec fn spec_id(self) -> u16 {
        match self {
            Toy::Character(c) => c.spec_id(),
            Toy::Trap(t) => t.spec_id(),
            Toy::Vehicle(v) => v.spec_id(),
            Toy::Item(i) => i.spec_id(),
            Toy::Expansion(e) => e.spec_id(),
            Toy::ImaginatorCrystal(ic) => ic.spec_id(),
            Toy::Unknown(u) => u,
        }
    }

    /// Whether one of the six catalogues names this toy.
    pub open spec fn is_named(self) -> bool {
        !(self is Unknown)
    }

    /// Whether one of the six catalogues names a toy by `id`.
    pub open spec fn known(id: u16) -> bool {
        exists|t: Toy| t.is_named() && t.spec_id() == id
    }

    /// The toy that `id` stands for: the catalogued toy with that number, or
    /// `Unknown` with the number where there is none.
    pub open spec fn spec_from_id(id: u16) -> Toy {
        if Toy::known(id) {
            choose|t: Toy| t.is_named() && t.spec_id() == id
        } else {
            Toy::Unknown(id)
        }
    }

    /// The six catalogues share no number: two catalogued toys with the same
    /// number are the same toy, in whatever order the catalogues are asked.
    pub proof fn lemma_id_injective(a: Toy, b: Toy)
        requires
            a.is_named(),
            b.is_named(),
            a.spec_id() == b.spec_id(),
        ensures
            a == b,
    {
    }

    /// Reading the number of a toy gives the toy back, unless it is an
    /// `Unknown` that holds a catalogued number.
    pub proof fn lemma_from_id_of_id(t: Toy)
        requires
            t.is_named() || !Toy::known(t.spec_id()),
        ensures
            Toy::spec_from_id(t.spec_id()) == t,
    {
        if t.is_named() {
            Toy::lemma_id_injective(Toy::spec_from_id(t.spec_id()), t);
        }
    }

    /// Reading a number and writing the result down again gives the number back.
    pub proof fn lemma_id_of_from_id(id: u16)
        ensures
            Toy::spec_from_id(id).spec_id() == id,
    {
    }
}

impl From<Toy> for u16 {
    fn from(value: Toy) -> (r: u16) {
        match value {
            Toy::Character(c) => u16::from(c),
            Toy::Trap(t) => u16::from(t),
            Toy::Vehicle(v) => u16::from(v),
            Toy::Item(i) => u16::from(i),
            Toy::Expansion(e) => u16::from(e),
            Toy::ImaginatorCrystal(ic) => u16::from(ic),
            Toy::Unknown(u) => u,
        }
    }
}

impl FromSpecImpl<Toy> for u16 {
    open spec fn obeys_from_spec() -> bool {
        true
    }

    open spec fn from_spec(value: Toy) -> u16 {
        value.spec_id()
    }
}

impl TryFrom<u16> for Toy {
    type Error = &'static str;

    fn try_from(value: u16) -> (r: Result<Self, Self::Error>) {
        Ok(get_figure_type(value))
    }
}

impl TryFromSpecImpl<u16> for Toy {
    open spec fn obeys_try_from_spec() -> bool {
        true
    }

    open spec fn try_from_spec(value: u16) -> Result<Self, Self::Error> {
        Ok(Toy::spec_from_id(value))
    }
}

/// Finds what the number `id` stands for, asking the catalogues of
/// characters, traps, vehicles, items, expansions and crystals in turn.
pub fn get_figure_type(id: u16) -> (r: Toy)
    ensures
        r == Toy::spec_from_id(id),
{
    let r = match Character::find(id) {
        Some(c) => Toy::Character(c),
        None => match Trap::find(id) {
            Some(t) => Toy::Trap(t),
            None => match Vehicle::find(id) {
                Some(v) => Toy::Vehicle(v),
                None => match Item::find(id) {
                    Some(i) => Toy::Item(i),
                    None => match Expansion::find(id) {
                        Some(e) => Toy::Expansion(e),
                        None => match ImaginatorCrystal::find(id) {
                            Some(ic) => Toy::ImaginatorCrystal(ic),
                            None => Toy::Unknown(id),
                        },
                    },
                },
            },
        },
    };
    proof {
        if r.is_named() {
            assert(r.spec_id() == id);
            Toy::lemma_id_injective(Toy::spec_from_id(id), r);
        } else {
            assert forall|t: Toy| t.is_named() implies t.spec_id() != id by {
                match t {
                    Toy::Character(x) => {
                        assert(Character::known(id) || x.spec_id() != id);
                    },
                    Toy::Trap(x) => {
                        assert(Trap::known(id) || x.spec_id() != id);
                    },
                    Toy::Vehicle(x) => {
                        assert(Vehicle::known(id) || x.spec_id() != id);
                    },
                    Toy::Item(x) => {
                        assert(Item::known(id) || x.spec_id() != id);
                    },
                    Toy::Expansion(x) => {
                        assert(Expansion::known(id) || x.spec_id() != id);
                    },
                    Toy::ImaginatorCrystal(x) => {
                        assert(ImaginatorCrystal::known(id) || x.spec_id() != id);
                    },
                    Toy::Unknown(_) => {},
                }
            }
        }
    }
    r
}

/// The upgrade path that a character has chosen, if any.
#[derive(Clone, Copy, Debug, PartialEq, Eq, Structural)]
pub enum UpgradePath {
    Top,
    Bottom,
    NoPath,
}

impl UpgradePath {
    /// The two bits that stand for this path on a tag.
    pub open spec fn spec_bits(self) -> u8 {
        match self {
            UpgradePath::Top => 0b01,
            UpgradePath::Bottom => 0b11,
            UpgradePath::NoPath => 0b00,
        }
    }

    /// The path that two bits stand for; the unassigned `0b10` reads as no path.
    pub open spec fn spec_from_bits(bits: u8) -> UpgradePath {
        if bits == 0b01 {
            UpgradePath::Top
        } else if bits == 0b11 {
            UpgradePath::Bottom
        } else {
            UpgradePath::NoPath
        }
    }

    /// The two bits that stand for this path on a tag.
    pub fn bits(self) -> (r: u8)
        ensures
            r == self.spec_bits(),
    {
        match self {
            UpgradePath::Top => 0b01,
            UpgradePath::Bottom => 0b11,
            UpgradePath::NoPath => 0b00,
        }
    }

    /// Reads a path from two bits.
    pub fn from_bits(bits: u8) -> (r: UpgradePath)
        ensures
            r == UpgradePath::spec_from_bits(bits),
    {
        match bits {
            0b01 => UpgradePath::Top,
            0b11 => UpgradePath::Bottom,
            _ => UpgradePath::NoPath,
        }
    }
}

/// The key of sector 0, the same on every tag.
pub open spec fn sector0_key() -> Seq<u8> {
    seq![0x4Bu8, 0x0Bu8, 0x20u8, 0x10u8, 0x7Cu8, 0xCBu8]
}

/// The access bytes of sector 0.
pub open spec fn sector0_access() -> Seq<u8> {
    seq![0x0Fu8, 0x0Fu8, 0x0Fu8, 0x69u8]
}

/// The check byte of the four identifying bytes: their exclusive or.
pub open spec fn bcc_of(uid: Seq<u8>) -> u8 {
    uid[0] ^ uid[1] ^ uid[2] ^ uid[3]
}

/// The first 30 bytes of a new tag: the identifying bytes and their check
/// byte, 0x81, 0x01 and 0x0F, the toy's number at 0x10 and the variant's at
/// 0x1C, zero elsewhere.
pub open spec fn fresh_header(toy_id: u16, variant_id: u16, uid: Seq<u8>) -> Seq<u8> {
    uid + seq![bcc_of(uid), 0x81u8, 0x01u8, 0x0Fu8] + zeros(8) + le16_bytes(toy_id) + zeros(10)
        + le16_bytes(variant_id)
}

/// Sector 0 of a new tag: the header, its checksum, an empty block, and the
/// trailer with the key of sector 0.
pub open spec fn fresh_sector0(toy_id: u16, variant_id: u16, uid: Seq<u8>) -> Seq<u8> {
    fresh_header(toy_id, variant_id, uid) + le16_bytes(
        crc16_ccitt_false(fresh_header(toy_id, variant_id, uid)),
    ) + zeros(16) + sector0_key() + sector0_access() + zeros(6)
}

/// The 1024 bytes of a new tag: sector 0, then fifteen sectors that are
/// empty but for the key and the access bytes of their trailers.
pub open spec fn fresh_tag(toy_id: u16, variant_id: u16, uid: Seq<u8>) -> Seq<u8> {
    with_sector_keys(fresh_sector0(toy_id, variant_id, uid) + zeros(960))
}

/// The key of sector 0, with which a reader opens every tag.
pub fn key_a_sector_0() -> (r: [u8; 6])
    ensures
        r@ == sector0_key(),
{
    let r: [u8; 6] = [0x4B, 0x0B, 0x20, 0x10, 0x7C, 0xCB];
    assert(r@ =~= sector0_key());
    r
}

/// Builds the bytes of a new tag for a toy, a variant and four identifying bytes.
pub fn new_tag(toy_id: u16, variant_id: u16, uid: &[u8; 4]) -> (data: [u8; NUM_BYTES])
    ensures
        data@ == fresh_tag(toy_id, variant_id, uid@),
{
    let mut data = [0u8;NUM_BYTES];
    let mut bcc = uid[0];
    let mut i: usize = 1;
    while i < 4
        invariant
            1 <= i <= 4,
            bcc == if i == 1 {
                uid@[0]
            } else if i == 2 {
                uid@[0] ^ uid@[1]
            } else if i == 3 {
                uid@[0] ^ uid@[1] ^ uid@[2]
            } else {
                bcc_of(uid@)
            },
        decreases 4 - i,
    {
        bcc ^= uid[i];
        i += 1;
    }
    copy_into(&mut data, 0, uid.as_slice());
    data[4] = bcc;
    // SAK
    data[5] = 0x81;
    // ATQA
    data[6] = 0x01;
    data[7] = 0x0F;
    // Toy
    let toy_bytes = u16_to_le(toy_id);
    copy_into(&mut data, BLOCK_SIZE, &toy_bytes);
    // Variant
    let variant_bytes = u16_to_le(variant_id);
    copy_into(&mut data, BLOCK_SIZE + 0xC, &variant_bytes);
    let ghost header = fresh_header(toy_id, variant_id, uid@);
    assert(data@.subrange(0, 0x1E) =~= header);
    let checksum = window_crc(&data, 0, 0x1E, 0, 0, 0);
    assert(data@.subrange(0, 0x1E) + data@.subrange(0, 0) + zeros(0) =~= header);
    store_checksum(&mut data, 0x1E, checksum);
    // Sector 0 trailer
    let key0 = key_a_sector_0();
    copy_into(&mut data, 3 * BLOCK_SIZE, &key0);
    let access0: [u8; 4] = [0x0F, 0x0F, 0x0F, 0x69];
    assert(access0@ =~= sector0_access());
    copy_into(&mut data, 3 * BLOCK_SIZE + 6, &access0);
    assert(data@ =~= fresh_sector0(toy_id, variant_id, uid@) + zeros(960));
    calculate_key_a(&mut data);
    data
}

/// In a new tag the check byte is the exclusive or of the identifying bytes,
/// the three bytes after it are 0x81, 0x01 and 0x0F, the toy's and the
/// variant's numbers stand at 0x10 and 0x1C, and the checksum at 0x1E is that
/// of the 30 bytes before it.
pub proof fn lemma_fresh_tag_header(toy_id: u16, variant_id: u16, uid: Seq<u8>)
    requires
        uid.len() == 4,
    ensures
        fresh_tag(toy_id, variant_id, uid).len() == NUM_BYTES,
        fresh_tag(toy_id, variant_id, uid).subrange(0, 4) == uid,
        fresh_tag(toy_id, variant_id, uid)[4] == uid[0] ^ uid[1] ^ uid[2] ^ uid[3],
        fresh_tag(toy_id, variant_id, uid)[5] == 0x81,
        fresh_tag(toy_id, variant_id, uid)[6] == 0x01,
        fresh_tag(toy_id, variant_id, uid)[7] == 0x0F,
        le16_at(fresh_tag(toy_id, variant_id, uid), 0x10) == toy_id,
        le16_at(fresh_tag(toy_id, variant_id, uid), 0x1C) == variant_id,
        le16_at(fresh_tag(toy_id, variant_id, uid), 0x1E) == crc16_ccitt_false(
            fresh_tag(toy_id, variant_id, uid).subrange(0, 0x1E),
        ),
        fresh_tag(toy_id, variant_id, uid).subrange(0x30, 0x36) == sector0_key(),
        fresh_tag(toy_id, variant_id, uid).subrange(0x36, 0x3A) == sector0_access(),
{
    let t = fresh_tag(toy_id, variant_id, uid);
    let s0 = fresh_sector0(toy_id, variant_id, uid);
    let header = fresh_header(toy_id, variant_id, uid);
    lemma_sector_keys_derived(s0 + zeros(960), 1);
    assert(t.subrange(0, 64) =~= s0);
    assert forall|i: int| 0 <= i < 64 implies t[i] == s0[i] by {
        assert(t.subrange(0, 64)[i] == t[i]);
    }
    assert(t.subrange(0, 4) =~= uid);
    assert(t.subrange(0, 0x1E) =~= header);
    lemma_le16_roundtrip(toy_id);
    lemma_le16_roundtrip(variant_id);
    lemma_le16_roundtrip(crc16_ccitt_false(header));
    assert(t.subrange(0x30, 0x36) =~= sector0_key());
    assert(t.subrange(0x36, 0x3A) =~= sector0_access());
}

/// Whether a write of `len` bytes from `start` on reaches block `b`.
pub open spec fn touches(start: int, len: int, b: int) -> bool {
    len > 0 && start / 16 <= b <= (start + len - 1) / 16
}

/// The used blocks after a write of `len` bytes from `start` on.
pub open spec fn mark_used(used: Seq<bool>, start: int, len: int) -> Seq<bool> {
    Seq::new(used.len(), |b: int| used[b] || touches(start, len, b))
}

/// In a new tag the trailer of each sector from 1 to 15 begins with the six
/// low bytes, lowest first, of the 48-bit checksum of the identifying bytes
/// and the sector's number, and goes on with the access bytes.
pub proof fn lemma_fresh_tag_keys(toy_id: u16, variant_id: u16, uid: Seq<u8>, sector: int)
    requires
        uid.len() == 4,
        1 <= sector < 16,
    ensures
        fresh_tag(toy_id, variant_id, uid).subrange(64 * sector + 48, 64 * sector + 54)
            == key_a_bytes(crc48_key(uid.push(sector as u8))),
        fresh_tag(toy_id, variant_id, uid).subrange(64 * sector + 54, 64 * sector + 58)
            == sector_access(),
{
    let base = fresh_sector0(toy_id, variant_id, uid) + zeros(960);
    lemma_sector_keys_derived(base, sector);
    assert(base.subrange(0, 4) =~= uid);
}

/// The four identifying bytes that a new figure gets: those given, or four zeros.
pub open spec fn uid_or_zero(nuid: Option<[u8; 4]>) -> Seq<u8> {
    match nuid {
        Some(v) => v@,
        None => zeros(4),
    }
}

/// A figure as the contracts see it: its 1024 bytes in the clear, which of
/// its 64 blocks are used, whether it was changed since it was made or
/// loaded, and what toy and variant it was made or loaded as.
pub struct TagState {
    pub data: Seq<u8>,
    pub used: Seq<bool>,
    pub modified: bool,
    pub figure: Toy,
    pub variant: Variant,
}

impl TagState {
    /// What holds of every figure: it has 1024 bytes and 64 blocks, and a
    /// block that is not used holds only zeros.
    pub open spec fn wf(self) -> bool {
        &&& self.data.len() == NUM_BYTES
        &&& self.used.len() == NUM_BLOCKS
        &&& forall|b: int| 0 <= b < NUM_BLOCKS && !#[trigger] self.used[b] ==> !block_nonzero(self.data, b)
    }

    /// The new figure of a toy, a variant and four identifying bytes.
    pub open spec fn fresh(toy: Toy, variant: Variant, uid: Seq<u8>) -> TagState {
        TagState {
            data: fresh_tag(toy.spec_id(), variant.spec_id(), uid),
            used: used_mask(fresh_tag(toy.spec_id(), variant.spec_id(), uid)),
            modified: false,
            figure: toy,
            variant,
        }
    }

    /// This figure after `bytes` were written from `start` on: the bytes are
    /// in place, every block that the write reaches is used, and the figure
    /// counts as changed.
    pub open spec fn with_bytes(self, start: int, bytes: Seq<u8>) -> TagState {
        TagState {
            data: write_at(self.data, start, bytes),
            used: mark_used(self.used, start, bytes.len() as int),
            modified: true,
            ..self
        }
    }

    /// This figure after the counters of its areas were set so that the
    /// first area of each pair is the current one: 1 at 0x89 and 0x112, 0 at
    /// 0x249 and 0x2D2, and 1 at 0x93, 0x96, 0x253 and 0x256.
    pub open spec fn with_ones(self) -> TagState {
        self.with_bytes(0x89, seq![0x01u8]).with_bytes(0x249, seq![0x00u8]).with_bytes(
            0x112,
            seq![0x01u8],
        ).with_bytes(0x2D2, seq![0x00u8]).with_bytes(0x93, seq![0x01u8]).with_bytes(
            0x96,
            seq![0x01u8],
        ).with_bytes(0x253, seq![0x01u8]).with_bytes(0x256, seq![0x01u8])
    }

    /// This figure with the data blocks of sectors 1 to 15 zeroed: sector 0
    /// and the sector trailers stay, the used blocks are found anew, and the
    /// figure counts as unchanged.
    pub open spec fn cleared(self) -> TagState {
        let data = Seq::new(
            self.data.len(),
            |i: int|
                if is_data_block(i / 16) {
                    0u8
                } else {
                    self.data[i]
                },
        );
        TagState { data, used: used_mask(data), modified: false, ..self }
    }

    /// The bytes of this figure as they are saved, before encryption: with
    /// the checksums stored if the figure was changed, as they are if not.
    pub open spec fn plain(self) -> Seq<u8> {
        if self.modified {
            with_checksums(self.data)
        } else {
            self.data
        }
    }

    /// The blocks that count as used when this figure is saved: its used
    /// blocks and, if it was changed, the four blocks that hold checksums.
    pub open spec fn save_mask(self) -> Seq<bool> {
        if self.modified {
            self.used.update(0x08, true).update(0x24, true).update(0x11, true).update(0x2D, true)
        } else {
            self.used
        }
    }

    /// The 1024 bytes that saving this figure gives.
    pub open spec fn encoded(self) -> Seq<u8> {
        crypt_tag(self.plain(), self.save_mask(), true)
    }

    /// The figure that loading 1024 bytes gives: the used blocks are those
    /// of the bytes as they come, the used data blocks are decrypted, and toy
    /// and variant are read from the header.
    pub open spec fn decoded(bytes: Seq<u8>) -> TagState {
        let used = used_mask(bytes);
        let data = crypt_tag(bytes, used, false);
        TagState {
            data,
            used,
            modified: false,
            figure: Toy::spec_from_id(le16_at(data, 0x10)),
            variant: Variant::spec_from_id(le16_at(data, 0x1C)),
        }
    }

    /// Whether saving this figure and loading what was saved gives the
    /// figure back: it is unchanged since it was made or loaded, its toy and
    /// variant are what its header reads as, and its used blocks are those
    /// of its saved bytes.
    pub open spec fn is_settled(self) -> bool {
        &&& !self.modified
        &&& self.figure == Toy::spec_from_id(le16_at(self.data, 0x10))
        &&& self.variant == Variant::spec_from_id(le16_at(self.data, 0x1C))
        &&& self.used == used_mask(self.encoded())
    }

    /// Where the current primary area begins: each of the two primary areas
    /// has a counter, at 0x89 and at 0x249, and the area with the higher one
    /// is current; the first, where they are equal.
    pub open spec fn primary_start(self) -> int {
        if self.data[0x249] > self.data[0x89] {
            area_start(1)
        } else {
            area_start(0)
        }
    }

    /// Where the current secondary area begins: the counters are at 0x112
    /// and at 0x2D2, and the area with the higher one is current; the
    /// first, where they are equal.
    pub open spec fn secondary_start(self) -> int {
        if self.data[0x2D2] > self.data[0x112] {
            area_start(3)
        } else {
            area_start(2)
        }
    }

    /// This figure after `bytes` were written at `offset` in both primary areas.
    pub open spec fn with_primary(self, offset: int, bytes: Seq<u8>) -> TagState {
        self.with_bytes(area_start(0) + offset, bytes).with_bytes(area_start(1) + offset, bytes)
    }

    /// This figure after `bytes` were written at `offset` in both secondary areas.
    pub open spec fn with_secondary(self, offset: int, bytes: Seq<u8>) -> TagState {
        self.with_bytes(area_start(2) + offset, bytes).with_bytes(area_start(3) + offset, bytes)
    }

    /// After the counters were set, the first area of each pair is the
    /// current one, and but for the eight bytes that were set the tag is as
    /// it was.
    pub proof fn lemma_with_ones(self)
        requires
            self.data.len() == NUM_BYTES,
        ensures
            self.with_ones().data.len() == NUM_BYTES,
            self.with_ones().data[0x89] == 1,
            self.with_ones().data[0x249] == 0,
            self.with_ones().data[0x112] == 1,
            self.with_ones().data[0x2D2] == 0,
            self.with_ones().primary_start() == 0x80,
            self.with_ones().secondary_start() == 0x110,
            self.with_ones().modified,
            self.with_ones().figure == self.figure,
            self.with_ones().variant == self.variant,
            forall|i: int|
                0 <= i < NUM_BYTES && i != 0x89 && i != 0x249 && i != 0x112 && i != 0x2D2 && i
                    != 0x93 && i != 0x96 && i != 0x253 && i != 0x256
                    ==> #[trigger] self.with_ones().data[i] == self.data[i],
    {
    }

    /// A write inside the tag keeps a figure well formed.
    pub proof fn lemma_with_bytes_wf(self, start: int, bytes: Seq<u8>)
        requires
            self.wf(),
            0 <= start,
            start + bytes.len() <= NUM_BYTES,
        ensures
            self.with_bytes(start, bytes).wf(),
    {
        let after = self.with_bytes(start, bytes);
        assert forall|b: int| 0 <= b < NUM_BLOCKS && !#[trigger] after.used[b] implies !block_nonzero(
            after.data,
            b,
        ) by {
            assert(!self.used[b]);
            assert forall|k: int| 16 * b <= k < 16 * b + 16 implies after.data[k] == 0 by {
                if start <= k < start + bytes.len() {
                    assert(start / 16 <= k / 16 <= (start + bytes.len() - 1) / 16);
                    assert(k / 16 == b);
                }
            }
        }
    }

    /// Setting the counters keeps a figure well formed.
    pub proof fn lemma_with_ones_wf(self)
        requires
            self.wf(),
        ensures
            self.with_ones().wf(),
    {
        let a = self.with_bytes(0x89, seq![0x01u8]);
        self.lemma_with_bytes_wf(0x89, seq![0x01u8]);
        let b = a.with_bytes(0x249, seq![0x00u8]);
        a.lemma_with_bytes_wf(0x249, seq![0x00u8]);
        let c = b.with_bytes(0x112, seq![0x01u8]);
        b.lemma_with_bytes_wf(0x112, seq![0x01u8]);
        let d = c.with_bytes(0x2D2, seq![0x00u8]);
        c.lemma_with_bytes_wf(0x2D2, seq![0x00u8]);
        let e = d.with_bytes(0x93, seq![0x01u8]);
        d.lemma_with_bytes_wf(0x93, seq![0x01u8]);
        let f = e.with_bytes(0x96, seq![0x01u8]);
        e.lemma_with_bytes_wf(0x96, seq![0x01u8]);
        let g = f.with_bytes(0x253, seq![0x01u8]);
        f.lemma_with_bytes_wf(0x253, seq![0x01u8]);
        g.lemma_with_bytes_wf(0x256, seq![0x01u8]);
    }

    /// A new figure is well formed.
    pub proof fn lemma_fresh_wf(toy: Toy, variant: Variant, uid: Seq<u8>)
        requires
            uid.len() == 4,
        ensures
            TagState::fresh(toy, variant, uid).wf(),
    {
    }

    /// After clearing, the data blocks of sectors 1 to 15 are zero, sector 0
    /// and the sector trailers are as they were, and the figure is well formed.
    pub proof fn lemma_cleared(self)
        requires
            self.data.len() == NUM_BYTES,
        ensures
            self.cleared().wf(),
            forall|i: int|
                64 <= i < NUM_BYTES && i % 64 < 48 ==> #[trigger] self.cleared().data[i] == 0,
            forall|i: int| 0 <= i < 64 ==> #[trigger] self.cleared().data[i] == self.data[i],
            forall|i: int|
                0 <= i < NUM_BYTES && i % 64 >= 48 ==> #[trigger] self.cleared().data[i]
                    == self.data[i],
            !self.cleared().modified,
            self.cleared().figure == self.figure,
            self.cleared().variant == self.variant,
    {
    }

    /// A loaded figure is well formed.
    pub proof fn lemma_decoded_wf(bytes: Seq<u8>)
        requires
            bytes.len() == NUM_BYTES,
        ensures
            TagState::decoded(bytes).wf(),
    {
        let t = TagState::decoded(bytes);
        assert forall|b: int| 0 <= b < NUM_BLOCKS && !#[trigger] t.used[b] implies !block_nonzero(
            t.data,
            b,
        ) by {
            assert(!block_nonzero(bytes, b));
            assert forall|k: int| 16 * b <= k < 16 * b + 16 implies t.data[k] == 0 by {
                assert(k / 16 == b);
                assert(t.data[k] == bytes[k]);
            }
        }
    }

    /// A new figure whose toy and variant are what their numbers read as
    /// is settled: saving and loading give it back.
    pub proof fn lemma_fresh_is_settled(toy: Toy, variant: Variant, uid: Seq<u8>)
        requires
            uid.len() == 4,
            toy == Toy::spec_from_id(toy.spec_id()),
            variant == Variant::spec_from_id(variant.spec_id()),
        ensures
            TagState::fresh(toy, variant, uid).is_settled(),
            TagState::fresh(toy, variant, uid).encoded() == TagState::fresh(toy, variant, uid).data,
    {
        let t = TagState::fresh(toy, variant, uid);
        lemma_fresh_tag_header(toy.spec_id(), variant.spec_id(), uid);
        let base = fresh_sector0(toy.spec_id(), variant.spec_id(), uid) + zeros(960);
        assert forall|i: int| 0 <= i < NUM_BYTES && is_data_block(i / 16) implies t.data[i] == 0 by {
            assert(i / 64 >= 1 && i % 64 < 48);
            assert(t.data[i] == base[i]);
        }
        assert forall|b: int| 0 <= b < NUM_BLOCKS && is_data_block(b) implies !t.used[b] by {
            assert forall|k: int| 16 * b <= k < 16 * b + 16 implies t.data[k] == 0 by {
                assert(k / 16 == b);
            }
        }
        assert(t.encoded() =~= t.data);
    }
}

/// What every figure offers, whatever kind of toy it is.
pub trait Skylander: Sized + View<V = TagState> {
    /// Every figure has 1024 bytes in 64 blocks.
    proof fn lemma_lengths(&self)
        ensures
            self@.data.len() == NUM_BYTES,
            self@.used.len() == NUM_BLOCKS,
    ;

    /// Makes an empty figure of the toy and the variant given. Whether the
    /// two fit together is not checked.
    /// - The figure has the identifying bytes given, or four zeros.
    /// - Only sector 0 and the sector trailers hold anything.
    fn new(toy: Toy, variant: Variant, nuid: Option<[u8; 4]>) -> (r: Self)
        ensures
            r@ == TagState::fresh(toy, variant, uid_or_zero(nuid)),
            r@.wf(),
    ;

    /// Loads a figure from the 1024 bytes of a saved tag. The bytes are not
    /// checked. Saving the figure as it was loaded gives the same bytes.
    fn from_bytes(bytes: &[u8; NUM_BYTES]) -> (r: Self)
        ensures
            r@ == TagState::decoded(bytes@),
            r@.wf(),
            r@.is_settled(),
            r@.encoded() == bytes@,
    ;

    /// Gives the 1024 bytes to save: the checksums are stored first if the
    /// figure was changed, then the used data blocks are encrypted.
    /// - Decrypted again, the bytes of a changed figure hold eight
    ///   checksums that are those of what they cover, and differ from the
    ///   figure in no other byte.
    /// - Sector 0, the sector trailers and the blocks that do not count as
    ///   used are given as they stand.
    /// - Loading the bytes of a settled figure gives the figure back.
    fn to_bytes(&self) -> (r: [u8; NUM_BYTES])
        ensures
            r@ == self@.encoded(),
            crypt_tag(r@, self@.save_mask(), false) == self@.plain(),
            self@.modified ==> checksums_valid(self@.plain()),
            forall|i: int|
                0 <= i < NUM_BYTES && !is_checksum_byte(i) ==> #[trigger] self@.plain()[i]
                    == self@.data[i],
            forall|i: int|
                0 <= i < NUM_BYTES && !(is_data_block(i / 16) && self@.save_mask()[i / 16])
                    ==> #[trigger] r@[i] == self@.plain()[i],
            used_mask(r@) == self@.save_mask() ==> TagState::decoded(r@).data == self@.plain(),
            self@.is_settled() ==> TagState::decoded(r@) == self@,
    ;

    /// Clears all data from the figure: sector 0 and the sector trailers stay.
    fn clear(&mut self)
        ensures
            final(self)@ == old(self)@.cleared(),
            final(self)@.wf(),
    ;

    /// What the figure is: `Unknown` with its number if no catalogue names it.
    fn get_figure(&self) -> (r: Toy)
        ensures
            r == self@.figure,
    ;

    /// The variant of the figure: `Unknown` with its number if the catalogue
    /// does not name it.
    fn get_variant(&self) -> (r: Variant)
        ensures
            r == self@.variant,
    ;

    /// Sets the bytes from `start` up to `start + bytes.len()` to `bytes`.
    fn set_bytes(&mut self, start: usize, bytes: &[u8])
        requires
            start + bytes@.len() <= NUM_BYTES,
        ensures
            final(self)@ == old(self)@.with_bytes(start as int, bytes@),
            old(self)@.wf() ==> final(self)@.wf(),
    ;
}

/// A figure of any kind: the bytes of its tag in the clear, and what is
/// known about them.
pub struct SkylanderBase {
    data: [u8; NUM_BYTES],
    used: [bool; NUM_BLOCKS],
    modified: bool,
    figure: Toy,
    variant: Variant,
}

impl View for SkylanderBase {
    type V = TagState;

    closed spec fn view(&self) -> TagState {
        TagState {
            data: self.data@,
            used: self.used@,
            modified: self.modified,
            figure: self.figure,
            variant: self.variant,
        }
    }
}

impl SkylanderBase {
    /// Sets the counters of the areas so that a new figure can be changed
    /// at once, and the two bytes of each primary area that games after the
    /// first look for.
    pub fn write_ones(&mut self)
        ensures
            final(self)@ == old(self)@.with_ones(),
            old(self)@.wf() ==> final(self)@.wf(),
    {
        proof {
            if old(self)@.wf() {
                old(self)@.lemma_with_ones_wf();
            }
        }
        let one: [u8; 1] = [0x01];
        let zero: [u8; 1] = [0x00];
        assert(one@ =~= seq![0x01u8]);
        assert(zero@ =~= seq![0x00u8]);
        // Area counters
        self.set_bytes(0x89, &one);
        self.set_bytes(0x249, &zero);
        self.set_bytes(0x112, &one);
        self.set_bytes(0x2D2, &zero);
        // To be considered in the later games
        self.set_bytes(0x93, &one);
        self.set_bytes(0x96, &one);
        self.set_bytes(0x253, &one);
        self.set_bytes(0x256, &one);
    }

    /// Which blocks are used.
    pub fn used(&self) -> (r: &[bool; NUM_BLOCKS])
        ensures
            r@ == self@.used,
    {
        &self.used
    }

    /// The bytes of the tag, in the clear.
    pub fn data(&self) -> (r: &[u8; NUM_BYTES])
        ensures
            r@ == self@.data,
    {
        &self.data
    }

    /// Where the current primary area begins.
    pub fn current_primary(&self) -> (r: usize)
        ensures
            r == self@.primary_start(),
            r == 0x80 || r == 0x240,
    {
        if self.data[0x249] > self.data[0x89] {
            area_bounds(1).0
        } else {
            area_bounds(0).0
        }
    }

    /// Where the current secondary area begins.
    pub fn current_secondary(&self) -> (r: usize)
        ensures
            r == self@.secondary_start(),
            r == 0x110 || r == 0x2D0,
    {
        if self.data[0x2D2] > self.data[0x112] {
            area_bounds(3).0
        } else {
            area_bounds(2).0
        }
    }

    /// Writes `bytes` at `offset` in both primary areas.
    pub fn set_primary(&mut self, offset: usize, bytes: &[u8])
        requires
            offset + bytes@.len() <= 0x90,
        ensures
            final(self)@ == old(self)@.with_primary(offset as int, bytes@),
            old(self)@.wf() ==> final(self)@.wf(),
    {
        self.set_bytes(area_bounds(0).0 + offset, bytes);
        self.set_bytes(area_bounds(1).0 + offset, bytes);
    }

    /// Writes `bytes` at `offset` in both secondary areas.
    pub fn set_secondary(&mut self, offset: usize, bytes: &[u8])
        requires
            offset + bytes@.len() <= 0x50,
        ensures
            final(self)@ == old(self)@.with_secondary(offset as int, bytes@),
            old(self)@.wf() ==> final(self)@.wf(),
    {
        self.set_bytes(area_bounds(2).0 + offset, bytes);
        self.set_bytes(area_bounds(3).0 + offset, bytes);
    }

    /// Whether the figure was changed since it was made or loaded.
    pub fn is_modified(&self) -> (r: bool)
        ensures
            r == self@.modified,
    {
        self.modified
    }
}

impl Skylander for SkylanderBase {
    proof fn lemma_lengths(&self) {
    }

    fn new(toy: Toy, variant: Variant, nuid: Option<[u8; 4]>) -> (r: Self) {
        let uid = match nuid {
            Some(v) => v,
            None => [0u8;4],
        };
        assert(uid@ =~= uid_or_zero(nuid));
        let data = new_tag(u16::from(toy), u16::from(variant), &uid);
        let used = update_used(&data);
        proof {
            TagState::lemma_fresh_wf(toy, variant, uid@);
        }
        Self { data, used, modified: false, figure: toy, variant }
    }

    fn from_bytes(bytes: &[u8; NUM_BYTES]) -> (r: Self) {
        let mut data = *bytes;
        let used = update_used(&data);
        encryption_skylander(&mut data, &used, false);
        let figure = get_figure_type(u16_from_le(data[BLOCK_SIZE], data[BLOCK_SIZE + 1]));
        let variant = Variant::from_id(u16_from_le(data[BLOCK_SIZE + 0xC], data[BLOCK_SIZE + 0xD]));
        proof {
            TagState::lemma_decoded_wf(bytes@);
        }
        Self { data, used, modified: false, figure, variant }
    }

    fn to_bytes(&self) -> (r: [u8; NUM_BYTES]) {
        let mut data = self.data;
        let mut mask = self.used;
        if self.modified {
            calculate_checksums(&mut data);
            mask[0x08] = true;
            mask[0x24] = true;
            mask[0x11] = true;
            mask[0x2D] = true;
        }
        assert(mask@ =~= self@.save_mask());
        encryption_skylander(&mut data, &mask, true);
        data
    }

    fn clear(&mut self) {
        let mut b: usize = 4;
        while b < NUM_BLOCKS
            invariant
                4 <= b <= NUM_BLOCKS,
                self.used == old(self).used,
                self.modified == old(self).modified,
                self.figure == old(self).figure,
                self.variant == old(self).variant,
                forall|i: int|
                    0 <= i < NUM_BYTES ==> self.data@[i] == if is_data_block(i / 16) && i / 16 < b {
                        0u8
                    } else {
                        old(self).data@[i]
                    },
            decreases NUM_BLOCKS - b,
        {
            if b % BLOCKS_PER_SECTOR != 3 {
                let zero_block = [0u8;BLOCK_SIZE];
                let ghost before = self.data@;
                copy_into(&mut self.data, b * BLOCK_SIZE, &zero_block);
                assert forall|i: int| 0 <= i < NUM_BYTES implies self.data@[i] == if is_data_block(
                    i / 16,
                ) && i / 16 < b + 1 {
                    0u8
                } else {
                    old(self).data@[i]
                } by {
                    if 16 * b <= i < 16 * b + 16 {
                        assert(i / 16 == b);
                    } else {
                        assert(i / 16 != b);
                        assert(self.data@[i] == before[i]);
                    }
                }
            }
            b += 1;
        }
        assert(self.data@ =~= old(self)@.cleared().data);
        self.used = update_used(&self.data);
        self.modified = false;
        proof {
            old(self)@.lemma_cleared();
        }
    }

    fn get_figure(&self) -> (r: Toy) {
        self.figure
    }

    fn get_variant(&self) -> (r: Variant) {
        self.variant
    }

    fn set_bytes(&mut self, start: usize, bytes: &[u8]) {
        let len = bytes.len();
        self.modified = true;
        if len > 0 {
            let last = (start + len - 1) / BLOCK_SIZE;
            let mut b = start / BLOCK_SIZE;
            while b <= last
                invariant
                    start / 16 <= b <= last + 1,
                    last == (start + len - 1) / 16,
                    last < NUM_BLOCKS,
                    len > 0,
                    self.data == old(self).data,
                    self.modified,
                    self.figure == old(self).figure,
                    self.variant == old(self).variant,
                    forall|c: int|
                        0 <= c < NUM_BLOCKS ==> self.used@[c] == (old(self).used@[c] || (start / 16
                            <= c < b)),
                decreases last + 1 - b,
            {
                self.used[b] = true;
                b += 1;
            }
        }
        assert(self.used@ =~= mark_used(old(self).used@, start as int, len as int));
        copy_into(&mut self.data, start, bytes);
        proof {
            if old(self)@.wf() {
                old(self)@.lemma_with_bytes_wf(start as int, bytes@);
            }
        }
    }
}

} // verus!
