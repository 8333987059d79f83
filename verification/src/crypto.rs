//! The four outside primitives of the tag format: two CRCs, MD5 and AES-128.
//!
//! The functions that make the calls are not proved. The two CRCs are
//! stated bit by bit; MD5 and AES have a name for their result. The rest of
//! the library is verified against what is stated here.

use aes::Aes128;
use block_modes::block_padding::ZeroPadding;
use block_modes::BlockMode;
use block_modes::Ecb;
use md5::Digest;
use md5::Md5;
use vstd::prelude::*;

verus! {

/// One step of the 16-bit register: every bit moves up by one place, and
/// where the bit that leaves was set, the polynomial 0x1021 is folded in.
pub open spec fn crc16_shift(value: u16) -> u16 {
    if value & 0x8000 != 0 {
        (value << 1) ^ 0x1021
    } else {
        value << 1
    }
}

/// What a byte `index` leaves in the 16-bit register after eight steps.
pub open spec fn crc16_entry(index: u16) -> u16 {
    crc16_shift(
        crc16_shift(
            crc16_shift(
                crc16_shift(crc16_shift(crc16_shift(crc16_shift(crc16_shift(index << 8))))),
            ),
        ),
    )
}

/// The 16-bit register after one more byte of the message.
pub open spec fn crc16_update(crc: u16, byte: u8) -> u16 {
    crc16_entry(((crc >> 8) ^ (byte as u16)) & 0xFF) ^ (crc << 8)
}

/// The CRC-16/CCITT-FALSE checksum of `bytes`: width 16, polynomial 0x1021,
/// initial value 0xFFFF, bytes taken highest bit first, no final xor.
#[verifier::opaque]
pub open spec fn crc16_ccitt_false(bytes: Seq<u8>) -> u16
    decreases bytes.len(),
{
    if bytes.len() == 0 {
        0xFFFF
    } else {
        crc16_update(crc16_ccitt_false(bytes.drop_last()), bytes.last())
    }
}

/// One step of the 48-bit register, held in the upper 48 bits of 64: every
/// bit moves up by one place, and where the bit that leaves was set, the
/// low 48 bits of the polynomial 0x42F0E1EBA9EA3693 are folded in.
pub open spec fn crc48_shift(value: u64) -> u64 {
    if value & 0x8000_0000_0000_0000 != 0 {
        (value << 1) ^ 0xE1EB_A9EA_3693_0000
    } else {
        value << 1
    }
}

/// What a byte `index` leaves in the 48-bit register after eight steps.
pub open spec fn crc48_entry(index: u64) -> u64 {
    crc48_shift(
        crc48_shift(
            crc48_shift(
                crc48_shift(crc48_shift(crc48_shift(crc48_shift(crc48_shift(index << 56))))),
            ),
        ),
    )
}

/// The 48-bit register after one more byte of the message.
pub open spec fn crc48_update(crc: u64, byte: u8) -> u64 {
    crc48_entry(((crc >> 56) ^ (byte as u64)) & 0xFF) ^ (crc << 8)
}

/// The 48-bit register, in the upper 48 bits of 64, after the bytes of a
/// message: it starts as 2 * 2 * 3 * 1103 * 12868356821.
pub open spec fn crc48_register(bytes: Seq<u8>) -> u64
    decreases bytes.len(),
{
    if bytes.len() == 0 {
        0x9AE9_0326_0CC4_0000
    } else {
        crc48_update(crc48_register(bytes.drop_last()), bytes.last())
    }
}

/// The 48-bit CRC from which sector keys are derived: polynomial
/// 0x42F0E1EBA9EA3693, initial value 2 * 2 * 3 * 1103 * 12868356821,
/// bytes taken highest bit first, no final xor.
#[verifier::opaque]
pub open spec fn crc48_key(bytes: Seq<u8>) -> u64 {
    crc48_register(bytes) >> 16
}

/// The checksum of the nine digits `123456789` is 0x29B1.
pub proof fn lemma_crc16_check_value()
    ensures
        crc16_ccitt_false(
            seq![0x31u8, 0x32u8, 0x33u8, 0x34u8, 0x35u8, 0x36u8, 0x37u8, 0x38u8, 0x39u8],
        ) == 0x29B1,
{
    reveal_with_fuel(crc16_ccitt_false, 2);
    let digits = seq![0x31u8, 0x32u8, 0x33u8, 0x34u8, 0x35u8, 0x36u8, 0x37u8, 0x38u8, 0x39u8];
    assert(crc16_update(0xFFFF, 0x31) == 0xC782 && crc16_update(0xC782, 0x32) == 0x3DBA
        && crc16_update(0x3DBA, 0x33) == 0x5BCE && crc16_update(0x5BCE, 0x34) == 0x5349
        && crc16_update(0x5349, 0x35) == 0x4560 && crc16_update(0x4560, 0x36) == 0x2EF4
        && crc16_update(0x2EF4, 0x37) == 0x7718 && crc16_update(0x7718, 0x38) == 0xA12B
        && crc16_update(0xA12B, 0x39) == 0x29B1) by (bit_vector);
    assert(digits.subrange(0, 0).len() == 0);
    assert forall|n: int| 0 < n <= 9 implies #[trigger] digits.subrange(0, n).drop_last()
        == digits.subrange(0, n - 1) && digits.subrange(0, n).last() == digits[n - 1] by {
        assert(digits.subrange(0, n).drop_last() =~= digits.subrange(0, n - 1));
    }
    assert(crc16_ccitt_false(digits.subrange(0, 0)) == 0xFFFF);
    assert(crc16_ccitt_false(digits.subrange(0, 1)) == 0xC782);
    assert(crc16_ccitt_false(digits.subrange(0, 2)) == 0x3DBA);
    assert(crc16_ccitt_false(digits.subrange(0, 3)) == 0x5BCE);
    assert(crc16_ccitt_false(digits.subrange(0, 4)) == 0x5349);
    assert(crc16_ccitt_false(digits.subrange(0, 5)) == 0x4560);
    assert(crc16_ccitt_false(digits.subrange(0, 6)) == 0x2EF4);
    assert(crc16_ccitt_false(digits.subrange(0, 7)) == 0x7718);
    assert(crc16_ccitt_false(digits.subrange(0, 8)) == 0xA12B);
    assert(crc16_ccitt_false(digits.subrange(0, 9)) == 0x29B1);
    assert(digits.subrange(0, 9) =~= digits);
}

/// The MD5 digest of `message`.
pub uninterp spec fn md5_digest(message: Seq<u8>) -> Seq<u8>;

/// The 16 bytes that AES-128 in ECB mode makes of the one block `block` under `key`.
pub uninterp spec fn aes128_ecb_encrypt(key: Seq<u8>, block: Seq<u8>) -> Seq<u8>;

/// The 16 bytes that AES-128 in ECB mode recovers from the one block `block` under `key`.
pub uninterp spec fn aes128_ecb_decrypt(key: Seq<u8>, block: Seq<u8>) -> Seq<u8>;

/// Calls `crc::Crc::<u16>::checksum` with the catalogue's CRC-16/IBM-3740
/// parameters, which are those of CRC-16/CCITT-FALSE. Trusted: the result is
/// the register after every byte went through it, each byte by the entry
/// of the table that eight steps of the register give.
#[verifier::external_body]
pub(crate) fn crc16_checksum(bytes: &[u8]) -> (r: u16)
    ensures
        r == crc16_ccitt_false(bytes@),
{
    crc::Crc::<u16>::new(&crc::CRC_16_IBM_3740).checksum(bytes)
}

/// Calls `crc::Crc::<u64>::checksum` with the 48-bit parameters of the key
/// derivation. Trusted: the result is the register after every byte went
/// through it, moved down to the low 48 bits.
#[verifier::external_body]
pub(crate) fn key_a(bytes: &[u8]) -> (r: u64)
    ensures
        r == crc48_key(bytes@),
{
    crc::Crc::<u64>::new(
        &crc::Algorithm {
            width: 48,
            poly: 0x42f0e1eba9ea3693,
            init: 0x9ae903260cc4,
            refin: false,
            refout: false,
            xorout: 0,
            check: 0,
            residue: 0,
        },
    ).checksum(bytes)
}

/// Calls `md5::Md5::digest`. Trusted: the result is the named digest of the
/// bytes handed in.
#[verifier::external_body]
pub(crate) fn md5_hash(message: &[u8]) -> (r: [u8; 16])
    ensures
        r@ == md5_digest(message@),
{
    Md5::digest(message).into()
}

/// Builds `block_modes::Ecb<Aes128, ZeroPadding>` from `key` and calls its
/// `encrypt` on a copy of `block`. Trusted: the result is the named
/// ciphertext, and decrypting it under the same key gives `block` back.
#[verifier::external_body]
pub(crate) fn aes_encrypt_block(key: &[u8; 16], block: &[u8; 16]) -> (r: [u8; 16])
    ensures
        r@ == aes128_ecb_encrypt(key@, block@),
        aes128_ecb_decrypt(key@, r@) == block@,
{
    let mut buffer = *block;
    let cipher = Ecb::<Aes128, ZeroPadding>::new_from_slices(key, Default::default()).expect("Iv error");
    cipher.encrypt(&mut buffer, 16).expect("block mode error");
    buffer
}

/// Builds `block_modes::Ecb<Aes128, ZeroPadding>` from `key` and calls its
/// `decrypt` on a copy of `block`. Trusted: the result is the named
/// plaintext, and encrypting it under the same key gives `block` back.
#[verifier::external_body]
pub(crate) fn aes_decrypt_block(key: &[u8; 16], block: &[u8; 16]) -> (r: [u8; 16])
    ensures
        r@ == aes128_ecb_decrypt(key@, block@),
        aes128_ecb_encrypt(key@, r@) == block@,
{
    let mut buffer = *block;
    let cipher = Ecb::<Aes128, ZeroPadding>::new_from_slices(key, Default::default()).expect("Iv error");
    cipher.decrypt(&mut buffer).expect("block mode error");
    buffer
}

} // verus!
