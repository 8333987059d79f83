//! Characters: experience and level, gold, hat, upgrades and upgrade path,
//! and the last upgrade that some of them have.

use crate::skyhats::Hat;
use crate::skyutils::le16_at;
use crate::skyutils::le16_bytes;
use crate::skyutils::lemma_le16_roundtrip;
use crate::skyutils::u16_from_le;
use crate::skyutils::u16_to_le;
use crate::skyutils::Skylander;
use crate::skyutils::SkylanderBase;
use crate::skyutils::TagState;
use crate::skyutils::Toy;
use crate::skyutils::UpgradePath;
use crate::skyutils::NUM_BYTES;
use crate::skyvariants::Variant;
use vstd::prelude::*;
use vstd::std_specs::convert::FromSpecImpl;

verus! {

/// The most experience that a character can have.
pub const MAX_XP: u32 = 197500;

/// The experience that a character needs for level `level`; below every
/// experience for level 0, which no character has.
pub open spec fn level_xp(level: int) -> int {
    if level <= 0 {
        -1
    } else if level == 1 {
        0
    } else if level == 2 {
        1000
    } else if level == 3 {
        2200
    } else if level == 4 {
        3800
    } else if level == 5 {
        6000
    } else if level == 6 {
        9000
    } else if level == 7 {
        13000
    } else if level == 8 {
        18200
    } else if level == 9 {
        24800
    } else if level == 10 {
        33000
    } else if level == 11 {
        42700
    } else if level == 12 {
        53900
    } else if level == 13 {
        66600
    } else if level == 14 {
        80800
    } else if level == 15 {
        96500
    } else if level == 16 {
        113700
    } else if level == 17 {
        132400
    } else if level == 18 {
        152600
    } else if level == 19 {
        174300
    } else {
        197500
    }
}

/// Whether `level` is the level of a character with experience `xp`: the
/// highest level, from 1 to 20, whose experience `xp` reaches.
pub open spec fn is_level_of(level: int, xp: int) -> bool {
    &&& 1 <= level <= 20
    &&& level_xp(level) <= xp
    &&& level < 20 ==> xp < level_xp(level + 1)
}

/// The level of a character with experience `xp`.
pub open spec fn level_of_xp(xp: int) -> int {
    choose|level: int| is_level_of(level, xp)
}

/// The three parts in which experience is stored: the first fills up to
/// 33000, then the second up to 63500, then the third up to 101000; what
/// goes beyond 197500 is dropped.
pub open spec fn xp_parts(xp: int) -> (int, int, int) {
    let part1 = if xp < 33000 {
        xp
    } else {
        33000
    };
    let part2 = if xp - part1 < 63500 {
        xp - part1
    } else {
        63500
    };
    let part3 = if xp - part1 - part2 < 101000 {
        xp - part1 - part2
    } else {
        101000
    };
    (part1, part2, part3)
}

/// The three low bytes of `v`, lowest first.
pub open spec fn le24_bytes(v: u32) -> Seq<u8> {
    seq![(v % 256) as u8, (v / 0x100 % 256) as u8, (v / 0x1_0000 % 256) as u8]
}

/// The 24-bit value that `d` holds at `at`, low byte first.
pub open spec fn le24_at(d: Seq<u8>, at: int) -> int {
    d[at] + 0x100 * d[at + 1] + 0x1_0000 * d[at + 2]
}

/// The experience of the character `t`: the sum of its three parts.
pub open spec fn spec_xp(t: TagState) -> int {
    le16_at(t.data, t.primary_start()) + le16_at(t.data, t.secondary_start() + 0x3) + le24_at(
        t.data,
        t.secondary_start() + 0x8,
    )
}

/// The gold of the character `t`.
pub open spec fn spec_gold(t: TagState) -> u16 {
    le16_at(t.data, t.primary_start() + 0x3)
}

/// The 16 bits that hold upgrades and upgrade path of the character `t`.
pub open spec fn spec_upgrade_word(t: TagState) -> u16 {
    le16_at(t.data, t.primary_start() + 0x10)
}

/// The upgrades of the character `t`, one bit each: the eight bits above
/// the two of the path.
pub open spec fn spec_upgrades(t: TagState) -> u8 {
    (spec_upgrade_word(t) / 4 % 256) as u8
}

/// The upgrade path of the character `t`: the two lowest bits.
pub open spec fn spec_upgrade_path(t: TagState) -> UpgradePath {
    UpgradePath::spec_from_bits((spec_upgrade_word(t) % 4) as u8)
}

/// Whether the character `t` has its last upgrade.
pub open spec fn spec_wowpow(t: TagState) -> bool {
    t.data[t.secondary_start() + 0x6] == 1
}

/// The number of the hat that the character `t` wears.
pub open spec fn spec_hat_id(t: TagState) -> u16 {
    le16_at(t.data, t.primary_start() + 0x14)
}

/// The hat that the character `t` wears: the bare head where the
/// catalogue does not name the number on the tag.
pub open spec fn spec_hat(t: TagState) -> Hat {
    match Hat::lookup(spec_hat_id(t)) {
        Some(hat) => hat,
        None => Hat::NoHat,
    }
}

/// The character `t` with its gold set to `gold`.
pub open spec fn with_gold(t: TagState, gold: u16) -> TagState {
    t.with_ones().with_primary(0x3, le16_bytes(gold))
}

/// The character `t` with its experience set to `xp`, or to 197500 if `xp` is more.
pub open spec fn with_xp(t: TagState, xp: u32) -> TagState {
    let (part1, part2, part3) = xp_parts(xp as int);
    t.with_ones().with_primary(0x0, le16_bytes(part1 as u16)).with_secondary(
        0x3,
        le16_bytes(part2 as u16),
    ).with_secondary(0x8, le24_bytes(part3 as u32))
}

/// The character `t` with its upgrade path set to `path` and its upgrades kept.
pub open spec fn with_upgrade_path(t: TagState, path: UpgradePath) -> TagState {
    t.with_ones().with_primary(
        0x10,
        le16_bytes((spec_upgrade_word(t) - spec_upgrade_word(t) % 4 + path.spec_bits()) as u16),
    )
}

/// The character `t` with its upgrades set to `bitmap` and its upgrade path kept.
pub open spec fn with_upgrades(t: TagState, bitmap: u8) -> TagState {
    t.with_ones().with_primary(
        0x10,
        le16_bytes((4 * bitmap + spec_upgrade_path(t).spec_bits()) as u16),
    )
}

/// The character `t` with its last upgrade unlocked or locked.
pub open spec fn with_wowpow(t: TagState, set: bool) -> TagState {
    t.with_ones().with_secondary(
        0x6,
        seq![
            if set {
                1u8
            } else {
                0u8
            },
        ],
    )
}

/// The character `t` wearing `hat`.
pub open spec fn with_hat(t: TagState, hat: Hat) -> TagState {
    t.with_ones().with_primary(0x14, le16_bytes(hat.spec_id()))
}

/// A figure that is a character.
pub struct Character {
    skylander: SkylanderBase,
}

impl View for Character {
    type V = TagState;

    closed spec fn view(&self) -> TagState {
        self.skylander@
    }
}

impl From<SkylanderBase> for Character {
    fn from(value: SkylanderBase) -> (r: Self)
        ensures
            r@ == value@,
    {
        Self { skylander: value }
    }
}

impl FromSpecImpl<SkylanderBase> for Character {
    open spec fn obeys_from_spec() -> bool {
        true
    }

    closed spec fn from_spec(value: SkylanderBase) -> Self {
        Character { skylander: value }
    }
}

impl From<Character> for SkylanderBase {
    fn from(value: Character) -> (r: Self)
        ensures
            r@ == value@,
    {
        value.skylander
    }
}

impl FromSpecImpl<Character> for SkylanderBase {
    open spec fn obeys_from_spec() -> bool {
        true
    }

    closed spec fn from_spec(value: Character) -> Self {
        value.skylander
    }
}

impl Skylander for Character {
    proof fn lemma_lengths(&self) {
        self.skylander.lemma_lengths();
    }

    fn new(toy: Toy, variant: Variant, nuid: Option<[u8; 4]>) -> (r: Self) {
        Self { skylander: SkylanderBase::new(toy, variant, nuid) }
    }

    fn from_bytes(bytes: &[u8; NUM_BYTES]) -> (r: Self) {
        Self { skylander: SkylanderBase::from_bytes(bytes) }
    }

    fn to_bytes(&self) -> (r: [u8; NUM_BYTES]) {
        self.skylander.to_bytes()
    }

    fn clear(&mut self) {
        self.skylander.clear();
    }

    fn get_figure(&self) -> (r: Toy) {
        self.skylander.get_figure()
    }

    fn get_variant(&self) -> (r: Variant) {
        self.skylander.get_variant()
    }

    fn set_bytes(&mut self, start: usize, bytes: &[u8]) {
        self.skylander.set_bytes(start, bytes);
    }
}

/// The experience that level `level` needs, for the levels 0 to 20.
pub fn levels(level: usize) -> (r: i32)
    requires
        level <= 20,
    ensures
        r == level_xp(level as int),
{
    let table: [i32; 21] = [
        -1,
        0,
        1000,
        2200,
        3800,
        6000,
        9000,
        13000,
        18200,
        24800,
        33000,
        42700,
        53900,
        66600,
        80800,
        96500,
        113700,
        132400,
        152600,
        174300,
        197500,
    ];
    table[level]
}

/// Splits a 24-bit value into its little-endian bytes.
pub fn u24_to_le(v: u32) -> (r: [u8; 3])
    ensures
        r@ == le24_bytes(v),
{
    let r = [(v & 0xff) as u8, ((v >> 8) & 0xff) as u8, ((v >> 16) & 0xff) as u8];
    assert(v & 0xff == v % 256 && (v >> 8) & 0xff == v / 0x100 % 256 && (v >> 16) & 0xff == v
        / 0x1_0000 % 256) by (bit_vector);
    assert(r@ =~= le24_bytes(v));
    r
}

impl Character {
    /// The figure that this character is.
    pub fn skylander(&self) -> (r: &SkylanderBase)
        ensures
            r@ == self@,
    {
        &self.skylander
    }

    /// Sets the upgrade path of the character and keeps its upgrades.
    pub fn set_upgrade_path(&mut self, path: UpgradePath)
        ensures
            final(self)@ == with_upgrade_path(old(self)@, path),
            old(self)@.wf() ==> final(self)@.wf(),
            spec_upgrade_path(final(self)@) == path,
            spec_upgrades(final(self)@) == spec_upgrades(old(self)@),
    {
        let area = self.skylander.current_primary();
        let word = u16_from_le(
            self.skylander.data()[area + 0x10],
            self.skylander.data()[area + 0x11],
        );
        let kept = word & !0b11u16;
        let fullmap = kept | (path.bits() as u16);
        proof {
            let bits = path.spec_bits() as u16;
            assert(bits <= 3);
            assert((word & !0b11u16) == word - word % 4) by (bit_vector);
            assert(kept % 4 == 0 && bits <= 3 ==> (kept | bits) == kept + bits) by (bit_vector);
            self.lemma_lengths();
            lemma_path_roundtrip(old(self)@, path);
        }
        self.skylander.write_ones();
        let bytes = u16_to_le(fullmap);
        self.skylander.set_primary(0x10, &bytes);
    }

    /// Unlocks the last upgrade of a character that has one: `true` to
    /// unlock, `false` to lock.
    pub fn set_wowpow(&mut self, set: bool)
        ensures
            final(self)@ == with_wowpow(old(self)@, set),
            old(self)@.wf() ==> final(self)@.wf(),
            spec_wowpow(final(self)@) == set,
    {
        proof {
            self.lemma_lengths();
            lemma_wowpow_roundtrip(old(self)@, set);
        }
        self.skylander.write_ones();
        let byte: [u8; 1] = [
            if set {
                1u8
            } else {
                0u8
            },
        ];
        assert(byte@ =~= seq![
            if set {
                1u8
            } else {
                0u8
            },
        ]);
        self.skylander.set_secondary(0x6, &byte);
    }

    /// Unlocks upgrades according to `bitmap`, from its lowest bit up, and
    /// keeps the upgrade path.
    pub fn set_upgrades(&mut self, bitmap: u8)
        ensures
            final(self)@ == with_upgrades(old(self)@, bitmap),
            old(self)@.wf() ==> final(self)@.wf(),
            spec_upgrades(final(self)@) == bitmap,
            spec_upgrade_path(final(self)@) == spec_upgrade_path(old(self)@),
    {
        let upgrade_path = self.get_upgrade_path();
        let shifted = (bitmap as u16) << 2;
        let fullmap = shifted | (upgrade_path.bits() as u16);
        proof {
            let bits = upgrade_path.spec_bits() as u16;
            assert(bits <= 3);
            assert(((bitmap as u16) << 2) == 4 * (bitmap as u16)) by (bit_vector);
            assert(shifted % 4 == 0 && bits <= 3 ==> (shifted | bits) == shifted + bits)
                by (bit_vector);
            self.lemma_lengths();
            lemma_upgrades_roundtrip(old(self)@, bitmap);
        }
        self.skylander.write_ones();
        let bytes = u16_to_le(fullmap);
        self.skylander.set_primary(0x10, &bytes);
    }

    /// Whether the last upgrade is unlocked.
    pub fn get_wowpow(&self) -> (r: bool)
        ensures
            r == spec_wowpow(self@),
    {
        let area = self.skylander.current_secondary();
        self.skylander.data()[area + 0x6] == 1u8
    }

    /// The upgrade path of the character.
    pub fn get_upgrade_path(&self) -> (r: UpgradePath)
        ensures
            r == spec_upgrade_path(self@),
    {
        let area = self.skylander.current_primary();
        let low = self.skylander.data()[area + 0x10];
        let high = self.skylander.data()[area + 0x11];
        let bits = low & 0b11;
        proof {
            assert(low & 0b11 == low % 4) by (bit_vector);
            assert((low + 256 * high) % 4 == low % 4);
        }
        UpgradePath::from_bits(bits)
    }

    /// The upgrades of the character, one bit each.
    pub fn get_upgrades(&self) -> (r: u8)
        ensures
            r == spec_upgrades(self@),
    {
        let area = self.skylander.current_primary();
        let bitmap = u16_from_le(
            self.skylander.data()[area + 0x10],
            self.skylander.data()[area + 0x11],
        );
        let r = ((bitmap >> 2) & 0xff) as u8;
        assert((bitmap >> 2) & 0xff == bitmap / 4 % 256) by (bit_vector);
        r
    }

    /// Sets the gold of the character. The games take no more than 65000.
    pub fn set_gold(&mut self, gold: u16)
        ensures
            final(self)@ == with_gold(old(self)@, gold),
            old(self)@.wf() ==> final(self)@.wf(),
            spec_gold(final(self)@) == gold,
    {
        proof {
            self.lemma_lengths();
            lemma_gold_roundtrip(old(self)@, gold);
        }
        self.skylander.write_ones();
        let bytes = u16_to_le(gold);
        self.skylander.set_primary(0x3, &bytes);
    }

    /// Sets the gold of the character to the most that fits.
    pub fn max_gold(&mut self)
        ensures
            final(self)@ == with_gold(old(self)@, u16::MAX),
            old(self)@.wf() ==> final(self)@.wf(),
            spec_gold(final(self)@) == u16::MAX,
    {
        self.set_gold(u16::MAX);
    }

    /// The gold of the character.
    pub fn get_gold(&self) -> (r: u16)
        ensures
            r == spec_gold(self@),
    {
        let area = self.skylander.current_primary();
        u16_from_le(self.skylander.data()[area + 0x3], self.skylander.data()[area + 0x4])
    }

    /// Sets the experience of the character. The most is 33000 (level 10)
    /// in the first game, 96500 (level 15) in the second and 197500
    /// (level 20) from the third on; what goes beyond 197500 is dropped.
    pub fn set_xp(&mut self, xp: u32)
        ensures
            final(self)@ == with_xp(old(self)@, xp),
            old(self)@.wf() ==> final(self)@.wf(),
            spec_xp(final(self)@) == if xp <= MAX_XP {
                xp
            } else {
                MAX_XP
            },
    {
        proof {
            self.lemma_lengths();
            lemma_xp_roundtrip(old(self)@, xp);
        }
        self.skylander.write_ones();
        let xp1: u32 = if xp < 33000 {
            xp
        } else {
            33000
        };
        let xp2: u32 = if xp - xp1 < 63500 {
            xp - xp1
        } else {
            63500
        };
        let xp3: u32 = if xp - xp1 - xp2 < 101000 {
            xp - xp1 - xp2
        } else {
            101000
        };
        let xp1_bytes = u16_to_le(xp1 as u16);
        let xp2_bytes = u16_to_le(xp2 as u16);
        let xp3_bytes = u24_to_le(xp3);
        self.skylander.set_primary(0x0, &xp1_bytes);
        self.skylander.set_secondary(0x3, &xp2_bytes);
        self.skylander.set_secondary(0x8, &xp3_bytes);
    }

    /// Sets the experience of the character to the most there is.
    pub fn max_xp(&mut self)
        ensures
            final(self)@ == with_xp(old(self)@, u32::MAX),
            old(self)@.wf() ==> final(self)@.wf(),
            spec_xp(final(self)@) == MAX_XP,
    {
        self.set_xp(u32::MAX);
    }

    /// Sets the level of the character, from 1 to 20, by giving it the
    /// experience that the level needs.
    pub fn set_level(&mut self, level: u8)
        requires
            1 <= level <= 20,
        ensures
            final(self)@ == with_xp(old(self)@, level_xp(level as int) as u32),
            old(self)@.wf() ==> final(self)@.wf(),
            spec_xp(final(self)@) == level_xp(level as int),
            level_of_xp(spec_xp(final(self)@)) == level,
    {
        proof {
            lemma_level_unique(level as int, level_xp(level as int));
        }
        let xp = levels(level as usize);
        self.set_xp(xp as u32);
    }

    /// The experience of the character.
    pub fn get_xp(&self) -> (r: u32)
        ensures
            r == spec_xp(self@),
    {
        let area1 = self.skylander.current_primary();
        let area2 = self.skylander.current_secondary();
        let data = self.skylander.data();
        let xp1 = u16_from_le(data[area1], data[area1 + 0x1]);
        let xp2 = u16_from_le(data[area2 + 0x3], data[area2 + 0x4]);
        let xp3: u32 = (data[area2 + 0x8] as u32) + 0x100 * (data[area2 + 0x9] as u32) + 0x1_0000
            * (data[area2 + 0xA] as u32);
        xp1 as u32 + xp2 as u32 + xp3
    }

    /// The level of the character: the highest whose experience it has.
    pub fn get_level(&self) -> (r: u8)
        ensures
            is_level_of(r as int, spec_xp(self@)),
            r == level_of_xp(spec_xp(self@)),
    {
        let xp = self.get_xp();
        let r = level_for(xp);
        proof {
            lemma_level_unique(r as int, xp as int);
        }
        r
    }

    /// Puts a hat on the character.
    pub fn set_hat(&mut self, hat: Hat)
        ensures
            final(self)@ == with_hat(old(self)@, hat),
            old(self)@.wf() ==> final(self)@.wf(),
            spec_hat(final(self)@) == hat,
    {
        proof {
            self.lemma_lengths();
            lemma_hat_roundtrip(old(self)@, hat);
        }
        self.skylander.write_ones();
        let bytes = u16_to_le(u16::from(hat));
        self.skylander.set_primary(0x14, &bytes);
    }

    /// The hat of the character. A number that the catalogue does not
    /// name reads as the bare head: it is no failure.
    pub fn get_hat(&self) -> (r: Result<Hat, &'static str>)
        ensures
            r == Ok::<Hat, &'static str>(spec_hat(self@)),
    {
        let area = self.skylander.current_primary();
        let id = u16_from_le(self.skylander.data()[area + 0x14], self.skylander.data()[area + 0x15]);
        match Hat::find(id) {
            Some(hat) => Ok(hat),
            None => Ok(Hat::NoHat),
        }
    }
}

/// Finds the level of a character with experience `xp` by halving the
/// table of levels.
pub fn level_for(xp: u32) -> (r: u8)
    ensures
        is_level_of(r as int, xp as int),
{
    let target: i64 = xp as i64;
    let mut level: usize = 0;
    let mut start: usize = 0;
    let mut end: usize = 20;
    while start <= end
        invariant_except_break
            level <= 20,
            end <= 20,
            start <= end + 1,
            level_xp(level as int) <= target,
            start > 0 ==> level + 1 == start,
            start == 0 ==> level == 0,
            end < 20 ==> target < level_xp(end + 1),
        invariant
            0 <= target,
            target == xp,
        ensures
            1 <= level <= 20,
            level_xp(level as int) <= target,
            level < 20 ==> target < level_xp(level + 1),
        decreases end + 1 - start,
    {
        let mid = end - (end - start) / 2;
        let at_mid = levels(mid) as i64;
        if at_mid < target {
            level = mid;
            start = mid + 1;
        } else if at_mid == target {
            level = mid;
            break ;
        } else {
            end = mid - 1;
        }
    }
    level as u8
}

/// No experience has two levels.
pub proof fn lemma_level_unique(level: int, xp: int)
    requires
        is_level_of(level, xp),
    ensures
        level_of_xp(xp) == level,
{
    let other = level_of_xp(xp);
    assert(is_level_of(other, xp));
    lemma_level_xp_grows(level, other);
    lemma_level_xp_grows(other, level);
}

/// A higher level needs more experience.
pub proof fn lemma_level_xp_grows(low: int, high: int)
    requires
        1 <= low <= 20,
        1 <= high <= 20,
    ensures
        low < high ==> level_xp(low + 1) <= level_xp(high),
{
}

/// Setting the gold of a character and reading it gives what was set.
pub proof fn lemma_gold_roundtrip(t: TagState, gold: u16)
    requires
        t.data.len() == NUM_BYTES,
    ensures
        spec_gold(with_gold(t, gold)) == gold,
{
    t.lemma_with_ones();
    lemma_le16_roundtrip(gold);
}

/// Setting the experience of a character and reading it gives what was
/// set, up to 197500, and 197500 for anything more.
pub proof fn lemma_xp_roundtrip(t: TagState, xp: u32)
    requires
        t.data.len() == NUM_BYTES,
    ensures
        xp <= MAX_XP ==> spec_xp(with_xp(t, xp)) == xp,
        xp > MAX_XP ==> spec_xp(with_xp(t, xp)) == MAX_XP,
{
    t.lemma_with_ones();
    let (part1, part2, part3) = xp_parts(xp as int);
    lemma_le16_roundtrip(part1 as u16);
    lemma_le16_roundtrip(part2 as u16);
    let after = with_xp(t, xp);
    assert(after.data[0x89] == 1 && after.data[0x249] == 0);
    assert(after.data[0x112] == 1 && after.data[0x2D2] == 0);
    assert(le16_at(after.data, 0x80) == part1);
    assert(le16_at(after.data, 0x113) == part2);
    assert(le24_at(after.data, 0x118) == part3);
}

/// Setting the level of a character, from 1 to 20, and reading it gives
/// the level that was set.
pub proof fn lemma_level_roundtrip(t: TagState, level: u8)
    requires
        t.data.len() == NUM_BYTES,
        1 <= level <= 20,
    ensures
        level_of_xp(spec_xp(with_xp(t, level_xp(level as int) as u32))) == level,
{
    lemma_xp_roundtrip(t, level_xp(level as int) as u32);
    lemma_level_unique(level as int, level_xp(level as int));
}

/// Setting the upgrade path of a character gives that path and keeps the upgrades.
pub proof fn lemma_path_roundtrip(t: TagState, path: UpgradePath)
    requires
        t.data.len() == NUM_BYTES,
    ensures
        spec_upgrade_path(with_upgrade_path(t, path)) == path,
        spec_upgrades(with_upgrade_path(t, path)) == spec_upgrades(t),
{
    t.lemma_with_ones();
    let word = spec_upgrade_word(t);
    let new_word = (word - word % 4 + path.spec_bits()) as u16;
    lemma_le16_roundtrip(new_word);
    assert(spec_upgrade_word(with_upgrade_path(t, path)) == new_word);
}

/// Setting the upgrades of a character gives those upgrades and keeps the
/// upgrade path.
pub proof fn lemma_upgrades_roundtrip(t: TagState, bitmap: u8)
    requires
        t.data.len() == NUM_BYTES,
    ensures
        spec_upgrades(with_upgrades(t, bitmap)) == bitmap,
        spec_upgrade_path(with_upgrades(t, bitmap)) == spec_upgrade_path(t),
{
    t.lemma_with_ones();
    let new_word = (4 * bitmap + spec_upgrade_path(t).spec_bits()) as u16;
    lemma_le16_roundtrip(new_word);
    assert(spec_upgrade_word(with_upgrades(t, bitmap)) == new_word);
}

/// Locking or unlocking the last upgrade and reading it gives what was set.
pub proof fn lemma_wowpow_roundtrip(t: TagState, set: bool)
    requires
        t.data.len() == NUM_BYTES,
    ensures
        spec_wowpow(with_wowpow(t, set)) == set,
{
    t.lemma_with_ones();
}

/// Putting a hat on a character and reading it gives that hat.
pub proof fn lemma_hat_roundtrip(t: TagState, hat: Hat)
    requires
        t.data.len() == NUM_BYTES,
    ensures
        spec_hat_id(with_hat(t, hat)) == hat.spec_id(),
        spec_hat(with_hat(t, hat)) == hat,
{
    t.lemma_with_ones();
    lemma_le16_roundtrip(hat.spec_id());
    Hat::lemma_lookup_of_id(hat);
}

} // verus!
