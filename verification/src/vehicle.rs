//! Vehicles: gears, the three modifications, and the upgrades of shield and weapon.

use crate::skyutils::le16_at;
use crate::skyutils::le16_bytes;
use crate::skyutils::lemma_le16_roundtrip;
use crate::skyutils::u16_from_le;
use crate::skyutils::u16_to_le;
use crate::skyutils::Skylander;
use crate::skyutils::SkylanderBase;
use crate::skyutils::TagState;
use crate::skyutils::Toy;
use crate::skyutils::NUM_BYTES;
use crate::skyvariants::Variant;
use vstd::prelude::*;
use vstd::std_specs::convert::FromSpecImpl;
use vstd::std_specs::convert::TryFromSpecImpl;

verus! {

/// One of the four choices that a vehicle offers for each of its modifications.
#[derive(Clone, Copy, PartialEq, Eq, Debug, Structural)]
pub enum Mod {
    First,
    Second,
    Third,
    Fourth,
}

impl Mod {
    /// The number that stands for this choice on a tag.
    pub open spec fn spec_code(self) -> u8 {
        match self {
            Mod::First => 0x0,
            Mod::Second => 0x1,
            Mod::Third => 0x2,
            Mod::Fourth => 0x3,
        }
    }

    /// The name of this choice.
    pub open spec fn spec_name(self) -> &'static str {
        match self {
            Mod::First => "First",
            Mod::Second => "Second",
            Mod::Third => "Third",
            Mod::Fourth => "Fourth",
        }
    }

    /// The name of this choice.
    pub fn name(self) -> (r: &'static str)
        ensures
            r@ == self.spec_name()@,
    {
        match self {
            Mod::First => "First",
            Mod::Second => "Second",
            Mod::Third => "Third",
            Mod::Fourth => "Fourth",
        }
    }

    /// The choice that `code` stands for, or the error for a number above 3.
    pub open spec fn spec_of_code(code: u8) -> Result<Mod, &'static str> {
        if code == 0x0 {
            Ok(Mod::First)
        } else if code == 0x1 {
            Ok(Mod::Second)
        } else if code == 0x2 {
            Ok(Mod::Third)
        } else if code == 0x3 {
            Ok(Mod::Fourth)
        } else {
            Err("Unknown Type")
        }
    }

    /// The choice that a number read from a tag counts as when another
    /// modification is written beside it: the first, where the number
    /// stands for none.
    pub open spec fn spec_or_first(code: u8) -> Mod {
        match Mod::spec_of_code(code) {
            Ok(m) => m,
            Err(_) => Mod::First,
        }
    }

    /// Reading the number of a choice gives the choice back.
    pub proof fn lemma_of_code(m: Mod)
        ensures
            Mod::spec_of_code(m.spec_code()) == Ok::<Mod, &'static str>(m),
    {
    }
}

impl From<Mod> for u8 {
    fn from(value: Mod) -> (r: u8) {
        match value {
            Mod::First => 0x0,
            Mod::Second => 0x1,
            Mod::Third => 0x2,
            Mod::Fourth => 0x3,
        }
    }
}

impl FromSpecImpl<Mod> for u8 {
    open spec fn obeys_from_spec() -> bool {
        true
    }

    open spec fn from_spec(value: Mod) -> u8 {
        value.spec_code()
    }
}

impl TryFrom<u8> for Mod {
    type Error = &'static str;

    fn try_from(value: u8) -> (r: Result<Self, Self::Error>) {
        match value {
            0x0 => Ok(Mod::First),
            0x1 => Ok(Mod::Second),
            0x2 => Ok(Mod::Third),
            0x3 => Ok(Mod::Fourth),
            _ => Err("Unknown Type"),
        }
    }
}

impl TryFromSpecImpl<u8> for Mod {
    open spec fn obeys_try_from_spec() -> bool {
        true
    }

    open spec fn try_from_spec(value: u8) -> Result<Self, Self::Error> {
        Mod::spec_of_code(value)
    }
}

/// The byte that holds two modifications of the vehicle `t`: performance
/// in its low half, speciality in its high half.
pub open spec fn spec_mods_byte(t: TagState) -> u8 {
    t.data[t.primary_start() + 0x4E]
}

/// The performance upgrade of the vehicle `t`.
pub open spec fn spec_performance_upgrade(t: TagState) -> Result<Mod, &'static str> {
    Mod::spec_of_code(spec_mods_byte(t) % 16)
}

/// The speciality modification of the vehicle `t`.
pub open spec fn spec_speciality_mod(t: TagState) -> Result<Mod, &'static str> {
    Mod::spec_of_code(spec_mods_byte(t) / 16)
}

/// The horn of the vehicle `t`.
pub open spec fn spec_horn(t: TagState) -> Result<Mod, &'static str> {
    Mod::spec_of_code(t.data[t.primary_start() + 0x4F])
}

/// The gears of the vehicle `t`.
pub open spec fn spec_gears(t: TagState) -> u16 {
    le16_at(t.data, t.secondary_start() + 0x8)
}

/// How many of the five lowest bits of `x` are set.
pub open spec fn count5(x: int) -> int {
    x % 2 + x / 2 % 2 + x / 4 % 2 + x / 8 % 2 + x / 16 % 2
}

/// The number whose `n` lowest bits are set and no others, for `n` up to 5.
pub open spec fn unary(n: int) -> int {
    if n <= 0 {
        0
    } else if n == 1 {
        1
    } else if n == 2 {
        3
    } else if n == 3 {
        7
    } else if n == 4 {
        15
    } else {
        31
    }
}

/// The 16 bits that hold the upgrades of the vehicle `t`.
pub open spec fn spec_upgrade_word(t: TagState) -> u16 {
    le16_at(t.data, t.primary_start() + 0x10)
}

/// The upgrades of shield and weapon of the vehicle `t`: how many of the
/// bits 0 to 4, and how many of the bits 5 to 9, are set.
pub open spec fn spec_upgrades(t: TagState) -> (u8, u8) {
    (
        count5(spec_upgrade_word(t) as int % 32) as u8,
        count5(spec_upgrade_word(t) as int / 32 % 32) as u8,
    )
}

/// The vehicle `t` with its performance upgrade set and its speciality kept.
pub open spec fn with_performance_upgrade(t: TagState, upg: Mod) -> TagState {
    t.with_ones().with_primary(
        0x4E,
        seq![(upg.spec_code() + 16 * Mod::spec_or_first(spec_mods_byte(t) / 16).spec_code()) as u8],
    )
}

/// The vehicle `t` with its speciality set and its performance upgrade kept.
pub open spec fn with_speciality_mod(t: TagState, upg: Mod) -> TagState {
    t.with_ones().with_primary(
        0x4E,
        seq![(16 * upg.spec_code() + Mod::spec_or_first(spec_mods_byte(t) % 16).spec_code()) as u8],
    )
}

/// The vehicle `t` with its horn set.
pub open spec fn with_horn(t: TagState, horn: Mod) -> TagState {
    t.with_ones().with_primary(0x4F, seq![horn.spec_code()])
}

/// The vehicle `t` with its gears set.
pub open spec fn with_gears(t: TagState, gears: u16) -> TagState {
    t.with_ones().with_secondary(0x8, le16_bytes(gears))
}

/// The vehicle `t` with `shield` upgrades of its shield and `weapon` of
/// its weapon: as many bits set from bit 0 up, and from bit 5 up.
pub open spec fn with_upgrades(t: TagState, shield: u8, weapon: u8) -> TagState {
    t.with_ones().with_primary(
        0x10,
        le16_bytes((unary(shield as int) + 32 * unary(weapon as int)) as u16),
    )
}

/// A figure that is a vehicle.
pub struct Vehicle {
    skylander: SkylanderBase,
}

impl View for Vehicle {
    type V = TagState;

    closed spec fn view(&self) -> TagState {
        self.skylander@
    }
}

impl From<SkylanderBase> for Vehicle {
    fn from(value: SkylanderBase) -> (r: Self)
        ensures
            r@ == value@,
    {
        Self { skylander: value }
    }
}

impl FromSpecImpl<SkylanderBase> for Vehicle {
    open spec fn obeys_from_spec() -> bool {
        true
    }

    closed spec fn from_spec(value: SkylanderBase) -> Self {
        Vehicle { skylander: value }
    }
}

impl From<Vehicle> for SkylanderBase {
    fn from(value: Vehicle) -> (r: Self)
        ensures
            r@ == value@,
    {
        value.skylander
    }
}

impl FromSpecImpl<Vehicle> for SkylanderBase {
    open spec fn obeys_from_spec() -> bool {
        true
    }

    closed spec fn from_spec(value: Vehicle) -> Self {
        value.skylander
    }
}

impl Skylander for Vehicle {
    proof fn lemma_lengths(&self) {
        self.skylander.lemma_lengths();
    }

    fn new(toy: Toy, variant: Variant, nuid: Option<[u8; 4]>) -> (r: Self) {
        Self { skylander: SkylanderBase::new(toy, variant, nuid) }
    }

    fn from_bytes(bytes: &[u8; NUM_BYTES]) -> (r: Self) {
        Self { skylander: SkylanderBase::from_bytes(bytes) }
    }

    fn to_bytes(&self) -> (r: [u8; NUM_BYTES]) {
        self.skylander.to_bytes()
    }

    fn clear(&mut self) {
        self.skylander.clear();
    }

    fn get_figure(&self) -> (r: Toy) {
        self.skylander.get_figure()
    }

    fn get_variant(&self) -> (r: Variant) {
        self.skylander.get_variant()
    }

    fn set_bytes(&mut self, start: usize, bytes: &[u8]) {
        self.skylander.set_bytes(start, bytes);
    }
}

impl Vehicle {
    /// The figure that this vehicle is.
    pub fn skylander(&self) -> (r: &SkylanderBase)
        ensures
            r@ == self@,
    {
        &self.skylander
    }

    /// Sets the performance upgrade and keeps the speciality; a speciality
    /// that reads as none of the four becomes the first.
    pub fn set_performance_upgrade(&mut self, upg: Mod)
        ensures
            final(self)@ == with_performance_upgrade(old(self)@, upg),
            old(self)@.wf() ==> final(self)@.wf(),
            spec_performance_upgrade(final(self)@) == Ok::<Mod, &'static str>(upg),
            spec_speciality_mod(old(self)@) is Ok ==> spec_speciality_mod(final(self)@)
                == spec_speciality_mod(old(self)@),
    {
        let spec = match self.get_speciality_mod() {
            Ok(m) => m,
            _ => Mod::First,
        };
        proof {
            self.lemma_lengths();
            lemma_performance_upgrade(old(self)@, upg);
        }
        self.skylander.write_ones();
        let byte: u8 = u8::from(upg) | (u8::from(spec) << 4);
        proof {
            let low = upg.spec_code();
            let high = spec.spec_code();
            assert(low <= 3 && high <= 3 ==> (low | (high << 4)) == low + 16 * high) by (bit_vector);
        }
        let bytes: [u8; 1] = [byte];
        assert(bytes@ =~= seq![byte]);
        self.skylander.set_primary(0x4E, &bytes);
    }

    /// The performance upgrade, or an error where the tag holds none of the four.
    pub fn get_performance_upgrade(&self) -> (r: Result<Mod, &'static str>)
        ensures
            r == spec_performance_upgrade(self@),
    {
        let area = self.skylander.current_primary();
        let byte = self.skylander.data()[area + 0x4E];
        assert(byte & 0xF == byte % 16) by (bit_vector);
        Mod::try_from(byte & 0xF)
    }

    /// Sets the speciality and keeps the performance upgrade; a performance
    /// upgrade that reads as none of the four becomes the first.
    pub fn set_speciality_mod(&mut self, upg: Mod)
        ensures
            final(self)@ == with_speciality_mod(old(self)@, upg),
            old(self)@.wf() ==> final(self)@.wf(),
            spec_speciality_mod(final(self)@) == Ok::<Mod, &'static str>(upg),
            spec_performance_upgrade(old(self)@) is Ok ==> spec_performance_upgrade(final(self)@)
                == spec_performance_upgrade(old(self)@),
    {
        let perf = match self.get_performance_upgrade() {
            Ok(m) => m,
            _ => Mod::First,
        };
        proof {
            self.lemma_lengths();
            lemma_speciality_mod(old(self)@, upg);
        }
        self.skylander.write_ones();
        let byte: u8 = (u8::from(upg) << 4) | u8::from(perf);
        proof {
            let high = upg.spec_code();
            let low = perf.spec_code();
            assert(low <= 3 && high <= 3 ==> ((high << 4) | low) == 16 * high + low) by (bit_vector);
        }
        let bytes: [u8; 1] = [byte];
        assert(bytes@ =~= seq![byte]);
        self.skylander.set_primary(0x4E, &bytes);
    }

    /// The speciality, or an error where the tag holds none of the four.
    pub fn get_speciality_mod(&self) -> (r: Result<Mod, &'static str>)
        ensures
            r == spec_speciality_mod(self@),
    {
        let area = self.skylander.current_primary();
        let byte = self.skylander.data()[area + 0x4E];
        assert((byte >> 4) & 0xF == byte / 16) by (bit_vector);
        Mod::try_from((byte >> 4) & 0xF)
    }

    /// Sets the horn.
    pub fn set_horn(&mut self, horn: Mod)
        ensures
            final(self)@ == with_horn(old(self)@, horn),
            old(self)@.wf() ==> final(self)@.wf(),
            spec_horn(final(self)@) == Ok::<Mod, &'static str>(horn),
    {
        proof {
            self.lemma_lengths();
            lemma_horn_roundtrip(old(self)@, horn);
        }
        self.skylander.write_ones();
        let bytes: [u8; 1] = [u8::from(horn)];
        assert(bytes@ =~= seq![horn.spec_code()]);
        self.skylander.set_primary(0x4F, &bytes);
    }

    /// The horn, or an error where the tag holds none of the four.
    pub fn get_horn(&self) -> (r: Result<Mod, &'static str>)
        ensures
            r == spec_horn(self@),
    {
        let area = self.skylander.current_primary();
        Mod::try_from(self.skylander.data()[area + 0x4F])
    }

    /// Sets the gears.
    pub fn set_gears(&mut self, gears: u16)
        ensures
            final(self)@ == with_gears(old(self)@, gears),
            old(self)@.wf() ==> final(self)@.wf(),
            spec_gears(final(self)@) == gears,
    {
        let bytes = u16_to_le(gears);
        proof {
            self.lemma_lengths();
            lemma_gears_roundtrip(old(self)@, gears);
        }
        self.skylander.write_ones();
        self.skylander.set_secondary(0x8, &bytes);
    }

    /// The gears.
    pub fn get_gears(&self) -> (r: u16)
        ensures
            r == spec_gears(self@),
    {
        let area = self.skylander.current_secondary();
        u16_from_le(self.skylander.data()[area + 0x8], self.skylander.data()[area + 0x9])
    }

    /// Sets the upgrades of shield and weapon, each from 0 to 5.
    pub fn set_upgrades(&mut self, shield: u8, weapon: u8)
        requires
            shield <= 5,
            weapon <= 5,
        ensures
            final(self)@ == with_upgrades(old(self)@, shield, weapon),
            old(self)@.wf() ==> final(self)@.wf(),
            spec_upgrades(final(self)@) == (shield, weapon),
    {
        proof {
            self.lemma_lengths();
            lemma_upgrades_roundtrip(old(self)@, shield, weapon);
        }
        self.skylander.write_ones();
        let low: u16 = unary_bits(shield);
        let high: u16 = unary_bits(weapon);
        let bitmap: u16 = low | (high << 5);
        assert(low <= 31 && high <= 31 ==> (low | (high << 5)) == low + 32 * high) by (bit_vector);
        let bytes = u16_to_le(bitmap);
        self.skylander.set_primary(0x10, &bytes);
    }

    /// The upgrades of shield and weapon.
    pub fn get_upgrades(&self) -> (r: (u8, u8))
        ensures
            r == spec_upgrades(self@),
    {
        let area = self.skylander.current_primary();
        let bitmap = u16_from_le(
            self.skylander.data()[area + 0x10],
            self.skylander.data()[area + 0x11],
        );
        assert(0x1F & bitmap == bitmap % 32) by (bit_vector);
        assert(0x1F & (bitmap >> 5) == bitmap / 32 % 32) by (bit_vector);
        let shield = count_bits(0x1F & bitmap);
        let weapon = count_bits(0x1F & (bitmap >> 5));
        (shield, weapon)
    }
}

/// The number whose `n` lowest bits are set, for `n` up to 5.
pub fn unary_bits(n: u8) -> (r: u16)
    requires
        n <= 5,
    ensures
        r == unary(n as int),
{
    let m = n as u16;
    assert(m <= 5 ==> (1u16 << m) >= 1 && ((m == 0 ==> (1u16 << m) == 1) && (m == 1 ==> (1u16 << m)
        == 2) && (m == 2 ==> (1u16 << m) == 4) && (m == 3 ==> (1u16 << m) == 8) && (m == 4 ==> (1u16
        << m) == 16) && (m == 5 ==> (1u16 << m) == 32))) by (bit_vector);
    (1u16 << m) - 1
}

/// Counts the set bits among the five lowest of `x`.
pub fn count_bits(x: u16) -> (r: u8)
    requires
        x < 32,
    ensures
        r == count5(x as int),
{
    assert(x & 1 == x % 2 && (x >> 1) & 1 == x / 2 % 2 && (x >> 2) & 1 == x / 4 % 2 && (x >> 3) & 1
        == x / 8 % 2 && (x >> 4) & 1 == x / 16 % 2) by (bit_vector);
    let r = (x & 1) + ((x >> 1) & 1) + ((x >> 2) & 1) + ((x >> 3) & 1) + ((x >> 4) & 1);
    r as u8
}

/// Setting the performance upgrade gives it, and keeps a speciality that
/// is one of the four.
pub proof fn lemma_performance_upgrade(t: TagState, upg: Mod)
    requires
        t.data.len() == NUM_BYTES,
    ensures
        spec_performance_upgrade(with_performance_upgrade(t, upg)) == Ok::<Mod, &'static str>(upg),
        spec_speciality_mod(t) is Ok ==> spec_speciality_mod(with_performance_upgrade(t, upg))
            == spec_speciality_mod(t),
{
    t.lemma_with_ones();
    let other = Mod::spec_or_first(spec_mods_byte(t) / 16);
    let byte = (upg.spec_code() + 16 * other.spec_code()) as u8;
    assert(spec_mods_byte(with_performance_upgrade(t, upg)) == byte);
    assert(byte % 16 == upg.spec_code() && byte / 16 == other.spec_code());
    Mod::lemma_of_code(upg);
    Mod::lemma_of_code(other);
}

/// Setting the speciality gives it, and keeps a performance upgrade that
/// is one of the four.
pub proof fn lemma_speciality_mod(t: TagState, upg: Mod)
    requires
        t.data.len() == NUM_BYTES,
    ensures
        spec_speciality_mod(with_speciality_mod(t, upg)) == Ok::<Mod, &'static str>(upg),
        spec_performance_upgrade(t) is Ok ==> spec_performance_upgrade(with_speciality_mod(t, upg))
            == spec_performance_upgrade(t),
{
    t.lemma_with_ones();
    let other = Mod::spec_or_first(spec_mods_byte(t) % 16);
    let byte = (16 * upg.spec_code() + other.spec_code()) as u8;
    assert(spec_mods_byte(with_speciality_mod(t, upg)) == byte);
    assert(byte % 16 == other.spec_code() && byte / 16 == upg.spec_code());
    Mod::lemma_of_code(upg);
    Mod::lemma_of_code(other);
}

/// Setting the horn and reading it gives what was set.
pub proof fn lemma_horn_roundtrip(t: TagState, horn: Mod)
    requires
        t.data.len() == NUM_BYTES,
    ensures
        spec_horn(with_horn(t, horn)) == Ok::<Mod, &'static str>(horn),
{
    t.lemma_with_ones();
    Mod::lemma_of_code(horn);
}

/// Setting the gears and reading them gives what was set.
pub proof fn lemma_gears_roundtrip(t: TagState, gears: u16)
    requires
        t.data.len() == NUM_BYTES,
    ensures
        spec_gears(with_gears(t, gears)) == gears,
{
    t.lemma_with_ones();
    lemma_le16_roundtrip(gears);
}

/// Setting the upgrades of shield and weapon, each from 0 to 5, and
/// reading them gives what was set.
pub proof fn lemma_upgrades_roundtrip(t: TagState, shield: u8, weapon: u8)
    requires
        t.data.len() == NUM_BYTES,
        shield <= 5,
        weapon <= 5,
    ensures
        spec_upgrades(with_upgrades(t, shield, weapon)) == (shield, weapon),
{
    t.lemma_with_ones();
    let word = (unary(shield as int) + 32 * unary(weapon as int)) as u16;
    lemma_le16_roundtrip(word);
    assert(spec_upgrade_word(with_upgrades(t, shield, weapon)) == word);
    assert(word % 32 == unary(shield as int) && word / 32 % 32 == unary(weapon as int));
    assert(count5(unary(shield as int)) == shield);
    assert(count5(unary(weapon as int)) == weapon);
}

} // verus!
