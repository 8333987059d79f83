//! The catalogue of variants: which game a figure came with, how it is decorated,
//! and what it can do, packed into one 16-bit number.

use std::collections::HashMap;
use vstd::prelude::*;
use vstd::std_specs::convert::FromSpecImpl;
use vstd::std_specs::convert::TryFromSpecImpl;

verus! {

/// The game that a figure came with.
#[derive(Clone, Copy, Debug, PartialEq, Eq, Structural)]
pub enum Game {
    Spyros,
    Giants,
    SwapForce,
    TrapTeam,
    Superchargers,
    Imaginators,
}

impl Game {
    /// The bits that this game sets in a variant number: its highest four.
    pub open spec fn spec_code(self) -> u16 {
        match self {
            Game::Spyros => 0x0000,
            Game::Giants => 0x1000,
            Game::SwapForce => 0x2000,
            Game::TrapTeam => 0x3000,
            Game::Superchargers => 0x4000,
            Game::Imaginators => 0x5000,
        }
    }

    /// The bits that this game sets in a variant number: its highest four.
    pub fn code(self) -> (r: u16)
        ensures
            r == self.spec_code(),
    {
        match self {
            Game::Spyros => 0x0000,
            Game::Giants => 0x1000,
            Game::SwapForce => 0x2000,
            Game::TrapTeam => 0x3000,
            Game::Superchargers => 0x4000,
            Game::Imaginators => 0x5000,
        }
    }
}

/// What sets a figure apart from the plain one of its game.
#[derive(Clone, Copy, Debug, PartialEq, Eq, Structural)]
pub enum VariantTypes {
    WowPow,
    AltDeco,
    Lightcore,
    Supercharger,
    Default,
}

impl VariantTypes {
    /// The bit that this ability sets in a variant number.
    pub open spec fn spec_code(self) -> u16 {
        match self {
            VariantTypes::WowPow => 0x0800,
            VariantTypes::AltDeco => 0x0400,
            VariantTypes::Lightcore => 0x0200,
            VariantTypes::Supercharger => 0x0100,
            VariantTypes::Default => 0x0000,
        }
    }

    /// The bit that this ability sets in a variant number.
    pub fn code(self) -> (r: u16)
        ensures
            r == self.spec_code(),
    {
        match self {
            VariantTypes::WowPow => 0x0800,
            VariantTypes::AltDeco => 0x0400,
            VariantTypes::Lightcore => 0x0200,
            VariantTypes::Supercharger => 0x0100,
            VariantTypes::Default => 0x0000,
        }
    }
}

/// How a figure is decorated.
#[derive(Clone, Copy, Debug, PartialEq, Eq, Structural)]
pub enum DecoID {
    Normal,
    Repose1,
    AlternateDeco,
    Legendary,
    Event,
    Repose2,
    LightDirect,
    LightStored,
    LightEnhanced,
    Repose3,
    Repose4,
    Repose5,
    Valentines,
    Easter,
    Winter,
    Virtual,
    Premium,
    GlowDark,
    StoneStatue,
    GlitterSpectrum,
    TreasureHunt2012,
    Halloween,
    TreasureHunt2013,
    ColorShift,
    WiiU,
    BestBuy,
    FritoLay,
    TreasureHunt2014,
    TreasureHunt2015,
    Mobile,
}

impl DecoID {
    /// The bits that this decoration sets in a variant number: its low byte.
    pub open spec fn spec_code(self) -> u16 {
        match self {
            DecoID::Normal => 0x0000,
            DecoID::Repose1 => 0x0001,
            DecoID::AlternateDeco => 0x0002,
            DecoID::Legendary => 0x0003,
            DecoID::Event => 0x0004,
            DecoID::Repose2 => 0x0005,
            DecoID::LightDirect => 0x0006,
            DecoID::LightStored => 0x0007,
            DecoID::LightEnhanced => 0x0008,
            DecoID::Repose3 => 0x0009,
            DecoID::Repose4 => 0x000a,
            DecoID::Repose5 => 0x000b,
            DecoID::Valentines => 0x000c,
            DecoID::Easter => 0x000d,
            DecoID::Winter => 0x000e,
            DecoID::Virtual => 0x000f,
            DecoID::Premium => 0x0010,
            DecoID::GlowDark => 0x0011,
            DecoID::StoneStatue => 0x0012,
            DecoID::GlitterSpectrum => 0x0013,
            DecoID::TreasureHunt2012 => 0x0014,
            DecoID::Halloween => 0x0015,
            DecoID::TreasureHunt2013 => 0x0016,
            DecoID::ColorShift => 0x0017,
            DecoID::WiiU => 0x0018,
            DecoID::BestBuy => 0x0019,
            DecoID::FritoLay => 0x001a,
            DecoID::TreasureHunt2014 => 0x001d,
            DecoID::TreasureHunt2015 => 0x001e,
            DecoID::Mobile => 0x001f,
        }
    }

    /// The bits that this decoration sets in a variant number: its low byte.
    pub fn code(self) -> (r: u16)
        ensures
            r == self.spec_code(),
    {
        match self {
            DecoID::Normal => 0x0000,
            DecoID::Repose1 => 0x0001,
            DecoID::AlternateDeco => 0x0002,
            DecoID::Legendary => 0x0003,
            DecoID::Event => 0x0004,
            DecoID::Repose2 => 0x0005,
            DecoID::LightDirect => 0x0006,
            DecoID::LightStored => 0x0007,
            DecoID::LightEnhanced => 0x0008,
            DecoID::Repose3 => 0x0009,
            DecoID::Repose4 => 0x000a,
            DecoID::Repose5 => 0x000b,
            DecoID::Valentines => 0x000c,
            DecoID::Easter => 0x000d,
            DecoID::Winter => 0x000e,
            DecoID::Virtual => 0x000f,
            DecoID::Premium => 0x0010,
            DecoID::GlowDark => 0x0011,
            DecoID::StoneStatue => 0x0012,
            DecoID::GlitterSpectrum => 0x0013,
            DecoID::TreasureHunt2012 => 0x0014,
            DecoID::Halloween => 0x0015,
            DecoID::TreasureHunt2013 => 0x0016,
            DecoID::ColorShift => 0x0017,
            DecoID::WiiU => 0x0018,
            DecoID::BestBuy => 0x0019,
            DecoID::FritoLay => 0x001a,
            DecoID::TreasureHunt2014 => 0x001d,
            DecoID::TreasureHunt2015 => 0x001e,
            DecoID::Mobile => 0x001f,
        }
    }
}

/// The variant number made of a game, a decoration and ability bits.
pub open spec fn spec_get_variant(game: Game, decoid: DecoID, bf: u16) -> u16 {
    game.spec_code() | decoid.spec_code() | bf
}

/// Packs a game, a decoration and ability bits into a variant number.
pub fn get_variant(game: Game, decoid: DecoID, bf: u16) -> (r: u16)
    ensures
        r == spec_get_variant(game, decoid, bf),
{
    game.code() | decoid.code() | bf
}

/// The variants, by name; `Unknown` holds a number that the catalogue does not name.
#[derive(Clone, Copy, Debug, PartialEq, Eq, Structural)]
pub enum Variant {
    Series1,
    Series2,
    Series3,
    Series4,
    GiantCore1,
    GiantCore2,
    GiantCore3,
    SwapForce1,
    SwapForce2,
    TrapTeam,
    Superchargers,
    Vehicle,
    Imaginators,
    GiantsLightcore,
    SwapForceLightcore,
    TTElite,
    SCElite,
    GiantAlt,
    GiantReturningCoreAlt,
    GiantNewCoreAlt,
    SFNewAlt,
    SFReturningAlt,
    TTReturningAlt,
    TTNewAlt,
    SCAlt,
    SCHalloween,
    SCWinter,
    SCEaster,
    VehicleAlt,
    VehicleHalloween,
    VehicleWinter,
    VehicleEaster,
    ImaginatorsAlt,
    ImaginatorsHalloween,
    ImaginatorsWinter,
    ImaginatorsEaster,
    GiantLegendary,
    GiantReturningCoreLegendary,
    GiantNewCoreLegendary,
    SFNewLegendary,
    SFReturningLegendary,
    TTReturningLegendary,
    TTNewLegendary,
    SCLegendary,
    VehicleLegendary,
    ImaginatorsLegendary,
    Unknown(u16),
}

impl Variant {
    /// How many variants the catalogue names.
    pub const COUNT: usize = 46;

    /// Whether this is one of the catalogue's names.
    pub open spec fn is_named(self) -> bool {
        !(self is Unknown)
    }

    /// The 16-bit number that stands for this variant on a tag.
    pub open spec fn spec_id(self) -> u16 {
        match self {
            Variant::Series1 => 0x0000,
            Variant::Series2 => 0x1801,
            Variant::Series3 => 0x2205,
            Variant::Series4 => 0x3809,
            Variant::GiantCore1 => 0x1000,
            Variant::GiantCore2 => 0x2801,
            Variant::GiantCore3 => 0x3805,
            Variant::SwapForce1 => 0x2000,
            Variant::SwapForce2 => 0x3801,
            Variant::TrapTeam => 0x3000,
            Variant::Superchargers => 0x4100,
            Variant::Vehicle => 0x4000,
            Variant::Imaginators => 0x5000,
            Variant::GiantsLightcore => 0x1206,
            Variant::SwapForceLightcore => 0x2206,
            Variant::TTElite => 0x3810,
            Variant::SCElite => 0x4810,
            Variant::GiantAlt => 0x1602,
            Variant::GiantReturningCoreAlt => 0x1c02,
            Variant::GiantNewCoreAlt => 0x1402,
            Variant::SFNewAlt => 0x2402,
            Variant::SFReturningAlt => 0x2c02,
            Variant::TTReturningAlt => 0x3c02,
            Variant::TTNewAlt => 0x3402,
            Variant::SCAlt => 0x4502,
            Variant::SCHalloween => 0x4515,
            Variant::SCWinter => 0x450e,
            Variant::SCEaster => 0x450d,
            Variant::VehicleAlt => 0x4402,
            Variant::VehicleHalloween => 0x4415,
            Variant::VehicleWinter => 0x440e,
            Variant::VehicleEaster => 0x440d,
            Variant::ImaginatorsAlt => 0x5402,
            Variant::ImaginatorsHalloween => 0x5415,
            Variant::ImaginatorsWinter => 0x540e,
            Variant::ImaginatorsEaster => 0x540d,
            Variant::GiantLegendary => 0x1603,
            Variant::GiantReturningCoreLegendary => 0x1c03,
            Variant::GiantNewCoreLegendary => 0x1403,
            Variant::SFNewLegendary => 0x2403,
            Variant::SFReturningLegendary => 0x2c03,
            Variant::TTReturningLegendary => 0x3c03,
            Variant::TTNewLegendary => 0x3403,
            Variant::SCLegendary => 0x4503,
            Variant::VehicleLegendary => 0x4403,
            Variant::ImaginatorsLegendary => 0x5403,
            Variant::Unknown(raw) => raw,
        }
    }

    /// The name of this variant, as it is written here; `Unknown` without its number.
    pub open spec fn spec_name(self) -> &'static str {
        match self {
            Variant::Series1 => "Series1",
            Variant::Series2 => "Series2",
            Variant::Series3 => "Series3",
            Variant::Series4 => "Series4",
            Variant::GiantCore1 => "GiantCore1",
            Variant::GiantCore2 => "GiantCore2",
            Variant::GiantCore3 => "GiantCore3",
            Variant::SwapForce1 => "SwapForce1",
            Variant::SwapForce2 => "SwapForce2",
            Variant::TrapTeam => "TrapTeam",
            Variant::Superchargers => "Superchargers",
            Variant::Vehicle => "Vehicle",
            Variant::Imaginators => "Imaginators",
            Variant::GiantsLightcore => "GiantsLightcore",
            Variant::SwapForceLightcore => "SwapForceLightcore",
            Variant::TTElite => "TTElite",
            Variant::SCElite => "SCElite",
            Variant::GiantAlt => "GiantAlt",
            Variant::GiantReturningCoreAlt => "GiantReturningCoreAlt",
            Variant::GiantNewCoreAlt => "GiantNewCoreAlt",
            Variant::SFNewAlt => "SFNewAlt",
            Variant::SFReturningAlt => "SFReturningAlt",
            Variant::TTReturningAlt => "TTReturningAlt",
            Variant::TTNewAlt => "TTNewAlt",
            Variant::SCAlt => "SCAlt",
            Variant::SCHalloween => "SCHalloween",
            Variant::SCWinter => "SCWinter",
            Variant::SCEaster => "SCEaster",
            Variant::VehicleAlt => "VehicleAlt",
            Variant::VehicleHalloween => "VehicleHalloween",
            Variant::VehicleWinter => "VehicleWinter",
            Variant::VehicleEaster => "VehicleEaster",
            Variant::ImaginatorsAlt => "ImaginatorsAlt",
            Variant::ImaginatorsHalloween => "ImaginatorsHalloween",
            Variant::ImaginatorsWinter => "ImaginatorsWinter",
            Variant::ImaginatorsEaster => "ImaginatorsEaster",
            Variant::GiantLegendary => "GiantLegendary",
            Variant::GiantReturningCoreLegendary => "GiantReturningCoreLegendary",
            Variant::GiantNewCoreLegendary => "GiantNewCoreLegendary",
            Variant::SFNewLegendary => "SFNewLegendary",
            Variant::SFReturningLegendary => "SFReturningLegendary",
            Variant::TTReturningLegendary => "TTReturningLegendary",
            Variant::TTNewLegendary => "TTNewLegendary",
            Variant::SCLegendary => "SCLegendary",
            Variant::VehicleLegendary => "VehicleLegendary",
            Variant::ImaginatorsLegendary => "ImaginatorsLegendary",
            Variant::Unknown(_) => "Unknown",
        }
    }

    /// The name of this variant, as it is written here; `Unknown` without its number.
    pub fn name(self) -> (r: &'static str)
        ensures
            r@ == self.spec_name()@,
    {
        match self {
            Variant::Series1 => "Series1",
            Variant::Series2 => "Series2",
            Variant::Series3 => "Series3",
            Variant::Series4 => "Series4",
            Variant::GiantCore1 => "GiantCore1",
            Variant::GiantCore2 => "GiantCore2",
            Variant::GiantCore3 => "GiantCore3",
            Variant::SwapForce1 => "SwapForce1",
            Variant::SwapForce2 => "SwapForce2",
            Variant::TrapTeam => "TrapTeam",
            Variant::Superchargers => "Superchargers",
            Variant::Vehicle => "Vehicle",
            Variant::Imaginators => "Imaginators",
            Variant::GiantsLightcore => "GiantsLightcore",
            Variant::SwapForceLightcore => "SwapForceLightcore",
            Variant::TTElite => "TTElite",
            Variant::SCElite => "SCElite",
            Variant::GiantAlt => "GiantAlt",
            Variant::GiantReturningCoreAlt => "GiantReturningCoreAlt",
            Variant::GiantNewCoreAlt => "GiantNewCoreAlt",
            Variant::SFNewAlt => "SFNewAlt",
            Variant::SFReturningAlt => "SFReturningAlt",
            Variant::TTReturningAlt => "TTReturningAlt",
            Variant::TTNewAlt => "TTNewAlt",
            Variant::SCAlt => "SCAlt",
            Variant::SCHalloween => "SCHalloween",
            Variant::SCWinter => "SCWinter",
            Variant::SCEaster => "SCEaster",
            Variant::VehicleAlt => "VehicleAlt",
            Variant::VehicleHalloween => "VehicleHalloween",
            Variant::VehicleWinter => "VehicleWinter",
            Variant::VehicleEaster => "VehicleEaster",
            Variant::ImaginatorsAlt => "ImaginatorsAlt",
            Variant::ImaginatorsHalloween => "ImaginatorsHalloween",
            Variant::ImaginatorsWinter => "ImaginatorsWinter",
            Variant::ImaginatorsEaster => "ImaginatorsEaster",
            Variant::GiantLegendary => "GiantLegendary",
            Variant::GiantReturningCoreLegendary => "GiantReturningCoreLegendary",
            Variant::GiantNewCoreLegendary => "GiantNewCoreLegendary",
            Variant::SFNewLegendary => "SFNewLegendary",
            Variant::SFReturningLegendary => "SFReturningLegendary",
            Variant::TTReturningLegendary => "TTReturningLegendary",
            Variant::TTNewLegendary => "TTNewLegendary",
            Variant::SCLegendary => "SCLegendary",
            Variant::VehicleLegendary => "VehicleLegendary",
            Variant::ImaginatorsLegendary => "ImaginatorsLegendary",
            Variant::Unknown(_) => "Unknown",
        }
    }

    /// The game, the decoration and the ability bits of a named variant.
    pub open spec fn spec_parts(self) -> Option<(Game, DecoID, u16)> {
        match self {
            Variant::Series1 => Some((Game::Spyros, DecoID::Normal, 0x0000u16)),
            Variant::Series2 => Some((Game::Giants, DecoID::Repose1, 0x0800u16)),
            Variant::Series3 => Some((Game::SwapForce, DecoID::Repose2, 0x0200u16)),
            Variant::Series4 => Some((Game::TrapTeam, DecoID::Repose3, 0x0800u16)),
            Variant::GiantCore1 => Some((Game::Giants, DecoID::Normal, 0x0000u16)),
            Variant::GiantCore2 => Some((Game::SwapForce, DecoID::Repose1, 0x0800u16)),
            Variant::GiantCore3 => Some((Game::TrapTeam, DecoID::Repose2, 0x0800u16)),
            Variant::SwapForce1 => Some((Game::SwapForce, DecoID::Normal, 0x0000u16)),
            Variant::SwapForce2 => Some((Game::TrapTeam, DecoID::Repose1, 0x0800u16)),
            Variant::TrapTeam => Some((Game::TrapTeam, DecoID::Normal, 0x0000u16)),
            Variant::Superchargers => Some((Game::Superchargers, DecoID::Normal, 0x0100u16)),
            Variant::Vehicle => Some((Game::Superchargers, DecoID::Normal, 0x0000u16)),
            Variant::Imaginators => Some((Game::Imaginators, DecoID::Normal, 0x0000u16)),
            Variant::GiantsLightcore => Some((Game::Giants, DecoID::LightDirect, 0x0200u16)),
            Variant::SwapForceLightcore => Some((Game::SwapForce, DecoID::LightDirect, 0x0200u16)),
            Variant::TTElite => Some((Game::TrapTeam, DecoID::Premium, 0x0800u16)),
            Variant::SCElite => Some((Game::Superchargers, DecoID::Premium, 0x0800u16)),
            Variant::GiantAlt => Some((Game::Giants, DecoID::AlternateDeco, 0x0600u16)),
            Variant::GiantReturningCoreAlt => Some((Game::Giants, DecoID::AlternateDeco, 0x0c00u16)),
            Variant::GiantNewCoreAlt => Some((Game::Giants, DecoID::AlternateDeco, 0x0400u16)),
            Variant::SFNewAlt => Some((Game::SwapForce, DecoID::AlternateDeco, 0x0400u16)),
            Variant::SFReturningAlt => Some((Game::SwapForce, DecoID::AlternateDeco, 0x0c00u16)),
            Variant::TTReturningAlt => Some((Game::TrapTeam, DecoID::AlternateDeco, 0x0c00u16)),
            Variant::TTNewAlt => Some((Game::TrapTeam, DecoID::AlternateDeco, 0x0400u16)),
            Variant::SCAlt => Some((Game::Superchargers, DecoID::AlternateDeco, 0x0500u16)),
            Variant::SCHalloween => Some((Game::Superchargers, DecoID::Halloween, 0x0500u16)),
            Variant::SCWinter => Some((Game::Superchargers, DecoID::Winter, 0x0500u16)),
            Variant::SCEaster => Some((Game::Superchargers, DecoID::Easter, 0x0500u16)),
            Variant::VehicleAlt => Some((Game::Superchargers, DecoID::AlternateDeco, 0x0400u16)),
            Variant::VehicleHalloween => Some((Game::Superchargers, DecoID::Halloween, 0x0400u16)),
            Variant::VehicleWinter => Some((Game::Superchargers, DecoID::Winter, 0x0400u16)),
            Variant::VehicleEaster => Some((Game::Superchargers, DecoID::Easter, 0x0400u16)),
            Variant::ImaginatorsAlt => Some((Game::Imaginators, DecoID::AlternateDeco, 0x0400u16)),
            Variant::ImaginatorsHalloween => Some((Game::Imaginators, DecoID::Halloween, 0x0400u16)),
            Variant::ImaginatorsWinter => Some((Game::Imaginators, DecoID::Winter, 0x0400u16)),
            Variant::ImaginatorsEaster => Some((Game::Imaginators, DecoID::Easter, 0x0400u16)),
            Variant::GiantLegendary => Some((Game::Giants, DecoID::Legendary, 0x0600u16)),
            Variant::GiantReturningCoreLegendary => Some((Game::Giants, DecoID::Legendary, 0x0c00u16)),
            Variant::GiantNewCoreLegendary => Some((Game::Giants, DecoID::Legendary, 0x0400u16)),
            Variant::SFNewLegendary => Some((Game::SwapForce, DecoID::Legendary, 0x0400u16)),
            Variant::SFReturningLegendary => Some((Game::SwapForce, DecoID::Legendary, 0x0c00u16)),
            Variant::TTReturningLegendary => Some((Game::TrapTeam, DecoID::Legendary, 0x0c00u16)),
            Variant::TTNewLegendary => Some((Game::TrapTeam, DecoID::Legendary, 0x0400u16)),
            Variant::SCLegendary => Some((Game::Superchargers, DecoID::Legendary, 0x0500u16)),
            Variant::VehicleLegendary => Some((Game::Superchargers, DecoID::Legendary, 0x0400u16)),
            Variant::ImaginatorsLegendary => Some((Game::Imaginators, DecoID::Legendary, 0x0400u16)),
            Variant::Unknown(_) => None,
        }
    }

    /// The game, the decoration and the ability bits of a named variant;
    /// `None` for a number that the catalogue does not name.
    pub fn parts(self) -> (r: Option<(Game, DecoID, u16)>)
        ensures
            r == self.spec_parts(),
    {
        match self {
            Variant::Series1 => Some((Game::Spyros, DecoID::Normal, 0x0000u16)),
            Variant::Series2 => Some((Game::Giants, DecoID::Repose1, 0x0800u16)),
            Variant::Series3 => Some((Game::SwapForce, DecoID::Repose2, 0x0200u16)),
            Variant::Series4 => Some((Game::TrapTeam, DecoID::Repose3, 0x0800u16)),
            Variant::GiantCore1 => Some((Game::Giants, DecoID::Normal, 0x0000u16)),
            Variant::GiantCore2 => Some((Game::SwapForce, DecoID::Repose1, 0x0800u16)),
            Variant::GiantCore3 => Some((Game::TrapTeam, DecoID::Repose2, 0x0800u16)),
            Variant::SwapForce1 => Some((Game::SwapForce, DecoID::Normal, 0x0000u16)),
            Variant::SwapForce2 => Some((Game::TrapTeam, DecoID::Repose1, 0x0800u16)),
            Variant::TrapTeam => Some((Game::TrapTeam, DecoID::Normal, 0x0000u16)),
            Variant::Superchargers => Some((Game::Superchargers, DecoID::Normal, 0x0100u16)),
            Variant::Vehicle => Some((Game::Superchargers, DecoID::Normal, 0x0000u16)),
            Variant::Imaginators => Some((Game::Imaginators, DecoID::Normal, 0x0000u16)),
            Variant::GiantsLightcore => Some((Game::Giants, DecoID::LightDirect, 0x0200u16)),
            Variant::SwapForceLightcore => Some((Game::SwapForce, DecoID::LightDirect, 0x0200u16)),
            Variant::TTElite => Some((Game::TrapTeam, DecoID::Premium, 0x0800u16)),
            Variant::SCElite => Some((Game::Superchargers, DecoID::Premium, 0x0800u16)),
            Variant::GiantAlt => Some((Game::Giants, DecoID::AlternateDeco, 0x0600u16)),
            Variant::GiantReturningCoreAlt => Some((Game::Giants, DecoID::AlternateDeco, 0x0c00u16)),
            Variant::GiantNewCoreAlt => Some((Game::Giants, DecoID::AlternateDeco, 0x0400u16)),
            Variant::SFNewAlt => Some((Game::SwapForce, DecoID::AlternateDeco, 0x0400u16)),
            Variant::SFReturningAlt => Some((Game::SwapForce, DecoID::AlternateDeco, 0x0c00u16)),
            Variant::TTReturningAlt => Some((Game::TrapTeam, DecoID::AlternateDeco, 0x0c00u16)),
            Variant::TTNewAlt => Some((Game::TrapTeam, DecoID::AlternateDeco, 0x0400u16)),
            Variant::SCAlt => Some((Game::Superchargers, DecoID::AlternateDeco, 0x0500u16)),
            Variant::SCHalloween => Some((Game::Superchargers, DecoID::Halloween, 0x0500u16)),
            Variant::SCWinter => Some((Game::Superchargers, DecoID::Winter, 0x0500u16)),
            Variant::SCEaster => Some((Game::Superchargers, DecoID::Easter, 0x0500u16)),
            Variant::VehicleAlt => Some((Game::Superchargers, DecoID::AlternateDeco, 0x0400u16)),
            Variant::VehicleHalloween => Some((Game::Superchargers, DecoID::Halloween, 0x0400u16)),
            Variant::VehicleWinter => Some((Game::Superchargers, DecoID::Winter, 0x0400u16)),
            Variant::VehicleEaster => Some((Game::Superchargers, DecoID::Easter, 0x0400u16)),
            Variant::ImaginatorsAlt => Some((Game::Imaginators, DecoID::AlternateDeco, 0x0400u16)),
            Variant::ImaginatorsHalloween => Some((Game::Imaginators, DecoID::Halloween, 0x0400u16)),
            Variant::ImaginatorsWinter => Some((Game::Imaginators, DecoID::Winter, 0x0400u16)),
            Variant::ImaginatorsEaster => Some((Game::Imaginators, DecoID::Easter, 0x0400u16)),
            Variant::GiantLegendary => Some((Game::Giants, DecoID::Legendary, 0x0600u16)),
            Variant::GiantReturningCoreLegendary => Some((Game::Giants, DecoID::Legendary, 0x0c00u16)),
            Variant::GiantNewCoreLegendary => Some((Game::Giants, DecoID::Legendary, 0x0400u16)),
            Variant::SFNewLegendary => Some((Game::SwapForce, DecoID::Legendary, 0x0400u16)),
            Variant::SFReturningLegendary => Some((Game::SwapForce, DecoID::Legendary, 0x0c00u16)),
            Variant::TTReturningLegendary => Some((Game::TrapTeam, DecoID::Legendary, 0x0c00u16)),
            Variant::TTNewLegendary => Some((Game::TrapTeam, DecoID::Legendary, 0x0400u16)),
            Variant::SCLegendary => Some((Game::Superchargers, DecoID::Legendary, 0x0500u16)),
            Variant::VehicleLegendary => Some((Game::Superchargers, DecoID::Legendary, 0x0400u16)),
            Variant::ImaginatorsLegendary => Some((Game::Imaginators, DecoID::Legendary, 0x0400u16)),
            Variant::Unknown(_) => None,
        }
    }

    /// Whether the catalogue names a variant by `id`.
    pub open spec fn known(id: u16) -> bool {
        exists|c: Variant| c.is_named() && c.spec_id() == id
    }

    /// The named variant that `id` stands for, where the catalogue names one.
    pub open spec fn lookup(id: u16) -> Option<Variant> {
        if Variant::known(id) {
            Some(choose|c: Variant| c.is_named() && c.spec_id() == id)
        } else {
            None
        }
    }

    /// The variant that `id` stands for: its name, or `Unknown` with the number.
    pub open spec fn spec_from_id(id: u16) -> Variant {
        match Variant::lookup(id) {
            Some(c) => c,
            None => Variant::Unknown(id),
        }
    }

    /// The place of a named variant in the catalogue, counted from zero.
    pub open spec fn ordinal(self) -> int {
        match self {
            Variant::Series1 => 0,
            Variant::Series2 => 1,
            Variant::Series3 => 2,
            Variant::Series4 => 3,
            Variant::GiantCore1 => 4,
            Variant::GiantCore2 => 5,
            Variant::GiantCore3 => 6,
            Variant::SwapForce1 => 7,
            Variant::SwapForce2 => 8,
            Variant::TrapTeam => 9,
            Variant::Superchargers => 10,
            Variant::Vehicle => 11,
            Variant::Imaginators => 12,
            Variant::GiantsLightcore => 13,
            Variant::SwapForceLightcore => 14,
            Variant::TTElite => 15,
            Variant::SCElite => 16,
            Variant::GiantAlt => 17,
            Variant::GiantReturningCoreAlt => 18,
            Variant::GiantNewCoreAlt => 19,
            Variant::SFNewAlt => 20,
            Variant::SFReturningAlt => 21,
            Variant::TTReturningAlt => 22,
            Variant::TTNewAlt => 23,
            Variant::SCAlt => 24,
            Variant::SCHalloween => 25,
            Variant::SCWinter => 26,
            Variant::SCEaster => 27,
            Variant::VehicleAlt => 28,
            Variant::VehicleHalloween => 29,
            Variant::VehicleWinter => 30,
            Variant::VehicleEaster => 31,
            Variant::ImaginatorsAlt => 32,
            Variant::ImaginatorsHalloween => 33,
            Variant::ImaginatorsWinter => 34,
            Variant::ImaginatorsEaster => 35,
            Variant::GiantLegendary => 36,
            Variant::GiantReturningCoreLegendary => 37,
            Variant::GiantNewCoreLegendary => 38,
            Variant::SFNewLegendary => 39,
            Variant::SFReturningLegendary => 40,
            Variant::TTReturningLegendary => 41,
            Variant::TTNewLegendary => 42,
            Variant::SCLegendary => 43,
            Variant::VehicleLegendary => 44,
            Variant::ImaginatorsLegendary => 45,
            Variant::Unknown(_) => 46,
        }
    }

    /// Every named variant, once each, in catalogue order.
    pub fn all() -> (r: Vec<Variant>)
        ensures
            r@.len() == Variant::COUNT,
            forall|c: Variant|
                c.is_named() ==> 0 <= c.ordinal() < r@.len() && r@[#[trigger] c.ordinal()] == c,
            forall|i: int| 0 <= i < r@.len() ==> (#[trigger] r@[i]).is_named(),
    {
        let r = vec![
            Variant::Series1,
            Variant::Series2,
            Variant::Series3,
            Variant::Series4,
            Variant::GiantCore1,
            Variant::GiantCore2,
            Variant::GiantCore3,
            Variant::SwapForce1,
            Variant::SwapForce2,
            Variant::TrapTeam,
            Variant::Superchargers,
            Variant::Vehicle,
            Variant::Imaginators,
            Variant::GiantsLightcore,
            Variant::SwapForceLightcore,
            Variant::TTElite,
            Variant::SCElite,
            Variant::GiantAlt,
            Variant::GiantReturningCoreAlt,
            Variant::GiantNewCoreAlt,
            Variant::SFNewAlt,
            Variant::SFReturningAlt,
            Variant::TTReturningAlt,
            Variant::TTNewAlt,
            Variant::SCAlt,
            Variant::SCHalloween,
            Variant::SCWinter,
            Variant::SCEaster,
            Variant::VehicleAlt,
            Variant::VehicleHalloween,
            Variant::VehicleWinter,
            Variant::VehicleEaster,
            Variant::ImaginatorsAlt,
            Variant::ImaginatorsHalloween,
            Variant::ImaginatorsWinter,
            Variant::ImaginatorsEaster,
            Variant::GiantLegendary,
            Variant::GiantReturningCoreLegendary,
            Variant::GiantNewCoreLegendary,
            Variant::SFNewLegendary,
            Variant::SFReturningLegendary,
            Variant::TTReturningLegendary,
            Variant::TTNewLegendary,
            Variant::SCLegendary,
            Variant::VehicleLegendary,
            Variant::ImaginatorsLegendary,
        ];
        r
    }

    /// The catalogue as an index: each named variant under its number.
    pub fn make_index() -> (m: HashMap<u16, Variant>)
        ensures
            forall|c: Variant|
                c.is_named() ==> #[trigger] m@.contains_key(c.spec_id()) && m@[c.spec_id()] == c,
            forall|id: u16| #[trigger] m@.contains_key(id) ==> Variant::known(id) && m@[id].is_named(),
    {
        broadcast use vstd::std_specs::hash::group_hash_axioms;

        let items = Variant::all();
        let mut m: HashMap<u16, Variant> = HashMap::new();
        let mut i: usize = 0;
        while i < items.len()
            invariant
                i <= items@.len(),
                forall|j: int| 0 <= j < items@.len() ==> (#[trigger] items@[j]).is_named(),
                forall|j: int|
                    0 <= j < i ==> #[trigger] m@.contains_key(items@[j].spec_id()) && m@[items@[j].spec_id()]
                        == items@[j],
                forall|id: u16|
                    #[trigger] m@.contains_key(id) ==> Variant::known(id) && m@[id].is_named(),
            decreases items@.len() - i,
        {
            let t = items[i];
            let ghost before = m@;
            m.insert(u16::from(t), t);
            proof {
                assert forall|j: int| 0 <= j < i + 1 implies #[trigger] m@.contains_key(
                    items@[j].spec_id(),
                ) && m@[items@[j].spec_id()] == items@[j] by {
                    if items@[j].spec_id() == t.spec_id() {
                        Variant::lemma_id_injective(items@[j], t);
                    } else {
                        assert(before.contains_key(items@[j].spec_id()));
                    }
                }
            }
            i += 1;
        }
        proof {
            assert forall|c: Variant| c.is_named() implies #[trigger] m@.contains_key(c.spec_id())
                && m@[c.spec_id()] == c by {
                assert(items@[c.ordinal()] == c);
            }
        }
        m
    }

    /// Looks the number `id` up in the index of the catalogue.
    pub fn find(id: u16) -> (r: Option<Variant>)
        ensures
            r == Variant::lookup(id),
    {
        broadcast use vstd::std_specs::hash::group_hash_axioms;

        let index = Variant::make_index();
        match index.get(&id) {
            Some(c) => {
                proof {
                    let found = choose|d: Variant| d.is_named() && d.spec_id() == id;
                    assert(index@[found.spec_id()] == found);
                }
                Some(*c)
            },
            None => {
                proof {
                    assert forall|c: Variant| c.is_named() implies c.spec_id() != id by {
                        assert(index@.contains_key(c.spec_id()));
                    }
                }
                None
            },
        }
    }

    /// Reads a variant number: the catalogue's name for it, or `Unknown` with the number.
    pub fn from_id(id: u16) -> (r: Variant)
        ensures
            r == Variant::spec_from_id(id),
    {
        match Variant::find(id) {
            Some(c) => c,
            None => Variant::Unknown(id),
        }
    }

    /// Two named variants with the same number are the same variant.
    pub proof fn lemma_id_injective(a: Variant, b: Variant)
        requires
            a.is_named(),
            b.is_named(),
            a.spec_id() == b.spec_id(),
        ensures
            a == b,
    {
    }

    /// Looking up the number of a named variant gives that variant back.
    pub proof fn lemma_lookup_of_id(c: Variant)
        requires
            c.is_named(),
        ensures
            Variant::lookup(c.spec_id()) == Some(c),
    {
        let found = choose|d: Variant| d.is_named() && d.spec_id() == c.spec_id();
        Variant::lemma_id_injective(found, c);
    }

    /// Reading a number and writing the result down again gives the number back.
    pub proof fn lemma_id_of_from_id(id: u16)
        ensures
            Variant::spec_from_id(id).spec_id() == id,
    {
    }

    /// The number of a named variant is made of its game, its decoration and its ability bits.
    pub proof fn lemma_id_is_composed(c: Variant)
        requires
            c.is_named(),
        ensures
            c.spec_parts() matches Some((game, decoid, bf)) && c.spec_id() == spec_get_variant(
                game,
                decoid,
                bf,
            ),
    {
        assert(
            0x0000u16 | 0x0000u16 | 0x0000u16 == 0x0000u16
                && 0x1000u16 | 0x0000u16 | 0x0000u16 == 0x1000u16
                && 0x1000u16 | 0x0001u16 | 0x0800u16 == 0x1801u16
                && 0x1000u16 | 0x0002u16 | 0x0400u16 == 0x1402u16
                && 0x1000u16 | 0x0002u16 | 0x0600u16 == 0x1602u16
                && 0x1000u16 | 0x0002u16 | 0x0c00u16 == 0x1c02u16
                && 0x1000u16 | 0x0003u16 | 0x0400u16 == 0x1403u16
                && 0x1000u16 | 0x0003u16 | 0x0600u16 == 0x1603u16
                && 0x1000u16 | 0x0003u16 | 0x0c00u16 == 0x1c03u16
                && 0x1000u16 | 0x0006u16 | 0x0200u16 == 0x1206u16
                && 0x2000u16 | 0x0000u16 | 0x0000u16 == 0x2000u16
                && 0x2000u16 | 0x0001u16 | 0x0800u16 == 0x2801u16
                && 0x2000u16 | 0x0002u16 | 0x0400u16 == 0x2402u16
                && 0x2000u16 | 0x0002u16 | 0x0c00u16 == 0x2c02u16
                && 0x2000u16 | 0x0003u16 | 0x0400u16 == 0x2403u16
                && 0x2000u16 | 0x0003u16 | 0x0c00u16 == 0x2c03u16
                && 0x2000u16 | 0x0005u16 | 0x0200u16 == 0x2205u16
                && 0x2000u16 | 0x0006u16 | 0x0200u16 == 0x2206u16
                && 0x3000u16 | 0x0000u16 | 0x0000u16 == 0x3000u16
                && 0x3000u16 | 0x0001u16 | 0x0800u16 == 0x3801u16
                && 0x3000u16 | 0x0002u16 | 0x0400u16 == 0x3402u16
                && 0x3000u16 | 0x0002u16 | 0x0c00u16 == 0x3c02u16
                && 0x3000u16 | 0x0003u16 | 0x0400u16 == 0x3403u16
                && 0x3000u16 | 0x0003u16 | 0x0c00u16 == 0x3c03u16
                && 0x3000u16 | 0x0005u16 | 0x0800u16 == 0x3805u16
                && 0x3000u16 | 0x0009u16 | 0x0800u16 == 0x3809u16
                && 0x3000u16 | 0x0010u16 | 0x0800u16 == 0x3810u16
                && 0x4000u16 | 0x0000u16 | 0x0000u16 == 0x4000u16
                && 0x4000u16 | 0x0000u16 | 0x0100u16 == 0x4100u16
                && 0x4000u16 | 0x0002u16 | 0x0400u16 == 0x4402u16
                && 0x4000u16 | 0x0002u16 | 0x0500u16 == 0x4502u16
                && 0x4000u16 | 0x0003u16 | 0x0400u16 == 0x4403u16
                && 0x4000u16 | 0x0003u16 | 0x0500u16 == 0x4503u16
                && 0x4000u16 | 0x000du16 | 0x0400u16 == 0x440du16
                && 0x4000u16 | 0x000du16 | 0x0500u16 == 0x450du16
                && 0x4000u16 | 0x000eu16 | 0x0400u16 == 0x440eu16
                && 0x4000u16 | 0x000eu16 | 0x0500u16 == 0x450eu16
                && 0x4000u16 | 0x0010u16 | 0x0800u16 == 0x4810u16
                && 0x4000u16 | 0x0015u16 | 0x0400u16 == 0x4415u16
                && 0x4000u16 | 0x0015u16 | 0x0500u16 == 0x4515u16
                && 0x5000u16 | 0x0000u16 | 0x0000u16 == 0x5000u16
                && 0x5000u16 | 0x0002u16 | 0x0400u16 == 0x5402u16
                && 0x5000u16 | 0x0003u16 | 0x0400u16 == 0x5403u16
                && 0x5000u16 | 0x000du16 | 0x0400u16 == 0x540du16
                && 0x5000u16 | 0x000eu16 | 0x0400u16 == 0x540eu16
                && 0x5000u16 | 0x0015u16 | 0x0400u16 == 0x5415u16
        ) by (bit_vector);
    }
}

impl From<Variant> for u16 {
    fn from(value: Variant) -> (r: u16) {
        match value {
            Variant::Series1 => 0x0000,
            Variant::Series2 => 0x1801,
            Variant::Series3 => 0x2205,
            Variant::Series4 => 0x3809,
            Variant::GiantCore1 => 0x1000,
            Variant::GiantCore2 => 0x2801,
            Variant::GiantCore3 => 0x3805,
            Variant::SwapForce1 => 0x2000,
            Variant::SwapForce2 => 0x3801,
            Variant::TrapTeam => 0x3000,
            Variant::Superchargers => 0x4100,
            Variant::Vehicle => 0x4000,
            Variant::Imaginators => 0x5000,
            Variant::GiantsLightcore => 0x1206,
            Variant::SwapForceLightcore => 0x2206,
            Variant::TTElite => 0x3810,
            Variant::SCElite => 0x4810,
            Variant::GiantAlt => 0x1602,
            Variant::GiantReturningCoreAlt => 0x1c02,
            Variant::GiantNewCoreAlt => 0x1402,
            Variant::SFNewAlt => 0x2402,
            Variant::SFReturningAlt => 0x2c02,
            Variant::TTReturningAlt => 0x3c02,
            Variant::TTNewAlt => 0x3402,
            Variant::SCAlt => 0x4502,
            Variant::SCHalloween => 0x4515,
            Variant::SCWinter => 0x450e,
            Variant::SCEaster => 0x450d,
            Variant::VehicleAlt => 0x4402,
            Variant::VehicleHalloween => 0x4415,
            Variant::VehicleWinter => 0x440e,
            Variant::VehicleEaster => 0x440d,
            Variant::ImaginatorsAlt => 0x5402,
            Variant::ImaginatorsHalloween => 0x5415,
            Variant::ImaginatorsWinter => 0x540e,
            Variant::ImaginatorsEaster => 0x540d,
            Variant::GiantLegendary => 0x1603,
            Variant::GiantReturningCoreLegendary => 0x1c03,
            Variant::GiantNewCoreLegendary => 0x1403,
            Variant::SFNewLegendary => 0x2403,
            Variant::SFReturningLegendary => 0x2c03,
            Variant::TTReturningLegendary => 0x3c03,
            Variant::TTNewLegendary => 0x3403,
            Variant::SCLegendary => 0x4503,
            Variant::VehicleLegendary => 0x4403,
            Variant::ImaginatorsLegendary => 0x5403,
            Variant::Unknown(raw) => raw,
        }
    }
}

impl FromSpecImpl<Variant> for u16 {
    open spec fn obeys_from_spec() -> bool {
        true
    }

    open spec fn from_spec(value: Variant) -> u16 {
        value.spec_id()
    }
}

impl TryFrom<u16> for Variant {
    type Error = &'static str;

    fn try_from(value: u16) -> (r: Result<Self, Self::Error>) {
        match Variant::find(value) {
            Some(c) => Ok(c),
            None => Err("Invalid Variant value"),
        }
    }
}

impl TryFromSpecImpl<u16> for Variant {
    open spec fn obeys_try_from_spec() -> bool {
        true
    }

    /// The named variant whose number is `value`, or the error where the catalogue names none.
    open spec fn try_from_spec(value: u16) -> Result<Self, Self::Error> {
        match Variant::lookup(value) {
            Some(c) => Ok(c),
            None => Err("Invalid Variant value"),
        }
    }
}

} // verus!
