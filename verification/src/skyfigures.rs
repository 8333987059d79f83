//! The catalogue of toys: six closed sets of 16-bit numbers, each with its names.

use std::collections::HashMap;
use vstd::prelude::*;
use vstd::std_specs::convert::FromSpecImpl;
use vstd::std_specs::convert::TryFromSpecImpl;

verus! {

/// The playable characters, by name.
#[derive(Clone, Copy, Debug, PartialEq, Eq, Structural)]
pub enum Character {
    Whirlwind,
    SonicBoom,
    Warnado,
    LightningRod,
    Bash,
    Terrafin,
    DinoRang,
    PrismBreak,
    Sunburn,
    Eruptor,
    Ignitor,
    Flameslinger,
    Zap,
    WhamShell,
    GillGrunt,
    SlamBam,
    Spyro,
    Voodood,
    DoubleTrouble,
    TriggerHappy,
    Drobot,
    DrillSergeant,
    Boomer,
    WreckingBall,
    Camo,
    Zook,
    StealthElf,
    StumpSmash,
    DarkSpyro,
    Hex,
    ChopChop,
    GhostRoaster,
    Cynder,
    DebugMinion,
    LegendaryBash,
    LegendarySpyro,
    LegendaryTriggerHappy,
    LegendaryChopChop,
    JetVac,
    Swarm,
    Crusher,
    Flashwing,
    HotHead,
    HotDog,
    Chill,
    Thumpback,
    PopFizz,
    Ninjinni,
    Bouncer,
    Sprocket,
    TreeRex,
    Shroomboom,
    EyeBrawl,
    FrightRider,
    Bop,
    Spry,
    Hijinx,
    Terrabite,
    Breeze,
    Weerupter,
    PetVac,
    SmallFry,
    Drobit,
    GillRunt,
    TriggerSnappy,
    WhisperElf,
    Barkley,
    Thumpling,
    MiniJini,
    EyeSmall,
    BoomJetBottom,
    FreeRangerBottom,
    RubbleRouserBottom,
    DoomStoneBottom,
    BlastZoneBottom,
    FireKrakenBottom,
    StinkBombBottom,
    GrillaDrillaBottom,
    FortuneBottom,
    TrapShadowBottom,
    MagnaChargeBottom,
    SpyRiseBottom,
    NightShiftBottom,
    RattleShakeBottom,
    FreezeBladeBottom,
    WashBucklerBottom,
    BoomJetTop,
    FreeRangerTop,
    RubbleRouserTop,
    DoomStoneTop,
    BlastZoneTop,
    FireKrakenTop,
    StinkBombTop,
    GrillaDrillaTop,
    FortuneTop,
    TrapShadowTop,
    MagnaChargeTop,
    SpyRiseTop,
    NightShiftTop,
    RattleShakeTop,
    FreezeBladeTop,
    WashBucklerTop,
    TemplateBottom,
    TemplateTop,
    Scratch,
    PopThorn,
    SlobberTooth,
    Scorp,
    Fryno,
    Smolderdash,
    BumbleBlast,
    ZooLou,
    DuneBug,
    StarStrike,
    Countdown,
    WindUp,
    RollerBrawl,
    GrimCreeper,
    RipTide,
    PunkShock,
    Gusto,
    Thunderbolt,
    FlingKong,
    Blades,
    Wallop,
    HeadRush,
    FistBump,
    RockyRoll,
    WildFire,
    KaBoom,
    TrailBlazer,
    Torch,
    SnapShot,
    LobStar,
    FlipWreck,
    Echo,
    Blastermind,
    Enigma,
    DejaVu,
    CobraCadabra,
    Jawbreaker,
    Gearshift,
    Chopper,
    TreadHead,
    Bushwhack,
    TuffLuck,
    FoodFight,
    HighFive,
    KryptKing,
    ShortCut,
    BatSpin,
    FunnyBone,
    KnightLight,
    SpotLight,
    KnightMare,
    Blackout,
    Template,
    Fiesta,
    HighVolt,
    Splat,
    Stormblade,
    SmashHit,
    Spitfire,
    DriverJetVac,
    DriverTriggerHappy,
    DriverStealthElf,
    DriverTerrafin,
    DriverRollerBrawl,
    DriverPopFizz,
    DriverEruptor,
    DriverGillGrunt,
    DonkeyKong,
    Bowser,
    DiveClops,
    Astroblast,
    Nightfall,
    Thrillipede,
    Fusion,
    Synergy,
    Unity,
    BlueFalcon,
    KingPen,
    TriTip,
    ChopScotch,
    BoomBloom,
    Pitboss,
    Barbella,
    AirStrike,
    Ember,
    Ambush,
    DrKrankcase,
    Hoodsickle,
    TaeKwonCrow,
    GoldenQueen,
    Wolfgang,
    PainYatta,
    StarCast,
    Buckshot,
    Aurora,
    FlareWolf,
    ChompyMage,
    BadJuju,
    GraveClobber,
    BlasterTron,
    RoBow,
    ChainReaction,
    Kaos,
    Wildstorm,
    Tidepool,
    CrashBandicoot,
    DrNeoCortex,
    ImaginatorTemplate,
}

impl Character {
    /// How many characters the catalogue names.
    pub const COUNT: usize = 212;

    /// The 16-bit number that stands for this value on a tag.
    pub open spec fn spec_id(self) -> u16 {
        match self {
            Character::Whirlwind => 0,
            Character::SonicBoom => 1,
            Character::Warnado => 2,
            Character::LightningRod => 3,
            Character::Bash => 4,
            Character::Terrafin => 5,
            Character::DinoRang => 6,
            Character::PrismBreak => 7,
            Character::Sunburn => 8,
            Character::Eruptor => 9,
            Character::Ignitor => 10,
            Character::Flameslinger => 11,
            Character::Zap => 12,
            Character::WhamShell => 13,
            Character::GillGrunt => 14,
            Character::SlamBam => 15,
            Character::Spyro => 16,
            Character::Voodood => 17,
            Character::DoubleTrouble => 18,
            Character::TriggerHappy => 19,
            Character::Drobot => 20,
            Character::DrillSergeant => 21,
            Character::Boomer => 22,
            Character::WreckingBall => 23,
            Character::Camo => 24,
            Character::Zook => 25,
            Character::StealthElf => 26,
            Character::StumpSmash => 27,
            Character::DarkSpyro => 28,
            Character::Hex => 29,
            Character::ChopChop => 30,
            Character::GhostRoaster => 31,
            Character::Cynder => 32,
            Character::DebugMinion => 99,
            Character::LegendaryBash => 404,
            Character::LegendarySpyro => 416,
            Character::LegendaryTriggerHappy => 419,
            Character::LegendaryChopChop => 430,
            Character::JetVac => 100,
            Character::Swarm => 101,
            Character::Crusher => 102,
            Character::Flashwing => 103,
            Character::HotHead => 104,
            Character::HotDog => 105,
            Character::Chill => 106,
            Character::Thumpback => 107,
            Character::PopFizz => 108,
            Character::Ninjinni => 109,
            Character::Bouncer => 110,
            Character::Sprocket => 111,
            Character::TreeRex => 112,
            Character::Shroomboom => 113,
            Character::EyeBrawl => 114,
            Character::FrightRider => 115,
            Character::Bop => 502,
            Character::Spry => 503,
            Character::Hijinx => 504,
            Character::Terrabite => 505,
            Character::Breeze => 506,
            Character::Weerupter => 507,
            Character::PetVac => 508,
            Character::SmallFry => 509,
            Character::Drobit => 510,
            Character::GillRunt => 514,
            Character::TriggerSnappy => 519,
            Character::WhisperElf => 526,
            Character::Barkley => 540,
            Character::Thumpling => 541,
            Character::MiniJini => 542,
            Character::EyeSmall => 543,
            Character::BoomJetBottom => 1000,
            Character::FreeRangerBottom => 1001,
            Character::RubbleRouserBottom => 1002,
            Character::DoomStoneBottom => 1003,
            Character::BlastZoneBottom => 1004,
            Character::FireKrakenBottom => 1005,
            Character::StinkBombBottom => 1006,
            Character::GrillaDrillaBottom => 1007,
            Character::FortuneBottom => 1008,
            Character::TrapShadowBottom => 1009,
            Character::MagnaChargeBottom => 1010,
            Character::SpyRiseBottom => 1011,
            Character::NightShiftBottom => 1012,
            Character::RattleShakeBottom => 1013,
            Character::FreezeBladeBottom => 1014,
            Character::WashBucklerBottom => 1015,
            Character::BoomJetTop => 2000,
            Character::FreeRangerTop => 2001,
            Character::RubbleRouserTop => 2002,
            Character::DoomStoneTop => 2003,
            Character::BlastZoneTop => 2004,
            Character::FireKrakenTop => 2005,
            Character::StinkBombTop => 2006,
            Character::GrillaDrillaTop => 2007,
            Character::FortuneTop => 2008,
            Character::TrapShadowTop => 2009,
            Character::MagnaChargeTop => 2010,
            Character::SpyRiseTop => 2011,
            Character::NightShiftTop => 2012,
            Character::RattleShakeTop => 2013,
            Character::FreezeBladeTop => 2014,
            Character::WashBucklerTop => 2015,
            Character::TemplateBottom => 1999,
            Character::TemplateTop => 2999,
            Character::Scratch => 3000,
            Character::PopThorn => 3001,
            Character::SlobberTooth => 3002,
            Character::Scorp => 3003,
            Character::Fryno => 3004,
            Character::Smolderdash => 3005,
            Character::BumbleBlast => 3006,
            Character::ZooLou => 3007,
            Character::DuneBug => 3008,
            Character::StarStrike => 3009,
            Character::Countdown => 3010,
            Character::WindUp => 3011,
            Character::RollerBrawl => 3012,
            Character::GrimCreeper => 3013,
            Character::RipTide => 3014,
            Character::PunkShock => 3015,
            Character::Gusto => 450,
            Character::Thunderbolt => 451,
            Character::FlingKong => 452,
            Character::Blades => 453,
            Character::Wallop => 454,
            Character::HeadRush => 455,
            Character::FistBump => 456,
            Character::RockyRoll => 457,
            Character::WildFire => 458,
            Character::KaBoom => 459,
            Character::TrailBlazer => 460,
            Character::Torch => 461,
            Character::SnapShot => 462,
            Character::LobStar => 463,
            Character::FlipWreck => 464,
            Character::Echo => 465,
            Character::Blastermind => 466,
            Character::Enigma => 467,
            Character::DejaVu => 468,
            Character::CobraCadabra => 469,
            Character::Jawbreaker => 470,
            Character::Gearshift => 471,
            Character::Chopper => 472,
            Character::TreadHead => 473,
            Character::Bushwhack => 474,
            Character::TuffLuck => 475,
            Character::FoodFight => 476,
            Character::HighFive => 477,
            Character::KryptKing => 478,
            Character::ShortCut => 479,
            Character::BatSpin => 480,
            Character::FunnyBone => 481,
            Character::KnightLight => 482,
            Character::SpotLight => 483,
            Character::KnightMare => 484,
            Character::Blackout => 485,
            Character::Template => 3999,
            Character::Fiesta => 3400,
            Character::HighVolt => 3401,
            Character::Splat => 3402,
            Character::Stormblade => 3406,
            Character::SmashHit => 3411,
            Character::Spitfire => 3412,
            Character::DriverJetVac => 3413,
            Character::DriverTriggerHappy => 3414,
            Character::DriverStealthElf => 3415,
            Character::DriverTerrafin => 3416,
            Character::DriverRollerBrawl => 3417,
            Character::DriverPopFizz => 3420,
            Character::DriverEruptor => 3421,
            Character::DriverGillGrunt => 3422,
            Character::DonkeyKong => 3423,
            Character::Bowser => 3424,
            Character::DiveClops => 3425,
            Character::Astroblast => 3426,
            Character::Nightfall => 3427,
            Character::Thrillipede => 3428,
            Character::Fusion => 4500,
            Character::Synergy => 4501,
            Character::Unity => 4502,
            Character::BlueFalcon => 4503,
            Character::KingPen => 601,
            Character::TriTip => 602,
            Character::ChopScotch => 603,
            Character::BoomBloom => 604,
            Character::Pitboss => 605,
            Character::Barbella => 606,
            Character::AirStrike => 607,
            Character::Ember => 608,
            Character::Ambush => 609,
            Character::DrKrankcase => 610,
            Character::Hoodsickle => 611,
            Character::TaeKwonCrow => 612,
            Character::GoldenQueen => 613,
            Character::Wolfgang => 614,
            Character::PainYatta => 615,
            Character::StarCast => 617,
            Character::Buckshot => 618,
            Character::Aurora => 619,
            Character::FlareWolf => 620,
            Character::ChompyMage => 621,
            Character::BadJuju => 622,
            Character::GraveClobber => 623,
            Character::BlasterTron => 624,
            Character::RoBow => 625,
            Character::ChainReaction => 626,
            Character::Kaos => 627,
            Character::Wildstorm => 628,
            Character::Tidepool => 629,
            Character::CrashBandicoot => 630,
            Character::DrNeoCortex => 631,
            Character::ImaginatorTemplate => 699,
        }
    }

    /// The name of this value, as it is written here.
    pub open spec fn spec_name(self) -> &'static str {
        match self {
            Character::Whirlwind => "Whirlwind",
            Character::SonicBoom => "SonicBoom",
            Character::Warnado => "Warnado",
            Character::LightningRod => "LightningRod",
            Character::Bash => "Bash",
            Character::Terrafin => "Terrafin",
            Character::DinoRang => "DinoRang",
            Character::PrismBreak => "PrismBreak",
            Character::Sunburn => "Sunburn",
            Character::Eruptor => "Eruptor",
            Character::Ignitor => "Ignitor",
            Character::Flameslinger => "Flameslinger",
            Character::Zap => "Zap",
            Character::WhamShell => "WhamShell",
            Character::GillGrunt => "GillGrunt",
            Character::SlamBam => "SlamBam",
            Character::Spyro => "Spyro",
            Character::Voodood => "Voodood",
            Character::DoubleTrouble => "DoubleTrouble",
            Character::TriggerHappy => "TriggerHappy",
            Character::Drobot => "Drobot",
            Character::DrillSergeant => "DrillSergeant",
            Character::Boomer => "Boomer",
            Character::WreckingBall => "WreckingBall",
            Character::Camo => "Camo",
            Character::Zook => "Zook",
            Character::StealthElf => "StealthElf",
            Character::StumpSmash => "StumpSmash",
            Character::DarkSpyro => "DarkSpyro",
            Character::Hex => "Hex",
            Character::ChopChop => "ChopChop",
            Character::GhostRoaster => "GhostRoaster",
            Character::Cynder => "Cynder",
            Character::DebugMinion => "DebugMinion",
            Character::LegendaryBash => "LegendaryBash",
            Character::LegendarySpyro => "LegendarySpyro",
            Character::LegendaryTriggerHappy => "LegendaryTriggerHappy",
            Character::LegendaryChopChop => "LegendaryChopChop",
            Character::JetVac => "JetVac",
            Character::Swarm => "Swarm",
            Character::Crusher => "Crusher",
            Character::Flashwing => "Flashwing",
            Character::HotHead => "HotHead",
            Character::HotDog => "HotDog",
            Character::Chill => "Chill",
            Character::Thumpback => "Thumpback",
            Character::PopFizz => "PopFizz",
            Character::Ninjinni => "Ninjinni",
            Character::Bouncer => "Bouncer",
            Character::Sprocket => "Sprocket",
            Character::TreeRex => "TreeRex",
            Character::Shroomboom => "Shroomboom",
            Character::EyeBrawl => "EyeBrawl",
            Character::FrightRider => "FrightRider",
            Character::Bop => "Bop",
            Character::Spry => "Spry",
            Character::Hijinx => "Hijinx",
            Character::Terrabite => "Terrabite",
            Character::Breeze => "Breeze",
            Character::Weerupter => "Weerupter",
            Character::PetVac => "PetVac",
            Character::SmallFry => "SmallFry",
            Character::Drobit => "Drobit",
            Character::GillRunt => "GillRunt",
            Character::TriggerSnappy => "TriggerSnappy",
            Character::WhisperElf => "WhisperElf",
            Character::Barkley => "Barkley",
            Character::Thumpling => "Thumpling",
            Character::MiniJini => "MiniJini",
            Character::EyeSmall => "EyeSmall",
            Character::BoomJetBottom => "BoomJetBottom",
            Character::FreeRangerBottom => "FreeRangerBottom",
            Character::RubbleRouserBottom => "RubbleRouserBottom",
            Character::DoomStoneBottom => "DoomStoneBottom",
            Character::BlastZoneBottom => "BlastZoneBottom",
            Character::FireKrakenBottom => "FireKrakenBottom",
            Character::StinkBombBottom => "StinkBombBottom",
            Character::GrillaDrillaBottom => "GrillaDrillaBottom",
            Character::FortuneBottom => "FortuneBottom",
            Character::TrapShadowBottom => "TrapShadowBottom",
            Character::MagnaChargeBottom => "MagnaChargeBottom",
            Character::SpyRiseBottom => "SpyRiseBottom",
            Character::NightShiftBottom => "NightShiftBottom",
            Character::RattleShakeBottom => "RattleShakeBottom",
            Character::FreezeBladeBottom => "FreezeBladeBottom",
            Character::WashBucklerBottom => "WashBucklerBottom",
            Character::BoomJetTop => "BoomJetTop",
            Character::FreeRangerTop => "FreeRangerTop",
            Character::RubbleRouserTop => "RubbleRouserTop",
            Character::DoomStoneTop => "DoomStoneTop",
            Character::BlastZoneTop => "BlastZoneTop",
            Character::FireKrakenTop => "FireKrakenTop",
            Character::StinkBombTop => "StinkBombTop",
            Character::GrillaDrillaTop => "GrillaDrillaTop",
            Character::FortuneTop => "FortuneTop",
            Character::TrapShadowTop => "TrapShadowTop",
            Character::MagnaChargeTop => "MagnaChargeTop",
            Character::SpyRiseTop => "SpyRiseTop",
            Character::NightShiftTop => "NightShiftTop",
            Character::RattleShakeTop => "RattleShakeTop",
            Character::FreezeBladeTop => "FreezeBladeTop",
            Character::WashBucklerTop => "WashBucklerTop",
            Character::TemplateBottom => "TemplateBottom",
            Character::TemplateTop => "TemplateTop",
            Character::Scratch => "Scratch",
            Character::PopThorn => "PopThorn",
            Character::SlobberTooth => "SlobberTooth",
            Character::Scorp => "Scorp",
            Character::Fryno => "Fryno",
            Character::Smolderdash => "Smolderdash",
            Character::BumbleBlast => "BumbleBlast",
            Character::ZooLou => "ZooLou",
            Character::DuneBug => "DuneBug",
            Character::StarStrike => "StarStrike",
            Character::Countdown => "Countdown",
            Character::WindUp => "WindUp",
            Character::RollerBrawl => "RollerBrawl",
            Character::GrimCreeper => "GrimCreeper",
            Character::RipTide => "RipTide",
            Character::PunkShock => "PunkShock",
            Character::Gusto => "Gusto",
            Character::Thunderbolt => "Thunderbolt",
            Character::FlingKong => "FlingKong",
            Character::Blades => "Blades",
            Character::Wallop => "Wallop",
            Character::HeadRush => "HeadRush",
            Character::FistBump => "FistBump",
            Character::RockyRoll => "RockyRoll",
            Character::WildFire => "WildFire",
            Character::KaBoom => "KaBoom",
            Character::TrailBlazer => "TrailBlazer",
            Character::Torch => "Torch",
            Character::SnapShot => "SnapShot",
            Character::LobStar => "LobStar",
            Character::FlipWreck => "FlipWreck",
            Character::Echo => "Echo",
            Character::Blastermind => "Blastermind",
            Character::Enigma => "Enigma",
            Character::DejaVu => "DejaVu",
            Character::CobraCadabra => "CobraCadabra",
            Character::Jawbreaker => "Jawbreaker",
            Character::Gearshift => "Gearshift",
            Character::Chopper => "Chopper",
            Character::TreadHead => "TreadHead",
            Character::Bushwhack => "Bushwhack",
            Character::TuffLuck => "TuffLuck",
            Character::FoodFight => "FoodFight",
            Character::HighFive => "HighFive",
            Character::KryptKing => "KryptKing",
            Character::ShortCut => "ShortCut",
            Character::BatSpin => "BatSpin",
            Character::FunnyBone => "FunnyBone",
            Character::KnightLight => "KnightLight",
            Character::SpotLight => "SpotLight",
            Character::KnightMare => "KnightMare",
            Character::Blackout => "Blackout",
            Character::Template => "Template",
            Character::Fiesta => "Fiesta",
            Character::HighVolt => "HighVolt",
            Character::Splat => "Splat",
            Character::Stormblade => "Stormblade",
            Character::SmashHit => "SmashHit",
            Character::Spitfire => "Spitfire",
            Character::DriverJetVac => "DriverJetVac",
            Character::DriverTriggerHappy => "DriverTriggerHappy",
            Character::DriverStealthElf => "DriverStealthElf",
            Character::DriverTerrafin => "DriverTerrafin",
            Character::DriverRollerBrawl => "DriverRollerBrawl",
            Character::DriverPopFizz => "DriverPopFizz",
            Character::DriverEruptor => "DriverEruptor",
            Character::DriverGillGrunt => "DriverGillGrunt",
            Character::DonkeyKong => "DonkeyKong",
            Character::Bowser => "Bowser",
            Character::DiveClops => "DiveClops",
            Character::Astroblast => "Astroblast",
            Character::Nightfall => "Nightfall",
            Character::Thrillipede => "Thrillipede",
            Character::Fusion => "Fusion",
            Character::Synergy => "Synergy",
            Character::Unity => "Unity",
            Character::BlueFalcon => "BlueFalcon",
            Character::KingPen => "KingPen",
            Character::TriTip => "TriTip",
            Character::ChopScotch => "ChopScotch",
            Character::BoomBloom => "BoomBloom",
            Character::Pitboss => "Pitboss",
            Character::Barbella => "Barbella",
            Character::AirStrike => "AirStrike",
            Character::Ember => "Ember",
            Character::Ambush => "Ambush",
            Character::DrKrankcase => "DrKrankcase",
            Character::Hoodsickle => "Hoodsickle",
            Character::TaeKwonCrow => "TaeKwonCrow",
            Character::GoldenQueen => "GoldenQueen",
            Character::Wolfgang => "Wolfgang",
            Character::PainYatta => "PainYatta",
            Character::StarCast => "StarCast",
            Character::Buckshot => "Buckshot",
            Character::Aurora => "Aurora",
            Character::FlareWolf => "FlareWolf",
            Character::ChompyMage => "ChompyMage",
            Character::BadJuju => "BadJuju",
            Character::GraveClobber => "GraveClobber",
            Character::BlasterTron => "BlasterTron",
            Character::RoBow => "RoBow",
            Character::ChainReaction => "ChainReaction",
            Character::Kaos => "Kaos",
            Character::Wildstorm => "Wildstorm",
            Character::Tidepool => "Tidepool",
            Character::CrashBandicoot => "CrashBandicoot",
            Character::DrNeoCortex => "DrNeoCortex",
            Character::ImaginatorTemplate => "ImaginatorTemplate",
        }
    }

    /// The name of this value, as it is written here.
    pub fn name(self) -> (r: &'static str)
        ensures
            r@ == self.spec_name()@,
    {
        match self {
            Character::Whirlwind => "Whirlwind",
            Character::SonicBoom => "SonicBoom",
            Character::Warnado => "Warnado",
            Character::LightningRod => "LightningRod",
            Character::Bash => "Bash",
            Character::Terrafin => "Terrafin",
            Character::DinoRang => "DinoRang",
            Character::PrismBreak => "PrismBreak",
            Character::Sunburn => "Sunburn",
            Character::Eruptor => "Eruptor",
            Character::Ignitor => "Ignitor",
            Character::Flameslinger => "Flameslinger",
            Character::Zap => "Zap",
            Character::WhamShell => "WhamShell",
            Character::GillGrunt => "GillGrunt",
            Character::SlamBam => "SlamBam",
            Character::Spyro => "Spyro",
            Character::Voodood => "Voodood",
            Character::DoubleTrouble => "DoubleTrouble",
            Character::TriggerHappy => "TriggerHappy",
            Character::Drobot => "Drobot",
            Character::DrillSergeant => "DrillSergeant",
            Character::Boomer => "Boomer",
            Character::WreckingBall => "WreckingBall",
            Character::Camo => "Camo",
            Character::Zook => "Zook",
            Character::StealthElf => "StealthElf",
            Character::StumpSmash => "StumpSmash",
            Character::DarkSpyro => "DarkSpyro",
            Character::Hex => "Hex",
            Character::ChopChop => "ChopChop",
            Character::GhostRoaster => "GhostRoaster",
            Character::Cynder => "Cynder",
            Character::DebugMinion => "DebugMinion",
            Character::LegendaryBash => "LegendaryBash",
            Character::LegendarySpyro => "LegendarySpyro",
            Character::LegendaryTriggerHappy => "LegendaryTriggerHappy",
            Character::LegendaryChopChop => "LegendaryChopChop",
            Character::JetVac => "JetVac",
            Character::Swarm => "Swarm",
            Character::Crusher => "Crusher",
            Character::Flashwing => "Flashwing",
            Character::HotHead => "HotHead",
            Character::HotDog => "HotDog",
            Character::Chill => "Chill",
            Character::Thumpback => "Thumpback",
            Character::PopFizz => "PopFizz",
            Character::Ninjinni => "Ninjinni",
            Character::Bouncer => "Bouncer",
            Character::Sprocket => "Sprocket",
            Character::TreeRex => "TreeRex",
            Character::Shroomboom => "Shroomboom",
            Character::EyeBrawl => "EyeBrawl",
            Character::FrightRider => "FrightRider",
            Character::Bop => "Bop",
            Character::Spry => "Spry",
            Character::Hijinx => "Hijinx",
            Character::Terrabite => "Terrabite",
            Character::Breeze => "Breeze",
            Character::Weerupter => "Weerupter",
            Character::PetVac => "PetVac",
            Character::SmallFry => "SmallFry",
            Character::Drobit => "Drobit",
            Character::GillRunt => "GillRunt",
            Character::TriggerSnappy => "TriggerSnappy",
            Character::WhisperElf => "WhisperElf",
            Character::Barkley => "Barkley",
            Character::Thumpling => "Thumpling",
            Character::MiniJini => "MiniJini",
            Character::EyeSmall => "EyeSmall",
            Character::BoomJetBottom => "BoomJetBottom",
            Character::FreeRangerBottom => "FreeRangerBottom",
            Character::RubbleRouserBottom => "RubbleRouserBottom",
            Character::DoomStoneBottom => "DoomStoneBottom",
            Character::BlastZoneBottom => "BlastZoneBottom",
            Character::FireKrakenBottom => "FireKrakenBottom",
            Character::StinkBombBottom => "StinkBombBottom",
            Character::GrillaDrillaBottom => "GrillaDrillaBottom",
            Character::FortuneBottom => "FortuneBottom",
            Character::TrapShadowBottom => "TrapShadowBottom",
            Character::MagnaChargeBottom => "MagnaChargeBottom",
            Character::SpyRiseBottom => "SpyRiseBottom",
            Character::NightShiftBottom => "NightShiftBottom",
            Character::RattleShakeBottom => "RattleShakeBottom",
            Character::FreezeBladeBottom => "FreezeBladeBottom",
            Character::WashBucklerBottom => "WashBucklerBottom",
            Character::BoomJetTop => "BoomJetTop",
            Character::FreeRangerTop => "FreeRangerTop",
            Character::RubbleRouserTop => "RubbleRouserTop",
            Character::DoomStoneTop => "DoomStoneTop",
            Character::BlastZoneTop => "BlastZoneTop",
            Character::FireKrakenTop => "FireKrakenTop",
            Character::StinkBombTop => "StinkBombTop",
            Character::GrillaDrillaTop => "GrillaDrillaTop",
            Character::FortuneTop => "FortuneTop",
            Character::TrapShadowTop => "TrapShadowTop",
            Character::MagnaChargeTop => "MagnaChargeTop",
            Character::SpyRiseTop => "SpyRiseTop",
            Character::NightShiftTop => "NightShiftTop",
            Character::RattleShakeTop => "RattleShakeTop",
            Character::FreezeBladeTop => "FreezeBladeTop",
            Character::WashBucklerTop => "WashBucklerTop",
            Character::TemplateBottom => "TemplateBottom",
            Character::TemplateTop => "TemplateTop",
            Character::Scratch => "Scratch",
            Character::PopThorn => "PopThorn",
            Character::SlobberTooth => "SlobberTooth",
            Character::Scorp => "Scorp",
            Character::Fryno => "Fryno",
            Character::Smolderdash => "Smolderdash",
            Character::BumbleBlast => "BumbleBlast",
            Character::ZooLou => "ZooLou",
            Character::DuneBug => "DuneBug",
            Character::StarStrike => "StarStrike",
            Character::Countdown => "Countdown",
            Character::WindUp => "WindUp",
            Character::RollerBrawl => "RollerBrawl",
            Character::GrimCreeper => "GrimCreeper",
            Character::RipTide => "RipTide",
            Character::PunkShock => "PunkShock",
            Character::Gusto => "Gusto",
            Character::Thunderbolt => "Thunderbolt",
            Character::FlingKong => "FlingKong",
            Character::Blades => "Blades",
            Character::Wallop => "Wallop",
            Character::HeadRush => "HeadRush",
            Character::FistBump => "FistBump",
            Character::RockyRoll => "RockyRoll",
            Character::WildFire => "WildFire",
            Character::KaBoom => "KaBoom",
            Character::TrailBlazer => "TrailBlazer",
            Character::Torch => "Torch",
            Character::SnapShot => "SnapShot",
            Character::LobStar => "LobStar",
            Character::FlipWreck => "FlipWreck",
            Character::Echo => "Echo",
            Character::Blastermind => "Blastermind",
            Character::Enigma => "Enigma",
            Character::DejaVu => "DejaVu",
            Character::CobraCadabra => "CobraCadabra",
            Character::Jawbreaker => "Jawbreaker",
            Character::Gearshift => "Gearshift",
            Character::Chopper => "Chopper",
            Character::TreadHead => "TreadHead",
            Character::Bushwhack => "Bushwhack",
            Character::TuffLuck => "TuffLuck",
            Character::FoodFight => "FoodFight",
            Character::HighFive => "HighFive",
            Character::KryptKing => "KryptKing",
            Character::ShortCut => "ShortCut",
            Character::BatSpin => "BatSpin",
            Character::FunnyBone => "FunnyBone",
            Character::KnightLight => "KnightLight",
            Character::SpotLight => "SpotLight",
            Character::KnightMare => "KnightMare",
            Character::Blackout => "Blackout",
            Character::Template => "Template",
            Character::Fiesta => "Fiesta",
            Character::HighVolt => "HighVolt",
            Character::Splat => "Splat",
            Character::Stormblade => "Stormblade",
            Character::SmashHit => "SmashHit",
            Character::Spitfire => "Spitfire",
            Character::DriverJetVac => "DriverJetVac",
            Character::DriverTriggerHappy => "DriverTriggerHappy",
            Character::DriverStealthElf => "DriverStealthElf",
            Character::DriverTerrafin => "DriverTerrafin",
            Character::DriverRollerBrawl => "DriverRollerBrawl",
            Character::DriverPopFizz => "DriverPopFizz",
            Character::DriverEruptor => "DriverEruptor",
            Character::DriverGillGrunt => "DriverGillGrunt",
            Character::DonkeyKong => "DonkeyKong",
            Character::Bowser => "Bowser",
            Character::DiveClops => "DiveClops",
            Character::Astroblast => "Astroblast",
            Character::Nightfall => "Nightfall",
            Character::Thrillipede => "Thrillipede",
            Character::Fusion => "Fusion",
            Character::Synergy => "Synergy",
            Character::Unity => "Unity",
            Character::BlueFalcon => "BlueFalcon",
            Character::KingPen => "KingPen",
            Character::TriTip => "TriTip",
            Character::ChopScotch => "ChopScotch",
            Character::BoomBloom => "BoomBloom",
            Character::Pitboss => "Pitboss",
            Character::Barbella => "Barbella",
            Character::AirStrike => "AirStrike",
            Character::Ember => "Ember",
            Character::Ambush => "Ambush",
            Character::DrKrankcase => "DrKrankcase",
            Character::Hoodsickle => "Hoodsickle",
            Character::TaeKwonCrow => "TaeKwonCrow",
            Character::GoldenQueen => "GoldenQueen",
            Character::Wolfgang => "Wolfgang",
            Character::PainYatta => "PainYatta",
            Character::StarCast => "StarCast",
            Character::Buckshot => "Buckshot",
            Character::Aurora => "Aurora",
            Character::FlareWolf => "FlareWolf",
            Character::ChompyMage => "ChompyMage",
            Character::BadJuju => "BadJuju",
            Character::GraveClobber => "GraveClobber",
            Character::BlasterTron => "BlasterTron",
            Character::RoBow => "RoBow",
            Character::ChainReaction => "ChainReaction",
            Character::Kaos => "Kaos",
            Character::Wildstorm => "Wildstorm",
            Character::Tidepool => "Tidepool",
            Character::CrashBandicoot => "CrashBandicoot",
            Character::DrNeoCortex => "DrNeoCortex",
            Character::ImaginatorTemplate => "ImaginatorTemplate",
        }
    }

    /// Whether the catalogue names one of the characters by `id`.
    pub open spec fn known(id: u16) -> bool {
        exists|c: Character| c.spec_id() == id
    }

    /// The value that `id` stands for, where the catalogue names one.
    pub open spec fn lookup(id: u16) -> Option<Character> {
        if Character::known(id) {
            Some(choose|c: Character| c.spec_id() == id)
        } else {
            None
        }
    }

    /// The place of this value in the catalogue, counted from zero.
    pub open spec fn ordinal(self) -> int {
        match self {
            Character::Whirlwind => 0,
            Character::SonicBoom => 1,
            Character::Warnado => 2,
            Character::LightningRod => 3,
            Character::Bash => 4,
            Character::Terrafin => 5,
            Character::DinoRang => 6,
            Character::PrismBreak => 7,
            Character::Sunburn => 8,
            Character::Eruptor => 9,
            Character::Ignitor => 10,
            Character::Flameslinger => 11,
            Character::Zap => 12,
            Character::WhamShell => 13,
            Character::GillGrunt => 14,
            Character::SlamBam => 15,
            Character::Spyro => 16,
            Character::Voodood => 17,
            Character::DoubleTrouble => 18,
            Character::TriggerHappy => 19,
            Character::Drobot => 20,
            Character::DrillSergeant => 21,
            Character::Boomer => 22,
            Character::WreckingBall => 23,
            Character::Camo => 24,
            Character::Zook => 25,
            Character::StealthElf => 26,
            Character::StumpSmash => 27,
            Character::DarkSpyro => 28,
            Character::Hex => 29,
            Character::ChopChop => 30,
            Character::GhostRoaster => 31,
            Character::Cynder => 32,
            Character::DebugMinion => 33,
            Character::LegendaryBash => 34,
            Character::LegendarySpyro => 35,
            Character::LegendaryTriggerHappy => 36,
            Character::LegendaryChopChop => 37,
            Character::JetVac => 38,
            Character::Swarm => 39,
            Character::Crusher => 40,
            Character::Flashwing => 41,
            Character::HotHead => 42,
            Character::HotDog => 43,
            Character::Chill => 44,
            Character::Thumpback => 45,
            Character::PopFizz => 46,
            Character::Ninjinni => 47,
            Character::Bouncer => 48,
            Character::Sprocket => 49,
            Character::TreeRex => 50,
            Character::Shroomboom => 51,
            Character::EyeBrawl => 52,
            Character::FrightRider => 53,
            Character::Bop => 54,
            Character::Spry => 55,
            Character::Hijinx => 56,
            Character::Terrabite => 57,
            Character::Breeze => 58,
            Character::Weerupter => 59,
            Character::PetVac => 60,
            Character::SmallFry => 61,
            Character::Drobit => 62,
            Character::GillRunt => 63,
            Character::TriggerSnappy => 64,
            Character::WhisperElf => 65,
            Character::Barkley => 66,
            Character::Thumpling => 67,
            Character::MiniJini => 68,
            Character::EyeSmall => 69,
            Character::BoomJetBottom => 70,
            Character::FreeRangerBottom => 71,
            Character::RubbleRouserBottom => 72,
            Character::DoomStoneBottom => 73,
            Character::BlastZoneBottom => 74,
            Character::FireKrakenBottom => 75,
            Character::StinkBombBottom => 76,
            Character::GrillaDrillaBottom => 77,
            Character::FortuneBottom => 78,
            Character::TrapShadowBottom => 79,
            Character::MagnaChargeBottom => 80,
            Character::SpyRiseBottom => 81,
            Character::NightShiftBottom => 82,
            Character::RattleShakeBottom => 83,
            Character::FreezeBladeBottom => 84,
            Character::WashBucklerBottom => 85,
            Character::BoomJetTop => 86,
            Character::FreeRangerTop => 87,
            Character::RubbleRouserTop => 88,
            Character::DoomStoneTop => 89,
            Character::BlastZoneTop => 90,
            Character::FireKrakenTop => 91,
            Character::StinkBombTop => 92,
            Character::GrillaDrillaTop => 93,
            Character::FortuneTop => 94,
            Character::TrapShadowTop => 95,
            Character::MagnaChargeTop => 96,
            Character::SpyRiseTop => 97,
            Character::NightShiftTop => 98,
            Character::RattleShakeTop => 99,
            Character::FreezeBladeTop => 100,
            Character::WashBucklerTop => 101,
            Character::TemplateBottom => 102,
            Character::TemplateTop => 103,
            Character::Scratch => 104,
            Character::PopThorn => 105,
            Character::SlobberTooth => 106,
            Character::Scorp => 107,
            Character::Fryno => 108,
            Character::Smolderdash => 109,
            Character::BumbleBlast => 110,
            Character::ZooLou => 111,
            Character::DuneBug => 112,
            Character::StarStrike => 113,
            Character::Countdown => 114,
            Character::WindUp => 115,
            Character::RollerBrawl => 116,
            Character::GrimCreeper => 117,
            Character::RipTide => 118,
            Character::PunkShock => 119,
            Character::Gusto => 120,
            Character::Thunderbolt => 121,
            Character::FlingKong => 122,
            Character::Blades => 123,
            Character::Wallop => 124,
            Character::HeadRush => 125,
            Character::FistBump => 126,
            Character::RockyRoll => 127,
            Character::WildFire => 128,
            Character::KaBoom => 129,
            Character::TrailBlazer => 130,
            Character::Torch => 131,
            Character::SnapShot => 132,
            Character::LobStar => 133,
            Character::FlipWreck => 134,
            Character::Echo => 135,
            Character::Blastermind => 136,
            Character::Enigma => 137,
            Character::DejaVu => 138,
            Character::CobraCadabra => 139,
            Character::Jawbreaker => 140,
            Character::Gearshift => 141,
            Character::Chopper => 142,
            Character::TreadHead => 143,
            Character::Bushwhack => 144,
            Character::TuffLuck => 145,
            Character::FoodFight => 146,
            Character::HighFive => 147,
            Character::KryptKing => 148,
            Character::ShortCut => 149,
            Character::BatSpin => 150,
            Character::FunnyBone => 151,
            Character::KnightLight => 152,
            Character::SpotLight => 153,
            Character::KnightMare => 154,
            Character::Blackout => 155,
            Character::Template => 156,
            Character::Fiesta => 157,
            Character::HighVolt => 158,
            Character::Splat => 159,
            Character::Stormblade => 160,
            Character::SmashHit => 161,
            Character::Spitfire => 162,
            Character::DriverJetVac => 163,
            Character::DriverTriggerHappy => 164,
            Character::DriverStealthElf => 165,
            Character::DriverTerrafin => 166,
            Character::DriverRollerBrawl => 167,
            Character::DriverPopFizz => 168,
            Character::DriverEruptor => 169,
            Character::DriverGillGrunt => 170,
            Character::DonkeyKong => 171,
            Character::Bowser => 172,
            Character::DiveClops => 173,
            Character::Astroblast => 174,
            Character::Nightfall => 175,
            Character::Thrillipede => 176,
            Character::Fusion => 177,
            Character::Synergy => 178,
            Character::Unity => 179,
            Character::BlueFalcon => 180,
            Character::KingPen => 181,
            Character::TriTip => 182,
            Character::ChopScotch => 183,
            Character::BoomBloom => 184,
            Character::Pitboss => 185,
            Character::Barbella => 186,
            Character::AirStrike => 187,
            Character::Ember => 188,
            Character::Ambush => 189,
            Character::DrKrankcase => 190,
            Character::Hoodsickle => 191,
            Character::TaeKwonCrow => 192,
            Character::GoldenQueen => 193,
            Character::Wolfgang => 194,
            Character::PainYatta => 195,
            Character::StarCast => 196,
            Character::Buckshot => 197,
            Character::Aurora => 198,
            Character::FlareWolf => 199,
            Character::ChompyMage => 200,
            Character::BadJuju => 201,
            Character::GraveClobber => 202,
            Character::BlasterTron => 203,
            Character::RoBow => 204,
            Character::ChainReaction => 205,
            Character::Kaos => 206,
            Character::Wildstorm => 207,
            Character::Tidepool => 208,
            Character::CrashBandicoot => 209,
            Character::DrNeoCortex => 210,
            Character::ImaginatorTemplate => 211,
        }
    }

    /// Every value of the catalogue, once each, in catalogue order.
    pub fn all() -> (r: Vec<Character>)
        ensures
            r@.len() == Character::COUNT,
            forall|c: Character| 0 <= c.ordinal() < r@.len() && r@[#[trigger] c.ordinal()] == c,
    {
        let r = vec![
            Character::Whirlwind,
            Character::SonicBoom,
            Character::Warnado,
            Character::LightningRod,
            Character::Bash,
            Character::Terrafin,
            Character::DinoRang,
            Character::PrismBreak,
            Character::Sunburn,
            Character::Eruptor,
            Character::Ignitor,
            Character::Flameslinger,
            Character::Zap,
            Character::WhamShell,
            Character::GillGrunt,
            Character::SlamBam,
            Character::Spyro,
            Character::Voodood,
            Character::DoubleTrouble,
            Character::TriggerHappy,
            Character::Drobot,
            Character::DrillSergeant,
            Character::Boomer,
            Character::WreckingBall,
            Character::Camo,
            Character::Zook,
            Character::StealthElf,
            Character::StumpSmash,
            Character::DarkSpyro,
            Character::Hex,
            Character::ChopChop,
            Character::GhostRoaster,
            Character::Cynder,
            Character::DebugMinion,
            Character::LegendaryBash,
            Character::LegendarySpyro,
            Character::LegendaryTriggerHappy,
            Character::LegendaryChopChop,
            Character::JetVac,
            Character::Swarm,
            Character::Crusher,
            Character::Flashwing,
            Character::HotHead,
            Character::HotDog,
            Character::Chill,
            Character::Thumpback,
            Character::PopFizz,
            Character::Ninjinni,
            Character::Bouncer,
            Character::Sprocket,
            Character::TreeRex,
            Character::Shroomboom,
            Character::EyeBrawl,
            Character::FrightRider,
            Character::Bop,
            Character::Spry,
            Character::Hijinx,
            Character::Terrabite,
            Character::Breeze,
            Character::Weerupter,
            Character::PetVac,
            Character::SmallFry,
            Character::Drobit,
            Character::GillRunt,
            Character::TriggerSnappy,
            Character::WhisperElf,
            Character::Barkley,
            Character::Thumpling,
            Character::MiniJini,
            Character::EyeSmall,
            Character::BoomJetBottom,
            Character::FreeRangerBottom,
            Character::RubbleRouserBottom,
            Character::DoomStoneBottom,
            Character::BlastZoneBottom,
            Character::FireKrakenBottom,
            Character::StinkBombBottom,
            Character::GrillaDrillaBottom,
            Character::FortuneBottom,
            Character::TrapShadowBottom,
            Character::MagnaChargeBottom,
            Character::SpyRiseBottom,
            Character::NightShiftBottom,
            Character::RattleShakeBottom,
            Character::FreezeBladeBottom,
            Character::WashBucklerBottom,
            Character::BoomJetTop,
            Character::FreeRangerTop,
            Character::RubbleRouserTop,
            Character::DoomStoneTop,
            Character::BlastZoneTop,
            Character::FireKrakenTop,
            Character::StinkBombTop,
            Character::GrillaDrillaTop,
            Character::FortuneTop,
            Character::TrapShadowTop,
            Character::MagnaChargeTop,
            Character::SpyRiseTop,
            Character::NightShiftTop,
            Character::RattleShakeTop,
            Character::FreezeBladeTop,
            Character::WashBucklerTop,
            Character::TemplateBottom,
            Character::TemplateTop,
            Character::Scratch,
            Character::PopThorn,
            Character::SlobberTooth,
            Character::Scorp,
            Character::Fryno,
            Character::Smolderdash,
            Character::BumbleBlast,
            Character::ZooLou,
            Character::DuneBug,
            Character::StarStrike,
            Character::Countdown,
            Character::WindUp,
            Character::RollerBrawl,
            Character::GrimCreeper,
            Character::RipTide,
            Character::PunkShock,
            Character::Gusto,
            Character::Thunderbolt,
            Character::FlingKong,
            Character::Blades,
            Character::Wallop,
            Character::HeadRush,
            Character::FistBump,
            Character::RockyRoll,
            Character::WildFire,
            Character::KaBoom,
            Character::TrailBlazer,
            Character::Torch,
            Character::SnapShot,
            Character::LobStar,
            Character::FlipWreck,
            Character::Echo,
            Character::Blastermind,
            Character::Enigma,
            Character::DejaVu,
            Character::CobraCadabra,
            Character::Jawbreaker,
            Character::Gearshift,
            Character::Chopper,
            Character::TreadHead,
            Character::Bushwhack,
            Character::TuffLuck,
            Character::FoodFight,
            Character::HighFive,
            Character::KryptKing,
            Character::ShortCut,
            Character::BatSpin,
            Character::FunnyBone,
            Character::KnightLight,
            Character::SpotLight,
            Character::KnightMare,
            Character::Blackout,
            Character::Template,
            Character::Fiesta,
            Character::HighVolt,
            Character::Splat,
            Character::Stormblade,
            Character::SmashHit,
            Character::Spitfire,
            Character::DriverJetVac,
            Character::DriverTriggerHappy,
            Character::DriverStealthElf,
            Character::DriverTerrafin,
            Character::DriverRollerBrawl,
            Character::DriverPopFizz,
            Character::DriverEruptor,
            Character::DriverGillGrunt,
            Character::DonkeyKong,
            Character::Bowser,
            Character::DiveClops,
            Character::Astroblast,
            Character::Nightfall,
            Character::Thrillipede,
            Character::Fusion,
            Character::Synergy,
            Character::Unity,
            Character::BlueFalcon,
            Character::KingPen,
            Character::TriTip,
            Character::ChopScotch,
            Character::BoomBloom,
            Character::Pitboss,
            Character::Barbella,
            Character::AirStrike,
            Character::Ember,
            Character::Ambush,
            Character::DrKrankcase,
            Character::Hoodsickle,
            Character::TaeKwonCrow,
            Character::GoldenQueen,
            Character::Wolfgang,
            Character::PainYatta,
            Character::StarCast,
            Character::Buckshot,
            Character::Aurora,
            Character::FlareWolf,
            Character::ChompyMage,
            Character::BadJuju,
            Character::GraveClobber,
            Character::BlasterTron,
            Character::RoBow,
            Character::ChainReaction,
            Character::Kaos,
            Character::Wildstorm,
            Character::Tidepool,
            Character::CrashBandicoot,
            Character::DrNeoCortex,
            Character::ImaginatorTemplate,
        ];
        r
    }

    /// The catalogue as an index: each of the characters under its number.
    pub fn make_index() -> (m: HashMap<u16, Character>)
        ensures
            forall|c: Character| #[trigger] m@.contains_key(c.spec_id()) && m@[c.spec_id()] == c,
            forall|id: u16| #[trigger] m@.contains_key(id) ==> Character::known(id),
    {
        broadcast use vstd::std_specs::hash::group_hash_axioms;

        let items = Character::all();
        let mut m: HashMap<u16, Character> = HashMap::new();
        let mut i: usize = 0;
        while i < items.len()
            invariant
                i <= items@.len(),
                forall|j: int|
                    0 <= j < i ==> #[trigger] m@.contains_key(items@[j].spec_id()) && m@[items@[j].spec_id()]
                        == items@[j],
                forall|id: u16| #[trigger] m@.contains_key(id) ==> Character::known(id),
            decreases items@.len() - i,
        {
            let t = items[i];
            let ghost before = m@;
            m.insert(u16::from(t), t);
            proof {
                assert forall|j: int| 0 <= j < i + 1 implies #[trigger] m@.contains_key(
                    items@[j].spec_id(),
                ) && m@[items@[j].spec_id()] == items@[j] by {
                    if items@[j].spec_id() == t.spec_id() {
                        Character::lemma_id_injective(items@[j], t);
                    } else {
                        assert(before.contains_key(items@[j].spec_id()));
                    }
                }
            }
            i += 1;
        }
        proof {
            assert forall|c: Character| #[trigger] m@.contains_key(c.spec_id()) && m@[c.spec_id()] == c by {
                assert(items@[c.ordinal()] == c);
            }
        }
        m
    }

    /// Looks the number `id` up in the index of the catalogue.
    pub fn find(id: u16) -> (r: Option<Character>)
        ensures
            r == Character::lookup(id),
    {
        broadcast use vstd::std_specs::hash::group_hash_axioms;

        let index = Character::make_index();
        match index.get(&id) {
            Some(c) => {
                proof {
                    let found = choose|d: Character| d.spec_id() == id;
                    assert(index@[found.spec_id()] == found);
                }
                Some(*c)
            },
            None => {
                proof {
                    assert forall|c: Character| c.spec_id() != id by {
                        assert(index@.contains_key(c.spec_id()));
                    }
                }
                None
            },
        }
    }

    /// Two values with the same number are the same value.
    pub proof fn lemma_id_injective(a: Character, b: Character)
        requires
            a.spec_id() == b.spec_id(),
        ensures
            a == b,
    {
    }

    /// Looking up the number of a value gives that value back.
    pub proof fn lemma_lookup_of_id(c: Character)
        ensures
            Character::lookup(c.spec_id()) == Some(c),
    {
        let found = choose|d: Character| d.spec_id() == c.spec_id();
        Character::lemma_id_injective(found, c);
    }
}

impl From<Character> for u16 {
    fn from(value: Character) -> (r: u16) {
        match value {
            Character::Whirlwind => 0,
            Character::SonicBoom => 1,
            Character::Warnado => 2,
            Character::LightningRod => 3,
            Character::Bash => 4,
            Character::Terrafin => 5,
            Character::DinoRang => 6,
            Character::PrismBreak => 7,
            Character::Sunburn => 8,
            Character::Eruptor => 9,
            Character::Ignitor => 10,
            Character::Flameslinger => 11,
            Character::Zap => 12,
            Character::WhamShell => 13,
            Character::GillGrunt => 14,
            Character::SlamBam => 15,
            Character::Spyro => 16,
            Character::Voodood => 17,
            Character::DoubleTrouble => 18,
            Character::TriggerHappy => 19,
            Character::Drobot => 20,
            Character::DrillSergeant => 21,
            Character::Boomer => 22,
            Character::WreckingBall => 23,
            Character::Camo => 24,
            Character::Zook => 25,
            Character::StealthElf => 26,
            Character::StumpSmash => 27,
            Character::DarkSpyro => 28,
            Character::Hex => 29,
            Character::ChopChop => 30,
            Character::GhostRoaster => 31,
            Character::Cynder => 32,
            Character::DebugMinion => 99,
            Character::LegendaryBash => 404,
            Character::LegendarySpyro => 416,
            Character::LegendaryTriggerHappy => 419,
            Character::LegendaryChopChop => 430,
            Character::JetVac => 100,
            Character::Swarm => 101,
            Character::Crusher => 102,
            Character::Flashwing => 103,
            Character::HotHead => 104,
            Character::HotDog => 105,
            Character::Chill => 106,
            Character::Thumpback => 107,
            Character::PopFizz => 108,
            Character::Ninjinni => 109,
            Character::Bouncer => 110,
            Character::Sprocket => 111,
            Character::TreeRex => 112,
            Character::Shroomboom => 113,
            Character::EyeBrawl => 114,
            Character::FrightRider => 115,
            Character::Bop => 502,
            Character::Spry => 503,
            Character::Hijinx => 504,
            Character::Terrabite => 505,
            Character::Breeze => 506,
            Character::Weerupter => 507,
            Character::PetVac => 508,
            Character::SmallFry => 509,
            Character::Drobit => 510,
            Character::GillRunt => 514,
            Character::TriggerSnappy => 519,
            Character::WhisperElf => 526,
            Character::Barkley => 540,
            Character::Thumpling => 541,
            Character::MiniJini => 542,
            Character::EyeSmall => 543,
            Character::BoomJetBottom => 1000,
            Character::FreeRangerBottom => 1001,
            Character::RubbleRouserBottom => 1002,
            Character::DoomStoneBottom => 1003,
            Character::BlastZoneBottom => 1004,
            Character::FireKrakenBottom => 1005,
            Character::StinkBombBottom => 1006,
            Character::GrillaDrillaBottom => 1007,
            Character::FortuneBottom => 1008,
            Character::TrapShadowBottom => 1009,
            Character::MagnaChargeBottom => 1010,
            Character::SpyRiseBottom => 1011,
            Character::NightShiftBottom => 1012,
            Character::RattleShakeBottom => 1013,
            Character::FreezeBladeBottom => 1014,
            Character::WashBucklerBottom => 1015,
            Character::BoomJetTop => 2000,
            Character::FreeRangerTop => 2001,
            Character::RubbleRouserTop => 2002,
            Character::DoomStoneTop => 2003,
            Character::BlastZoneTop => 2004,
            Character::FireKrakenTop => 2005,
            Character::StinkBombTop => 2006,
            Character::GrillaDrillaTop => 2007,
            Character::FortuneTop => 2008,
            Character::TrapShadowTop => 2009,
            Character::MagnaChargeTop => 2010,
            Character::SpyRiseTop => 2011,
            Character::NightShiftTop => 2012,
            Character::RattleShakeTop => 2013,
            Character::FreezeBladeTop => 2014,
            Character::WashBucklerTop => 2015,
            Character::TemplateBottom => 1999,
            Character::TemplateTop => 2999,
            Character::Scratch => 3000,
            Character::PopThorn => 3001,
            Character::SlobberTooth => 3002,
            Character::Scorp => 3003,
            Character::Fryno => 3004,
            Character::Smolderdash => 3005,
            Character::BumbleBlast => 3006,
            Character::ZooLou => 3007,
            Character::DuneBug => 3008,
            Character::StarStrike => 3009,
            Character::Countdown => 3010,
            Character::WindUp => 3011,
            Character::RollerBrawl => 3012,
            Character::GrimCreeper => 3013,
            Character::RipTide => 3014,
            Character::PunkShock => 3015,
            Character::Gusto => 450,
            Character::Thunderbolt => 451,
            Character::FlingKong => 452,
            Character::Blades => 453,
            Character::Wallop => 454,
            Character::HeadRush => 455,
            Character::FistBump => 456,
            Character::RockyRoll => 457,
            Character::WildFire => 458,
            Character::KaBoom => 459,
            Character::TrailBlazer => 460,
            Character::Torch => 461,
            Character::SnapShot => 462,
            Character::LobStar => 463,
            Character::FlipWreck => 464,
            Character::Echo => 465,
            Character::Blastermind => 466,
            Character::Enigma => 467,
            Character::DejaVu => 468,
            Character::CobraCadabra => 469,
            Character::Jawbreaker => 470,
            Character::Gearshift => 471,
            Character::Chopper => 472,
            Character::TreadHead => 473,
            Character::Bushwhack => 474,
            Character::TuffLuck => 475,
            Character::FoodFight => 476,
            Character::HighFive => 477,
            Character::KryptKing => 478,
            Character::ShortCut => 479,
            Character::BatSpin => 480,
            Character::FunnyBone => 481,
            Character::KnightLight => 482,
            Character::SpotLight => 483,
            Character::KnightMare => 484,
            Character::Blackout => 485,
            Character::Template => 3999,
            Character::Fiesta => 3400,
            Character::HighVolt => 3401,
            Character::Splat => 3402,
            Character::Stormblade => 3406,
            Character::SmashHit => 3411,
            Character::Spitfire => 3412,
            Character::DriverJetVac => 3413,
            Character::DriverTriggerHappy => 3414,
            Character::DriverStealthElf => 3415,
            Character::DriverTerrafin => 3416,
            Character::DriverRollerBrawl => 3417,
            Character::DriverPopFizz => 3420,
            Character::DriverEruptor => 3421,
            Character::DriverGillGrunt => 3422,
            Character::DonkeyKong => 3423,
            Character::Bowser => 3424,
            Character::DiveClops => 3425,
            Character::Astroblast => 3426,
            Character::Nightfall => 3427,
            Character::Thrillipede => 3428,
            Character::Fusion => 4500,
            Character::Synergy => 4501,
            Character::Unity => 4502,
            Character::BlueFalcon => 4503,
            Character::KingPen => 601,
            Character::TriTip => 602,
            Character::ChopScotch => 603,
            Character::BoomBloom => 604,
            Character::Pitboss => 605,
            Character::Barbella => 606,
            Character::AirStrike => 607,
            Character::Ember => 608,
            Character::Ambush => 609,
            Character::DrKrankcase => 610,
            Character::Hoodsickle => 611,
            Character::TaeKwonCrow => 612,
            Character::GoldenQueen => 613,
            Character::Wolfgang => 614,
            Character::PainYatta => 615,
            Character::StarCast => 617,
            Character::Buckshot => 618,
            Character::Aurora => 619,
            Character::FlareWolf => 620,
            Character::ChompyMage => 621,
            Character::BadJuju => 622,
            Character::GraveClobber => 623,
            Character::BlasterTron => 624,
            Character::RoBow => 625,
            Character::ChainReaction => 626,
            Character::Kaos => 627,
            Character::Wildstorm => 628,
            Character::Tidepool => 629,
            Character::CrashBandicoot => 630,
            Character::DrNeoCortex => 631,
            Character::ImaginatorTemplate => 699,
        }
    }
}

impl FromSpecImpl<Character> for u16 {
    open spec fn obeys_from_spec() -> bool {
        true
    }

    open spec fn from_spec(value: Character) -> u16 {
        value.spec_id()
    }
}

impl TryFrom<u16> for Character {
    type Error = &'static str;

    fn try_from(value: u16) -> (r: Result<Self, Self::Error>) {
        match Character::find(value) {
            Some(c) => {
                proof {
                    Character::lemma_lookup_of_id(c);
                }
                Ok(c)
            },
            None => Err("Invalid Character value"),
        }
    }
}

impl TryFromSpecImpl<u16> for Character {
    open spec fn obeys_try_from_spec() -> bool {
        true
    }

    /// The value whose number is `value`, or the error of this catalogue where it names none.
    open spec fn try_from_spec(value: u16) -> Result<Self, Self::Error> {
        match Character::lookup(value) {
            Some(c) => Ok(c),
            None => Err("Invalid Character value"),
        }
    }
}

/// The magic items, by name.
#[derive(Clone, Copy, Debug, PartialEq, Eq, Structural)]
pub enum Item {
    Anvil,
    SecretStash,
    Regeneration,
    CrossedSwords,
    Hourglass,
    Shield,
    SpeedBoots,
    Sparx,
    Cannon,
    Catapult,
    Hammer,
    Diamonds,
    GoldenSheep,
    Gramophone,
    HatPromo,
    HandOfFate,
    PiggyBank,
    RocketRam,
    TikiSpeaky,
    BlueChest,
}

impl Item {
    /// How many items the catalogue names.
    pub const COUNT: usize = 20;

    /// The 16-bit number that stands for this value on a tag.
    pub open spec fn spec_id(self) -> u16 {
        match self {
            Item::Anvil => 200,
            Item::SecretStash => 201,
            Item::Regeneration => 202,
            Item::CrossedSwords => 203,
            Item::Hourglass => 204,
            Item::Shield => 205,
            Item::SpeedBoots => 206,
            Item::Sparx => 207,
            Item::Cannon => 208,
            Item::Catapult => 209,
            Item::Hammer => 3200,
            Item::Diamonds => 3201,
            Item::GoldenSheep => 3202,
            Item::Gramophone => 3203,
            Item::HatPromo => 3204,
            Item::HandOfFate => 230,
            Item::PiggyBank => 231,
            Item::RocketRam => 232,
            Item::TikiSpeaky => 233,
            Item::BlueChest => 235,
        }
    }

    /// The name of this value, as it is written here.
    pub open spec fn spec_name(self) -> &'static str {
        match self {
            Item::Anvil => "Anvil",
            Item::SecretStash => "SecretStash",
            Item::Regeneration => "Regeneration",
            Item::CrossedSwords => "CrossedSwords",
            Item::Hourglass => "Hourglass",
            Item::Shield => "Shield",
            Item::SpeedBoots => "SpeedBoots",
            Item::Sparx => "Sparx",
            Item::Cannon => "Cannon",
            Item::Catapult => "Catapult",
            Item::Hammer => "Hammer",
            Item::Diamonds => "Diamonds",
            Item::GoldenSheep => "GoldenSheep",
            Item::Gramophone => "Gramophone",
            Item::HatPromo => "HatPromo",
            Item::HandOfFate => "HandOfFate",
            Item::PiggyBank => "PiggyBank",
            Item::RocketRam => "RocketRam",
            Item::TikiSpeaky => "TikiSpeaky",
            Item::BlueChest => "BlueChest",
        }
    }

    /// The name of this value, as it is written here.
    pub fn name(self) -> (r: &'static str)
        ensures
            r@ == self.spec_name()@,
    {
        match self {
            Item::Anvil => "Anvil",
            Item::SecretStash => "SecretStash",
            Item::Regeneration => "Regeneration",
            Item::CrossedSwords => "CrossedSwords",
            Item::Hourglass => "Hourglass",
            Item::Shield => "Shield",
            Item::SpeedBoots => "SpeedBoots",
            Item::Sparx => "Sparx",
            Item::Cannon => "Cannon",
            Item::Catapult => "Catapult",
            Item::Hammer => "Hammer",
            Item::Diamonds => "Diamonds",
            Item::GoldenSheep => "GoldenSheep",
            Item::Gramophone => "Gramophone",
            Item::HatPromo => "HatPromo",
            Item::HandOfFate => "HandOfFate",
            Item::PiggyBank => "PiggyBank",
            Item::RocketRam => "RocketRam",
            Item::TikiSpeaky => "TikiSpeaky",
            Item::BlueChest => "BlueChest",
        }
    }

    /// Whether the catalogue names one of the items by `id`.
    pub open spec fn known(id: u16) -> bool {
        exists|c: Item| c.spec_id() == id
    }

    /// The value that `id` stands for, where the catalogue names one.
    pub open spec fn lookup(id: u16) -> Option<Item> {
        if Item::known(id) {
            Some(choose|c: Item| c.spec_id() == id)
        } else {
            None
        }
    }

    /// The place of this value in the catalogue, counted from zero.
    pub open spec fn ordinal(self) -> int {
        match self {
            Item::Anvil => 0,
            Item::SecretStash => 1,
            Item::Regeneration => 2,
            Item::CrossedSwords => 3,
            Item::Hourglass => 4,
            Item::Shield => 5,
            Item::SpeedBoots => 6,
            Item::Sparx => 7,
            Item::Cannon => 8,
            Item::Catapult => 9,
            Item::Hammer => 10,
            Item::Diamonds => 11,
            Item::GoldenSheep => 12,
            Item::Gramophone => 13,
            Item::HatPromo => 14,
            Item::HandOfFate => 15,
            Item::PiggyBank => 16,
            Item::RocketRam => 17,
            Item::TikiSpeaky => 18,
            Item::BlueChest => 19,
        }
    }

    /// Every value of the catalogue, once each, in catalogue order.
    pub fn all() -> (r: Vec<Item>)
        ensures
            r@.len() == Item::COUNT,
            forall|c: Item| 0 <= c.ordinal() < r@.len() && r@[#[trigger] c.ordinal()] == c,
    {
        let r = vec![
            Item::Anvil,
            Item::SecretStash,
            Item::Regeneration,
            Item::CrossedSwords,
            Item::Hourglass,
            Item::Shield,
            Item::SpeedBoots,
            Item::Sparx,
            Item::Cannon,
            Item::Catapult,
            Item::Hammer,
            Item::Diamonds,
            Item::GoldenSheep,
            Item::Gramophone,
            Item::HatPromo,
            Item::HandOfFate,
            Item::PiggyBank,
            Item::RocketRam,
            Item::TikiSpeaky,
            Item::BlueChest,
        ];
        r
    }

    /// The catalogue as an index: each of the items under its number.
    pub fn make_index() -> (m: HashMap<u16, Item>)
        ensures
            forall|c: Item| #[trigger] m@.contains_key(c.spec_id()) && m@[c.spec_id()] == c,
            forall|id: u16| #[trigger] m@.contains_key(id) ==> Item::known(id),
    {
        broadcast use vstd::std_specs::hash::group_hash_axioms;

        let items = Item::all();
        let mut m: HashMap<u16, Item> = HashMap::new();
        let mut i: usize = 0;
        while i < items.len()
            invariant
                i <= items@.len(),
                forall|j: int|
                    0 <= j < i ==> #[trigger] m@.contains_key(items@[j].spec_id()) && m@[items@[j].spec_id()]
                        == items@[j],
                forall|id: u16| #[trigger] m@.contains_key(id) ==> Item::known(id),
            decreases items@.len() - i,
        {
            let t = items[i];
            let ghost before = m@;
            m.insert(u16::from(t), t);
            proof {
                assert forall|j: int| 0 <= j < i + 1 implies #[trigger] m@.contains_key(
                    items@[j].spec_id(),
                ) && m@[items@[j].spec_id()] == items@[j] by {
                    if items@[j].spec_id() == t.spec_id() {
                        Item::lemma_id_injective(items@[j], t);
                    } else {
                        assert(before.contains_key(items@[j].spec_id()));
                    }
                }
            }
            i += 1;
        }
        proof {
            assert forall|c: Item| #[trigger] m@.contains_key(c.spec_id()) && m@[c.spec_id()] == c by {
                assert(items@[c.ordinal()] == c);
            }
        }
        m
    }

    /// Looks the number `id` up in the index of the catalogue.
    pub fn find(id: u16) -> (r: Option<Item>)
        ensures
            r == Item::lookup(id),
    {
        broadcast use vstd::std_specs::hash::group_hash_axioms;

        let index = Item::make_index();
        match index.get(&id) {
            Some(c) => {
                proof {
                    let found = choose|d: Item| d.spec_id() == id;
                    assert(index@[found.spec_id()] == found);
                }
                Some(*c)
            },
            None => {
                proof {
                    assert forall|c: Item| c.spec_id() != id by {
                        assert(index@.contains_key(c.spec_id()));
                    }
                }
                None
            },
        }
    }

    /// Two values with the same number are the same value.
    pub proof fn lemma_id_injective(a: Item, b: Item)
        requires
            a.spec_id() == b.spec_id(),
        ensures
            a == b,
    {
    }

    /// Looking up the number of a value gives that value back.
    pub proof fn lemma_lookup_of_id(c: Item)
        ensures
            Item::lookup(c.spec_id()) == Some(c),
    {
        let found = choose|d: Item| d.spec_id() == c.spec_id();
        Item::lemma_id_injective(found, c);
    }
}

impl From<Item> for u16 {
    fn from(value: Item) -> (r: u16) {
        match value {
            Item::Anvil => 200,
            Item::SecretStash => 201,
            Item::Regeneration => 202,
            Item::CrossedSwords => 203,
            Item::Hourglass => 204,
            Item::Shield => 205,
            Item::SpeedBoots => 206,
            Item::Sparx => 207,
            Item::Cannon => 208,
            Item::Catapult => 209,
            Item::Hammer => 3200,
            Item::Diamonds => 3201,
            Item::GoldenSheep => 3202,
            Item::Gramophone => 3203,
            Item::HatPromo => 3204,
            Item::HandOfFate => 230,
            Item::PiggyBank => 231,
            Item::RocketRam => 232,
            Item::TikiSpeaky => 233,
            Item::BlueChest => 235,
        }
    }
}

impl FromSpecImpl<Item> for u16 {
    open spec fn obeys_from_spec() -> bool {
        true
    }

    open spec fn from_spec(value: Item) -> u16 {
        value.spec_id()
    }
}

impl TryFrom<u16> for Item {
    type Error = &'static str;

    fn try_from(value: u16) -> (r: Result<Self, Self::Error>) {
        match Item::find(value) {
            Some(c) => {
                proof {
                    Item::lemma_lookup_of_id(c);
                }
                Ok(c)
            },
            None => Err("Invalid Item value"),
        }
    }
}

impl TryFromSpecImpl<u16> for Item {
    open spec fn obeys_try_from_spec() -> bool {
        true
    }

    /// The value whose number is `value`, or the error of this catalogue where it names none.
    open spec fn try_from_spec(value: u16) -> Result<Self, Self::Error> {
        match Item::lookup(value) {
            Some(c) => Ok(c),
            None => Err("Invalid Item value"),
        }
    }
}

/// The creation crystals, by element.
#[derive(Clone, Copy, Debug, PartialEq, Eq, Structural)]
pub enum ImaginatorCrystal {
    Magic,
    Water,
    Air,
    Undead,
    Tech,
    Fire,
    Earth,
    Life,
    Dark,
    Light,
}

impl ImaginatorCrystal {
    /// How many crystals the catalogue names.
    pub const COUNT: usize = 10;

    /// The 16-bit number that stands for this value on a tag.
    pub open spec fn spec_id(self) -> u16 {
        match self {
            ImaginatorCrystal::Magic => 680,
            ImaginatorCrystal::Water => 681,
            ImaginatorCrystal::Air => 682,
            ImaginatorCrystal::Undead => 683,
            ImaginatorCrystal::Tech => 684,
            ImaginatorCrystal::Fire => 685,
            ImaginatorCrystal::Earth => 686,
            ImaginatorCrystal::Life => 687,
            ImaginatorCrystal::Dark => 688,
            ImaginatorCrystal::Light => 689,
        }
    }

    /// The name of this value, as it is written here.
    pub open spec fn spec_name(self) -> &'static str {
        match self {
            ImaginatorCrystal::Magic => "Magic",
            ImaginatorCrystal::Water => "Water",
            ImaginatorCrystal::Air => "Air",
            ImaginatorCrystal::Undead => "Undead",
            ImaginatorCrystal::Tech => "Tech",
            ImaginatorCrystal::Fire => "Fire",
            ImaginatorCrystal::Earth => "Earth",
            ImaginatorCrystal::Life => "Life",
            ImaginatorCrystal::Dark => "Dark",
            ImaginatorCrystal::Light => "Light",
        }
    }

    /// The name of this value, as it is written here.
    pub fn name(self) -> (r: &'static str)
        ensures
            r@ == self.spec_name()@,
    {
        match self {
            ImaginatorCrystal::Magic => "Magic",
            ImaginatorCrystal::Water => "Water",
            ImaginatorCrystal::Air => "Air",
            ImaginatorCrystal::Undead => "Undead",
            ImaginatorCrystal::Tech => "Tech",
            ImaginatorCrystal::Fire => "Fire",
            ImaginatorCrystal::Earth => "Earth",
            ImaginatorCrystal::Life => "Life",
            ImaginatorCrystal::Dark => "Dark",
            ImaginatorCrystal::Light => "Light",
        }
    }

    /// Whether the catalogue names one of the crystals by `id`.
    pub open spec fn known(id: u16) -> bool {
        exists|c: ImaginatorCrystal| c.spec_id() == id
    }

    /// The value that `id` stands for, where the catalogue names one.
    pub open spec fn lookup(id: u16) -> Option<ImaginatorCrystal> {
        if ImaginatorCrystal::known(id) {
            Some(choose|c: ImaginatorCrystal| c.spec_id() == id)
        } else {
            None
        }
    }

    /// The place of this value in the catalogue, counted from zero.
    pub open spec fn ordinal(self) -> int {
        match self {
            ImaginatorCrystal::Magic => 0,
            ImaginatorCrystal::Water => 1,
            ImaginatorCrystal::Air => 2,
            ImaginatorCrystal::Undead => 3,
            ImaginatorCrystal::Tech => 4,
            ImaginatorCrystal::Fire => 5,
            ImaginatorCrystal::Earth => 6,
            ImaginatorCrystal::Life => 7,
            ImaginatorCrystal::Dark => 8,
            ImaginatorCrystal::Light => 9,
        }
    }

    /// Every value of the catalogue, once each, in catalogue order.
    pub fn all() -> (r: Vec<ImaginatorCrystal>)
        ensures
            r@.len() == ImaginatorCrystal::COUNT,
            forall|c: ImaginatorCrystal| 0 <= c.ordinal() < r@.len() && r@[#[trigger] c.ordinal()] == c,
    {
        let r = vec![
            ImaginatorCrystal::Magic,
            ImaginatorCrystal::Water,
            ImaginatorCrystal::Air,
            ImaginatorCrystal::Undead,
            ImaginatorCrystal::Tech,
            ImaginatorCrystal::Fire,
            ImaginatorCrystal::Earth,
            ImaginatorCrystal::Life,
            ImaginatorCrystal::Dark,
            ImaginatorCrystal::Light,
        ];
        r
    }

    /// The catalogue as an index: each of the crystals under its number.
    pub fn make_index() -> (m: HashMap<u16, ImaginatorCrystal>)
        ensures
            forall|c: ImaginatorCrystal| #[trigger] m@.contains_key(c.spec_id()) && m@[c.spec_id()] == c,
            forall|id: u16| #[trigger] m@.contains_key(id) ==> ImaginatorCrystal::known(id),
    {
        broadcast use vstd::std_specs::hash::group_hash_axioms;

        let items = ImaginatorCrystal::all();
        let mut m: HashMap<u16, ImaginatorCrystal> = HashMap::new();
        let mut i: usize = 0;
        while i < items.len()
            invariant
                i <= items@.len(),
                forall|j: int|
                    0 <= j < i ==> #[trigger] m@.contains_key(items@[j].spec_id()) && m@[items@[j].spec_id()]
                        == items@[j],
                forall|id: u16| #[trigger] m@.contains_key(id) ==> ImaginatorCrystal::known(id),
            decreases items@.len() - i,
        {
            let t = items[i];
            let ghost before = m@;
            m.insert(u16::from(t), t);
            proof {
                assert forall|j: int| 0 <= j < i + 1 implies #[trigger] m@.contains_key(
                    items@[j].spec_id(),
                ) && m@[items@[j].spec_id()] == items@[j] by {
                    if items@[j].spec_id() == t.spec_id() {
                        ImaginatorCrystal::lemma_id_injective(items@[j], t);
                    } else {
                        assert(before.contains_key(items@[j].spec_id()));
                    }
                }
            }
            i += 1;
        }
        proof {
            assert forall|c: ImaginatorCrystal| #[trigger] m@.contains_key(c.spec_id()) && m@[c.spec_id()] == c by {
                assert(items@[c.ordinal()] == c);
            }
        }
        m
    }

    /// Looks the number `id` up in the index of the catalogue.
    pub fn find(id: u16) -> (r: Option<ImaginatorCrystal>)
        ensures
            r == ImaginatorCrystal::lookup(id),
    {
        broadcast use vstd::std_specs::hash::group_hash_axioms;

        let index = ImaginatorCrystal::make_index();
        match index.get(&id) {
            Some(c) => {
                proof {
                    let found = choose|d: ImaginatorCrystal| d.spec_id() == id;
                    assert(index@[found.spec_id()] == found);
                }
                Some(*c)
            },
            None => {
                proof {
                    assert forall|c: ImaginatorCrystal| c.spec_id() != id by {
                        assert(index@.contains_key(c.spec_id()));
                    }
                }
                None
            },
        }
    }

    /// Two values with the same number are the same value.
    pub proof fn lemma_id_injective(a: ImaginatorCrystal, b: ImaginatorCrystal)
        requires
            a.spec_id() == b.spec_id(),
        ensures
            a == b,
    {
    }

    /// Looking up the number of a value gives that value back.
    pub proof fn lemma_lookup_of_id(c: ImaginatorCrystal)
        ensures
            ImaginatorCrystal::lookup(c.spec_id()) == Some(c),
    {
        let found = choose|d: ImaginatorCrystal| d.spec_id() == c.spec_id();
        ImaginatorCrystal::lemma_id_injective(found, c);
    }
}

impl From<ImaginatorCrystal> for u16 {
    fn from(value: ImaginatorCrystal) -> (r: u16) {
        match value {
            ImaginatorCrystal::Magic => 680,
            ImaginatorCrystal::Water => 681,
            ImaginatorCrystal::Air => 682,
            ImaginatorCrystal::Undead => 683,
            ImaginatorCrystal::Tech => 684,
            ImaginatorCrystal::Fire => 685,
            ImaginatorCrystal::Earth => 686,
            ImaginatorCrystal::Life => 687,
            ImaginatorCrystal::Dark => 688,
            ImaginatorCrystal::Light => 689,
        }
    }
}

impl FromSpecImpl<ImaginatorCrystal> for u16 {
    open spec fn obeys_from_spec() -> bool {
        true
    }

    open spec fn from_spec(value: ImaginatorCrystal) -> u16 {
        value.spec_id()
    }
}

impl TryFrom<u16> for ImaginatorCrystal {
    type Error = &'static str;

    fn try_from(value: u16) -> (r: Result<Self, Self::Error>) {
        match ImaginatorCrystal::find(value) {
            Some(c) => {
                proof {
                    ImaginatorCrystal::lemma_lookup_of_id(c);
                }
                Ok(c)
            },
            None => Err("Invalid Imaginator Crystal value"),
        }
    }
}

impl TryFromSpecImpl<u16> for ImaginatorCrystal {
    open spec fn obeys_try_from_spec() -> bool {
        true
    }

    /// The value whose number is `value`, or the error of this catalogue where it names none.
    open spec fn try_from_spec(value: u16) -> Result<Self, Self::Error> {
        match ImaginatorCrystal::lookup(value) {
            Some(c) => Ok(c),
            None => Err("Invalid Imaginator Crystal value"),
        }
    }
}

/// The traps, by element.
#[derive(Clone, Copy, Debug, PartialEq, Eq, Structural)]
pub enum Trap {
    Magic,
    Water,
    Air,
    Death,
    Tech,
    Fire,
    Earth,
    Life,
    Dark,
    Light,
    Kaos,
}

impl Trap {
    /// How many traps the catalogue names.
    pub const COUNT: usize = 11;

    /// The 16-bit number that stands for this value on a tag.
    pub open spec fn spec_id(self) -> u16 {
        match self {
            Trap::Magic => 210,
            Trap::Water => 211,
            Trap::Air => 212,
            Trap::Death => 213,
            Trap::Tech => 214,
            Trap::Fire => 215,
            Trap::Earth => 216,
            Trap::Life => 217,
            Trap::Dark => 218,
            Trap::Light => 219,
            Trap::Kaos => 220,
        }
    }

    /// The name of this value, as it is written here.
    pub open spec fn spec_name(self) -> &'static str {
        match self {
            Trap::Magic => "Magic",
            Trap::Water => "Water",
            Trap::Air => "Air",
            Trap::Death => "Death",
            Trap::Tech => "Tech",
            Trap::Fire => "Fire",
            Trap::Earth => "Earth",
            Trap::Life => "Life",
            Trap::Dark => "Dark",
            Trap::Light => "Light",
            Trap::Kaos => "Kaos",
        }
    }

    /// The name of this value, as it is written here.
    pub fn name(self) -> (r: &'static str)
        ensures
            r@ == self.spec_name()@,
    {
        match self {
            Trap::Magic => "Magic",
            Trap::Water => "Water",
            Trap::Air => "Air",
            Trap::Death => "Death",
            Trap::Tech => "Tech",
            Trap::Fire => "Fire",
            Trap::Earth => "Earth",
            Trap::Life => "Life",
            Trap::Dark => "Dark",
            Trap::Light => "Light",
            Trap::Kaos => "Kaos",
        }
    }

    /// Whether the catalogue names one of the traps by `id`.
    pub open spec fn known(id: u16) -> bool {
        exists|c: Trap| c.spec_id() == id
    }

    /// The value that `id` stands for, where the catalogue names one.
    pub open spec fn lookup(id: u16) -> Option<Trap> {
        if Trap::known(id) {
            Some(choose|c: Trap| c.spec_id() == id)
        } else {
            None
        }
    }

    /// The place of this value in the catalogue, counted from zero.
    pub open spec fn ordinal(self) -> int {
        match self {
            Trap::Magic => 0,
            Trap::Water => 1,
            Trap::Air => 2,
            Trap::Death => 3,
            Trap::Tech => 4,
            Trap::Fire => 5,
            Trap::Earth => 6,
            Trap::Life => 7,
            Trap::Dark => 8,
            Trap::Light => 9,
            Trap::Kaos => 10,
        }
    }

    /// Every value of the catalogue, once each, in catalogue order.
    pub fn all() -> (r: Vec<Trap>)
        ensures
            r@.len() == Trap::COUNT,
            forall|c: Trap| 0 <= c.ordinal() < r@.len() && r@[#[trigger] c.ordinal()] == c,
    {
        let r = vec![
            Trap::Magic,
            Trap::Water,
            Trap::Air,
            Trap::Death,
            Trap::Tech,
            Trap::Fire,
            Trap::Earth,
            Trap::Life,
            Trap::Dark,
            Trap::Light,
            Trap::Kaos,
        ];
        r
    }

    /// The catalogue as an index: each of the traps under its number.
    pub fn make_index() -> (m: HashMap<u16, Trap>)
        ensures
            forall|c: Trap| #[trigger] m@.contains_key(c.spec_id()) && m@[c.spec_id()] == c,
            forall|id: u16| #[trigger] m@.contains_key(id) ==> Trap::known(id),
    {
        broadcast use vstd::std_specs::hash::group_hash_axioms;

        let items = Trap::all();
        let mut m: HashMap<u16, Trap> = HashMap::new();
        let mut i: usize = 0;
        while i < items.len()
            invariant
                i <= items@.len(),
                forall|j: int|
                    0 <= j < i ==> #[trigger] m@.contains_key(items@[j].spec_id()) && m@[items@[j].spec_id()]
                        == items@[j],
                forall|id: u16| #[trigger] m@.contains_key(id) ==> Trap::known(id),
            decreases items@.len() - i,
        {
            let t = items[i];
            let ghost before = m@;
            m.insert(u16::from(t), t);
            proof {
                assert forall|j: int| 0 <= j < i + 1 implies #[trigger] m@.contains_key(
                    items@[j].spec_id(),
                ) && m@[items@[j].spec_id()] == items@[j] by {
                    if items@[j].spec_id() == t.spec_id() {
                        Trap::lemma_id_injective(items@[j], t);
                    } else {
                        assert(before.contains_key(items@[j].spec_id()));
                    }
                }
            }
            i += 1;
        }
        proof {
            assert forall|c: Trap| #[trigger] m@.contains_key(c.spec_id()) && m@[c.spec_id()] == c by {
                assert(items@[c.ordinal()] == c);
            }
        }
        m
    }

    /// Looks the number `id` up in the index of the catalogue.
    pub fn find(id: u16) -> (r: Option<Trap>)
        ensures
            r == Trap::lookup(id),
    {
        broadcast use vstd::std_specs::hash::group_hash_axioms;

        let index = Trap::make_index();
        match index.get(&id) {
            Some(c) => {
                proof {
                    let found = choose|d: Trap| d.spec_id() == id;
                    assert(index@[found.spec_id()] == found);
                }
                Some(*c)
            },
            None => {
                proof {
                    assert forall|c: Trap| c.spec_id() != id by {
                        assert(index@.contains_key(c.spec_id()));
                    }
                }
                None
            },
        }
    }

    /// Two values with the same number are the same value.
    pub proof fn lemma_id_injective(a: Trap, b: Trap)
        requires
            a.spec_id() == b.spec_id(),
        ensures
            a == b,
    {
    }

    /// Looking up the number of a value gives that value back.
    pub proof fn lemma_lookup_of_id(c: Trap)
        ensures
            Trap::lookup(c.spec_id()) == Some(c),
    {
        let found = choose|d: Trap| d.spec_id() == c.spec_id();
        Trap::lemma_id_injective(found, c);
    }
}

impl From<Trap> for u16 {
    fn from(value: Trap) -> (r: u16) {
        match value {
            Trap::Magic => 210,
            Trap::Water => 211,
            Trap::Air => 212,
            Trap::Death => 213,
            Trap::Tech => 214,
            Trap::Fire => 215,
            Trap::Earth => 216,
            Trap::Life => 217,
            Trap::Dark => 218,
            Trap::Light => 219,
            Trap::Kaos => 220,
        }
    }
}

impl FromSpecImpl<Trap> for u16 {
    open spec fn obeys_from_spec() -> bool {
        true
    }

    open spec fn from_spec(value: Trap) -> u16 {
        value.spec_id()
    }
}

impl TryFrom<u16> for Trap {
    type Error = &'static str;

    fn try_from(value: u16) -> (r: Result<Self, Self::Error>) {
        match Trap::find(value) {
            Some(c) => {
                proof {
                    Trap::lemma_lookup_of_id(c);
                }
                Ok(c)
            },
            None => Err("Invalid Trap value"),
        }
    }
}

impl TryFromSpecImpl<u16> for Trap {
    open spec fn obeys_try_from_spec() -> bool {
        true
    }

    /// The value whose number is `value`, or the error of this catalogue where it names none.
    open spec fn try_from_spec(value: u16) -> Result<Self, Self::Error> {
        match Trap::lookup(value) {
            Some(c) => Ok(c),
            None => Err("Invalid Trap value"),
        }
    }
}

/// The adventure and expansion packs, by name.
#[derive(Clone, Copy, Debug, PartialEq, Eq, Structural)]
pub enum Expansion {
    Dragon,
    Ice,
    Pirate,
    Undead,
    PVPUnlock,
    SheepWreckIsland,
    ClockTower,
    BattleArena1,
    BattleArena2,
    MirrorOfMystery,
    NightmareExpress,
    SunscraperSpire,
    MidnightMuseum,
    SkyRacingPack,
    LandRacingPack,
    SeaRacingPack,
    KaosRacingPack,
    GryphonParkObservatory,
    EnchantedElvenForest,
}

impl Expansion {
    /// How many expansions the catalogue names.
    pub const COUNT: usize = 19;

    /// The 16-bit number that stands for this value on a tag.
    pub open spec fn spec_id(self) -> u16 {
        match self {
            Expansion::Dragon => 300,
            Expansion::Ice => 301,
            Expansion::Pirate => 302,
            Expansion::Undead => 303,
            Expansion::PVPUnlock => 304,
            Expansion::SheepWreckIsland => 3300,
            Expansion::ClockTower => 3301,
            Expansion::BattleArena1 => 3302,
            Expansion::BattleArena2 => 3303,
            Expansion::MirrorOfMystery => 305,
            Expansion::NightmareExpress => 306,
            Expansion::SunscraperSpire => 307,
            Expansion::MidnightMuseum => 308,
            Expansion::SkyRacingPack => 3500,
            Expansion::LandRacingPack => 3501,
            Expansion::SeaRacingPack => 3502,
            Expansion::KaosRacingPack => 3503,
            Expansion::GryphonParkObservatory => 310,
            Expansion::EnchantedElvenForest => 311,
        }
    }

    /// The name of this value, as it is written here.
    pub open spec fn spec_name(self) -> &'static str {
        match self {
            Expansion::Dragon => "Dragon",
            Expansion::Ice => "Ice",
            Expansion::Pirate => "Pirate",
            Expansion::Undead => "Undead",
            Expansion::PVPUnlock => "PVPUnlock",
            Expansion::SheepWreckIsland => "SheepWreckIsland",
            Expansion::ClockTower => "ClockTower",
            Expansion::BattleArena1 => "BattleArena1",
            Expansion::BattleArena2 => "BattleArena2",
            Expansion::MirrorOfMystery => "MirrorOfMystery",
            Expansion::NightmareExpress => "NightmareExpress",
            Expansion::SunscraperSpire => "SunscraperSpire",
            Expansion::MidnightMuseum => "MidnightMuseum",
            Expansion::SkyRacingPack => "SkyRacingPack",
            Expansion::LandRacingPack => "LandRacingPack",
            Expansion::SeaRacingPack => "SeaRacingPack",
            Expansion::KaosRacingPack => "KaosRacingPack",
            Expansion::GryphonParkObservatory => "GryphonParkObservatory",
            Expansion::EnchantedElvenForest => "EnchantedElvenForest",
        }
    }

    /// The name of this value, as it is written here.
    pub fn name(self) -> (r: &'static str)
        ensures
            r@ == self.spec_name()@,
    {
        match self {
            Expansion::Dragon => "Dragon",
            Expansion::Ice => "Ice",
            Expansion::Pirate => "Pirate",
            Expansion::Undead => "Undead",
            Expansion::PVPUnlock => "PVPUnlock",
            Expansion::SheepWreckIsland => "SheepWreckIsland",
            Expansion::ClockTower => "ClockTower",
            Expansion::BattleArena1 => "BattleArena1",
            Expansion::BattleArena2 => "BattleArena2",
            Expansion::MirrorOfMystery => "MirrorOfMystery",
            Expansion::NightmareExpress => "NightmareExpress",
            Expansion::SunscraperSpire => "SunscraperSpire",
            Expansion::MidnightMuseum => "MidnightMuseum",
            Expansion::SkyRacingPack => "SkyRacingPack",
            Expansion::LandRacingPack => "LandRacingPack",
            Expansion::SeaRacingPack => "SeaRacingPack",
            Expansion::KaosRacingPack => "KaosRacingPack",
            Expansion::GryphonParkObservatory => "GryphonParkObservatory",
            Expansion::EnchantedElvenForest => "EnchantedElvenForest",
        }
    }

    /// Whether the catalogue names one of the expansions by `id`.
    pub open spec fn known(id: u16) -> bool {
        exists|c: Expansion| c.spec_id() == id
    }

    /// The value that `id` stands for, where the catalogue names one.
    pub open spec fn lookup(id: u16) -> Option<Expansion> {
        if Expansion::known(id) {
            Some(choose|c: Expansion| c.spec_id() == id)
        } else {
            None
        }
    }

    /// The place of this value in the catalogue, counted from zero.
    pub open spec fn ordinal(self) -> int {
        match self {
            Expansion::Dragon => 0,
            Expansion::Ice => 1,
            Expansion::Pirate => 2,
            Expansion::Undead => 3,
            Expansion::PVPUnlock => 4,
            Expansion::SheepWreckIsland => 5,
            Expansion::ClockTower => 6,
            Expansion::BattleArena1 => 7,
            Expansion::BattleArena2 => 8,
            Expansion::MirrorOfMystery => 9,
            Expansion::NightmareExpress => 10,
            Expansion::SunscraperSpire => 11,
            Expansion::MidnightMuseum => 12,
            Expansion::SkyRacingPack => 13,
            Expansion::LandRacingPack => 14,
            Expansion::SeaRacingPack => 15,
            Expansion::KaosRacingPack => 16,
            Expansion::GryphonParkObservatory => 17,
            Expansion::EnchantedElvenForest => 18,
        }
    }

    /// Every value of the catalogue, once each, in catalogue order.
    pub fn all() -> (r: Vec<Expansion>)
        ensures
            r@.len() == Expansion::COUNT,
            forall|c: Expansion| 0 <= c.ordinal() < r@.len() && r@[#[trigger] c.ordinal()] == c,
    {
        let r = vec![
            Expansion::Dragon,
            Expansion::Ice,
            Expansion::Pirate,
            Expansion::Undead,
            Expansion::PVPUnlock,
            Expansion::SheepWreckIsland,
            Expansion::ClockTower,
            Expansion::BattleArena1,
            Expansion::BattleArena2,
            Expansion::MirrorOfMystery,
            Expansion::NightmareExpress,
            Expansion::SunscraperSpire,
            Expansion::MidnightMuseum,
            Expansion::SkyRacingPack,
            Expansion::LandRacingPack,
            Expansion::SeaRacingPack,
            Expansion::KaosRacingPack,
            Expansion::GryphonParkObservatory,
            Expansion::EnchantedElvenForest,
        ];
        r
    }

    /// The catalogue as an index: each of the expansions under its number.
    pub fn make_index() -> (m: HashMap<u16, Expansion>)
        ensures
            forall|c: Expansion| #[trigger] m@.contains_key(c.spec_id()) && m@[c.spec_id()] == c,
            forall|id: u16| #[trigger] m@.contains_key(id) ==> Expansion::known(id),
    {
        broadcast use vstd::std_specs::hash::group_hash_axioms;

        let items = Expansion::all();
        let mut m: HashMap<u16, Expansion> = HashMap::new();
        let mut i: usize = 0;
        while i < items.len()
            invariant
                i <= items@.len(),
                forall|j: int|
                    0 <= j < i ==> #[trigger] m@.contains_key(items@[j].spec_id()) && m@[items@[j].spec_id()]
                        == items@[j],
                forall|id: u16| #[trigger] m@.contains_key(id) ==> Expansion::known(id),
            decreases items@.len() - i,
        {
            let t = items[i];
            let ghost before = m@;
            m.insert(u16::from(t), t);
            proof {
                assert forall|j: int| 0 <= j < i + 1 implies #[trigger] m@.contains_key(
                    items@[j].spec_id(),
                ) && m@[items@[j].spec_id()] == items@[j] by {
                    if items@[j].spec_id() == t.spec_id() {
                        Expansion::lemma_id_injective(items@[j], t);
                    } else {
                        assert(before.contains_key(items@[j].spec_id()));
                    }
                }
            }
            i += 1;
        }
        proof {
            assert forall|c: Expansion| #[trigger] m@.contains_key(c.spec_id()) && m@[c.spec_id()] == c by {
                assert(items@[c.ordinal()] == c);
            }
        }
        m
    }

    /// Looks the number `id` up in the index of the catalogue.
    pub fn find(id: u16) -> (r: Option<Expansion>)
        ensures
            r == Expansion::lookup(id),
    {
        broadcast use vstd::std_specs::hash::group_hash_axioms;

        let index = Expansion::make_index();
        match index.get(&id) {
            Some(c) => {
                proof {
                    let found = choose|d: Expansion| d.spec_id() == id;
                    assert(index@[found.spec_id()] == found);
                }
                Some(*c)
            },
            None => {
                proof {
                    assert forall|c: Expansion| c.spec_id() != id by {
                        assert(index@.contains_key(c.spec_id()));
                    }
                }
                None
            },
        }
    }

    /// Two values with the same number are the same value.
    pub proof fn lemma_id_injective(a: Expansion, b: Expansion)
        requires
            a.spec_id() == b.spec_id(),
        ensures
            a == b,
    {
    }

    /// Looking up the number of a value gives that value back.
    pub proof fn lemma_lookup_of_id(c: Expansion)
        ensures
            Expansion::lookup(c.spec_id()) == Some(c),
    {
        let found = choose|d: Expansion| d.spec_id() == c.spec_id();
        Expansion::lemma_id_injective(found, c);
    }
}

impl From<Expansion> for u16 {
    fn from(value: Expansion) -> (r: u16) {
        match value {
            Expansion::Dragon => 300,
            Expansion::Ice => 301,
            Expansion::Pirate => 302,
            Expansion::Undead => 303,
            Expansion::PVPUnlock => 304,
            Expansion::SheepWreckIsland => 3300,
            Expansion::ClockTower => 3301,
            Expansion::BattleArena1 => 3302,
            Expansion::BattleArena2 => 3303,
            Expansion::MirrorOfMystery => 305,
            Expansion::NightmareExpress => 306,
            Expansion::SunscraperSpire => 307,
            Expansion::MidnightMuseum => 308,
            Expansion::SkyRacingPack => 3500,
            Expansion::LandRacingPack => 3501,
            Expansion::SeaRacingPack => 3502,
            Expansion::KaosRacingPack => 3503,
            Expansion::GryphonParkObservatory => 310,
            Expansion::EnchantedElvenForest => 311,
        }
    }
}

impl FromSpecImpl<Expansion> for u16 {
    open spec fn obeys_from_spec() -> bool {
        true
    }

    open spec fn from_spec(value: Expansion) -> u16 {
        value.spec_id()
    }
}

impl TryFrom<u16> for Expansion {
    type Error = &'static str;

    fn try_from(value: u16) -> (r: Result<Self, Self::Error>) {
        match Expansion::find(value) {
            Some(c) => {
                proof {
                    Expansion::lemma_lookup_of_id(c);
                }
                Ok(c)
            },
            None => Err("Invalid Expansion value"),
        }
    }
}

impl TryFromSpecImpl<u16> for Expansion {
    open spec fn obeys_try_from_spec() -> bool {
        true
    }

    /// The value whose number is `value`, or the error of this catalogue where it names none.
    open spec fn try_from_spec(value: u16) -> Result<Self, Self::Error> {
        match Expansion::lookup(value) {
            Some(c) => Ok(c),
            None => Err("Invalid Expansion value"),
        }
    }
}

/// The vehicles, by name.
#[derive(Clone, Copy, Debug, PartialEq, Eq, Structural)]
pub enum Vehicle {
    Template,
    TemplateLand,
    TemplateAir,
    TemplateSea,
    Vehicle2015,
    JetStream,
    TombBuggy,
    ReefRipper,
    BurnCycle,
    HotStreak,
    SharkTank,
    ThumpTruck,
    CryptCrusher,
    StealthStinger,
    DiveBomber,
    SkySlicer,
    ClownCruiser,
    GoldRusher,
    ShieldStriker,
    SunRunner,
    SeaShadow,
    SplatterSplasher,
    SodaSkimmer,
    BarrelBlaster,
    BuzzWing,
}

impl Vehicle {
    /// How many vehicles the catalogue names.
    pub const COUNT: usize = 25;

    /// The 16-bit number that stands for this value on a tag.
    pub open spec fn spec_id(self) -> u16 {
        match self {
            Vehicle::Template => 4999,
            Vehicle::TemplateLand => 5999,
            Vehicle::TemplateAir => 6999,
            Vehicle::TemplateSea => 7999,
            Vehicle::Vehicle2015 => 3214,
            Vehicle::JetStream => 3220,
            Vehicle::TombBuggy => 3221,
            Vehicle::ReefRipper => 3222,
            Vehicle::BurnCycle => 3223,
            Vehicle::HotStreak => 3224,
            Vehicle::SharkTank => 3225,
            Vehicle::ThumpTruck => 3226,
            Vehicle::CryptCrusher => 3227,
            Vehicle::StealthStinger => 3228,
            Vehicle::DiveBomber => 3231,
            Vehicle::SkySlicer => 3232,
            Vehicle::ClownCruiser => 3233,
            Vehicle::GoldRusher => 3234,
            Vehicle::ShieldStriker => 3235,
            Vehicle::SunRunner => 3236,
            Vehicle::SeaShadow => 3237,
            Vehicle::SplatterSplasher => 3238,
            Vehicle::SodaSkimmer => 3239,
            Vehicle::BarrelBlaster => 3240,
            Vehicle::BuzzWing => 3241,
        }
    }

    /// The name of this value, as it is written here.
    pub open spec fn spec_name(self) -> &'static str {
        match self {
            Vehicle::Template => "Template",
            Vehicle::TemplateLand => "TemplateLand",
            Vehicle::TemplateAir => "TemplateAir",
            Vehicle::TemplateSea => "TemplateSea",
            Vehicle::Vehicle2015 => "Vehicle2015",
            Vehicle::JetStream => "JetStream",
            Vehicle::TombBuggy => "TombBuggy",
            Vehicle::ReefRipper => "ReefRipper",
            Vehicle::BurnCycle => "BurnCycle",
            Vehicle::HotStreak => "HotStreak",
            Vehicle::SharkTank => "SharkTank",
            Vehicle::ThumpTruck => "ThumpTruck",
            Vehicle::CryptCrusher => "CryptCrusher",
            Vehicle::StealthStinger => "StealthStinger",
            Vehicle::DiveBomber => "DiveBomber",
            Vehicle::SkySlicer => "SkySlicer",
            Vehicle::ClownCruiser => "ClownCruiser",
            Vehicle::GoldRusher => "GoldRusher",
            Vehicle::ShieldStriker => "ShieldStriker",
            Vehicle::SunRunner => "SunRunner",
            Vehicle::SeaShadow => "SeaShadow",
            Vehicle::SplatterSplasher => "SplatterSplasher",
            Vehicle::SodaSkimmer => "SodaSkimmer",
            Vehicle::BarrelBlaster => "BarrelBlaster",
            Vehicle::BuzzWing => "BuzzWing",
        }
    }

    /// The name of this value, as it is written here.
    pub fn name(self) -> (r: &'static str)
        ensures
            r@ == self.spec_name()@,
    {
        match self {
            Vehicle::Template => "Template",
            Vehicle::TemplateLand => "TemplateLand",
            Vehicle::TemplateAir => "TemplateAir",
            Vehicle::TemplateSea => "TemplateSea",
            Vehicle::Vehicle2015 => "Vehicle2015",
            Vehicle::JetStream => "JetStream",
            Vehicle::TombBuggy => "TombBuggy",
            Vehicle::ReefRipper => "ReefRipper",
            Vehicle::BurnCycle => "BurnCycle",
            Vehicle::HotStreak => "HotStreak",
            Vehicle::SharkTank => "SharkTank",
            Vehicle::ThumpTruck => "ThumpTruck",
            Vehicle::CryptCrusher => "CryptCrusher",
            Vehicle::StealthStinger => "StealthStinger",
            Vehicle::DiveBomber => "DiveBomber",
            Vehicle::SkySlicer => "SkySlicer",
            Vehicle::ClownCruiser => "ClownCruiser",
            Vehicle::GoldRusher => "GoldRusher",
            Vehicle::ShieldStriker => "ShieldStriker",
            Vehicle::SunRunner => "SunRunner",
            Vehicle::SeaShadow => "SeaShadow",
            Vehicle::SplatterSplasher => "SplatterSplasher",
            Vehicle::SodaSkimmer => "SodaSkimmer",
            Vehicle::BarrelBlaster => "BarrelBlaster",
            Vehicle::BuzzWing => "BuzzWing",
        }
    }

    /// Whether the catalogue names one of the vehicles by `id`.
    pub open spec fn known(id: u16) -> bool {
        exists|c: Vehicle| c.spec_id() == id
    }

    /// The value that `id` stands for, where the catalogue names one.
    pub open spec fn lookup(id: u16) -> Option<Vehicle> {
        if Vehicle::known(id) {
            Some(choose|c: Vehicle| c.spec_id() == id)
        } else {
            None
        }
    }

    /// The place of this value in the catalogue, counted from zero.
    pub open spec fn ordinal(self) -> int {
        match self {
            Vehicle::Template => 0,
            Vehicle::TemplateLand => 1,
            Vehicle::TemplateAir => 2,
            Vehicle::TemplateSea => 3,
            Vehicle::Vehicle2015 => 4,
            Vehicle::JetStream => 5,
            Vehicle::TombBuggy => 6,
            Vehicle::ReefRipper => 7,
            Vehicle::BurnCycle => 8,
            Vehicle::HotStreak => 9,
            Vehicle::SharkTank => 10,
            Vehicle::ThumpTruck => 11,
            Vehicle::CryptCrusher => 12,
            Vehicle::StealthStinger => 13,
            Vehicle::DiveBomber => 14,
            Vehicle::SkySlicer => 15,
            Vehicle::ClownCruiser => 16,
            Vehicle::GoldRusher => 17,
            Vehicle::ShieldStriker => 18,
            Vehicle::SunRunner => 19,
            Vehicle::SeaShadow => 20,
            Vehicle::SplatterSplasher => 21,
            Vehicle::SodaSkimmer => 22,
            Vehicle::BarrelBlaster => 23,
            Vehicle::BuzzWing => 24,
        }
    }

    /// Every value of the catalogue, once each, in catalogue order.
    pub fn all() -> (r: Vec<Vehicle>)
        ensures
            r@.len() == Vehicle::COUNT,
            forall|c: Vehicle| 0 <= c.ordinal() < r@.len() && r@[#[trigger] c.ordinal()] == c,
    {
        let r = vec![
            Vehicle::Template,
            Vehicle::TemplateLand,
            Vehicle::TemplateAir,
            Vehicle::TemplateSea,
            Vehicle::Vehicle2015,
            Vehicle::JetStream,
            Vehicle::TombBuggy,
            Vehicle::ReefRipper,
            Vehicle::BurnCycle,
            Vehicle::HotStreak,
            Vehicle::SharkTank,
            Vehicle::ThumpTruck,
            Vehicle::CryptCrusher,
            Vehicle::StealthStinger,
            Vehicle::DiveBomber,
            Vehicle::SkySlicer,
            Vehicle::ClownCruiser,
            Vehicle::GoldRusher,
            Vehicle::ShieldStriker,
            Vehicle::SunRunner,
            Vehicle::SeaShadow,
            Vehicle::SplatterSplasher,
            Vehicle::SodaSkimmer,
            Vehicle::BarrelBlaster,
            Vehicle::BuzzWing,
        ];
        r
    }

    /// The catalogue as an index: each of the vehicles under its number.
    pub fn make_index() -> (m: HashMap<u16, Vehicle>)
        ensures
            forall|c: Vehicle| #[trigger] m@.contains_key(c.spec_id()) && m@[c.spec_id()] == c,
            forall|id: u16| #[trigger] m@.contains_key(id) ==> Vehicle::known(id),
    {
        broadcast use vstd::std_specs::hash::group_hash_axioms;

        let items = Vehicle::all();
        let mut m: HashMap<u16, Vehicle> = HashMap::new();
        let mut i: usize = 0;
        while i < items.len()
            invariant
                i <= items@.len(),
                forall|j: int|
                    0 <= j < i ==> #[trigger] m@.contains_key(items@[j].spec_id()) && m@[items@[j].spec_id()]
                        == items@[j],
                forall|id: u16| #[trigger] m@.contains_key(id) ==> Vehicle::known(id),
            decreases items@.len() - i,
        {
            let t = items[i];
            let ghost before = m@;
            m.insert(u16::from(t), t);
            proof {
                assert forall|j: int| 0 <= j < i + 1 implies #[trigger] m@.contains_key(
                    items@[j].spec_id(),
                ) && m@[items@[j].spec_id()] == items@[j] by {
                    if items@[j].spec_id() == t.spec_id() {
                        Vehicle::lemma_id_injective(items@[j], t);
                    } else {
                        assert(before.contains_key(items@[j].spec_id()));
                    }
                }
            }
            i += 1;
        }
        proof {
            assert forall|c: Vehicle| #[trigger] m@.contains_key(c.spec_id()) && m@[c.spec_id()] == c by {
                assert(items@[c.ordinal()] == c);
            }
        }
        m
    }

    /// Looks the number `id` up in the index of the catalogue.
    pub fn find(id: u16) -> (r: Option<Vehicle>)
        ensures
            r == Vehicle::lookup(id),
    {
        broadcast use vstd::std_specs::hash::group_hash_axioms;

        let index = Vehicle::make_index();
        match index.get(&id) {
            Some(c) => {
                proof {
                    let found = choose|d: Vehicle| d.spec_id() == id;
                    assert(index@[found.spec_id()] == found);
                }
                Some(*c)
            },
            None => {
                proof {
                    assert forall|c: Vehicle| c.spec_id() != id by {
                        assert(index@.contains_key(c.spec_id()));
                    }
                }
                None
            },
        }
    }

    /// Two values with the same number are the same value.
    pub proof fn lemma_id_injective(a: Vehicle, b: Vehicle)
        requires
            a.spec_id() == b.spec_id(),
        ensures
            a == b,
    {
    }

    /// Looking up the number of a value gives that value back.
    pub proof fn lemma_lookup_of_id(c: Vehicle)
        ensures
            Vehicle::lookup(c.spec_id()) == Some(c),
    {
        let found = choose|d: Vehicle| d.spec_id() == c.spec_id();
        Vehicle::lemma_id_injective(found, c);
    }
}

impl From<Vehicle> for u16 {
    fn from(value: Vehicle) -> (r: u16) {
        match value {
            Vehicle::Template => 4999,
            Vehicle::TemplateLand => 5999,
            Vehicle::TemplateAir => 6999,
            Vehicle::TemplateSea => 7999,
            Vehicle::Vehicle2015 => 3214,
            Vehicle::JetStream => 3220,
            Vehicle::TombBuggy => 3221,
            Vehicle::ReefRipper => 3222,
            Vehicle::BurnCycle => 3223,
            Vehicle::HotStreak => 3224,
            Vehicle::SharkTank => 3225,
            Vehicle::ThumpTruck => 3226,
            Vehicle::CryptCrusher => 3227,
            Vehicle::StealthStinger => 3228,
            Vehicle::DiveBomber => 3231,
            Vehicle::SkySlicer => 3232,
            Vehicle::ClownCruiser => 3233,
            Vehicle::GoldRusher => 3234,
            Vehicle::ShieldStriker => 3235,
            Vehicle::SunRunner => 3236,
            Vehicle::SeaShadow => 3237,
            Vehicle::SplatterSplasher => 3238,
            Vehicle::SodaSkimmer => 3239,
            Vehicle::BarrelBlaster => 3240,
            Vehicle::BuzzWing => 3241,
        }
    }
}

impl FromSpecImpl<Vehicle> for u16 {
    open spec fn obeys_from_spec() -> bool {
        true
    }

    open spec fn from_spec(value: Vehicle) -> u16 {
        value.spec_id()
    }
}

impl TryFrom<u16> for Vehicle {
    type Error = &'static str;

    fn try_from(value: u16) -> (r: Result<Self, Self::Error>) {
        match Vehicle::find(value) {
            Some(c) => {
                proof {
                    Vehicle::lemma_lookup_of_id(c);
                }
                Ok(c)
            },
            None => Err("Invalid Vehicle value"),
        }
    }
}

impl TryFromSpecImpl<u16> for Vehicle {
    open spec fn obeys_try_from_spec() -> bool {
        true
    }

    /// The value whose number is `value`, or the error of this catalogue where it names none.
    open spec fn try_from_spec(value: u16) -> Result<Self, Self::Error> {
        match Vehicle::lookup(value) {
            Some(c) => Ok(c),
            None => Err("Invalid Vehicle value"),
        }
    }
}

} // verus!
