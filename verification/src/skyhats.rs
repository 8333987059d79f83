//! The catalogue of hats.

use std::collections::HashMap;
use vstd::prelude::*;
use vstd::std_specs::convert::FromSpecImpl;
use vstd::std_specs::convert::TryFromSpecImpl;

verus! {

/// The hats, by name; `NoHat` is the bare head.
#[derive(Clone, Copy, Debug, PartialEq, Eq, Structural)]
pub enum Hat {
    NoHat,
    Army,
    French,
    Goggles,
    Mining,
    Officer,
    Pirate,
    Propeller,
    Raccoon,
    Straw,
    Sunday,
    Tophat,
    Viking,
    WorldWarI,
    Anvil,
    Beret,
    BirthdayCap,
    Bonehead,
    Bowler,
    Bunny,
    Carmen,
    Chef,
    Cowboy,
    CrazyHair,
    Crown,
    DevilHorns,
    Eyeball,
    Fez,
    Halo,
    Jester,
    Mercury,
    Moose,
    Plunger,
    Pot,
    Rocket,
    Santa,
    Tiki,
    Trojan,
    Unicorn,
    Wizard,
    Pumpkin,
    PirateBandana,
    Cossack,
    FlowerPot,
    Balloon,
    BirthdayCake,
    VintageBaseballCap,
    BowlingPin,
    Officer2,
    FirefighterHelmet,
    Graduation,
    Lampshade,
    Mariachi,
    PaperFastFood,
    Pilgrim,
    PoliceSiren,
    PurpleFedora,
    Archer,
    Safari,
    Sailor,
    Dancer,
    TrafficCone,
    Turban,
    BattleHelmet,
    BottleCap,
    Carrot,
    Elf,
    Fishing,
    Future,
    Nefertiti,
    Pants,
    Princess,
    ToySoldier,
    Trucker,
    Umbrella,
    Showtime,
    Caesar,
    FlowerFairy,
    Funnel,
    Scrumshanks,
    Biter,
    Atom,
    Sombrero,
    Rasta,
    Kufi,
    KnightHelm,
    DanglingCarrot,
    BronzeTopHat,
    SilverTopHat,
    GoldTopHat,
    Rain,
    SnorkelingMask,
    Greeble,
    Volcano,
    Boater,
    Stone,
    Stovepipe,
    Boonie,
    Sawblade,
    SunBonnet,
    Gaucho,
    Roundlet,
    Capuchon,
    Tricorn,
    FeatheredHeaddress,
    BearskinCap,
    Fishbone,
    SkiCap,
    CrownOfFrost,
    FourWinds,
    Beacon,
    FlowerGarland,
    TreeBranch,
    AviatorsCap,
    Asteroid,
    Crystal,
    CreepyHelm,
    FancyRibbon,
    DeelyBoppers,
    BeanieCap,
    Leprechaun,
    Shark,
    LifePreserver,
    GlitteringTiara,
    GreatHelm,
    SpaceHelmet,
    UFO,
    WhirlwindDiadem,
    ObsidianHelm,
    Lilypad,
    CrownOfFlames,
    RunicHeadband,
    Clockwork,
    Cactus,
    SkullHelm,
    Gloop,
    Puma,
    Elephant,
    TigerSkin,
    TeethTop,
    Turkey,
    Afro,
    BaconBandana,
    AwesomeHat,
    CardShark,
    EasterTriggerHappy,
    HolidayBumbleBlast,
    SoccerCountdown,
    Beetle,
    Brain,
    Brainiac,
    Bucket,
    Cactus02,
    Fan,
    Chinese,
    Clown,
    ClownBowler,
    Colander,
    Kepi,
    Cornucopia,
    Cubano,
    Cycling,
    DaisyCrown,
    Skull,
    DundeeSlouch,
    ElfMini,
    Castro,
    Garrison,
    Gondolier,
    Hunting,
    Juicer,
    Kokoshnik,
    Medic,
    Melon,
    Mountie,
    Nurse,
    Palm,
    Paperboy,
    ParrotRoosting,
    Projector,
    Pot02,
    Radar,
    Tiara,
    RubberGlove,
    Rugby,
    SharkFin,
    Sherlock,
    Shower,
    Bobby,
    Hedgehog,
    Steampunk,
    Stewardess,
    SundayFancy,
    Tibet,
    Trash,
    Turtle,
    UFO02,
    Vespa,
    Volcano02,
    WaterBallet,
    WilliamTell,
    Zulu,
    RudeBoyChecker,
    PorkPieChecker,
    AlarmClock,
    Armadillo,
    BearTrap,
    Croissant,
    WeatherVane,
    Rainbow,
    EyeOfKaos,
    BatEars,
    Lightbulb,
    Fireflies,
    ShadowGhost,
    Lighthouse,
    TinFoil,
    NightCap,
    Storm,
    KnightmareGold,
    Duck,
    Pyramid,
    Windmill,
    Wizard02,
    Confectioner,
    Eggshell,
    Candle,
    HelmDark,
    Orbit,
    Bellhop,
    KnightmareBronze,
    KnightmareSilver,
    Raver,
    Shire,
    Mongol,
    FishermanSlicker,
    MedievalBard,
    Wooden,
    Carnival,
    Coconut,
    Wilikin,
    Frostfest,
    Molekin,
    Sheepwrecked,
    OldRuins,
    Oracle,
    Offset2015,
    DiveBomber,
    SeaShadow,
    BurnCycle,
    ReefRipper,
    JetStream,
    SodaSkimmer,
    TombBuggy,
    StealthStinger,
    SharkTank,
    GoldRusher,
    SplatterSplasher,
    ThumpTruck,
    BuzzWing,
    ShieldStriker,
    SunRunner,
    HotStreak,
    SkySlicer,
    CryptCrusher,
    Mags,
    KaosCrown,
    EonHelm,
}

impl Hat {
    /// How many hats the catalogue names.
    pub const COUNT: usize = 268;

    /// The 16-bit number that stands for this value on a tag.
    pub open spec fn spec_id(self) -> u16 {
        match self {
            Hat::NoHat => 0,
            Hat::Army => 1,
            Hat::French => 2,
            Hat::Goggles => 3,
            Hat::Mining => 4,
            Hat::Officer => 5,
            Hat::Pirate => 6,
            Hat::Propeller => 7,
            Hat::Raccoon => 8,
            Hat::Straw => 9,
            Hat::Sunday => 10,
            Hat::Tophat => 11,
            Hat::Viking => 12,
            Hat::WorldWarI => 13,
            Hat::Anvil => 14,
            Hat::Beret => 15,
            Hat::BirthdayCap => 16,
            Hat::Bonehead => 17,
            Hat::Bowler => 18,
            Hat::Bunny => 19,
            Hat::Carmen => 20,
            Hat::Chef => 21,
            Hat::Cowboy => 22,
            Hat::CrazyHair => 23,
            Hat::Crown => 24,
            Hat::DevilHorns => 25,
            Hat::Eyeball => 26,
            Hat::Fez => 27,
            Hat::Halo => 28,
            Hat::Jester => 29,
            Hat::Mercury => 30,
            Hat::Moose => 31,
            Hat::Plunger => 32,
            Hat::Pot => 33,
            Hat::Rocket => 34,
            Hat::Santa => 35,
            Hat::Tiki => 36,
            Hat::Trojan => 37,
            Hat::Unicorn => 38,
            Hat::Wizard => 39,
            Hat::Pumpkin => 40,
            Hat::PirateBandana => 41,
            Hat::Cossack => 42,
            Hat::FlowerPot => 43,
            Hat::Balloon => 44,
            Hat::BirthdayCake => 45,
            Hat::VintageBaseballCap => 46,
            Hat::BowlingPin => 48,
            Hat::Officer2 => 49,
            Hat::FirefighterHelmet => 50,
            Hat::Graduation => 51,
            Hat::Lampshade => 52,
            Hat::Mariachi => 53,
            Hat::PaperFastFood => 55,
            Hat::Pilgrim => 56,
            Hat::PoliceSiren => 57,
            Hat::PurpleFedora => 58,
            Hat::Archer => 59,
            Hat::Safari => 61,
            Hat::Sailor => 62,
            Hat::Dancer => 64,
            Hat::TrafficCone => 65,
            Hat::Turban => 66,
            Hat::BattleHelmet => 67,
            Hat::BottleCap => 68,
            Hat::Carrot => 70,
            Hat::Elf => 72,
            Hat::Fishing => 73,
            Hat::Future => 74,
            Hat::Nefertiti => 75,
            Hat::Pants => 77,
            Hat::Princess => 78,
            Hat::ToySoldier => 79,
            Hat::Trucker => 80,
            Hat::Umbrella => 81,
            Hat::Showtime => 82,
            Hat::Caesar => 83,
            Hat::FlowerFairy => 84,
            Hat::Funnel => 85,
            Hat::Scrumshanks => 86,
            Hat::Biter => 87,
            Hat::Atom => 88,
            Hat::Sombrero => 89,
            Hat::Rasta => 90,
            Hat::Kufi => 91,
            Hat::KnightHelm => 92,
            Hat::DanglingCarrot => 93,
            Hat::BronzeTopHat => 94,
            Hat::SilverTopHat => 95,
            Hat::GoldTopHat => 96,
            Hat::Rain => 97,
            Hat::SnorkelingMask => 98,
            Hat::Greeble => 99,
            Hat::Volcano => 100,
            Hat::Boater => 101,
            Hat::Stone => 102,
            Hat::Stovepipe => 103,
            Hat::Boonie => 104,
            Hat::Sawblade => 105,
            Hat::SunBonnet => 106,
            Hat::Gaucho => 107,
            Hat::Roundlet => 108,
            Hat::Capuchon => 109,
            Hat::Tricorn => 110,
            Hat::FeatheredHeaddress => 111,
            Hat::BearskinCap => 112,
            Hat::Fishbone => 113,
            Hat::SkiCap => 114,
            Hat::CrownOfFrost => 115,
            Hat::FourWinds => 116,
            Hat::Beacon => 117,
            Hat::FlowerGarland => 118,
            Hat::TreeBranch => 119,
            Hat::AviatorsCap => 120,
            Hat::Asteroid => 121,
            Hat::Crystal => 122,
            Hat::CreepyHelm => 123,
            Hat::FancyRibbon => 124,
            Hat::DeelyBoppers => 125,
            Hat::BeanieCap => 126,
            Hat::Leprechaun => 127,
            Hat::Shark => 128,
            Hat::LifePreserver => 129,
            Hat::GlitteringTiara => 130,
            Hat::GreatHelm => 131,
            Hat::SpaceHelmet => 132,
            Hat::UFO => 133,
            Hat::WhirlwindDiadem => 134,
            Hat::ObsidianHelm => 135,
            Hat::Lilypad => 136,
            Hat::CrownOfFlames => 137,
            Hat::RunicHeadband => 138,
            Hat::Clockwork => 139,
            Hat::Cactus => 140,
            Hat::SkullHelm => 141,
            Hat::Gloop => 142,
            Hat::Puma => 143,
            Hat::Elephant => 144,
            Hat::TigerSkin => 145,
            Hat::TeethTop => 146,
            Hat::Turkey => 147,
            Hat::Afro => 148,
            Hat::BaconBandana => 149,
            Hat::AwesomeHat => 150,
            Hat::CardShark => 151,
            Hat::EasterTriggerHappy => 152,
            Hat::HolidayBumbleBlast => 153,
            Hat::SoccerCountdown => 154,
            Hat::Beetle => 155,
            Hat::Brain => 156,
            Hat::Brainiac => 157,
            Hat::Bucket => 158,
            Hat::Cactus02 => 159,
            Hat::Fan => 160,
            Hat::Chinese => 161,
            Hat::Clown => 162,
            Hat::ClownBowler => 163,
            Hat::Colander => 164,
            Hat::Kepi => 165,
            Hat::Cornucopia => 166,
            Hat::Cubano => 167,
            Hat::Cycling => 168,
            Hat::DaisyCrown => 169,
            Hat::Skull => 170,
            Hat::DundeeSlouch => 171,
            Hat::ElfMini => 172,
            Hat::Castro => 173,
            Hat::Garrison => 174,
            Hat::Gondolier => 175,
            Hat::Hunting => 176,
            Hat::Juicer => 177,
            Hat::Kokoshnik => 178,
            Hat::Medic => 179,
            Hat::Melon => 180,
            Hat::Mountie => 181,
            Hat::Nurse => 182,
            Hat::Palm => 183,
            Hat::Paperboy => 184,
            Hat::ParrotRoosting => 185,
            Hat::Projector => 186,
            Hat::Pot02 => 187,
            Hat::Radar => 188,
            Hat::Tiara => 189,
            Hat::RubberGlove => 190,
            Hat::Rugby => 191,
            Hat::SharkFin => 192,
            Hat::Sherlock => 193,
            Hat::Shower => 194,
            Hat::Bobby => 195,
            Hat::Hedgehog => 196,
            Hat::Steampunk => 197,
            Hat::Stewardess => 198,
            Hat::SundayFancy => 199,
            Hat::Tibet => 200,
            Hat::Trash => 201,
            Hat::Turtle => 202,
            Hat::UFO02 => 203,
            Hat::Vespa => 204,
            Hat::Volcano02 => 205,
            Hat::WaterBallet => 206,
            Hat::WilliamTell => 207,
            Hat::Zulu => 208,
            Hat::RudeBoyChecker => 209,
            Hat::PorkPieChecker => 210,
            Hat::AlarmClock => 211,
            Hat::Armadillo => 212,
            Hat::BearTrap => 213,
            Hat::Croissant => 214,
            Hat::WeatherVane => 215,
            Hat::Rainbow => 216,
            Hat::EyeOfKaos => 217,
            Hat::BatEars => 218,
            Hat::Lightbulb => 219,
            Hat::Fireflies => 220,
            Hat::ShadowGhost => 221,
            Hat::Lighthouse => 222,
            Hat::TinFoil => 223,
            Hat::NightCap => 224,
            Hat::Storm => 225,
            Hat::KnightmareGold => 226,
            Hat::Duck => 227,
            Hat::Pyramid => 228,
            Hat::Windmill => 229,
            Hat::Wizard02 => 230,
            Hat::Confectioner => 232,
            Hat::Eggshell => 233,
            Hat::Candle => 234,
            Hat::HelmDark => 235,
            Hat::Orbit => 236,
            Hat::Bellhop => 237,
            Hat::KnightmareBronze => 238,
            Hat::KnightmareSilver => 239,
            Hat::Raver => 240,
            Hat::Shire => 241,
            Hat::Mongol => 242,
            Hat::FishermanSlicker => 243,
            Hat::MedievalBard => 244,
            Hat::Wooden => 245,
            Hat::Carnival => 246,
            Hat::Coconut => 247,
            Hat::Wilikin => 248,
            Hat::Frostfest => 249,
            Hat::Molekin => 250,
            Hat::Sheepwrecked => 251,
            Hat::OldRuins => 252,
            Hat::Oracle => 253,
            Hat::Offset2015 => 256,
            Hat::DiveBomber => 260,
            Hat::SeaShadow => 261,
            Hat::BurnCycle => 262,
            Hat::ReefRipper => 263,
            Hat::JetStream => 264,
            Hat::SodaSkimmer => 265,
            Hat::TombBuggy => 266,
            Hat::StealthStinger => 267,
            Hat::SharkTank => 268,
            Hat::GoldRusher => 269,
            Hat::SplatterSplasher => 270,
            Hat::ThumpTruck => 271,
            Hat::BuzzWing => 272,
            Hat::ShieldStriker => 273,
            Hat::SunRunner => 274,
            Hat::HotStreak => 275,
            Hat::SkySlicer => 276,
            Hat::CryptCrusher => 277,
            Hat::Mags => 278,
            Hat::KaosCrown => 279,
            Hat::EonHelm => 280,
        }
    }

    /// The name of this value, as it is written here.
    pub open spec fn spec_name(self) -> &'static str {
        match self {
            Hat::NoHat => "None",
            Hat::Army => "Army",
            Hat::French => "French",
            Hat::Goggles => "Goggles",
            Hat::Mining => "Mining",
            Hat::Officer => "Officer",
            Hat::Pirate => "Pirate",
            Hat::Propeller => "Propeller",
            Hat::Raccoon => "Raccoon",
            Hat::Straw => "Straw",
            Hat::Sunday => "Sunday",
            Hat::Tophat => "Tophat",
            Hat::Viking => "Viking",
            Hat::WorldWarI => "WorldWarI",
            Hat::Anvil => "Anvil",
            Hat::Beret => "Beret",
            Hat::BirthdayCap => "BirthdayCap",
            Hat::Bonehead => "Bonehead",
            Hat::Bowler => "Bowler",
            Hat::Bunny => "Bunny",
            Hat::Carmen => "Carmen",
            Hat::Chef => "Chef",
            Hat::Cowboy => "Cowboy",
            Hat::CrazyHair => "CrazyHair",
            Hat::Crown => "Crown",
            Hat::DevilHorns => "DevilHorns",
            Hat::Eyeball => "Eyeball",
            Hat::Fez => "Fez",
            Hat::Halo => "Halo",
            Hat::Jester => "Jester",
            Hat::Mercury => "Mercury",
            Hat::Moose => "Moose",
            Hat::Plunger => "Plunger",
            Hat::Pot => "Pot",
            Hat::Rocket => "Rocket",
            Hat::Santa => "Santa",
            Hat::Tiki => "Tiki",
            Hat::Trojan => "Trojan",
            Hat::Unicorn => "Unicorn",
            Hat::Wizard => "Wizard",
            Hat::Pumpkin => "Pumpkin",
            Hat::PirateBandana => "PirateBandana",
            Hat::Cossack => "Cossack",
            Hat::FlowerPot => "FlowerPot",
            Hat::Balloon => "Balloon",
            Hat::BirthdayCake => "BirthdayCake",
            Hat::VintageBaseballCap => "VintageBaseballCap",
            Hat::BowlingPin => "BowlingPin",
            Hat::Officer2 => "Officer2",
            Hat::FirefighterHelmet => "FirefighterHelmet",
            Hat::Graduation => "Graduation",
            Hat::Lampshade => "Lampshade",
            Hat::Mariachi => "Mariachi",
            Hat::PaperFastFood => "PaperFastFood",
            Hat::Pilgrim => "Pilgrim",
            Hat::PoliceSiren => "PoliceSiren",
            Hat::PurpleFedora => "PurpleFedora",
            Hat::Archer => "Archer",
            Hat::Safari => "Safari",
            Hat::Sailor => "Sailor",
            Hat::Dancer => "Dancer",
            Hat::TrafficCone => "TrafficCone",
            Hat::Turban => "Turban",
            Hat::BattleHelmet => "BattleHelmet",
            Hat::BottleCap => "BottleCap",
            Hat::Carrot => "Carrot",
            Hat::Elf => "Elf",
            Hat::Fishing => "Fishing",
            Hat::Future => "Future",
            Hat::Nefertiti => "Nefertiti",
            Hat::Pants => "Pants",
            Hat::Princess => "Princess",
            Hat::ToySoldier => "ToySoldier",
            Hat::Trucker => "Trucker",
            Hat::Umbrella => "Umbrella",
            Hat::Showtime => "Showtime",
            Hat::Caesar => "Caesar",
            Hat::FlowerFairy => "FlowerFairy",
            Hat::Funnel => "Funnel",
            Hat::Scrumshanks => "Scrumshanks",
            Hat::Biter => "Biter",
            Hat::Atom => "Atom",
            Hat::Sombrero => "Sombrero",
            Hat::Rasta => "Rasta",
            Hat::Kufi => "Kufi",
            Hat::KnightHelm => "KnightHelm",
            Hat::DanglingCarrot => "DanglingCarrot",
            Hat::BronzeTopHat => "BronzeTopHat",
            Hat::SilverTopHat => "SilverTopHat",
            Hat::GoldTopHat => "GoldTopHat",
            Hat::Rain => "Rain",
            Hat::SnorkelingMask => "SnorkelingMask",
            Hat::Greeble => "Greeble",
            Hat::Volcano => "Volcano",
            Hat::Boater => "Boater",
            Hat::Stone => "Stone",
            Hat::Stovepipe => "Stovepipe",
            Hat::Boonie => "Boonie",
            Hat::Sawblade => "Sawblade",
            Hat::SunBonnet => "SunBonnet",
            Hat::Gaucho => "Gaucho",
            Hat::Roundlet => "Roundlet",
            Hat::Capuchon => "Capuchon",
            Hat::Tricorn => "Tricorn",
            Hat::FeatheredHeaddress => "FeatheredHeaddress",
            Hat::BearskinCap => "BearskinCap",
            Hat::Fishbone => "Fishbone",
            Hat::SkiCap => "SkiCap",
            Hat::CrownOfFrost => "CrownOfFrost",
            Hat::FourWinds => "FourWinds",
            Hat::Beacon => "Beacon",
            Hat::FlowerGarland => "FlowerGarland",
            Hat::TreeBranch => "TreeBranch",
            Hat::AviatorsCap => "AviatorsCap",
            Hat::Asteroid => "Asteroid",
            Hat::Crystal => "Crystal",
            Hat::CreepyHelm => "CreepyHelm",
            Hat::FancyRibbon => "FancyRibbon",
            Hat::DeelyBoppers => "DeelyBoppers",
            Hat::BeanieCap => "BeanieCap",
            Hat::Leprechaun => "Leprechaun",
            Hat::Shark => "Shark",
            Hat::LifePreserver => "LifePreserver",
            Hat::GlitteringTiara => "GlitteringTiara",
            Hat::GreatHelm => "GreatHelm",
            Hat::SpaceHelmet => "SpaceHelmet",
            Hat::UFO => "UFO",
            Hat::WhirlwindDiadem => "WhirlwindDiadem",
            Hat::ObsidianHelm => "ObsidianHelm",
            Hat::Lilypad => "Lilypad",
            Hat::CrownOfFlames => "CrownOfFlames",
            Hat::RunicHeadband => "RunicHeadband",
            Hat::Clockwork => "Clockwork",
            Hat::Cactus => "Cactus",
            Hat::SkullHelm => "SkullHelm",
            Hat::Gloop => "Gloop",
            Hat::Puma => "Puma",
            Hat::Elephant => "Elephant",
            Hat::TigerSkin => "TigerSkin",
            Hat::TeethTop => "TeethTop",
            Hat::Turkey => "Turkey",
            Hat::Afro => "Afro",
            Hat::BaconBandana => "BaconBandana",
            Hat::AwesomeHat => "AwesomeHat",
            Hat::CardShark => "CardShark",
            Hat::EasterTriggerHappy => "EasterTriggerHappy",
            Hat::HolidayBumbleBlast => "HolidayBumbleBlast",
            Hat::SoccerCountdown => "SoccerCountdown",
            Hat::Beetle => "Beetle",
            Hat::Brain => "Brain",
            Hat::Brainiac => "Brainiac",
            Hat::Bucket => "Bucket",
            Hat::Cactus02 => "Cactus02",
            Hat::Fan => "Fan",
            Hat::Chinese => "Chinese",
            Hat::Clown => "Clown",
            Hat::ClownBowler => "ClownBowler",
            Hat::Colander => "Colander",
            Hat::Kepi => "Kepi",
            Hat::Cornucopia => "Cornucopia",
            Hat::Cubano => "Cubano",
            Hat::Cycling => "Cycling",
            Hat::DaisyCrown => "DaisyCrown",
            Hat::Skull => "Skull",
            Hat::DundeeSlouch => "DundeeSlouch",
            Hat::ElfMini => "ElfMini",
            Hat::Castro => "Castro",
            Hat::Garrison => "Garrison",
            Hat::Gondolier => "Gondolier",
            Hat::Hunting => "Hunting",
            Hat::Juicer => "Juicer",
            Hat::Kokoshnik => "Kokoshnik",
            Hat::Medic => "Medic",
            Hat::Melon => "Melon",
            Hat::Mountie => "Mountie",
            Hat::Nurse => "Nurse",
            Hat::Palm => "Palm",
            Hat::Paperboy => "Paperboy",
            Hat::ParrotRoosting => "ParrotRoosting",
            Hat::Projector => "Projector",
            Hat::Pot02 => "Pot02",
            Hat::Radar => "Radar",
            Hat::Tiara => "Tiara",
            Hat::RubberGlove => "RubberGlove",
            Hat::Rugby => "Rugby",
            Hat::SharkFin => "SharkFin",
            Hat::Sherlock => "Sherlock",
            Hat::Shower => "Shower",
            Hat::Bobby => "Bobby",
            Hat::Hedgehog => "Hedgehog",
            Hat::Steampunk => "Steampunk",
            Hat::Stewardess => "Stewardess",
            Hat::SundayFancy => "SundayFancy",
            Hat::Tibet => "Tibet",
            Hat::Trash => "Trash",
            Hat::Turtle => "Turtle",
            Hat::UFO02 => "UFO02",
            Hat::Vespa => "Vespa",
            Hat::Volcano02 => "Volcano02",
            Hat::WaterBallet => "WaterBallet",
            Hat::WilliamTell => "WilliamTell",
            Hat::Zulu => "Zulu",
            Hat::RudeBoyChecker => "RudeBoyChecker",
            Hat::PorkPieChecker => "PorkPieChecker",
            Hat::AlarmClock => "AlarmClock",
            Hat::Armadillo => "Armadillo",
            Hat::BearTrap => "BearTrap",
            Hat::Croissant => "Croissant",
            Hat::WeatherVane => "WeatherVane",
            Hat::Rainbow => "Rainbow",
            Hat::EyeOfKaos => "EyeOfKaos",
            Hat::BatEars => "BatEars",
            Hat::Lightbulb => "Lightbulb",
            Hat::Fireflies => "Fireflies",
            Hat::ShadowGhost => "ShadowGhost",
            Hat::Lighthouse => "Lighthouse",
            Hat::TinFoil => "TinFoil",
            Hat::NightCap => "NightCap",
            Hat::Storm => "Storm",
            Hat::KnightmareGold => "KnightmareGold",
            Hat::Duck => "Duck",
            Hat::Pyramid => "Pyramid",
            Hat::Windmill => "Windmill",
            Hat::Wizard02 => "Wizard02",
            Hat::Confectioner => "Confectioner",
            Hat::Eggshell => "Eggshell",
            Hat::Candle => "Candle",
            Hat::HelmDark => "HelmDark",
            Hat::Orbit => "Orbit",
            Hat::Bellhop => "Bellhop",
            Hat::KnightmareBronze => "KnightmareBronze",
            Hat::KnightmareSilver => "KnightmareSilver",
            Hat::Raver => "Raver",
            Hat::Shire => "Shire",
            Hat::Mongol => "Mongol",
            Hat::FishermanSlicker => "FishermanSlicker",
            Hat::MedievalBard => "MedievalBard",
            Hat::Wooden => "Wooden",
            Hat::Carnival => "Carnival",
            Hat::Coconut => "Coconut",
            Hat::Wilikin => "Wilikin",
            Hat::Frostfest => "Frostfest",
            Hat::Molekin => "Molekin",
            Hat::Sheepwrecked => "Sheepwrecked",
            Hat::OldRuins => "OldRuins",
            Hat::Oracle => "Oracle",
            Hat::Offset2015 => "Offset2015",
            Hat::DiveBomber => "DiveBomber",
            Hat::SeaShadow => "SeaShadow",
            Hat::BurnCycle => "BurnCycle",
            Hat::ReefRipper => "ReefRipper",
            Hat::JetStream => "JetStream",
            Hat::SodaSkimmer => "SodaSkimmer",
            Hat::TombBuggy => "TombBuggy",
            Hat::StealthStinger => "StealthStinger",
            Hat::SharkTank => "SharkTank",
            Hat::GoldRusher => "GoldRusher",
            Hat::SplatterSplasher => "SplatterSplasher",
            Hat::ThumpTruck => "ThumpTruck",
            Hat::BuzzWing => "BuzzWing",
            Hat::ShieldStriker => "ShieldStriker",
            Hat::SunRunner => "SunRunner",
            Hat::HotStreak => "HotStreak",
            Hat::SkySlicer => "SkySlicer",
            Hat::CryptCrusher => "CryptCrusher",
            Hat::Mags => "Mags",
            Hat::KaosCrown => "KaosCrown",
            Hat::EonHelm => "EonHelm",
        }
    }

    /// The name of this value, as it is written here.
    pub fn name(self) -> (r: &'static str)
        ensures
            r@ == self.spec_name()@,
    {
        match self {
            Hat::NoHat => "None",
            Hat::Army => "Army",
            Hat::French => "French",
            Hat::Goggles => "Goggles",
            Hat::Mining => "Mining",
            Hat::Officer => "Officer",
            Hat::Pirate => "Pirate",
            Hat::Propeller => "Propeller",
            Hat::Raccoon => "Raccoon",
            Hat::Straw => "Straw",
            Hat::Sunday => "Sunday",
            Hat::Tophat => "Tophat",
            Hat::Viking => "Viking",
            Hat::WorldWarI => "WorldWarI",
            Hat::Anvil => "Anvil",
            Hat::Beret => "Beret",
            Hat::BirthdayCap => "BirthdayCap",
            Hat::Bonehead => "Bonehead",
            Hat::Bowler => "Bowler",
            Hat::Bunny => "Bunny",
            Hat::Carmen => "Carmen",
            Hat::Chef => "Chef",
            Hat::Cowboy => "Cowboy",
            Hat::CrazyHair => "CrazyHair",
            Hat::Crown => "Crown",
            Hat::DevilHorns => "DevilHorns",
            Hat::Eyeball => "Eyeball",
            Hat::Fez => "Fez",
            Hat::Halo => "Halo",
            Hat::Jester => "Jester",
            Hat::Mercury => "Mercury",
            Hat::Moose => "Moose",
            Hat::Plunger => "Plunger",
            Hat::Pot => "Pot",
            Hat::Rocket => "Rocket",
            Hat::Santa => "Santa",
            Hat::Tiki => "Tiki",
            Hat::Trojan => "Trojan",
            Hat::Unicorn => "Unicorn",
            Hat::Wizard => "Wizard",
            Hat::Pumpkin => "Pumpkin",
            Hat::PirateBandana => "PirateBandana",
            Hat::Cossack => "Cossack",
            Hat::FlowerPot => "FlowerPot",
            Hat::Balloon => "Balloon",
            Hat::BirthdayCake => "BirthdayCake",
            Hat::VintageBaseballCap => "VintageBaseballCap",
            Hat::BowlingPin => "BowlingPin",
            Hat::Officer2 => "Officer2",
            Hat::FirefighterHelmet => "FirefighterHelmet",
            Hat::Graduation => "Graduation",
            Hat::Lampshade => "Lampshade",
            Hat::Mariachi => "Mariachi",
            Hat::PaperFastFood => "PaperFastFood",
            Hat::Pilgrim => "Pilgrim",
            Hat::PoliceSiren => "PoliceSiren",
            Hat::PurpleFedora => "PurpleFedora",
            Hat::Archer => "Archer",
            Hat::Safari => "Safari",
            Hat::Sailor => "Sailor",
            Hat::Dancer => "Dancer",
            Hat::TrafficCone => "TrafficCone",
            Hat::Turban => "Turban",
            Hat::BattleHelmet => "BattleHelmet",
            Hat::BottleCap => "BottleCap",
            Hat::Carrot => "Carrot",
            Hat::Elf => "Elf",
            Hat::Fishing => "Fishing",
            Hat::Future => "Future",
            Hat::Nefertiti => "Nefertiti",
            Hat::Pants => "Pants",
            Hat::Princess => "Princess",
            Hat::ToySoldier => "ToySoldier",
            Hat::Trucker => "Trucker",
            Hat::Umbrella => "Umbrella",
            Hat::Showtime => "Showtime",
            Hat::Caesar => "Caesar",
            Hat::FlowerFairy => "FlowerFairy",
            Hat::Funnel => "Funnel",
            Hat::Scrumshanks => "Scrumshanks",
            Hat::Biter => "Biter",
            Hat::Atom => "Atom",
            Hat::Sombrero => "Sombrero",
            Hat::Rasta => "Rasta",
            Hat::Kufi => "Kufi",
            Hat::KnightHelm => "KnightHelm",
            Hat::DanglingCarrot => "DanglingCarrot",
            Hat::BronzeTopHat => "BronzeTopHat",
            Hat::SilverTopHat => "SilverTopHat",
            Hat::GoldTopHat => "GoldTopHat",
            Hat::Rain => "Rain",
            Hat::SnorkelingMask => "SnorkelingMask",
            Hat::Greeble => "Greeble",
            Hat::Volcano => "Volcano",
            Hat::Boater => "Boater",
            Hat::Stone => "Stone",
            Hat::Stovepipe => "Stovepipe",
            Hat::Boonie => "Boonie",
            Hat::Sawblade => "Sawblade",
            Hat::SunBonnet => "SunBonnet",
            Hat::Gaucho => "Gaucho",
            Hat::Roundlet => "Roundlet",
            Hat::Capuchon => "Capuchon",
            Hat::Tricorn => "Tricorn",
            Hat::FeatheredHeaddress => "FeatheredHeaddress",
            Hat::BearskinCap => "BearskinCap",
            Hat::Fishbone => "Fishbone",
            Hat::SkiCap => "SkiCap",
            Hat::CrownOfFrost => "CrownOfFrost",
            Hat::FourWinds => "FourWinds",
            Hat::Beacon => "Beacon",
            Hat::FlowerGarland => "FlowerGarland",
            Hat::TreeBranch => "TreeBranch",
            Hat::AviatorsCap => "AviatorsCap",
            Hat::Asteroid => "Asteroid",
            Hat::Crystal => "Crystal",
            Hat::CreepyHelm => "CreepyHelm",
            Hat::FancyRibbon => "FancyRibbon",
            Hat::DeelyBoppers => "DeelyBoppers",
            Hat::BeanieCap => "BeanieCap",
            Hat::Leprechaun => "Leprechaun",
            Hat::Shark => "Shark",
            Hat::LifePreserver => "LifePreserver",
            Hat::GlitteringTiara => "GlitteringTiara",
            Hat::GreatHelm => "GreatHelm",
            Hat::SpaceHelmet => "SpaceHelmet",
            Hat::UFO => "UFO",
            Hat::WhirlwindDiadem => "WhirlwindDiadem",
            Hat::ObsidianHelm => "ObsidianHelm",
            Hat::Lilypad => "Lilypad",
            Hat::CrownOfFlames => "CrownOfFlames",
            Hat::RunicHeadband => "RunicHeadband",
            Hat::Clockwork => "Clockwork",
            Hat::Cactus => "Cactus",
            Hat::SkullHelm => "SkullHelm",
            Hat::Gloop => "Gloop",
            Hat::Puma => "Puma",
            Hat::Elephant => "Elephant",
            Hat::TigerSkin => "TigerSkin",
            Hat::TeethTop => "TeethTop",
            Hat::Turkey => "Turkey",
            Hat::Afro => "Afro",
            Hat::BaconBandana => "BaconBandana",
            Hat::AwesomeHat => "AwesomeHat",
            Hat::CardShark => "CardShark",
            Hat::EasterTriggerHappy => "EasterTriggerHappy",
            Hat::HolidayBumbleBlast => "HolidayBumbleBlast",
            Hat::SoccerCountdown => "SoccerCountdown",
            Hat::Beetle => "Beetle",
            Hat::Brain => "Brain",
            Hat::Brainiac => "Brainiac",
            Hat::Bucket => "Bucket",
            Hat::Cactus02 => "Cactus02",
            Hat::Fan => "Fan",
            Hat::Chinese => "Chinese",
            Hat::Clown => "Clown",
            Hat::ClownBowler => "ClownBowler",
            Hat::Colander => "Colander",
            Hat::Kepi => "Kepi",
            Hat::Cornucopia => "Cornucopia",
            Hat::Cubano => "Cubano",
            Hat::Cycling => "Cycling",
            Hat::DaisyCrown => "DaisyCrown",
            Hat::Skull => "Skull",
            Hat::DundeeSlouch => "DundeeSlouch",
            Hat::ElfMini => "ElfMini",
            Hat::Castro => "Castro",
            Hat::Garrison => "Garrison",
            Hat::Gondolier => "Gondolier",
            Hat::Hunting => "Hunting",
            Hat::Juicer => "Juicer",
            Hat::Kokoshnik => "Kokoshnik",
            Hat::Medic => "Medic",
            Hat::Melon => "Melon",
            Hat::Mountie => "Mountie",
            Hat::Nurse => "Nurse",
            Hat::Palm => "Palm",
            Hat::Paperboy => "Paperboy",
            Hat::ParrotRoosting => "ParrotRoosting",
            Hat::Projector => "Projector",
            Hat::Pot02 => "Pot02",
            Hat::Radar => "Radar",
            Hat::Tiara => "Tiara",
            Hat::RubberGlove => "RubberGlove",
            Hat::Rugby => "Rugby",
            Hat::SharkFin => "SharkFin",
            Hat::Sherlock => "Sherlock",
            Hat::Shower => "Shower",
            Hat::Bobby => "Bobby",
            Hat::Hedgehog => "Hedgehog",
            Hat::Steampunk => "Steampunk",
            Hat::Stewardess => "Stewardess",
            Hat::SundayFancy => "SundayFancy",
            Hat::Tibet => "Tibet",
            Hat::Trash => "Trash",
            Hat::Turtle => "Turtle",
            Hat::UFO02 => "UFO02",
            Hat::Vespa => "Vespa",
            Hat::Volcano02 => "Volcano02",
            Hat::WaterBallet => "WaterBallet",
            Hat::WilliamTell => "WilliamTell",
            Hat::Zulu => "Zulu",
            Hat::RudeBoyChecker => "RudeBoyChecker",
            Hat::PorkPieChecker => "PorkPieChecker",
            Hat::AlarmClock => "AlarmClock",
            Hat::Armadillo => "Armadillo",
            Hat::BearTrap => "BearTrap",
            Hat::Croissant => "Croissant",
            Hat::WeatherVane => "WeatherVane",
            Hat::Rainbow => "Rainbow",
            Hat::EyeOfKaos => "EyeOfKaos",
            Hat::BatEars => "BatEars",
            Hat::Lightbulb => "Lightbulb",
            Hat::Fireflies => "Fireflies",
            Hat::ShadowGhost => "ShadowGhost",
            Hat::Lighthouse => "Lighthouse",
            Hat::TinFoil => "TinFoil",
            Hat::NightCap => "NightCap",
            Hat::Storm => "Storm",
            Hat::KnightmareGold => "KnightmareGold",
            Hat::Duck => "Duck",
            Hat::Pyramid => "Pyramid",
            Hat::Windmill => "Windmill",
            Hat::Wizard02 => "Wizard02",
            Hat::Confectioner => "Confectioner",
            Hat::Eggshell => "Eggshell",
            Hat::Candle => "Candle",
            Hat::HelmDark => "HelmDark",
            Hat::Orbit => "Orbit",
            Hat::Bellhop => "Bellhop",
            Hat::KnightmareBronze => "KnightmareBronze",
            Hat::KnightmareSilver => "KnightmareSilver",
            Hat::Raver => "Raver",
            Hat::Shire => "Shire",
            Hat::Mongol => "Mongol",
            Hat::FishermanSlicker => "FishermanSlicker",
            Hat::MedievalBard => "MedievalBard",
            Hat::Wooden => "Wooden",
            Hat::Carnival => "Carnival",
            Hat::Coconut => "Coconut",
            Hat::Wilikin => "Wilikin",
            Hat::Frostfest => "Frostfest",
            Hat::Molekin => "Molekin",
            Hat::Sheepwrecked => "Sheepwrecked",
            Hat::OldRuins => "OldRuins",
            Hat::Oracle => "Oracle",
            Hat::Offset2015 => "Offset2015",
            Hat::DiveBomber => "DiveBomber",
            Hat::SeaShadow => "SeaShadow",
            Hat::BurnCycle => "BurnCycle",
            Hat::ReefRipper => "ReefRipper",
            Hat::JetStream => "JetStream",
            Hat::SodaSkimmer => "SodaSkimmer",
            Hat::TombBuggy => "TombBuggy",
            Hat::StealthStinger => "StealthStinger",
            Hat::SharkTank => "SharkTank",
            Hat::GoldRusher => "GoldRusher",
            Hat::SplatterSplasher => "SplatterSplasher",
            Hat::ThumpTruck => "ThumpTruck",
            Hat::BuzzWing => "BuzzWing",
            Hat::ShieldStriker => "ShieldStriker",
            Hat::SunRunner => "SunRunner",
            Hat::HotStreak => "HotStreak",
            Hat::SkySlicer => "SkySlicer",
            Hat::CryptCrusher => "CryptCrusher",
            Hat::Mags => "Mags",
            Hat::KaosCrown => "KaosCrown",
            Hat::EonHelm => "EonHelm",
        }
    }

    /// Whether the catalogue names one of the hats by `id`.
    pub open spec fn known(id: u16) -> bool {
        exists|c: Hat| c.spec_id() == id
    }

    /// The value that `id` stands for, where the catalogue names one.
    pub open spec fn lookup(id: u16) -> Option<Hat> {
        if Hat::known(id) {
            Some(choose|c: Hat| c.spec_id() == id)
        } else {
            None
        }
    }

    /// The place of this value in the catalogue, counted from zero.
    pub open spec fn ordinal(self) -> int {
        match self {
            Hat::NoHat => 0,
            Hat::Army => 1,
            Hat::French => 2,
            Hat::Goggles => 3,
            Hat::Mining => 4,
            Hat::Officer => 5,
            Hat::Pirate => 6,
            Hat::Propeller => 7,
            Hat::Raccoon => 8,
            Hat::Straw => 9,
            Hat::Sunday => 10,
            Hat::Tophat => 11,
            Hat::Viking => 12,
            Hat::WorldWarI => 13,
            Hat::Anvil => 14,
            Hat::Beret => 15,
            Hat::BirthdayCap => 16,
            Hat::Bonehead => 17,
            Hat::Bowler => 18,
            Hat::Bunny => 19,
            Hat::Carmen => 20,
            Hat::Chef => 21,
            Hat::Cowboy => 22,
            Hat::CrazyHair => 23,
            Hat::Crown => 24,
            Hat::DevilHorns => 25,
            Hat::Eyeball => 26,
            Hat::Fez => 27,
            Hat::Halo => 28,
            Hat::Jester => 29,
            Hat::Mercury => 30,
            Hat::Moose => 31,
            Hat::Plunger => 32,
            Hat::Pot => 33,
            Hat::Rocket => 34,
            Hat::Santa => 35,
            Hat::Tiki => 36,
            Hat::Trojan => 37,
            Hat::Unicorn => 38,
            Hat::Wizard => 39,
            Hat::Pumpkin => 40,
            Hat::PirateBandana => 41,
            Hat::Cossack => 42,
            Hat::FlowerPot => 43,
            Hat::Balloon => 44,
            Hat::BirthdayCake => 45,
            Hat::VintageBaseballCap => 46,
            Hat::BowlingPin => 47,
            Hat::Officer2 => 48,
            Hat::FirefighterHelmet => 49,
            Hat::Graduation => 50,
            Hat::Lampshade => 51,
            Hat::Mariachi => 52,
            Hat::PaperFastFood => 53,
            Hat::Pilgrim => 54,
            Hat::PoliceSiren => 55,
            Hat::PurpleFedora => 56,
            Hat::Archer => 57,
            Hat::Safari => 58,
            Hat::Sailor => 59,
            Hat::Dancer => 60,
            Hat::TrafficCone => 61,
            Hat::Turban => 62,
            Hat::BattleHelmet => 63,
            Hat::BottleCap => 64,
            Hat::Carrot => 65,
            Hat::Elf => 66,
            Hat::Fishing => 67,
            Hat::Future => 68,
            Hat::Nefertiti => 69,
            Hat::Pants => 70,
            Hat::Princess => 71,
            Hat::ToySoldier => 72,
            Hat::Trucker => 73,
            Hat::Umbrella => 74,
            Hat::Showtime => 75,
            Hat::Caesar => 76,
            Hat::FlowerFairy => 77,
            Hat::Funnel => 78,
            Hat::Scrumshanks => 79,
            Hat::Biter => 80,
            Hat::Atom => 81,
            Hat::Sombrero => 82,
            Hat::Rasta => 83,
            Hat::Kufi => 84,
            Hat::KnightHelm => 85,
            Hat::DanglingCarrot => 86,
            Hat::BronzeTopHat => 87,
            Hat::SilverTopHat => 88,
            Hat::GoldTopHat => 89,
            Hat::Rain => 90,
            Hat::SnorkelingMask => 91,
            Hat::Greeble => 92,
            Hat::Volcano => 93,
            Hat::Boater => 94,
            Hat::Stone => 95,
            Hat::Stovepipe => 96,
            Hat::Boonie => 97,
            Hat::Sawblade => 98,
            Hat::SunBonnet => 99,
            Hat::Gaucho => 100,
            Hat::Roundlet => 101,
            Hat::Capuchon => 102,
            Hat::Tricorn => 103,
            Hat::FeatheredHeaddress => 104,
            Hat::BearskinCap => 105,
            Hat::Fishbone => 106,
            Hat::SkiCap => 107,
            Hat::CrownOfFrost => 108,
            Hat::FourWinds => 109,
            Hat::Beacon => 110,
            Hat::FlowerGarland => 111,
            Hat::TreeBranch => 112,
            Hat::AviatorsCap => 113,
            Hat::Asteroid => 114,
            Hat::Crystal => 115,
            Hat::CreepyHelm => 116,
            Hat::FancyRibbon => 117,
            Hat::DeelyBoppers => 118,
            Hat::BeanieCap => 119,
            Hat::Leprechaun => 120,
            Hat::Shark => 121,
            Hat::LifePreserver => 122,
            Hat::GlitteringTiara => 123,
            Hat::GreatHelm => 124,
            Hat::SpaceHelmet => 125,
            Hat::UFO => 126,
            Hat::WhirlwindDiadem => 127,
            Hat::ObsidianHelm => 128,
            Hat::Lilypad => 129,
            Hat::CrownOfFlames => 130,
            Hat::RunicHeadband => 131,
            Hat::Clockwork => 132,
            Hat::Cactus => 133,
            Hat::SkullHelm => 134,
            Hat::Gloop => 135,
            Hat::Puma => 136,
            Hat::Elephant => 137,
            Hat::TigerSkin => 138,
            Hat::TeethTop => 139,
            Hat::Turkey => 140,
            Hat::Afro => 141,
            Hat::BaconBandana => 142,
            Hat::AwesomeHat => 143,
            Hat::CardShark => 144,
            Hat::EasterTriggerHappy => 145,
            Hat::HolidayBumbleBlast => 146,
            Hat::SoccerCountdown => 147,
            Hat::Beetle => 148,
            Hat::Brain => 149,
            Hat::Brainiac => 150,
            Hat::Bucket => 151,
            Hat::Cactus02 => 152,
            Hat::Fan => 153,
            Hat::Chinese => 154,
            Hat::Clown => 155,
            Hat::ClownBowler => 156,
            Hat::Colander => 157,
            Hat::Kepi => 158,
            Hat::Cornucopia => 159,
            Hat::Cubano => 160,
            Hat::Cycling => 161,
            Hat::DaisyCrown => 162,
            Hat::Skull => 163,
            Hat::DundeeSlouch => 164,
            Hat::ElfMini => 165,
            Hat::Castro => 166,
            Hat::Garrison => 167,
            Hat::Gondolier => 168,
            Hat::Hunting => 169,
            Hat::Juicer => 170,
            Hat::Kokoshnik => 171,
            Hat::Medic => 172,
            Hat::Melon => 173,
            Hat::Mountie => 174,
            Hat::Nurse => 175,
            Hat::Palm => 176,
            Hat::Paperboy => 177,
            Hat::ParrotRoosting => 178,
            Hat::Projector => 179,
            Hat::Pot02 => 180,
            Hat::Radar => 181,
            Hat::Tiara => 182,
            Hat::RubberGlove => 183,
            Hat::Rugby => 184,
            Hat::SharkFin => 185,
            Hat::Sherlock => 186,
            Hat::Shower => 187,
            Hat::Bobby => 188,
            Hat::Hedgehog => 189,
            Hat::Steampunk => 190,
            Hat::Stewardess => 191,
            Hat::SundayFancy => 192,
            Hat::Tibet => 193,
            Hat::Trash => 194,
            Hat::Turtle => 195,
            Hat::UFO02 => 196,
            Hat::Vespa => 197,
            Hat::Volcano02 => 198,
            Hat::WaterBallet => 199,
            Hat::WilliamTell => 200,
            Hat::Zulu => 201,
            Hat::RudeBoyChecker => 202,
            Hat::PorkPieChecker => 203,
            Hat::AlarmClock => 204,
            Hat::Armadillo => 205,
            Hat::BearTrap => 206,
            Hat::Croissant => 207,
            Hat::WeatherVane => 208,
            Hat::Rainbow => 209,
            Hat::EyeOfKaos => 210,
            Hat::BatEars => 211,
            Hat::Lightbulb => 212,
            Hat::Fireflies => 213,
            Hat::ShadowGhost => 214,
            Hat::Lighthouse => 215,
            Hat::TinFoil => 216,
            Hat::NightCap => 217,
            Hat::Storm => 218,
            Hat::KnightmareGold => 219,
            Hat::Duck => 220,
            Hat::Pyramid => 221,
            Hat::Windmill => 222,
            Hat::Wizard02 => 223,
            Hat::Confectioner => 224,
            Hat::Eggshell => 225,
            Hat::Candle => 226,
            Hat::HelmDark => 227,
            Hat::Orbit => 228,
            Hat::Bellhop => 229,
            Hat::KnightmareBronze => 230,
            Hat::KnightmareSilver => 231,
            Hat::Raver => 232,
            Hat::Shire => 233,
            Hat::Mongol => 234,
            Hat::FishermanSlicker => 235,
            Hat::MedievalBard => 236,
            Hat::Wooden => 237,
            Hat::Carnival => 238,
            Hat::Coconut => 239,
            Hat::Wilikin => 240,
            Hat::Frostfest => 241,
            Hat::Molekin => 242,
            Hat::Sheepwrecked => 243,
            Hat::OldRuins => 244,
            Hat::Oracle => 245,
            Hat::Offset2015 => 246,
            Hat::DiveBomber => 247,
            Hat::SeaShadow => 248,
            Hat::BurnCycle => 249,
            Hat::ReefRipper => 250,
            Hat::JetStream => 251,
            Hat::SodaSkimmer => 252,
            Hat::TombBuggy => 253,
            Hat::StealthStinger => 254,
            Hat::SharkTank => 255,
            Hat::GoldRusher => 256,
            Hat::SplatterSplasher => 257,
            Hat::ThumpTruck => 258,
            Hat::BuzzWing => 259,
            Hat::ShieldStriker => 260,
            Hat::SunRunner => 261,
            Hat::HotStreak => 262,
            Hat::SkySlicer => 263,
            Hat::CryptCrusher => 264,
            Hat::Mags => 265,
            Hat::KaosCrown => 266,
            Hat::EonHelm => 267,
        }
    }

    /// Every value of the catalogue, once each, in catalogue order.
    pub fn all() -> (r: Vec<Hat>)
        ensures
            r@.len() == Hat::COUNT,
            forall|c: Hat| 0 <= c.ordinal() < r@.len() && r@[#[trigger] c.ordinal()] == c,
    {
        let r = vec![
            Hat::NoHat,
            Hat::Army,
            Hat::French,
            Hat::Goggles,
            Hat::Mining,
            Hat::Officer,
            Hat::Pirate,
            Hat::Propeller,
            Hat::Raccoon,
            Hat::Straw,
            Hat::Sunday,
            Hat::Tophat,
            Hat::Viking,
            Hat::WorldWarI,
            Hat::Anvil,
            Hat::Beret,
            Hat::BirthdayCap,
            Hat::Bonehead,
            Hat::Bowler,
            Hat::Bunny,
            Hat::Carmen,
            Hat::Chef,
            Hat::Cowboy,
            Hat::CrazyHair,
            Hat::Crown,
            Hat::DevilHorns,
            Hat::Eyeball,
            Hat::Fez,
            Hat::Halo,
            Hat::Jester,
            Hat::Mercury,
            Hat::Moose,
            Hat::Plunger,
            Hat::Pot,
            Hat::Rocket,
            Hat::Santa,
            Hat::Tiki,
            Hat::Trojan,
            Hat::Unicorn,
            Hat::Wizard,
            Hat::Pumpkin,
            Hat::PirateBandana,
            Hat::Cossack,
            Hat::FlowerPot,
            Hat::Balloon,
            Hat::BirthdayCake,
            Hat::VintageBaseballCap,
            Hat::BowlingPin,
            Hat::Officer2,
            Hat::FirefighterHelmet,
            Hat::Graduation,
            Hat::Lampshade,
            Hat::Mariachi,
            Hat::PaperFastFood,
            Hat::Pilgrim,
            Hat::PoliceSiren,
            Hat::PurpleFedora,
            Hat::Archer,
            Hat::Safari,
            Hat::Sailor,
            Hat::Dancer,
            Hat::TrafficCone,
            Hat::Turban,
            Hat::BattleHelmet,
            Hat::BottleCap,
            Hat::Carrot,
            Hat::Elf,
            Hat::Fishing,
            Hat::Future,
            Hat::Nefertiti,
            Hat::Pants,
            Hat::Princess,
            Hat::ToySoldier,
            Hat::Trucker,
            Hat::Umbrella,
            Hat::Showtime,
            Hat::Caesar,
            Hat::FlowerFairy,
            Hat::Funnel,
            Hat::Scrumshanks,
            Hat::Biter,
            Hat::Atom,
            Hat::Sombrero,
            Hat::Rasta,
            Hat::Kufi,
            Hat::KnightHelm,
            Hat::DanglingCarrot,
            Hat::BronzeTopHat,
            Hat::SilverTopHat,
            Hat::GoldTopHat,
            Hat::Rain,
            Hat::SnorkelingMask,
            Hat::Greeble,
            Hat::Volcano,
            Hat::Boater,
            Hat::Stone,
            Hat::Stovepipe,
            Hat::Boonie,
            Hat::Sawblade,
            Hat::SunBonnet,
            Hat::Gaucho,
            Hat::Roundlet,
            Hat::Capuchon,
            Hat::Tricorn,
            Hat::FeatheredHeaddress,
            Hat::BearskinCap,
            Hat::Fishbone,
            Hat::SkiCap,
            Hat::CrownOfFrost,
            Hat::FourWinds,
            Hat::Beacon,
            Hat::FlowerGarland,
            Hat::TreeBranch,
            Hat::AviatorsCap,
            Hat::Asteroid,
            Hat::Crystal,
            Hat::CreepyHelm,
            Hat::FancyRibbon,
            Hat::DeelyBoppers,
            Hat::BeanieCap,
            Hat::Leprechaun,
            Hat::Shark,
            Hat::LifePreserver,
            Hat::GlitteringTiara,
            Hat::GreatHelm,
            Hat::SpaceHelmet,
            Hat::UFO,
            Hat::WhirlwindDiadem,
            Hat::ObsidianHelm,
            Hat::Lilypad,
            Hat::CrownOfFlames,
            Hat::RunicHeadband,
            Hat::Clockwork,
            Hat::Cactus,
            Hat::SkullHelm,
            Hat::Gloop,
            Hat::Puma,
            Hat::Elephant,
            Hat::TigerSkin,
            Hat::TeethTop,
            Hat::Turkey,
            Hat::Afro,
            Hat::BaconBandana,
            Hat::AwesomeHat,
            Hat::CardShark,
            Hat::EasterTriggerHappy,
            Hat::HolidayBumbleBlast,
            Hat::SoccerCountdown,
            Hat::Beetle,
            Hat::Brain,
            Hat::Brainiac,
            Hat::Bucket,
            Hat::Cactus02,
            Hat::Fan,
            Hat::Chinese,
            Hat::Clown,
            Hat::ClownBowler,
            Hat::Colander,
            Hat::Kepi,
            Hat::Cornucopia,
            Hat::Cubano,
            Hat::Cycling,
            Hat::DaisyCrown,
            Hat::Skull,
            Hat::DundeeSlouch,
            Hat::ElfMini,
            Hat::Castro,
            Hat::Garrison,
            Hat::Gondolier,
            Hat::Hunting,
            Hat::Juicer,
            Hat::Kokoshnik,
            Hat::Medic,
            Hat::Melon,
            Hat::Mountie,
            Hat::Nurse,
            Hat::Palm,
            Hat::Paperboy,
            Hat::ParrotRoosting,
            Hat::Projector,
            Hat::Pot02,
            Hat::Radar,
            Hat::Tiara,
            Hat::RubberGlove,
            Hat::Rugby,
            Hat::SharkFin,
            Hat::Sherlock,
            Hat::Shower,
            Hat::Bobby,
            Hat::Hedgehog,
            Hat::Steampunk,
            Hat::Stewardess,
            Hat::SundayFancy,
            Hat::Tibet,
            Hat::Trash,
            Hat::Turtle,
            Hat::UFO02,
            Hat::Vespa,
            Hat::Volcano02,
            Hat::WaterBallet,
            Hat::WilliamTell,
            Hat::Zulu,
            Hat::RudeBoyChecker,
            Hat::PorkPieChecker,
            Hat::AlarmClock,
            Hat::Armadillo,
            Hat::BearTrap,
            Hat::Croissant,
            Hat::WeatherVane,
            Hat::Rainbow,
            Hat::EyeOfKaos,
            Hat::BatEars,
            Hat::Lightbulb,
            Hat::Fireflies,
            Hat::ShadowGhost,
            Hat::Lighthouse,
            Hat::TinFoil,
            Hat::NightCap,
            Hat::Storm,
            Hat::KnightmareGold,
            Hat::Duck,
            Hat::Pyramid,
            Hat::Windmill,
            Hat::Wizard02,
            Hat::Confectioner,
            Hat::Eggshell,
            Hat::Candle,
            Hat::HelmDark,
            Hat::Orbit,
            Hat::Bellhop,
            Hat::KnightmareBronze,
            Hat::KnightmareSilver,
            Hat::Raver,
            Hat::Shire,
            Hat::Mongol,
            Hat::FishermanSlicker,
            Hat::MedievalBard,
            Hat::Wooden,
            Hat::Carnival,
            Hat::Coconut,
            Hat::Wilikin,
            Hat::Frostfest,
            Hat::Molekin,
            Hat::Sheepwrecked,
            Hat::OldRuins,
            Hat::Oracle,
            Hat::Offset2015,
            Hat::DiveBomber,
            Hat::SeaShadow,
            Hat::BurnCycle,
            Hat::ReefRipper,
            Hat::JetStream,
            Hat::SodaSkimmer,
            Hat::TombBuggy,
            Hat::StealthStinger,
            Hat::SharkTank,
            Hat::GoldRusher,
            Hat::SplatterSplasher,
            Hat::ThumpTruck,
            Hat::BuzzWing,
            Hat::ShieldStriker,
            Hat::SunRunner,
            Hat::HotStreak,
            Hat::SkySlicer,
            Hat::CryptCrusher,
            Hat::Mags,
            Hat::KaosCrown,
            Hat::EonHelm,
        ];
        r
    }

    /// The catalogue as an index: each of the hats under its number.
    pub fn make_index() -> (m: HashMap<u16, Hat>)
        ensures
            forall|c: Hat| #[trigger] m@.contains_key(c.spec_id()) && m@[c.spec_id()] == c,
            forall|id: u16| #[trigger] m@.contains_key(id) ==> Hat::known(id),
    {
        broadcast use vstd::std_specs::hash::group_hash_axioms;

        let items = Hat::all();
        let mut m: HashMap<u16, Hat> = HashMap::new();
        let mut i: usize = 0;
        while i < items.len()
            invariant
                i <= items@.len(),
                forall|j: int|
                    0 <= j < i ==> #[trigger] m@.contains_key(items@[j].spec_id()) && m@[items@[j].spec_id()]
                        == items@[j],
                forall|id: u16| #[trigger] m@.contains_key(id) ==> Hat::known(id),
            decreases items@.len() - i,
        {
            let t = items[i];
            let ghost before = m@;
            m.insert(u16::from(t), t);
            proof {
                assert forall|j: int| 0 <= j < i + 1 implies #[trigger] m@.contains_key(
                    items@[j].spec_id(),
                ) && m@[items@[j].spec_id()] == items@[j] by {
                    if items@[j].spec_id() == t.spec_id() {
                        Hat::lemma_id_injective(items@[j], t);
                    } else {
                        assert(before.contains_key(items@[j].spec_id()));
                    }
                }
            }
            i += 1;
        }
        proof {
            assert forall|c: Hat| #[trigger] m@.contains_key(c.spec_id()) && m@[c.spec_id()] == c by {
                assert(items@[c.ordinal()] == c);
            }
        }
        m
    }

    /// Looks the number `id` up in the index of the catalogue.
    pub fn find(id: u16) -> (r: Option<Hat>)
        ensures
            r == Hat::lookup(id),
    {
        broadcast use vstd::std_specs::hash::group_hash_axioms;

        let index = Hat::make_index();
        match index.get(&id) {
            Some(c) => {
                proof {
                    let found = choose|d: Hat| d.spec_id() == id;
                    assert(index@[found.spec_id()] == found);
                }
                Some(*c)
            },
            None => {
                proof {
                    assert forall|c: Hat| c.spec_id() != id by {
                        assert(index@.contains_key(c.spec_id()));
                    }
                }
                None
            },
        }
    }

    /// Two values with the same number are the same value.
    pub proof fn lemma_id_injective(a: Hat, b: Hat)
        requires
            a.spec_id() == b.spec_id(),
        ensures
            a == b,
    {
    }

    /// Looking up the number of a value gives that value back.
    pub proof fn lemma_lookup_of_id(c: Hat)
        ensures
            Hat::lookup(c.spec_id()) == Some(c),
    {
        let found = choose|d: Hat| d.spec_id() == c.spec_id();
        Hat::lemma_id_injective(found, c);
    }
}

impl From<Hat> for u16 {
    fn from(value: Hat) -> (r: u16) {
        match value {
            Hat::NoHat => 0,
            Hat::Army => 1,
            Hat::French => 2,
            Hat::Goggles => 3,
            Hat::Mining => 4,
            Hat::Officer => 5,
            Hat::Pirate => 6,
            Hat::Propeller => 7,
            Hat::Raccoon => 8,
            Hat::Straw => 9,
            Hat::Sunday => 10,
            Hat::Tophat => 11,
            Hat::Viking => 12,
            Hat::WorldWarI => 13,
            Hat::Anvil => 14,
            Hat::Beret => 15,
            Hat::BirthdayCap => 16,
            Hat::Bonehead => 17,
            Hat::Bowler => 18,
            Hat::Bunny => 19,
            Hat::Carmen => 20,
            Hat::Chef => 21,
            Hat::Cowboy => 22,
            Hat::CrazyHair => 23,
            Hat::Crown => 24,
            Hat::DevilHorns => 25,
            Hat::Eyeball => 26,
            Hat::Fez => 27,
            Hat::Halo => 28,
            Hat::Jester => 29,
            Hat::Mercury => 30,
            Hat::Moose => 31,
            Hat::Plunger => 32,
            Hat::Pot => 33,
            Hat::Rocket => 34,
            Hat::Santa => 35,
            Hat::Tiki => 36,
            Hat::Trojan => 37,
            Hat::Unicorn => 38,
            Hat::Wizard => 39,
            Hat::Pumpkin => 40,
            Hat::PirateBandana => 41,
            Hat::Cossack => 42,
            Hat::FlowerPot => 43,
            Hat::Balloon => 44,
            Hat::BirthdayCake => 45,
            Hat::VintageBaseballCap => 46,
            Hat::BowlingPin => 48,
            Hat::Officer2 => 49,
            Hat::FirefighterHelmet => 50,
            Hat::Graduation => 51,
            Hat::Lampshade => 52,
            Hat::Mariachi => 53,
            Hat::PaperFastFood => 55,
            Hat::Pilgrim => 56,
            Hat::PoliceSiren => 57,
            Hat::PurpleFedora => 58,
            Hat::Archer => 59,
            Hat::Safari => 61,
            Hat::Sailor => 62,
            Hat::Dancer => 64,
            Hat::TrafficCone => 65,
            Hat::Turban => 66,
            Hat::BattleHelmet => 67,
            Hat::BottleCap => 68,
            Hat::Carrot => 70,
            Hat::Elf => 72,
            Hat::Fishing => 73,
            Hat::Future => 74,
            Hat::Nefertiti => 75,
            Hat::Pants => 77,
            Hat::Princess => 78,
            Hat::ToySoldier => 79,
            Hat::Trucker => 80,
            Hat::Umbrella => 81,
            Hat::Showtime => 82,
            Hat::Caesar => 83,
            Hat::FlowerFairy => 84,
            Hat::Funnel => 85,
            Hat::Scrumshanks => 86,
            Hat::Biter => 87,
            Hat::Atom => 88,
            Hat::Sombrero => 89,
            Hat::Rasta => 90,
            Hat::Kufi => 91,
            Hat::KnightHelm => 92,
            Hat::DanglingCarrot => 93,
            Hat::BronzeTopHat => 94,
            Hat::SilverTopHat => 95,
            Hat::GoldTopHat => 96,
            Hat::Rain => 97,
            Hat::SnorkelingMask => 98,
            Hat::Greeble => 99,
            Hat::Volcano => 100,
            Hat::Boater => 101,
            Hat::Stone => 102,
            Hat::Stovepipe => 103,
            Hat::Boonie => 104,
            Hat::Sawblade => 105,
            Hat::SunBonnet => 106,
            Hat::Gaucho => 107,
            Hat::Roundlet => 108,
            Hat::Capuchon => 109,
            Hat::Tricorn => 110,
            Hat::FeatheredHeaddress => 111,
            Hat::BearskinCap => 112,
            Hat::Fishbone => 113,
            Hat::SkiCap => 114,
            Hat::CrownOfFrost => 115,
            Hat::FourWinds => 116,
            Hat::Beacon => 117,
            Hat::FlowerGarland => 118,
            Hat::TreeBranch => 119,
            Hat::AviatorsCap => 120,
            Hat::Asteroid => 121,
            Hat::Crystal => 122,
            Hat::CreepyHelm => 123,
            Hat::FancyRibbon => 124,
            Hat::DeelyBoppers => 125,
            Hat::BeanieCap => 126,
            Hat::Leprechaun => 127,
            Hat::Shark => 128,
            Hat::LifePreserver => 129,
            Hat::GlitteringTiara => 130,
            Hat::GreatHelm => 131,
            Hat::SpaceHelmet => 132,
            Hat::UFO => 133,
            Hat::WhirlwindDiadem => 134,
            Hat::ObsidianHelm => 135,
            Hat::Lilypad => 136,
            Hat::CrownOfFlames => 137,
            Hat::RunicHeadband => 138,
            Hat::Clockwork => 139,
            Hat::Cactus => 140,
            Hat::SkullHelm => 141,
            Hat::Gloop => 142,
            Hat::Puma => 143,
            Hat::Elephant => 144,
            Hat::TigerSkin => 145,
            Hat::TeethTop => 146,
            Hat::Turkey => 147,
            Hat::Afro => 148,
            Hat::BaconBandana => 149,
            Hat::AwesomeHat => 150,
            Hat::CardShark => 151,
            Hat::EasterTriggerHappy => 152,
            Hat::HolidayBumbleBlast => 153,
            Hat::SoccerCountdown => 154,
            Hat::Beetle => 155,
            Hat::Brain => 156,
            Hat::Brainiac => 157,
            Hat::Bucket => 158,
            Hat::Cactus02 => 159,
            Hat::Fan => 160,
            Hat::Chinese => 161,
            Hat::Clown => 162,
            Hat::ClownBowler => 163,
            Hat::Colander => 164,
            Hat::Kepi => 165,
            Hat::Cornucopia => 166,
            Hat::Cubano => 167,
            Hat::Cycling => 168,
            Hat::DaisyCrown => 169,
            Hat::Skull => 170,
            Hat::DundeeSlouch => 171,
            Hat::ElfMini => 172,
            Hat::Castro => 173,
            Hat::Garrison => 174,
            Hat::Gondolier => 175,
            Hat::Hunting => 176,
            Hat::Juicer => 177,
            Hat::Kokoshnik => 178,
            Hat::Medic => 179,
            Hat::Melon => 180,
            Hat::Mountie => 181,
            Hat::Nurse => 182,
            Hat::Palm => 183,
            Hat::Paperboy => 184,
            Hat::ParrotRoosting => 185,
            Hat::Projector => 186,
            Hat::Pot02 => 187,
            Hat::Radar => 188,
            Hat::Tiara => 189,
            Hat::RubberGlove => 190,
            Hat::Rugby => 191,
            Hat::SharkFin => 192,
            Hat::Sherlock => 193,
            Hat::Shower => 194,
            Hat::Bobby => 195,
            Hat::Hedgehog => 196,
            Hat::Steampunk => 197,
            Hat::Stewardess => 198,
            Hat::SundayFancy => 199,
            Hat::Tibet => 200,
            Hat::Trash => 201,
            Hat::Turtle => 202,
            Hat::UFO02 => 203,
            Hat::Vespa => 204,
            Hat::Volcano02 => 205,
            Hat::WaterBallet => 206,
            Hat::WilliamTell => 207,
            Hat::Zulu => 208,
            Hat::RudeBoyChecker => 209,
            Hat::PorkPieChecker => 210,
            Hat::AlarmClock => 211,
            Hat::Armadillo => 212,
            Hat::BearTrap => 213,
            Hat::Croissant => 214,
            Hat::WeatherVane => 215,
            Hat::Rainbow => 216,
            Hat::EyeOfKaos => 217,
            Hat::BatEars => 218,
            Hat::Lightbulb => 219,
            Hat::Fireflies => 220,
            Hat::ShadowGhost => 221,
            Hat::Lighthouse => 222,
            Hat::TinFoil => 223,
            Hat::NightCap => 224,
            Hat::Storm => 225,
            Hat::KnightmareGold => 226,
            Hat::Duck => 227,
            Hat::Pyramid => 228,
            Hat::Windmill => 229,
            Hat::Wizard02 => 230,
            Hat::Confectioner => 232,
            Hat::Eggshell => 233,
            Hat::Candle => 234,
            Hat::HelmDark => 235,
            Hat::Orbit => 236,
            Hat::Bellhop => 237,
            Hat::KnightmareBronze => 238,
            Hat::KnightmareSilver => 239,
            Hat::Raver => 240,
            Hat::Shire => 241,
            Hat::Mongol => 242,
            Hat::FishermanSlicker => 243,
            Hat::MedievalBard => 244,
            Hat::Wooden => 245,
            Hat::Carnival => 246,
            Hat::Coconut => 247,
            Hat::Wilikin => 248,
            Hat::Frostfest => 249,
            Hat::Molekin => 250,
            Hat::Sheepwrecked => 251,
            Hat::OldRuins => 252,
            Hat::Oracle => 253,
            Hat::Offset2015 => 256,
            Hat::DiveBomber => 260,
            Hat::SeaShadow => 261,
            Hat::BurnCycle => 262,
            Hat::ReefRipper => 263,
            Hat::JetStream => 264,
            Hat::SodaSkimmer => 265,
            Hat::TombBuggy => 266,
            Hat::StealthStinger => 267,
            Hat::SharkTank => 268,
            Hat::GoldRusher => 269,
            Hat::SplatterSplasher => 270,
            Hat::ThumpTruck => 271,
            Hat::BuzzWing => 272,
            Hat::ShieldStriker => 273,
            Hat::SunRunner => 274,
            Hat::HotStreak => 275,
            Hat::SkySlicer => 276,
            Hat::CryptCrusher => 277,
            Hat::Mags => 278,
            Hat::KaosCrown => 279,
            Hat::EonHelm => 280,
        }
    }
}

impl FromSpecImpl<Hat> for u16 {
    open spec fn obeys_from_spec() -> bool {
        true
    }

    open spec fn from_spec(value: Hat) -> u16 {
        value.spec_id()
    }
}

impl TryFrom<u16> for Hat {
    type Error = &'static str;

    fn try_from(value: u16) -> (r: Result<Self, Self::Error>) {
        match Hat::find(value) {
            Some(c) => {
                proof {
                    Hat::lemma_lookup_of_id(c);
                }
                Ok(c)
            },
            None => Err("Invalid Hat value"),
        }
    }
}

impl TryFromSpecImpl<u16> for Hat {
    open spec fn obeys_try_from_spec() -> bool {
        true
    }

    /// The value whose number is `value`, or the error of this catalogue where it names none.
    open spec fn try_from_spec(value: u16) -> Result<Self, Self::Error> {
        match Hat::lookup(value) {
            Some(c) => Ok(c),
            None => Err("Invalid Hat value"),
        }
    }
}

} // verus!
