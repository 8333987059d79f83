use skylanders::skyfigures::Character;
use skylanders::skyfigures::Expansion;
use skylanders::skyfigures::ImaginatorCrystal;
use skylanders::skyfigures::Item;
use skylanders::skyfigures::Trap;
use skylanders::skyfigures::Vehicle;
use skylanders::skyhats::Hat;
use skylanders::skyutils::Toy;
use skylanders::skyutils::UpgradePath;
use skylanders::skyvariants::get_variant;
use skylanders::skyvariants::DecoID;
use skylanders::skyvariants::Game;
use skylanders::skyvariants::Variant;
use skylanders::skyvariants::VariantTypes;
use skylanders::vehicle::Mod;

#[test]
fn numbers_of_named_toys() {
    assert_eq!(u16::from(Character::Whirlwind), 0);
    assert_eq!(u16::from(Character::TriggerHappy), 19);
    assert_eq!(u16::from(Character::ImaginatorTemplate), 699);
    assert_eq!(u16::from(Item::Anvil), 200);
    assert_eq!(u16::from(ImaginatorCrystal::Light), 689);
    assert_eq!(u16::from(Trap::Kaos), 220);
    assert_eq!(u16::from(Expansion::Dragon), 300);
    assert_eq!(u16::from(Vehicle::HotStreak), 3224);
    assert_eq!(u16::from(Hat::NoHat), 0);
    assert_eq!(u16::from(Hat::EonHelm), 280);
    let id: u16 = Character::Spyro.into();
    assert_eq!(id, 16);
}

#[test]
fn lookup_of_named_toys() {
    assert_eq!(Character::try_from(19), Ok(Character::TriggerHappy));
    assert_eq!(Item::try_from(3204), Ok(Item::HatPromo));
    assert_eq!(ImaginatorCrystal::try_from(680), Ok(ImaginatorCrystal::Magic));
    assert_eq!(Trap::try_from(213), Ok(Trap::Death));
    assert_eq!(Expansion::try_from(3503), Ok(Expansion::KaosRacingPack));
    assert_eq!(Vehicle::try_from(7999), Ok(Vehicle::TemplateSea));
    assert_eq!(Hat::try_from(256), Ok(Hat::Offset2015));
    assert_eq!(Character::find(3428), Some(Character::Thrillipede));
}

#[test]
fn lookup_fails_cleanly_on_unknown_numbers() {
    assert_eq!(Character::try_from(33), Err("Invalid Character value"));
    assert_eq!(Item::try_from(234), Err("Invalid Item value"));
    assert_eq!(ImaginatorCrystal::try_from(690), Err("Invalid Imaginator Crystal value"));
    assert_eq!(Trap::try_from(221), Err("Invalid Trap value"));
    assert_eq!(Expansion::try_from(309), Err("Invalid Expansion value"));
    assert_eq!(Vehicle::try_from(3229), Err("Invalid Vehicle value"));
    assert_eq!(Hat::try_from(47), Err("Invalid Hat value"));
    assert_eq!(Hat::try_from(0xFFFF), Err("Invalid Hat value"));
    assert_eq!(Variant::try_from(0x1234), Err("Invalid Variant value"));
    assert_eq!(Character::find(0xFFFF), None);
}

#[test]
fn every_catalogue_lists_each_value_once() {
    assert_eq!(Character::all().len(), Character::COUNT);
    assert_eq!(Item::all().len(), 20);
    assert_eq!(ImaginatorCrystal::all().len(), 10);
    assert_eq!(Trap::all().len(), 11);
    assert_eq!(Expansion::all().len(), 19);
    assert_eq!(Vehicle::all().len(), 25);
    assert_eq!(Hat::all().len(), Hat::COUNT);
    assert_eq!(Variant::all().len(), 46);
    let hats = Hat::all();
    for (i, a) in hats.iter().enumerate() {
        for b in &hats[i + 1..] {
            assert_ne!(u16::from(*a), u16::from(*b));
        }
    }
    assert_eq!(hats[0], Hat::NoHat);
    assert_eq!(Character::all()[19], Character::TriggerHappy);
}

#[test]
fn every_listed_value_is_found_by_its_number() {
    for c in Character::all() {
        assert_eq!(Character::try_from(u16::from(c)), Ok(c));
        assert_eq!(Toy::try_from(u16::from(c)), Ok(Toy::Character(c)));
    }
    for h in Hat::all() {
        assert_eq!(Hat::try_from(u16::from(h)), Ok(h));
    }
    for v in Variant::all() {
        assert_eq!(Variant::try_from(u16::from(v)), Ok(v));
        assert_eq!(Variant::from_id(u16::from(v)), v);
    }
    for v in Vehicle::all() {
        assert_eq!(Toy::try_from(u16::from(v)), Ok(Toy::Vehicle(v)));
    }
    for t in Trap::all() {
        assert_eq!(Toy::try_from(u16::from(t)), Ok(Toy::Trap(t)));
    }
    for i in Item::all() {
        assert_eq!(Toy::try_from(u16::from(i)), Ok(Toy::Item(i)));
    }
    for e in Expansion::all() {
        assert_eq!(Toy::try_from(u16::from(e)), Ok(Toy::Expansion(e)));
    }
    for ic in ImaginatorCrystal::all() {
        assert_eq!(Toy::try_from(u16::from(ic)), Ok(Toy::ImaginatorCrystal(ic)));
    }
}

#[test]
fn toy_numbers() {
    assert_eq!(u16::from(Toy::Character(Character::TriggerHappy)), 19);
    assert_eq!(u16::from(Toy::Vehicle(Vehicle::HotStreak)), 3224);
    assert_eq!(u16::from(Toy::Unknown(4242)), 4242);
    assert_eq!(Toy::try_from(4242), Ok(Toy::Unknown(4242)));
    assert_eq!(format!("{:?}", Toy::Trap(Trap::Kaos)), "Trap(Kaos)");
    assert_eq!(format!("{:?}", Character::TriggerHappy), "TriggerHappy");
}

#[test]
fn variant_numbers_are_made_of_their_parts() {
    assert_eq!(u16::from(Variant::Series1), 0x0000);
    assert_eq!(u16::from(Variant::Series2), 0x1801);
    assert_eq!(u16::from(Variant::Series3), 0x2205);
    assert_eq!(u16::from(Variant::Vehicle), 0x4000);
    assert_eq!(u16::from(Variant::Superchargers), 0x4100);
    assert_eq!(u16::from(Variant::GiantLegendary), 0x1603);
    assert_eq!(u16::from(Variant::Unknown(0xBEEF)), 0xBEEF);
    assert_eq!(Variant::Series3.parts(), Some((Game::SwapForce, DecoID::Repose2, 0x0200)));
    assert_eq!(Variant::Unknown(0x2205).parts(), None);
    for v in Variant::all() {
        let (game, deco, flags) = v.parts().expect("a named variant");
        assert_eq!(u16::from(v), get_variant(game, deco, flags));
        assert_eq!(u16::from(v) & 0xF000, game.code());
        assert_eq!(u16::from(v) & 0x00FF, deco.code());
        assert_eq!(u16::from(v) & 0x0F00, flags);
    }
}

#[test]
fn get_variant_joins_game_decoration_and_abilities() {
    assert_eq!(get_variant(Game::Spyros, DecoID::Normal, VariantTypes::Default.code()), 0);
    assert_eq!(
        get_variant(Game::SwapForce, DecoID::Repose2, VariantTypes::Lightcore.code()),
        0x2205
    );
    assert_eq!(
        get_variant(Game::Giants, DecoID::Repose1, VariantTypes::WowPow.code()),
        0x1801
    );
    assert_eq!(
        get_variant(
            Game::Superchargers,
            DecoID::Halloween,
            VariantTypes::AltDeco.code() | VariantTypes::Supercharger.code()
        ),
        0x4515
    );
    assert_eq!(Game::Imaginators.code(), 0x5000);
    assert_eq!(DecoID::Mobile.code(), 31);
    assert_eq!(VariantTypes::Lightcore.code(), 0x0200);
}

#[test]
fn variant_from_id_falls_back_to_unknown() {
    assert_eq!(Variant::from_id(0x2205), Variant::Series3);
    assert_eq!(Variant::from_id(0x1234), Variant::Unknown(0x1234));
    assert_eq!(Variant::find(0x1234), None);
    assert_eq!(Variant::find(0x4000), Some(Variant::Vehicle));
}

#[test]
fn upgrade_path_bits() {
    assert_eq!(UpgradePath::Top.bits(), 0b01);
    assert_eq!(UpgradePath::Bottom.bits(), 0b11);
    assert_eq!(UpgradePath::NoPath.bits(), 0b00);
    assert_eq!(UpgradePath::from_bits(0b01), UpgradePath::Top);
    assert_eq!(UpgradePath::from_bits(0b11), UpgradePath::Bottom);
    assert_eq!(UpgradePath::from_bits(0b00), UpgradePath::NoPath);
    assert_eq!(UpgradePath::from_bits(0b10), UpgradePath::NoPath);
}

#[test]
fn names_of_catalogued_values() {
    assert_eq!(Character::TriggerHappy.name(), "TriggerHappy");
    assert_eq!(Item::HatPromo.name(), "HatPromo");
    assert_eq!(ImaginatorCrystal::Undead.name(), "Undead");
    assert_eq!(Trap::Death.name(), "Death");
    assert_eq!(Expansion::PVPUnlock.name(), "PVPUnlock");
    assert_eq!(Vehicle::HotStreak.name(), "HotStreak");
    assert_eq!(Hat::NoHat.name(), "None");
    assert_eq!(Hat::UFO02.name(), "UFO02");
    assert_eq!(Variant::Series3.name(), "Series3");
    assert_eq!(Variant::Unknown(7).name(), "Unknown");
    assert_eq!(Mod::Fourth.name(), "Fourth");
    for c in Character::all() {
        assert_eq!(c.name(), format!("{:?}", c));
    }
    for v in Variant::all() {
        assert_eq!(v.name(), format!("{:?}", v));
    }
    for h in Hat::all() {
        if h != Hat::NoHat {
            assert_eq!(h.name(), format!("{:?}", h));
        }
    }
}

#[test]
fn index_of_a_catalogue() {
    let index = Character::make_index();
    assert_eq!(index.len(), Character::COUNT);
    assert_eq!(index.get(&19), Some(&Character::TriggerHappy));
    assert_eq!(index.get(&33), None);
    for c in Character::all() {
        assert_eq!(index.get(&u16::from(c)), Some(&c));
    }
    let hats = Hat::make_index();
    assert_eq!(hats.len(), Hat::COUNT);
    assert_eq!(hats.get(&0), Some(&Hat::NoHat));
    assert_eq!(hats.get(&47), None);
    let variants = Variant::make_index();
    assert_eq!(variants.len(), 46);
    assert_eq!(variants.get(&0x2205), Some(&Variant::Series3));
    assert_eq!(variants.get(&0x2805), None);
    assert_eq!(Vehicle::make_index().len(), 25);
    assert_eq!(Trap::make_index().get(&220), Some(&Trap::Kaos));
    assert_eq!(Item::make_index().get(&235), Some(&Item::BlueChest));
    assert_eq!(Expansion::make_index().get(&311), Some(&Expansion::EnchantedElvenForest));
    assert_eq!(ImaginatorCrystal::make_index().get(&689), Some(&ImaginatorCrystal::Light));
}
