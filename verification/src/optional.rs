//! A figure of whatever kind, or none: what an editor holds in hand.

use crate::character::Character;
use crate::imaginators::ImaginatorCrystal;
use crate::skyutils::uid_or_zero;
use crate::skyutils::Skylander;
use crate::skyutils::SkylanderBase;
use crate::skyutils::TagState;
use crate::skyutils::Toy;
use crate::skyvariants::Variant;
use crate::statictoys::Expansion;
use crate::statictoys::Item;
use crate::trap::Trap;
use crate::vehicle::Vehicle;
use vstd::prelude::*;

verus! {

/// A figure under the kind that it was made or loaded as, or no figure.
pub enum Optional {
    Character(Character),
    Vehicle(Vehicle),
    Item(Item),
    Expansion(Expansion),
    Trap(Trap),
    ImaginatorCrystal(ImaginatorCrystal),
    Unknown(SkylanderBase),
    NoFigure,
}

impl Optional {
    /// The state of the figure in hand, if there is one.
    pub open spec fn state(self) -> Option<TagState> {
        match self {
            Optional::Character(x) => Some(x@),
            Optional::Vehicle(x) => Some(x@),
            Optional::Item(x) => Some(x@),
            Optional::Expansion(x) => Some(x@),
            Optional::Trap(x) => Some(x@),
            Optional::ImaginatorCrystal(x) => Some(x@),
            Optional::Unknown(x) => Some(x@),
            Optional::NoFigure => None,
        }
    }

    /// Whether this holds a figure under the kind of `toy`.
    pub open spec fn is_kind_of(self, toy: Toy) -> bool {
        match toy {
            Toy::Character(_) => self is Character,
            Toy::Vehicle(_) => self is Vehicle,
            Toy::Trap(_) => self is Trap,
            Toy::Item(_) => self is Item,
            Toy::Expansion(_) => self is Expansion,
            Toy::ImaginatorCrystal(_) => self is ImaginatorCrystal,
            Toy::Unknown(_) => self is Unknown,
        }
    }

    /// Makes an empty figure of the toy and the variant given, under the
    /// kind of the toy.
    pub fn new(toy: Toy, variant: Variant, nuid: Option<[u8; 4]>) -> (r: Optional)
        ensures
            r.state() == Some(TagState::fresh(toy, variant, uid_or_zero(nuid))),
            r.is_kind_of(toy),
    {
        match toy {
            Toy::Character(_) => Optional::Character(Character::new(toy, variant, nuid)),
            Toy::Vehicle(_) => Optional::Vehicle(Vehicle::new(toy, variant, nuid)),
            Toy::Item(_) => Optional::Item(Item::new(toy, variant, nuid)),
            Toy::Expansion(_) => Optional::Expansion(Expansion::new(toy, variant, nuid)),
            Toy::Trap(_) => Optional::Trap(Trap::new(toy, variant, nuid)),
            Toy::ImaginatorCrystal(_) => Optional::ImaginatorCrystal(
                ImaginatorCrystal::new(toy, variant, nuid),
            ),
            Toy::Unknown(_) => Optional::Unknown(SkylanderBase::new(toy, variant, nuid)),
        }
    }
}

/// Puts a figure under the kind of the toy that it is.
pub fn from_base(s: SkylanderBase) -> (r: Optional)
    ensures
        r.state() == Some(s@),
        r.is_kind_of(s@.figure),
{
    match s.get_figure() {
        Toy::Character(_) => Optional::Character(Character::from(s)),
        Toy::Vehicle(_) => Optional::Vehicle(Vehicle::from(s)),
        Toy::Trap(_) => Optional::Trap(Trap::from(s)),
        Toy::Item(_) => Optional::Item(Item::from(s)),
        Toy::Expansion(_) => Optional::Expansion(Expansion::from(s)),
        Toy::ImaginatorCrystal(_) => Optional::ImaginatorCrystal(ImaginatorCrystal::from(s)),
        Toy::Unknown(_) => Optional::Unknown(s),
    }
}

/// Takes the figure out from under its kind; `None` where there is no figure.
pub fn to_base(s: Optional) -> (r: Option<SkylanderBase>)
    ensures
        r is Some <==> s.state() is Some,
        r matches Some(base) ==> s.state() == Some(base@),
{
    match s {
        Optional::Character(x) => Some(x.into()),
        Optional::Vehicle(x) => Some(x.into()),
        Optional::Trap(x) => Some(x.into()),
        Optional::Expansion(x) => Some(x.into()),
        Optional::Item(x) => Some(x.into()),
        Optional::ImaginatorCrystal(x) => Some(x.into()),
        Optional::Unknown(x) => Some(x),
        Optional::NoFigure => None,
    }
}

} // verus!
