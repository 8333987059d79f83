//! Creation crystals.

use crate::skyutils::Skylander;
use crate::skyutils::SkylanderBase;
use crate::skyutils::TagState;
use crate::skyutils::Toy;
use crate::skyutils::NUM_BYTES;
use crate::skyvariants::Variant;
use vstd::prelude::*;
use vstd::std_specs::convert::FromSpecImpl;

verus! {

/// A figure that is a creation crystal. It has nothing of its own beyond what every
/// figure has.
pub struct ImaginatorCrystal {
    skylander: SkylanderBase,
}

impl View for ImaginatorCrystal {
    type V = TagState;

    closed spec fn view(&self) -> TagState {
        self.skylander@
    }
}

impl From<SkylanderBase> for ImaginatorCrystal {
    fn from(value: SkylanderBase) -> (r: Self)
        ensures
            r@ == value@,
    {
        Self { skylander: value }
    }
}

impl FromSpecImpl<SkylanderBase> for ImaginatorCrystal {
    open spec fn obeys_from_spec() -> bool {
        true
    }

    closed spec fn from_spec(value: SkylanderBase) -> Self {
        ImaginatorCrystal { skylander: value }
    }
}

impl From<ImaginatorCrystal> for SkylanderBase {
    fn from(value: ImaginatorCrystal) -> (r: Self)
        ensures
            r@ == value@,
    {
        value.skylander
    }
}

impl FromSpecImpl<ImaginatorCrystal> for SkylanderBase {
    open spec fn obeys_from_spec() -> bool {
        true
    }

    closed spec fn from_spec(value: ImaginatorCrystal) -> Self {
        value.skylander
    }
}

impl Skylander for ImaginatorCrystal {
    proof fn lemma_lengths(&self) {
        self.skylander.lemma_lengths();
    }

    fn new(toy: Toy, variant: Variant, nuid: Option<[u8; 4]>) -> (r: Self) {
        Self { skylander: SkylanderBase::new(toy, variant, nuid) }
    }

    fn from_bytes(bytes: &[u8; NUM_BYTES]) -> (r: Self) {
        Self { skylander: SkylanderBase::from_bytes(bytes) }
    }

    fn to_bytes(&self) -> (r: [u8; NUM_BYTES]) {
        self.skylander.to_bytes()
    }

    fn clear(&mut self) {
        self.skylander.clear();
    }

    fn get_figure(&self) -> (r: Toy) {
        self.skylander.get_figure()
    }

    fn get_variant(&self) -> (r: Variant) {
        self.skylander.get_variant()
    }

    fn set_bytes(&mut self, start: usize, bytes: &[u8]) {
        self.skylander.set_bytes(start, bytes);
    }
}

impl ImaginatorCrystal {
    /// The figure that this is.
    pub fn skylander(&self) -> (r: &SkylanderBase)
        ensures
            r@ == self@,
    {
        &self.skylander
    }
}

} // verus!
