//! Traps.

use crate::skyutils::Skylander;
use crate::skyutils::SkylanderBase;
use crate::skyutils::TagState;
use crate::skyutils::Toy;
use crate::skyutils::NUM_BYTES;
use crate::skyvariants::Variant;
use vstd::prelude::*;
use vstd::std_specs::convert::FromSpecImpl;

verus! {

/// A figure that is a trap. It has nothing of its own beyond what every
/// figure has.
pub struct Trap {
    skylander: SkylanderBase,
}

impl View for Trap {
    type V = TagState;

    closed spec fn view(&self) -> TagState {
        self.skylander@
    }
}

impl From<SkylanderBase> for Trap {
    fn from(value: SkylanderBase) -> (r: Self)
        ensures
            r@ == value@,
    {
        Self { skylander: value }
    }
}

impl FromSpecImpl<SkylanderBase> for Trap {
    open spec fn obeys_from_spec() -> bool {
        true
    }

    closed spec fn from_spec(value: SkylanderBase) -> Self {
        Trap { skylander: value }
    }
}

impl From<Trap> for SkylanderBase {
    fn from(value: Trap) -> (r: Self)
        ensures
            r@ == value@,
    {
        value.skylander
    }
}

impl FromSpecImpl<Trap> for SkylanderBase {
    open spec fn obeys_from_spec() -> bool {
        true
    }

    closed spec fn from_spec(value: Trap) -> Self {
        value.skylander
    }
}

impl Skylander for Trap {
    proof fn lemma_lengths(&self) {
        self.skylander.lemma_lengths();
    }

    fn new(toy: Toy, variant: Variant, nuid: Option<[u8; 4]>) -> (r: Self) {
        Self { skylander: SkylanderBase::new(toy, variant, nuid) }
    }

    fn from_bytes(bytes: &[u8; NUM_BYTES]) -> (r: Self) {
        Self { skylander: SkylanderBase::from_bytes(bytes) }
    }

    fn to_bytes(&self) -> (r: [u8; NUM_BYTES]) {
        self.skylander.to_bytes()
    }

    fn clear(&mut self) {
        self.skylander.clear();
    }

    fn get_figure(&self) -> (r: Toy) {
        self.skylander.get_figure()
    }

    fn get_variant(&self) -> (r: Variant) {
        self.skylander.get_variant()
    }

    fn set_bytes(&mut self, start: usize, bytes: &[u8]) {
        self.skylander.set_bytes(start, bytes);
    }
}

impl Trap {
    /// The figure that this is.
    pub fn skylander(&self) -> (r: &SkylanderBase)
        ensures
            r@ == self@,
    {
        &self.skylander
    }
}

} // verus!
