//! Reading, changing and writing the 1024 bytes of a toy's tag: the
//! catalogue of toys, variants and hats, the layout and encryption of the
//! tag, and what characters and vehicles keep on it.

pub mod bitmap;
pub mod character;
pub mod crypto;
pub mod imaginators;
pub mod nfc;
pub mod optional;
pub mod skyfigures;
pub mod skyhats;
pub mod skyutils;
pub mod skyvariants;
pub mod statictoys;
pub mod trap;
pub mod vehicle;
