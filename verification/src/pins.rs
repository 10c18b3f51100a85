//! Which pins carry SCL and SDA for which instance of the peripheral.

use vstd::prelude::*;
use crate::device::{I2C1, I2C2};

verus! {

/// Pin B6, configured as an alternate-function open-drain output.
#[derive(Debug, Clone, Copy, PartialEq, Eq, Structural)]
pub struct PB6;

/// Pin B7, configured as an alternate-function open-drain output.
#[derive(Debug, Clone, Copy, PartialEq, Eq, Structural)]
pub struct PB7;

/// Pin B8, configured as an alternate-function open-drain output.
#[derive(Debug, Clone, Copy, PartialEq, Eq, Structural)]
pub struct PB8;

/// Pin B9, configured as an alternate-function open-drain output.
#[derive(Debug, Clone, Copy, PartialEq, Eq, Structural)]
pub struct PB9;

/// Pin B10, configured as an alternate-function open-drain output.
#[derive(Debug, Clone, Copy, PartialEq, Eq, Structural)]
pub struct PB10;

/// Pin B11, configured as an alternate-function open-drain output.
#[derive(Debug, Clone, Copy, PartialEq, Eq, Structural)]
pub struct PB11;

/// A pair of pins, SCL first and SDA second, that is wired to the instance
/// `I2C`.
pub trait Pins<I2C> {
    /// Whether the pair is reached through the alternate pin mapping.
    const REMAP: bool;
}

/// The first instance on its default pins.
impl Pins<I2C1> for (PB6, PB7) {
    const REMAP: bool = false;
}

/// The first instance on its alternate pins.
impl Pins<I2C1> for (PB8, PB9) {
    const REMAP: bool = true;
}

/// The second instance, which has one pair of pins only.
impl Pins<I2C2> for (PB10, PB11) {
    const REMAP: bool = false;
}

} // verus!
