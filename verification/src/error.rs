//! Failures of a master-mode transaction.

use vstd::prelude::*;

verus! {

/// I2C error
#[derive(Debug, Clone, Copy, PartialEq, Eq, Structural)]
pub enum Error {
    /// Bus error: a misplaced START or STOP was detected (SR1.BERR).
    Bus,
    /// Arbitration was lost to another master (SR1.ARLO).
    Arbitration,
    /// Reserved so that further failure kinds can be added later.
    _Extensible,
}

} // verus!
