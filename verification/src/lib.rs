//! Polled master-mode driver logic for an I2C peripheral with separate
//! status registers and CCR/TRISE timing registers.
//!
//! The library holds the decisions of the driver: which timing values a bus
//! speed calls for ([`timing`]), which register accesses bring the peripheral
//! up ([`setup`]), and how a write transaction advances on each sample of the
//! status register ([`transfer`]). Whoever owns the hardware performs the
//! accesses.
//!
//! Beside them stands a register-level model of the peripheral ([`device`]),
//! on which the master of [`i2c`] runs, and against which [`protocol`] states
//! what a transaction does.

pub mod device;
pub mod error;
pub mod i2c;
pub mod pins;
pub mod protocol;
pub mod registers;
pub mod setup;
pub mod timing;
pub mod transfer;
