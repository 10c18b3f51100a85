//! A register-level model of one instance of the peripheral and of the bus
//! behind it.
//!
//! The model holds the registers that the driver touches, the flags that the
//! bus is going to raise, and the bytes that were written to the data
//! register. Each access changes it as the hardware's reference manual says.

use vstd::prelude::*;
use crate::registers::{
    holds, is_set, CR1_PE, CR1_START, SR1_ADDR, SR1_SB, SR1_TXE, TRISE_RESET,
};
use crate::setup::SetupStep;

verus! {

/// The APB1 enable and reset registers, which the instance shares with other
/// peripherals.
#[derive(Debug, Clone, Copy, PartialEq, Eq, Structural)]
pub struct Apb1 {
    /// The enable register: a set bit gates a peripheral's clock on.
    pub enr: u32,
    /// The reset register: a set bit holds a peripheral in reset.
    pub rstr: u32,
}

impl Apb1 {
    /// Whether the peripheral with the given bit is clocked and out of reset,
    /// so that writes to its registers take effect.
    pub open spec fn live(&self, bit: u32) -> bool {
        holds(self.enr, bit) && !holds(self.rstr, bit)
    }

    /// Whether the peripheral with the given bit is clocked and out of reset.
    pub fn is_live(&self, bit: u32) -> (live: bool)
        ensures
            live == self.live(bit),
    {
        is_set(self.enr, bit) && !is_set(self.rstr, bit)
    }
}

/// What the model holds, as mathematical values.
pub struct State {
    /// Control register 1.
    pub cr1: u32,
    /// Control register 2.
    pub cr2: u32,
    /// Clock control register.
    pub ccr: u32,
    /// Rise time register.
    pub trise: u32,
    /// Status register 1.
    pub sr1: u32,
    /// Whether the instance's pins are routed to the alternate mapping.
    pub remap: bool,
    /// The flags that the bus will raise: each read of SR1 takes the first.
    pub pending: Seq<u32>,
    /// The bytes written to the data register, oldest first.
    pub sent: Seq<u8>,
}

impl State {
    /// The registers after a reset; routing, bus and record are kept.
    pub open spec fn reset(self) -> State {
        State { cr1: 0, cr2: 0, ccr: 0, trise: TRISE_RESET, sr1: 0, ..self }
    }

    /// A read of SR1. The bus raises its next flags first, if any are left;
    /// a START condition that has been generated clears CR1.START.
    pub open spec fn read_sr1(self) -> State {
        if self.pending.len() == 0 {
            self
        } else {
            let raised = self.pending[0];
            State {
                sr1: self.sr1 | raised,
                cr1: if holds(raised, SR1_SB) {
                    self.cr1 & !CR1_START
                } else {
                    self.cr1
                },
                pending: self.pending.skip(1),
                ..self
            }
        }
    }

    /// A read of SR2, which after a read of SR1 clears ADDR.
    pub open spec fn read_sr2(self) -> State {
        State { sr1: self.sr1 & !SR1_ADDR, ..self }
    }

    /// A write to DR, which after a read of SR1 clears SB and TxE.
    pub open spec fn write_dr(self, byte: u8) -> State {
        State { sr1: self.sr1 & !(SR1_SB | SR1_TXE), sent: self.sent.push(byte), ..self }
    }

    /// Setting CR1.START.
    pub open spec fn set_start(self) -> State {
        State { cr1: self.cr1 | CR1_START, ..self }
    }

    /// One step of the bring-up, for the instance with the given APB1 bit.
    /// A write to a register of the instance takes effect only while the
    /// instance is clocked and out of reset; TRISE and CCR only while the
    /// peripheral is disabled.
    pub open spec fn setup(self, apb1: Apb1, bit: u32, step: SetupStep) -> (State, Apb1) {
        match step {
            SetupStep::EnableClock => (self, Apb1 { enr: apb1.enr | bit, ..apb1 }),
            SetupStep::AssertReset => (self.reset(), Apb1 { rstr: apb1.rstr | bit, ..apb1 }),
            SetupStep::ReleaseReset => (self, Apb1 { rstr: apb1.rstr & !bit, ..apb1 }),
            SetupStep::EngageRemap => (State { remap: true, ..self }, apb1),
            SetupStep::WriteCr2(value) => if apb1.live(bit) {
                (State { cr2: value, ..self }, apb1)
            } else {
                (self, apb1)
            },
            SetupStep::WriteTrise(value) => if apb1.live(bit) && !holds(self.cr1, CR1_PE) {
                (State { trise: value, ..self }, apb1)
            } else {
                (self, apb1)
            },
            SetupStep::WriteCcr(value) => if apb1.live(bit) && !holds(self.cr1, CR1_PE) {
                (State { ccr: value, ..self }, apb1)
            } else {
                (self, apb1)
            },
            SetupStep::Enable => if apb1.live(bit) {
                (State { cr1: CR1_PE, ..self }, apb1)
            } else {
                (self, apb1)
            },
        }
    }

    /// The steps from `from` on, one after the other.
    pub open spec fn setup_all(self, apb1: Apb1, bit: u32, steps: Seq<SetupStep>, from: int) -> (
        State,
        Apb1,
    )
        decreases steps.len() - from,
    {
        if 0 <= from < steps.len() {
            let (state, gate) = self.setup(apb1, bit, steps[from]);
            state.setup_all(gate, bit, steps, from + 1)
        } else {
            (self, apb1)
        }
    }
}

/// The model of one instance.
#[derive(Debug)]
pub struct Peripheral {
    /// Control register 1.
    pub cr1: u32,
    /// Control register 2.
    pub cr2: u32,
    /// Clock control register.
    pub ccr: u32,
    /// Rise time register.
    pub trise: u32,
    /// Status register 1.
    pub sr1: u32,
    /// Whether the instance's pins are routed to the alternate mapping.
    pub remap: bool,
    /// The flags that the bus raises, one entry for each read of SR1.
    pub events: Vec<u32>,
    /// How many of `events` have been raised.
    pub cursor: usize,
    /// The bytes written to the data register, oldest first.
    pub sent: Vec<u8>,
}

impl View for Peripheral {
    type V = State;

    open spec fn view(&self) -> State {
        State {
            cr1: self.cr1,
            cr2: self.cr2,
            ccr: self.ccr,
            trise: self.trise,
            sr1: self.sr1,
            remap: self.remap,
            pending: self.events@.skip(self.cursor as int),
            sent: self.sent@,
        }
    }
}

impl Peripheral {
    /// The cursor lies within the events.
    pub open spec fn well_formed(&self) -> bool {
        self.cursor <= self.events.len()
    }

    /// A peripheral fresh out of reset, on a bus that will raise `events`.
    pub fn new(events: Vec<u32>) -> (peripheral: Peripheral)
        ensures
            peripheral.well_formed(),
            peripheral@ == (State {
                cr1: 0,
                cr2: 0,
                ccr: 0,
                trise: TRISE_RESET,
                sr1: 0,
                remap: false,
                pending: events@,
                sent: Seq::<u8>::empty(),
            }),
    {
        let peripheral = Peripheral {
            cr1: 0,
            cr2: 0,
            ccr: 0,
            trise: TRISE_RESET,
            sr1: 0,
            remap: false,
            events,
            cursor: 0,
            sent: Vec::new(),
        };
        assert(peripheral.events@.skip(0) =~= peripheral.events@);
        peripheral
    }

    /// Whether the bus has flags left to raise.
    pub fn has_pending(&self) -> (pending: bool)
        requires
            self.well_formed(),
        ensures
            pending == (self@.pending.len() > 0),
    {
        self.cursor < self.events.len()
    }

    /// Reads SR1.
    pub fn read_sr1(&mut self) -> (value: u32)
        requires
            old(self).well_formed(),
        ensures
            final(self).well_formed(),
            final(self)@ == old(self)@.read_sr1(),
            value == final(self)@.sr1,
    {
        if self.cursor < self.events.len() {
            let raised: u32 = self.events[self.cursor];
            assert(raised == old(self)@.pending[0]);
            self.sr1 = self.sr1 | raised;
            if is_set(raised, SR1_SB) {
                self.cr1 = self.cr1 & !CR1_START;
            }
            self.cursor = self.cursor + 1;
            assert(self@.pending =~= old(self)@.pending.skip(1));
        }
        self.sr1
    }

    /// Reads SR2.
    pub fn read_sr2(&mut self)
        ensures
            final(self).well_formed() == old(self).well_formed(),
            final(self)@ == old(self)@.read_sr2(),
    {
        self.sr1 = self.sr1 & !SR1_ADDR;
    }

    /// Writes a byte to DR.
    pub fn write_dr(&mut self, byte: u8)
        ensures
            final(self).well_formed() == old(self).well_formed(),
            final(self)@ == old(self)@.write_dr(byte),
    {
        self.sr1 = self.sr1 & !(SR1_SB | SR1_TXE);
        self.sent.push(byte);
    }

    /// Sets CR1.START.
    pub fn set_start(&mut self)
        ensures
            final(self).well_formed() == old(self).well_formed(),
            final(self)@ == old(self)@.set_start(),
    {
        self.cr1 = self.cr1 | CR1_START;
    }

    /// Performs one step of the bring-up for the instance with the given
    /// APB1 bit.
    pub fn setup(&mut self, apb1: &mut Apb1, bit: u32, step: SetupStep)
        ensures
            final(self).well_formed() == old(self).well_formed(),
            (final(self)@, *final(apb1)) == old(self)@.setup(*old(apb1), bit, step),
    {
        match step {
            SetupStep::EnableClock => {
                apb1.enr = apb1.enr | bit;
            },
            SetupStep::AssertReset => {
                apb1.rstr = apb1.rstr | bit;
                self.cr1 = 0;
                self.cr2 = 0;
                self.ccr = 0;
                self.trise = TRISE_RESET;
                self.sr1 = 0;
            },
            SetupStep::ReleaseReset => {
                apb1.rstr = apb1.rstr & !bit;
            },
            SetupStep::EngageRemap => {
                self.remap = true;
            },
            SetupStep::WriteCr2(value) => {
                if apb1.is_live(bit) {
                    self.cr2 = value;
                }
            },
            SetupStep::WriteTrise(value) => {
                if apb1.is_live(bit) && !is_set(self.cr1, CR1_PE) {
                    self.trise = value;
                }
            },
            SetupStep::WriteCcr(value) => {
                if apb1.is_live(bit) && !is_set(self.cr1, CR1_PE) {
                    self.ccr = value;
                }
            },
            SetupStep::Enable => {
                if apb1.is_live(bit) {
                    self.cr1 = CR1_PE;
                }
            },
        }
    }
}

/// The first instance of the peripheral.
#[derive(Debug)]
pub struct I2C1 {
    /// Its registers and its bus.
    pub regs: Peripheral,
}

/// The second instance of the peripheral.
#[derive(Debug)]
pub struct I2C2 {
    /// Its registers and its bus.
    pub regs: Peripheral,
}

} // verus!
