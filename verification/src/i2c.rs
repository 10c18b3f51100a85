//! Inter-Integrated Circuit (I2C) bus: the peripheral operating in master
//! mode.

use vstd::prelude::*;
use crate::device::{Apb1, Peripheral, State, I2C1, I2C2};
use crate::error::Error;
use crate::pins::Pins;
use crate::protocol::{rest_of, same_timing, write_run, Run};
use crate::registers::{
    holds, lemma_clear_bits, lemma_set_bits, APB1_I2C1, APB1_I2C2, CR1_PE, CR1_START,
};
use crate::setup::{bring_up, bring_up_steps, SetupStep};
use crate::timing::{valid_request, Clocks, Hertz, Timing};
use crate::transfer::{Phase, Request, Transfer};

verus! {

/// The peripheral and the APB1 registers after the bring-up: the clock
/// gated on, the reset released, the timing programmed, the peripheral
/// enabled and its flags clear. The pins are routed if `remap` asks for it;
/// the bus and the record of bytes are as they were.
pub open spec fn configured(state: State, apb1: Apb1, bit: u32, remap: bool, timing: Timing) -> (
    State,
    Apb1,
) {
    (
        State {
            cr1: CR1_PE,
            cr2: timing.freq_range,
            ccr: timing.ccr,
            trise: timing.trise,
            sr1: 0,
            remap: state.remap || remap,
            ..state
        },
        Apb1 { enr: apb1.enr | bit, rstr: apb1.rstr & !bit },
    )
}

/// Performing the steps of the bring-up in order leaves the peripheral
/// configured, whatever state it was in.
pub proof fn lemma_bring_up_configures(
    state: State,
    apb1: Apb1,
    bit: u32,
    remap: bool,
    timing: Timing,
)
    requires
        bit != 0,
    ensures
        state.setup_all(apb1, bit, bring_up_steps(remap, timing), 0) == configured(
            state,
            apb1,
            bit,
            remap,
            timing,
        ),
{
    let steps = bring_up_steps(remap, timing);
    let enr = apb1.enr;
    let rstr = apb1.rstr;
    assert(holds(enr | bit, bit)) by {
        lemma_set_bits(enr, bit, bit);
    }
    assert(!holds((rstr | bit) & !bit, bit)) by {
        lemma_clear_bits(rstr | bit, bit, bit);
    }
    assert((rstr | bit) & !bit == rstr & !bit) by (bit_vector);
    assert(!holds(0u32, CR1_PE)) by (bit_vector);
    reveal_with_fuel(State::setup_all, 10);
    if remap {
        assert(steps.len() == 8);
        assert(steps[3] == SetupStep::EngageRemap);
    } else {
        assert(steps.len() == 7);
    }
}

/// Bringing a peripheral up a second time, with the same pins and timing,
/// ends as the first bring-up did: what is released after a bring-up can be
/// taken again.
pub proof fn lemma_configure_again(state: State, apb1: Apb1, bit: u32, remap: bool, timing: Timing)
    ensures
        ({
            let once = configured(state, apb1, bit, remap, timing);
            configured(once.0, once.1, bit, remap, timing) == once
        }),
{
    let enr = apb1.enr;
    let rstr = apb1.rstr;
    assert((enr | bit) | bit == enr | bit) by (bit_vector);
    assert((rstr & !bit) & !bit == rstr & !bit) by (bit_vector);
}

/// Brings the peripheral up for the instance with the given APB1 bit.
pub fn configure(regs: &mut Peripheral, apb1: &mut Apb1, bit: u32, remap: bool, timing: Timing)
    requires
        bit != 0,
    ensures
        final(regs).well_formed() == old(regs).well_formed(),
        (final(regs)@, *final(apb1)) == configured(old(regs)@, *old(apb1), bit, remap, timing),
{
    let steps = bring_up(remap, timing);
    let mut done: usize = 0;
    while done < steps.len()
        invariant
            done <= steps.len(),
            steps@ == bring_up_steps(remap, timing),
            regs.well_formed() == old(regs).well_formed(),
            regs@.setup_all(*apb1, bit, steps@, done as int) == old(regs)@.setup_all(
                *old(apb1),
                bit,
                steps@,
                0,
            ),
        decreases steps.len() - done,
    {
        regs.setup(apb1, bit, steps[done]);
        done = done + 1;
    }
    proof {
        lemma_bring_up_configures(old(regs)@, *old(apb1), bit, remap, timing);
    }
}

/// How far a phase is from the end of a transaction that sends nothing
/// more.
pub open spec fn rank(phase: Phase) -> int {
    match phase {
        Phase::Idle => 7,
        Phase::Starting => 6,
        Phase::Started => 5,
        Phase::Addressing => 4,
        Phase::Addressed => 3,
        Phase::Sending => 2,
        Phase::Loading => 1,
        Phase::Done(_) => 0,
    }
}

/// What a transaction leaves alone: the timing, the routing and whether the
/// peripheral is enabled.
pub open spec fn same_settings(before: State, after: State) -> bool {
    &&& same_timing(before, after)
    &&& holds(after.cr1, CR1_PE) == holds(before.cr1, CR1_PE)
}

/// Sends `bytes` to the device at `addr` in one write transaction, as far as
/// the bus lets it go. The result is `None` where the bus stopped raising
/// flags while one was awaited: the hardware would then be sampled without
/// end.
pub fn transact(regs: &mut Peripheral, addr: u8, bytes: &[u8]) -> (outcome: Option<
    Result<(), Error>,
>)
    requires
        old(regs).well_formed(),
        1 <= bytes.len() <= 255,
    ensures
        final(regs).well_formed(),
        (Run { state: final(regs)@, outcome }) == write_run(old(regs)@, addr, bytes@),
        same_settings(old(regs)@, final(regs)@),
{
    let mut transfer = Transfer::begin(addr, bytes.len());
    loop
        invariant
            regs.well_formed(),
            transfer.well_formed(),
            transfer.addr == addr,
            transfer.len == bytes.len(),
            rest_of(transfer, regs@, bytes@) == write_run(old(regs)@, addr, bytes@),
            same_settings(old(regs)@, regs@),
        decreases regs@.pending.len(), transfer.len - transfer.sent, rank(transfer.phase),
    {
        let ghost before = regs@;
        match transfer.request(bytes) {
            Request::Done(result) => {
                return Some(result);
            },
            Request::SetStart => {
                regs.set_start();
                proof {
                    lemma_set_bits(before.cr1, CR1_START, CR1_PE);
                    assert(CR1_PE & CR1_START == 0) by (bit_vector);
                }
                transfer = transfer.advance(0);
            },
            Request::WriteDr(byte) => {
                regs.write_dr(byte);
                transfer = transfer.advance(0);
            },
            Request::ReadSr2 => {
                regs.read_sr2();
                transfer = transfer.advance(0);
            },
            Request::ReadSr1 => {
                let more = regs.has_pending();
                let value = regs.read_sr1();
                proof {
                    lemma_clear_bits(before.cr1, CR1_START, CR1_PE);
                    assert(CR1_PE & CR1_START == 0) by (bit_vector);
                }
                transfer = transfer.advance(value);
                if !more && transfer.is_waiting() {
                    return None;
                }
            },
        }
    }
}

/// A peripheral that is enabled, with a timing that the hardware accepts.
pub open spec fn is_master(state: State) -> bool {
    &&& holds(state.cr1, CR1_PE)
    &&& (Timing { freq_range: state.cr2, trise: state.trise, ccr: state.ccr }).well_formed()
}

/// The bring-up leaves the peripheral enabled, clocked and out of reset.
pub proof fn lemma_configured_is_master(enr: u32, rstr: u32, bit: u32)
    requires
        bit != 0,
    ensures
        holds(CR1_PE, CR1_PE),
        (Apb1 { enr: enr | bit, rstr: rstr & !bit }).live(bit),
{
    assert(holds(CR1_PE, CR1_PE)) by (bit_vector);
    lemma_set_bits(enr, bit, bit);
    lemma_clear_bits(rstr, bit, bit);
}

/// I2C peripheral operating in master mode
pub struct I2c<I2C, PINS> {
    i2c: I2C,
    pins: PINS,
}

impl<I2C, PINS> I2c<I2C, PINS> {
    /// The peripheral that the master holds.
    pub closed spec fn peripheral(&self) -> I2C {
        self.i2c
    }

    /// The pins that the master holds.
    pub closed spec fn pins(&self) -> PINS {
        self.pins
    }
}

impl<PINS: Pins<I2C1>> I2c<I2C1, PINS> {
    /// What every master keeps to: its model is well formed and its
    /// peripheral is an enabled master.
    pub open spec fn inv(&self) -> bool {
        &&& self.peripheral().regs.well_formed()
        &&& is_master(self.peripheral().regs@)
    }

    /// Configures the first instance to work in master mode at the bus
    /// frequency `freq`, and takes the peripheral and its pins.
    pub fn i2c1(i2c: I2C1, pins: PINS, freq: Hertz, clocks: Clocks, apb1: &mut Apb1) -> (master:
        Self)
        requires
            i2c.regs.well_formed(),
            valid_request(clocks.pclk1.0, freq.0),
        ensures
            master.inv(),
            master.pins() == pins,
            (master.peripheral().regs@, *final(apb1)) == configured(
                i2c.regs@,
                *old(apb1),
                APB1_I2C1,
                PINS::REMAP,
                Timing::of(clocks.pclk1.0, freq.0),
            ),
            final(apb1).live(APB1_I2C1),
    {
        let timing = Timing::new(clocks.pclk1.0, freq.0);
        let mut i2c = i2c;
        configure(&mut i2c.regs, apb1, APB1_I2C1, PINS::REMAP, timing);
        proof {
            lemma_configured_is_master(old(apb1).enr, old(apb1).rstr, APB1_I2C1);
        }
        I2c { i2c, pins }
    }

    /// Releases the peripheral and its pins, as they are.
    pub fn free(self) -> (parts: (I2C1, PINS))
        ensures
            parts.0 == self.peripheral(),
            parts.1 == self.pins(),
    {
        (self.i2c, self.pins)
    }

    /// Sends `bytes` to the device at `addr` in one write transaction. The
    /// address is given as it goes on the bus, its lowest bit clear. The
    /// result is `None` where the bus stopped raising flags while one was
    /// awaited.
    pub fn write(&mut self, addr: u8, bytes: &[u8]) -> (outcome: Option<Result<(), Error>>)
        requires
            old(self).inv(),
            1 <= bytes.len() <= 255,
        ensures
            final(self).inv(),
            final(self).pins() == old(self).pins(),
            (Run { state: final(self).peripheral().regs@, outcome }) == write_run(
                old(self).peripheral().regs@,
                addr,
                bytes@,
            ),
    {
        transact(&mut self.i2c.regs, addr, bytes)
    }

    /// Sends `bytes` to the device at `addr`, then reads into `buffer`. The
    /// operation is declared for callers to build on: it checks nothing on
    /// the bus, touches neither the peripheral nor `buffer`, and succeeds.
    pub fn write_read(&mut self, addr: u8, bytes: &[u8], buffer: &mut [u8]) -> (result: Result<
        (),
        Error,
    >)
        requires
            1 <= bytes.len() <= 255,
            1 <= old(buffer).len() <= 255,
        ensures
            result == Ok::<(), Error>(()),
            *final(self) == *old(self),
            final(buffer)@ == old(buffer)@,
    {
        Ok(())
    }
}

impl<PINS: Pins<I2C2>> I2c<I2C2, PINS> {
    /// What every master keeps to: its model is well formed and its
    /// peripheral is an enabled master.
    pub open spec fn inv(&self) -> bool {
        &&& self.peripheral().regs.well_formed()
        &&& is_master(self.peripheral().regs@)
    }

    /// Configures the second instance to work in master mode at the bus
    /// frequency `freq`, and takes the peripheral and its pins.
    pub fn i2c2(i2c: I2C2, pins: PINS, freq: Hertz, clocks: Clocks, apb1: &mut Apb1) -> (master:
        Self)
        requires
            i2c.regs.well_formed(),
            valid_request(clocks.pclk1.0, freq.0),
        ensures
            master.inv(),
            master.pins() == pins,
            (master.peripheral().regs@, *final(apb1)) == configured(
                i2c.regs@,
                *old(apb1),
                APB1_I2C2,
                PINS::REMAP,
                Timing::of(clocks.pclk1.0, freq.0),
            ),
            final(apb1).live(APB1_I2C2),
    {
        let timing = Timing::new(clocks.pclk1.0, freq.0);
        let mut i2c = i2c;
        configure(&mut i2c.regs, apb1, APB1_I2C2, PINS::REMAP, timing);
        proof {
            lemma_configured_is_master(old(apb1).enr, old(apb1).rstr, APB1_I2C2);
        }
        I2c { i2c, pins }
    }

    /// Releases the peripheral and its pins, as they are.
    pub fn free(self) -> (parts: (I2C2, PINS))
        ensures
            parts.0 == self.peripheral(),
            parts.1 == self.pins(),
    {
        (self.i2c, self.pins)
    }

    /// Sends `bytes` to the device at `addr` in one write transaction. The
    /// address is given as it goes on the bus, its lowest bit clear. The
    /// result is `None` where the bus stopped raising flags while one was
    /// awaited.
    pub fn write(&mut self, addr: u8, bytes: &[u8]) -> (outcome: Option<Result<(), Error>>)
        requires
            old(self).inv(),
            1 <= bytes.len() <= 255,
        ensures
            final(self).inv(),
            final(self).pins() == old(self).pins(),
            (Run { state: final(self).peripheral().regs@, outcome }) == write_run(
                old(self).peripheral().regs@,
                addr,
                bytes@,
            ),
    {
        transact(&mut self.i2c.regs, addr, bytes)
    }

    /// Sends `bytes` to the device at `addr`, then reads into `buffer`. The
    /// operation is declared for callers to build on: it checks nothing on
    /// the bus, touches neither the peripheral nor `buffer`, and succeeds.
    pub fn write_read(&mut self, addr: u8, bytes: &[u8], buffer: &mut [u8]) -> (result: Result<
        (),
        Error,
    >)
        requires
            1 <= bytes.len() <= 255,
            1 <= old(buffer).len() <= 255,
        ensures
            result == Ok::<(), Error>(()),
            *final(self) == *old(self),
            final(buffer)@ == old(buffer)@,
    {
        Ok(())
    }
}

} // verus!
