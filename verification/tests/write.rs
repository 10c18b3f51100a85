use i2c_master::device::{Apb1, Peripheral, I2C1, I2C2};
use i2c_master::error::Error;
use i2c_master::i2c::{transact, I2c};
use i2c_master::pins::{PB10, PB11, PB6, PB7};
use i2c_master::registers::{
    CR1_PE, CR1_START, SR1_ADDR, SR1_ARLO, SR1_BERR, SR1_SB, SR1_TXE,
};
use i2c_master::timing::{Clocks, Hertz};
use i2c_master::transfer::{poll, Phase, Request, Transfer, Verdict};

fn master(events: Vec<u32>) -> I2c<I2C1, (PB6, PB7)> {
    let mut apb1 = Apb1 { enr: 0, rstr: 0 };
    let clocks = Clocks { pclk1: Hertz(8_000_000) };
    I2c::i2c1(I2C1 { regs: Peripheral::new(events) }, (PB6, PB7), Hertz(100_000), clocks, &mut apb1)
}

#[test]
fn write_one_byte() {
    let mut i2c = master(vec![SR1_SB, SR1_ADDR, SR1_TXE]);
    assert_eq!(i2c.write(0x50 << 1, &[0xAA]), Some(Ok(())));
    let (i2c1, _pins) = i2c.free();
    assert_eq!(i2c1.regs.sent, vec![0xA0, 0xAA]);
    assert_eq!(i2c1.regs.sr1 & (SR1_SB | SR1_ADDR), 0);
    assert_eq!(i2c1.regs.cursor, 3);
}

#[test]
fn bus_error_after_start() {
    let mut i2c = master(vec![SR1_BERR, SR1_SB, SR1_ADDR, SR1_TXE]);
    assert_eq!(i2c.write(0x50 << 1, &[0xAA]), Some(Err(Error::Bus)));
    let (i2c1, _pins) = i2c.free();
    assert_eq!(i2c1.regs.sent, Vec::<u8>::new());
    assert_ne!(i2c1.regs.sr1 & SR1_BERR, 0);
}

#[test]
fn bus_error_while_the_address_is_sent() {
    let mut i2c = master(vec![SR1_SB, SR1_BERR, SR1_ADDR, SR1_TXE]);
    assert_eq!(i2c.write(0x50 << 1, &[0xAA]), Some(Err(Error::Bus)));
    let (i2c1, _pins) = i2c.free();
    assert_eq!(i2c1.regs.sent, vec![0xA0]);
}

#[test]
fn arbitration_lost_after_the_address() {
    let mut i2c = master(vec![SR1_SB, SR1_ADDR, SR1_ARLO]);
    assert_eq!(i2c.write(0x50 << 1, &[0xAA]), Some(Err(Error::Arbitration)));
    let (i2c1, _pins) = i2c.free();
    assert_eq!(i2c1.regs.sent, vec![0xA0, 0xAA]);
    assert_ne!(i2c1.regs.sr1 & SR1_ARLO, 0);
}

#[test]
fn bus_error_comes_before_arbitration_loss() {
    let mut i2c = master(vec![SR1_SB, SR1_ARLO | SR1_BERR | SR1_ADDR]);
    assert_eq!(i2c.write(0x50 << 1, &[0xAA]), Some(Err(Error::Bus)));
}

#[test]
fn error_comes_before_the_awaited_flag() {
    let mut i2c = master(vec![SR1_SB | SR1_ARLO]);
    assert_eq!(i2c.write(0x50 << 1, &[0xAA]), Some(Err(Error::Arbitration)));
    let (i2c1, _pins) = i2c.free();
    assert_eq!(i2c1.regs.sent, Vec::<u8>::new());
}

#[test]
fn other_flags_are_sampled_again() {
    let mut i2c = master(vec![0, SR1_TXE, SR1_SB, 0, 0, SR1_ADDR, SR1_ADDR, 0, SR1_TXE]);
    assert_eq!(i2c.write(0x3C << 1, &[0x01]), Some(Ok(())));
    let (i2c1, _pins) = i2c.free();
    assert_eq!(i2c1.regs.sent, vec![0x78, 0x01]);
    // The second ADDR was raised after SR2 had been read, and stays.
    assert_eq!(i2c1.regs.sr1 & SR1_SB, 0);
    assert_ne!(i2c1.regs.sr1 & SR1_ADDR, 0);
}

#[test]
fn a_silent_bus_ends_nothing() {
    let mut i2c = master(vec![]);
    assert_eq!(i2c.write(0x50 << 1, &[0xAA]), None);
    let (i2c1, _pins) = i2c.free();
    assert_eq!(i2c1.regs.sent, Vec::<u8>::new());
    assert_ne!(i2c1.regs.cr1 & CR1_START, 0);
}

#[test]
fn a_missing_acknowledgement_ends_nothing() {
    let mut i2c = master(vec![SR1_SB, 0, 0]);
    assert_eq!(i2c.write(0x50 << 1, &[0xAA]), None);
    let (i2c1, _pins) = i2c.free();
    assert_eq!(i2c1.regs.sent, vec![0xA0]);
    assert_eq!(i2c1.regs.cursor, 3);
}

#[test]
fn each_byte_waits_for_an_empty_register() {
    let mut i2c = master(vec![SR1_SB, SR1_ADDR, SR1_TXE]);
    assert_eq!(i2c.write(0x50 << 1, &[1, 2]), None);
    let (i2c1, _pins) = i2c.free();
    assert_eq!(i2c1.regs.sent, vec![0xA0, 1, 2]);
}

#[test]
fn flags_raised_at_once_stay_until_they_are_cleared() {
    // ADDR is raised together with SB and is still set when it is awaited.
    let mut i2c = master(vec![SR1_SB | SR1_ADDR, 0, SR1_TXE]);
    assert_eq!(i2c.write(0x50 << 1, &[0xAA]), Some(Ok(())));
    let (i2c1, _pins) = i2c.free();
    assert_eq!(i2c1.regs.sent, vec![0xA0, 0xAA]);
    assert_eq!(i2c1.regs.sr1 & (SR1_SB | SR1_ADDR), 0);
}

#[test]
fn write_255_bytes() {
    let bytes: Vec<u8> = (0..255u32).map(|i| (i * 7 % 256) as u8).collect();
    let mut events = vec![SR1_SB, SR1_ADDR];
    events.extend(std::iter::repeat(SR1_TXE).take(255));
    let mut i2c = master(events);
    assert_eq!(i2c.write(0x10, &bytes), Some(Ok(())));
    let (i2c1, _pins) = i2c.free();
    assert_eq!(i2c1.regs.sent.len(), 256);
    assert_eq!(i2c1.regs.sent[0], 0x10);
    assert_eq!(&i2c1.regs.sent[1..], &bytes[..]);
    assert_eq!(i2c1.regs.cursor, 257);
}

#[test]
fn a_write_keeps_the_peripheral_enabled() {
    let mut i2c = master(vec![SR1_SB, SR1_ADDR, SR1_TXE]);
    assert_eq!(i2c.write(0x50 << 1, &[0xAA]), Some(Ok(())));
    let (i2c1, _pins) = i2c.free();
    assert_eq!(i2c1.regs.cr1, CR1_PE);
    assert_eq!(i2c1.regs.cr2, 8);
    assert_eq!(i2c1.regs.trise, 9);
    assert_eq!(i2c1.regs.ccr, 40);
}

#[test]
fn two_writes_in_a_row() {
    let mut i2c = master(vec![SR1_SB, SR1_ADDR, SR1_TXE, SR1_SB, SR1_ADDR, SR1_TXE, SR1_TXE]);
    assert_eq!(i2c.write(0xA0, &[1]), Some(Ok(())));
    assert_eq!(i2c.write(0xA2, &[2, 3]), Some(Ok(())));
    let (i2c1, _pins) = i2c.free();
    assert_eq!(i2c1.regs.sent, vec![0xA0, 1, 0xA2, 2, 3]);
}

#[test]
fn second_instance_writes_alike() {
    let mut apb1 = Apb1 { enr: 0, rstr: 0 };
    let clocks = Clocks { pclk1: Hertz(36_000_000) };
    let regs = Peripheral::new(vec![SR1_SB, SR1_ADDR, SR1_TXE]);
    let mut i2c = I2c::i2c2(I2C2 { regs }, (PB10, PB11), Hertz(100_000), clocks, &mut apb1);
    assert_eq!(i2c.write(0x50 << 1, &[0xAA]), Some(Ok(())));
    let (i2c2, _pins) = i2c.free();
    assert_eq!(i2c2.regs.sent, vec![0xA0, 0xAA]);
}

#[test]
fn transact_on_a_bare_peripheral() {
    let mut regs = Peripheral::new(vec![SR1_SB, SR1_ADDR, SR1_TXE, SR1_BERR]);
    assert_eq!(transact(&mut regs, 0x20, &[9, 8]), Some(Err(Error::Bus)));
    assert_eq!(regs.sent, vec![0x20, 9, 8]);
}

#[test]
fn write_read_is_declared_only() {
    let mut i2c = master(vec![SR1_SB, SR1_ADDR, SR1_TXE]);
    let mut buffer = [0x55u8; 4];
    assert_eq!(i2c.write_read(0x50 << 1, &[0x00], &mut buffer), Ok(()));
    assert_eq!(buffer, [0x55u8; 4]);
    let (i2c1, _pins) = i2c.free();
    assert_eq!(i2c1.regs.sent, Vec::<u8>::new());
    assert_eq!(i2c1.regs.cursor, 0);
}

#[test]
fn poll_checks_errors_first() {
    assert_eq!(poll(SR1_BERR | SR1_ARLO | SR1_TXE, SR1_TXE), Verdict::Failed(Error::Bus));
    assert_eq!(poll(SR1_ARLO | SR1_TXE, SR1_TXE), Verdict::Failed(Error::Arbitration));
    assert_eq!(poll(SR1_TXE, SR1_TXE), Verdict::Ready);
    assert_eq!(poll(SR1_SB | SR1_ADDR, SR1_TXE), Verdict::Retry);
    assert_eq!(poll(0, SR1_SB), Verdict::Retry);
}

#[test]
fn the_machine_asks_for_one_access_at_a_time() {
    let bytes = [0xAAu8];
    let mut t = Transfer::begin(0xA0, 1);
    let mut asked = Vec::new();
    let samples = [0u32, SR1_SB, 0, SR1_ADDR, 0, 0, SR1_TXE];
    let mut next = 0;
    loop {
        let request = t.request(&bytes);
        asked.push(request);
        match request {
            Request::Done(_) => break,
            Request::ReadSr1 => {
                t = t.advance(samples[next]);
                next += 1;
            }
            _ => t = t.advance(0),
        }
    }
    assert_eq!(
        asked,
        vec![
            Request::SetStart,
            Request::ReadSr1,
            Request::ReadSr1,
            Request::WriteDr(0xA0),
            Request::ReadSr1,
            Request::ReadSr1,
            Request::ReadSr2,
            Request::WriteDr(0xAA),
            Request::ReadSr1,
            Request::ReadSr1,
            Request::ReadSr1,
            Request::Done(Ok(())),
        ]
    );
    assert_eq!(t.phase, Phase::Done(Ok(())));
    assert_eq!(t.sent, 1);
}

#[test]
fn a_finished_machine_stays_finished() {
    let bytes = [1u8];
    let mut t = Transfer::begin(0xA0, 1);
    t = t.advance(0);
    t = t.advance(SR1_BERR);
    assert_eq!(t.request(&bytes), Request::Done(Err(Error::Bus)));
    t = t.advance(SR1_SB);
    assert_eq!(t.request(&bytes), Request::Done(Err(Error::Bus)));
    assert!(!t.is_waiting());
}
