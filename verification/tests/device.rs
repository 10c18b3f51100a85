use i2c_master::device::{Apb1, Peripheral};
use i2c_master::registers::{
    is_set, APB1_I2C1, APB1_I2C2, CR1_START, SR1_ADDR, SR1_SB, SR1_TXE, TRISE_RESET,
};

#[test]
fn a_new_peripheral_is_in_reset_state() {
    let regs = Peripheral::new(vec![SR1_SB]);
    assert_eq!(regs.cr1, 0);
    assert_eq!(regs.cr2, 0);
    assert_eq!(regs.ccr, 0);
    assert_eq!(regs.trise, TRISE_RESET);
    assert_eq!(regs.sr1, 0);
    assert!(!regs.remap);
    assert_eq!(regs.cursor, 0);
    assert!(regs.sent.is_empty());
    assert!(regs.has_pending());
}

#[test]
fn reading_sr1_raises_one_entry() {
    let mut regs = Peripheral::new(vec![SR1_SB, SR1_ADDR]);
    assert_eq!(regs.read_sr1(), SR1_SB);
    assert!(regs.has_pending());
    assert_eq!(regs.read_sr1(), SR1_SB | SR1_ADDR);
    assert!(!regs.has_pending());
    assert_eq!(regs.read_sr1(), SR1_SB | SR1_ADDR);
    assert_eq!(regs.cursor, 2);
}

#[test]
fn a_start_condition_clears_the_request_for_it() {
    let mut regs = Peripheral::new(vec![0, SR1_SB]);
    regs.set_start();
    assert_eq!(regs.cr1, CR1_START);
    regs.read_sr1();
    assert_eq!(regs.cr1, CR1_START);
    regs.read_sr1();
    assert_eq!(regs.cr1, 0);
}

#[test]
fn writing_dr_clears_sb_and_txe() {
    let mut regs = Peripheral::new(vec![SR1_SB | SR1_ADDR | SR1_TXE]);
    regs.read_sr1();
    regs.write_dr(0x42);
    assert_eq!(regs.sr1, SR1_ADDR);
    assert_eq!(regs.sent, vec![0x42]);
}

#[test]
fn reading_sr2_clears_addr() {
    let mut regs = Peripheral::new(vec![SR1_SB | SR1_ADDR | SR1_TXE]);
    regs.read_sr1();
    regs.read_sr2();
    assert_eq!(regs.sr1, SR1_SB | SR1_TXE);
    assert!(regs.sent.is_empty());
}

#[test]
fn live_means_clocked_and_out_of_reset() {
    assert!(Apb1 { enr: APB1_I2C1, rstr: 0 }.is_live(APB1_I2C1));
    assert!(Apb1 { enr: APB1_I2C1, rstr: APB1_I2C2 }.is_live(APB1_I2C1));
    assert!(!Apb1 { enr: APB1_I2C1, rstr: APB1_I2C1 }.is_live(APB1_I2C1));
    assert!(!Apb1 { enr: APB1_I2C2, rstr: 0 }.is_live(APB1_I2C1));
    assert!(!Apb1 { enr: 0, rstr: 0 }.is_live(APB1_I2C2));
}

#[test]
fn is_set_looks_at_the_flag_only() {
    assert!(is_set(0x0183, SR1_TXE));
    assert!(!is_set(0x0103, SR1_TXE));
    assert!(!is_set(0, SR1_SB));
    assert!(is_set(0xFFFF_FFFF, SR1_SB));
}
