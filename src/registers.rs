//! Register addresses and bit fields of the MAX31856.
//!
//! A write address is the read address with the high bit set.
use vstd::prelude::*;

verus! {

// Read addresses.
pub const CR0_READ: u8 = 0x00;
pub const CR1_READ: u8 = 0x01;
pub const MASK_READ: u8 = 0x02;
pub const CJHF_READ: u8 = 0x03;
pub const CJLF_READ: u8 = 0x04;
pub const LTHFTH_READ: u8 = 0x05;
pub const LTHFTL_READ: u8 = 0x06;
pub const LTLFTH_READ: u8 = 0x07;
pub const LTLFTL_READ: u8 = 0x08;
pub const CJTO_READ: u8 = 0x09;
pub const CJTH_READ: u8 = 0x0A;
pub const CJTL_READ: u8 = 0x0B;
/// Linearized thermocouple temperature, most significant byte; the two
/// following bytes are read in the same transaction.
pub const LTCBH_READ: u8 = 0x0C;
pub const LTCBM_READ: u8 = 0x0D;
pub const LTCBL_READ: u8 = 0x0E;
/// Fault status register.
pub const SR_READ: u8 = 0x0F;

/// Number of registers, all readable at addresses `0..REGISTER_COUNT`.
pub const REGISTER_COUNT: u8 = 16;

/// High bit that turns a read address into the write address of the same register.
pub const WRITE_FLAG: u8 = 0x80;

// Write addresses.
pub const CR0_WRITE: u8 = 0x80;
pub const CR1_WRITE: u8 = 0x81;
pub const MASK_WRITE: u8 = 0x82;
pub const CJHF_WRITE: u8 = 0x83;
pub const CJLF_WRITE: u8 = 0x84;
pub const LTHFTH_WRITE: u8 = 0x85;
pub const LTHFTL_WRITE: u8 = 0x86;
pub const LTLFTH_WRITE: u8 = 0x87;
pub const LTLFTL_WRITE: u8 = 0x88;
pub const CJTO_WRITE: u8 = 0x89;

// CR0: noise filter (bit 0).
pub const CR0_FILTER_60HZ: u8 = 0x00;
pub const CR0_FILTER_50HZ: u8 = 0x01;
/// CR0: fault status clear (bit 1).
pub const CR0_FAULTCLR: u8 = 0x02;
/// CR0: interrupt fault mode rather than comparator mode (bit 2).
pub const CR0_FAULT_INTERRUPT: u8 = 0x04;
// CR0: cold-junction sensor (bit 3).
pub const CR0_CJ_DISABLED: u8 = 0x08;
pub const CR0_CJ_ENABLED: u8 = 0x00;
// CR0: open-circuit detection (bits 5:4).
pub const CR0_OC_DISABLED: u8 = 0x00;
pub const CR0_OC_ENABLED_RS_LT_5K: u8 = 0x10;
pub const CR0_OC_ENABLED_TC_LESS_2MS: u8 = 0x20;
pub const CR0_OC_ENABLED_TC_MORE_2MS: u8 = 0x30;
// CR0: conversion mode (bits 7:6).
pub const CR0_ONESHOT: u8 = 0x40;
pub const CR0_CONV_NORMALLY_OFF: u8 = 0x00;
pub const CR0_CONV_CONTINUOUS: u8 = 0x80;

// CR1: thermocouple type (bits 3:0).
pub const CR1_TC_TYPE_B: u8 = 0x0;
pub const CR1_TC_TYPE_E: u8 = 0x1;
pub const CR1_TC_TYPE_J: u8 = 0x2;
pub const CR1_TC_TYPE_K: u8 = 0x3;
pub const CR1_TC_TYPE_N: u8 = 0x4;
pub const CR1_TC_TYPE_R: u8 = 0x5;
pub const CR1_TC_TYPE_S: u8 = 0x6;
pub const CR1_TC_TYPE_T: u8 = 0x7;

// CR1: averaging mode (bits 6:4).
pub const CR1_AVG_1_SAMPLE: u8 = 0x00;
pub const CR1_AVG_2_SAMPLES: u8 = 0x10;
pub const CR1_AVG_4_SAMPLES: u8 = 0x20;
pub const CR1_AVG_8_SAMPLES: u8 = 0x30;
pub const CR1_AVG_16_SAMPLES: u8 = 0x40;

// Fault mask register: a set bit masks (disables) that fault.
pub const MASK_CJ_HIGH: u8 = 0x20;
pub const MASK_CJ_LOW: u8 = 0x10;
pub const MASK_TC_HIGH: u8 = 0x08;
pub const MASK_TC_LOW: u8 = 0x04;
pub const MASK_OVUV: u8 = 0x02;
pub const MASK_OPEN: u8 = 0x01;
pub const MASK_ALL_FAULTS: u8 = 0xFF;
pub const UNMASK_ALL_FAULTS: u8 = 0x00;

// Fault status register bits.
pub const SR_CJ_RANGE: u8 = 0x80;
pub const SR_TC_RANGE: u8 = 0x40;
pub const SR_CJ_HIGH: u8 = 0x20;
pub const SR_CJ_LOW: u8 = 0x10;
pub const SR_TC_HIGH: u8 = 0x08;
pub const SR_TC_LOW: u8 = 0x04;
pub const SR_OVUV: u8 = 0x02;
pub const SR_OPEN: u8 = 0x01;

/// The write address of the register read at `read_addr`.
pub open spec fn write_address(read_addr: u8) -> u8 {
    (read_addr + WRITE_FLAG) as u8
}

/// Every writable register's write address is its read address with the
/// high bit set.
pub proof fn lemma_write_addresses()
    ensures
        CR0_WRITE == write_address(CR0_READ),
        CR1_WRITE == write_address(CR1_READ),
        MASK_WRITE == write_address(MASK_READ),
        CJHF_WRITE == write_address(CJHF_READ),
        CJLF_WRITE == write_address(CJLF_READ),
        LTHFTH_WRITE == write_address(LTHFTH_READ),
        LTHFTL_WRITE == write_address(LTHFTL_READ),
        LTLFTH_WRITE == write_address(LTLFTH_READ),
        LTLFTL_WRITE == write_address(LTLFTL_READ),
        CJTO_WRITE == write_address(CJTO_READ),
{
}

} // verus!
