//! Decoding of the fault status register.
use vstd::prelude::*;
use crate::registers::{
    SR_CJ_HIGH, SR_CJ_LOW, SR_CJ_RANGE, SR_OPEN, SR_OVUV, SR_TC_HIGH, SR_TC_LOW, SR_TC_RANGE,
};

verus! {

/// Whether bit `k` (0 = least significant) of `b` is set.
pub open spec fn bit_set(b: u8, k: u8) -> bool {
    (b >> k) & 1u8 == 1u8
}

/// The fault conditions reported by one read of the fault status register.
#[derive(Clone, Copy, Debug, PartialEq, Eq, Structural)]
pub struct FaultStatus {
    /// Cold-junction out of range (bit 7).
    pub cj_range: bool,
    /// Thermocouple out of range (bit 6).
    pub tc_range: bool,
    /// Cold junction above its high threshold (bit 5).
    pub cj_high: bool,
    /// Cold junction below its low threshold (bit 4).
    pub cj_low: bool,
    /// Thermocouple above its high threshold (bit 3).
    pub tc_high: bool,
    /// Thermocouple below its low threshold (bit 2).
    pub tc_low: bool,
    /// Overvoltage or undervoltage on the inputs (bit 1).
    pub ovuv: bool,
    /// Thermocouple open circuit (bit 0).
    pub open: bool,
}

impl FaultStatus {
    /// The flag held by status bit `k`.
    pub open spec fn flag(self, k: u8) -> bool {
        if k == 7 {
            self.cj_range
        } else if k == 6 {
            self.tc_range
        } else if k == 5 {
            self.cj_high
        } else if k == 4 {
            self.cj_low
        } else if k == 3 {
            self.tc_high
        } else if k == 2 {
            self.tc_low
        } else if k == 1 {
            self.ovuv
        } else if k == 0 {
            self.open
        } else {
            false
        }
    }

    /// Whether any of the eight flags is set.
    pub open spec fn any(self) -> bool {
        self.cj_range || self.tc_range || self.cj_high || self.cj_low || self.tc_high
            || self.tc_low || self.ovuv || self.open
    }

    /// The flags that status byte `reg` stands for: each one is its bit.
    pub open spec fn decoded(reg: u8) -> FaultStatus {
        FaultStatus {
            cj_range: bit_set(reg, 7),
            tc_range: bit_set(reg, 6),
            cj_high: bit_set(reg, 5),
            cj_low: bit_set(reg, 4),
            tc_high: bit_set(reg, 3),
            tc_low: bit_set(reg, 2),
            ovuv: bit_set(reg, 1),
            open: bit_set(reg, 0),
        }
    }

    /// Decodes a fault status byte.
    pub fn from_register(reg: u8) -> (r: FaultStatus)
        ensures
            r == FaultStatus::decoded(reg),
    {
        assert(((reg & SR_CJ_RANGE) != 0) == bit_set(reg, 7)) by (bit_vector);
        assert(((reg & SR_TC_RANGE) != 0) == bit_set(reg, 6)) by (bit_vector);
        assert(((reg & SR_CJ_HIGH) != 0) == bit_set(reg, 5)) by (bit_vector);
        assert(((reg & SR_CJ_LOW) != 0) == bit_set(reg, 4)) by (bit_vector);
        assert(((reg & SR_TC_HIGH) != 0) == bit_set(reg, 3)) by (bit_vector);
        assert(((reg & SR_TC_LOW) != 0) == bit_set(reg, 2)) by (bit_vector);
        assert(((reg & SR_OVUV) != 0) == bit_set(reg, 1)) by (bit_vector);
        assert(((reg & SR_OPEN) != 0) == bit_set(reg, 0)) by (bit_vector);
        FaultStatus {
            cj_range: (reg & SR_CJ_RANGE) != 0,
            tc_range: (reg & SR_TC_RANGE) != 0,
            cj_high: (reg & SR_CJ_HIGH) != 0,
            cj_low: (reg & SR_CJ_LOW) != 0,
            tc_high: (reg & SR_TC_HIGH) != 0,
            tc_low: (reg & SR_TC_LOW) != 0,
            ovuv: (reg & SR_OVUV) != 0,
            open: (reg & SR_OPEN) != 0,
        }
    }

    /// Whether any fault is reported.
    pub fn has_fault(&self) -> (r: bool)
        ensures
            r == self.any(),
    {
        self.cj_range || self.tc_range || self.cj_high || self.cj_low || self.tc_high
            || self.tc_low || self.ovuv || self.open
    }
}

/// Decoding sets exactly the flags whose bits are set in the status byte,
/// and a fault is reported exactly when the byte is nonzero.
pub proof fn lemma_decode_exact(reg: u8)
    ensures
        forall|k: u8| k < 8 ==> #[trigger] FaultStatus::decoded(reg).flag(k) == bit_set(reg, k),
        forall|k: u8| k >= 8 ==> !#[trigger] FaultStatus::decoded(reg).flag(k),
        FaultStatus::decoded(reg).any() <==> reg != 0,
{
    assert(reg != 0 <==> (bit_set(reg, 7) || bit_set(reg, 6) || bit_set(reg, 5) || bit_set(reg, 4)
        || bit_set(reg, 3) || bit_set(reg, 2) || bit_set(reg, 1) || bit_set(reg, 0)))
        by (bit_vector);
}

} // verus!
