//! The register transactions that configure a chip, set its thresholds,
//! clear its faults and read its registers back.
use vstd::prelude::*;
use crate::bus::{single_read_byte, single_read_value, BusReply, BusRequest};
use crate::fault::FaultStatus;
use crate::registers::{
    CJHF_WRITE, CJLF_WRITE, CJTO_WRITE, CR0_CJ_ENABLED, CR0_CONV_CONTINUOUS, CR0_FAULTCLR,
    CR0_FAULT_INTERRUPT, CR0_FILTER_60HZ, CR0_OC_ENABLED_RS_LT_5K, CR0_READ, CR0_WRITE,
    CR1_AVG_4_SAMPLES, CR1_TC_TYPE_K, CR1_WRITE, LTHFTH_WRITE, LTHFTL_WRITE, LTLFTH_WRITE,
    LTLFTL_WRITE, MASK_WRITE, REGISTER_COUNT, SR_READ, UNMASK_ALL_FAULTS,
};
use crate::threshold::{
    cj_offset_raw, encode_cj_offset, encode_cj_threshold, encode_tc_threshold, tc_threshold_raw,
};

verus! {

/// Cold-junction low fault bound, degrees.
pub const CJ_LOW_LIMIT: i8 = -55;
/// Cold-junction high fault bound, degrees.
pub const CJ_HIGH_LIMIT: i8 = 85;
/// Thermocouple low fault bound, microdegrees (the bottom of the type-K range).
pub const TC_LOW_LIMIT: i32 = -270_000_000;
/// Thermocouple high fault bound, microdegrees (the top of the type-K range).
pub const TC_HIGH_LIMIT: i32 = 1_372_000_000;

/// The two bytes of a thermocouple threshold register pair, most significant first.
pub open spec fn tc_threshold_bytes(microdegrees: int) -> (u8, u8) {
    let pattern = tc_threshold_raw(microdegrees) % 65536;
    ((pattern / 256) as u8, (pattern % 256) as u8)
}

/// Request that writes a cold-junction high fault threshold, in whole degrees.
pub fn set_cj_high_fault_threshold(temp_celsius: i8) -> (r: BusRequest)
    ensures
        r == (BusRequest::Write { addr: CJHF_WRITE, value: ((temp_celsius as int) % 256) as u8 }),
{
    BusRequest::Write { addr: CJHF_WRITE, value: encode_cj_threshold(temp_celsius) }
}

/// Request that writes a cold-junction low fault threshold, in whole degrees.
pub fn set_cj_low_fault_threshold(temp_celsius: i8) -> (r: BusRequest)
    ensures
        r == (BusRequest::Write { addr: CJLF_WRITE, value: ((temp_celsius as int) % 256) as u8 }),
{
    BusRequest::Write { addr: CJLF_WRITE, value: encode_cj_threshold(temp_celsius) }
}

/// Requests that write a thermocouple high fault threshold given in
/// microdegrees: the most significant byte, then the least.
pub fn set_tc_high_fault_threshold(microdegrees: i32) -> (r: [BusRequest; 2])
    ensures
        r@ == seq![
            BusRequest::Write { addr: LTHFTH_WRITE, value: tc_threshold_bytes(microdegrees as int).0 },
            BusRequest::Write { addr: LTHFTL_WRITE, value: tc_threshold_bytes(microdegrees as int).1 },
        ],
{
    let (msb, lsb) = encode_tc_threshold(microdegrees);
    let r = [
        BusRequest::Write { addr: LTHFTH_WRITE, value: msb },
        BusRequest::Write { addr: LTHFTL_WRITE, value: lsb },
    ];
    assert(r@ =~= seq![r[0], r[1]]);
    r
}

/// Requests that write a thermocouple low fault threshold given in
/// microdegrees: the most significant byte, then the least.
pub fn set_tc_low_fault_threshold(microdegrees: i32) -> (r: [BusRequest; 2])
    ensures
        r@ == seq![
            BusRequest::Write { addr: LTLFTH_WRITE, value: tc_threshold_bytes(microdegrees as int).0 },
            BusRequest::Write { addr: LTLFTL_WRITE, value: tc_threshold_bytes(microdegrees as int).1 },
        ],
{
    let (msb, lsb) = encode_tc_threshold(microdegrees);
    let r = [
        BusRequest::Write { addr: LTLFTH_WRITE, value: msb },
        BusRequest::Write { addr: LTLFTL_WRITE, value: lsb },
    ];
    assert(r@ =~= seq![r[0], r[1]]);
    r
}

/// Request that writes the cold-junction temperature offset, in microdegrees.
pub fn set_cj_temp_offset(offset_microdegrees: i32) -> (r: BusRequest)
    ensures
        r == (BusRequest::Write {
            addr: CJTO_WRITE,
            value: (cj_offset_raw(offset_microdegrees as int) % 256) as u8,
        }),
{
    BusRequest::Write { addr: CJTO_WRITE, value: encode_cj_offset(offset_microdegrees) }
}

/// The configuration written at start-up, in order: CR0 (60 Hz filter,
/// interrupt fault mode, cold junction enabled, open-circuit detection for
/// Rs < 5k, continuous conversion), CR1 (type K, 4-sample averaging), the
/// fault mask (all unmasked), the cold-junction bounds -55 and +85 degrees,
/// and the thermocouple bounds -270 and +1372 degrees.
pub open spec fn configuration_writes() -> Seq<BusRequest> {
    seq![
        BusRequest::Write { addr: 0x80, value: 0x94 },
        BusRequest::Write { addr: 0x81, value: 0x23 },
        BusRequest::Write { addr: 0x82, value: 0x00 },
        BusRequest::Write { addr: 0x84, value: 0xC9 },
        BusRequest::Write { addr: 0x83, value: 0x55 },
        BusRequest::Write { addr: 0x87, value: 0xEF },
        BusRequest::Write { addr: 0x88, value: 0x20 },
        BusRequest::Write { addr: 0x85, value: 0x55 },
        BusRequest::Write { addr: 0x86, value: 0xC0 },
    ]
}

/// The writes that configure a chip for this application, to be issued in
/// order; the first failing write ends the sequence.
pub fn configure_max31856() -> (r: [BusRequest; 9])
    ensures
        r@ == configuration_writes(),
{
    let cr0_config: u8 = CR0_FILTER_60HZ | CR0_FAULT_INTERRUPT | CR0_CJ_ENABLED
        | CR0_OC_ENABLED_RS_LT_5K | CR0_CONV_CONTINUOUS;
    let cr1_config: u8 = CR1_TC_TYPE_K | CR1_AVG_4_SAMPLES;
    assert(cr0_config == 0x94) by (bit_vector)
        requires
            cr0_config == 0u8 | 0x04u8 | 0u8 | 0x10u8 | 0x80u8,
    ;
    assert(cr1_config == 0x23) by (bit_vector)
        requires
            cr1_config == 0x03u8 | 0x20u8,
    ;
    let tc_low = set_tc_low_fault_threshold(TC_LOW_LIMIT);
    let tc_high = set_tc_high_fault_threshold(TC_HIGH_LIMIT);
    let writes = [
        BusRequest::Write { addr: CR0_WRITE, value: cr0_config },
        BusRequest::Write { addr: CR1_WRITE, value: cr1_config },
        BusRequest::Write { addr: MASK_WRITE, value: UNMASK_ALL_FAULTS },
        set_cj_low_fault_threshold(CJ_LOW_LIMIT),
        set_cj_high_fault_threshold(CJ_HIGH_LIMIT),
        tc_low[0],
        tc_low[1],
        tc_high[0],
        tc_high[1],
    ];
    assert(writes@ =~= configuration_writes());
    writes
}

/// Request that reads the fault status register.
pub fn fault_status_request() -> (r: BusRequest)
    ensures
        r == (BusRequest::Read { addr: SR_READ, count: 1 }),
{
    BusRequest::Read { addr: SR_READ, count: 1 }
}

/// Decodes the reply to `fault_status_request`: `None` when the read failed.
pub fn read_fault_status(reply: &BusReply) -> (r: Option<FaultStatus>)
    ensures
        r == (match single_read_value(*reply) {
            Some(b) => Some(FaultStatus::decoded(b)),
            None => None,
        }),
{
    match single_read_byte(reply) {
        Some(b) => Some(FaultStatus::from_register(b)),
        None => None,
    }
}

/// Request that reads configuration register 0, the first step of clearing faults.
pub fn cr0_request() -> (r: BusRequest)
    ensures
        r == (BusRequest::Read { addr: CR0_READ, count: 1 }),
{
    BusRequest::Read { addr: CR0_READ, count: 1 }
}

/// The writes that clear latched faults, given the current value of CR0:
/// CR0 with the fault-clear bit set, then CR0 with that bit cleared.
pub fn clear_faults(cr0_current: u8) -> (r: [BusRequest; 2])
    ensures
        r@ == seq![
            BusRequest::Write { addr: CR0_WRITE, value: cr0_current | CR0_FAULTCLR },
            BusRequest::Write { addr: CR0_WRITE, value: cr0_current & !CR0_FAULTCLR },
        ],
{
    let r = [
        BusRequest::Write { addr: CR0_WRITE, value: cr0_current | CR0_FAULTCLR },
        BusRequest::Write { addr: CR0_WRITE, value: cr0_current & !CR0_FAULTCLR },
    ];
    assert(r@ =~= seq![r[0], r[1]]);
    r
}

/// Requests that read each of the 16 registers in turn, by address.
pub fn register_dump_requests() -> (r: [BusRequest; 16])
    ensures
        r@.len() == REGISTER_COUNT,
        forall|i: int| 0 <= i < REGISTER_COUNT ==> r@[i] == (BusRequest::Read { addr: i as u8, count: 1 }),
{
    let mut reqs: [BusRequest; 16] = [BusRequest::Read { addr: 0, count: 1 }; 16];
    let mut addr: u8 = 0;
    while addr < REGISTER_COUNT
        invariant
            addr <= REGISTER_COUNT,
            reqs@.len() == REGISTER_COUNT,
            forall|i: int| 0 <= i < addr ==> reqs@[i] == (BusRequest::Read { addr: i as u8, count: 1 }),
        decreases REGISTER_COUNT - addr,
    {
        reqs[addr as usize] = BusRequest::Read { addr, count: 1 };
        addr = addr + 1;
    }
    reqs
}

/// The 16 register values from the replies to `register_dump_requests`, in
/// address order; `None` unless each reply is a completed one-register read.
pub fn read_all_config_registers(replies: &[BusReply; 16]) -> (r: Option<[u8; 16]>)
    ensures
        r is Some <==> forall|i: int| 0 <= i < REGISTER_COUNT ==> #[trigger] single_read_value(replies@[i]) is Some,
        r matches Some(v) ==> forall|i: int| 0 <= i < REGISTER_COUNT ==> single_read_value(replies@[i]) == Some(#[trigger] v@[i]),
{
    let mut values: [u8; 16] = [0u8; 16];
    let mut i: usize = 0;
    while i < 16
        invariant
            i <= 16,
            replies@.len() == REGISTER_COUNT,
            values@.len() == REGISTER_COUNT,
            forall|j: int| 0 <= j < i ==> single_read_value(replies@[j]) == Some(#[trigger] values@[j]),
        decreases 16 - i,
    {
        match single_read_byte(&replies[i]) {
            Some(b) => {
                values[i] = b;
            },
            None => {
                return None;
            },
        }
        i = i + 1;
    }
    assert forall|j: int| 0 <= j < replies@.len() implies #[trigger] single_read_value(replies@[j]) is Some by {
        assert(single_read_value(replies@[j]) == Some(values@[j]));
    }
    Some(values)
}

} // verus!
