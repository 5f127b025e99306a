//! One sampling cycle of one chip, as a state machine.
//!
//! The cycle first reads the fault status register. If a fault is latched it
//! clears it (read CR0, write it back with the fault-clear bit set, then
//! with that bit cleared) and ends with sample 0 and the fault; failures while
//! clearing are ignored. Otherwise, or when the status read fails, it reads
//! the three temperature bytes and ends with the sample they hold, or with 0
//! when that read fails.
//!
//! The caller performs each request that `start` and `step` hand out and
//! feeds the reply back to `step` until the phase is `Done`.
use vstd::prelude::*;
use crate::bus::{single_read_byte, single_read_value, BusReply, BusRequest};
use crate::commands::{clear_faults, cr0_request, fault_status_request};
use crate::fault::FaultStatus;
use crate::registers::{CR0_FAULTCLR, CR0_READ, CR0_WRITE, LTCBH_READ, SR_READ};

verus! {

/// Where a sampling cycle stands.
#[derive(Clone, Copy, Debug)]
pub enum SamplePhase {
    /// Waiting for the fault status register.
    CheckFault,
    /// A fault was seen; waiting for the current value of CR0.
    ReadCr0 { status: FaultStatus },
    /// Waiting for the write of CR0 with the fault-clear bit set.
    SetFaultClear { status: FaultStatus, cr0: u8 },
    /// Waiting for the write of CR0 with the fault-clear bit cleared.
    RestoreCr0 { status: FaultStatus },
    /// No fault; waiting for the three temperature bytes.
    ReadTemperature,
    /// The cycle is over.
    Done { sample: i32, fault: Option<FaultStatus> },
}

/// The sample held by the three temperature bytes: the bytes joined into a
/// 24-bit value, most significant first, without its five low flag bits.
pub open spec fn temperature_value(b0: u8, b1: u8, b2: u8) -> int {
    (65536 * b0 + 256 * b1 + b2) / 32
}

/// The three temperature bytes of a completed temperature read.
pub open spec fn temperature_bytes(reply: BusReply) -> Option<(u8, u8, u8)> {
    match reply {
        BusReply::Transferred { frame, len } => if len == 4 {
            Some((frame@[1], frame@[2], frame@[3]))
        } else {
            None
        },
        _ => None,
    }
}

/// Request that reads the three temperature bytes.
pub open spec fn temperature_request() -> BusRequest {
    BusRequest::Read { addr: LTCBH_READ, count: 3 }
}

/// The next phase, and the request to perform next if the cycle goes on,
/// once `reply` has come for the request made in `phase`.
pub open spec fn next(phase: SamplePhase, reply: BusReply) -> (SamplePhase, Option<BusRequest>) {
    match phase {
        SamplePhase::CheckFault => match single_read_value(reply) {
            Some(b) if FaultStatus::decoded(b).any() => (
                SamplePhase::ReadCr0 { status: FaultStatus::decoded(b) },
                Some(BusRequest::Read { addr: CR0_READ, count: 1 }),
            ),
            _ => (SamplePhase::ReadTemperature, Some(temperature_request())),
        },
        SamplePhase::ReadCr0 { status } => match single_read_value(reply) {
            Some(c) => (
                SamplePhase::SetFaultClear { status, cr0: c },
                Some(BusRequest::Write { addr: CR0_WRITE, value: c | CR0_FAULTCLR }),
            ),
            None => (SamplePhase::Done { sample: 0, fault: Some(status) }, None),
        },
        SamplePhase::SetFaultClear { status, cr0 } => match reply {
            BusReply::Written => (
                SamplePhase::RestoreCr0 { status },
                Some(BusRequest::Write { addr: CR0_WRITE, value: cr0 & !CR0_FAULTCLR }),
            ),
            _ => (SamplePhase::Done { sample: 0, fault: Some(status) }, None),
        },
        SamplePhase::RestoreCr0 { status } => (
            SamplePhase::Done { sample: 0, fault: Some(status) },
            None,
        ),
        SamplePhase::ReadTemperature => match temperature_bytes(reply) {
            Some((b0, b1, b2)) => (
                SamplePhase::Done { sample: temperature_value(b0, b1, b2) as i32, fault: None },
                None,
            ),
            None => (SamplePhase::Done { sample: 0, fault: None }, None),
        },
        SamplePhase::Done { .. } => (phase, None),
    }
}

/// The phase reached from `phase` after the replies `replies`, in order.
pub open spec fn run(phase: SamplePhase, replies: Seq<BusReply>) -> SamplePhase
    decreases replies.len(),
{
    if replies.len() == 0 {
        phase
    } else {
        run(next(phase, replies[0]).0, replies.drop_first())
    }
}

/// Decodes the three temperature bytes: they are joined into a 24-bit value,
/// most significant first, which is then shifted right by five bits.
pub fn temperature_counts(b0: u8, b1: u8, b2: u8) -> (r: i32)
    ensures
        r == temperature_value(b0, b1, b2),
{
    let raw: i32 = ((b0 as i32) << 16i32) | ((b1 as i32) << 8i32) | (b2 as i32);
    let counts: i32 = raw >> 5i32;
    assert(counts == (65536 * b0 + 256 * b1 + b2) / 32) by (bit_vector)
        requires
            raw == ((b0 as i32) << 16i32) | ((b1 as i32) << 8i32) | (b2 as i32),
            counts == raw >> 5i32,
    ;
    counts
}

impl SamplePhase {
    /// Begins a cycle: the first phase and the fault status read.
    pub fn start() -> (r: (SamplePhase, BusRequest))
        ensures
            r == (SamplePhase::CheckFault, BusRequest::Read { addr: SR_READ, count: 1 }),
    {
        (SamplePhase::CheckFault, fault_status_request())
    }

    /// Moves the cycle on by the reply to the request last handed out.
    pub fn step(self, reply: &BusReply) -> (r: (SamplePhase, Option<BusRequest>))
        ensures
            r == next(self, *reply),
    {
        match self {
            SamplePhase::CheckFault => match single_read_byte(reply) {
                Some(b) => {
                    let status = FaultStatus::from_register(b);
                    if status.has_fault() {
                        (SamplePhase::ReadCr0 { status }, Some(cr0_request()))
                    } else {
                        (SamplePhase::ReadTemperature, Some(BusRequest::Read { addr: LTCBH_READ, count: 3 }))
                    }
                },
                None => (SamplePhase::ReadTemperature, Some(BusRequest::Read { addr: LTCBH_READ, count: 3 })),
            },
            SamplePhase::ReadCr0 { status } => match single_read_byte(reply) {
                Some(c) => {
                    let writes = clear_faults(c);
                    (SamplePhase::SetFaultClear { status, cr0: c }, Some(writes[0]))
                },
                None => (SamplePhase::Done { sample: 0, fault: Some(status) }, None),
            },
            SamplePhase::SetFaultClear { status, cr0 } => match reply {
                BusReply::Written => {
                    let writes = clear_faults(cr0);
                    (SamplePhase::RestoreCr0 { status }, Some(writes[1]))
                },
                _ => (SamplePhase::Done { sample: 0, fault: Some(status) }, None),
            },
            SamplePhase::RestoreCr0 { status } => (
                SamplePhase::Done { sample: 0, fault: Some(status) },
                None,
            ),
            SamplePhase::ReadTemperature => match reply {
                BusReply::Transferred { frame, len } if *len == 4 => {
                    let sample = temperature_counts(frame[1], frame[2], frame[3]);
                    (SamplePhase::Done { sample, fault: None }, None)
                },
                _ => (SamplePhase::Done { sample: 0, fault: None }, None),
            },
            SamplePhase::Done { .. } => (self, None),
        }
    }

    /// The sample and the fault, if any, once the cycle is over.
    pub fn outcome(&self) -> (r: Option<(i32, Option<FaultStatus>)>)
        ensures
            r == (match *self {
                SamplePhase::Done { sample, fault } => Some((sample, fault)),
                _ => None,
            }),
    {
        match *self {
            SamplePhase::Done { sample, fault } => Some((sample, fault)),
            _ => None,
        }
    }
}

/// Whether `phase` is part of clearing the fault `status`.
pub open spec fn clearing(phase: SamplePhase, status: FaultStatus) -> bool {
    match phase {
        SamplePhase::ReadCr0 { status: s } => s == status,
        SamplePhase::SetFaultClear { status: s, .. } => s == status,
        SamplePhase::RestoreCr0 { status: s } => s == status,
        _ => false,
    }
}

/// How many replies a clearing phase still waits for, at most.
pub open spec fn clearing_steps(phase: SamplePhase) -> nat {
    match phase {
        SamplePhase::ReadCr0 { .. } => 3,
        SamplePhase::SetFaultClear { .. } => 2,
        _ => 1,
    }
}

proof fn lemma_done_stays(phase: SamplePhase, replies: Seq<BusReply>)
    requires
        phase is Done,
    ensures
        run(phase, replies) == phase,
    decreases replies.len(),
{
    if replies.len() > 0 {
        lemma_done_stays(next(phase, replies[0]).0, replies.drop_first());
    }
}

proof fn lemma_clearing_ends_with_fault(phase: SamplePhase, status: FaultStatus, replies: Seq<BusReply>)
    requires
        clearing(phase, status),
    ensures
        run(phase, replies) is Done ==> run(phase, replies) == (SamplePhase::Done { sample: 0, fault: Some(status) }),
        replies.len() >= clearing_steps(phase) ==> run(phase, replies) is Done,
    decreases replies.len(),
{
    if replies.len() > 0 {
        let p = next(phase, replies[0]).0;
        if p is Done {
            lemma_done_stays(p, replies.drop_first());
        } else {
            lemma_clearing_ends_with_fault(p, status, replies.drop_first());
        }
    }
}

/// A cycle whose fault status read returns a nonzero byte ends, whatever
/// the later replies are, with sample 0 and the decoded fault, never
/// reading a temperature; it is over after at most three more replies.
pub proof fn lemma_fault_cycle(status_reply: BusReply, later: Seq<BusReply>)
    requires
        single_read_value(status_reply) matches Some(b) && b != 0,
    ensures
        ({
            let end = run(SamplePhase::CheckFault, seq![status_reply] + later);
            let status = FaultStatus::decoded(single_read_value(status_reply)->Some_0);
            &&& end is Done ==> end == (SamplePhase::Done { sample: 0, fault: Some(status) })
            &&& later.len() >= 3 ==> end is Done
        }),
{
    let b = single_read_value(status_reply)->Some_0;
    crate::fault::lemma_decode_exact(b);
    let replies = seq![status_reply] + later;
    assert(replies.drop_first() =~= later);
    let p = next(SamplePhase::CheckFault, status_reply).0;
    lemma_clearing_ends_with_fault(p, FaultStatus::decoded(b), later);
}

/// A cycle whose fault status read returns 0, or fails, ends after the
/// temperature read with no fault and the sample that the three temperature
/// bytes hold (0 when that read fails).
pub proof fn lemma_clear_cycle(status_reply: BusReply, temperature_reply: BusReply, later: Seq<BusReply>)
    requires
        single_read_value(status_reply) is None || single_read_value(status_reply) == Some(0u8),
    ensures
        run(SamplePhase::CheckFault, seq![status_reply, temperature_reply] + later) == (match temperature_bytes(temperature_reply) {
            Some((b0, b1, b2)) => SamplePhase::Done { sample: temperature_value(b0, b1, b2) as i32, fault: None },
            None => SamplePhase::Done { sample: 0, fault: None },
        }),
{
    crate::fault::lemma_decode_exact(0u8);
    let replies = seq![status_reply, temperature_reply] + later;
    assert(replies.drop_first() =~= seq![temperature_reply] + later);
    assert(replies.drop_first().drop_first() =~= later);
    let after_status = next(SamplePhase::CheckFault, status_reply).0;
    assert(after_status == SamplePhase::ReadTemperature);
    assert(run(SamplePhase::CheckFault, replies) == run(after_status, replies.drop_first()));
    let p = next(SamplePhase::ReadTemperature, temperature_reply).0;
    assert(run(after_status, replies.drop_first()) == run(p, later));
    lemma_done_stays(p, later);
}

} // verus!
