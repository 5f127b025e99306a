use thermosoft_rs::bus::{BusReply, BusRequest};
use thermosoft_rs::fault::FaultStatus;
use thermosoft_rs::sampling::{temperature_counts, SamplePhase};

/// Runs one cycle against scripted replies; returns the outcome and the
/// requests that were made.
fn drive(replies: &[BusReply]) -> (Option<(i32, Option<FaultStatus>)>, Vec<BusRequest>) {
    let (mut phase, first) = SamplePhase::start();
    let mut requests = vec![first];
    for reply in replies {
        let (next, req) = phase.step(reply);
        phase = next;
        match req {
            Some(r) => requests.push(r),
            None => break,
        }
    }
    (phase.outcome(), requests)
}

#[test]
fn temperature_bytes_decode() {
    assert_eq!(temperature_counts(0x00, 0x64, 0x00), 800);
    assert_eq!(temperature_counts(0x00, 0x00, 0x1F), 0);
    assert_eq!(temperature_counts(0x00, 0x00, 0x20), 1);
    assert_eq!(temperature_counts(0xFF, 0xFF, 0xFF), 0x7FFFF);
}

#[test]
fn clean_cycle_reads_temperature() {
    let (outcome, requests) = drive(&[
        BusReply::Transferred { frame: [0x0F, 0x00, 0, 0], len: 2 },
        BusReply::Transferred { frame: [0x0C, 0x00, 0x64, 0x00], len: 4 },
    ]);
    assert_eq!(outcome, Some((800, None)));
    assert_eq!(
        requests,
        vec![BusRequest::Read { addr: 0x0F, count: 1 }, BusRequest::Read { addr: 0x0C, count: 3 }]
    );
}

#[test]
fn fault_cycle_clears_and_yields_zero() {
    let (outcome, requests) = drive(&[
        BusReply::Transferred { frame: [0x0F, 0x01, 0, 0], len: 2 },
        BusReply::Transferred { frame: [0x00, 0x94, 0, 0], len: 2 },
        BusReply::Written,
        BusReply::Written,
    ]);
    assert_eq!(outcome, Some((0, Some(FaultStatus::from_register(0x01)))));
    assert_eq!(
        requests,
        vec![
            BusRequest::Read { addr: 0x0F, count: 1 },
            BusRequest::Read { addr: 0x00, count: 1 },
            BusRequest::Write { addr: 0x80, value: 0x96 },
            BusRequest::Write { addr: 0x80, value: 0x94 },
        ]
    );
}

#[test]
fn failed_clearing_still_reports_fault() {
    let (outcome, requests) =
        drive(&[BusReply::Transferred { frame: [0x0F, 0x88, 0, 0], len: 2 }, BusReply::Failed]);
    assert_eq!(outcome, Some((0, Some(FaultStatus::from_register(0x88)))));
    assert_eq!(requests.len(), 2);

    let (outcome, _) = drive(&[
        BusReply::Transferred { frame: [0x0F, 0x02, 0, 0], len: 2 },
        BusReply::Transferred { frame: [0x00, 0x90, 0, 0], len: 2 },
        BusReply::Failed,
    ]);
    assert_eq!(outcome, Some((0, Some(FaultStatus::from_register(0x02)))));
}

#[test]
fn failed_status_read_counts_as_no_fault() {
    let (outcome, _) = drive(&[
        BusReply::Failed,
        BusReply::Transferred { frame: [0x0C, 0x01, 0x90, 0x00], len: 4 },
    ]);
    assert_eq!(outcome, Some((3200, None)));
}

#[test]
fn failed_temperature_read_gives_zero() {
    let (outcome, _) = drive(&[BusReply::Transferred { frame: [0x0F, 0x00, 0, 0], len: 2 }, BusReply::Failed]);
    assert_eq!(outcome, Some((0, None)));
    let (outcome, _) =
        drive(&[BusReply::Transferred { frame: [0x0F, 0x00, 0, 0], len: 2 }, BusReply::Transferred { frame: [0x0C, 0, 0, 0], len: 1 }]);
    assert_eq!(outcome, Some((0, None)));
}

#[test]
fn unfinished_cycle_has_no_outcome() {
    let (phase, _) = SamplePhase::start();
    assert_eq!(phase.outcome(), None);
    let (done, req) = SamplePhase::Done { sample: 5, fault: None }.step(&BusReply::Written);
    assert!(req.is_none());
    assert_eq!(done.outcome(), Some((5, None)));
}

#[test]
fn fault_clear_ends_with_the_bit_cleared() {
    let (outcome, requests) = drive(&[
        BusReply::Transferred { frame: [0x0F, 0x40, 0, 0], len: 2 },
        BusReply::Transferred { frame: [0x00, 0x96, 0, 0], len: 2 },
        BusReply::Written,
        BusReply::Written,
    ]);
    assert_eq!(outcome, Some((0, Some(FaultStatus::from_register(0x40)))));
    assert_eq!(
        &requests[2..],
        &[
            BusRequest::Write { addr: 0x80, value: 0x96 },
            BusRequest::Write { addr: 0x80, value: 0x94 },
        ]
    );
    assert!(!requests.iter().any(|r| matches!(r, BusRequest::Read { addr: 0x0C, .. })));
}
