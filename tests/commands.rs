use thermosoft_rs::bus::{BusReply, BusRequest, MAX_FRAME};
use thermosoft_rs::commands::{
    clear_faults, configure_max31856, read_all_config_registers, read_fault_status,
    register_dump_requests, set_cj_high_fault_threshold, set_cj_low_fault_threshold,
    set_cj_temp_offset, set_tc_high_fault_threshold, set_tc_low_fault_threshold,
};
use thermosoft_rs::fault::FaultStatus;

fn w(addr: u8, value: u8) -> BusRequest {
    BusRequest::Write { addr, value }
}

fn sent(r: &BusRequest) -> Vec<u8> {
    let (frame, len) = r.frame();
    frame[..len].to_vec()
}

fn read_reply(addr: u8, value: u8) -> BusReply {
    BusReply::Transferred { frame: [addr, value, 0, 0], len: 2 }
}

#[test]
fn configuration_sequence_is_exact() {
    let frames: Vec<Vec<u8>> = configure_max31856().iter().map(sent).collect();
    let expected: Vec<Vec<u8>> = vec![
        vec![0x80, 0x94],
        vec![0x81, 0x23],
        vec![0x82, 0x00],
        vec![0x84, 0xC9],
        vec![0x83, 0x55],
        vec![0x87, 0xEF],
        vec![0x88, 0x20],
        vec![0x85, 0x55],
        vec![0x86, 0xC0],
    ];
    assert_eq!(frames, expected);
}

#[test]
fn threshold_writes() {
    assert_eq!(set_cj_high_fault_threshold(85), w(0x83, 0x55));
    assert_eq!(set_cj_low_fault_threshold(-55), w(0x84, 0xC9));
    assert_eq!(set_tc_high_fault_threshold(1_372_000_000), [w(0x85, 0x55), w(0x86, 0xC0)]);
    assert_eq!(set_tc_low_fault_threshold(-270_000_000), [w(0x87, 0xEF), w(0x88, 0x20)]);
    assert_eq!(set_tc_high_fault_threshold(62_500), [w(0x85, 0x00), w(0x86, 0x01)]);
    assert_eq!(set_cj_temp_offset(-500_000), w(0x89, 0xF8));
    assert_eq!(set_cj_temp_offset(62_500), w(0x89, 0x01));
}

#[test]
fn frames_of_requests() {
    assert_eq!(w(0x80, 0x12).frame(), ([0x80, 0x12, 0, 0], 2));
    assert_eq!(BusRequest::Read { addr: 0x0F, count: 1 }.frame(), ([0x0F, 0, 0, 0], 2));
    assert_eq!(BusRequest::Read { addr: 0x0C, count: 3 }.frame(), ([0x0C, 0, 0, 0], 4));
    assert_eq!(MAX_FRAME, 4);
    assert!(BusRequest::Read { addr: 0x0C, count: 3 }.frame_fits());
    assert!(!BusRequest::Read { addr: 0x0C, count: 4 }.frame_fits());
    assert!(w(0x80, 0).frame_fits());
}

#[test]
fn clear_faults_sets_then_clears_the_bit() {
    assert_eq!(clear_faults(0x94), [w(0x80, 0x96), w(0x80, 0x94)]);
    assert_eq!(clear_faults(0x96), [w(0x80, 0x96), w(0x80, 0x94)]);
    assert_eq!(clear_faults(0x02), [w(0x80, 0x02), w(0x80, 0x00)]);
}

#[test]
fn fault_status_reply() {
    let f = read_fault_status(&read_reply(0x0F, 0x41)).unwrap();
    assert_eq!(f, FaultStatus::from_register(0x41));
    assert!(f.tc_range && f.open);
    assert_eq!(read_fault_status(&BusReply::Failed), None);
    assert_eq!(read_fault_status(&BusReply::Transferred { frame: [0x0F, 0x41, 0, 0], len: 1 }), None);
    assert_eq!(read_fault_status(&BusReply::Written), None);
}

#[test]
fn register_dump_round() {
    let reqs = register_dump_requests();
    for (i, r) in reqs.iter().enumerate() {
        assert_eq!(sent(r), vec![i as u8, 0x00]);
    }
    let mut replies = [BusReply::Failed; 16];
    for i in 0..16u8 {
        replies[i as usize] = read_reply(i, 0xA0 + i);
    }
    let values = read_all_config_registers(&replies).unwrap();
    let expected: Vec<u8> = (0..16u8).map(|i| 0xA0 + i).collect();
    assert_eq!(values.to_vec(), expected);

    let mut failing = replies;
    failing[7] = BusReply::Failed;
    assert_eq!(read_all_config_registers(&failing), None);
    failing[7] = BusReply::Written;
    assert_eq!(read_all_config_registers(&failing), None);
}
