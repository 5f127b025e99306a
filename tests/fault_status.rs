use thermosoft_rs::fault::FaultStatus;

fn flags(f: &FaultStatus) -> [bool; 8] {
    // Indexed by bit position.
    [f.open, f.ovuv, f.tc_low, f.tc_high, f.cj_low, f.cj_high, f.tc_range, f.cj_range]
}

#[test]
fn decode_sets_exactly_the_set_bits_for_every_byte() {
    for reg in 0..=255u8 {
        let f = FaultStatus::from_register(reg);
        let got = flags(&f);
        for bit in 0..8 {
            assert_eq!(got[bit], (reg >> bit) & 1 == 1, "byte {:#04x} bit {}", reg, bit);
        }
        assert_eq!(f.has_fault(), reg != 0, "byte {:#04x}", reg);
    }
}

#[test]
fn decode_single_flags() {
    let f = FaultStatus::from_register(0x01);
    assert!(f.open && !f.ovuv && !f.cj_range);
    let f = FaultStatus::from_register(0x80);
    assert!(f.cj_range && !f.tc_range && !f.open);
    let f = FaultStatus::from_register(0x0C);
    assert!(f.tc_high && f.tc_low && !f.cj_high && !f.cj_low);
}

#[test]
fn zero_byte_reports_no_fault() {
    let f = FaultStatus::from_register(0x00);
    assert_eq!(flags(&f), [false; 8]);
    assert!(!f.has_fault());
}

#[test]
fn decode_is_repeatable() {
    assert_eq!(FaultStatus::from_register(0x5A), FaultStatus::from_register(0x5A));
}
