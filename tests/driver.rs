use sid::{
    Addressing, BusLog, BusOp, FilterRegister, Sid, SidState, VoiceRegister, FILTER_REG_START, U4,
};

fn transfers(ops: &[BusOp]) -> Vec<(u8, u8)> {
    ops.iter()
        .filter_map(|op| match op {
            BusOp::Transfer(a, d) => Some((*a, *d)),
            _ => None,
        })
        .collect()
}

#[test]
fn register_addresses() {
    assert_eq!(VoiceRegister::Freq.addr(0), 0);
    assert_eq!(VoiceRegister::Pwm.addr(1), 9);
    assert_eq!(VoiceRegister::Control.addr(2), 18);
    assert_eq!(VoiceRegister::AttackDecay.addr(0), 5);
    assert_eq!(VoiceRegister::SustainRelease.addr(2), 20);
    assert_eq!(FilterRegister::CutoffLow.addr(), 21);
    assert_eq!(FilterRegister::CutoffHigh.addr(), 22);
    assert_eq!(FilterRegister::Resonance.addr(), 23);
    assert_eq!(FilterRegister::Mode.addr(), 24);
    assert_eq!(FILTER_REG_START, 21);
}

#[test]
fn new_does_not_touch_the_bus() {
    let sid = Sid::new(BusLog::new());
    assert!(sid.bus().ops().is_empty());
    assert_eq!(sid.addressing(), Addressing::Shifted);
}

#[test]
fn write_voice_shifted_addresses() {
    for i in 0..3usize {
        let mut sid = Sid::new(BusLog::new());
        sid.write_voice(i);
        let ops = sid.bus().ops();
        assert_eq!(ops.len(), 7 * 4);
        let t = transfers(ops);
        let expected_data = [0x31, 0x1C, 0x00, 0x08, 0x40, 0x00, 0x70];
        for k in 0..7usize {
            assert_eq!(t[k], (((7 * i + k) as u8) << 1, expected_data[k]));
            assert_eq!(
                &ops[4 * k..4 * k + 4],
                &[BusOp::SelectLow, BusOp::Transfer(((7 * i + k) as u8) << 1, expected_data[k]), BusOp::SelectHigh, BusOp::DelayUs(2)]
            );
        }
    }
}

#[test]
fn write_voice_linear_addresses() {
    let mut sid = Sid::with_addressing(BusLog::new(), Addressing::Linear);
    sid.write_voice(2);
    let ops = sid.bus().ops();
    assert_eq!(ops.len(), 7 * 3);
    assert_eq!(&ops[0..3], &[BusOp::SelectLow, BusOp::Transfer(14, 0x31), BusOp::SelectHigh]);
    let t = transfers(ops);
    let addrs: Vec<u8> = t.iter().map(|p| p.0).collect();
    assert_eq!(addrs, vec![14, 15, 16, 17, 18, 19, 20]);
}

#[test]
fn write_filter_follows_voice_block() {
    let mut sid = Sid::new(BusLog::new());
    sid.write_filter();
    assert_eq!(transfers(sid.bus().ops()), vec![(42, 0x00), (44, 0x00), (46, 0x00), (48, 0x07)]);
    let mut lin = Sid::with_addressing(BusLog::new(), Addressing::Linear);
    lin.write_filter();
    assert_eq!(transfers(lin.bus().ops()), vec![(21, 0x00), (22, 0x00), (23, 0x00), (24, 0x07)]);
}

#[test]
fn initialize_writes_voices_then_filter() {
    let mut sid = Sid::new(BusLog::new());
    sid.initialize();
    let ops = sid.bus().ops();
    assert_eq!(ops.len(), 25 * 4);
    let t = transfers(ops);
    assert_eq!(t.len(), 25);
    for (k, (addr, _)) in t.iter().enumerate() {
        assert_eq!(*addr, (k as u8) << 1);
    }
    let selects = ops.iter().filter(|o| **o == BusOp::SelectLow).count();
    let releases = ops.iter().filter(|o| **o == BusOp::SelectHigh).count();
    assert_eq!((selects, releases), (25, 25));
    let data: Vec<u8> = t.iter().map(|p| p.1).collect();
    let voice = [0x31, 0x1C, 0x00, 0x08, 0x40, 0x00, 0x70];
    let mut expected = Vec::new();
    for _ in 0..3 {
        expected.extend_from_slice(&voice);
    }
    expected.extend_from_slice(&[0x00, 0x00, 0x00, 0x07]);
    assert_eq!(data, expected);
}

#[test]
fn write_voices_in_order() {
    let mut sid = Sid::with_addressing(BusLog::new(), Addressing::Linear);
    let mut st = SidState::new();
    st.voices[0].frequency = 0x0102;
    st.voices[1].frequency = 0x0304;
    st.voices[2].frequency = 0x0506;
    sid.set_state(st);
    assert!(sid.bus().ops().is_empty());
    sid.write_voices();
    let t = transfers(sid.bus().ops());
    assert_eq!(t.len(), 21);
    assert_eq!((t[0], t[1]), ((0, 0x02), (1, 0x01)));
    assert_eq!((t[7], t[8]), ((7, 0x04), (8, 0x03)));
    assert_eq!((t[14], t[15]), ((14, 0x06), (15, 0x05)));
    assert_eq!(sid.state().voices[1].frequency, 0x0304);
}

#[test]
fn changed_state_reaches_chip_on_write() {
    let mut sid = Sid::new(BusLog::new());
    let mut st = *sid.state();
    st.filter.volume = U4::new(15).unwrap();
    sid.set_state(st);
    sid.write_filter();
    assert_eq!(transfers(sid.bus().ops())[3], (48, 0x0F));
}

#[test]
fn reset_shifted_holds_reset_bit() {
    let mut sid = Sid::new(BusLog::new());
    sid.reset();
    assert_eq!(
        *sid.bus().ops(),
        vec![BusOp::SelectLow, BusOp::Transfer(1, 0), BusOp::DelayUs(12), BusOp::SelectHigh]
    );
}

#[test]
fn take_ops_hands_out_steps_once() {
    let mut sid = Sid::new(BusLog::new());
    sid.write_filter();
    let first = sid.take_ops();
    assert_eq!(first.len(), 16);
    assert_eq!(first[1], BusOp::Transfer(42, 0x00));
    assert!(sid.bus().ops().is_empty());
    sid.reset();
    assert_eq!(sid.take_ops(), vec![BusOp::SelectLow, BusOp::Transfer(1, 0), BusOp::DelayUs(12), BusOp::SelectHigh]);
    assert_eq!(sid.addressing(), Addressing::Shifted);
}

#[test]
fn reset_linear_toggles_reset_line() {
    let mut sid = Sid::with_addressing(BusLog::new(), Addressing::Linear);
    sid.reset();
    assert_eq!(*sid.bus().ops(), vec![BusOp::ResetLow, BusOp::DelayMs(10), BusOp::ResetHigh]);
}
