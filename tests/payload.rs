use sid::{
    Control, Envelope, Filter, FilterKind, FilterKinds, FilterTarget, FilterTargets, Payload,
    RangeError, SidState, Voice, VoiceShape, U11, U12, U4,
};

fn u4(v: u8) -> U4 {
    U4::new(v).unwrap()
}

#[test]
fn bounded_values_round_trip() {
    for m in 0..=15u8 {
        assert_eq!(U4::new(m).unwrap().value(), m);
    }
    for m in [0u16, 1, 1024, 2047] {
        assert_eq!(U11::new(m).unwrap().value(), m);
    }
    for m in [0u16, 1, 2048, 4095] {
        assert_eq!(U12::new(m).unwrap().value(), m);
    }
}

#[test]
fn bounded_values_refuse_wider_magnitudes() {
    assert_eq!(U4::new(16), Err(RangeError { value: 16, bits: 4 }));
    assert_eq!(U4::new(255), Err(RangeError { value: 255, bits: 4 }));
    assert_eq!(U11::new(2048), Err(RangeError { value: 2048, bits: 11 }));
    assert_eq!(U12::new(4096), Err(RangeError { value: 4096, bits: 12 }));
    assert_eq!(U12::new(u16::MAX), Err(RangeError { value: u16::MAX, bits: 12 }));
}

#[test]
fn envelope_payload_of_sustain_seven() {
    let e = Envelope { attack: u4(0), decay: u4(0), sustain: u4(7), release: u4(0) };
    let mut buf = [0xFFu8; 2];
    e.payload(&mut buf);
    assert_eq!(buf, [0x00, 0x70]);
    let mut d = [0u8; 2];
    Envelope::default().payload(&mut d);
    assert_eq!(d, [0x00, 0x70]);
}

#[test]
fn envelope_payload_packs_nibbles() {
    let e = Envelope { attack: u4(0xA), decay: u4(0x3), sustain: u4(0xF), release: u4(0x1) };
    let mut buf = [0u8; 2];
    e.payload(&mut buf);
    assert_eq!(buf, [0xA3, 0xF1]);
}

#[test]
fn control_payload_square() {
    let c = Control { shape: VoiceShape::Square, gate: false, sync: false, ring_mod: false, test: false };
    let mut buf = [0u8; 1];
    c.payload(&mut buf);
    assert_eq!(buf, [0x40]);
    let mut d = [0u8; 1];
    Control::default().payload(&mut d);
    assert_eq!(d, [0x40]);
}

#[test]
fn control_payload_flags() {
    let c = Control { shape: VoiceShape::Noise, gate: true, sync: false, ring_mod: true, test: false };
    let mut buf = [0u8; 1];
    c.payload(&mut buf);
    assert_eq!(buf, [0x85]);
    let c = Control { shape: VoiceShape::Triangle, gate: false, sync: true, ring_mod: false, test: true };
    c.payload(&mut buf);
    assert_eq!(buf, [0x1A]);
    let c = Control { shape: VoiceShape::Sawtooth, gate: true, sync: true, ring_mod: true, test: true };
    c.payload(&mut buf);
    assert_eq!(buf, [0x2F]);
}

#[test]
fn default_voice_payload() {
    let mut buf = [0u8; 7];
    Voice::default().payload(&mut buf);
    assert_eq!(buf, [0x31, 0x1C, 0x00, 0x08, 0x40, 0x00, 0x70]);
}

#[test]
fn voice_payload_frequency_little_endian() {
    let v = Voice { frequency: 0x1C71, ..Voice::default() };
    let mut buf = [0u8; 7];
    v.payload(&mut buf);
    assert_eq!(buf, [0x71, 0x1C, 0x00, 0x08, 0x40, 0x00, 0x70]);
}

#[test]
fn voice_payload_fields() {
    let v = Voice {
        frequency: 0xBEEF,
        pwm: U12::new(0xFFF).unwrap(),
        envelope: Envelope { attack: u4(1), decay: u4(2), sustain: u4(3), release: u4(4) },
        control: Control { shape: VoiceShape::Triangle, gate: true, sync: false, ring_mod: false, test: false },
    };
    let mut buf = [0u8; 7];
    v.payload(&mut buf);
    assert_eq!(buf, [0xEF, 0xBE, 0xFF, 0x0F, 0x11, 0x12, 0x34]);
}

#[test]
fn default_filter_payload() {
    let mut buf = [0xFFu8; 4];
    Filter::default().payload(&mut buf);
    assert_eq!(buf, [0x00, 0x00, 0x00, 0x07]);
}

#[test]
fn filter_payload_fields() {
    let mut kinds = FilterKinds::empty();
    kinds.set(FilterKind::LowPass, true);
    kinds.set(FilterKind::HighPass, true);
    let mut targets = FilterTargets::empty();
    targets.set(FilterTarget::Voice1, true);
    targets.set(FilterTarget::External, true);
    let f = Filter {
        frequency: U11::new(0x7FF).unwrap(),
        resonance: u4(0xC),
        volume: u4(0xF),
        kinds,
        targets,
    };
    let mut buf = [0u8; 4];
    f.payload(&mut buf);
    assert_eq!(buf, [0x07, 0xFF, 0xC9, 0x5F]);
    let f = Filter { frequency: U11::new(0x123).unwrap(), ..f };
    f.payload(&mut buf);
    assert_eq!(buf, [0x03, 0x24, 0xC9, 0x5F]);
}

#[test]
fn filter_kinds_are_a_true_set() {
    let mut k = FilterKinds::empty();
    assert_eq!(k.bits(), 0);
    k.set(FilterKind::BandPass, true);
    k.set(FilterKind::ThreeOff, true);
    assert!(k.contains(FilterKind::BandPass));
    assert!(!k.contains(FilterKind::LowPass));
    assert_eq!(k.bits(), 0xA0);
    k.set(FilterKind::BandPass, false);
    assert_eq!(k.bits(), 0x80);
    let mut l = FilterKinds::empty();
    l.set(FilterKind::LowPass, true);
    let u = k.union(&l);
    assert_eq!(u.bits(), 0x90);
    assert!(u.contains(FilterKind::LowPass) && u.contains(FilterKind::ThreeOff));
}

#[test]
fn filter_targets_set_operations() {
    let mut t = FilterTargets::empty();
    t.set(FilterTarget::Voice2, true);
    t.set(FilterTarget::Voice3, true);
    assert_eq!(t.bits(), 0x06);
    assert!(t.contains(FilterTarget::Voice3));
    t.set(FilterTarget::Voice3, false);
    assert!(!t.contains(FilterTarget::Voice3));
    let mut o = FilterTargets::empty();
    o.set(FilterTarget::External, true);
    assert_eq!(t.union(&o).bits(), 0x0A);
}

#[test]
fn shape_bits() {
    assert_eq!(VoiceShape::Triangle.bits(), 0x10);
    assert_eq!(VoiceShape::Sawtooth.bits(), 0x20);
    assert_eq!(VoiceShape::Square.bits(), 0x40);
    assert_eq!(VoiceShape::Noise.bits(), 0x80);
}

#[test]
fn default_state() {
    let st = SidState::new();
    for v in st.voices.iter() {
        assert_eq!(*v, Voice::default());
    }
    assert_eq!(st.filter, Filter::default());
    assert_eq!(st.filter.volume.value(), 7);
    assert_eq!(st.voices[1].frequency, 7217);
    assert_eq!(st.voices[2].pwm.value(), 2048);
}
