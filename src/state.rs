use vstd::prelude::*;

use crate::fields::{U11, U12, U4};
use crate::flags::{FilterKinds, FilterTargets, VoiceShape};

verus! {

/// A parameter group that renders to the bytes of its registers.
pub trait Payload {
    type Output: View<V = Seq<u8>>;

    /// The register bytes of this group.
    spec fn spec_payload(&self) -> Seq<u8>;

    /// Writes the register bytes of this group into `buf`.
    fn payload(&self, buf: &mut Self::Output)
        ensures
            final(buf)@ == self.spec_payload(),
    ;
}

/// Attack, decay, sustain and release of a voice's amplitude.
#[derive(Clone, Copy, Debug, PartialEq, Eq, Structural)]
pub struct Envelope {
    pub attack: U4,
    pub decay: U4,
    pub sustain: U4,
    pub release: U4,
}

/// Waveform and control flags of a voice.
#[derive(Clone, Copy, Debug, PartialEq, Eq, Structural)]
pub struct Control {
    pub shape: VoiceShape,
    pub gate: bool,
    pub sync: bool,
    pub ring_mod: bool,
    pub test: bool,
}

/// One oscillator channel.
#[derive(Clone, Copy, Debug, PartialEq, Eq, Structural)]
pub struct Voice {
    pub frequency: u16,
    pub pwm: U12,
    pub envelope: Envelope,
    pub control: Control,
}

/// The shared filter and mixer stage.
#[derive(Clone, Copy, Debug, PartialEq, Eq, Structural)]
pub struct Filter {
    pub frequency: U11,
    pub resonance: U4,
    pub volume: U4,
    pub kinds: FilterKinds,
    pub targets: FilterTargets,
}

/// Everything the chip holds: three voices and the filter.
#[derive(Clone, Copy, Debug)]
pub struct SidState {
    pub voices: [Voice; 3],
    pub filter: Filter,
}

/// Two 4-bit fields packed into one byte, `hi` in the upper nibble.
pub open spec fn nibbles(hi: nat, lo: nat) -> u8 {
    (hi * 16 + lo) as u8
}

fn pack_nibbles(hi: U4, lo: U4) -> (r: u8)
    ensures
        r == nibbles(hi@, lo@),
{
    let h = hi.value();
    let l = lo.value();
    h * 16 + l
}

impl Payload for Envelope {
    type Output = [u8; 2];

    /// `[attack << 4 | decay, sustain << 4 | release]`.
    open spec fn spec_payload(&self) -> Seq<u8> {
        seq![nibbles(self.attack@, self.decay@), nibbles(self.sustain@, self.release@)]
    }

    fn payload(&self, buf: &mut [u8; 2]) {
        *buf = [pack_nibbles(self.attack, self.decay), pack_nibbles(self.sustain, self.release)];
        assert(buf@ =~= self.spec_payload());
    }
}

impl Control {
    /// The control register: the shape's bit OR'd with test (bit 3), ring
    /// modulation (bit 2), sync (bit 1) and gate (bit 0).
    pub open spec fn spec_byte(self) -> u8 {
        (self.shape.spec_bits() as nat + crate::flags::flag_bits(self.test, 8)
            + crate::flags::flag_bits(self.ring_mod, 4) + crate::flags::flag_bits(self.sync, 2)
            + crate::flags::flag_bits(self.gate, 1)) as u8
    }

    fn byte(&self) -> (r: u8)
        ensures
            r == self.spec_byte(),
    {
        let mut r: u8 = self.shape.bits();
        if self.test {
            r = r + 8;
        }
        if self.ring_mod {
            r = r + 4;
        }
        if self.sync {
            r = r + 2;
        }
        if self.gate {
            r = r + 1;
        }
        r
    }
}

impl Payload for Control {
    type Output = [u8; 1];

    open spec fn spec_payload(&self) -> Seq<u8> {
        seq![self.spec_byte()]
    }

    fn payload(&self, buf: &mut [u8; 1]) {
        *buf = [self.byte()];
        assert(buf@ =~= self.spec_payload());
    }
}

impl Payload for Voice {
    type Output = [u8; 7];

    /// Frequency and pulse width little-endian, then the control byte and the
    /// two envelope bytes.
    open spec fn spec_payload(&self) -> Seq<u8> {
        seq![
            (self.frequency % 256) as u8,
            (self.frequency / 256) as u8,
            (self.pwm@ % 256) as u8,
            (self.pwm@ / 256) as u8,
            self.control.spec_byte(),
            self.envelope.spec_payload()[0],
            self.envelope.spec_payload()[1],
        ]
    }

    fn payload(&self, buf: &mut [u8; 7]) {
        let pwm = self.pwm.value();
        let mut env = [0u8; 2];
        self.envelope.payload(&mut env);
        *buf = [
            (self.frequency % 256) as u8,
            (self.frequency / 256) as u8,
            (pwm % 256) as u8,
            (pwm / 256) as u8,
            self.control.byte(),
            env[0],
            env[1],
        ];
        assert(buf@ =~= self.spec_payload());
    }
}

impl Payload for Filter {
    type Output = [u8; 4];

    /// Cutoff bits 2..0, cutoff bits 10..3, resonance << 4 | targets, modes | volume.
    open spec fn spec_payload(&self) -> Seq<u8> {
        seq![
            (self.frequency@ % 8) as u8,
            (self.frequency@ / 8) as u8,
            (self.resonance@ * 16 + self.targets.spec_bits()) as u8,
            (self.kinds.spec_bits() + self.volume@) as u8,
        ]
    }

    fn payload(&self, buf: &mut [u8; 4]) {
        let f = self.frequency.value();
        let res = self.resonance.value();
        let vol = self.volume.value();
        *buf = [
            (f % 8) as u8,
            (f / 8) as u8,
            res * 16 + self.targets.bits(),
            self.kinds.bits() + vol,
        ];
        assert(buf@ =~= self.spec_payload());
    }
}

impl Envelope {
    /// Attack 0, decay 0, sustain 7, release 0.
    pub open spec fn is_default(self) -> bool {
        self.attack@ == 0 && self.decay@ == 0 && self.sustain@ == 7 && self.release@ == 0
    }
}

impl Default for Envelope {
    fn default() -> (r: Envelope)
        ensures
            r.is_default(),
    {
        Envelope {
            attack: U4::new(0).unwrap(),
            decay: U4::new(0).unwrap(),
            sustain: U4::new(7).unwrap(),
            release: U4::new(0).unwrap(),
        }
    }
}

impl Control {
    /// Square wave, every flag clear.
    pub open spec fn is_default(self) -> bool {
        self == (Control {
            shape: VoiceShape::Square,
            gate: false,
            sync: false,
            ring_mod: false,
            test: false,
        })
    }
}

impl Default for Control {
    fn default() -> (r: Control)
        ensures
            r.is_default(),
    {
        Control { shape: VoiceShape::Square, gate: false, sync: false, ring_mod: false, test: false }
    }
}

impl Voice {
    /// Frequency 7217, pulse width 2048, default envelope and control.
    pub open spec fn is_default(self) -> bool {
        self.frequency == 7217 && self.pwm@ == 2048 && self.envelope.is_default()
            && self.control.is_default()
    }
}

impl Default for Voice {
    fn default() -> (r: Voice)
        ensures
            r.is_default(),
    {
        Voice {
            frequency: 7217,
            pwm: U12::new(2048).unwrap(),
            envelope: Envelope::default(),
            control: Control::default(),
        }
    }
}

impl Filter {
    /// Cutoff 0, resonance 0, volume 7, no mode and nothing routed.
    pub open spec fn is_default(self) -> bool {
        self.frequency@ == 0 && self.resonance@ == 0 && self.volume@ == 7 && self.kinds
            == (FilterKinds { low_pass: false, band_pass: false, high_pass: false, three_off: false })
            && self.targets == (FilterTargets {
            voice1: false,
            voice2: false,
            voice3: false,
            external: false,
        })
    }
}

impl Default for Filter {
    fn default() -> (r: Filter)
        ensures
            r.is_default(),
    {
        Filter {
            frequency: U11::new(0).unwrap(),
            resonance: U4::new(0).unwrap(),
            volume: U4::new(7).unwrap(),
            kinds: FilterKinds::empty(),
            targets: FilterTargets::empty(),
        }
    }
}

impl SidState {
    /// Every voice and the filter at their defaults.
    pub open spec fn is_default(self) -> bool {
        &&& forall|i: int| 0 <= i < 3 ==> (#[trigger] self.voices[i]).is_default()
        &&& self.filter.is_default()
    }

    /// A state with every voice and the filter at their defaults.
    pub fn new() -> (r: SidState)
        ensures
            r.is_default(),
    {
        SidState::default()
    }
}

impl Default for SidState {
    fn default() -> (r: SidState)
        ensures
            r.is_default(),
    {
        let r = SidState {
            voices: [Voice::default(), Voice::default(), Voice::default()],
            filter: Filter::default(),
        };
        assert(r.voices@ =~= seq![r.voices[0], r.voices[1], r.voices[2]]);
        r
    }
}

/// The encoders' arithmetic is the register layout's masks, shifts and ORs:
/// `hi << 4 | lo` for two nibbles, `freq & 0xFF` and `freq >> 8` for the
/// frequency, `pwm & 0xFF` and `(pwm & 0x0F00) >> 8` for the pulse width,
/// `cutoff & 0x7` and `(cutoff & 0x7F8) >> 3` for the cutoff, and an OR of
/// the disjoint bits of resonance and targets, and of modes and volume.
pub proof fn lemma_bit_layout(v: Voice, f: Filter)
    requires
        v.pwm@ < 4096,
        f.frequency@ < 2048,
        f.resonance@ < 16,
        f.volume@ < 16,
        v.envelope.attack@ < 16,
        v.envelope.decay@ < 16,
        v.envelope.sustain@ < 16,
        v.envelope.release@ < 16,
    ensures
        ({
            let e = v.envelope;
            let (a, d, s, r) = (e.attack@ as u8, e.decay@ as u8, e.sustain@ as u8, e.release@ as u8);
            e.spec_payload() == seq![(a << 4u8) | d, (s << 4u8) | r]
        }),
        ({
            let (fr, p) = (v.frequency, v.pwm@ as u16);
            let vp = v.spec_payload();
            &&& vp[0] == (fr & 0xFF) as u8
            &&& vp[1] == (fr >> 8u16) as u8
            &&& vp[2] == (p & 0xFF) as u8
            &&& vp[3] == ((p & 0x0F00) >> 8u16) as u8
        }),
        ({
            let (c, res, vol) = (f.frequency@ as u16, f.resonance@ as u8, f.volume@ as u8);
            let (t, k) = (f.targets.spec_bits() as u8, f.kinds.spec_bits() as u8);
            let fp = f.spec_payload();
            &&& fp[0] == (c & 0x7) as u8
            &&& fp[1] == ((c & 0x7F8) >> 3u16) as u8
            &&& fp[2] == (res << 4u8) | t
            &&& fp[3] == k | vol
        }),
{
    let e = v.envelope;
    let (a, d, s, r) = (e.attack@ as u8, e.decay@ as u8, e.sustain@ as u8, e.release@ as u8);
    assert(a * 16 + d == (a << 4u8) | d) by (bit_vector)
        requires
            a < 16,
            d < 16,
    ;
    assert(s * 16 + r == (s << 4u8) | r) by (bit_vector)
        requires
            s < 16,
            r < 16,
    ;
    assert(e.spec_payload() =~= seq![(a << 4u8) | d, (s << 4u8) | r]);
    let (fr, p) = (v.frequency, v.pwm@ as u16);
    assert(fr % 256 == fr & 0xFF && fr / 256 == fr >> 8u16) by (bit_vector);
    assert(p % 256 == p & 0xFF && p / 256 == (p & 0x0F00) >> 8u16) by (bit_vector)
        requires
            p < 4096,
    ;
    let (c, res, vol) = (f.frequency@ as u16, f.resonance@ as u8, f.volume@ as u8);
    assert(c % 8 == c & 0x7 && c / 8 == (c & 0x7F8) >> 3u16) by (bit_vector)
        requires
            c < 2048,
    ;
    let tb = f.targets.spec_bits();
    let kb = f.kinds.spec_bits();
    assert(tb < 16);
    assert(kb % 16 == 0 && kb < 256);
    let (t, k) = (tb as u8, kb as u8);
    assert(res * 16 + t == (res << 4u8) | t) by (bit_vector)
        requires
            res < 16,
            t < 16,
    ;
    assert(k + vol == k | vol) by (bit_vector)
        requires
            k % 16 == 0,
            vol < 16,
    ;
}

} // verus!
