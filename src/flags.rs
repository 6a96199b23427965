use vstd::prelude::*;

verus! {

/// Weight of a flag in a register byte: `w` when set, 0 when clear.
pub open spec fn flag_bits(set: bool, w: nat) -> nat {
    if set {
        w
    } else {
        0
    }
}

fn flag_byte(set: bool, w: u8) -> (r: u8)
    ensures
        r as nat == flag_bits(set, w as nat),
{
    if set {
        w
    } else {
        0
    }
}

/// Waveform of a voice; the chip expects exactly one.
#[derive(Clone, Copy, Debug, PartialEq, Eq, Structural)]
pub enum VoiceShape {
    Triangle,
    Sawtooth,
    Square,
    Noise,
}

impl VoiceShape {
    /// The shape's bit in the control register (bits 4 to 7).
    pub open spec fn spec_bits(self) -> u8 {
        match self {
            VoiceShape::Triangle => 0x10,
            VoiceShape::Sawtooth => 0x20,
            VoiceShape::Square => 0x40,
            VoiceShape::Noise => 0x80,
        }
    }

    pub fn bits(&self) -> (r: u8)
        ensures
            r == self.spec_bits(),
    {
        match self {
            VoiceShape::Triangle => 0x10,
            VoiceShape::Sawtooth => 0x20,
            VoiceShape::Square => 0x40,
            VoiceShape::Noise => 0x80,
        }
    }
}

/// One filter mode; several may be active together.
#[derive(Clone, Copy, Debug, PartialEq, Eq, Structural)]
pub enum FilterKind {
    LowPass,
    BandPass,
    HighPass,
    ThreeOff,
}

/// A set of filter modes, rendered in bits 4 to 7 of the mode register.
#[derive(Clone, Copy, Debug, PartialEq, Eq, Structural)]
pub struct FilterKinds {
    pub low_pass: bool,
    pub band_pass: bool,
    pub high_pass: bool,
    pub three_off: bool,
}

impl FilterKinds {
    pub open spec fn spec_contains(self, k: FilterKind) -> bool {
        match k {
            FilterKind::LowPass => self.low_pass,
            FilterKind::BandPass => self.band_pass,
            FilterKind::HighPass => self.high_pass,
            FilterKind::ThreeOff => self.three_off,
        }
    }

    /// The raw register bits: the OR of the members' bits.
    pub open spec fn spec_bits(self) -> nat {
        flag_bits(self.low_pass, 0x10) + flag_bits(self.band_pass, 0x20) + flag_bits(
            self.high_pass,
            0x40,
        ) + flag_bits(self.three_off, 0x80)
    }

    /// The empty set.
    pub fn empty() -> (r: FilterKinds)
        ensures
            forall|k: FilterKind| !r.spec_contains(k),
            r == (FilterKinds { low_pass: false, band_pass: false, high_pass: false, three_off: false }),
    {
        FilterKinds { low_pass: false, band_pass: false, high_pass: false, three_off: false }
    }

    pub fn contains(&self, k: FilterKind) -> (r: bool)
        ensures
            r == self.spec_contains(k),
    {
        match k {
            FilterKind::LowPass => self.low_pass,
            FilterKind::BandPass => self.band_pass,
            FilterKind::HighPass => self.high_pass,
            FilterKind::ThreeOff => self.three_off,
        }
    }

    /// Adds (`on`) or removes (`!on`) one mode, leaving the others as they were.
    pub fn set(&mut self, k: FilterKind, on: bool)
        ensures
            final(self).spec_contains(k) == on,
            forall|j: FilterKind| j != k ==> final(self).spec_contains(j) == old(self).spec_contains(j),
    {
        match k {
            FilterKind::LowPass => self.low_pass = on,
            FilterKind::BandPass => self.band_pass = on,
            FilterKind::HighPass => self.high_pass = on,
            FilterKind::ThreeOff => self.three_off = on,
        }
    }

    /// The modes in either set.
    pub fn union(&self, o: &FilterKinds) -> (r: FilterKinds)
        ensures
            forall|k: FilterKind| r.spec_contains(k) == (self.spec_contains(k) || o.spec_contains(k)),
    {
        FilterKinds {
            low_pass: self.low_pass || o.low_pass,
            band_pass: self.band_pass || o.band_pass,
            high_pass: self.high_pass || o.high_pass,
            three_off: self.three_off || o.three_off,
        }
    }

    pub fn bits(&self) -> (r: u8)
        ensures
            r as nat == self.spec_bits(),
    {
        flag_byte(self.low_pass, 0x10) + flag_byte(self.band_pass, 0x20) + flag_byte(
            self.high_pass,
            0x40,
        ) + flag_byte(self.three_off, 0x80)
    }
}

/// One source that can be routed through the filter.
#[derive(Clone, Copy, Debug, PartialEq, Eq, Structural)]
pub enum FilterTarget {
    Voice1,
    Voice2,
    Voice3,
    External,
}

/// The sources routed through the filter, rendered in bits 0 to 3.
#[derive(Clone, Copy, Debug, PartialEq, Eq, Structural)]
pub struct FilterTargets {
    pub voice1: bool,
    pub voice2: bool,
    pub voice3: bool,
    pub external: bool,
}

impl FilterTargets {
    pub open spec fn spec_contains(self, t: FilterTarget) -> bool {
        match t {
            FilterTarget::Voice1 => self.voice1,
            FilterTarget::Voice2 => self.voice2,
            FilterTarget::Voice3 => self.voice3,
            FilterTarget::External => self.external,
        }
    }

    /// The raw register bits: the OR of the members' bits.
    pub open spec fn spec_bits(self) -> nat {
        flag_bits(self.voice1, 1) + flag_bits(self.voice2, 2) + flag_bits(self.voice3, 4)
            + flag_bits(self.external, 8)
    }

    /// The empty set.
    pub fn empty() -> (r: FilterTargets)
        ensures
            forall|t: FilterTarget| !r.spec_contains(t),
            r == (FilterTargets { voice1: false, voice2: false, voice3: false, external: false }),
    {
        FilterTargets { voice1: false, voice2: false, voice3: false, external: false }
    }

    pub fn contains(&self, t: FilterTarget) -> (r: bool)
        ensures
            r == self.spec_contains(t),
    {
        match t {
            FilterTarget::Voice1 => self.voice1,
            FilterTarget::Voice2 => self.voice2,
            FilterTarget::Voice3 => self.voice3,
            FilterTarget::External => self.external,
        }
    }

    /// Adds (`on`) or removes (`!on`) one source, leaving the others as they were.
    pub fn set(&mut self, t: FilterTarget, on: bool)
        ensures
            final(self).spec_contains(t) == on,
            forall|j: FilterTarget| j != t ==> final(self).spec_contains(j) == old(self).spec_contains(j),
    {
        match t {
            FilterTarget::Voice1 => self.voice1 = on,
            FilterTarget::Voice2 => self.voice2 = on,
            FilterTarget::Voice3 => self.voice3 = on,
            FilterTarget::External => self.external = on,
        }
    }

    /// The sources in either set.
    pub fn union(&self, o: &FilterTargets) -> (r: FilterTargets)
        ensures
            forall|t: FilterTarget| r.spec_contains(t) == (self.spec_contains(t) || o.spec_contains(t)),
    {
        FilterTargets {
            voice1: self.voice1 || o.voice1,
            voice2: self.voice2 || o.voice2,
            voice3: self.voice3 || o.voice3,
            external: self.external || o.external,
        }
    }

    pub fn bits(&self) -> (r: u8)
        ensures
            r as nat == self.spec_bits(),
    {
        flag_byte(self.voice1, 1) + flag_byte(self.voice2, 2) + flag_byte(self.voice3, 4)
            + flag_byte(self.external, 8)
    }
}

} // verus!
