use vstd::prelude::*;

verus! {

/// Number of voices on the chip.
pub const NUM_VOICES: usize = 3;

/// Address of the first voice's first register.
pub const VOICE_REG_START: u8 = 0;

/// Distance between the first registers of two neighbouring voices.
pub const VOICE_REG_OFFSET: u8 = 7;

/// Address of the filter's first register, right after the voice block.
pub const FILTER_REG_START: u8 = 21;

/// Address of the first register of voice `voice`.
pub open spec fn voice_base(voice: nat) -> nat {
    VOICE_REG_START as nat + VOICE_REG_OFFSET as nat * voice
}

/// The registers of one voice, by their offset in the voice's group.
#[derive(Clone, Copy, Debug, PartialEq, Eq, Structural)]
pub enum VoiceRegister {
    Freq,
    Pwm,
    Control,
    AttackDecay,
    SustainRelease,
}

/// The registers of the filter.
#[derive(Clone, Copy, Debug, PartialEq, Eq, Structural)]
pub enum FilterRegister {
    CutoffLow,
    CutoffHigh,
    Resonance,
    Mode,
}

impl VoiceRegister {
    /// Offset of the register inside a voice's group.
    pub open spec fn spec_offset(self) -> u8 {
        match self {
            VoiceRegister::Freq => 0x00,
            VoiceRegister::Pwm => 0x02,
            VoiceRegister::Control => 0x04,
            VoiceRegister::AttackDecay => 0x05,
            VoiceRegister::SustainRelease => 0x06,
        }
    }

    fn offset(self) -> (r: u8)
        ensures
            r == self.spec_offset(),
    {
        match self {
            VoiceRegister::Freq => 0x00,
            VoiceRegister::Pwm => 0x02,
            VoiceRegister::Control => 0x04,
            VoiceRegister::AttackDecay => 0x05,
            VoiceRegister::SustainRelease => 0x06,
        }
    }

    /// Address of this register of voice `voice`.
    pub fn addr(self, voice: usize) -> (r: u8)
        requires
            voice < NUM_VOICES,
        ensures
            r == voice_base(voice as nat) + self.spec_offset(),
    {
        self.offset() + VOICE_REG_OFFSET * (voice as u8)
    }
}

impl FilterRegister {
    /// Address of the register.
    pub open spec fn spec_addr(self) -> u8 {
        match self {
            FilterRegister::CutoffLow => 0x15,
            FilterRegister::CutoffHigh => 0x16,
            FilterRegister::Resonance => 0x17,
            FilterRegister::Mode => 0x18,
        }
    }

    /// Address of the register.
    pub fn addr(self) -> (r: u8)
        ensures
            r == self.spec_addr(),
            r >= FILTER_REG_START,
    {
        match self {
            FilterRegister::CutoffLow => 0x15,
            FilterRegister::CutoffHigh => 0x16,
            FilterRegister::Resonance => 0x17,
            FilterRegister::Mode => 0x18,
        }
    }
}

} // verus!
