//! Register model and write protocol of a three-voice sound chip: the
//! parameters of each voice and of the filter, their exact register bytes, and
//! the framed, timed sequence of bus steps that writes and resets the chip.

pub mod fields;
pub mod flags;
pub mod registers;
pub mod sid;
pub mod state;

pub use fields::{RangeError, U11, U12, U4};
pub use flags::{FilterKind, FilterKinds, FilterTarget, FilterTargets, VoiceShape};
pub use registers::{
    FilterRegister, VoiceRegister, FILTER_REG_START, NUM_VOICES, VOICE_REG_OFFSET, VOICE_REG_START,
};
pub use sid::{Addressing, Bus, BusLog, BusOp, Sid};
pub use state::{Control, Envelope, Filter, Payload, SidState, Voice};
