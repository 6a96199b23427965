use vstd::prelude::*;

verus! {

/// Error returned when a value does not fit in the bit width of a field.
#[derive(Clone, Copy, Debug, PartialEq, Eq, Structural)]
pub struct RangeError {
    /// The rejected value.
    pub value: u16,
    /// The width, in bits, of the field it was meant for.
    pub bits: u8,
}

/// An unsigned integer of 4 bits.
#[derive(Clone, Copy, Debug, PartialEq, Eq, Structural)]
pub struct U4 {
    v: u8,
}

impl View for U4 {
    type V = nat;

    closed spec fn view(&self) -> nat {
        self.v as nat
    }
}

impl U4 {
    /// The largest value the field holds.
    pub const MAX: u8 = 15;

    #[verifier::type_invariant]
    spec fn fits(self) -> bool {
        self.v < 16
    }

    /// What `new` gives for `v`: the value when it fits in 4 bits, else an error.
    pub closed spec fn spec_new(v: u8) -> Result<U4, RangeError> {
        if v < 16 {
            Ok(U4 { v })
        } else {
            Err(RangeError { value: v as u16, bits: 4 })
        }
    }

    /// Builds a 4-bit value, or fails when `v` exceeds 15.
    pub fn new(v: u8) -> (r: Result<U4, RangeError>)
        ensures
            r == U4::spec_new(v),
            r is Ok <==> v < 16,
            r matches Ok(x) ==> x@ == v,
            r matches Err(e) ==> e == (RangeError { value: v as u16, bits: 4 }),
    {
        if v < 16 {
            Ok(U4 { v })
        } else {
            Err(RangeError { value: v as u16, bits: 4 })
        }
    }

    /// The value as a native integer; never above 15.
    pub fn value(&self) -> (r: u8)
        ensures
            r as nat == self@,
            r < 16,
    {
        proof {
            use_type_invariant(self);
        }
        self.v
    }

}

/// Building a 4-bit value and reading it back gives the magnitude unchanged, and
/// every magnitude wider than 4 bits is refused.
pub proof fn lemma_u4_round_trip(m: u8)
    ensures
        m < 16 ==> U4::spec_new(m) is Ok && U4::spec_new(m)->Ok_0@ == m,
        m >= 16 ==> U4::spec_new(m) is Err,
{
}

/// An unsigned integer of 11 bits.
#[derive(Clone, Copy, Debug, PartialEq, Eq, Structural)]
pub struct U11 {
    v: u16,
}

impl View for U11 {
    type V = nat;

    closed spec fn view(&self) -> nat {
        self.v as nat
    }
}

impl U11 {
    /// The largest value the field holds.
    pub const MAX: u16 = 2047;

    #[verifier::type_invariant]
    spec fn fits(self) -> bool {
        self.v < 2048
    }

    /// What `new` gives for `v`: the value when it fits in 11 bits, else an error.
    pub closed spec fn spec_new(v: u16) -> Result<U11, RangeError> {
        if v < 2048 {
            Ok(U11 { v })
        } else {
            Err(RangeError { value: v as u16, bits: 11 })
        }
    }

    /// Builds a 11-bit value, or fails when `v` exceeds 2047.
    pub fn new(v: u16) -> (r: Result<U11, RangeError>)
        ensures
            r == U11::spec_new(v),
            r is Ok <==> v < 2048,
            r matches Ok(x) ==> x@ == v,
            r matches Err(e) ==> e == (RangeError { value: v as u16, bits: 11 }),
    {
        if v < 2048 {
            Ok(U11 { v })
        } else {
            Err(RangeError { value: v as u16, bits: 11 })
        }
    }

    /// The value as a native integer; never above 2047.
    pub fn value(&self) -> (r: u16)
        ensures
            r as nat == self@,
            r < 2048,
    {
        proof {
            use_type_invariant(self);
        }
        self.v
    }

}

/// Building a 11-bit value and reading it back gives the magnitude unchanged, and
/// every magnitude wider than 11 bits is refused.
pub proof fn lemma_u11_round_trip(m: u16)
    ensures
        m < 2048 ==> U11::spec_new(m) is Ok && U11::spec_new(m)->Ok_0@ == m,
        m >= 2048 ==> U11::spec_new(m) is Err,
{
}

/// An unsigned integer of 12 bits.
#[derive(Clone, Copy, Debug, PartialEq, Eq, Structural)]
pub struct U12 {
    v: u16,
}

impl View for U12 {
    type V = nat;

    closed spec fn view(&self) -> nat {
        self.v as nat
    }
}

impl U12 {
    /// The largest value the field holds.
    pub const MAX: u16 = 4095;

    #[verifier::type_invariant]
    spec fn fits(self) -> bool {
        self.v < 4096
    }

    /// What `new` gives for `v`: the value when it fits in 12 bits, else an error.
    pub closed spec fn spec_new(v: u16) -> Result<U12, RangeError> {
        if v < 4096 {
            Ok(U12 { v })
        } else {
            Err(RangeError { value: v as u16, bits: 12 })
        }
    }

    /// Builds a 12-bit value, or fails when `v` exceeds 4095.
    pub fn new(v: u16) -> (r: Result<U12, RangeError>)
        ensures
            r == U12::spec_new(v),
            r is Ok <==> v < 4096,
            r matches Ok(x) ==> x@ == v,
            r matches Err(e) ==> e == (RangeError { value: v as u16, bits: 12 }),
    {
        if v < 4096 {
            Ok(U12 { v })
        } else {
            Err(RangeError { value: v as u16, bits: 12 })
        }
    }

    /// The value as a native integer; never above 4095.
    pub fn value(&self) -> (r: u16)
        ensures
            r as nat == self@,
            r < 4096,
    {
        proof {
            use_type_invariant(self);
        }
        self.v
    }

}

/// Building a 12-bit value and reading it back gives the magnitude unchanged, and
/// every magnitude wider than 12 bits is refused.
pub proof fn lemma_u12_round_trip(m: u16)
    ensures
        m < 4096 ==> U12::spec_new(m) is Ok && U12::spec_new(m)->Ok_0@ == m,
        m >= 4096 ==> U12::spec_new(m) is Err,
{
}

} // verus!
