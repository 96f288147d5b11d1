//! Raw status codes reported by the hosting components.

use vstd::prelude::*;

verus! {

/// A status code returned from the hosting resolver and the managed runtime.
///
/// The raw 32-bit code is kept verbatim: it is never reinterpreted or
/// normalized. Its most significant bit set marks a failure.
#[derive(Clone, Copy, Debug, PartialEq, Eq, Structural)]
pub struct Status(pub u32);

impl Status {
    /// Success means the most significant bit of the code is clear.
    pub open spec fn spec_is_ok(self) -> bool {
        self.0 < 0x8000_0000
    }

    /// Returns true if the status code indicates a success.
    ///
    /// This value is mutually exclusive to `is_err()`.
    pub fn is_ok(&self) -> (r: bool)
        ensures
            r == self.spec_is_ok(),
    {
        proof {
            let c = self.0;
            assert((c & 0x8000_0000u32) == 0 <==> c < 0x8000_0000u32) by (bit_vector);
        }
        (self.0 & 0x8000_0000) == 0
    }

    /// Returns true if the status code indicates an error.
    ///
    /// This value is mutually exclusive to `is_ok()`.
    pub fn is_err(&self) -> (r: bool)
        ensures
            r == !self.spec_is_ok(),
    {
        !self.is_ok()
    }
}

/// The status value that a signed 32-bit native return code denotes: the same
/// bit pattern read as an unsigned code.
pub open spec fn status_of_signed(c: i32) -> Status {
    if c >= 0 {
        Status(c as u32)
    } else {
        Status((c + 0x1_0000_0000) as u32)
    }
}

impl From<u32> for Status {
    fn from(c: u32) -> (r: Self) {
        Status(c)
    }
}

impl vstd::std_specs::convert::FromSpecImpl<u32> for Status {
    open spec fn obeys_from_spec() -> bool {
        true
    }

    open spec fn from_spec(c: u32) -> Self {
        Status(c)
    }
}

impl From<i32> for Status {
    fn from(c: i32) -> (r: Self) {
        if c >= 0 {
            Status(c as u32)
        } else {
            let wide: i64 = c as i64 + 0x1_0000_0000;
            Status(wide as u32)
        }
    }
}

impl vstd::std_specs::convert::FromSpecImpl<i32> for Status {
    open spec fn obeys_from_spec() -> bool {
        true
    }

    open spec fn from_spec(c: i32) -> Self {
        status_of_signed(c)
    }
}

} // verus!
