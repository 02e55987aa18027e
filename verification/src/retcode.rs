//! Kernel-wide status codes.
//!
//! Every kernel API reports failure through a `ReturnCode` rather than by
//! panicking.  At the system-call boundary each code maps to a stable
//! signed integer: zero for success and a distinct negative value for each
//! error kind.

use vstd::prelude::*;

verus! {

/// Status returned by driver operations and system calls.
#[derive(Clone, Copy, Debug, PartialEq, Eq, Structural)]
pub enum ReturnCode {
    /// Operation succeeded.
    SUCCESS,
    /// Generic failure.
    FAIL,
    /// The underlying resource is busy with another operation.
    EBUSY,
    /// The requested state was already in effect.
    EALREADY,
    /// The device is not powered.
    EOFF,
    /// No memory was reserved for the operation.
    ERESERVE,
    /// An argument or required buffer was invalid or missing.
    EINVAL,
    /// A length was out of the supported range.
    ESIZE,
    /// The operation was cancelled.
    ECANCEL,
    /// Memory was exhausted.
    ENOMEM,
    /// The operation is not supported.
    ENOSUPPORT,
    /// No such device.
    ENODEVICE,
    /// The peripheral did not acknowledge.
    ENOACK,
}

impl ReturnCode {
    /// The signed integer a user process sees for this code: `0` for
    /// success, a distinct negative value for each error kind.
    pub open spec fn spec_as_i32(self) -> i32 {
        match self {
            ReturnCode::SUCCESS => 0i32,
            ReturnCode::FAIL => -1i32,
            ReturnCode::EBUSY => -2i32,
            ReturnCode::EALREADY => -3i32,
            ReturnCode::EOFF => -4i32,
            ReturnCode::ERESERVE => -5i32,
            ReturnCode::EINVAL => -6i32,
            ReturnCode::ESIZE => -7i32,
            ReturnCode::ECANCEL => -8i32,
            ReturnCode::ENOMEM => -9i32,
            ReturnCode::ENOSUPPORT => -10i32,
            ReturnCode::ENODEVICE => -11i32,
            ReturnCode::ENOACK => -13i32,
        }
    }

    /// Convert to the integer form delivered across the system-call boundary.
    pub fn as_i32(self) -> (r: i32)
        ensures
            r == self.spec_as_i32(),
            r <= 0,
            r == 0 <==> self == ReturnCode::SUCCESS,
    {
        match self {
            ReturnCode::SUCCESS => 0,
            ReturnCode::FAIL => -1,
            ReturnCode::EBUSY => -2,
            ReturnCode::EALREADY => -3,
            ReturnCode::EOFF => -4,
            ReturnCode::ERESERVE => -5,
            ReturnCode::EINVAL => -6,
            ReturnCode::ESIZE => -7,
            ReturnCode::ECANCEL => -8,
            ReturnCode::ENOMEM => -9,
            ReturnCode::ENOSUPPORT => -10,
            ReturnCode::ENODEVICE => -11,
            ReturnCode::ENOACK => -13,
        }
    }

    /// True exactly for `SUCCESS`.
    pub fn is_success(self) -> (r: bool)
        ensures
            r <==> self == ReturnCode::SUCCESS,
    {
        match self {
            ReturnCode::SUCCESS => true,
            _ => false,
        }
    }
}

} // verus!
