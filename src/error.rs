use vstd::prelude::*;
use idevice::IdeviceError;

verus! {

#[verifier::external_type_specification]
#[verifier::external_body]
pub struct ExIdeviceError(IdeviceError);

/// The category number of a device library error, which depends on the
/// error's variant alone.
pub uninterp spec fn category_of(e: IdeviceError) -> i32;

/// Relies on `IdeviceError::code`: the category number of the error's variant,
/// always positive (the source lists one positive literal per arm).
pub assume_specification[ IdeviceError::code ](e: &IdeviceError) -> (r: i32)
    ensures
        r == category_of(*e),
        r > 0,
;

/// The result of a boundary call as a foreign caller sees it.
///
/// `Success` and the two argument errors are produced by the boundary itself;
/// `Device` carries the positive category number of an error that came from
/// the device library.
#[derive(PartialEq, Eq, Structural, Clone, Copy, Debug)]
pub enum ErrorCode {
    Success,
    InvalidArg,
    InvalidString,
    Device(i32),
}

/// Raw value of `InvalidArg`.
pub const INVALID_ARG_CODE: i32 = -1;

/// Raw value of `InvalidString`.
pub const INVALID_STRING_CODE: i32 = -2;

impl ErrorCode {
    /// A device error always carries a positive category number.
    pub open spec fn wf(self) -> bool {
        self is Device ==> self->Device_0 > 0
    }

    /// The integer handed across the boundary.
    pub open spec fn raw_spec(self) -> i32 {
        match self {
            ErrorCode::Success => 0,
            ErrorCode::InvalidArg => INVALID_ARG_CODE,
            ErrorCode::InvalidString => INVALID_STRING_CODE,
            ErrorCode::Device(c) => c,
        }
    }

    #[verifier::when_used_as_spec(raw_spec)]
    pub fn raw(self) -> (r: i32)
        ensures
            r == self.raw_spec(),
    {
        match self {
            ErrorCode::Success => 0,
            ErrorCode::InvalidArg => INVALID_ARG_CODE,
            ErrorCode::InvalidString => INVALID_STRING_CODE,
            ErrorCode::Device(c) => c,
        }
    }

    pub fn is_success(&self) -> (r: bool)
        ensures
            r == (*self is Success),
    {
        match self {
            ErrorCode::Success => true,
            _ => false,
        }
    }
}

/// Distinct well-formed codes have distinct raw values, so the raw value
/// preserves the discriminant, and only `Success` is zero.
pub proof fn lemma_raw_injective(a: ErrorCode, b: ErrorCode)
    requires
        a.wf(),
        b.wf(),
    ensures
        a.raw_spec() == b.raw_spec() <==> a == b,
        a.raw_spec() == 0 <==> a is Success,
{
}

/// Turns an error of the device library into the code a foreign caller sees.
pub fn device_error_code(e: &IdeviceError) -> (r: ErrorCode)
    ensures
        r == ErrorCode::Device(category_of(*e)),
        r.wf(),
{
    ErrorCode::Device(e.code())
}

} // verus!
