use vstd::prelude::*;
use idevice::IdeviceError;
use crate::error::{category_of, device_error_code, ErrorCode};

verus! {

/// The wrapped device services.
#[derive(PartialEq, Eq, Structural, Clone, Copy, Debug)]
pub enum Service {
    Amfi,
    Heartbeat,
    OsTraceRelay,
}

impl Service {
    /// Whether a failed `connect` takes the provider handle and destroys it.
    pub open spec fn releases_provider_on_failure_spec(self) -> bool {
        self is Heartbeat || self is OsTraceRelay
    }

    #[verifier::when_used_as_spec(releases_provider_on_failure_spec)]
    pub fn releases_provider_on_failure(self) -> (r: bool)
        ensures
            r == self.releases_provider_on_failure_spec(),
    {
        match self {
            Service::Amfi => false,
            Service::Heartbeat => true,
            Service::OsTraceRelay => true,
        }
    }
}

/// Checks the two required pointer arguments of a call, given whether each
/// one is non-null.
pub fn check_pointers(first_present: bool, second_present: bool) -> (r: ErrorCode)
    ensures
        first_present && second_present ==> r is Success,
        !(first_present && second_present) ==> r is InvalidArg,
{
    if first_present && second_present {
        ErrorCode::Success
    } else {
        ErrorCode::InvalidArg
    }
}

/// What a `connect` call hands back once the connection attempt is over.
pub struct ConnectOutcome<C> {
    /// The code returned to the caller.
    pub code: ErrorCode,
    /// The client to store behind a new handle; present exactly on success.
    pub client: Option<C>,
    /// Whether the provider handle is now to be destroyed.
    pub release_provider: bool,
}

/// Decides the outcome of a `connect` call of `service` from the result of
/// the connection attempt.
pub fn finish_connect<C>(service: Service, res: Result<C, IdeviceError>) -> (r: ConnectOutcome<C>)
    ensures
        res is Ok ==> r.code is Success && r.client == Some(res->Ok_0) && !r.release_provider,
        res matches Err(e) ==> r.code == ErrorCode::Device(category_of(e)) && r.code.wf()
            && r.client is None
            && r.release_provider == service.releases_provider_on_failure(),
{
    match res {
        Ok(c) => ConnectOutcome { code: ErrorCode::Success, client: Some(c), release_provider: false },
        Err(e) => ConnectOutcome {
            code: device_error_code(&e),
            client: None,
            release_provider: service.releases_provider_on_failure(),
        },
    }
}

/// Decides the code of a call that produces no value.
pub fn finish_call(res: Result<(), IdeviceError>) -> (r: ErrorCode)
    ensures
        res is Ok ==> r is Success,
        res matches Err(e) ==> r == ErrorCode::Device(category_of(e)) && r.wf(),
{
    match res {
        Ok(()) => ErrorCode::Success,
        Err(e) => device_error_code(&e),
    }
}

/// Decides the code of a call that produces an owned value, and the value to
/// hand to the caller; nothing is handed over on failure.
pub fn finish_value<T>(res: Result<T, IdeviceError>) -> (r: (ErrorCode, Option<T>))
    ensures
        res is Ok ==> r.0 is Success && r.1 == Some(res->Ok_0),
        res matches Err(e) ==> r.0 == ErrorCode::Device(category_of(e)) && r.0.wf() && r.1 is None,
{
    match res {
        Ok(v) => (ErrorCode::Success, Some(v)),
        Err(e) => (device_error_code(&e), None),
    }
}

/// The process filter of a trace: the pointed-to pid when the pointer is
/// non-null, no filter otherwise.
pub fn pid_filter(present: bool, pid: u32) -> (r: Option<u32>)
    ensures
        present ==> r == Some(pid),
        !present ==> r is None,
{
    if present {
        Some(pid)
    } else {
        None
    }
}

} // verus!
