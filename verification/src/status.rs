//! OpenFX status codes and the conversions between a status and a result.
#![allow(non_upper_case_globals)]

use vstd::prelude::*;

verus! {

/// A status code as returned by the host and by the plugin's entry point.
pub type OfxStatus = i32;

/// The result of an operation that either succeeds or fails with a status.
pub type OfxResult<T> = Result<T, OfxStatus>;

pub const kOfxStatOK: OfxStatus = 0;
pub const kOfxStatFailed: OfxStatus = 1;
pub const kOfxStatErrFatal: OfxStatus = 2;
pub const kOfxStatErrUnknown: OfxStatus = 3;
pub const kOfxStatErrMissingHostFeature: OfxStatus = 4;
pub const kOfxStatErrUnsupported: OfxStatus = 5;
pub const kOfxStatErrExists: OfxStatus = 6;
pub const kOfxStatErrFormat: OfxStatus = 7;
pub const kOfxStatErrMemory: OfxStatus = 8;
pub const kOfxStatErrBadHandle: OfxStatus = 9;
pub const kOfxStatErrBadIndex: OfxStatus = 10;
pub const kOfxStatErrValue: OfxStatus = 11;
pub const kOfxStatReplyYes: OfxStatus = 12;
pub const kOfxStatReplyNo: OfxStatus = 13;
pub const kOfxStatReplyDefault: OfxStatus = 14;

/// A status read as a result: `kOfxStatOK` is success, anything else is the
/// failure it names.
pub open spec fn spec_ofx_ok(status: OfxStatus) -> OfxResult<()> {
    if status == kOfxStatOK {
        Ok(())
    } else {
        Err(status)
    }
}

/// A result read as the status the entry point reports for it.
pub open spec fn spec_status_from_result(result: OfxResult<()>) -> OfxStatus {
    match result {
        Ok(_) => kOfxStatOK,
        Err(status) => status,
    }
}

/// Turns a status returned by the host into a result.
pub fn ofx_ok(status: OfxStatus) -> (r: OfxResult<()>)
    ensures
        r == spec_ofx_ok(status),
{
    if status == kOfxStatOK {
        Ok(())
    } else {
        Err(status)
    }
}

/// The status the plugin's main entry reports for the result of an action.
pub fn status_from_result(result: OfxResult<()>) -> (s: OfxStatus)
    ensures
        s == spec_status_from_result(result),
{
    match result {
        Ok(_) => kOfxStatOK,
        Err(status) => status,
    }
}

/// Reading a host status as a result and reporting that result again gives
/// back the same status, for every status.
pub proof fn lemma_status_round_trip(status: OfxStatus)
    ensures
        spec_status_from_result(spec_ofx_ok(status)) == status,
{
}

/// Reporting a result as a status and reading it back gives the same result,
/// except for a failure that carries `kOfxStatOK`, which reads back as success.
pub proof fn lemma_result_round_trip(result: OfxResult<()>)
    requires
        result != Err::<(), OfxStatus>(kOfxStatOK),
    ensures
        spec_ofx_ok(spec_status_from_result(result)) == result,
{
    match result {
        Ok(u) => {
            let unit: () = u;
            assert(unit == ());
        },
        Err(_) => {},
    }
}

} // verus!
