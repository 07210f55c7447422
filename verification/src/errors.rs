use vstd::prelude::*;

verus! {

/// The closed vocabulary of engine outcomes.
///
/// The native layer reports every fallible call's outcome as a small
/// signed integer; this enumeration is the typed form of that vocabulary.
/// The wire values are fixed by [`raw_from_code`] and [`spec_code_from_raw`]
/// and must not be renumbered.
#[derive(Clone, Copy, Debug, PartialEq, Eq, Structural)]
pub enum BlurErrorCode {
    Success,
    NotInitialized,
    InvalidHandle,
    InvalidParameter,
    D3D11Failed,
    CaptureFailed,
    Unknown,
}

/// The typed outcome denoted by a raw engine code: `0` is success, the
/// small negative codes are the known failures, and every unrecognized
/// code collapses to `Unknown`.
pub open spec fn spec_code_from_raw(raw: i32) -> BlurErrorCode {
    if raw == 0 {
        BlurErrorCode::Success
    } else if raw == -1 {
        BlurErrorCode::NotInitialized
    } else if raw == -2 {
        BlurErrorCode::InvalidHandle
    } else if raw == -3 {
        BlurErrorCode::InvalidParameter
    } else if raw == -4 {
        BlurErrorCode::D3D11Failed
    } else if raw == -5 {
        BlurErrorCode::CaptureFailed
    } else {
        BlurErrorCode::Unknown
    }
}

/// Translate a raw engine code into the typed vocabulary.
#[verifier::when_used_as_spec(spec_code_from_raw)]
pub fn code_from_raw(raw: i32) -> (r: BlurErrorCode)
    ensures
        r == spec_code_from_raw(raw),
{
    if raw == 0 {
        BlurErrorCode::Success
    } else if raw == -1 {
        BlurErrorCode::NotInitialized
    } else if raw == -2 {
        BlurErrorCode::InvalidHandle
    } else if raw == -3 {
        BlurErrorCode::InvalidParameter
    } else if raw == -4 {
        BlurErrorCode::D3D11Failed
    } else if raw == -5 {
        BlurErrorCode::CaptureFailed
    } else {
        BlurErrorCode::Unknown
    }
}

/// The wire value of a typed code; `Unknown` keeps the engine's own
/// out-of-band value. Translating the result back yields the same code,
/// so the numbering is pinned in both directions.
pub fn raw_from_code(code: BlurErrorCode) -> (r: i32)
    ensures
        code == BlurErrorCode::Success ==> r == 0,
        code == BlurErrorCode::NotInitialized ==> r == -1,
        code == BlurErrorCode::InvalidHandle ==> r == -2,
        code == BlurErrorCode::InvalidParameter ==> r == -3,
        code == BlurErrorCode::D3D11Failed ==> r == -4,
        code == BlurErrorCode::CaptureFailed ==> r == -5,
        code == BlurErrorCode::Unknown ==> r == -99,
        spec_code_from_raw(r) == code,
{
    match code {
        BlurErrorCode::Success => 0,
        BlurErrorCode::NotInitialized => -1,
        BlurErrorCode::InvalidHandle => -2,
        BlurErrorCode::InvalidParameter => -3,
        BlurErrorCode::D3D11Failed => -4,
        BlurErrorCode::CaptureFailed => -5,
        BlurErrorCode::Unknown => -99,
    }
}

/// Map a raw engine code to a result: success exactly on `0`, and
/// otherwise the typed failure that the code denotes.
pub fn check_code(raw: i32) -> (r: Result<(), BlurErrorCode>)
    ensures
        r is Ok <==> raw == 0,
        raw != 0 ==> r == Err::<(), BlurErrorCode>(spec_code_from_raw(raw)),
{
    if raw == 0 {
        Ok(())
    } else {
        Err(code_from_raw(raw))
    }
}

} // verus!
