//! The in-application API: what can be decided without calling it.
//!
//! Talking to a RenderDoc library that is loaded into the process is the
//! caller's work. The rules around those calls are here: which versions of
//! the API are asked for and in what order, how a list of keys is counted,
//! how the path of a capture is cut out of the buffer it came in, and how a
//! failure reads.

use vstd::prelude::*;
use vstd::string::*;
use crate::decimal::{decimal, decimal_string};

verus! {

/// A version of the API as the library numbers it.
#[allow(non_camel_case_types)]
#[derive(Clone, Copy, Debug, PartialEq, Eq, Hash, Structural)]
pub struct RENDERDOC_Version(pub u32);

/// The number of version `major.minor.patch`.
pub open spec fn version_code(major: nat, minor: nat, patch: nat) -> nat {
    major * 10000 + minor * 100 + patch
}

/// The versions that are asked for, the newest first: 1.6.0 down to 1.0.0.
pub open spec fn preferred_version_codes() -> Seq<u32> {
    seq![
        10600u32,
        10500u32,
        10402u32,
        10401u32,
        10400u32,
        10300u32,
        10200u32,
        10102u32,
        10101u32,
        10100u32,
        10002u32,
        10001u32,
        10000u32,
    ]
}

/// The versions of the API to ask for, in the order in which to ask.
pub fn preferred_versions() -> (out: Vec<RENDERDOC_Version>)
    ensures
        out@.len() == preferred_version_codes().len(),
        forall|i: int| 0 <= i < out@.len() ==> (#[trigger] out@[i]).0 == preferred_version_codes()[i],
{
    let mut out: Vec<RENDERDOC_Version> = Vec::new();
    out.push(RENDERDOC_Version(10600));
    out.push(RENDERDOC_Version(10500));
    out.push(RENDERDOC_Version(10402));
    out.push(RENDERDOC_Version(10401));
    out.push(RENDERDOC_Version(10400));
    out.push(RENDERDOC_Version(10300));
    out.push(RENDERDOC_Version(10200));
    out.push(RENDERDOC_Version(10102));
    out.push(RENDERDOC_Version(10101));
    out.push(RENDERDOC_Version(10100));
    out.push(RENDERDOC_Version(10002));
    out.push(RENDERDOC_Version(10001));
    out.push(RENDERDOC_Version(10000));
    out
}

/// A newer version is always asked for before an older one, the first is
/// 1.6.0 and the last is 1.0.0.
pub proof fn lemma_newest_version_first(i: int, j: int)
    requires
        0 <= i < j < preferred_version_codes().len(),
    ensures
        preferred_version_codes()[i] > preferred_version_codes()[j],
        preferred_version_codes()[0] == version_code(1, 6, 0),
        preferred_version_codes().last() == version_code(1, 0, 0),
{
}

/// Why a call of the in-application API failed.
#[derive(Clone, Debug, PartialEq, Eq)]
pub enum InAppError {
    NotAvailable,
    LoadLibraryFailed(u32),
    DynamicLoadFailed(String),
    MissingGetApi,
    GetApiSymbolLoadFailed(String),
    GetApiFailed,
    GetApiFailedAllVersions,
    MissingFunction(&'static str),
    InvalidCaptureIndex,
    TooManyKeys,
    InvalidUtf8,
}

/// The text shown for an [`InAppError`].
pub open spec fn in_app_error_text(e: InAppError) -> Seq<char> {
    match e {
        InAppError::NotAvailable => "renderdoc library is not available in the current process"@,
        InAppError::LoadLibraryFailed(code) => "failed to load renderdoc library (Win32 error "@
            + decimal(code as nat) + ")"@,
        InAppError::DynamicLoadFailed(m) => "failed to load renderdoc library: "@ + m@,
        InAppError::MissingGetApi => "RENDERDOC_GetAPI not found in renderdoc module"@,
        InAppError::GetApiSymbolLoadFailed(m) => "RENDERDOC_GetAPI symbol load failed: "@ + m@,
        InAppError::GetApiFailed => "RENDERDOC_GetAPI returned failure"@,
        InAppError::GetApiFailedAllVersions => "RENDERDOC_GetAPI failed for all requested versions"@,
        InAppError::MissingFunction(name) => "required API function pointer is null: "@ + name@,
        InAppError::InvalidCaptureIndex => "capture index out of range"@,
        InAppError::TooManyKeys => "too many keys (max i32)"@,
        InAppError::InvalidUtf8 => "invalid UTF-8 from RenderDoc"@,
    }
}

impl InAppError {
    /// The failure in words.
    pub fn message(&self) -> (out: String)
        ensures
            out@ == in_app_error_text(*self),
    {
        match self {
            InAppError::NotAvailable => "renderdoc library is not available in the current process".to_owned(),
            InAppError::LoadLibraryFailed(code) => {
                let mut out = "failed to load renderdoc library (Win32 error ".to_owned();
                out.append(decimal_string(*code as u64).as_str());
                out.append(")");
                out
            },
            InAppError::DynamicLoadFailed(m) => "failed to load renderdoc library: ".to_owned().concat(
                m.as_str(),
            ),
            InAppError::MissingGetApi => "RENDERDOC_GetAPI not found in renderdoc module".to_owned(),
            InAppError::GetApiSymbolLoadFailed(m) => "RENDERDOC_GetAPI symbol load failed: ".to_owned().concat(
                m.as_str(),
            ),
            InAppError::GetApiFailed => "RENDERDOC_GetAPI returned failure".to_owned(),
            InAppError::GetApiFailedAllVersions => "RENDERDOC_GetAPI failed for all requested versions".to_owned(),
            InAppError::MissingFunction(name) => "required API function pointer is null: ".to_owned().concat(
                name,
            ),
            InAppError::InvalidCaptureIndex => "capture index out of range".to_owned(),
            InAppError::TooManyKeys => "too many keys (max i32)".to_owned(),
            InAppError::InvalidUtf8 => "invalid UTF-8 from RenderDoc".to_owned(),
        }
    }
}

/// The number of keys as the API takes it: the API counts in `i32`.
pub fn key_count(keys: usize) -> (out: Result<i32, InAppError>)
    ensures
        keys <= i32::MAX ==> out == Ok::<i32, InAppError>(keys as i32),
        keys > i32::MAX ==> out == Err::<i32, InAppError>(InAppError::TooManyKeys),
{
    if keys <= 0x7fff_ffff {
        Ok(keys as i32)
    } else {
        Err(InAppError::TooManyKeys)
    }
}

/// The length of `bytes` without the zero bytes at its end.
pub open spec fn trimmed_len(bytes: Seq<u8>) -> nat
    decreases bytes.len(),
{
    if bytes.len() > 0 && bytes.last() == 0 {
        trimmed_len(bytes.drop_last())
    } else {
        bytes.len()
    }
}

/// What is left of `bytes` without its trailing zeros: it ends in a byte
/// that is not zero, or is empty, and only zeros were cut.
pub proof fn lemma_trimmed(bytes: Seq<u8>)
    ensures
        trimmed_len(bytes) <= bytes.len(),
        trimmed_len(bytes) > 0 ==> bytes[trimmed_len(bytes) - 1] != 0,
        forall|i: int| trimmed_len(bytes) <= i < bytes.len() ==> bytes[i] == 0,
    decreases bytes.len(),
{
    if bytes.len() > 0 && bytes.last() == 0 {
        let rest = bytes.drop_last();
        lemma_trimmed(rest);
        assert forall|i: int| trimmed_len(bytes) <= i < bytes.len() implies bytes[i] == 0 by {
            if i < rest.len() {
                assert(rest[i] == bytes[i]);
            }
        }
        if trimmed_len(bytes) > 0 {
            assert(rest[trimmed_len(bytes) - 1] == bytes[trimmed_len(bytes) - 1]);
        }
    }
}

/// Cuts the zero bytes off the end of a buffer that the API filled with a
/// path.
pub fn trim_trailing_nuls(bytes: Vec<u8>) -> (out: Vec<u8>)
    ensures
        out@ == bytes@.take(trimmed_len(bytes@) as int),
{
    let mut out = bytes;
    while out.len() > 0 && out[out.len() - 1] == 0
        invariant
            out@.len() <= bytes@.len(),
            out@ == bytes@.take(out@.len() as int),
            trimmed_len(out@) == trimmed_len(bytes@),
        decreases out.len(),
    {
        let ghost before = out@;
        out.pop();
        assert(out@ =~= before.drop_last());
        assert(out@ =~= bytes@.take(out@.len() as int));
    }
    out
}

/// A capture that may not exist: an index out of range is no failure but
/// the answer that there is no such capture. Every other failure stays.
pub fn capture_if_any<T>(capture: Result<T, InAppError>) -> (out: Result<Option<T>, InAppError>)
    ensures
        match capture {
            Ok(c) => out == Ok::<Option<T>, InAppError>(Some(c)),
            Err(InAppError::InvalidCaptureIndex) => out == Ok::<Option<T>, InAppError>(None),
            Err(e) => out == Err::<Option<T>, InAppError>(e),
        },
{
    match capture {
        Ok(c) => Ok(Some(c)),
        Err(InAppError::InvalidCaptureIndex) => Ok(None),
        Err(e) => Err(e),
    }
}

} // verus!
