use renderdog::in_app::{
    capture_if_any, key_count, preferred_versions, trim_trailing_nuls, InAppError,
    RENDERDOC_Version,
};

#[test]
fn versions_are_asked_for_newest_first() {
    let versions: Vec<u32> = preferred_versions().into_iter().map(|v| v.0).collect();
    assert_eq!(
        versions,
        vec![10600, 10500, 10402, 10401, 10400, 10300, 10200, 10102, 10101, 10100, 10002, 10001, 10000]
    );
    assert_eq!(preferred_versions()[0], RENDERDOC_Version(10600));
    assert!(versions.windows(2).all(|w| w[0] > w[1]));
}

#[test]
fn keys_are_counted_in_i32() {
    assert_eq!(key_count(0), Ok(0));
    assert_eq!(key_count(3), Ok(3));
    assert_eq!(key_count(i32::MAX as usize), Ok(i32::MAX));
    assert_eq!(key_count(i32::MAX as usize + 1), Err(InAppError::TooManyKeys));
    assert_eq!(key_count(usize::MAX), Err(InAppError::TooManyKeys));
}

#[test]
fn trailing_zero_bytes_are_cut() {
    assert_eq!(trim_trailing_nuls(b"/tmp/a.rdc\0".to_vec()), b"/tmp/a.rdc");
    assert_eq!(trim_trailing_nuls(b"/tmp/a.rdc\0\0\0".to_vec()), b"/tmp/a.rdc");
    assert_eq!(trim_trailing_nuls(b"/tmp/a.rdc".to_vec()), b"/tmp/a.rdc");
    assert_eq!(trim_trailing_nuls(b"a\0b\0".to_vec()), b"a\0b");
    assert_eq!(trim_trailing_nuls(b"\0\0".to_vec()), b"");
    assert_eq!(trim_trailing_nuls(Vec::new()), b"");
}

#[test]
fn capture_index_out_of_range_is_no_capture() {
    assert_eq!(capture_if_any(Ok(("a.rdc", 5u64))), Ok(Some(("a.rdc", 5u64))));
    assert_eq!(capture_if_any::<u8>(Err(InAppError::InvalidCaptureIndex)), Ok(None));
    assert_eq!(capture_if_any::<u8>(Err(InAppError::InvalidUtf8)), Err(InAppError::InvalidUtf8));
    assert_eq!(
        capture_if_any::<u8>(Err(InAppError::MissingFunction("GetCapture"))),
        Err(InAppError::MissingFunction("GetCapture"))
    );
}

#[test]
fn in_app_failures_have_their_words() {
    assert_eq!(
        InAppError::NotAvailable.message(),
        "renderdoc library is not available in the current process"
    );
    assert_eq!(
        InAppError::LoadLibraryFailed(126).message(),
        "failed to load renderdoc library (Win32 error 126)"
    );
    assert_eq!(
        InAppError::DynamicLoadFailed("librenderdoc.so: not found".to_string()).message(),
        "failed to load renderdoc library: librenderdoc.so: not found"
    );
    assert_eq!(InAppError::MissingGetApi.message(), "RENDERDOC_GetAPI not found in renderdoc module");
    assert_eq!(
        InAppError::GetApiSymbolLoadFailed("undefined symbol".to_string()).message(),
        "RENDERDOC_GetAPI symbol load failed: undefined symbol"
    );
    assert_eq!(InAppError::GetApiFailed.message(), "RENDERDOC_GetAPI returned failure");
    assert_eq!(
        InAppError::GetApiFailedAllVersions.message(),
        "RENDERDOC_GetAPI failed for all requested versions"
    );
    assert_eq!(
        InAppError::MissingFunction("TriggerCapture").message(),
        "required API function pointer is null: TriggerCapture"
    );
    assert_eq!(InAppError::InvalidCaptureIndex.message(), "capture index out of range");
    assert_eq!(InAppError::TooManyKeys.message(), "too many keys (max i32)");
    assert_eq!(InAppError::InvalidUtf8.message(), "invalid UTF-8 from RenderDoc");
}
