//! The names that are handed to the dynamic linker, and the messages.
use kdmapi::lifecycle::initialize_succeeded;
use kdmapi::native::library_path;
use kdmapi::{KDMAPIError, NativeFunction};

#[test]
fn entry_points_have_their_exported_names() {
    assert_eq!(NativeFunction::IsKDMAPIAvailable.symbol_name(), "IsKDMAPIAvailable");
    assert_eq!(NativeFunction::InitializeKDMAPIStream.symbol_name(), "InitializeKDMAPIStream");
    assert_eq!(NativeFunction::TerminateKDMAPIStream.symbol_name(), "TerminateKDMAPIStream");
    assert_eq!(NativeFunction::ResetKDMAPIStream.symbol_name(), "ResetKDMAPIStream");
    assert_eq!(NativeFunction::SendDirectData.symbol_name(), "SendDirectData");
    assert_eq!(NativeFunction::SendDirectDataNoBuf.symbol_name(), "SendDirectDataNoBuf");
}

#[test]
fn exported_names_are_plain_ascii_for_the_linker() {
    for function in [
        NativeFunction::IsKDMAPIAvailable,
        NativeFunction::InitializeKDMAPIStream,
        NativeFunction::TerminateKDMAPIStream,
        NativeFunction::ResetKDMAPIStream,
        NativeFunction::SendDirectData,
        NativeFunction::SendDirectDataNoBuf,
    ] {
        let name = function.symbol_name();
        assert!(name.is_ascii());
        assert!(!name.is_empty());
        assert!(!name.as_bytes().contains(&0));
    }
}

#[test]
fn library_is_looked_for_under_its_fixed_path() {
    assert_eq!(library_path(), "OmniMIDI\\OmniMIDI");
    assert_eq!(library_path().len(), 17);
}

#[test]
fn zero_is_the_only_initialize_result_that_reports_failure() {
    assert!(!initialize_succeeded(0));
    assert!(initialize_succeeded(1));
    assert!(initialize_succeeded(-1));
    assert!(initialize_succeeded(i32::MAX));
    assert!(initialize_succeeded(i32::MIN));
}

#[test]
fn errors_name_what_went_wrong() {
    assert_eq!(KDMAPIError::StreamAlreadyOpen.message(), "KDMAPI stream is already open");
    assert_eq!(KDMAPIError::NativeInitFailed.message(), "Failed to initialize KDMAPI stream");
    assert_ne!(KDMAPIError::StreamAlreadyOpen, KDMAPIError::NativeInitFailed);
}
