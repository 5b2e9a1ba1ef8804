use ppapi::code::Code;
use ppapi::ffi;

#[test]
fn code_reads_each_known_value() {
    assert_eq!(Code::from_i32(ffi::PP_OK), Code::Success);
    assert_eq!(Code::from_i32(ffi::PP_OK_COMPLETIONPENDING), Code::CompletionPending);
    assert_eq!(Code::from_i32(ffi::PP_ERROR_FAILED), Code::Failed);
    assert_eq!(Code::from_i32(ffi::PP_ERROR_BADARGUMENT), Code::BadArgument);
    assert_eq!(Code::from_i32(ffi::PP_ERROR_CONNECTION_TIMEDOUT), Code::TimedOut);
}

#[test]
fn code_roundtrips_through_raw_values() {
    let codes = [
        Code::Success, Code::BadResource, Code::BadArgument, Code::WrongThread, Code::InProgress,
        Code::Failed, Code::NotSupported, Code::NoMemory, Code::ContextLost, Code::CompletionPending,
        Code::FileNotFound, Code::FileExists, Code::NoAccess, Code::ConnectionRefused,
        Code::ConnectionReset, Code::ConnectionAborted, Code::ConnectionClosed, Code::TimedOut,
    ];
    for c in codes.iter() {
        assert_eq!(Code::from_i32(c.to_i32()), *c);
    }
}

#[test]
fn code_ok_and_results() {
    assert!(Code::Success.is_ok());
    assert!(Code::CompletionPending.is_ok());
    assert!(!Code::Failed.is_ok());
    assert_eq!(Code::Success.to_empty_result(), Ok(()));
    assert_eq!(Code::NoAccess.to_empty_result(), Err(Code::NoAccess));
    assert_eq!(Code::Success.to_result(|_| 7), Ok(7));
    assert_eq!(Code::Failed.to_result(|_| 7), Err(Code::Failed));
    assert_eq!(Code::Success.map(3), Some(3));
    assert_eq!(Code::BadResource.map(3), None);
}

#[test]
fn code_messages() {
    assert_eq!(Code::Success.message(), "ok");
    assert_eq!(Code::NoQuota.message(), "no space left in quota");
    assert_eq!(Code::TimedOut.message(), "operation timed out");
    assert_eq!(Code::NoInterface.message(), "no interface");
}

#[test]
fn unknown_codes_are_told_apart() {
    assert!(Code::is_known(ffi::PP_ERROR_FAILED));
    assert!(Code::is_known(ffi::PP_ERROR_CONNECTION_TIMEDOUT));
    assert!(!Code::is_known(ffi::PP_ERROR_NOINTERFACE));
    assert!(!Code::is_known(1));
}
