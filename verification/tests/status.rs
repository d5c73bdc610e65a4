use efi::types::{outcome, Bool, Handle, Status, HIGHBIT};

const ALL: [Status; 41] = [
    Status::Success,
    Status::LoadError,
    Status::InvalidParameter,
    Status::Unsupported,
    Status::BadBufferSize,
    Status::BufferTooSmall,
    Status::NotReady,
    Status::DeviceError,
    Status::WriteProtected,
    Status::OutOfResources,
    Status::VolumeCorrupted,
    Status::VolumeFull,
    Status::NoMedia,
    Status::MediaChanged,
    Status::NotFound,
    Status::AccessDenied,
    Status::NoResponse,
    Status::NoMapping,
    Status::Timeout,
    Status::NotStarted,
    Status::AlreadyStarted,
    Status::Aborted,
    Status::IcmpError,
    Status::TftpError,
    Status::ProtocolError,
    Status::IncompatibleVersion,
    Status::SecurityViolation,
    Status::CrcError,
    Status::EndOfMedia,
    Status::EndOfFile,
    Status::InvalidLanguage,
    Status::CompromisedData,
    Status::IpAddressConflict,
    Status::HttpError,
    Status::WarnUnknownGlyph,
    Status::WarnDeleteFailure,
    Status::WarnWriteFailure,
    Status::WarnBufferTooSmall,
    Status::WarnStaleData,
    Status::WarnFileSystem,
    Status::WarnResetRequired,
];

#[test]
fn highbit_is_the_top_bit_of_a_code() {
    assert_eq!(HIGHBIT, 1u64 << 63);
}

#[test]
fn codes_keep_the_firmware_encoding() {
    assert_eq!(Status::Success.code(), 0);
    assert_eq!(Status::LoadError.code(), 0x8000_0000_0000_0001);
    assert_eq!(Status::BufferTooSmall.code(), 0x8000_0000_0000_0005);
    assert_eq!(Status::NotFound.code(), 0x8000_0000_0000_000E);
    assert_eq!(Status::AccessDenied.code(), 0x8000_0000_0000_000F);
    assert_eq!(Status::Timeout.code(), 0x8000_0000_0000_0012);
    assert_eq!(Status::EndOfMedia.code(), 0x8000_0000_0000_001C);
    assert_eq!(Status::EndOfFile.code(), 0x8000_0000_0000_001F);
    assert_eq!(Status::HttpError.code(), 0x8000_0000_0000_0023);
    assert_eq!(Status::WarnUnknownGlyph.code(), 1);
    assert_eq!(Status::WarnResetRequired.code(), 7);
}

#[test]
fn as_result_is_err_exactly_for_codes_with_the_high_bit() {
    for status in ALL.iter() {
        let high = status.code() & HIGHBIT != 0;
        match status.as_result() {
            Ok(kept) => {
                assert!(!high);
                assert_eq!(kept, *status);
            }
            Err(kept) => {
                assert!(high);
                assert_eq!(kept, *status);
            }
        }
    }
}

#[test]
fn warnings_are_successes_that_keep_their_code() {
    assert_eq!(Status::WarnBufferTooSmall.as_result(), Ok(Status::WarnBufferTooSmall));
    assert_eq!(Status::Success.as_result(), Ok(Status::Success));
    assert_eq!(Status::BufferTooSmall.as_result(), Err(Status::BufferTooSmall));
}

#[test]
fn from_code_inverts_code() {
    for status in ALL.iter() {
        assert_eq!(Status::from_code(status.code()), Some(*status));
    }
    assert_eq!(Status::from_code(8), None);
    assert_eq!(Status::from_code(0x8000_0000_0000_0000), None);
    assert_eq!(Status::from_code(0x8000_0000_0000_001D), None);
    assert_eq!(Status::from_code(0x8000_0000_0000_0024), None);
    assert_eq!(Status::from_code(u64::MAX), None);
}

#[test]
fn outcome_lets_the_value_through_unless_the_status_is_an_error() {
    assert_eq!(outcome(Status::Success, 5u8), Ok(5u8));
    assert_eq!(outcome(Status::WarnStaleData, 5u8), Ok(5u8));
    assert_eq!(outcome(Status::DeviceError, 5u8), Err(Status::DeviceError));
}

#[test]
fn bool_from_bool() {
    assert_eq!(Bool::from(true), Bool::True);
    assert_eq!(Bool::from(false), Bool::False);
    assert_eq!(Bool::True.byte(), 1);
    assert_eq!(Bool::False.byte(), 0);
}

#[test]
fn handles_compare_by_their_raw_value() {
    assert_eq!(Handle::from_raw(7), Handle::from_raw(7));
    assert_ne!(Handle::from_raw(7), Handle::from_raw(8));
    assert_eq!(Handle::null().raw(), 0);
    assert_eq!(Handle::from_raw(7).raw(), 7);
}
