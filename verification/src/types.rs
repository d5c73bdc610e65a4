//! Plain value types shared by every firmware interface.

use vstd::prelude::*;

verus! {

/// 2-byte character
pub type Char16 = u16;

/// A physical memory address
pub type PhysicalAddress = u64;

/// A virtual memory address
pub type VirtualAddress = u64;

/// The bit of a status code that marks it as an error.
pub const HIGHBIT: u64 = 0x8000_0000_0000_0000u64;

/// Logical boolean, one byte wide at the firmware boundary.
#[derive(Clone, Copy, Debug, PartialEq, Eq, Structural)]
pub enum Bool {
    False,
    True,
}

impl Bool {
    /// The logical boolean that stands for `b`.
    pub open spec fn spec_of(b: bool) -> Bool {
        if b {
            Bool::True
        } else {
            Bool::False
        }
    }

    /// The byte the firmware sees for this value.
    pub open spec fn spec_byte(self) -> u8 {
        match self {
            Bool::False => 0u8,
            Bool::True => 1u8,
        }
    }

    /// The byte the firmware sees for this value.
    pub fn byte(&self) -> (r: u8)
        ensures
            r == self.spec_byte(),
    {
        match self {
            Bool::False => 0u8,
            Bool::True => 1u8,
        }
    }
}

impl From<bool> for Bool {
    fn from(b: bool) -> (r: Bool) {
        match b {
            false => Bool::False,
            true => Bool::True,
        }
    }
}

impl vstd::std_specs::convert::FromSpecImpl<bool> for Bool {
    open spec fn obeys_from_spec() -> bool {
        true
    }

    open spec fn from_spec(b: bool) -> Bool {
        Bool::spec_of(b)
    }
}

/// Opaque handle to some firmware-managed object. Handles can be compared and
/// handed back to the firmware; nothing else can be learned from one.
#[derive(Clone, Copy, Debug, PartialEq, Eq, Structural)]
pub struct Handle {
    raw: usize,
}

impl Handle {
    /// The raw value the firmware uses for this handle.
    pub closed spec fn spec_raw(self) -> usize {
        self.raw
    }

    /// Wraps a raw handle value received from the firmware.
    pub fn from_raw(raw: usize) -> (r: Handle)
        ensures
            r.spec_raw() == raw,
    {
        Handle { raw }
    }

    /// The handle that names no object.
    pub fn null() -> (r: Handle)
        ensures
            r.spec_raw() == 0,
    {
        Handle { raw: 0 }
    }

    /// The raw value to hand to the firmware.
    pub fn raw(&self) -> (r: usize)
        ensures
            r == self.spec_raw(),
    {
        self.raw
    }

    /// Two handles are equal exactly when their raw values are.
    pub proof fn lemma_eq_by_raw(a: Handle, b: Handle)
        ensures
            (a == b) <==> (a.spec_raw() == b.spec_raw()),
    {
    }
}

/// Status code
#[derive(Clone, Copy, Debug, PartialEq, Eq, Structural)]
pub enum Status {
    Success,
    LoadError,
    InvalidParameter,
    Unsupported,
    BadBufferSize,
    BufferTooSmall,
    NotReady,
    DeviceError,
    WriteProtected,
    OutOfResources,
    VolumeCorrupted,
    VolumeFull,
    NoMedia,
    MediaChanged,
    NotFound,
    AccessDenied,
    NoResponse,
    NoMapping,
    Timeout,
    NotStarted,
    AlreadyStarted,
    Aborted,
    IcmpError,
    TftpError,
    ProtocolError,
    IncompatibleVersion,
    SecurityViolation,
    CrcError,
    EndOfMedia,
    EndOfFile,
    InvalidLanguage,
    CompromisedData,
    IpAddressConflict,
    HttpError,
    WarnUnknownGlyph,
    WarnDeleteFailure,
    WarnWriteFailure,
    WarnBufferTooSmall,
    WarnStaleData,
    WarnFileSystem,
    WarnResetRequired,
}

impl Status {
    /// The numeric encoding of this status, bit for bit as the firmware returns it.
    pub open spec fn spec_code(self) -> u64 {
        match self {
            Status::Success => 0x0000_0000_0000_0000u64,
            Status::LoadError => 0x8000_0000_0000_0001u64,
            Status::InvalidParameter => 0x8000_0000_0000_0002u64,
            Status::Unsupported => 0x8000_0000_0000_0003u64,
            Status::BadBufferSize => 0x8000_0000_0000_0004u64,
            Status::BufferTooSmall => 0x8000_0000_0000_0005u64,
            Status::NotReady => 0x8000_0000_0000_0006u64,
            Status::DeviceError => 0x8000_0000_0000_0007u64,
            Status::WriteProtected => 0x8000_0000_0000_0008u64,
            Status::OutOfResources => 0x8000_0000_0000_0009u64,
            Status::VolumeCorrupted => 0x8000_0000_0000_000Au64,
            Status::VolumeFull => 0x8000_0000_0000_000Bu64,
            Status::NoMedia => 0x8000_0000_0000_000Cu64,
            Status::MediaChanged => 0x8000_0000_0000_000Du64,
            Status::NotFound => 0x8000_0000_0000_000Eu64,
            Status::AccessDenied => 0x8000_0000_0000_000Fu64,
            Status::NoResponse => 0x8000_0000_0000_0010u64,
            Status::NoMapping => 0x8000_0000_0000_0011u64,
            Status::Timeout => 0x8000_0000_0000_0012u64,
            Status::NotStarted => 0x8000_0000_0000_0013u64,
            Status::AlreadyStarted => 0x8000_0000_0000_0014u64,
            Status::Aborted => 0x8000_0000_0000_0015u64,
            Status::IcmpError => 0x8000_0000_0000_0016u64,
            Status::TftpError => 0x8000_0000_0000_0017u64,
            Status::ProtocolError => 0x8000_0000_0000_0018u64,
            Status::IncompatibleVersion => 0x8000_0000_0000_0019u64,
            Status::SecurityViolation => 0x8000_0000_0000_001Au64,
            Status::CrcError => 0x8000_0000_0000_001Bu64,
            Status::EndOfMedia => 0x8000_0000_0000_001Cu64,
            Status::EndOfFile => 0x8000_0000_0000_001Fu64,
            Status::InvalidLanguage => 0x8000_0000_0000_0020u64,
            Status::CompromisedData => 0x8000_0000_0000_0021u64,
            Status::IpAddressConflict => 0x8000_0000_0000_0022u64,
            Status::HttpError => 0x8000_0000_0000_0023u64,
            Status::WarnUnknownGlyph => 0x0000_0000_0000_0001u64,
            Status::WarnDeleteFailure => 0x0000_0000_0000_0002u64,
            Status::WarnWriteFailure => 0x0000_0000_0000_0003u64,
            Status::WarnBufferTooSmall => 0x0000_0000_0000_0004u64,
            Status::WarnStaleData => 0x0000_0000_0000_0005u64,
            Status::WarnFileSystem => 0x0000_0000_0000_0006u64,
            Status::WarnResetRequired => 0x0000_0000_0000_0007u64,
        }
    }

    /// Whether this status is an error: its code has the high bit set.
    pub open spec fn is_error(self) -> bool {
        self.spec_code() & HIGHBIT != 0
    }

    /// The numeric encoding of this status.
    pub fn code(&self) -> (r: u64)
        ensures
            r == self.spec_code(),
    {
        match self {
            Status::Success => 0x0000_0000_0000_0000u64,
            Status::LoadError => 0x8000_0000_0000_0001u64,
            Status::InvalidParameter => 0x8000_0000_0000_0002u64,
            Status::Unsupported => 0x8000_0000_0000_0003u64,
            Status::BadBufferSize => 0x8000_0000_0000_0004u64,
            Status::BufferTooSmall => 0x8000_0000_0000_0005u64,
            Status::NotReady => 0x8000_0000_0000_0006u64,
            Status::DeviceError => 0x8000_0000_0000_0007u64,
            Status::WriteProtected => 0x8000_0000_0000_0008u64,
            Status::OutOfResources => 0x8000_0000_0000_0009u64,
            Status::VolumeCorrupted => 0x8000_0000_0000_000Au64,
            Status::VolumeFull => 0x8000_0000_0000_000Bu64,
            Status::NoMedia => 0x8000_0000_0000_000Cu64,
            Status::MediaChanged => 0x8000_0000_0000_000Du64,
            Status::NotFound => 0x8000_0000_0000_000Eu64,
            Status::AccessDenied => 0x8000_0000_0000_000Fu64,
            Status::NoResponse => 0x8000_0000_0000_0010u64,
            Status::NoMapping => 0x8000_0000_0000_0011u64,
            Status::Timeout => 0x8000_0000_0000_0012u64,
            Status::NotStarted => 0x8000_0000_0000_0013u64,
            Status::AlreadyStarted => 0x8000_0000_0000_0014u64,
            Status::Aborted => 0x8000_0000_0000_0015u64,
            Status::IcmpError => 0x8000_0000_0000_0016u64,
            Status::TftpError => 0x8000_0000_0000_0017u64,
            Status::ProtocolError => 0x8000_0000_0000_0018u64,
            Status::IncompatibleVersion => 0x8000_0000_0000_0019u64,
            Status::SecurityViolation => 0x8000_0000_0000_001Au64,
            Status::CrcError => 0x8000_0000_0000_001Bu64,
            Status::EndOfMedia => 0x8000_0000_0000_001Cu64,
            Status::EndOfFile => 0x8000_0000_0000_001Fu64,
            Status::InvalidLanguage => 0x8000_0000_0000_0020u64,
            Status::CompromisedData => 0x8000_0000_0000_0021u64,
            Status::IpAddressConflict => 0x8000_0000_0000_0022u64,
            Status::HttpError => 0x8000_0000_0000_0023u64,
            Status::WarnUnknownGlyph => 0x0000_0000_0000_0001u64,
            Status::WarnDeleteFailure => 0x0000_0000_0000_0002u64,
            Status::WarnWriteFailure => 0x0000_0000_0000_0003u64,
            Status::WarnBufferTooSmall => 0x0000_0000_0000_0004u64,
            Status::WarnStaleData => 0x0000_0000_0000_0005u64,
            Status::WarnFileSystem => 0x0000_0000_0000_0006u64,
            Status::WarnResetRequired => 0x0000_0000_0000_0007u64,
        }
    }

    /// The status with the given numeric encoding, if there is one.
    pub fn from_code(code: u64) -> (r: Option<Status>)
        ensures
            r matches Some(s) ==> s.spec_code() == code,
            r is None ==> forall|s: Status| s.spec_code() != code,
    {
        match code {
            0x0000_0000_0000_0000 => Some(Status::Success),
            0x8000_0000_0000_0001 => Some(Status::LoadError),
            0x8000_0000_0000_0002 => Some(Status::InvalidParameter),
            0x8000_0000_0000_0003 => Some(Status::Unsupported),
            0x8000_0000_0000_0004 => Some(Status::BadBufferSize),
            0x8000_0000_0000_0005 => Some(Status::BufferTooSmall),
            0x8000_0000_0000_0006 => Some(Status::NotReady),
            0x8000_0000_0000_0007 => Some(Status::DeviceError),
            0x8000_0000_0000_0008 => Some(Status::WriteProtected),
            0x8000_0000_0000_0009 => Some(Status::OutOfResources),
            0x8000_0000_0000_000A => Some(Status::VolumeCorrupted),
            0x8000_0000_0000_000B => Some(Status::VolumeFull),
            0x8000_0000_0000_000C => Some(Status::NoMedia),
            0x8000_0000_0000_000D => Some(Status::MediaChanged),
            0x8000_0000_0000_000E => Some(Status::NotFound),
            0x8000_0000_0000_000F => Some(Status::AccessDenied),
            0x8000_0000_0000_0010 => Some(Status::NoResponse),
            0x8000_0000_0000_0011 => Some(Status::NoMapping),
            0x8000_0000_0000_0012 => Some(Status::Timeout),
            0x8000_0000_0000_0013 => Some(Status::NotStarted),
            0x8000_0000_0000_0014 => Some(Status::AlreadyStarted),
            0x8000_0000_0000_0015 => Some(Status::Aborted),
            0x8000_0000_0000_0016 => Some(Status::IcmpError),
            0x8000_0000_0000_0017 => Some(Status::TftpError),
            0x8000_0000_0000_0018 => Some(Status::ProtocolError),
            0x8000_0000_0000_0019 => Some(Status::IncompatibleVersion),
            0x8000_0000_0000_001A => Some(Status::SecurityViolation),
            0x8000_0000_0000_001B => Some(Status::CrcError),
            0x8000_0000_0000_001C => Some(Status::EndOfMedia),
            0x8000_0000_0000_001F => Some(Status::EndOfFile),
            0x8000_0000_0000_0020 => Some(Status::InvalidLanguage),
            0x8000_0000_0000_0021 => Some(Status::CompromisedData),
            0x8000_0000_0000_0022 => Some(Status::IpAddressConflict),
            0x8000_0000_0000_0023 => Some(Status::HttpError),
            0x0000_0000_0000_0001 => Some(Status::WarnUnknownGlyph),
            0x0000_0000_0000_0002 => Some(Status::WarnDeleteFailure),
            0x0000_0000_0000_0003 => Some(Status::WarnWriteFailure),
            0x0000_0000_0000_0004 => Some(Status::WarnBufferTooSmall),
            0x0000_0000_0000_0005 => Some(Status::WarnStaleData),
            0x0000_0000_0000_0006 => Some(Status::WarnFileSystem),
            0x0000_0000_0000_0007 => Some(Status::WarnResetRequired),
            _ => None,
        }
    }

    /// Converts the status to a Result type
    ///
    /// Codes with the high bit set are errors; every other code is a success. A
    /// successful code may still carry a warning, so it is kept in the `Ok` variant.
    pub fn as_result(&self) -> (r: Result<Status, Status>)
        ensures
            self.is_error() ==> r == Err::<Status, Status>(*self),
            !self.is_error() ==> r == Ok::<Status, Status>(*self),
    {
        if self.code() & HIGHBIT != 0 {
            Err(*self)
        } else {
            Ok(*self)
        }
    }
}

/// Whether a raw status code is an error: the high bit decides, nothing else.
pub open spec fn is_error_code(code: u64) -> bool {
    code & HIGHBIT != 0
}

/// A raw code has the high bit set exactly when it is at least `HIGHBIT`.
pub proof fn lemma_error_code_threshold(code: u64)
    ensures
        is_error_code(code) <==> code >= HIGHBIT,
{
    assert((code & 0x8000_0000_0000_0000u64 != 0) <==> code >= 0x8000_0000_0000_0000u64)
        by (bit_vector);
}

/// What a firmware call amounts to once its status is classified: an error status
/// is the failure, any other status lets the value through.
pub open spec fn spec_outcome<T>(status: Status, value: T) -> Result<T, Status> {
    if status.is_error() {
        Err(status)
    } else {
        Ok(value)
    }
}

/// Classifies `status` and, on success, hands `value` on.
pub fn outcome<T>(status: Status, value: T) -> (r: Result<T, Status>)
    ensures
        r == spec_outcome(status, value),
{
    match status.as_result() {
        Ok(_) => Ok(value),
        Err(e) => Err(e),
    }
}

/// Classification is a function of the code alone: a status is an error exactly
/// when its code has the high bit set, and that is exactly when the code is at
/// least `HIGHBIT`.
pub proof fn lemma_status_classification(status: Status)
    ensures
        status.is_error() <==> is_error_code(status.spec_code()),
        status.is_error() <==> status.spec_code() >= HIGHBIT,
{
    lemma_error_code_threshold(status.spec_code());
}

/// The encoding is one to one: statuses with the same code are the same status,
/// and so classify alike.
pub proof fn lemma_classification_by_code(a: Status, b: Status)
    requires
        a.spec_code() == b.spec_code(),
    ensures
        a.is_error() == b.is_error(),
        a == b,
{
}

/// Data structure that precedes all of the standard EFI table types
#[derive(Clone, Copy, Debug, PartialEq, Eq, Structural)]
pub struct TableHeader {
    pub signature: u64,
    pub revision: u32,
    pub header_size: u32,
    pub crc32: u32,
    pub reserved: u32,
}

} // verus!
