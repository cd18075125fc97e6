//! Failures of a scan, each carrying the driver's raw status where a driver
//! call failed.
use vstd::prelude::*;

verus! {

/// Where in the scan a failure happened.
#[derive(Clone, Copy, Debug, PartialEq, Eq, Structural)]
pub enum ErrorKind {
    DriverInitFailed,
    NoScannerFound,
    DeviceOpenFailed,
    OptionQueryFailed,
    OptionSetFailed,
    UnsupportedConstraintKind,
    ScanStartFailed,
    ScanParametersFailed,
    ReadFailed,
    EncodingFailed,
}

/// The driver's status codes.
#[derive(Clone, Copy, Debug, PartialEq, Eq, Structural)]
pub enum DriverStatus {
    Good,
    Unsupported,
    Cancelled,
    DeviceBusy,
    Invalid,
    EndOfFile,
    Jammed,
    NoDocument,
    CoverOpen,
    IoError,
    NoMemory,
    AccessDenied,
    /// A code that the driver interface does not define.
    Unknown(u32),
}

impl DriverStatus {
    pub open spec fn spec_from_code(code: u32) -> DriverStatus {
        if code == 0 {
            DriverStatus::Good
        } else if code == 1 {
            DriverStatus::Unsupported
        } else if code == 2 {
            DriverStatus::Cancelled
        } else if code == 3 {
            DriverStatus::DeviceBusy
        } else if code == 4 {
            DriverStatus::Invalid
        } else if code == 5 {
            DriverStatus::EndOfFile
        } else if code == 6 {
            DriverStatus::Jammed
        } else if code == 7 {
            DriverStatus::NoDocument
        } else if code == 8 {
            DriverStatus::CoverOpen
        } else if code == 9 {
            DriverStatus::IoError
        } else if code == 10 {
            DriverStatus::NoMemory
        } else if code == 11 {
            DriverStatus::AccessDenied
        } else {
            DriverStatus::Unknown(code)
        }
    }

    /// The status that the driver's code `code` stands for.
    #[verifier::when_used_as_spec(spec_from_code)]
    pub fn from_code(code: u32) -> (r: DriverStatus)
        ensures
            r == DriverStatus::spec_from_code(code),
    {
        if code == 0 {
            DriverStatus::Good
        } else if code == 1 {
            DriverStatus::Unsupported
        } else if code == 2 {
            DriverStatus::Cancelled
        } else if code == 3 {
            DriverStatus::DeviceBusy
        } else if code == 4 {
            DriverStatus::Invalid
        } else if code == 5 {
            DriverStatus::EndOfFile
        } else if code == 6 {
            DriverStatus::Jammed
        } else if code == 7 {
            DriverStatus::NoDocument
        } else if code == 8 {
            DriverStatus::CoverOpen
        } else if code == 9 {
            DriverStatus::IoError
        } else if code == 10 {
            DriverStatus::NoMemory
        } else if code == 11 {
            DriverStatus::AccessDenied
        } else {
            DriverStatus::Unknown(code)
        }
    }
}

/// A failure, with the raw driver status when a driver call reported it.
#[derive(Clone, Copy, Debug, PartialEq, Eq, Structural)]
pub struct ScanError {
    pub kind: ErrorKind,
    pub status: Option<u32>,
}

impl ScanError {
    /// The failure of a driver call that reported status `code`.
    pub fn driver(kind: ErrorKind, code: u32) -> (r: ScanError)
        ensures
            r == (ScanError { kind, status: Some(code) }),
    {
        ScanError { kind, status: Some(code) }
    }

    /// The driver's status behind this failure, if a driver call failed.
    pub fn driver_status(&self) -> (r: Option<DriverStatus>)
        ensures
            r == match self.status {
                Some(code) => Some(DriverStatus::from_code(code)),
                None => None,
            },
    {
        match self.status {
            Some(code) => Some(DriverStatus::from_code(code)),
            None => None,
        }
    }

    pub open spec fn spec_encoding() -> ScanError {
        ScanError { kind: ErrorKind::EncodingFailed, status: None }
    }

    /// The failure of a geometry that the image headers cannot describe.
    #[verifier::when_used_as_spec(spec_encoding)]
    pub fn encoding() -> (r: ScanError)
        ensures
            r == ScanError::spec_encoding(),
    {
        ScanError { kind: ErrorKind::EncodingFailed, status: None }
    }
}

impl ScanError {
    pub open spec fn spec_query() -> ScanError {
        ScanError { kind: ErrorKind::OptionQueryFailed, status: None }
    }

    /// The failure of an option descriptor that does not make sense.
    #[verifier::when_used_as_spec(spec_query)]
    pub fn query() -> (r: ScanError)
        ensures
            r == ScanError::spec_query(),
    {
        ScanError { kind: ErrorKind::OptionQueryFailed, status: None }
    }
}

} // verus!
