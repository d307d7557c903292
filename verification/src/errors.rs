//! The error taxonomy: status codes reported by the foreign reader for one
//! resource, and the failures that can arise while the shared foreign runtime
//! is being constructed.

use vstd::prelude::*;

verus! {

/// A set of error codes describing how creating and using a foreign reader
/// resource might fail (or not).
#[derive(Debug, Clone, Copy, PartialEq, Eq, Structural)]
pub enum RawFileReaderError {
    /// No problem, move along.
    Success,
    /// The file path given doesn't exist.
    FileNotFound,
    /// The file path given does exist, but it's not a RAW file.
    InvalidFormat,
    /// The handle provided doesn't exist; the resource was made some way
    /// other than a successful open call.
    HandleNotFound,
    /// Some other error occurred.
    Error,
}

/// The error variant a foreign status code denotes: 0 is success, 1 is a
/// missing file, 2 a malformed file, and every other code an unspecified
/// failure.
pub open spec fn reader_error_of_code(value: u32) -> RawFileReaderError {
    if value == 0 {
        RawFileReaderError::Success
    } else if value == 1 {
        RawFileReaderError::FileNotFound
    } else if value == 2 {
        RawFileReaderError::InvalidFormat
    } else {
        RawFileReaderError::Error
    }
}

impl From<u32> for RawFileReaderError {
    fn from(value: u32) -> (r: Self) {
        if value == 0 {
            RawFileReaderError::Success
        } else if value == 1 {
            RawFileReaderError::FileNotFound
        } else if value == 2 {
            RawFileReaderError::InvalidFormat
        } else {
            RawFileReaderError::Error
        }
    }
}

impl vstd::std_specs::convert::FromSpecImpl<u32> for RawFileReaderError {
    open spec fn obeys_from_spec() -> bool {
        true
    }

    open spec fn from_spec(v: u32) -> Self {
        reader_error_of_code(v)
    }
}

impl RawFileReaderError {
    /// A short human-readable description of the variant.
    pub fn message(&self) -> (r: &'static str)
        ensures
            self is Success ==> r@ == "Success"@,
            self is FileNotFound ==> r@ == "FileNotFound"@,
            self is InvalidFormat ==> r@ == "InvalidFormat"@,
            self is HandleNotFound ==> r@ == "HandleNotFound"@,
            self is Error ==> r@ == "Error"@,
    {
        match self {
            RawFileReaderError::Success => "Success",
            RawFileReaderError::FileNotFound => "FileNotFound",
            RawFileReaderError::InvalidFormat => "InvalidFormat",
            RawFileReaderError::HandleNotFound => "HandleNotFound",
            RawFileReaderError::Error => "Error",
        }
    }
}

/// The kind of a file-system failure, as far as the runtime-construction
/// logic distinguishes kinds.
#[derive(Debug, Clone, Copy, PartialEq, Eq, Structural)]
pub enum FsErrorKind {
    /// A path that was expected to exist does not.
    NotFound,
    /// The operation lacked the permissions it needed.
    PermissionDenied,
    /// Any other file-system failure.
    Other,
}

/// Things that can go wrong while creating the foreign runtime.
///
/// All variants are recoverable from the caller's point of view: a failed
/// construction leaves nothing cached and may be retried.
#[derive(Debug, Clone, Copy, PartialEq, Eq, Structural)]
pub enum DotNetRuntimeCreationError {
    /// Failed to create a directory on the file system to hold the bundled
    /// runtime files.
    FailedToWriteDLLBundle(FsErrorKind),
    /// Failed to load the hosting layer of the foreign runtime.
    LoadHostfxrError,
    /// Failed to load the foreign host runtime or the wrapped module.
    HostingError,
    /// Any other I/O error that might occur.
    IOError(FsErrorKind),
}

/// The construction error a file-system failure while writing the bundle
/// maps onto: a missing path or denied permission is a bundle-writing
/// failure, anything else a plain I/O error.
pub open spec fn bundle_write_error_of(kind: FsErrorKind) -> DotNetRuntimeCreationError {
    match kind {
        FsErrorKind::NotFound => DotNetRuntimeCreationError::FailedToWriteDLLBundle(kind),
        FsErrorKind::PermissionDenied => DotNetRuntimeCreationError::FailedToWriteDLLBundle(kind),
        FsErrorKind::Other => DotNetRuntimeCreationError::IOError(kind),
    }
}

/// Classify a file-system failure that occurred while materializing the
/// runtime bundle.
pub fn classify_bundle_write_error(kind: FsErrorKind) -> (r: DotNetRuntimeCreationError)
    ensures
        r == bundle_write_error_of(kind),
{
    match kind {
        FsErrorKind::NotFound => DotNetRuntimeCreationError::FailedToWriteDLLBundle(kind),
        FsErrorKind::PermissionDenied => DotNetRuntimeCreationError::FailedToWriteDLLBundle(kind),
        FsErrorKind::Other => DotNetRuntimeCreationError::IOError(kind),
    }
}

impl DotNetRuntimeCreationError {
    /// A short human-readable description of the variant.
    pub fn message(&self) -> (r: &'static str)
        ensures
            self is FailedToWriteDLLBundle ==> r@
                == "Failed to create a directory on the file system to hold the runtime bundle"@,
            self is LoadHostfxrError ==> r@
                == "Failed to load hostfxr. Is there a runtime available?"@,
            self is HostingError ==> r@
                == "Failed to load the host runtime. Is there a runtime available?"@,
            self is IOError ==> r@ == "I/O error"@,
    {
        match self {
            DotNetRuntimeCreationError::FailedToWriteDLLBundle(_) => {
                "Failed to create a directory on the file system to hold the runtime bundle"
            },
            DotNetRuntimeCreationError::LoadHostfxrError => {
                "Failed to load hostfxr. Is there a runtime available?"
            },
            DotNetRuntimeCreationError::HostingError => {
                "Failed to load the host runtime. Is there a runtime available?"
            },
            DotNetRuntimeCreationError::IOError(_) => "I/O error",
        }
    }
}

} // verus!
