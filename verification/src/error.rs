//! The failures that an invocation can end in.
//!
//! Every failure is a value handed back to the caller; nothing in this crate
//! ends the process.

use vstd::prelude::*;

verus! {

/// Why binding a local source failed.
#[derive(Clone, Copy, Debug, PartialEq, Eq, Structural)]
pub enum BindFailure {
    /// The path names nothing.
    NotFound,
    /// The path may not be read.
    PermissionDenied,
    /// Any other failure while listing or reading the source.
    Io,
}

/// The kinds of failure of the federation pipeline.
#[derive(Clone, Copy, Debug, PartialEq, Eq, Structural)]
pub enum SaError {
    /// A locator that does not have the shape its protocol asks for.
    ParseError,
    /// A locator whose prefix is neither `file://` nor `s3://`.
    UnsupportedProtocol,
    /// A source whose extension is neither `.csv` nor `.parquet`, or format
    /// options that do not fit the file.
    UnsupportedFileFormat,
    /// A local source that could not be listed or read.
    BindError(BindFailure),
    /// A remote store that could not be reached or set up: credentials, region
    /// or network.
    RemoteStoreError,
    /// A sample that gave no columns, or columns that disagree.
    SchemaInferenceError,
    /// Two sources that derive the same table name.
    RegistrationCollision,
    /// The engine could not compile or run the statement, or a table is unknown.
    ExecutionError,
    /// The result could not be written as a columnar stream.
    SerializationError,
    /// A column type name that is not known.
    UnsupportedDataType,
    /// An adapter that was asked for its table before it was bound to one.
    NotBound,
}

/// The failure that a source which could not be bound ends in. A source that
/// was not found is a bind error of that kind, wherever it lies. Any other
/// failure of a remote source is put down to its store: credentials, region or
/// network. Of a local source it is a bind error if reading failed, and a
/// schema inference error if the sample itself was at fault.
pub open spec fn spec_bind_error(cause: Option<BindFailure>, remote: bool) -> SaError {
    match cause {
        Some(BindFailure::NotFound) => SaError::BindError(BindFailure::NotFound),
        Some(BindFailure::PermissionDenied) => if remote {
            SaError::RemoteStoreError
        } else {
            SaError::BindError(BindFailure::PermissionDenied)
        },
        Some(BindFailure::Io) => if remote {
            SaError::RemoteStoreError
        } else {
            SaError::BindError(BindFailure::Io)
        },
        None => if remote {
            SaError::RemoteStoreError
        } else {
            SaError::SchemaInferenceError
        },
    }
}

impl SaError {
    /// The failure for a source that could not be bound, given what reading it
    /// failed on, if reading failed, and whether the source is remote.
    pub fn bind_error(cause: Option<BindFailure>, remote: bool) -> (r: SaError)
        ensures
            r == spec_bind_error(cause, remote),
    {
        match cause {
            Some(BindFailure::NotFound) => SaError::BindError(BindFailure::NotFound),
            Some(BindFailure::PermissionDenied) => if remote {
                SaError::RemoteStoreError
            } else {
                SaError::BindError(BindFailure::PermissionDenied)
            },
            Some(BindFailure::Io) => if remote {
                SaError::RemoteStoreError
            } else {
                SaError::BindError(BindFailure::Io)
            },
            None => if remote {
                SaError::RemoteStoreError
            } else {
                SaError::SchemaInferenceError
            },
        }
    }

    /// A short description of the failure.
    pub fn message(&self) -> (r: &'static str)
        ensures
            r@ == self.spec_message(),
    {
        match self {
            SaError::ParseError => "could not parse the locator",
            SaError::UnsupportedProtocol => "unsupported file protocol",
            SaError::UnsupportedFileFormat => "unsupported file format",
            SaError::BindError(BindFailure::NotFound) => "source not found",
            SaError::BindError(BindFailure::PermissionDenied) => "source may not be read",
            SaError::BindError(BindFailure::Io) => "source could not be read",
            SaError::RemoteStoreError => "remote store failure",
            SaError::SchemaInferenceError => "empty or inconsistent schema sample",
            SaError::RegistrationCollision => "table name registered twice",
            SaError::ExecutionError => "statement could not be executed",
            SaError::SerializationError => "result could not be serialized",
            SaError::UnsupportedDataType => "unsupported data type",
            SaError::NotBound => "adapter is not bound to a table",
        }
    }

    /// The text of `message`.
    pub open spec fn spec_message(&self) -> Seq<char> {
        match self {
            SaError::ParseError => "could not parse the locator"@,
            SaError::UnsupportedProtocol => "unsupported file protocol"@,
            SaError::UnsupportedFileFormat => "unsupported file format"@,
            SaError::BindError(BindFailure::NotFound) => "source not found"@,
            SaError::BindError(BindFailure::PermissionDenied) => "source may not be read"@,
            SaError::BindError(BindFailure::Io) => "source could not be read"@,
            SaError::RemoteStoreError => "remote store failure"@,
            SaError::SchemaInferenceError => "empty or inconsistent schema sample"@,
            SaError::RegistrationCollision => "table name registered twice"@,
            SaError::ExecutionError => "statement could not be executed"@,
            SaError::SerializationError => "result could not be serialized"@,
            SaError::UnsupportedDataType => "unsupported data type"@,
            SaError::NotBound => "adapter is not bound to a table"@,
        }
    }
}

} // verus!
