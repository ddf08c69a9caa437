//! The error outcomes a request can end in.
//!
//! A missing file is an expected outcome, reported as a not-found error with
//! a [`NoFile`] cause. A filesystem failure distinct from "absent" is carried
//! as a [`FileError`] and mapped to the nearest HTTP status: not found to
//! 404, permission denied to 403, anything else to 500.

use vstd::prelude::*;
use crate::vfs::IoErrorKind;
use crate::static_handler::NoFile;

verus! {

/// The error returned when a filesystem error occurs during file serving.
#[derive(Debug)]
pub struct FileError(pub IoErrorKind);

/// The name of the filesystem error `k`, as a short human-readable phrase.
pub open spec fn io_error_name(k: IoErrorKind) -> Seq<char> {
    match k {
        IoErrorKind::NotFound => "entity not found"@,
        IoErrorKind::PermissionDenied => "permission denied"@,
        IoErrorKind::Other => "other os error"@,
    }
}

impl FileError {
    /// A short name for the underlying filesystem error.
    pub fn name(&self) -> (r: &'static str)
        ensures
            r@ == io_error_name(self.0),
    {
        match self.0 {
            IoErrorKind::NotFound => "entity not found",
            IoErrorKind::PermissionDenied => "permission denied",
            IoErrorKind::Other => "other os error",
        }
    }
}

/// What a request failed on: a filesystem error, or simply no file to serve.
pub enum ErrorCause {
    /// A filesystem operation failed.
    Io(FileError),
    /// Neither a file nor a directory index matched the request.
    Missing(NoFile),
}

/// A failed request: the cause, and the HTTP status the embedding server
/// should answer with.
pub struct HandlerError {
    /// The HTTP status code to transmit.
    pub status: u16,
    /// What went wrong.
    pub cause: ErrorCause,
}

/// The HTTP status that a filesystem error maps to.
pub open spec fn status_for_io(k: IoErrorKind) -> u16 {
    match k {
        IoErrorKind::NotFound => 404,
        IoErrorKind::PermissionDenied => 403,
        IoErrorKind::Other => 500,
    }
}

impl HandlerError {
    /// A failure caused by the filesystem error `k`, under its nearest HTTP
    /// status.
    pub fn from_io(k: IoErrorKind) -> (r: HandlerError)
        ensures
            r.status == status_for_io(k),
            r.cause == ErrorCause::Io(FileError(k)),
    {
        let status: u16 = match k {
            IoErrorKind::NotFound => 404,
            IoErrorKind::PermissionDenied => 403,
            IoErrorKind::Other => 500,
        };
        HandlerError { status, cause: ErrorCause::Io(FileError(k)) }
    }

    /// A failure caused by the filesystem error `k`, reported under the one
    /// fixed HTTP status `status` instead of the error's usual mapping.
    pub fn from_io_with_status(k: IoErrorKind, status: u16) -> (r: HandlerError)
        ensures
            r.status == status,
            r.cause == ErrorCause::Io(FileError(k)),
    {
        HandlerError { status, cause: ErrorCause::Io(FileError(k)) }
    }

    /// The failure of a request that matched neither a file nor a directory
    /// index: HTTP 404.
    pub fn no_file() -> (r: HandlerError)
        ensures
            r.status == 404,
            r.cause == ErrorCause::Missing(NoFile),
    {
        HandlerError { status: 404, cause: ErrorCause::Missing(NoFile) }
    }
}

} // verus!
