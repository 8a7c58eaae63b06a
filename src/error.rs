use vstd::prelude::*;

verus! {

/// The standard library's I/O error, carried through opaquely.
#[verifier::external_type_specification]
#[verifier::external_body]
pub struct ExIoError(std::io::Error);

/// Why a relative path handed to a file-creating operation was refused.
///
/// Paths are checked locally, before anything is sent to the storage peer.
#[derive(Debug, Clone, Copy, PartialEq, Eq, Structural)]
pub enum PathError {
    /// The path is empty (or made of separators only).
    Empty,
    /// The path ends with a separator, so it names no file.
    DoesNotContainFileName,
    /// The operation needs a subdirectory component and the path has none.
    DoesNotContainSubDir,
    /// Two separators follow each other.
    ConsecutiveSeparator,
}

/// Everything that can go wrong in this library.
#[derive(Debug)]
#[non_exhaustive]
pub enum Error {
    /// The native storage peer is not available on this platform.
    NotAndroid,
    /// A local file-system operation failed.
    Io(std::io::Error),
    /// The native storage peer reported a failure.
    PluginInvoke(String),
    /// No known grant covers the requested capability.
    PermissionDenied,
    /// Persisting one more grant would go past the platform's ceiling.
    GrantCeilingReached,
    /// A relative path was malformed.
    InvalidPath(PathError),
}

pub type Result<T> = std::result::Result<T, Error>;

impl From<std::io::Error> for Error {
    fn from(e: std::io::Error) -> (r: Error) {
        Error::Io(e)
    }
}

impl vstd::std_specs::convert::FromSpecImpl<std::io::Error> for Error {
    open spec fn obeys_from_spec() -> bool {
        true
    }

    open spec fn from_spec(e: std::io::Error) -> Error {
        Error::Io(e)
    }
}

impl From<PathError> for Error {
    fn from(e: PathError) -> (r: Error) {
        Error::InvalidPath(e)
    }
}

impl vstd::std_specs::convert::FromSpecImpl<PathError> for Error {
    open spec fn obeys_from_spec() -> bool {
        true
    }

    open spec fn from_spec(e: PathError) -> Error {
        Error::InvalidPath(e)
    }
}

} // verus!
