//! Error types for the registry.

use vstd::prelude::*;
use vstd::string::StringExecFns;

verus! {

/// A fault reported by the storage medium. The crate never looks inside one:
/// it is carried from the backend that met it to whoever asked.
#[verifier::external_type_specification]
#[verifier::external_body]
pub struct ExIoError(std::io::Error);

/// Errors that can occur during registry operations.
#[derive(Debug)]
pub enum RegistryError {
    /// The storage medium reported a fault.
    Io(std::io::Error),
    /// No upload session exists under the given identifier.
    UploadNotFound(String),
}

impl From<std::io::Error> for RegistryError {
    /// Wraps a fault of the storage medium, cause and all.
    fn from(cause: std::io::Error) -> (error: Self)
        ensures
            error == RegistryError::Io(cause),
    {
        RegistryError::Io(cause)
    }
}

impl vstd::std_specs::convert::FromSpecImpl<std::io::Error> for RegistryError {
    open spec fn obeys_from_spec() -> bool {
        true
    }

    open spec fn from_spec(cause: std::io::Error) -> Self {
        RegistryError::Io(cause)
    }
}

/// Renders the cause of a storage fault with the standard library's
/// `ToString::to_string`. The text depends on the platform, so nothing is
/// claimed about it.
#[verifier::external_body]
fn io_error_text(cause: &std::io::Error) -> (text: String) {
    cause.to_string()
}

/// The message of an error about a missing upload session.
pub open spec fn upload_not_found_message(id: Seq<char>) -> Seq<char> {
    "Upload not found: "@ + id
}

/// The message of an error about a storage fault whose cause reads `cause`.
pub open spec fn io_message(cause: Seq<char>) -> Seq<char> {
    "IO error: "@ + cause
}

impl RegistryError {
    /// The human-readable message of this error.
    pub fn message(&self) -> (text: String)
        ensures
            self matches RegistryError::UploadNotFound(id) ==> text@ == upload_not_found_message(
                id@,
            ),
            self is Io ==> exists|cause: Seq<char>| text@ == #[trigger] io_message(cause),
    {
        match self {
            RegistryError::Io(cause) => {
                let rendered = io_error_text(cause);
                let text = String::from_str("IO error: ").concat(rendered.as_str());
                assert(text@ == io_message(rendered@));
                text
            },
            RegistryError::UploadNotFound(id) => {
                String::from_str("Upload not found: ").concat(id.as_str())
            },
        }
    }
}

} // verus!
