//! The typed failures that every operation of the proof lifecycle reports.

use vstd::prelude::*;
use vstd::string::*;

verus! {

/// A failure of a proof-lifecycle operation. Each variant carries a human-readable
/// message that says which stage failed.
#[derive(Debug)]
pub enum ZkProofError {
    /// An artifact or an input document is absent.
    FileNotFound { message: String },
    /// The backend could not synthesize the witness or produce the proof.
    ProofGenerationFailed { message: String },
    /// The backend rejected a proof.
    VerificationFailed { message: String },
    /// An input document is malformed, or a kind selector is not recognised.
    InvalidInput { message: String },
    /// An operation was attempted before the keys it needs exist.
    SetupRequired { message: String },
    /// A storage or directory failure, including artifacts whose bytes are malformed.
    IoError { message: String },
}

/// The six classes of failure, without their messages.
#[derive(Clone, Copy, Debug, PartialEq, Eq, Structural)]
pub enum ErrorKind {
    FileNotFound,
    ProofGenerationFailed,
    VerificationFailed,
    InvalidInput,
    SetupRequired,
    IoError,
}

/// The text that introduces a failure of the given class when it is shown to a user.
pub open spec fn kind_prefix(kind: ErrorKind) -> Seq<char> {
    match kind {
        ErrorKind::FileNotFound => "File not found: "@,
        ErrorKind::ProofGenerationFailed => "Proof generation failed: "@,
        ErrorKind::VerificationFailed => "Verification failed: "@,
        ErrorKind::InvalidInput => "Invalid input: "@,
        ErrorKind::SetupRequired => "Setup required: "@,
        ErrorKind::IoError => "IO error: "@,
    }
}

impl ZkProofError {
    /// The class of this failure.
    pub open spec fn spec_kind(self) -> ErrorKind {
        match self {
            ZkProofError::FileNotFound { .. } => ErrorKind::FileNotFound,
            ZkProofError::ProofGenerationFailed { .. } => ErrorKind::ProofGenerationFailed,
            ZkProofError::VerificationFailed { .. } => ErrorKind::VerificationFailed,
            ZkProofError::InvalidInput { .. } => ErrorKind::InvalidInput,
            ZkProofError::SetupRequired { .. } => ErrorKind::SetupRequired,
            ZkProofError::IoError { .. } => ErrorKind::IoError,
        }
    }

    /// The message this failure carries.
    pub open spec fn spec_message(self) -> Seq<char> {
        match self {
            ZkProofError::FileNotFound { message } => message@,
            ZkProofError::ProofGenerationFailed { message } => message@,
            ZkProofError::VerificationFailed { message } => message@,
            ZkProofError::InvalidInput { message } => message@,
            ZkProofError::SetupRequired { message } => message@,
            ZkProofError::IoError { message } => message@,
        }
    }

    /// The text shown to a user: the class's introduction followed by the message.
    pub open spec fn spec_to_string(self) -> Seq<char> {
        kind_prefix(self.spec_kind()) + self.spec_message()
    }

    /// Builds the failure of class `kind` that carries `message`.
    pub fn new(kind: ErrorKind, message: String) -> (e: ZkProofError)
        ensures
            e.spec_kind() == kind,
            e.spec_message() == message@,
    {
        match kind {
            ErrorKind::FileNotFound => ZkProofError::FileNotFound { message },
            ErrorKind::ProofGenerationFailed => ZkProofError::ProofGenerationFailed { message },
            ErrorKind::VerificationFailed => ZkProofError::VerificationFailed { message },
            ErrorKind::InvalidInput => ZkProofError::InvalidInput { message },
            ErrorKind::SetupRequired => ZkProofError::SetupRequired { message },
            ErrorKind::IoError => ZkProofError::IoError { message },
        }
    }

    /// The class of this failure.
    pub fn kind(&self) -> (kind: ErrorKind)
        ensures
            kind == self.spec_kind(),
    {
        match self {
            ZkProofError::FileNotFound { .. } => ErrorKind::FileNotFound,
            ZkProofError::ProofGenerationFailed { .. } => ErrorKind::ProofGenerationFailed,
            ZkProofError::VerificationFailed { .. } => ErrorKind::VerificationFailed,
            ZkProofError::InvalidInput { .. } => ErrorKind::InvalidInput,
            ZkProofError::SetupRequired { .. } => ErrorKind::SetupRequired,
            ZkProofError::IoError { .. } => ErrorKind::IoError,
        }
    }

    /// The message this failure carries.
    pub fn message(&self) -> (message: &String)
        ensures
            message@ == self.spec_message(),
    {
        match self {
            ZkProofError::FileNotFound { message } => message,
            ZkProofError::ProofGenerationFailed { message } => message,
            ZkProofError::VerificationFailed { message } => message,
            ZkProofError::InvalidInput { message } => message,
            ZkProofError::SetupRequired { message } => message,
            ZkProofError::IoError { message } => message,
        }
    }

    /// Renders the failure for a user, for example `IO error: disk full`.
    pub fn to_string(&self) -> (text: String)
        ensures
            text@ == self.spec_to_string(),
    {
        let prefix = match self {
            ZkProofError::FileNotFound { .. } => "File not found: ",
            ZkProofError::ProofGenerationFailed { .. } => "Proof generation failed: ",
            ZkProofError::VerificationFailed { .. } => "Verification failed: ",
            ZkProofError::InvalidInput { .. } => "Invalid input: ",
            ZkProofError::SetupRequired { .. } => "Setup required: ",
            ZkProofError::IoError { .. } => "IO error: ",
        };
        let mut text = String::from_str(prefix);
        text.append(self.message().as_str());
        text
    }

    /// Wraps the description of a failed storage or directory operation.
    pub fn from_io_error(description: String) -> (e: ZkProofError)
        ensures
            e == (ZkProofError::IoError { message: description }),
    {
        ZkProofError::IoError { message: description }
    }

    /// The failure reported when the documents directory `path` cannot be entered;
    /// `cause` is the system's description of what went wrong.
    pub fn working_directory_failure(path: &str, cause: &str) -> (e: ZkProofError)
        ensures
            e.spec_kind() == ErrorKind::IoError,
            e.spec_message() == "Failed to set working directory to '"@ + path@ + "': "@ + cause@,
    {
        let mut message = String::from_str("Failed to set working directory to '");
        message.append(path);
        message.append("': ");
        message.append(cause);
        ZkProofError::IoError { message }
    }
}

} // verus!
