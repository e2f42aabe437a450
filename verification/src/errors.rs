//! The failure taxonomy shared by every component.

use vstd::prelude::*;
use vstd::string::StringExecFns;

verus! {

/// How a boundary layer is expected to treat a failure.
#[derive(Clone, Copy, Debug, PartialEq, Eq, Structural)]
pub enum ErrorClass {
    /// Caused by the request; reported to the caller as it is.
    ClientFacing,
    /// Caused by contention; the same request may succeed later.
    Retryable,
    /// Caused by the store; only a generic message leaves the process.
    Internal,
}

/// The specific kind of a failure, without its text.
#[derive(Clone, Copy, Debug, PartialEq, Eq, Structural)]
pub enum ErrorKind {
    Validation,
    InvalidPath,
    RepositoryBusy,
    BranchNotFound,
    CommitConflict,
    ObjectStore,
    PathNotFound,
}

/// A failure of any component. Each variant carries the text that explains
/// it: the offending input, the repository, or the store's own message.
#[derive(Clone, Debug, PartialEq, Eq)]
pub enum AppError {
    /// Malformed input.
    ValidationError(String),
    /// A location that cannot be resolved to an absolute path.
    InvalidPathError(String),
    /// The repository's lock could not be had within the bounded wait.
    RepositoryBusyError(String),
    /// The branch cannot be resolved in a repository that has commits.
    BranchNotFoundError(String),
    /// The branch kept moving while a commit was composed.
    CommitConflictError(String),
    /// Any other failure of the object store.
    ObjectStoreError(String),
    /// A listing asked for a subpath that the tree does not have.
    PathNotFoundError(String),
}

/// The class that every failure of kind `kind` belongs to.
pub open spec fn class_of(kind: ErrorKind) -> ErrorClass {
    match kind {
        ErrorKind::RepositoryBusy | ErrorKind::CommitConflict => ErrorClass::Retryable,
        ErrorKind::ObjectStore => ErrorClass::Internal,
        ErrorKind::Validation | ErrorKind::InvalidPath | ErrorKind::BranchNotFound
        | ErrorKind::PathNotFound => ErrorClass::ClientFacing,
    }
}

/// The words that introduce the text of a failure of kind `kind`.
pub open spec fn heading_of(kind: ErrorKind) -> Seq<char> {
    match kind {
        ErrorKind::Validation => "Invalid input: "@,
        ErrorKind::InvalidPath => "Invalid path: "@,
        ErrorKind::RepositoryBusy => "Repository is locked: "@,
        ErrorKind::BranchNotFound => "Branch not found: "@,
        ErrorKind::CommitConflict => "Commit conflict: "@,
        ErrorKind::ObjectStore => "Object store error: "@,
        ErrorKind::PathNotFound => "Path not found: "@,
    }
}

/// The HTTP status with which a failure of class `class` is answered: the
/// caller's own mistakes as a bad request, everything else as a failure of
/// the server.
pub open spec fn status_of(class: ErrorClass) -> u16 {
    match class {
        ErrorClass::ClientFacing => 400,
        _ => 500,
    }
}

impl AppError {
    /// The kind of this failure.
    pub open spec fn kind_of(self) -> ErrorKind {
        match self {
            AppError::ValidationError(_) => ErrorKind::Validation,
            AppError::InvalidPathError(_) => ErrorKind::InvalidPath,
            AppError::RepositoryBusyError(_) => ErrorKind::RepositoryBusy,
            AppError::BranchNotFoundError(_) => ErrorKind::BranchNotFound,
            AppError::CommitConflictError(_) => ErrorKind::CommitConflict,
            AppError::ObjectStoreError(_) => ErrorKind::ObjectStore,
            AppError::PathNotFoundError(_) => ErrorKind::PathNotFound,
        }
    }

    /// The text carried by this failure.
    pub open spec fn text_of(self) -> Seq<char> {
        match self {
            AppError::ValidationError(t) => t@,
            AppError::InvalidPathError(t) => t@,
            AppError::RepositoryBusyError(t) => t@,
            AppError::BranchNotFoundError(t) => t@,
            AppError::CommitConflictError(t) => t@,
            AppError::ObjectStoreError(t) => t@,
            AppError::PathNotFoundError(t) => t@,
        }
    }

    /// Whether this failure has kind `kind` and carries `text`.
    pub open spec fn says(self, kind: ErrorKind, text: Seq<char>) -> bool {
        self.kind_of() == kind && self.text_of() == text
    }

    /// The kind of this failure.
    pub fn kind(&self) -> (kind: ErrorKind)
        ensures
            kind == self.kind_of(),
    {
        match self {
            AppError::ValidationError(_) => ErrorKind::Validation,
            AppError::InvalidPathError(_) => ErrorKind::InvalidPath,
            AppError::RepositoryBusyError(_) => ErrorKind::RepositoryBusy,
            AppError::BranchNotFoundError(_) => ErrorKind::BranchNotFound,
            AppError::CommitConflictError(_) => ErrorKind::CommitConflict,
            AppError::ObjectStoreError(_) => ErrorKind::ObjectStore,
            AppError::PathNotFoundError(_) => ErrorKind::PathNotFound,
        }
    }

    /// The text carried by this failure.
    pub fn message(&self) -> (text: &str)
        ensures
            text@ == self.text_of(),
    {
        match self {
            AppError::ValidationError(t) => t.as_str(),
            AppError::InvalidPathError(t) => t.as_str(),
            AppError::RepositoryBusyError(t) => t.as_str(),
            AppError::BranchNotFoundError(t) => t.as_str(),
            AppError::CommitConflictError(t) => t.as_str(),
            AppError::ObjectStoreError(t) => t.as_str(),
            AppError::PathNotFoundError(t) => t.as_str(),
        }
    }

    /// How a boundary layer treats this failure: contention is retryable,
    /// a store failure is internal, everything else is the caller's.
    pub fn classification(&self) -> (class: ErrorClass)
        ensures
            class == class_of(self.kind_of()),
    {
        match self {
            AppError::RepositoryBusyError(_) | AppError::CommitConflictError(_) => {
                ErrorClass::Retryable
            },
            AppError::ObjectStoreError(_) => ErrorClass::Internal,
            _ => ErrorClass::ClientFacing,
        }
    }

    /// Whether the same request may succeed if the caller tries again.
    pub fn is_retryable(&self) -> (retryable: bool)
        ensures
            retryable <==> (self.kind_of() == ErrorKind::RepositoryBusy || self.kind_of()
                == ErrorKind::CommitConflict),
    {
        matches!(self.classification(), ErrorClass::Retryable)
    }

    /// What a caller outside the process is told: the failure as one line
    /// where the failure is the caller's, and nothing but a generic line
    /// otherwise, so that no word of the store leaves the process.
    pub open spec fn public_text_of(self) -> Seq<char> {
        if class_of(self.kind_of()) == ErrorClass::ClientFacing {
            heading_of(self.kind_of()) + self.text_of()
        } else {
            "Internal server error"@
        }
    }

    /// The HTTP status with which this failure is answered.
    pub fn http_status(&self) -> (code: u16)
        ensures
            code == status_of(class_of(self.kind_of())),
    {
        match self.classification() {
            ErrorClass::ClientFacing => 400,
            _ => 500,
        }
    }

    /// What a caller outside the process is told of this failure.
    pub fn public_text(&self) -> (line: String)
        ensures
            line@ == self.public_text_of(),
    {
        match self.classification() {
            ErrorClass::ClientFacing => self.describe(),
            _ => String::from_str("Internal server error"),
        }
    }

    /// The failure as one line of text: the heading of its kind, then the
    /// text it carries.
    pub fn describe(&self) -> (line: String)
        ensures
            line@ == heading_of(self.kind_of()) + self.text_of(),
    {
        let heading = match self {
            AppError::ValidationError(_) => "Invalid input: ",
            AppError::InvalidPathError(_) => "Invalid path: ",
            AppError::RepositoryBusyError(_) => "Repository is locked: ",
            AppError::BranchNotFoundError(_) => "Branch not found: ",
            AppError::CommitConflictError(_) => "Commit conflict: ",
            AppError::ObjectStoreError(_) => "Object store error: ",
            AppError::PathNotFoundError(_) => "Path not found: ",
        };
        let mut line = String::from_str(heading);
        line.append(self.message());
        line
    }
}

/// A failure of kind `kind` that carries `text`.
pub fn failure(kind: ErrorKind, text: &str) -> (e: AppError)
    ensures
        e.says(kind, text@),
{
    let text = String::from_str(text);
    match kind {
        ErrorKind::Validation => AppError::ValidationError(text),
        ErrorKind::InvalidPath => AppError::InvalidPathError(text),
        ErrorKind::RepositoryBusy => AppError::RepositoryBusyError(text),
        ErrorKind::BranchNotFound => AppError::BranchNotFoundError(text),
        ErrorKind::CommitConflict => AppError::CommitConflictError(text),
        ErrorKind::ObjectStore => AppError::ObjectStoreError(text),
        ErrorKind::PathNotFound => AppError::PathNotFoundError(text),
    }
}

} // verus!
