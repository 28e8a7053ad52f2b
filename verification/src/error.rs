//! What can go wrong with resources and their configuration.

use vstd::prelude::*;
use crate::document::ParseError;

verus! {

/// What kind of failure the operating system reported.
#[derive(Debug, Clone, Copy, PartialEq, Eq, Structural)]
pub enum IoErrorKind {
    NotFound,
    PermissionDenied,
    AlreadyExists,
    Other,
}

/// A failed filesystem operation: its kind and what the system said.
#[derive(Debug, Clone, PartialEq, Eq)]
pub struct IoError {
    pub kind: IoErrorKind,
    pub message: String,
}

/// Why a configuration could not be read.
#[derive(Debug, Clone, PartialEq, Eq)]
pub enum ReadConfigError {
    /// The file could not be read.
    IoError(IoError),
    /// The file was read, and no known schema fits what it holds.
    TomlError(ParseError),
}

/// Why a resource could not be created.
#[derive(Debug, Clone, PartialEq, Eq)]
pub enum CreateResourceError {
    IoError(IoError),
    /// No root could be resolved.
    NotSetup,
    /// The place of the resource is taken.
    AlreadyExists,
}

/// Why a resource could not be found or used.
#[derive(Debug, Clone, PartialEq, Eq)]
pub enum GeneralResourceError {
    IoError(IoError),
    /// There is no such resource.
    DoesNotExist,
    /// The resource is there, and its configuration cannot be read.
    Invalid,
}

/// Why a resource that depends on another could not be created.
#[derive(Debug, Clone, PartialEq, Eq)]
pub enum CreateDependentResourceError {
    IoError(IoError),
    Creation(CreateResourceError),
    Dependent(GeneralResourceError),
}

/// Why a resource could not be deleted.
#[derive(Debug, Clone, PartialEq, Eq)]
pub enum DeleteResourceError {
    IoError(IoError),
    /// There is no such resource.
    DoesNotExist,
}

impl ReadConfigError {
    /// What a reader of a resource is told of a read that failed: a file
    /// that is not there means that the resource does not exist, one that
    /// cannot be parsed that it is invalid.
    pub open spec fn general(self) -> GeneralResourceError {
        match self {
            ReadConfigError::IoError(error) => if error.kind == IoErrorKind::NotFound {
                GeneralResourceError::DoesNotExist
            } else {
                GeneralResourceError::IoError(error)
            },
            ReadConfigError::TomlError(_) => GeneralResourceError::Invalid,
        }
    }
}

impl From<ReadConfigError> for GeneralResourceError {
    fn from(value: ReadConfigError) -> (error: GeneralResourceError) {
        match value {
            ReadConfigError::IoError(error) => match error.kind {
                IoErrorKind::NotFound => GeneralResourceError::DoesNotExist,
                _ => GeneralResourceError::IoError(error),
            },
            ReadConfigError::TomlError(_) => GeneralResourceError::Invalid,
        }
    }
}

impl vstd::std_specs::convert::FromSpecImpl<ReadConfigError> for GeneralResourceError {
    open spec fn obeys_from_spec() -> bool {
        true
    }

    open spec fn from_spec(value: ReadConfigError) -> GeneralResourceError {
        value.general()
    }
}

impl CreateResourceError {
    /// What the user is told.
    pub open spec fn message(self) -> Seq<char> {
        match self {
            CreateResourceError::IoError(error) => "IO Error: "@ + error.message@,
            CreateResourceError::NotSetup => "Battalion not set up"@,
            CreateResourceError::AlreadyExists => "Resource already exists"@,
        }
    }

    /// What the user is told.
    pub fn to_string(&self) -> (text: String)
        ensures
            text@ == self.message(),
    {
        match self {
            CreateResourceError::IoError(error) => "IO Error: ".to_owned().concat(
                error.message.as_str(),
            ),
            CreateResourceError::NotSetup => "Battalion not set up".to_owned(),
            CreateResourceError::AlreadyExists => "Resource already exists".to_owned(),
        }
    }
}

impl GeneralResourceError {
    /// What the user is told.
    pub open spec fn message(self) -> Seq<char> {
        match self {
            GeneralResourceError::IoError(error) => "IO Error: "@ + error.message@,
            GeneralResourceError::DoesNotExist => "Resource does not exist"@,
            GeneralResourceError::Invalid => "Resource invalid/corrupted"@,
        }
    }

    /// What the user is told.
    pub fn to_string(&self) -> (text: String)
        ensures
            text@ == self.message(),
    {
        match self {
            GeneralResourceError::IoError(error) => "IO Error: ".to_owned().concat(
                error.message.as_str(),
            ),
            GeneralResourceError::DoesNotExist => "Resource does not exist".to_owned(),
            GeneralResourceError::Invalid => "Resource invalid/corrupted".to_owned(),
        }
    }
}

impl DeleteResourceError {
    /// What the user is told.
    pub open spec fn message(self) -> Seq<char> {
        match self {
            DeleteResourceError::IoError(error) => "IO Error: "@ + error.message@,
            DeleteResourceError::DoesNotExist => "Resource does not exist"@,
        }
    }

    /// What the user is told.
    pub fn to_string(&self) -> (text: String)
        ensures
            text@ == self.message(),
    {
        match self {
            DeleteResourceError::IoError(error) => "IO Error: ".to_owned().concat(
                error.message.as_str(),
            ),
            DeleteResourceError::DoesNotExist => "Resource does not exist".to_owned(),
        }
    }
}

impl CreateDependentResourceError {
    /// What the user is told.
    pub open spec fn message(self) -> Seq<char> {
        match self {
            CreateDependentResourceError::IoError(error) => "IO Error: "@ + error.message@,
            CreateDependentResourceError::Creation(cause) => "Error while creating resource: "@
                + cause.message(),
            CreateDependentResourceError::Dependent(cause) => "Error while getting dependents: "@
                + cause.message(),
        }
    }

    /// What the user is told.
    pub fn to_string(&self) -> (text: String)
        ensures
            text@ == self.message(),
    {
        match self {
            CreateDependentResourceError::IoError(error) => "IO Error: ".to_owned().concat(
                error.message.as_str(),
            ),
            CreateDependentResourceError::Creation(
                cause,
            ) => "Error while creating resource: ".to_owned().concat(cause.to_string().as_str()),
            CreateDependentResourceError::Dependent(
                cause,
            ) => "Error while getting dependents: ".to_owned().concat(cause.to_string().as_str()),
        }
    }
}

impl ReadConfigError {
    /// What the user is told.
    pub open spec fn message(self) -> Seq<char> {
        match self {
            ReadConfigError::IoError(error) => error.message@,
            ReadConfigError::TomlError(error) => error.message@,
        }
    }

    /// What the user is told.
    pub fn to_string(&self) -> (text: String)
        ensures
            text@ == self.message(),
    {
        match self {
            ReadConfigError::IoError(error) => error.message.clone(),
            ReadConfigError::TomlError(error) => error.message.clone(),
        }
    }
}

} // verus!
