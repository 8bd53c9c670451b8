//! What can go wrong with a Strawberry ID.

use vstd::prelude::*;

verus! {

/// Errors of the stored credentials.
#[derive(Debug, Clone, PartialEq, Eq)]
pub enum CredentialsError {
    MissingCredentials,
    HomeNotFound,
    DirectoryCreationError(String),
    WriteError(String),
    SerializeError(String),
    AlreadyExists(String),
}

/// Errors of the verifier.
#[derive(Debug, Clone, Copy, PartialEq, Eq, Structural)]
pub enum VerifierError {
    InvalidCredentials,
}

/// Errors of the service.
#[derive(Debug, Clone, Copy, PartialEq, Eq, Structural)]
pub enum ApiError {
    RequestError,
    ServerError,
    CodeNotBeingCode,
    InvalidDataFormat,
}

impl CredentialsError {
    /// The error in words.
    pub open spec fn text(&self) -> Seq<char> {
        match self {
            CredentialsError::MissingCredentials => "credentials.yml does not exist"@,
            CredentialsError::HomeNotFound => "user home directory not found"@,
            CredentialsError::DirectoryCreationError(_) => "couldn't create directory"@,
            CredentialsError::WriteError(_) => "couldn't write to file"@,
            CredentialsError::SerializeError(_) => "couldn't serialize data"@,
            CredentialsError::AlreadyExists(_) => "credentials already exists"@,
        }
    }

    /// The error in words.
    pub fn message(&self) -> (r: String)
        ensures
            r@ == self.text(),
    {
        match self {
            CredentialsError::MissingCredentials => String::from_str(
                "credentials.yml does not exist",
            ),
            CredentialsError::HomeNotFound => String::from_str("user home directory not found"),
            CredentialsError::DirectoryCreationError(_) => String::from_str(
                "couldn't create directory",
            ),
            CredentialsError::WriteError(_) => String::from_str("couldn't write to file"),
            CredentialsError::SerializeError(_) => String::from_str("couldn't serialize data"),
            CredentialsError::AlreadyExists(_) => String::from_str("credentials already exists"),
        }
    }
}

impl VerifierError {
    /// The error in words.
    pub fn message(&self) -> (r: String)
        ensures
            r@ == "invalid user credentials"@,
    {
        String::from_str("invalid user credentials")
    }
}

impl ApiError {
    /// The error in words.
    pub open spec fn text(&self) -> Seq<char> {
        match self {
            ApiError::RequestError => "couldn't request login code"@,
            ApiError::ServerError => "couldn't request strawberry id api server"@,
            ApiError::CodeNotBeingCode => "requested code is in a invalid format"@,
            ApiError::InvalidDataFormat => "invalid data format"@,
        }
    }

    /// The error in words.
    pub fn message(&self) -> (r: String)
        ensures
            r@ == self.text(),
    {
        match self {
            ApiError::RequestError => String::from_str("couldn't request login code"),
            ApiError::ServerError => String::from_str("couldn't request strawberry id api server"),
            ApiError::CodeNotBeingCode => String::from_str("requested code is in a invalid format"),
            ApiError::InvalidDataFormat => String::from_str("invalid data format"),
        }
    }
}

} // verus!
