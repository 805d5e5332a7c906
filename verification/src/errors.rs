//! The two result kinds: validation failures raised while building values,
//! and operational failures raised by datastore operations.
use vstd::prelude::*;
use vstd::std_specs::convert::FromSpecImpl;

verus! {

/// The failure type of `serde_json`, carried through without being inspected.
#[verifier::external_type_specification]
#[verifier::external_body]
pub struct ExJsonError(serde_json::Error);

/// Why a value object could not be built.
#[derive(Clone, Copy, Debug, PartialEq, Eq, Structural)]
pub enum ValidationError {
    /// The value is malformed or outside its domain.
    InvalidValue,
    /// The value exceeds its length bound.
    ValueTooLong,
    /// The identifier space holds no successor.
    CannotIncrementUuid,
}

impl ValidationError {
    /// The human-readable message of this failure.
    pub fn message(&self) -> (res: String)
        ensures
            res@ == validation_text(*self),
    {
        match self {
            ValidationError::InvalidValue => "invalid value".to_owned(),
            ValidationError::ValueTooLong => "value too long".to_owned(),
            ValidationError::CannotIncrementUuid => "could not increment the UUID".to_owned(),
        }
    }
}

/// The text that `ValidationError::message` gives for each failure.
pub open spec fn validation_text(e: ValidationError) -> Seq<char> {
    match e {
        ValidationError::InvalidValue => "invalid value"@,
        ValidationError::ValueTooLong => "value too long"@,
        ValidationError::CannotIncrementUuid => "could not increment the UUID"@,
    }
}

/// The result of building a value object.
pub type ValidationResult<T> = std::result::Result<T, ValidationError>;

/// Why a datastore operation failed.
#[derive(Debug)]
pub enum OperationalError {
    /// A payload could not be serialized or deserialized.
    Json { inner: serde_json::Error },
    /// The persistent engine reported a failure; `message` is what it said.
    Rocksdb { message: String },
    /// A vertex with the requested identifier already exists.
    UuidTaken,
}

/// An operational failure without its cause, so that two failures can be
/// compared.
#[derive(Clone, Copy, Debug, PartialEq, Eq, Structural)]
pub enum ErrorKind {
    Serialization,
    BackendStorage,
    UuidTaken,
}

/// The kind of each operational failure.
pub open spec fn error_kind(e: OperationalError) -> ErrorKind {
    match e {
        OperationalError::Json { .. } => ErrorKind::Serialization,
        OperationalError::Rocksdb { .. } => ErrorKind::BackendStorage,
        OperationalError::UuidTaken => ErrorKind::UuidTaken,
    }
}

impl OperationalError {
    /// Which of the three kinds of operational failure this is.
    pub fn kind(&self) -> (res: ErrorKind)
        ensures
            res == error_kind(*self),
    {
        match self {
            OperationalError::Json { .. } => ErrorKind::Serialization,
            OperationalError::Rocksdb { .. } => ErrorKind::BackendStorage,
            OperationalError::UuidTaken => ErrorKind::UuidTaken,
        }
    }

    /// Wraps the message of a persistent-engine failure.
    pub fn from_engine(message: String) -> (res: OperationalError)
        ensures
            res == (OperationalError::Rocksdb { message: message }),
    {
        OperationalError::Rocksdb { message: message }
    }
}

impl From<serde_json::Error> for OperationalError {
    fn from(err: serde_json::Error) -> (res: OperationalError) {
        OperationalError::Json { inner: err }
    }
}

impl FromSpecImpl<serde_json::Error> for OperationalError {
    open spec fn obeys_from_spec() -> bool {
        true
    }

    open spec fn from_spec(err: serde_json::Error) -> OperationalError {
        OperationalError::Json { inner: err }
    }
}

} // verus!
