//! The closed error taxonomy of the bridge.
use vstd::prelude::*;

use crate::version::Version;

verus! {

/// Why a library could not be opened and validated. Every one of these leaves
/// no library loaded behind it.
#[derive(Clone, Debug, PartialEq, Eq)]
pub enum LoadError {
    /// No file exists at the given path.
    NotFound,
    /// The file exists but the platform loader refused it; the loader's message.
    OpenFailed(String),
    /// A required entry point is not exported; its name.
    SymbolMissing(String),
    /// The library reports an interface version this bridge cannot use.
    VersionMismatch { expected: Version, found: Version },
}

/// Why a foreign query returned nothing usable.
#[derive(Clone, Copy, Debug, PartialEq, Eq, Structural)]
pub enum QueryError {
    /// The name query returned no text at all.
    NoName,
    /// A text result (such as the model name) is not valid UTF-8.
    InvalidEncoding,
    /// A count query returned a negative number.
    NegativeCount,
    /// The parameter counts reported for the inclusion flags contradict each other.
    InconsistentCounts,
}

/// Every recoverable failure of the bridge.
#[derive(Clone, Debug, PartialEq, Eq)]
pub enum BridgeStanError {
    /// Opening or validating the library failed.
    Load(LoadError),
    /// The data payload holds a NUL byte before its end, at this index.
    InvalidData(usize),
    /// The foreign constructor produced no model; the message it reported.
    ConstructFailed(String),
    /// A foreign query gave an unusable answer.
    Query(QueryError),
    /// The foreign evaluation signalled a failure; the message it reported.
    EvaluationFailed(String),
}

} // verus!
