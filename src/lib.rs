//! A verified core for a bridge to dynamically loaded statistical models.
//!
//! The foreign library itself is opened and called by the host program; this
//! crate holds the decisions around those calls: which library versions are
//! accepted, how a data payload is framed for the foreign constructor, how the
//! foreign return discipline becomes a typed result, the cached parameter
//! counts and the buffer-length contract of the evaluation call. It also
//! states, as a model with proved laws, the lifecycle of a model instance and
//! the reference-counting rule for unloading a library; the host realises that
//! rule with atomic reference counting rather than through these types.

pub mod boundary;
pub mod error;
pub mod ffi;
pub mod lifecycle;
pub mod model;
pub mod payload;
pub mod version;

pub use boundary::{construct_result, eval_result};
pub use error::{BridgeStanError, LoadError, QueryError};
pub use ffi::Bridgestan;
pub use lifecycle::{InstanceState, LibraryRefs};
pub use model::{ModelInfo, ParamCounts};
pub use payload::DataPayload;
pub use version::{check_version, Version};
