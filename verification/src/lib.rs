//! Mesh repair job orchestration.
//!
//! This crate holds the decision logic behind a desktop command that hands a
//! mesh file (STL or OFF) to a native repair routine: normalizing the caller's
//! options, deriving an output path, validating the strings that will cross
//! the native boundary, and translating the native status code back into a
//! structured response. The native call itself, together with all file and
//! process I/O, lives in the surrounding application layer; everything here is
//! a pure function of its arguments and is verified.

pub mod command;
pub mod decimal;
pub mod meshfix;
pub mod paths;
pub mod scan;

pub use crate::command::FixMeshOptions;
pub use crate::command::FixMeshResponse;
pub use crate::command::FixMeshStep;
pub use crate::meshfix::FixMeshCall;
pub use crate::meshfix::MeshFixOptions;
pub use crate::meshfix::MeshFixResult;
