//! The core of a small HTTP upload endpoint: target-name validation,
//! timestamp-based filename derivation, artifact classification from the
//! client's filename, and the decisions of the persistence stage. The
//! surrounding HTTP collaborator performs the filesystem actions a session
//! asks for and forwards the finished response.

pub mod artifact;
pub mod bytes;
pub mod metadata;
pub mod paths;
pub mod timestamp;
pub mod upload;
pub mod validate;
