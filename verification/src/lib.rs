//! Protocol logic for a task record store backed by an external key-value
//! service.
//!
//! A task is a record of three string fields (`title`, `author`,
//! `description`) keyed by a caller-chosen `id`.  Each operation on the
//! store is a short protocol: an existence check against the key-value
//! service, a branch on its answer, and then either a short-circuit
//! response or a second store command whose answer is mapped to the final
//! response.

pub mod codec;
pub mod laws;
pub mod protocol;
pub mod reply;
pub mod service;
pub mod store;
pub mod task;
pub mod text;
