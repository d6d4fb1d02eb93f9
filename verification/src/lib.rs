//! A typed, transactional key-value layer over an ordered byte store.
//!
//! The crate holds every decision of the storage layer: how keys and values
//! become bytes, which tables exist, what is asked of the backend for each
//! typed operation and how each reply of the backend is read. The backend
//! itself is driven by the caller, who performs the requests that the
//! functions here hand out and feeds the replies back in.

pub mod backend;
pub mod codecs;
pub mod error;
pub mod mdbx;
pub mod primitives;
pub mod tables;
pub mod unity;
