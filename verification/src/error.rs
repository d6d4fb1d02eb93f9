//! What can go wrong, and at which operation.

use crate::codecs::DecodeError;
use vstd::prelude::*;

verus! {

/// What the backend reports when it refuses an operation.
#[derive(Debug, Clone, Copy, PartialEq, Eq, Structural)]
pub enum BackendError {
    /// The key, or the key and value, is already in the table.
    KeyExists,
    /// Nothing is stored under the key.
    NotFound,
    /// The environment has reached its maximum size.
    MapFull,
    /// No reader slot is free.
    ReadersFull,
    /// Another writer holds the environment.
    Busy,
    /// The transaction cannot do this: it is read-only, or it has ended.
    BadTxn,
    /// The backing store cannot be accessed.
    Access,
    /// The backing store is damaged.
    Corrupted,
    /// Any other failure, by the backend's code for it.
    Other(i32),
    /// A failure for which the backend gives no code.
    Unknown,
}

/// An error of the storage layer, named after the operation that failed.
#[derive(Debug, Clone, PartialEq, Eq)]
pub enum StorageError {
    /// The backing store could not be opened or created.
    OpenEnv(BackendError),
    /// A table could not be declared.
    CreateTable(BackendError),
    /// A read-only transaction could not be begun.
    CreateROTx(BackendError),
    /// A read-write transaction could not be begun.
    CreateRWTx(BackendError),
    /// A put, an insert or a delete was refused.
    Write { table: &'static str, key: Vec<u8>, cause: BackendError },
    /// A lookup or a cursor movement failed.
    Read(BackendError),
    /// Stored bytes are not the encoding of a key or value of the table.
    Decode(DecodeError),
    /// The transaction could not be committed.
    Commit(BackendError),
}

/// A storage error as a mathematical value.
pub enum StorageErrorView {
    OpenEnv(BackendError),
    CreateTable(BackendError),
    CreateROTx(BackendError),
    CreateRWTx(BackendError),
    Write { table: Seq<char>, key: Seq<u8>, cause: BackendError },
    Read(BackendError),
    Decode(DecodeError),
    Commit(BackendError),
}

impl View for StorageError {
    type V = StorageErrorView;

    open spec fn view(&self) -> StorageErrorView {
        match self {
            StorageError::OpenEnv(e) => StorageErrorView::OpenEnv(*e),
            StorageError::CreateTable(e) => StorageErrorView::CreateTable(*e),
            StorageError::CreateROTx(e) => StorageErrorView::CreateROTx(*e),
            StorageError::CreateRWTx(e) => StorageErrorView::CreateRWTx(*e),
            StorageError::Write { table, key, cause } => StorageErrorView::Write {
                table: table@,
                key: key@,
                cause: *cause,
            },
            StorageError::Read(e) => StorageErrorView::Read(*e),
            StorageError::Decode(e) => StorageErrorView::Decode(*e),
            StorageError::Commit(e) => StorageErrorView::Commit(*e),
        }
    }
}

} // verus!
