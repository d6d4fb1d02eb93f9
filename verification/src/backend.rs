//! What the storage layer asks of the backend.
//!
//! The layer never touches the backend itself. Each typed operation hands out
//! a request in bytes; the caller performs it and hands the backend's reply to
//! the operation's `_reply` function, which reads it into typed values.

use crate::tables::Tables;
use vstd::prelude::*;

verus! {

/// How a write treats what is already stored.
#[derive(Debug, Clone, Copy, PartialEq, Eq, Structural)]
pub enum PutMode {
    /// Store the pair; in a table with one value for each key, replace the key's value.
    Upsert,
    /// Refuse the write if the key is already in the table.
    NoOverwrite,
    /// Refuse the write if the key already has this very value.
    NoDupData,
}

/// A request to the environment.
#[derive(Debug, Clone, Copy, PartialEq, Eq, Structural)]
pub enum EnvRequest {
    /// Begin a read-only transaction.
    BeginRo,
    /// Begin a read-write transaction.
    BeginRw,
    /// Declare a table in the open read-write transaction, unless it exists.
    CreateTable { table: Tables, dup_sort: bool },
    /// Commit the open transaction.
    Commit,
}

/// A request to a transaction.
#[derive(Debug, Clone, PartialEq, Eq)]
pub enum TxRequest {
    /// Look up the value stored under `key`.
    Get { table: Tables, key: Vec<u8> },
    /// Store `value` under `key`.
    Put { table: Tables, key: Vec<u8>, value: Vec<u8>, mode: PutMode },
    /// Remove `key` with all its values, or the pair of `key` and `only` alone.
    Del { table: Tables, key: Vec<u8>, only: Option<Vec<u8>> },
    /// Count the entries of the table.
    Entries { table: Tables },
    /// Open a cursor on the table.
    OpenCursor { table: Tables },
    /// Commit the transaction.
    Commit,
}

/// A transaction request as a mathematical value.
pub enum TxRequestView {
    Get { table: Tables, key: Seq<u8> },
    Put { table: Tables, key: Seq<u8>, value: Seq<u8>, mode: PutMode },
    Del { table: Tables, key: Seq<u8>, only: Option<Seq<u8>> },
    Entries { table: Tables },
    OpenCursor { table: Tables },
    Commit,
}

impl View for TxRequest {
    type V = TxRequestView;

    open spec fn view(&self) -> TxRequestView {
        match self {
            TxRequest::Get { table, key } => TxRequestView::Get { table: *table, key: key@ },
            TxRequest::Put { table, key, value, mode } => TxRequestView::Put {
                table: *table,
                key: key@,
                value: value@,
                mode: *mode,
            },
            TxRequest::Del { table, key, only } => TxRequestView::Del {
                table: *table,
                key: key@,
                only: match only {
                    Some(v) => Some(v@),
                    None => None,
                },
            },
            TxRequest::Entries { table } => TxRequestView::Entries { table: *table },
            TxRequest::OpenCursor { table } => TxRequestView::OpenCursor { table: *table },
            TxRequest::Commit => TxRequestView::Commit,
        }
    }
}

/// A request to a cursor.
#[derive(Debug, Clone, PartialEq, Eq)]
pub enum CursorRequest {
    /// Move to the first entry.
    First,
    /// Move to the last entry.
    Last,
    /// Move one entry forward; from no position, to the first entry.
    Next,
    /// Move one entry back; from no position, to the last entry.
    Prev,
    /// Read the entry at the cursor without moving.
    Current,
    /// Move to the first entry whose key is not below `key`.
    Seek { key: Vec<u8> },
    /// Store the pair and move to it.
    Put { key: Vec<u8>, value: Vec<u8>, mode: PutMode },
    /// Remove the entry at the cursor.
    DelCurrent,
}

/// A cursor request as a mathematical value.
pub enum CursorRequestView {
    First,
    Last,
    Next,
    Prev,
    Current,
    Seek { key: Seq<u8> },
    Put { key: Seq<u8>, value: Seq<u8>, mode: PutMode },
    DelCurrent,
}

impl View for CursorRequest {
    type V = CursorRequestView;

    open spec fn view(&self) -> CursorRequestView {
        match self {
            CursorRequest::First => CursorRequestView::First,
            CursorRequest::Last => CursorRequestView::Last,
            CursorRequest::Next => CursorRequestView::Next,
            CursorRequest::Prev => CursorRequestView::Prev,
            CursorRequest::Current => CursorRequestView::Current,
            CursorRequest::Seek { key } => CursorRequestView::Seek { key: key@ },
            CursorRequest::Put { key, value, mode } => CursorRequestView::Put {
                key: key@,
                value: value@,
                mode: *mode,
            },
            CursorRequest::DelCurrent => CursorRequestView::DelCurrent,
        }
    }
}

} // verus!
