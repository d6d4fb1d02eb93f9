//! Transactions: the typed operations on one table at a time.

use crate::backend::{PutMode, TxRequest, TxRequestView};
use crate::codecs::{Decode, Encode};
use crate::error::{BackendError, StorageError, StorageErrorView};
use crate::mdbx::cursor::Cursor;
use crate::mdbx::DbEnv;
use crate::tables::{Table, TableType};
use std::marker::PhantomData;
use vstd::prelude::*;

verus! {

/// Marks a read-only transaction.
#[derive(Debug)]
pub struct RO;

/// Marks a read-write transaction.
#[derive(Debug)]
pub struct RW;

/// A transaction of kind `K`, which is [`RO`] or [`RW`]. It borrows the
/// environment that began it, and so cannot outlive it.
#[derive(Debug)]
pub struct Tx<'env, K> {
    kind: PhantomData<K>,
    env: PhantomData<&'env DbEnv>,
}

/// What a lookup returns for each reply of the backend: the decoded value
/// where one is stored, `None` where none is, and an error where the backend
/// fails or the stored bytes do not decode.
pub open spec fn get_result<V: Decode>(reply: Result<Option<Seq<u8>>, BackendError>) -> Result<
    Option<V>,
    StorageError,
> {
    match reply {
        Err(e) => Err(StorageError::Read(e)),
        Ok(None) => Ok(None),
        Ok(Some(bytes)) => match V::decoding(bytes) {
            Ok(v) => Ok(Some(v)),
            Err(e) => Err(StorageError::Decode(e)),
        },
    }
}

/// The request for the value stored under `key` in table `T`.
pub open spec fn get_request<T: Table>(key: T::Key) -> TxRequestView {
    TxRequestView::Get { table: T::table(), key: key.encoding() }
}

/// The request that stores `value` under `key` in table `T`.
pub open spec fn put_request<T: Table>(key: T::Key, value: T::Value) -> TxRequestView {
    TxRequestView::Put {
        table: T::table(),
        key: key.encoding(),
        value: value.encoding(),
        mode: PutMode::Upsert,
    }
}

/// The request that deletes from table `T`. In a table with one value for each
/// key the value is left out: the key's entry goes. In a table with several,
/// a value names the one pair that goes, and without one all the key's values go.
pub open spec fn delete_request<T: Table>(key: T::Key, value: Option<T::Value>) -> TxRequestView {
    TxRequestView::Del {
        table: T::table(),
        key: key.encoding(),
        only: match (T::table().spec_table_type(), value) {
            (TableType::DupSort, Some(v)) => Some(v.encoding()),
            _ => None,
        },
    }
}

/// The error for a write to table `T` under `key` that the backend refused.
pub open spec fn write_error<T: Table>(key: T::Key, cause: BackendError) -> StorageErrorView {
    StorageErrorView::Write { table: T::table().spec_name(), key: key.encoding(), cause }
}

/// The backend's reply to a lookup, as a mathematical value.
pub open spec fn get_reply_view(reply: Result<Option<Vec<u8>>, BackendError>) -> Result<
    Option<Seq<u8>>,
    BackendError,
> {
    match reply {
        Err(e) => Err(e),
        Ok(None) => Ok(None),
        Ok(Some(bytes)) => Ok(Some(bytes@)),
    }
}

impl<'env, K> Tx<'env, K> {
    /// A transaction that the backend has begun.
    pub(crate) fn new() -> (tx: Self) {
        Tx { kind: PhantomData, env: PhantomData }
    }

    /// Asks for the value stored under `key` in table `T`.
    pub fn get<T: Table>(&self, key: T::Key) -> (request: TxRequest)
        ensures
            request@ == get_request::<T>(key),
    {
        TxRequest::Get { table: T::id(), key: key.encode() }
    }

    /// Reads the backend's reply to a lookup in table `T`.
    pub fn get_reply<T: Table>(&self, reply: Result<Option<Vec<u8>>, BackendError>) -> (r: Result<
        Option<T::Value>,
        StorageError,
    >)
        ensures
            r == get_result::<T::Value>(get_reply_view(reply)),
    {
        match reply {
            Err(e) => Err(StorageError::Read(e)),
            Ok(None) => Ok(None),
            Ok(Some(bytes)) => match T::Value::decode(bytes.as_slice()) {
                Ok(v) => Ok(Some(v)),
                Err(e) => Err(StorageError::Decode(e)),
            },
        }
    }

    /// Asks for the number of entries in table `T`.
    pub fn entries<T: Table>(&self) -> (request: TxRequest)
        ensures
            request@ == (TxRequestView::Entries { table: T::table() }),
    {
        TxRequest::Entries { table: T::id() }
    }

    /// Reads the backend's reply to a count.
    pub fn entries_reply(&self, reply: Result<usize, BackendError>) -> (r: Result<
        usize,
        StorageError,
    >)
        ensures
            match reply {
                Ok(n) => r == Ok::<usize, StorageError>(n),
                Err(e) => r == Err::<usize, StorageError>(StorageError::Read(e)),
            },
    {
        match reply {
            Ok(n) => Ok(n),
            Err(e) => Err(StorageError::Read(e)),
        }
    }

    /// Asks for a cursor on table `T`.
    pub fn cursor<T: Table>(&self) -> (request: TxRequest)
        ensures
            request@ == (TxRequestView::OpenCursor { table: T::table() }),
    {
        TxRequest::OpenCursor { table: T::id() }
    }

    /// Reads the backend's reply to the opening of a cursor on table `T`. The
    /// cursor borrows the transaction, which cannot end before the cursor has.
    pub fn cursor_reply<'tx, T: Table>(&'tx self, reply: Result<(), BackendError>) -> (r: Result<
        Cursor<'tx, K, T>,
        StorageError,
    >)
        ensures
            match reply {
                Ok(_) => r.is_ok(),
                Err(e) => r matches Err(error) && error == StorageError::Read(e),
            },
    {
        match reply {
            Ok(_) => Ok(Cursor::new()),
            Err(e) => Err(StorageError::Read(e)),
        }
    }

    /// Ends the transaction: asks the backend to commit it.
    pub fn commit(self) -> (request: TxRequest)
        ensures
            request@ == TxRequestView::Commit,
    {
        TxRequest::Commit
    }

    /// Reads the backend's reply to a commit.
    pub fn commit_reply(reply: Result<(), BackendError>) -> (r: Result<(), StorageError>)
        ensures
            match reply {
                Ok(_) => r == Ok::<(), StorageError>(()),
                Err(e) => r == Err::<(), StorageError>(StorageError::Commit(e)),
            },
    {
        match reply {
            Ok(_) => Ok(()),
            Err(e) => Err(StorageError::Commit(e)),
        }
    }
}

impl<'env> Tx<'env, RW> {
    /// Asks to store `value` under `key` in table `T`: in place of the key's
    /// value where the table holds one for each key, beside the key's other
    /// values where it holds several.
    pub fn put<T: Table>(&self, key: T::Key, value: T::Value) -> (request: TxRequest)
        ensures
            request@ == put_request::<T>(key, value),
    {
        TxRequest::Put {
            table: T::id(),
            key: key.encode(),
            value: value.encode(),
            mode: PutMode::Upsert,
        }
    }

    /// Reads the backend's reply to a put under `key` in table `T`.
    pub fn put_reply<T: Table>(&self, key: T::Key, reply: Result<(), BackendError>) -> (r: Result<
        (),
        StorageError,
    >)
        ensures
            match reply {
                Ok(_) => r.is_ok(),
                Err(cause) => r matches Err(error) && error@ == write_error::<T>(key, cause),
            },
    {
        match reply {
            Ok(_) => Ok(()),
            Err(cause) => Err(
                StorageError::Write { table: T::id().name(), key: key.encode(), cause },
            ),
        }
    }

    /// Asks to delete from table `T`: the entry of `key`, or, where the table
    /// holds several values for each key and `value` is given, only that pair.
    pub fn delete<T: Table>(&self, key: T::Key, value: Option<T::Value>) -> (request: TxRequest)
        ensures
            request@ == delete_request::<T>(key, value),
    {
        let table = T::id();
        let only = match (table.table_type(), value) {
            (TableType::DupSort, Some(v)) => Some(v.encode()),
            _ => None,
        };
        TxRequest::Del { table, key: key.encode(), only }
    }

    /// Reads the backend's reply to a delete under `key` in table `T`:
    /// whether anything was deleted.
    pub fn delete_reply<T: Table>(&self, key: T::Key, reply: Result<bool, BackendError>) -> (r:
        Result<bool, StorageError>)
        ensures
            match reply {
                Ok(deleted) => r == Ok::<bool, StorageError>(deleted),
                Err(cause) => r matches Err(error) && error@ == write_error::<T>(key, cause),
            },
    {
        match reply {
            Ok(deleted) => Ok(deleted),
            Err(cause) => Err(
                StorageError::Write { table: T::id().name(), key: key.encode(), cause },
            ),
        }
    }
}

/// What a put stores, a lookup of the same key reads back: the lookup asks in
/// the table and under the key bytes of the put, and from the value bytes of
/// the put it returns the value that was put.
pub proof fn lemma_get_reads_what_put_wrote<T: Table>(key: T::Key, value: T::Value)
    ensures
        put_request::<T>(key, value) matches TxRequestView::Put { table, key: k, value: v, .. }
            && get_request::<T>(key) == (TxRequestView::Get { table, key: k }) && get_result::<
            T::Value,
        >(Ok(Some(v))) == Ok::<Option<T::Value>, StorageError>(Some(value)),
{
    T::Value::lemma_round_trip(value);
}

/// A delete names what a put stored: it asks in the table and under the key
/// bytes of the put. Without a value, and in a table with one value for each
/// key whatever the value, it names the key alone; with the value that was
/// put, in a table with several values for each key, it names the value
/// bytes of the put.
pub proof fn lemma_delete_names_what_put_wrote<T: Table>(key: T::Key, value: T::Value)
    ensures
        put_request::<T>(key, value) matches TxRequestView::Put { table, key: k, value: v, .. }
            && delete_request::<T>(key, None) == (TxRequestView::Del { table, key: k, only: None })
            && delete_request::<T>(key, Some(value)) == (TxRequestView::Del {
            table,
            key: k,
            only: if T::table().spec_table_type() == TableType::DupSort {
                Some(v)
            } else {
                None
            },
        }),
{
}

} // verus!
