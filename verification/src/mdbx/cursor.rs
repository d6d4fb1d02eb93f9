//! Cursors: positional access to one table, and the walk along it.

use crate::backend::{CursorRequest, CursorRequestView, PutMode};
use crate::codecs::{Decode, Encode};
use crate::error::{BackendError, StorageError, StorageErrorView};
use crate::mdbx::tx::RW;
use crate::tables::{Table, TableType};
use std::marker::PhantomData;
use vstd::prelude::*;

verus! {

/// What the backend replies to a cursor movement: the entry at the new
/// position, if there is one.
pub type RawEntry = Result<Option<(Vec<u8>, Vec<u8>)>, BackendError>;

/// The backend's reply to a cursor movement, as a mathematical value.
pub open spec fn entry_view(reply: RawEntry) -> Result<Option<(Seq<u8>, Seq<u8>)>, BackendError> {
    match reply {
        Err(e) => Err(e),
        Ok(None) => Ok(None),
        Ok(Some((key, value))) => Ok(Some((key@, value@))),
    }
}

/// A stored pair of bytes as a typed entry. The key is read first: where
/// neither decodes, the error is the key's.
pub open spec fn decoded_pair<K: Decode, V: Decode>(key: Seq<u8>, value: Seq<u8>) -> Result<
    (K, V),
    StorageError,
> {
    match K::decoding(key) {
        Err(e) => Err(StorageError::Decode(e)),
        Ok(k) => match V::decoding(value) {
            Err(e) => Err(StorageError::Decode(e)),
            Ok(v) => Ok((k, v)),
        },
    }
}

/// What a cursor movement returns for each reply of the backend: the decoded
/// entry at the new position, `None` where there is no entry, and an error
/// where the backend fails or the entry does not decode.
pub open spec fn entry_result<K: Decode, V: Decode>(
    reply: Result<Option<(Seq<u8>, Seq<u8>)>, BackendError>,
) -> Result<Option<(K, V)>, StorageError> {
    match reply {
        Err(e) => Err(StorageError::Read(e)),
        Ok(None) => Ok(None),
        Ok(Some((key, value))) => match decoded_pair::<K, V>(key, value) {
            Err(e) => Err(e),
            Ok(pair) => Ok(Some(pair)),
        },
    }
}

/// Reads a stored pair of bytes as a typed entry.
pub fn decode_pair<K: Decode, V: Decode>(key: &[u8], value: &[u8]) -> (r: Result<
    (K, V),
    StorageError,
>)
    ensures
        r == decoded_pair::<K, V>(key@, value@),
{
    match K::decode(key) {
        Err(e) => Err(StorageError::Decode(e)),
        Ok(k) => match V::decode(value) {
            Err(e) => Err(StorageError::Decode(e)),
            Ok(v) => Ok((k, v)),
        },
    }
}

/// Reads the backend's reply to a cursor movement.
pub fn decode_entry<K: Decode, V: Decode>(reply: RawEntry) -> (r: Result<
    Option<(K, V)>,
    StorageError,
>)
    ensures
        r == entry_result::<K, V>(entry_view(reply)),
{
    match reply {
        Err(e) => Err(StorageError::Read(e)),
        Ok(None) => Ok(None),
        Ok(Some((key, value))) => match decode_pair::<K, V>(key.as_slice(), value.as_slice()) {
            Err(e) => Err(e),
            Ok(pair) => Ok(Some(pair)),
        },
    }
}

/// A cursor of a transaction of kind `K` on table `T`. It borrows its
/// transaction, and so cannot outlive it.
#[derive(Debug)]
pub struct Cursor<'tx, K, T: Table> {
    kind: PhantomData<K>,
    table: PhantomData<T>,
    tx: PhantomData<&'tx ()>,
}

/// The request with which a walk from `start_key` begins: a seek to the
/// first entry that is not below the key, or a move to the table's first entry.
pub open spec fn walk_request<T: Table>(start_key: Option<T::Key>) -> CursorRequestView {
    match start_key {
        Some(key) => CursorRequestView::Seek { key: key.encoding() },
        None => CursorRequestView::First,
    }
}

/// How an insert treats what is stored: in a table with one value for each
/// key, a key that is there is refused; in a table with several, a pair that
/// is there is.
pub open spec fn insert_mode(kind: TableType) -> PutMode {
    match kind {
        TableType::Table => PutMode::NoOverwrite,
        TableType::DupSort => PutMode::NoDupData,
    }
}

/// The request that inserts the pair into table `T`.
pub open spec fn insert_request<T: Table>(key: T::Key, value: T::Value) -> CursorRequestView {
    CursorRequestView::Put {
        key: key.encoding(),
        value: value.encoding(),
        mode: insert_mode(T::table().spec_table_type()),
    }
}

/// The request that stores the pair in table `T`, whatever is there.
pub open spec fn upsert_request<T: Table>(key: T::Key, value: T::Value) -> CursorRequestView {
    CursorRequestView::Put {
        key: key.encoding(),
        value: value.encoding(),
        mode: PutMode::Upsert,
    }
}

/// What a write through a cursor on table `T` returns for each reply of the
/// backend: a failure names the table, the key and the backend's error.
pub open spec fn write_result<T: Table>(
    key: Seq<u8>,
    reply: Result<(), BackendError>,
    r: Result<(), StorageError>,
) -> bool {
    match reply {
        Ok(_) => r.is_ok(),
        Err(cause) => r matches Err(error) && error@ == (StorageErrorView::Write {
            table: T::table().spec_name(),
            key,
            cause,
        }),
    }
}

impl<'tx, K, T: Table> Cursor<'tx, K, T> {
    /// A cursor that the backend has opened.
    pub(crate) fn new() -> (cursor: Self) {
        Cursor { kind: PhantomData, table: PhantomData, tx: PhantomData }
    }

    /// Asks for the table's first entry.
    pub fn first(&self) -> (request: CursorRequest)
        ensures
            request@ == CursorRequestView::First,
    {
        CursorRequest::First
    }

    /// Asks for the table's last entry.
    pub fn last(&self) -> (request: CursorRequest)
        ensures
            request@ == CursorRequestView::Last,
    {
        CursorRequest::Last
    }

    /// Asks for the entry after the cursor's position.
    pub fn next(&self) -> (request: CursorRequest)
        ensures
            request@ == CursorRequestView::Next,
    {
        CursorRequest::Next
    }

    /// Asks for the entry before the cursor's position.
    pub fn prev(&self) -> (request: CursorRequest)
        ensures
            request@ == CursorRequestView::Prev,
    {
        CursorRequest::Prev
    }

    /// Asks for the entry at the cursor's position.
    pub fn current(&self) -> (request: CursorRequest)
        ensures
            request@ == CursorRequestView::Current,
    {
        CursorRequest::Current
    }

    /// Asks for the first entry whose key is not below `key`.
    pub fn seek(&self, key: T::Key) -> (request: CursorRequest)
        ensures
            request@ == (CursorRequestView::Seek { key: key.encoding() }),
    {
        CursorRequest::Seek { key: key.encode() }
    }

    /// Reads the backend's reply to a movement or to a read at the position.
    pub fn entry_reply(&self, reply: RawEntry) -> (r: Result<
        Option<(T::Key, T::Value)>,
        StorageError,
    >)
        ensures
            r == entry_result::<T::Key, T::Value>(entry_view(reply)),
    {
        decode_entry::<T::Key, T::Value>(reply)
    }

    /// Begins a walk: asks for the entry at which it starts.
    pub fn walk(&self, start_key: Option<T::Key>) -> (request: CursorRequest)
        ensures
            request@ == walk_request::<T>(start_key),
    {
        match start_key {
            Some(key) => CursorRequest::Seek { key: key.encode() },
            None => CursorRequest::First,
        }
    }
}

impl<'tx, T: Table> Cursor<'tx, RW, T> {
    /// Asks to insert the pair and to move to it. The backend refuses with
    /// `KeyExists` what the table holds already.
    pub fn insert(&self, key: T::Key, value: T::Value) -> (request: CursorRequest)
        ensures
            request@ == insert_request::<T>(key, value),
    {
        let mode = match T::id().table_type() {
            TableType::Table => PutMode::NoOverwrite,
            TableType::DupSort => PutMode::NoDupData,
        };
        CursorRequest::Put { key: key.encode(), value: value.encode(), mode }
    }

    /// Asks to store the pair, whatever is there, and to move to it.
    pub fn upsert(&self, key: T::Key, value: T::Value) -> (request: CursorRequest)
        ensures
            request@ == upsert_request::<T>(key, value),
    {
        CursorRequest::Put { key: key.encode(), value: value.encode(), mode: PutMode::Upsert }
    }

    /// Reads the backend's reply to an insert or an upsert of `key`.
    pub fn write_reply(&self, key: T::Key, reply: Result<(), BackendError>) -> (r: Result<
        (),
        StorageError,
    >)
        ensures
            write_result::<T>(key.encoding(), reply, r),
    {
        match reply {
            Ok(_) => Ok(()),
            Err(cause) => Err(
                StorageError::Write { table: T::id().name(), key: key.encode(), cause },
            ),
        }
    }

    /// Asks to delete the entry at the cursor's position.
    pub fn delete_current(&self) -> (request: CursorRequest)
        ensures
            request@ == CursorRequestView::DelCurrent,
    {
        CursorRequest::DelCurrent
    }

    /// Reads the backend's reply to a delete at the position. No key was
    /// named, so a failure carries the empty key.
    pub fn delete_current_reply(&self, reply: Result<(), BackendError>) -> (r: Result<
        (),
        StorageError,
    >)
        ensures
            write_result::<T>(Seq::empty(), reply, r),
    {
        match reply {
            Ok(_) => Ok(()),
            Err(cause) => Err(
                StorageError::Write { table: T::id().name(), key: Vec::new(), cause },
            ),
        }
    }
}

/// A typed entry, or the error in its place.
pub type Item<K, V> = Result<(K, V), StorageError>;

/// A walk along a cursor from a starting entry to the table's end: each pull
/// gives the next entry, and `None` for good once the entries have run out or
/// one has failed.
#[derive(Debug)]
pub struct Walker<K, V> {
    /// The entry at which the walk starts, until it has been handed out.
    start: Option<Item<K, V>>,
    /// Whether the walk has ended.
    done: bool,
}

/// What a pull of a walker comes to.
#[derive(Debug)]
pub enum WalkerStep<K, V> {
    /// The pull's result, without a request: the starting entry, or `None`
    /// where the walk has ended.
    Yield(Option<Item<K, V>>),
    /// The cursor is to perform the request; the walker reads the reply.
    Ask(CursorRequest),
}

/// The item that a reply of the backend makes: none at the table's end, and
/// else the entry or the error in its place.
pub open spec fn item_of<K: Decode, V: Decode>(
    reply: Result<Option<(Seq<u8>, Seq<u8>)>, BackendError>,
) -> Option<Item<K, V>> {
    match entry_result::<K, V>(reply) {
        Ok(None) => None,
        Ok(Some(pair)) => Some(Ok(pair)),
        Err(e) => Some(Err(e)),
    }
}

/// Whether a walk ends with this item: at the table's end and at an error.
pub open spec fn ends_walk<K, V>(item: Option<Item<K, V>>) -> bool {
    match item {
        Some(Ok(_)) => false,
        _ => true,
    }
}

impl<K: Decode, V: Decode> Walker<K, V> {
    /// The entry at which the walk starts, while it waits to be handed out.
    pub closed spec fn spec_start(&self) -> Option<Item<K, V>> {
        self.start
    }

    /// Whether the walk has ended.
    pub closed spec fn spec_done(&self) -> bool {
        self.done
    }

    /// A walk that hands out `start` first, if there is one, and then goes on
    /// from the cursor's position.
    pub fn new(start: Option<Item<K, V>>) -> (walker: Self)
        ensures
            walker.spec_start() == start,
            !walker.spec_done(),
    {
        Walker { start, done: false }
    }

    /// A walk that starts at the entry which the backend found for
    /// [`Cursor::walk`]. Where it found none, the walk has ended.
    pub fn begin(reply: RawEntry) -> (r: Result<Self, StorageError>)
        ensures
            match entry_view(reply) {
                Err(e) => r matches Err(error) && error == StorageError::Read(e),
                Ok(found) => r matches Ok(walker) && walker.spec_start() == item_of::<K, V>(
                    Ok(found),
                ) && walker.spec_done() == found.is_none(),
            },
    {
        match reply {
            Err(e) => Err(StorageError::Read(e)),
            Ok(None) => Ok(Walker { start: None, done: true }),
            Ok(Some((key, value))) => {
                let item = decode_pair::<K, V>(key.as_slice(), value.as_slice());
                Ok(Walker { start: Some(item), done: false })
            },
        }
    }

    /// Whether the walk has ended.
    pub fn is_done(&self) -> (done: bool)
        ensures
            done == self.spec_done(),
    {
        self.done
    }

    /// Pulls the next item. An ended walk yields `None`. A walk that still
    /// holds its starting entry yields it, and ends if it is an error. Any
    /// other walk asks the cursor for the next entry, and
    /// [`Walker::next_reply`] gives the item.
    pub fn next(&mut self) -> (step: WalkerStep<K, V>)
        ensures
            old(self).spec_done() ==> step == WalkerStep::<K, V>::Yield(None) && *final(self)
                == *old(self),
            !old(self).spec_done() && old(self).spec_start().is_some() ==> step
                == WalkerStep::Yield(old(self).spec_start()) && final(self).spec_start().is_none()
                && final(self).spec_done() == ends_walk(old(self).spec_start()),
            !old(self).spec_done() && old(self).spec_start().is_none() ==> (step
                matches WalkerStep::Ask(request) && request@ == CursorRequestView::Next)
                && *final(self) == *old(self),
    {
        if self.done {
            return WalkerStep::Yield(None);
        }
        match self.start.take() {
            Some(item) => {
                if item.is_err() {
                    self.done = true;
                }
                WalkerStep::Yield(Some(item))
            },
            None => WalkerStep::Ask(CursorRequest::Next),
        }
    }

    /// Reads the backend's reply to the request of a pull: the entry, the
    /// error in its place, or `None` at the table's end. After `None` and
    /// after an error the walk has ended. An ended walk reads no reply.
    pub fn next_reply(&mut self, reply: RawEntry) -> (item: Option<Item<K, V>>)
        ensures
            final(self).spec_start() == old(self).spec_start(),
            old(self).spec_done() ==> item.is_none() && final(self).spec_done(),
            !old(self).spec_done() ==> item == item_of::<K, V>(entry_view(reply))
                && final(self).spec_done() == ends_walk(item),
    {
        if self.done {
            return None;
        }
        match decode_entry::<K, V>(reply) {
            Ok(None) => {
                self.done = true;
                None
            },
            Ok(Some(pair)) => Some(Ok(pair)),
            Err(e) => {
                self.done = true;
                Some(Err(e))
            },
        }
    }
}

impl<'tx, K, T: Table> Cursor<'tx, K, T> {
    /// Reads the backend's reply to the request of [`Cursor::walk`]: the walk
    /// from the entry that was found.
    pub fn walk_reply(&self, reply: RawEntry) -> (r: Result<
        Walker<T::Key, T::Value>,
        StorageError,
    >)
        ensures
            match entry_view(reply) {
                Err(e) => r matches Err(error) && error == StorageError::Read(e),
                Ok(found) => r matches Ok(walker) && walker.spec_start() == item_of::<
                    T::Key,
                    T::Value,
                >(Ok(found)) && walker.spec_done() == found.is_none(),
            },
    {
        Walker::begin(reply)
    }
}

/// An entry is read back from the bytes that were written for it: the pair
/// that a put or an insert stores decodes to the key and the value that were given.
pub proof fn lemma_entry_round_trip<T: Table>(key: T::Key, value: T::Value)
    ensures
        decoded_pair::<T::Key, T::Value>(key.encoding(), value.encoding()) == Ok::<
            (T::Key, T::Value),
            StorageError,
        >((key, value)),
        item_of::<T::Key, T::Value>(Ok(Some((key.encoding(), value.encoding())))) == Some(
            Ok::<(T::Key, T::Value), StorageError>((key, value)),
        ),
{
    T::Key::lemma_round_trip(key);
    T::Value::lemma_round_trip(value);
}

} // verus!
