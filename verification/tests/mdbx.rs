//! The environment, its transactions, cursors and walkers, run against an
//! ordered store in memory that answers each request as the backend does.

use std::cell::RefCell;
use std::collections::BTreeSet;
use std::ops::Bound::{Excluded, Included, Unbounded};

use katana_db::backend::{CursorRequest, EnvRequest, PutMode, TxRequest};
use katana_db::codecs::{DecodeError, Encode};
use katana_db::error::{BackendError, StorageError};
use katana_db::mdbx::cursor::{Cursor, RawEntry, Walker, WalkerStep};
use katana_db::mdbx::tx::{Tx, RO, RW};
use katana_db::mdbx::{
    default_page_size, CreateTables, CreateTablesStep, DbEnv, DbEnvKind, Mode, SyncMode,
};
use katana_db::primitives::{Felt, FinalityStatus, Header, StorageEntry};
use katana_db::tables::{
    BlockHashes, BlockStatusses, ContractStorage, Headers, Table, Tables, NUM_TABLES,
};

type Rows = BTreeSet<(Vec<u8>, Vec<u8>)>;

/// The tables of a store: for each table of the registry, once it is
/// declared, whether it holds several values for a key, and its rows.
#[derive(Clone, Default)]
struct Store {
    tables: Vec<Option<(bool, Rows)>>,
}

impl Store {
    fn new() -> Store {
        Store { tables: vec![None; NUM_TABLES] }
    }

    fn declare(&mut self, table: Tables, dup_sort: bool) {
        let slot = &mut self.tables[table.index()];
        if slot.is_none() {
            *slot = Some((dup_sort, Rows::new()));
        }
    }

    fn table(&self, table: Tables) -> Result<&(bool, Rows), BackendError> {
        self.tables[table.index()].as_ref().ok_or(BackendError::NotFound)
    }

    fn table_mut(&mut self, table: Tables) -> Result<&mut (bool, Rows), BackendError> {
        self.tables[table.index()].as_mut().ok_or(BackendError::NotFound)
    }

    fn get(&self, table: Tables, key: &[u8]) -> Result<Option<Vec<u8>>, BackendError> {
        let (_, rows) = self.table(table)?;
        Ok(rows.iter().find(|(k, _)| k.as_slice() == key).map(|(_, v)| v.clone()))
    }

    fn put(
        &mut self,
        table: Tables,
        key: &[u8],
        value: &[u8],
        mode: PutMode,
    ) -> Result<(), BackendError> {
        let (dup_sort, rows) = self.table_mut(table)?;
        let key_there = rows.iter().any(|(k, _)| k.as_slice() == key);
        let pair_there = rows.contains(&(key.to_vec(), value.to_vec()));
        match mode {
            PutMode::NoOverwrite if key_there => return Err(BackendError::KeyExists),
            PutMode::NoDupData if pair_there => return Err(BackendError::KeyExists),
            _ => {}
        }
        if !*dup_sort {
            rows.retain(|(k, _)| k.as_slice() != key);
        }
        rows.insert((key.to_vec(), value.to_vec()));
        Ok(())
    }

    fn del(
        &mut self,
        table: Tables,
        key: &[u8],
        only: Option<&[u8]>,
    ) -> Result<bool, BackendError> {
        let (_, rows) = self.table_mut(table)?;
        let before = rows.len();
        rows.retain(|(k, v)| k.as_slice() != key || only.is_some_and(|o| o != v.as_slice()));
        Ok(rows.len() != before)
    }
}

/// An environment with its store.
struct TestEnv {
    env: DbEnv,
    disk: RefCell<Store>,
}

/// A transaction with its view of the store.
struct TestTx<'e, K> {
    tx: Tx<'e, K>,
    env: &'e TestEnv,
    view: RefCell<Store>,
}

/// A cursor with its position.
struct TestCursor<'t, 'e, K, T: Table> {
    cursor: Cursor<'t, K, T>,
    tx: &'t TestTx<'e, K>,
    at: Option<(Vec<u8>, Vec<u8>)>,
}

/// A walker with the cursor that it walks along.
struct TestWalker<'c, 't, 'e, K, T: Table> {
    walker: Walker<T::Key, T::Value>,
    cursor: &'c mut TestCursor<'t, 'e, K, T>,
}

impl TestEnv {
    fn open(kind: DbEnvKind) -> Result<TestEnv, StorageError> {
        let options = DbEnv::open(kind, 4096);
        assert_eq!(options.max_tables, NUM_TABLES);
        let env = DbEnv::open_reply(kind, Ok(()))?;
        Ok(TestEnv { env, disk: RefCell::new(Store::new()) })
    }

    fn create_tables(&self) -> Result<(), StorageError> {
        let (mut state, mut request) = self.env.create_tables();
        loop {
            let reply = match request {
                EnvRequest::BeginRw | EnvRequest::Commit => Ok(()),
                EnvRequest::CreateTable { table, dup_sort } => {
                    self.disk.borrow_mut().declare(table, dup_sort);
                    Ok(())
                }
                EnvRequest::BeginRo => Err(BackendError::BadTxn),
            };
            match state.resume(reply) {
                CreateTablesStep::Ask(next, asked) => {
                    state = next;
                    request = asked;
                }
                CreateTablesStep::Done(result) => return result,
            }
        }
    }

    fn tx(&self) -> Result<TestTx<'_, RO>, StorageError> {
        assert_eq!(self.env.tx(), EnvRequest::BeginRo);
        let tx = self.env.tx_reply(Ok(()))?;
        Ok(TestTx { tx, env: self, view: RefCell::new(self.disk.borrow().clone()) })
    }

    fn tx_mut(&self) -> Result<TestTx<'_, RW>, StorageError> {
        assert_eq!(self.env.tx_mut(), EnvRequest::BeginRw);
        let tx = self.env.tx_mut_reply(Ok(()))?;
        Ok(TestTx { tx, env: self, view: RefCell::new(self.disk.borrow().clone()) })
    }
}

impl<'e, K> TestTx<'e, K> {
    fn get<T: Table>(&self, key: T::Key) -> Result<Option<T::Value>, StorageError> {
        let reply = match self.tx.get::<T>(key) {
            TxRequest::Get { table, key } => self.view.borrow().get(table, &key),
            other => panic!("a lookup asked {:?}", other),
        };
        self.tx.get_reply::<T>(reply)
    }

    fn entries<T: Table>(&self) -> Result<usize, StorageError> {
        let reply = match self.tx.entries::<T>() {
            TxRequest::Entries { table } => self.view.borrow().table(table).map(|t| t.1.len()),
            other => panic!("a count asked {:?}", other),
        };
        self.tx.entries_reply(reply)
    }

    fn cursor<'t, T: Table>(&'t self) -> Result<TestCursor<'t, 'e, K, T>, StorageError> {
        let reply = match self.tx.cursor::<T>() {
            TxRequest::OpenCursor { table } => self.view.borrow().table(table).map(|_| ()),
            other => panic!("the opening of a cursor asked {:?}", other),
        };
        let cursor = self.tx.cursor_reply::<T>(reply)?;
        Ok(TestCursor { cursor, tx: self, at: None })
    }
}

impl TestTx<'_, RO> {
    fn commit(self) -> Result<(), StorageError> {
        assert_eq!(self.tx.commit(), TxRequest::Commit);
        Tx::<RO>::commit_reply(Ok(()))
    }
}

impl TestTx<'_, RW> {
    fn put<T: Table>(&self, key: T::Key, value: T::Value) -> Result<(), StorageError>
    where
        T::Key: Copy,
    {
        let reply = match self.tx.put::<T>(key, value) {
            TxRequest::Put { table, key, value, mode } => {
                self.view.borrow_mut().put(table, &key, &value, mode)
            }
            other => panic!("a put asked {:?}", other),
        };
        self.tx.put_reply::<T>(key, reply)
    }

    fn delete<T: Table>(&self, key: T::Key, value: Option<T::Value>) -> Result<bool, StorageError>
    where
        T::Key: Copy,
    {
        let reply = match self.tx.delete::<T>(key, value) {
            TxRequest::Del { table, key, only } => {
                self.view.borrow_mut().del(table, &key, only.as_deref())
            }
            other => panic!("a delete asked {:?}", other),
        };
        self.tx.delete_reply::<T>(key, reply)
    }

    fn commit(self) -> Result<(), StorageError> {
        assert_eq!(self.tx.commit(), TxRequest::Commit);
        *self.env.disk.borrow_mut() = self.view.into_inner();
        Tx::<RW>::commit_reply(Ok(()))
    }
}

impl<'t, 'e, K, T: Table> TestCursor<'t, 'e, K, T> {
    /// Performs a movement as the backend does.
    fn perform(&mut self, request: CursorRequest) -> RawEntry {
        let view = self.tx.view.borrow();
        let (_, rows) = view.table(T::id())?;
        let found = match request {
            CursorRequest::First => rows.iter().next().cloned(),
            CursorRequest::Last => rows.iter().next_back().cloned(),
            CursorRequest::Next => match &self.at {
                None => rows.iter().next().cloned(),
                Some(at) => rows.range((Excluded(at.clone()), Unbounded)).next().cloned(),
            },
            CursorRequest::Prev => match &self.at {
                None => rows.iter().next_back().cloned(),
                Some(at) => rows.range((Unbounded, Excluded(at.clone()))).next_back().cloned(),
            },
            CursorRequest::Current => return Ok(self.at.clone()),
            CursorRequest::Seek { key } => {
                rows.range((Included((key, Vec::new())), Unbounded)).next().cloned()
            }
            other => panic!("a movement asked {:?}", other),
        };
        if found.is_some() {
            self.at = found.clone();
        }
        Ok(found)
    }

    fn first(&mut self) -> Result<Option<(T::Key, T::Value)>, StorageError> {
        let request = self.cursor.first();
        let reply = self.perform(request);
        self.cursor.entry_reply(reply)
    }

    fn last(&mut self) -> Result<Option<(T::Key, T::Value)>, StorageError> {
        let request = self.cursor.last();
        let reply = self.perform(request);
        self.cursor.entry_reply(reply)
    }

    fn next(&mut self) -> Result<Option<(T::Key, T::Value)>, StorageError> {
        let request = self.cursor.next();
        let reply = self.perform(request);
        self.cursor.entry_reply(reply)
    }

    fn prev(&mut self) -> Result<Option<(T::Key, T::Value)>, StorageError> {
        let request = self.cursor.prev();
        let reply = self.perform(request);
        self.cursor.entry_reply(reply)
    }

    fn current(&mut self) -> Result<Option<(T::Key, T::Value)>, StorageError> {
        let request = self.cursor.current();
        let reply = self.perform(request);
        self.cursor.entry_reply(reply)
    }

    fn seek(&mut self, key: T::Key) -> Result<Option<(T::Key, T::Value)>, StorageError> {
        let request = self.cursor.seek(key);
        let reply = self.perform(request);
        self.cursor.entry_reply(reply)
    }

    fn walk<'c>(
        &'c mut self,
        start_key: Option<T::Key>,
    ) -> Result<TestWalker<'c, 't, 'e, K, T>, StorageError> {
        let request = self.cursor.walk(start_key);
        let reply = self.perform(request);
        let walker = self.cursor.walk_reply(reply)?;
        Ok(TestWalker { walker, cursor: self })
    }
}

impl<'t, 'e, T: Table> TestCursor<'t, 'e, RW, T>
where
    T::Key: Copy,
{
    fn write(&mut self, request: CursorRequest) -> Result<(), BackendError> {
        match request {
            CursorRequest::Put { key, value, mode } => {
                self.tx.view.borrow_mut().put(T::id(), &key, &value, mode)?;
                self.at = Some((key, value));
                Ok(())
            }
            other => panic!("a write asked {:?}", other),
        }
    }

    fn insert(&mut self, key: T::Key, value: T::Value) -> Result<(), StorageError> {
        let request = self.cursor.insert(key, value);
        let reply = self.write(request);
        self.cursor.write_reply(key, reply)
    }

    fn upsert(&mut self, key: T::Key, value: T::Value) -> Result<(), StorageError> {
        let request = self.cursor.upsert(key, value);
        let reply = self.write(request);
        self.cursor.write_reply(key, reply)
    }
}

impl<'c, 't, 'e, K, T: Table> TestWalker<'c, 't, 'e, K, T> {
    fn new(
        cursor: &'c mut TestCursor<'t, 'e, K, T>,
        start: Option<Result<(T::Key, T::Value), StorageError>>,
    ) -> Self {
        TestWalker { walker: Walker::new(start), cursor }
    }
}

impl<'c, 't, 'e, K, T: Table> Iterator for TestWalker<'c, 't, 'e, K, T> {
    type Item = Result<(T::Key, T::Value), StorageError>;

    fn next(&mut self) -> Option<Self::Item> {
        match self.walker.next() {
            WalkerStep::Yield(item) => item,
            WalkerStep::Ask(request) => {
                let reply = self.cursor.perform(request);
                self.walker.next_reply(reply)
            }
        }
    }
}

/// Create database for testing
fn create_test_db(kind: DbEnvKind) -> TestEnv {
    let env = TestEnv::open(kind).expect(ERROR_DB_CREATION);
    env.create_tables().expect("Failed to create tables.");
    env
}

const ERROR_DB_CREATION: &str = "Not able to create the mdbx file.";
const ERROR_PUT: &str = "Not able to insert value into table.";
const ERROR_DELETE: &str = "Failed to delete value from table.";
const ERROR_GET: &str = "Not able to get value from table.";
const ERROR_COMMIT: &str = "Not able to commit transaction.";
const ERROR_RETURN_VALUE: &str = "Mismatching result.";
const ERROR_INIT_TX: &str = "Failed to create a MDBX transaction.";
const ERROR_INIT_CURSOR: &str = "Failed to create cursor.";
const ERROR_GET_AT_CURSOR_POS: &str = "Failed to get value at cursor position.";

#[test]
fn db_creation() {
    create_test_db(DbEnvKind::RW);
}

#[test]
fn db_manual_put_get() {
    let env = create_test_db(DbEnvKind::RW);

    let value = Header::default();
    let key = 1u64;

    // PUT
    let tx = env.tx_mut().expect(ERROR_INIT_TX);
    tx.put::<Headers>(key, value.clone()).expect(ERROR_PUT);
    tx.commit().expect(ERROR_COMMIT);

    // GET
    let tx = env.tx().expect(ERROR_INIT_TX);
    let result = tx.get::<Headers>(key).expect(ERROR_GET);
    let total_entries = tx.entries::<Headers>().expect(ERROR_GET);
    tx.commit().expect(ERROR_COMMIT);

    assert!(total_entries == 1);
    assert!(result.expect(ERROR_RETURN_VALUE) == value);
}

#[test]
fn db_delete() {
    let env = create_test_db(DbEnvKind::RW);

    let value = Header::default();
    let key = 1u64;

    // PUT
    let tx = env.tx_mut().expect(ERROR_INIT_TX);
    tx.put::<Headers>(key, value).expect(ERROR_PUT);
    tx.commit().expect(ERROR_COMMIT);

    let entries = env.tx().expect(ERROR_INIT_TX).entries::<Headers>().expect(ERROR_GET);
    assert!(entries == 1);

    // DELETE
    let tx = env.tx_mut().expect(ERROR_INIT_TX);
    tx.delete::<Headers>(key, None).expect(ERROR_DELETE);
    tx.commit().expect(ERROR_COMMIT);

    let entries = env.tx().expect(ERROR_INIT_TX).entries::<Headers>().expect(ERROR_GET);
    assert!(entries == 0);
}

#[test]
fn db_manual_cursor_walk() {
    let env = create_test_db(DbEnvKind::RW);

    let key1 = 1u64;
    let key2 = 2u64;
    let key3 = 3u64;
    let header1 = Header::default();
    let header2 = Header::default();
    let header3 = Header::default();

    // PUT
    let tx = env.tx_mut().expect(ERROR_INIT_TX);
    tx.put::<Headers>(key1, header1.clone()).expect(ERROR_PUT);
    tx.put::<Headers>(key2, header2.clone()).expect(ERROR_PUT);
    tx.put::<Headers>(key3, header3.clone()).expect(ERROR_PUT);
    tx.commit().expect(ERROR_COMMIT);

    // CURSOR
    let tx = env.tx().expect(ERROR_INIT_TX);
    let mut cursor = tx.cursor::<Headers>().expect(ERROR_INIT_CURSOR);
    let (_, result1) = cursor.next().expect(ERROR_GET_AT_CURSOR_POS).expect(ERROR_RETURN_VALUE);
    let (_, result2) = cursor.next().expect(ERROR_GET_AT_CURSOR_POS).expect(ERROR_RETURN_VALUE);
    let (_, result3) = cursor.next().expect(ERROR_GET_AT_CURSOR_POS).expect(ERROR_RETURN_VALUE);
    tx.commit().expect(ERROR_COMMIT);

    assert!(result1 == header1);
    assert!(result2 == header2);
    assert!(result3 == header3);
}

#[test]
fn db_cursor_walk() {
    let env = create_test_db(DbEnvKind::RW);

    let value = Header::default();
    let key = 1u64;

    // PUT
    let tx = env.tx_mut().expect(ERROR_INIT_TX);
    tx.put::<Headers>(key, value.clone()).expect(ERROR_PUT);
    tx.commit().expect(ERROR_COMMIT);

    // Cursor
    let tx = env.tx().expect(ERROR_INIT_TX);
    let mut cursor = tx.cursor::<Headers>().expect(ERROR_INIT_CURSOR);

    let first = cursor.first().unwrap();
    assert!(first.is_some(), "First should be our put");

    // Walk
    let walk = cursor.walk(Some(key)).unwrap();
    let first = walk.into_iter().next().unwrap().unwrap();
    assert_eq!(first.1, value, "First next should be put value");
}

#[test]
fn db_walker() {
    let db = create_test_db(DbEnvKind::RW);

    // PUT (0, 0), (1, 0), (2, 0)
    let tx = db.tx_mut().expect(ERROR_INIT_TX);
    (0..3).try_for_each(|key| tx.put::<BlockHashes>(key, Felt::zero())).expect(ERROR_PUT);
    tx.commit().expect(ERROR_COMMIT);

    let tx = db.tx().expect(ERROR_INIT_TX);
    let mut cursor = tx.cursor::<BlockHashes>().expect(ERROR_INIT_CURSOR);
    let mut walker = TestWalker::new(&mut cursor, None);

    assert_eq!(walker.next(), Some(Ok((0, Felt::zero()))));
    assert_eq!(walker.next(), Some(Ok((1, Felt::zero()))));
    assert_eq!(walker.next(), Some(Ok((2, Felt::zero()))));
    assert_eq!(walker.next(), None);
}

#[test]
fn db_cursor_insert() {
    let db = create_test_db(DbEnvKind::RW);

    // PUT
    let tx = db.tx_mut().expect(ERROR_INIT_TX);
    (0..=4).try_for_each(|key| tx.put::<BlockHashes>(key, Felt::zero())).expect(ERROR_PUT);
    tx.commit().expect(ERROR_COMMIT);

    let key_to_insert = 5;
    let tx = db.tx_mut().expect(ERROR_INIT_TX);
    let mut cursor = tx.cursor::<BlockHashes>().expect(ERROR_INIT_CURSOR);

    // INSERT
    assert_eq!(cursor.insert(key_to_insert, Felt::zero()), Ok(()));
    assert_eq!(cursor.current(), Ok(Some((key_to_insert, Felt::zero()))));

    // INSERT (failure)
    assert_eq!(
        cursor.insert(key_to_insert, Felt::zero()),
        Err(StorageError::Write {
            table: BlockHashes::id().name(),
            cause: BackendError::KeyExists,
            key: key_to_insert.encode()
        })
    );
    assert_eq!(cursor.current(), Ok(Some((key_to_insert, Felt::zero()))));

    tx.commit().expect(ERROR_COMMIT);

    // Confirm the result
    let tx = db.tx().expect(ERROR_INIT_TX);
    let mut cursor = tx.cursor::<BlockHashes>().expect(ERROR_INIT_CURSOR);
    let res = cursor.walk(None).unwrap().map(|res| res.unwrap().0).collect::<Vec<_>>();
    assert_eq!(res, vec![0, 1, 2, 3, 4, 5]);
    tx.commit().expect(ERROR_COMMIT);
}

fn opened() -> DbEnv {
    DbEnv::open_reply(DbEnvKind::RW, Ok(())).unwrap()
}

fn address(n: u64) -> Felt {
    Felt::from_u64(n)
}

fn slot(key: u64, value: u64) -> StorageEntry {
    StorageEntry { key: Felt::from_u64(key), value: Felt::from_u64(value) }
}

#[test]
fn requests_carry_the_encoded_key_and_value() {
    let env = opened();
    let tx: Tx<RW> = env.tx_mut_reply(Ok(())).unwrap();
    assert_eq!(
        tx.get::<Headers>(1),
        TxRequest::Get { table: Tables::Headers, key: vec![0, 0, 0, 0, 0, 0, 0, 1] }
    );
    assert_eq!(
        tx.put::<BlockHashes>(2, Felt::from_u64(3)),
        TxRequest::Put {
            table: Tables::BlockHashes,
            key: 2u64.encode(),
            value: Felt::from_u64(3).encode(),
            mode: PutMode::Upsert,
        }
    );
    assert_eq!(tx.entries::<Headers>(), TxRequest::Entries { table: Tables::Headers });
    assert_eq!(tx.cursor::<BlockHashes>(), TxRequest::OpenCursor { table: Tables::BlockHashes });
    assert_eq!(tx.commit(), TxRequest::Commit);
}

#[test]
fn delete_names_a_value_only_in_a_table_with_duplicates() {
    let env = opened();
    let tx: Tx<RW> = env.tx_mut_reply(Ok(())).unwrap();
    assert_eq!(
        tx.delete::<Headers>(1, Some(Header::default())),
        TxRequest::Del { table: Tables::Headers, key: 1u64.encode(), only: None }
    );
    assert_eq!(
        tx.delete::<Headers>(1, None),
        TxRequest::Del { table: Tables::Headers, key: 1u64.encode(), only: None }
    );
    assert_eq!(
        tx.delete::<ContractStorage>(address(1), Some(slot(2, 3))),
        TxRequest::Del {
            table: Tables::ContractStorage,
            key: address(1).encode(),
            only: Some(slot(2, 3).encode()),
        }
    );
    assert_eq!(
        tx.delete::<ContractStorage>(address(1), None),
        TxRequest::Del { table: Tables::ContractStorage, key: address(1).encode(), only: None }
    );
}

#[test]
fn lookup_reads_each_reply() {
    let env = opened();
    let tx: Tx<RO> = env.tx_reply(Ok(())).unwrap();
    assert_eq!(tx.get_reply::<BlockHashes>(Ok(None)), Ok(None));
    assert_eq!(
        tx.get_reply::<BlockHashes>(Ok(Some(Felt::from_u64(7).encode()))),
        Ok(Some(Felt::from_u64(7)))
    );
    assert_eq!(
        tx.get_reply::<BlockHashes>(Err(BackendError::Corrupted)),
        Err(StorageError::Read(BackendError::Corrupted))
    );
    assert_eq!(
        tx.get_reply::<BlockHashes>(Ok(Some(vec![1, 2, 3]))),
        Err(StorageError::Decode(DecodeError::UnexpectedLength { expected: 32, actual: 3 }))
    );
    assert_eq!(
        tx.get_reply::<BlockStatusses>(Ok(Some(vec![9]))),
        Err(StorageError::Decode(DecodeError::InvalidContent))
    );
    assert_eq!(
        tx.get_reply::<BlockStatusses>(Ok(Some(vec![1]))),
        Ok(Some(FinalityStatus::AcceptedOnL1))
    );
}

#[test]
fn failures_are_named_after_the_operation() {
    let env = opened();
    let tx: Tx<RW> = env.tx_mut_reply(Ok(())).unwrap();
    assert_eq!(tx.entries_reply(Ok(3)), Ok(3));
    assert_eq!(
        tx.entries_reply(Err(BackendError::BadTxn)),
        Err(StorageError::Read(BackendError::BadTxn))
    );
    assert_eq!(
        tx.cursor_reply::<Headers>(Err(BackendError::NotFound)).unwrap_err(),
        StorageError::Read(BackendError::NotFound)
    );
    assert_eq!(Tx::<RW>::commit_reply(Ok(())), Ok(()));
    assert_eq!(
        Tx::<RW>::commit_reply(Err(BackendError::MapFull)),
        Err(StorageError::Commit(BackendError::MapFull))
    );
    assert_eq!(tx.put_reply::<Headers>(4, Ok(())), Ok(()));
    assert_eq!(
        tx.put_reply::<Headers>(4, Err(BackendError::MapFull)),
        Err(StorageError::Write {
            table: "Headers",
            key: vec![0, 0, 0, 0, 0, 0, 0, 4],
            cause: BackendError::MapFull,
        })
    );
    assert_eq!(tx.delete_reply::<Headers>(4, Ok(true)), Ok(true));
    assert_eq!(tx.delete_reply::<Headers>(4, Ok(false)), Ok(false));
    assert_eq!(
        tx.delete_reply::<ContractStorage>(address(1), Err(BackendError::BadTxn)),
        Err(StorageError::Write {
            table: "ContractStorage",
            key: address(1).encode(),
            cause: BackendError::BadTxn,
        })
    );
}

#[test]
fn cursor_requests() {
    let env = opened();
    let tx = env.tx_mut_reply(Ok(())).unwrap();
    let cursor: Cursor<RW, BlockHashes> = tx.cursor_reply(Ok(())).unwrap();
    assert_eq!(cursor.first(), CursorRequest::First);
    assert_eq!(cursor.last(), CursorRequest::Last);
    assert_eq!(cursor.next(), CursorRequest::Next);
    assert_eq!(cursor.prev(), CursorRequest::Prev);
    assert_eq!(cursor.current(), CursorRequest::Current);
    assert_eq!(cursor.seek(258), CursorRequest::Seek { key: vec![0, 0, 0, 0, 0, 0, 1, 2] });
    assert_eq!(cursor.walk(None), CursorRequest::First);
    assert_eq!(cursor.walk(Some(1)), CursorRequest::Seek { key: 1u64.encode() });
    assert_eq!(cursor.delete_current(), CursorRequest::DelCurrent);
    assert_eq!(
        cursor.insert(1, Felt::zero()),
        CursorRequest::Put {
            key: 1u64.encode(),
            value: vec![0; 32],
            mode: PutMode::NoOverwrite,
        }
    );
    assert_eq!(
        cursor.upsert(1, Felt::zero()),
        CursorRequest::Put { key: 1u64.encode(), value: vec![0; 32], mode: PutMode::Upsert }
    );
    let dups: Cursor<RW, ContractStorage> = tx.cursor_reply(Ok(())).unwrap();
    assert_eq!(
        dups.insert(address(1), slot(2, 3)),
        CursorRequest::Put {
            key: address(1).encode(),
            value: slot(2, 3).encode(),
            mode: PutMode::NoDupData,
        }
    );
    assert_eq!(
        dups.delete_current_reply(Err(BackendError::NotFound)),
        Err(StorageError::Write {
            table: "ContractStorage",
            key: Vec::new(),
            cause: BackendError::NotFound,
        })
    );
    assert_eq!(dups.delete_current_reply(Ok(())), Ok(()));
}

#[test]
fn cursor_reads_each_reply() {
    let env = opened();
    let tx = env.tx_reply(Ok(())).unwrap();
    let cursor: Cursor<RO, BlockHashes> = tx.cursor_reply(Ok(())).unwrap();
    assert_eq!(cursor.entry_reply(Ok(None)), Ok(None));
    assert_eq!(
        cursor.entry_reply(Ok(Some((3u64.encode(), Felt::from_u64(4).encode())))),
        Ok(Some((3, Felt::from_u64(4))))
    );
    assert_eq!(
        cursor.entry_reply(Err(BackendError::Corrupted)),
        Err(StorageError::Read(BackendError::Corrupted))
    );
    // A key that does not decode is reported before a value that does not.
    assert_eq!(
        cursor.entry_reply(Ok(Some((vec![1], vec![2])))),
        Err(StorageError::Decode(DecodeError::UnexpectedLength { expected: 8, actual: 1 }))
    );
    assert_eq!(
        cursor.entry_reply(Ok(Some((3u64.encode(), vec![2])))),
        Err(StorageError::Decode(DecodeError::UnexpectedLength { expected: 32, actual: 1 }))
    );
}

#[test]
fn put_overwrites_in_a_plain_table() {
    let env = create_test_db(DbEnvKind::RW);
    let tx = env.tx_mut().unwrap();
    tx.put::<BlockHashes>(1, Felt::from_u64(10)).unwrap();
    tx.put::<BlockHashes>(1, Felt::from_u64(11)).unwrap();
    tx.commit().unwrap();

    let tx = env.tx().unwrap();
    assert_eq!(tx.get::<BlockHashes>(1), Ok(Some(Felt::from_u64(11))));
    assert_eq!(tx.get::<BlockHashes>(2), Ok(None));
    assert_eq!(tx.entries::<BlockHashes>(), Ok(1));
}

#[test]
fn delete_takes_one_entry() {
    let env = create_test_db(DbEnvKind::RW);
    let tx = env.tx_mut().unwrap();
    tx.put::<BlockHashes>(1, Felt::from_u64(10)).unwrap();
    tx.put::<BlockHashes>(2, Felt::from_u64(20)).unwrap();
    tx.commit().unwrap();
    let before = env.tx().unwrap().entries::<BlockHashes>().unwrap();

    let tx = env.tx_mut().unwrap();
    assert_eq!(tx.delete::<BlockHashes>(1, None), Ok(true));
    assert_eq!(tx.delete::<BlockHashes>(1, None), Ok(false));
    tx.commit().unwrap();

    let tx = env.tx().unwrap();
    assert_eq!(tx.get::<BlockHashes>(1), Ok(None));
    assert_eq!(tx.get::<BlockHashes>(2), Ok(Some(Felt::from_u64(20))));
    assert_eq!(tx.entries::<BlockHashes>().unwrap(), before - 1);
}

#[test]
fn uncommitted_writes_are_dropped() {
    let env = create_test_db(DbEnvKind::RW);
    {
        let tx = env.tx_mut().unwrap();
        tx.put::<BlockHashes>(1, Felt::zero()).unwrap();
    }
    assert_eq!(env.tx().unwrap().get::<BlockHashes>(1), Ok(None));
}

#[test]
fn cursor_moves_in_key_order() {
    let env = create_test_db(DbEnvKind::RW);
    let tx = env.tx_mut().unwrap();
    // Keys whose little-endian bytes would sort otherwise.
    for key in [256u64, 1, 65536, 2, 255] {
        tx.put::<BlockHashes>(key, Felt::from_u64(key)).unwrap();
    }
    tx.commit().unwrap();

    let tx = env.tx().unwrap();
    let mut cursor = tx.cursor::<BlockHashes>().unwrap();
    assert_eq!(cursor.first(), Ok(Some((1, Felt::from_u64(1)))));
    assert_eq!(cursor.next(), Ok(Some((2, Felt::from_u64(2)))));
    assert_eq!(cursor.next(), Ok(Some((255, Felt::from_u64(255)))));
    assert_eq!(cursor.current(), Ok(Some((255, Felt::from_u64(255)))));
    assert_eq!(cursor.prev(), Ok(Some((2, Felt::from_u64(2)))));
    assert_eq!(cursor.last(), Ok(Some((65536, Felt::from_u64(65536)))));
    assert_eq!(cursor.next(), Ok(None));
    assert_eq!(cursor.seek(3), Ok(Some((255, Felt::from_u64(255)))));
    assert_eq!(cursor.seek(256), Ok(Some((256, Felt::from_u64(256)))));
    assert_eq!(cursor.seek(65537), Ok(None));

    let keys = cursor.walk(Some(200)).unwrap().map(|r| r.unwrap().0).collect::<Vec<_>>();
    assert_eq!(keys, vec![255, 256, 65536]);
    let keys = cursor.walk(None).unwrap().map(|r| r.unwrap().0).collect::<Vec<_>>();
    assert_eq!(keys, vec![1, 2, 255, 256, 65536]);
    let keys = cursor.walk(Some(70000)).unwrap().map(|r| r.unwrap().0).collect::<Vec<_>>();
    assert_eq!(keys, Vec::<u64>::new());
}

#[test]
fn walk_yields_three_entries_then_ends() {
    let env = create_test_db(DbEnvKind::RW);
    let tx = env.tx_mut().unwrap();
    for key in [3u64, 1, 2] {
        tx.put::<BlockHashes>(key, Felt::from_u64(key * 10)).unwrap();
    }
    tx.commit().unwrap();

    let tx = env.tx().unwrap();
    let mut cursor = tx.cursor::<BlockHashes>().unwrap();
    let mut walker = cursor.walk(None).unwrap();
    assert_eq!(walker.next(), Some(Ok((1, Felt::from_u64(10)))));
    assert_eq!(walker.next(), Some(Ok((2, Felt::from_u64(20)))));
    assert_eq!(walker.next(), Some(Ok((3, Felt::from_u64(30)))));
    assert_eq!(walker.next(), None);
    assert_eq!(walker.next(), None);
}

#[test]
fn walk_in_a_table_with_duplicates() {
    let env = create_test_db(DbEnvKind::RW);
    let zero = StorageEntry { key: Felt::zero(), value: Felt::zero() };
    let tx = env.tx_mut().unwrap();
    for key in 0..3 {
        tx.put::<ContractStorage>(address(key), zero).unwrap();
    }
    tx.commit().unwrap();

    let tx = env.tx().unwrap();
    let mut cursor = tx.cursor::<ContractStorage>().unwrap();
    let mut walker = TestWalker::new(&mut cursor, None);
    assert_eq!(walker.next(), Some(Ok((address(0), zero))));
    assert_eq!(walker.next(), Some(Ok((address(1), zero))));
    assert_eq!(walker.next(), Some(Ok((address(2), zero))));
    assert_eq!(walker.next(), None);
}

#[test]
fn duplicates_of_a_key_come_in_their_own_order() {
    let env = create_test_db(DbEnvKind::RW);
    let tx = env.tx_mut().unwrap();
    tx.put::<ContractStorage>(address(1), slot(5, 50)).unwrap();
    tx.put::<ContractStorage>(address(1), slot(2, 20)).unwrap();
    tx.put::<ContractStorage>(address(0), slot(9, 90)).unwrap();
    tx.put::<ContractStorage>(address(1), slot(2, 20)).unwrap();
    assert_eq!(tx.entries::<ContractStorage>(), Ok(3));

    let mut cursor = tx.cursor::<ContractStorage>().unwrap();
    let all = cursor.walk(None).unwrap().map(|r| r.unwrap()).collect::<Vec<_>>();
    assert_eq!(
        all,
        vec![(address(0), slot(9, 90)), (address(1), slot(2, 20)), (address(1), slot(5, 50))]
    );
    assert_eq!(cursor.insert(address(1), slot(3, 30)), Ok(()));
    assert_eq!(
        cursor.insert(address(1), slot(3, 30)),
        Err(StorageError::Write {
            table: "ContractStorage",
            key: address(1).encode(),
            cause: BackendError::KeyExists,
        })
    );

    assert_eq!(tx.delete::<ContractStorage>(address(1), Some(slot(2, 20))), Ok(true));
    assert_eq!(tx.entries::<ContractStorage>(), Ok(3));
    assert_eq!(tx.delete::<ContractStorage>(address(1), None), Ok(true));
    assert_eq!(tx.entries::<ContractStorage>(), Ok(1));
    assert_eq!(tx.get::<ContractStorage>(address(0)), Ok(Some(slot(9, 90))));
}

#[test]
fn upsert_through_a_cursor_replaces() {
    let env = create_test_db(DbEnvKind::RW);
    let tx = env.tx_mut().unwrap();
    let mut cursor = tx.cursor::<BlockHashes>().unwrap();
    assert_eq!(cursor.insert(5, Felt::from_u64(1)), Ok(()));
    assert_eq!(cursor.upsert(5, Felt::from_u64(2)), Ok(()));
    assert_eq!(cursor.current(), Ok(Some((5, Felt::from_u64(2)))));
    assert_eq!(tx.entries::<BlockHashes>(), Ok(1));
}

#[test]
fn walker_hands_out_its_start_first() {
    let mut walker: Walker<u64, Felt> = Walker::new(Some(Ok((7, Felt::zero()))));
    assert!(!walker.is_done());
    match walker.next() {
        WalkerStep::Yield(item) => assert_eq!(item, Some(Ok((7, Felt::zero())))),
        WalkerStep::Ask(request) => panic!("asked {:?} before the start was handed out", request),
    }
    match walker.next() {
        WalkerStep::Ask(request) => assert_eq!(request, CursorRequest::Next),
        WalkerStep::Yield(item) => panic!("yielded {:?} without asking", item),
    }
    assert_eq!(
        walker.next_reply(Ok(Some((8u64.encode(), Felt::zero().encode())))),
        Some(Ok((8, Felt::zero())))
    );
    assert!(!walker.is_done());
    assert_eq!(walker.next_reply(Ok(None)), None);
    assert!(walker.is_done());
}

#[test]
fn walker_stays_ended() {
    let mut walker: Walker<u64, Felt> = Walker::begin(Ok(None)).unwrap();
    assert!(walker.is_done());
    for _ in 0..3 {
        match walker.next() {
            WalkerStep::Yield(item) => assert_eq!(item, None),
            WalkerStep::Ask(request) => panic!("an ended walk asked {:?}", request),
        }
    }
    assert_eq!(walker.next_reply(Ok(Some((8u64.encode(), Felt::zero().encode())))), None);
    assert!(walker.is_done());
}

#[test]
fn walker_ends_at_an_error() {
    let mut walker: Walker<u64, Felt> = Walker::new(None);
    assert_eq!(
        walker.next_reply(Ok(Some((vec![1, 2], Felt::zero().encode())))),
        Some(Err(StorageError::Decode(DecodeError::UnexpectedLength { expected: 8, actual: 2 })))
    );
    assert!(walker.is_done());
    match walker.next() {
        WalkerStep::Yield(item) => assert_eq!(item, None),
        WalkerStep::Ask(request) => panic!("an ended walk asked {:?}", request),
    }

    let mut walker: Walker<u64, Felt> = Walker::new(None);
    assert_eq!(
        walker.next_reply(Err(BackendError::Corrupted)),
        Some(Err(StorageError::Read(BackendError::Corrupted)))
    );
    assert!(walker.is_done());

    // A start that failed to decode is the walk's one item.
    let mut walker: Walker<u64, Felt> =
        Walker::begin(Ok(Some((vec![0; 8], vec![0; 3])))).unwrap();
    match walker.next() {
        WalkerStep::Yield(item) => assert_eq!(
            item,
            Some(Err(StorageError::Decode(DecodeError::UnexpectedLength {
                expected: 32,
                actual: 3
            })))
        ),
        WalkerStep::Ask(request) => panic!("asked {:?}", request),
    }
    assert!(walker.is_done());
}

#[test]
fn walk_fails_where_the_seek_fails() {
    let r: Result<Walker<u64, Felt>, StorageError> = Walker::begin(Err(BackendError::BadTxn));
    assert_eq!(r.unwrap_err(), StorageError::Read(BackendError::BadTxn));
    let env = opened();
    let tx = env.tx_reply(Ok(())).unwrap();
    let cursor: Cursor<RO, BlockHashes> = tx.cursor_reply(Ok(())).unwrap();
    assert_eq!(
        cursor.walk_reply(Err(BackendError::BadTxn)).unwrap_err(),
        StorageError::Read(BackendError::BadTxn)
    );
}

#[test]
fn environment_modes() {
    assert_eq!(DbEnv::open(DbEnvKind::RO, 4096).mode, Mode::ReadOnly);
    assert_eq!(
        DbEnv::open(DbEnvKind::RW, 4096).mode,
        Mode::ReadWrite { sync_mode: SyncMode::Durable }
    );
    assert_eq!(default_page_size(4096), 4096);
    let env = TestEnv::open(DbEnvKind::RW).unwrap();
    let (state, request): (CreateTables, EnvRequest) = env.env.create_tables();
    assert_eq!(state.step(), 0);
    assert_eq!(request, EnvRequest::BeginRw);
    // Before the tables are declared the store knows none of them.
    assert_eq!(
        env.tx().unwrap().entries::<Headers>(),
        Err(StorageError::Read(BackendError::NotFound))
    );
}
