//! The environment: how it is opened and how its tables are declared.

pub mod cursor;
pub mod tx;

use crate::backend::EnvRequest;
use crate::error::{BackendError, StorageError};
use crate::mdbx::tx::{Tx, RO, RW};
use crate::tables::{TableType, Tables, NUM_TABLES};
use vstd::prelude::*;

verus! {

pub const GIGABYTE: u64 = 1024 * 1024 * 1024;

pub const TERABYTE: u64 = GIGABYTE * 1024;

/// The backend allows up to 32767 readers; the environment stays slightly below that.
pub const DEFAULT_MAX_READERS: u64 = 32_000;

/// The smallest page that the backend is given.
pub const MIN_PAGE_SIZE: usize = 4096;

/// The largest page that the backend takes.
pub const MAX_PAGE_SIZE: usize = 0x10000;

/// How an environment is opened.
#[derive(Debug, Clone, Copy, PartialEq, Eq, Structural)]
pub enum DbEnvKind {
    /// Read-only environment.
    RO,
    /// Read-write environment.
    RW,
}

/// When the backend flushes what was committed.
#[derive(Debug, Clone, Copy, PartialEq, Eq, Structural)]
pub enum SyncMode {
    /// Every commit is on disk when it returns.
    Durable,
    /// The meta page is flushed later.
    NoMetaSync,
    /// Flushing is left to the system; a crash may lose the last commits.
    SafeNoSync,
    /// Nothing is flushed; a crash may damage the store.
    UtterlyNoSync,
}

/// The access that the backend is asked for.
#[derive(Debug, Clone, Copy, PartialEq, Eq, Structural)]
pub enum Mode {
    ReadOnly,
    ReadWrite { sync_mode: SyncMode },
}

/// Everything that the backend is told when an environment is opened.
#[derive(Debug, Clone, Copy, PartialEq, Eq, Structural)]
pub struct EnvOptions {
    pub mode: Mode,
    /// How many named tables the environment can hold.
    pub max_tables: usize,
    /// The address space that is reserved, in bytes.
    pub max_size: u64,
    /// The step by which the store grows, in bytes.
    pub growth_step: u64,
    /// The free space above which the store shrinks; `None`: it never does.
    pub shrink_threshold: Option<u64>,
    pub page_size: usize,
    /// No read-ahead: it helps linear scans and hurts random access.
    pub no_rdahead: bool,
    pub coalesce: bool,
    pub max_readers: u64,
}

/// The page size that the environment uses on a system whose pages have
/// `os_page_size` bytes: the system's, as far as the backend can take it.
pub open spec fn spec_default_page_size(os_page_size: usize) -> usize {
    if os_page_size < MIN_PAGE_SIZE {
        MIN_PAGE_SIZE
    } else if os_page_size > MAX_PAGE_SIZE {
        MAX_PAGE_SIZE
    } else {
        os_page_size
    }
}

pub fn default_page_size(os_page_size: usize) -> (size: usize)
    ensures
        size == spec_default_page_size(os_page_size),
        MIN_PAGE_SIZE <= size <= MAX_PAGE_SIZE,
{
    if os_page_size < MIN_PAGE_SIZE {
        MIN_PAGE_SIZE
    } else if os_page_size > MAX_PAGE_SIZE {
        MAX_PAGE_SIZE
    } else {
        os_page_size
    }
}

/// An open environment.
#[derive(Debug)]
pub struct DbEnv {
    kind: DbEnvKind,
}

impl DbEnv {
    pub open spec fn spec_mode(kind: DbEnvKind) -> Mode {
        match kind {
            DbEnvKind::RO => Mode::ReadOnly,
            DbEnvKind::RW => Mode::ReadWrite { sync_mode: SyncMode::Durable },
        }
    }

    /// The options with which an environment of the given kind is opened.
    pub open spec fn spec_open(kind: DbEnvKind, os_page_size: usize) -> EnvOptions {
        EnvOptions {
            mode: Self::spec_mode(kind),
            max_tables: NUM_TABLES,
            max_size: TERABYTE,
            growth_step: (4 * GIGABYTE) as u64,
            shrink_threshold: None,
            page_size: spec_default_page_size(os_page_size),
            no_rdahead: true,
            coalesce: true,
            max_readers: DEFAULT_MAX_READERS,
        }
    }

    pub closed spec fn spec_kind(&self) -> DbEnvKind {
        self.kind
    }

    /// What the backend is told to open an environment of the given kind.
    ///
    /// It does not create the tables, for that see [`DbEnv::create_tables`].
    pub fn open(kind: DbEnvKind, os_page_size: usize) -> (options: EnvOptions)
        ensures
            options == Self::spec_open(kind, os_page_size),
    {
        let mode = match kind {
            DbEnvKind::RO => Mode::ReadOnly,
            DbEnvKind::RW => Mode::ReadWrite { sync_mode: SyncMode::Durable },
        };
        EnvOptions {
            mode,
            max_tables: NUM_TABLES,
            // Maximum database size of 1 terabyte
            max_size: TERABYTE,
            // The database grows in increments of 4 gigabytes
            growth_step: 4 * GIGABYTE,
            // The database never shrinks
            shrink_threshold: None,
            page_size: default_page_size(os_page_size),
            no_rdahead: true,
            coalesce: true,
            max_readers: DEFAULT_MAX_READERS,
        }
    }

    /// Reads the backend's reply to the opening: the environment, or `OpenEnv`
    /// with the backend's error.
    pub fn open_reply(kind: DbEnvKind, reply: Result<(), BackendError>) -> (r: Result<
        DbEnv,
        StorageError,
    >)
        ensures
            match reply {
                Ok(_) => r.is_ok() && r.unwrap().spec_kind() == kind,
                Err(e) => r.is_err() && r.unwrap_err() == StorageError::OpenEnv(e),
            },
    {
        match reply {
            Ok(_) => Ok(DbEnv { kind }),
            Err(e) => Err(StorageError::OpenEnv(e)),
        }
    }

    pub fn kind(&self) -> (kind: DbEnvKind)
        ensures
            kind == self.spec_kind(),
    {
        self.kind
    }
}

/// The declaration of all tables, as far as it has come: the number of the
/// request whose reply is awaited.
///
/// The requests are, in this order: begin a read-write transaction; declare
/// each table of the registry; commit.
#[derive(Debug)]
pub struct CreateTables {
    step: usize,
}

/// How the declaration of the tables goes on after a reply.
#[derive(Debug)]
pub enum CreateTablesStep {
    /// The backend is to perform the request, and its reply is handed to the state.
    Ask(CreateTables, EnvRequest),
    /// The declaration has ended, with this result.
    Done(Result<(), StorageError>),
}

impl CreateTables {
    #[verifier::type_invariant]
    spec fn in_plan(&self) -> bool {
        self.step <= NUM_TABLES + 1
    }

    /// The number of the request whose reply is awaited.
    pub closed spec fn spec_step(&self) -> int {
        self.step as int
    }

    /// The `i`-th request of the declaration.
    pub open spec fn spec_request(i: int) -> EnvRequest {
        if i <= 0 {
            EnvRequest::BeginRw
        } else if i <= NUM_TABLES {
            EnvRequest::CreateTable {
                table: Tables::spec_all()[i - 1],
                dup_sort: Tables::spec_all()[i - 1].spec_table_type() == TableType::DupSort,
            }
        } else {
            EnvRequest::Commit
        }
    }

    /// The error with which the declaration ends when the `i`-th request fails.
    pub open spec fn spec_failure(i: int, cause: BackendError) -> StorageError {
        if i <= 0 {
            StorageError::CreateRWTx(cause)
        } else if i <= NUM_TABLES {
            StorageError::CreateTable(cause)
        } else {
            StorageError::Commit(cause)
        }
    }

    /// The number of the request whose reply is awaited.
    pub fn step(&self) -> (i: usize)
        ensures
            i == self.spec_step(),
            i <= NUM_TABLES + 1,
    {
        proof {
            use_type_invariant(self);
        }
        self.step
    }

    /// Takes the backend's reply to the awaited request.
    ///
    /// A failure ends the declaration with the error of the request that
    /// failed. After a success the next request is asked, and after the
    /// commit's success the declaration ends well.
    pub fn resume(self, reply: Result<(), BackendError>) -> (next: CreateTablesStep)
        ensures
            0 <= self.spec_step() <= NUM_TABLES + 1,
            match reply {
                Err(cause) => next == CreateTablesStep::Done(
                    Err(Self::spec_failure(self.spec_step(), cause)),
                ),
                Ok(_) => if self.spec_step() == NUM_TABLES + 1 {
                    next == CreateTablesStep::Done(Ok(()))
                } else {
                    next matches CreateTablesStep::Ask(state, request) && state.spec_step()
                        == self.spec_step() + 1 && request == Self::spec_request(
                        self.spec_step() + 1,
                    )
                },
            },
    {
        proof {
            use_type_invariant(&self);
        }
        let i = self.step;
        match reply {
            Err(cause) => {
                let error = if i == 0 {
                    StorageError::CreateRWTx(cause)
                } else if i <= NUM_TABLES {
                    StorageError::CreateTable(cause)
                } else {
                    StorageError::Commit(cause)
                };
                CreateTablesStep::Done(Err(error))
            },
            Ok(_) => {
                if i == NUM_TABLES + 1 {
                    CreateTablesStep::Done(Ok(()))
                } else if i == NUM_TABLES {
                    CreateTablesStep::Ask(CreateTables { step: i + 1 }, EnvRequest::Commit)
                } else {
                    let tables = Tables::all();
                    let table = tables[i];
                    let dup_sort = match table.table_type() {
                        TableType::Table => false,
                        TableType::DupSort => true,
                    };
                    CreateTablesStep::Ask(
                        CreateTables { step: i + 1 },
                        EnvRequest::CreateTable { table, dup_sort },
                    )
                }
            },
        }
    }
}

/// Every table is declared once, with the flags of its kind: the request
/// after the table's place in the registry declares it, as a table with
/// duplicates exactly when it is one, and no other request declares it.
pub proof fn lemma_each_table_is_declared_once(table: Tables)
    ensures
        1 <= table.spec_index() + 1 <= NUM_TABLES,
        CreateTables::spec_request(table.spec_index() + 1) == (EnvRequest::CreateTable {
            table,
            dup_sort: table.spec_table_type() == TableType::DupSort,
        }),
        forall|i: int, dup_sort: bool|
            CreateTables::spec_request(i) == (EnvRequest::CreateTable { table, dup_sort }) ==> i
                == table.spec_index() + 1,
{
    Tables::lemma_registry_complete(table);
    assert forall|i: int, dup_sort: bool|
        CreateTables::spec_request(i) == (EnvRequest::CreateTable {
            table,
            dup_sort,
        }) implies i == table.spec_index() + 1 by {
        if 1 <= i <= NUM_TABLES {
            assert(Tables::spec_all()[i - 1] == table);
        }
    }
}

impl DbEnv {
    /// Starts the declaration of all tables of the registry, those that exist
    /// already included: the first request, and the state that takes its reply.
    pub fn create_tables(&self) -> (start: (CreateTables, EnvRequest))
        ensures
            start.0.spec_step() == 0,
            start.1 == CreateTables::spec_request(0),
    {
        (CreateTables { step: 0 }, EnvRequest::BeginRw)
    }
}

impl DbEnv {
    /// Asks to begin a read-only transaction.
    pub fn tx(&self) -> (request: EnvRequest)
        ensures
            request == EnvRequest::BeginRo,
    {
        EnvRequest::BeginRo
    }

    /// Reads the backend's reply to the beginning of a read-only
    /// transaction: the transaction, or `CreateROTx` with the backend's error.
    pub fn tx_reply(&self, reply: Result<(), BackendError>) -> (r: Result<
        Tx<'_, RO>,
        StorageError,
    >)
        ensures
            match reply {
                Ok(_) => r.is_ok(),
                Err(e) => r matches Err(error) && error == StorageError::CreateROTx(e),
            },
    {
        match reply {
            Ok(_) => Ok(Tx::new()),
            Err(e) => Err(StorageError::CreateROTx(e)),
        }
    }

    /// Asks to begin a read-write transaction.
    pub fn tx_mut(&self) -> (request: EnvRequest)
        ensures
            request == EnvRequest::BeginRw,
    {
        EnvRequest::BeginRw
    }

    /// Reads the backend's reply to the beginning of a read-write
    /// transaction: the transaction, or `CreateRWTx` with the backend's error.
    pub fn tx_mut_reply(&self, reply: Result<(), BackendError>) -> (r: Result<
        Tx<'_, RW>,
        StorageError,
    >)
        ensures
            match reply {
                Ok(_) => r.is_ok(),
                Err(e) => r matches Err(error) && error == StorageError::CreateRWTx(e),
            },
    {
        match reply {
            Ok(_) => Ok(Tx::new()),
            Err(e) => Err(StorageError::CreateRWTx(e)),
        }
    }
}

} // verus!
