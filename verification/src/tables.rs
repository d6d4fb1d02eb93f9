//! The table registry: which tables exist, what each holds and of which kind it is.

use crate::codecs::Decode;
use crate::primitives::{
    BlockEnv, BlockHash, BlockNumber, ContractAddress, FinalityStatus, Header, StorageEntry,
};
use vstd::prelude::*;

verus! {

/// The kind of a table.
#[derive(Debug, Clone, Copy, PartialEq, Eq, Structural)]
pub enum TableType {
    /// One value for each key.
    Table,
    /// Several distinct values for each key, kept in their own order.
    DupSort,
}

/// The number of tables in the registry.
pub const NUM_TABLES: usize = 6;

/// Every table of the database.
#[derive(Debug, Clone, Copy, PartialEq, Eq, Structural, Hash)]
pub enum Tables {
    Headers,
    BlockHashes,
    BlockNumbers,
    BlockStatusses,
    BlockEnvs,
    ContractStorage,
}

impl Tables {
    /// The registry, in the order in which the tables are declared.
    pub open spec fn spec_all() -> Seq<Tables> {
        seq![
            Tables::Headers,
            Tables::BlockHashes,
            Tables::BlockNumbers,
            Tables::BlockStatusses,
            Tables::BlockEnvs,
            Tables::ContractStorage,
        ]
    }

    /// The table's place in the registry.
    pub open spec fn spec_index(self) -> int {
        match self {
            Tables::Headers => 0,
            Tables::BlockHashes => 1,
            Tables::BlockNumbers => 2,
            Tables::BlockStatusses => 3,
            Tables::BlockEnvs => 4,
            Tables::ContractStorage => 5,
        }
    }

    pub open spec fn spec_name(self) -> Seq<char> {
        match self {
            Tables::Headers => "Headers"@,
            Tables::BlockHashes => "BlockHashes"@,
            Tables::BlockNumbers => "BlockNumbers"@,
            Tables::BlockStatusses => "BlockStatusses"@,
            Tables::BlockEnvs => "BlockEnvs"@,
            Tables::ContractStorage => "ContractStorage"@,
        }
    }

    pub open spec fn spec_table_type(self) -> TableType {
        match self {
            Tables::ContractStorage => TableType::DupSort,
            _ => TableType::Table,
        }
    }

    /// All tables, each once, in the order of the registry.
    pub fn all() -> (tables: Vec<Tables>)
        ensures
            tables@ == Self::spec_all(),
            tables@.len() == NUM_TABLES,
    {
        let mut tables: Vec<Tables> = Vec::new();
        tables.push(Tables::Headers);
        tables.push(Tables::BlockHashes);
        tables.push(Tables::BlockNumbers);
        tables.push(Tables::BlockStatusses);
        tables.push(Tables::BlockEnvs);
        tables.push(Tables::ContractStorage);
        assert(tables@ =~= Self::spec_all());
        tables
    }

    /// The table's place in the registry.
    pub fn index(&self) -> (i: usize)
        ensures
            i == self.spec_index(),
            i < NUM_TABLES,
    {
        match self {
            Tables::Headers => 0,
            Tables::BlockHashes => 1,
            Tables::BlockNumbers => 2,
            Tables::BlockStatusses => 3,
            Tables::BlockEnvs => 4,
            Tables::ContractStorage => 5,
        }
    }

    /// The name under which the backend knows the table.
    pub fn name(&self) -> (n: &'static str)
        ensures
            n@ == self.spec_name(),
    {
        match self {
            Tables::Headers => "Headers",
            Tables::BlockHashes => "BlockHashes",
            Tables::BlockNumbers => "BlockNumbers",
            Tables::BlockStatusses => "BlockStatusses",
            Tables::BlockEnvs => "BlockEnvs",
            Tables::ContractStorage => "ContractStorage",
        }
    }

    pub fn table_type(&self) -> (t: TableType)
        ensures
            t == self.spec_table_type(),
    {
        match self {
            Tables::ContractStorage => TableType::DupSort,
            _ => TableType::Table,
        }
    }

    /// Every table stands in the registry, at its index and nowhere else.
    pub proof fn lemma_registry_complete(t: Tables)
        ensures
            0 <= t.spec_index() < Self::spec_all().len(),
            Self::spec_all()[t.spec_index()] == t,
            forall|i: int|
                0 <= i < Self::spec_all().len() && Self::spec_all()[i] == t ==> i
                    == t.spec_index(),
    {
    }

    /// No two tables share a name.
    pub proof fn lemma_names_distinct(a: Tables, b: Tables)
        requires
            a.spec_name() == b.spec_name(),
        ensures
            a == b,
    {
        reveal_strlit("Headers");
        reveal_strlit("BlockHashes");
        reveal_strlit("BlockNumbers");
        reveal_strlit("BlockStatusses");
        reveal_strlit("BlockEnvs");
        reveal_strlit("ContractStorage");
        // The six names have six different lengths.
        assert("Headers"@.len() == 7);
        assert("BlockHashes"@.len() == 11);
        assert("BlockNumbers"@.len() == 12);
        assert("BlockStatusses"@.len() == 14);
        assert("BlockEnvs"@.len() == 9);
        assert("ContractStorage"@.len() == 15);
    }
}

/// A table as a type: what its keys and values are, and which entry of the
/// registry it is.
pub trait Table {
    type Key: Decode;

    type Value: Decode;

    spec fn table() -> Tables;

    fn id() -> (t: Tables)
        ensures
            t == Self::table(),
    ;
}

/// Block headers by block number.
#[derive(Debug)]
pub struct Headers;

/// Block hashes by block number.
#[derive(Debug)]
pub struct BlockHashes;

/// Block numbers by block hash.
#[derive(Debug)]
pub struct BlockNumbers;

/// The finality of each block, by block number.
#[derive(Debug)]
pub struct BlockStatusses;

/// Block environment values by block number.
#[derive(Debug)]
pub struct BlockEnvs;

/// The storage slots of each contract.
#[derive(Debug)]
pub struct ContractStorage;

impl Table for Headers {
    type Key = BlockNumber;

    type Value = Header;

    open spec fn table() -> Tables {
        Tables::Headers
    }

    fn id() -> (t: Tables) {
        Tables::Headers
    }
}

impl Table for BlockHashes {
    type Key = BlockNumber;

    type Value = BlockHash;

    open spec fn table() -> Tables {
        Tables::BlockHashes
    }

    fn id() -> (t: Tables) {
        Tables::BlockHashes
    }
}

impl Table for BlockNumbers {
    type Key = BlockHash;

    type Value = BlockNumber;

    open spec fn table() -> Tables {
        Tables::BlockNumbers
    }

    fn id() -> (t: Tables) {
        Tables::BlockNumbers
    }
}

impl Table for BlockStatusses {
    type Key = BlockNumber;

    type Value = FinalityStatus;

    open spec fn table() -> Tables {
        Tables::BlockStatusses
    }

    fn id() -> (t: Tables) {
        Tables::BlockStatusses
    }
}

impl Table for BlockEnvs {
    type Key = BlockNumber;

    type Value = BlockEnv;

    open spec fn table() -> Tables {
        Tables::BlockEnvs
    }

    fn id() -> (t: Tables) {
        Tables::BlockEnvs
    }
}

impl Table for ContractStorage {
    type Key = ContractAddress;

    type Value = StorageEntry;

    open spec fn table() -> Tables {
        Tables::ContractStorage
    }

    fn id() -> (t: Tables) {
        Tables::ContractStorage
    }
}

} // verus!
