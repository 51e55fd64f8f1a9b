//! The backend facade: one shared engine, one store handle per concern.
//!
//! Opening the backend is the single entry point; every other access goes
//! through the accessor handles, which all act on the one engine the
//! backend owns. Two embedded engine kinds are supported — a log-structured
//! merge-tree style one and a paged/transactional style one — chosen by the
//! configured selector; an automatic mode resolves both candidate paths and
//! leaves the choice to whichever already exists on disk. The engine
//! contents themselves are modelled by [`MemEngine`]; reading and writing a
//! physical disk engine is the embedding application's work, which loads
//! the contents at startup ([`Backend::open_from`]) and persists what
//! [`Backend::close`] hands back.

use crate::bonsai_db::{BonsaiDb, BonsaiDbs};
use crate::columns::TrieColumn;
use crate::da_db::DaDb;
use crate::engine::MemEngine;
use crate::error::DbError;
use crate::l1_handler_tx_fee::L1HandlerTxFeeDb;
use crate::mapping_db::MappingDb;
use crate::messaging_db::MessagingDb;
use crate::meta_db::MetaDb;
use crate::sierra_classes_db::SierraClassesDb;
use crate::types::StarkHash;
use vstd::prelude::*;
use vstd::string::StringExecFns;

verus! {

/// The configured engine selector. Any kind other than the two supported
/// engines and the automatic mode fails opening with
/// [`DbError::UnsupportedBackend`].
pub enum DatabaseSource {
    /// The log-structured merge-tree style engine.
    RocksDb { path: String, cache_size: usize },
    /// The paged/transactional style engine.
    ParityDb { path: String },
    /// Pick whichever engine already exists on disk, with a default
    /// otherwise.
    Auto { rocksdb_path: String, paritydb_path: String, cache_size: usize },
    /// An engine kind this backend does not support.
    Custom,
}

/// The resolved settings the backend is opened with.
pub struct DatabaseSettings {
    /// Where to find the database.
    pub source: DatabaseSource,
}

/// Returns the chain's database directory under the configuration
/// directory: `<db_config_dir>/starknet/<db_path>`.
pub fn starknet_database_dir(db_config_dir: &str, db_path: &str) -> (r: String)
    ensures
        r@ == db_config_dir@ + "/starknet/"@ + db_path@,
{
    let mut r = String::from_str(db_config_dir);
    r.append("/starknet/");
    r.append(db_path);
    r
}

/// Resolve the configured selector against the configuration directory:
/// each supported kind keeps its kind with the conventional path filled in;
/// an unsupported kind is refused.
pub fn resolve_database_source(database: &DatabaseSource, db_config_dir: &str) -> (r: Result<
    DatabaseSettings,
    DbError,
>)
    ensures
        match *database {
            DatabaseSource::RocksDb { .. } => r matches Ok(s) && s.source matches
                DatabaseSource::RocksDb { path, cache_size } && path@ == db_config_dir@
                + "/starknet/"@ + "rocksdb"@ && cache_size == 0,
            DatabaseSource::ParityDb { .. } => r matches Ok(s) && s.source matches
                DatabaseSource::ParityDb { path } && path@ == db_config_dir@ + "/starknet/"@
                + "paritydb"@,
            DatabaseSource::Auto { .. } => r matches Ok(s) && s.source matches
                DatabaseSource::Auto { rocksdb_path, paritydb_path, cache_size } && rocksdb_path@
                == db_config_dir@ + "/starknet/"@ + "rocksdb"@ && paritydb_path@ == db_config_dir@
                + "/starknet/"@ + "paritydb"@ && cache_size == 0,
            DatabaseSource::Custom => r matches Err(e) && e == DbError::UnsupportedBackend,
        },
{
    match database {
        DatabaseSource::RocksDb { .. } => Ok(
            DatabaseSettings {
                source: DatabaseSource::RocksDb {
                    path: starknet_database_dir(db_config_dir, "rocksdb"),
                    cache_size: 0,
                },
            },
        ),
        DatabaseSource::ParityDb { .. } => Ok(
            DatabaseSettings {
                source: DatabaseSource::ParityDb {
                    path: starknet_database_dir(db_config_dir, "paritydb"),
                },
            },
        ),
        DatabaseSource::Auto { .. } => Ok(
            DatabaseSettings {
                source: DatabaseSource::Auto {
                    rocksdb_path: starknet_database_dir(db_config_dir, "rocksdb"),
                    paritydb_path: starknet_database_dir(db_config_dir, "paritydb"),
                    cache_size: 0,
                },
            },
        ),
        DatabaseSource::Custom => Err(DbError::UnsupportedBackend),
    }
}

/// The client database backend.
///
/// Owns the one shared engine and a handle per store: `mapping` indexes the
/// chain's blocks inside the outer layer's, `meta` tracks the chain state,
/// `da` stages data-availability facts, `messaging` keeps the L1 cursor,
/// `sierra_classes` caches compiled classes, `l1_handler_paid_fee` dedups
/// L1 fees, and `bonsai` carries the raw trie columns.
pub struct Backend {
    pub engine: MemEngine,
    pub mapping: MappingDb,
    pub meta: MetaDb,
    pub da: DaDb,
    pub messaging: MessagingDb,
    pub sierra_classes: SierraClassesDb,
    pub l1_handler_paid_fee: L1HandlerTxFeeDb,
    pub bonsai: BonsaiDbs,
}

impl Backend {
    /// The engine is consistent and each trie handle stands on its own
    /// domain.
    pub open spec fn wf(&self) -> bool {
        &&& self.engine.wf()
        &&& self.bonsai.contract.current_column == TrieColumn::Contract
        &&& self.bonsai.class.current_column == TrieColumn::Class
        &&& self.bonsai.storage.current_column == TrieColumn::Storage
    }

    /// Open the backend with empty engine contents.
    ///
    /// Succeeds exactly when the selector is one of the supported kinds;
    /// the conventional directory is `<db_config_dir>/starknet/<engine>`.
    pub fn open(database: &DatabaseSource, db_config_dir: &str, cache_more_things: bool) -> (r:
        Result<Backend, DbError>)
        ensures
            match r {
                Ok(b) => {
                    &&& !(*database is Custom)
                    &&& b.wf()
                    &&& b.engine@ == Map::<(int, Seq<u8>), Seq<u8>>::empty()
                    &&& !b.engine.spec_fault()
                    &&& b.mapping.cache_more_things == cache_more_things
                },
                Err(e) => *database is Custom && e == DbError::UnsupportedBackend,
            },
    {
        Self::open_from(database, db_config_dir, cache_more_things, MemEngine::new())
    }

    /// Open the backend over engine contents loaded from disk: what the
    /// backend sees afterwards is exactly what was handed in.
    pub fn open_from(
        database: &DatabaseSource,
        db_config_dir: &str,
        cache_more_things: bool,
        disk: MemEngine,
    ) -> (r: Result<Backend, DbError>)
        requires
            disk.wf(),
        ensures
            match r {
                Ok(b) => {
                    &&& !(*database is Custom)
                    &&& b.wf()
                    &&& b.engine@ == disk@
                    &&& b.engine.spec_fault() == disk.spec_fault()
                    &&& b.mapping.cache_more_things == cache_more_things
                },
                Err(e) => *database is Custom && e == DbError::UnsupportedBackend,
            },
    {
        let settings = match resolve_database_source(database, db_config_dir) {
            Ok(s) => s,
            Err(e) => {
                return Err(e);
            },
        };
        Ok(Self::new(&settings, cache_more_things, disk))
    }

    /// Compose the stores over the one shared engine.
    fn new(settings: &DatabaseSettings, cache_more_things: bool, disk: MemEngine) -> (b: Backend)
        requires
            disk.wf(),
        ensures
            b.wf(),
            b.engine@ == disk@,
            b.engine.spec_fault() == disk.spec_fault(),
            b.mapping.cache_more_things == cache_more_things,
    {
        let bonsai = BonsaiDbs {
            contract: BonsaiDb { current_column: TrieColumn::Contract },
            class: BonsaiDb { current_column: TrieColumn::Class },
            storage: BonsaiDb { current_column: TrieColumn::Storage },
        };
        Backend {
            engine: disk,
            mapping: MappingDb { cache_more_things },
            meta: MetaDb {},
            da: DaDb {},
            messaging: MessagingDb {},
            sierra_classes: SierraClassesDb {},
            l1_handler_paid_fee: L1HandlerTxFeeDb {},
            bonsai,
        }
    }

    /// Shut the backend down, handing back the engine contents for the
    /// embedding application to persist.
    pub fn close(self) -> (e: MemEngine)
        ensures
            e@ == self.engine@,
            e.wf() == self.engine.wf(),
            e.spec_fault() == self.engine.spec_fault(),
    {
        self.engine
    }

    /// Return the mapping store.
    pub fn mapping(&self) -> (r: &MappingDb)
        ensures
            *r == self.mapping,
    {
        &self.mapping
    }

    /// Return the metadata store.
    pub fn meta(&self) -> (r: &MetaDb)
        ensures
            *r == self.meta,
    {
        &self.meta
    }

    /// Return the data-availability store.
    pub fn da(&self) -> (r: &DaDb)
        ensures
            *r == self.da,
    {
        &self.da
    }

    /// Return the messaging store.
    pub fn messaging(&self) -> (r: &MessagingDb)
        ensures
            *r == self.messaging,
    {
        &self.messaging
    }

    /// Return the compiled-class store.
    pub fn sierra_classes(&self) -> (r: &SierraClassesDb)
        ensures
            *r == self.sierra_classes,
    {
        &self.sierra_classes
    }

    /// Return the contract-domain trie store.
    pub fn bonsai_contract(&self) -> (r: &BonsaiDb)
        ensures
            *r == self.bonsai.contract,
    {
        &self.bonsai.contract
    }

    /// Return the class-domain trie store.
    pub fn bonsai_class(&self) -> (r: &BonsaiDb)
        ensures
            *r == self.bonsai.class,
    {
        &self.bonsai.class
    }

    /// Return the storage-domain trie store.
    pub fn bonsai_storage(&self) -> (r: &BonsaiDb)
        ensures
            *r == self.bonsai.storage,
    {
        &self.bonsai.storage
    }

    /// Return the L1-handler fee store.
    pub fn l1_handler_paid_fee(&self) -> (r: &L1HandlerTxFeeDb)
        ensures
            *r == self.l1_handler_paid_fee,
    {
        &self.l1_handler_paid_fee
    }

    /// Stands in for the block global state root until it is computed from
    /// the trie columns.
    pub fn temporary_global_state_root_getter(&self) -> (r: StarkHash)
        ensures
            r == StarkHash::spec_zero(),
    {
        StarkHash::zero()
    }
}

} // verus!
