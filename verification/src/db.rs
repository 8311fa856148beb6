use vstd::prelude::*;

use rusqlite::OptionalExtension;

use crate::engine::{journal_find, zero_record, ClientRecord, Engine, Transaction};
use crate::errors::KoalaError;

verus! {

#[verifier::external_type_specification]
#[verifier::external_body]
pub struct ExConnection(rusqlite::Connection);

/// What the relational store's single table holds: one row per client
/// identifier, the identifier column being the primary key. The store
/// assumes exclusive access to the database for the duration of a run.
pub uninterp spec fn db_rows(c: rusqlite::Connection) -> Map<u16, ClientRecord>;

/// The table a freshly created store holds: no rows at all.
pub open spec fn empty_table() -> Map<u16, ClientRecord> {
    Map::empty()
}

/// Relies on rusqlite::Connection::open_with_flags: opens the database
/// read-write; nothing is claimed of what it holds.
#[verifier::external_body]
fn open_connection(db_file: &String) -> (r: Result<rusqlite::Connection, KoalaError>)
    ensures
        r matches Err(e) ==> e is StorageError,
{
    rusqlite::Connection::open_with_flags(
        db_file.as_str(),
        rusqlite::OpenFlags::SQLITE_OPEN_READ_WRITE,
    ).map_err(|_| KoalaError::StorageError)
}

/// Relies on rusqlite::Connection::execute: CREATE TABLE succeeds only
/// where no table of that name exists yet, and leaves it empty.
#[verifier::external_body]
fn create_table(conn: &mut rusqlite::Connection) -> (r: Result<(), KoalaError>)
    ensures
        r is Ok ==> db_rows(*final(conn)) == empty_table(),
        r matches Err(e) ==> e is StorageError,
{
    let query = "CREATE TABLE CLIENT_RECORDS ( id INTEGER PRIMARY KEY, available INTEGER, held INTEGER, total INTEGER, locked BOOL )";
    match conn.execute(query, ()) {
        Ok(_) => Ok(()),
        Err(_) => Err(KoalaError::StorageError),
    }
}

/// Relies on rusqlite::Connection::query_row: a point lookup by primary
/// key returns the row whose identifier column equals the key, or no row.
#[verifier::external_body]
fn select_record(conn: &rusqlite::Connection, client: u16) -> (r: Result<
    Option<ClientRecord>,
    KoalaError,
>)
    ensures
        r matches Ok(o) ==> match o {
            Some(rec) => db_rows(*conn).contains_key(client) && rec == db_rows(*conn)[client]
                && rec.id == client,
            None => !db_rows(*conn).contains_key(client),
        },
        r matches Err(e) ==> e is StorageError,
{
    let query = "SELECT id, available, held, total, locked FROM CLIENT_RECORDS WHERE id=?1";
    conn.query_row(query, (client,), |row| Ok(ClientRecord {
        id: row.get(0)?, available: row.get(1)?, held: row.get(2)?,
        total: row.get(3)?, locked: row.get(4)?,
    })).optional().map_err(|_| KoalaError::StorageError)
}

/// Relies on rusqlite::Connection::query_row: the existence probe finds
/// a row exactly where the table keys one by this identifier.
#[verifier::external_body]
fn client_exists(conn: &rusqlite::Connection, client: u16) -> (r: Result<bool, KoalaError>)
    ensures
        r matches Ok(b) ==> b == db_rows(*conn).contains_key(client),
        r matches Err(e) ==> e is StorageError,
{
    let query = "SELECT 1 FROM CLIENT_RECORDS WHERE id=?1";
    match conn.query_row(query, (client,), |row| row.get::<_, i64>(0)).optional() {
        Ok(v) => Ok(v.is_some()),
        Err(_) => Err(KoalaError::StorageError),
    }
}

/// Relies on rusqlite::Connection::execute: UPDATE rewrites the four
/// mutable columns of the row keyed by this identifier and touches no
/// other row; where no row matches it changes nothing.
#[verifier::external_body]
fn update_existing_record(conn: &mut rusqlite::Connection, cr: &ClientRecord) -> (r: Result<
    (),
    KoalaError,
>)
    ensures
        r is Ok ==> db_rows(*final(conn)) == (if db_rows(*old(conn)).contains_key(cr.id) {
            db_rows(*old(conn)).insert(cr.id, *cr)
        } else {
            db_rows(*old(conn))
        }),
        r matches Err(e) ==> e is StorageError,
{
    let query = "UPDATE CLIENT_RECORDS SET available=?1, held=?2, total=?3, locked=?4 WHERE id=?5";
    match conn.execute(query, (cr.available, cr.held, cr.total, cr.locked, cr.id)) {
        Ok(_) => Ok(()),
        Err(_) => Err(KoalaError::StorageError),
    }
}

/// Relies on rusqlite::Connection::execute: INSERT adds the full row
/// under its primary key; it fails where the key is already taken, and a
/// failed statement changes nothing.
#[verifier::external_body]
fn create_new_record(conn: &mut rusqlite::Connection, cr: &ClientRecord) -> (r: Result<
    (),
    KoalaError,
>)
    ensures
        r is Ok ==> db_rows(*final(conn)) == db_rows(*old(conn)).insert(cr.id, *cr),
        r matches Err(e) ==> e is StorageError,
{
    let query = "INSERT INTO CLIENT_RECORDS ( id, available, held, total, locked ) VALUES (?1, ?2, ?3, ?4, ?5)";
    match conn.execute(query, (cr.id, cr.available, cr.held, cr.total, cr.locked)) {
        Ok(_) => Ok(()),
        Err(_) => Err(KoalaError::StorageError),
    }
}

/// The engine over the relational store: the journal in memory, the
/// account table in a database keyed by client identifier, written by
/// point upserts.
pub struct DBProcessor {
    txs: Vec<Transaction>,
    connection: rusqlite::Connection,
}

impl DBProcessor {
    /// Opens the database and creates the (empty) account table; every
    /// account therefore starts as the zero record.
    pub fn new(db_file: String) -> (r: Result<DBProcessor, KoalaError>)
        ensures
            r matches Ok(p) ==> p.journal_view() == Seq::<Transaction>::empty() && forall|c: u16|
                p.account_view(c) == zero_record(c),
            r matches Err(e) ==> e is StorageError,
    {
        let mut connection = match open_connection(&db_file) {
            Ok(c) => c,
            Err(e) => return Err(e),
        };
        match create_table(&mut connection) {
            Ok(()) => {},
            Err(e) => return Err(e),
        }
        Ok(DBProcessor { txs: Vec::new(), connection })
    }
}

impl Engine for DBProcessor {
    closed spec fn account_view(&self, client: u16) -> ClientRecord {
        if db_rows(self.connection).contains_key(client) {
            db_rows(self.connection)[client]
        } else {
            zero_record(client)
        }
    }

    closed spec fn journal_view(&self) -> Seq<Transaction> {
        self.txs@
    }

    fn deposit_tx(&mut self, tx: Transaction) -> (r: Result<(), KoalaError>) {
        let rec = match self.get_client_record(tx.client) {
            Ok(v) => v,
            Err(e) => return Err(e),
        };
        if rec.locked {
            return Err(KoalaError::AccountLockedError);
        }
        let a = match tx.amount {
            Some(a) => a,
            None => return Err(KoalaError::InputError),
        };
        if a <= 0 {
            return Err(KoalaError::InputError);
        }
        let av = match rec.available.checked_add(a) {
            Some(v) => v,
            None => return Err(KoalaError::InputError),
        };
        let tot = match av.checked_add(rec.held) {
            Some(v) => v,
            None => return Err(KoalaError::InputError),
        };
        let nr = ClientRecord { id: rec.id, available: av, held: rec.held, total: tot, locked: rec.locked };
        match self.update_record(&nr) {
            Ok(()) => {},
            Err(e) => return Err(e),
        }
        self.txs.push(tx);
        Ok(())
    }

    fn withdrawal_tx(&mut self, tx: Transaction) -> (r: Result<(), KoalaError>) {
        let rec = match self.get_client_record(tx.client) {
            Ok(v) => v,
            Err(e) => return Err(e),
        };
        if rec.locked {
            return Err(KoalaError::AccountLockedError);
        }
        let a = match tx.amount {
            Some(a) => a,
            None => return Err(KoalaError::InputError),
        };
        if a <= rec.available {
            let av = match rec.available.checked_sub(a) {
                Some(v) => v,
                None => return Err(KoalaError::InputError),
            };
            let tot = match av.checked_add(rec.held) {
                Some(v) => v,
                None => return Err(KoalaError::InputError),
            };
            let nr = ClientRecord { id: rec.id, available: av, held: rec.held, total: tot, locked: rec.locked };
            match self.update_record(&nr) {
                Ok(()) => {},
                Err(e) => return Err(e),
            }
            self.txs.push(tx);
            Ok(())
        } else {
            Err(KoalaError::BalanceError)
        }
    }

    fn dispute_tx(&mut self, tx: &Transaction) -> (r: Result<(), KoalaError>) {
        let rec = match self.get_client_record(tx.client) {
            Ok(v) => v,
            Err(e) => return Err(e),
        };
        if rec.locked {
            return Err(KoalaError::AccountLockedError);
        }
        let a = match self.find_original_transaction(tx.tx.as_str()) {
            Some(origin) => match origin.amount {
                Some(a) => a,
                None => 0,
            },
            None => return Err(KoalaError::PartnerError),
        };
        let av = match rec.available.checked_sub(a) {
            Some(v) => v,
            None => return Err(KoalaError::InputError),
        };
        let hd = match rec.held.checked_add(a) {
            Some(v) => v,
            None => return Err(KoalaError::InputError),
        };
        let tot = match av.checked_add(hd) {
            Some(v) => v,
            None => return Err(KoalaError::InputError),
        };
        let nr = ClientRecord { id: rec.id, available: av, held: hd, total: tot, locked: rec.locked };
        match self.update_record(&nr) {
            Ok(()) => {},
            Err(e) => return Err(e),
        }
        Ok(())
    }

    fn resolve_tx(&mut self, tx: &Transaction) -> (r: Result<(), KoalaError>) {
        let rec = match self.get_client_record(tx.client) {
            Ok(v) => v,
            Err(e) => return Err(e),
        };
        if rec.locked {
            return Err(KoalaError::AccountLockedError);
        }
        let a = match self.find_original_transaction(tx.tx.as_str()) {
            Some(origin) => match origin.amount {
                Some(a) => a,
                None => 0,
            },
            None => return Err(KoalaError::PartnerError),
        };
        let hd = match rec.held.checked_sub(a) {
            Some(v) => v,
            None => return Err(KoalaError::InputError),
        };
        let av = match rec.available.checked_add(a) {
            Some(v) => v,
            None => return Err(KoalaError::InputError),
        };
        let tot = match av.checked_add(hd) {
            Some(v) => v,
            None => return Err(KoalaError::InputError),
        };
        let nr = ClientRecord { id: rec.id, available: av, held: hd, total: tot, locked: rec.locked };
        match self.update_record(&nr) {
            Ok(()) => {},
            Err(e) => return Err(e),
        }
        Ok(())
    }

    fn chargeback_tx(&mut self, tx: &Transaction) -> (r: Result<(), KoalaError>) {
        let rec = match self.get_client_record(tx.client) {
            Ok(v) => v,
            Err(e) => return Err(e),
        };
        if rec.locked {
            return Err(KoalaError::AccountLockedError);
        }
        let a = match self.find_original_transaction(tx.tx.as_str()) {
            Some(origin) => match origin.amount {
                Some(a) => a,
                None => 0,
            },
            None => return Err(KoalaError::PartnerError),
        };
        let hd = match rec.held.checked_sub(a) {
            Some(v) => v,
            None => return Err(KoalaError::InputError),
        };
        let tot = match rec.available.checked_add(hd) {
            Some(v) => v,
            None => return Err(KoalaError::InputError),
        };
        let nr = ClientRecord { id: rec.id, available: rec.available, held: hd, total: tot, locked: true };
        match self.update_record(&nr) {
            Ok(()) => {},
            Err(e) => return Err(e),
        }
        Ok(())
    }

    fn find_original_transaction(&self, tx_id: &str) -> (r: Option<&Transaction>) {
        journal_find(&self.txs, tx_id)
    }

    fn get_client_record(&self, client_id: u16) -> (r: Result<ClientRecord, KoalaError>) {
        match select_record(&self.connection, client_id) {
            Ok(Some(rec)) => Ok(rec),
            Ok(None) => Ok(ClientRecord { id: client_id, available: 0, held: 0, total: 0, locked: false }),
            Err(e) => Err(e),
        }
    }

    fn update_record(&mut self, cr: &ClientRecord) -> (r: Result<(), KoalaError>) {
        let existing = match client_exists(&self.connection, cr.id) {
            Ok(b) => b,
            Err(e) => return Err(e),
        };
        if existing {
            match update_existing_record(&mut self.connection, cr) {
                Ok(()) => Ok(()),
                Err(e) => Err(e),
            }
        } else {
            match create_new_record(&mut self.connection, cr) {
                Ok(()) => Ok(()),
                Err(e) => Err(e),
            }
        }
    }
}

} // verus!
