use vstd::prelude::*;

use crate::engine::{journal_find, zero_record, ClientRecord, Engine, Transaction};
use crate::errors::KoalaError;

verus! {

/// The first row from position `i` on that belongs to `client`.
pub open spec fn row_for_from(rows: Seq<ClientRecord>, client: u16, i: int) -> Option<ClientRecord>
    decreases rows.len() - i,
{
    if i < 0 || i >= rows.len() {
        None
    } else if rows[i].id == client {
        Some(rows[i])
    } else {
        row_for_from(rows, client, i + 1)
    }
}

/// The first row of the table that belongs to `client`, if any.
pub open spec fn row_for(rows: Seq<ClientRecord>, client: u16) -> Option<ClientRecord> {
    row_for_from(rows, client, 0)
}

/// The record the table holds for `client`: its first matching row, or
/// the zero record where none matches.
pub open spec fn account_of(rows: Seq<ClientRecord>, client: u16) -> ClientRecord {
    match row_for(rows, client) {
        Some(r) => r,
        None => zero_record(client),
    }
}

/// The delimited table that backs the tabular store: a live table at
/// `output_file` and a staging table at `tmp_file`. The table format is
/// not randomly addressable by key, so every update rewrites the whole
/// table into the staging file and then copies it over the live one.
///
/// The two spec functions below name what the two files hold; the store
/// assumes exclusive access to them for the duration of a run.
#[verifier::external_body]
pub struct CsvStore {
    tmp_file: String,
    output_file: String,
}

pub uninterp spec fn csv_rows(s: CsvStore) -> Seq<ClientRecord>;

pub uninterp spec fn csv_staged(s: CsvStore) -> Seq<ClientRecord>;

impl CsvStore {
    /// Holds the two paths; neither file is touched here, so nothing is
    /// claimed of what they hold.
    #[verifier::external_body]
    fn new(tmp_file: String, output_file: String) -> CsvStore {
        CsvStore { tmp_file, output_file }
    }

    /// Relies on csv::Reader: returns every row of the live table, in
    /// table order.
    #[verifier::external_body]
    fn load(&self) -> (r: Result<Vec<ClientRecord>, KoalaError>)
        ensures
            r matches Ok(v) ==> v@ == csv_rows(*self),
            r matches Err(e) ==> e is StorageError,
    {
        let mut out: Vec<ClientRecord> = Vec::new();
        let mut rdr = csv::Reader::from_path(self.output_file.as_str()).map_err(|_| KoalaError::StorageError)?;
        for row in rdr.deserialize() {
            let (id, available, held, total, locked): (u16, i64, i64, i64, bool) =
                row.map_err(|_| KoalaError::StorageError)?;
            out.push(ClientRecord { id, available, held, total, locked });
        }
        Ok(out)
    }

    /// Relies on csv::Writer: replaces the staging table with exactly
    /// these rows; the live table is not touched.
    #[verifier::external_body]
    fn stage(&mut self, rows: &Vec<ClientRecord>) -> (r: Result<(), KoalaError>)
        ensures
            r is Ok ==> csv_staged(*final(self)) == rows@ && csv_rows(*final(self)) == csv_rows(
                *old(self),
            ),
            r matches Err(e) ==> e is StorageError,
    {
        let mut w = csv::Writer::from_path(self.tmp_file.as_str()).map_err(|_| KoalaError::StorageError)?;
        w.write_record(&["client", "available", "held", "total", "locked"]).map_err(|_| KoalaError::StorageError)?;
        for rec in rows.iter() {
            w.serialize((rec.id, rec.available, rec.held, rec.total, rec.locked))
                .map_err(|_| KoalaError::StorageError)?;
        }
        w.flush().map_err(|_| KoalaError::StorageError)?;
        Ok(())
    }

    /// Relies on csv::Reader and csv::Writer: copies the staging table
    /// verbatim over the live table.
    #[verifier::external_body]
    fn commit(&mut self) -> (r: Result<(), KoalaError>)
        ensures
            r is Ok ==> csv_rows(*final(self)) == csv_staged(*old(self)) && csv_staged(
                *final(self),
            ) == csv_staged(*old(self)),
            r matches Err(e) ==> e is StorageError,
    {
        let mut rdr = csv::Reader::from_path(self.tmp_file.as_str()).map_err(|_| KoalaError::StorageError)?;
        let hdr = rdr.headers().map_err(|_| KoalaError::StorageError)?.clone();
        let mut w = csv::Writer::from_path(self.output_file.as_str()).map_err(|_| KoalaError::StorageError)?;
        w.write_record(&hdr).map_err(|_| KoalaError::StorageError)?;
        for row in rdr.records() {
            w.write_record(&row.map_err(|_| KoalaError::StorageError)?).map_err(|_| KoalaError::StorageError)?;
        }
        w.flush().map_err(|_| KoalaError::StorageError)?;
        Ok(())
    }
}

/// How a pushed row changes a first-match lookup, for every key at once.
proof fn lemma_row_for_push(s: Seq<ClientRecord>, x: ClientRecord)
    ensures
        forall|c: u16| #[trigger] row_for(s.push(x), c) == (if row_for(s, c) is Some {
            row_for(s, c)
        } else if x.id == c {
            Some(x)
        } else {
            None::<ClientRecord>
        }),
{
    assert forall|c: u16| #[trigger] row_for(s.push(x), c) == (if row_for(s, c) is Some {
        row_for(s, c)
    } else if x.id == c {
        Some(x)
    } else {
        None::<ClientRecord>
    }) by {
        lemma_row_for_from_push(s, x, c, 0);
    }
}

proof fn lemma_row_for_from_push(s: Seq<ClientRecord>, x: ClientRecord, c: u16, i: int)
    requires
        0 <= i <= s.len(),
    ensures
        row_for_from(s.push(x), c, i) == (if row_for_from(s, c, i) is Some {
            row_for_from(s, c, i)
        } else if x.id == c {
            Some(x)
        } else {
            None::<ClientRecord>
        }),
    decreases s.len() - i,
{
    if i < s.len() {
        assert(s.push(x)[i] == s[i]);
        if s[i].id != c {
            lemma_row_for_from_push(s, x, c, i + 1);
        }
    } else {
        assert(s.push(x)[i] == x);
        if x.id != c {
            assert(row_for_from(s.push(x), c, i + 1) is None);
        }
    }
}

/// The tabular rewrite: every row is copied into a fresh table except
/// those matching the target's client, which are replaced by the new
/// record; if no row matched, the new record is appended once.
fn upsert_rows(rows: &Vec<ClientRecord>, cr: &ClientRecord) -> (out: Vec<ClientRecord>)
    ensures
        row_for(out@, cr.id) == Some(*cr),
        forall|c: u16| c != cr.id ==> row_for(out@, c) == row_for(rows@, c),
{
    let mut out: Vec<ClientRecord> = Vec::new();
    let mut existing = false;
    let mut i: usize = 0;
    while i < rows.len()
        invariant
            i <= rows.len(),
            forall|c: u16|
                c != cr.id ==> row_for(out@, c) == row_for(rows@.subrange(0, i as int), c),
            existing ==> row_for(out@, cr.id) == Some(*cr),
            !existing ==> row_for(out@, cr.id) is None && row_for(
                rows@.subrange(0, i as int),
                cr.id,
            ) is None,
        decreases rows.len() - i,
    {
        let row = rows[i];
        proof {
            assert(rows@.subrange(0, i + 1) =~= rows@.subrange(0, i as int).push(rows@[i as int]));
            lemma_row_for_push(rows@.subrange(0, i as int), rows@[i as int]);
        }
        if row.id == cr.id {
            proof {
                lemma_row_for_push(out@, *cr);
            }
            out.push(*cr);
            existing = true;
        } else {
            proof {
                lemma_row_for_push(out@, row);
            }
            out.push(row);
        }
        i += 1;
    }
    proof {
        assert(rows@.subrange(0, rows@.len() as int) =~= rows@);
    }
    if !existing {
        proof {
            lemma_row_for_push(out@, *cr);
        }
        out.push(*cr);
    }
    out
}

/// The engine over the tabular file store: the journal in memory, the
/// account table in a delimited file that every write rewrites whole.
pub struct CSVProcessor {
    txs: Vec<Transaction>,
    store: CsvStore,
}

impl CSVProcessor {
    /// Opens a processor over a staging path and a live table path; the
    /// journal starts empty, the table is whatever the live file holds.
    /// The two paths must differ — a store whose staging table is its
    /// live table could not stage safely — and equal ones are rejected
    /// as an input error.
    pub fn new(tmp_file: String, output_file: String) -> (r: Result<CSVProcessor, KoalaError>)
        ensures
            r is Ok <==> tmp_file@ != output_file@,
            r matches Ok(p) ==> p.journal_view() == Seq::<Transaction>::empty(),
            r matches Err(e) ==> e == KoalaError::InputError,
    {
        if tmp_file == output_file {
            return Err(KoalaError::InputError);
        }
        Ok(CSVProcessor { txs: Vec::new(), store: CsvStore::new(tmp_file, output_file) })
    }
}

impl Engine for CSVProcessor {
    closed spec fn account_view(&self, client: u16) -> ClientRecord {
        account_of(csv_rows(self.store), client)
    }

    closed spec fn journal_view(&self) -> Seq<Transaction> {
        self.txs@
    }

    fn deposit_tx(&mut self, tx: Transaction) -> (r: Result<(), KoalaError>) {
        let rec = match self.get_client_record(tx.client) {
            Ok(v) => v,
            Err(e) => return Err(e),
        };
        if rec.locked {
            return Err(KoalaError::AccountLockedError);
        }
        let a = match tx.amount {
            Some(a) => a,
            None => return Err(KoalaError::InputError),
        };
        if a <= 0 {
            return Err(KoalaError::InputError);
        }
        let av = match rec.available.checked_add(a) {
            Some(v) => v,
            None => return Err(KoalaError::InputError),
        };
        let tot = match av.checked_add(rec.held) {
            Some(v) => v,
            None => return Err(KoalaError::InputError),
        };
        let nr = ClientRecord { id: rec.id, available: av, held: rec.held, total: tot, locked: rec.locked };
        match self.update_record(&nr) {
            Ok(()) => {},
            Err(e) => return Err(e),
        }
        self.txs.push(tx);
        Ok(())
    }

    fn withdrawal_tx(&mut self, tx: Transaction) -> (r: Result<(), KoalaError>) {
        let rec = match self.get_client_record(tx.client) {
            Ok(v) => v,
            Err(e) => return Err(e),
        };
        if rec.locked {
            return Err(KoalaError::AccountLockedError);
        }
        let a = match tx.amount {
            Some(a) => a,
            None => return Err(KoalaError::InputError),
        };
        if a <= rec.available {
            let av = match rec.available.checked_sub(a) {
                Some(v) => v,
                None => return Err(KoalaError::InputError),
            };
            let tot = match av.checked_add(rec.held) {
                Some(v) => v,
                None => return Err(KoalaError::InputError),
            };
            let nr = ClientRecord { id: rec.id, available: av, held: rec.held, total: tot, locked: rec.locked };
            match self.update_record(&nr) {
                Ok(()) => {},
                Err(e) => return Err(e),
            }
            self.txs.push(tx);
            Ok(())
        } else {
            Err(KoalaError::BalanceError)
        }
    }

    fn dispute_tx(&mut self, tx: &Transaction) -> (r: Result<(), KoalaError>) {
        let rec = match self.get_client_record(tx.client) {
            Ok(v) => v,
            Err(e) => return Err(e),
        };
        if rec.locked {
            return Err(KoalaError::AccountLockedError);
        }
        let a = match self.find_original_transaction(tx.tx.as_str()) {
            Some(origin) => match origin.amount {
                Some(a) => a,
                None => 0,
            },
            None => return Err(KoalaError::PartnerError),
        };
        let av = match rec.available.checked_sub(a) {
            Some(v) => v,
            None => return Err(KoalaError::InputError),
        };
        let hd = match rec.held.checked_add(a) {
            Some(v) => v,
            None => return Err(KoalaError::InputError),
        };
        let tot = match av.checked_add(hd) {
            Some(v) => v,
            None => return Err(KoalaError::InputError),
        };
        let nr = ClientRecord { id: rec.id, available: av, held: hd, total: tot, locked: rec.locked };
        match self.update_record(&nr) {
            Ok(()) => {},
            Err(e) => return Err(e),
        }
        Ok(())
    }

    fn resolve_tx(&mut self, tx: &Transaction) -> (r: Result<(), KoalaError>) {
        let rec = match self.get_client_record(tx.client) {
            Ok(v) => v,
            Err(e) => return Err(e),
        };
        if rec.locked {
            return Err(KoalaError::AccountLockedError);
        }
        let a = match self.find_original_transaction(tx.tx.as_str()) {
            Some(origin) => match origin.amount {
                Some(a) => a,
                None => 0,
            },
            None => return Err(KoalaError::PartnerError),
        };
        let hd = match rec.held.checked_sub(a) {
            Some(v) => v,
            None => return Err(KoalaError::InputError),
        };
        let av = match rec.available.checked_add(a) {
            Some(v) => v,
            None => return Err(KoalaError::InputError),
        };
        let tot = match av.checked_add(hd) {
            Some(v) => v,
            None => return Err(KoalaError::InputError),
        };
        let nr = ClientRecord { id: rec.id, available: av, held: hd, total: tot, locked: rec.locked };
        match self.update_record(&nr) {
            Ok(()) => {},
            Err(e) => return Err(e),
        }
        Ok(())
    }

    fn chargeback_tx(&mut self, tx: &Transaction) -> (r: Result<(), KoalaError>) {
        let rec = match self.get_client_record(tx.client) {
            Ok(v) => v,
            Err(e) => return Err(e),
        };
        if rec.locked {
            return Err(KoalaError::AccountLockedError);
        }
        let a = match self.find_original_transaction(tx.tx.as_str()) {
            Some(origin) => match origin.amount {
                Some(a) => a,
                None => 0,
            },
            None => return Err(KoalaError::PartnerError),
        };
        let hd = match rec.held.checked_sub(a) {
            Some(v) => v,
            None => return Err(KoalaError::InputError),
        };
        let tot = match rec.available.checked_add(hd) {
            Some(v) => v,
            None => return Err(KoalaError::InputError),
        };
        let nr = ClientRecord { id: rec.id, available: rec.available, held: hd, total: tot, locked: true };
        match self.update_record(&nr) {
            Ok(()) => {},
            Err(e) => return Err(e),
        }
        Ok(())
    }

    fn find_original_transaction(&self, tx_id: &str) -> (r: Option<&Transaction>) {
        journal_find(&self.txs, tx_id)
    }

    fn get_client_record(&self, client_id: u16) -> (r: Result<ClientRecord, KoalaError>) {
        let rows = match self.store.load() {
            Ok(v) => v,
            Err(e) => return Err(e),
        };
        let mut i: usize = 0;
        while i < rows.len()
            invariant
                i <= rows.len(),
                rows@ == csv_rows(self.store),
                row_for(rows@, client_id) == row_for_from(rows@, client_id, i as int),
            decreases rows.len() - i,
        {
            if rows[i].id == client_id {
                return Ok(rows[i]);
            }
            i += 1;
        }
        Ok(ClientRecord { id: client_id, available: 0, held: 0, total: 0, locked: false })
    }

    fn update_record(&mut self, cr: &ClientRecord) -> (r: Result<(), KoalaError>) {
        let rows = match self.store.load() {
            Ok(v) => v,
            Err(e) => return Err(e),
        };
        let out = upsert_rows(&rows, cr);
        match self.store.stage(&out) {
            Ok(()) => {},
            Err(e) => return Err(e),
        }
        match self.store.commit() {
            Ok(()) => {},
            Err(e) => return Err(e),
        }
        Ok(())
    }
}

} // verus!
