use vstd::prelude::*;

use crate::errors::KoalaError;

verus! {

/// One record of the input feed.
///
/// Monetary amounts are fixed-point minor units carried in an `i64` (the
/// producer of the feed decides the scale; four decimal digits is the
/// conventional one). `amount` is present only for deposits and
/// withdrawals; the three reference kinds carry none of their own.
#[derive(Clone, Debug)]
pub struct Transaction {
    pub tx_type: String,
    pub client: u16,
    pub tx: String,
    pub amount: Option<i64>,
}

impl Transaction {
    pub fn new(tx_type: String, client: u16, tx: String, amount: Option<i64>) -> (t: Transaction)
        ensures
            t.tx_type == tx_type,
            t.client == client,
            t.tx == tx,
            t.amount == amount,
    {
        Transaction { tx_type, client, tx, amount }
    }
}

/// The per-client balance state that the stores persist.
#[derive(Clone, Copy, Debug, PartialEq, Eq, Structural)]
pub struct ClientRecord {
    pub id: u16,
    pub available: i64,
    pub held: i64,
    pub total: i64,
    pub locked: bool,
}

/// The transaction kinds the input feed may name.
#[derive(Clone, Copy, Debug, PartialEq, Eq, Structural)]
pub enum TxKind {
    Deposit,
    Withdrawal,
    Dispute,
    Resolve,
    Chargeback,
    Unknown,
}

/// The kind named by a `tx_type` field; exact, case-sensitive matches only.
pub open spec fn kind_of(s: Seq<char>) -> TxKind {
    if s == "deposit"@ {
        TxKind::Deposit
    } else if s == "withdrawal"@ {
        TxKind::Withdrawal
    } else if s == "dispute"@ {
        TxKind::Dispute
    } else if s == "resolve"@ {
        TxKind::Resolve
    } else if s == "chargeback"@ {
        TxKind::Chargeback
    } else {
        TxKind::Unknown
    }
}

/// The core account invariant: the total is the available and the held
/// funds together.
pub open spec fn balanced(rec: ClientRecord) -> bool {
    rec.total == rec.available + rec.held
}

/// The record a client starts from, created lazily on first reference.
pub open spec fn zero_record(client: u16) -> ClientRecord {
    ClientRecord { id: client, available: 0, held: 0, total: 0, locked: false }
}

/// Whether a mathematical value survives the trip into an `i64` balance.
pub open spec fn fits_i64(v: int) -> bool {
    i64::MIN <= v <= i64::MAX
}

/// The amount a journaled transaction carries; a journal entry always
/// holds one, and an absent one counts as zero.
pub open spec fn origin_amount(t: Transaction) -> i64 {
    match t.amount {
        Some(a) => a,
        None => 0,
    }
}

/// What a deposit does to an account record.
///
/// A locked account rejects everything. The amount must be present and
/// positive; one that is absent, non-positive or too large to balance in
/// an `i64` is an input error. On success the amount joins the available
/// funds and the total is recomputed.
pub open spec fn deposit_result(rec: ClientRecord, amount: Option<i64>) -> Result<
    ClientRecord,
    KoalaError,
> {
    if rec.locked {
        Err(KoalaError::AccountLockedError)
    } else {
        match amount {
            None => Err(KoalaError::InputError),
            Some(a) => if a <= 0 {
                Err(KoalaError::InputError)
            } else if !fits_i64(rec.available + a) || !fits_i64(rec.available + a + rec.held) {
                Err(KoalaError::InputError)
            } else {
                Ok(
                    ClientRecord {
                        id: rec.id,
                        available: (rec.available + a) as i64,
                        held: rec.held,
                        total: (rec.available + a + rec.held) as i64,
                        locked: rec.locked,
                    },
                )
            },
        }
    }
}

/// What a withdrawal does to an account record.
///
/// A locked account rejects everything. The amount must be present, and
/// may not exceed the available funds; on success it leaves the available
/// funds and the total is recomputed.
pub open spec fn withdrawal_result(rec: ClientRecord, amount: Option<i64>) -> Result<
    ClientRecord,
    KoalaError,
> {
    if rec.locked {
        Err(KoalaError::AccountLockedError)
    } else {
        match amount {
            None => Err(KoalaError::InputError),
            Some(a) => if a <= rec.available {
                if !fits_i64(rec.available - a) || !fits_i64(rec.available - a + rec.held) {
                    Err(KoalaError::InputError)
                } else {
                    Ok(
                        ClientRecord {
                            id: rec.id,
                            available: (rec.available - a) as i64,
                            held: rec.held,
                            total: (rec.available - a + rec.held) as i64,
                            locked: rec.locked,
                        },
                    )
                }
            } else {
                Err(KoalaError::BalanceError)
            },
        }
    }
}

/// What a dispute does once the origin transaction's amount is known:
/// the amount moves from the available to the held funds.
pub open spec fn dispute_result(rec: ClientRecord, a: i64) -> Result<ClientRecord, KoalaError> {
    if rec.locked {
        Err(KoalaError::AccountLockedError)
    } else if !fits_i64(rec.available - a) || !fits_i64(rec.held + a) || !fits_i64(
        rec.available - a + rec.held + a,
    ) {
        Err(KoalaError::InputError)
    } else {
        Ok(
            ClientRecord {
                id: rec.id,
                available: (rec.available - a) as i64,
                held: (rec.held + a) as i64,
                total: (rec.available - a + rec.held + a) as i64,
                locked: rec.locked,
            },
        )
    }
}

/// What a resolve does once the origin transaction's amount is known:
/// the amount moves back from the held to the available funds.
pub open spec fn resolve_result(rec: ClientRecord, a: i64) -> Result<ClientRecord, KoalaError> {
    if rec.locked {
        Err(KoalaError::AccountLockedError)
    } else if !fits_i64(rec.held - a) || !fits_i64(rec.available + a) || !fits_i64(
        rec.available + a + rec.held - a,
    ) {
        Err(KoalaError::InputError)
    } else {
        Ok(
            ClientRecord {
                id: rec.id,
                available: (rec.available + a) as i64,
                held: (rec.held - a) as i64,
                total: (rec.available + a + rec.held - a) as i64,
                locked: rec.locked,
            },
        )
    }
}

/// What a chargeback does once the origin transaction's amount is known:
/// the amount leaves the held funds and the account locks for good.
pub open spec fn chargeback_result(rec: ClientRecord, a: i64) -> Result<ClientRecord, KoalaError> {
    if rec.locked {
        Err(KoalaError::AccountLockedError)
    } else if !fits_i64(rec.held - a) || !fits_i64(rec.available + rec.held - a) {
        Err(KoalaError::InputError)
    } else {
        Ok(
            ClientRecord {
                id: rec.id,
                available: rec.available,
                held: (rec.held - a) as i64,
                total: (rec.available + rec.held - a) as i64,
                locked: true,
            },
        )
    }
}

/// A dispute's outcome including the journal lookup: the lock is checked
/// first, an unknown reference is a partner error, and otherwise the
/// origin's amount is replayed.
pub open spec fn dispute_outcome(rec: ClientRecord, origin: Option<Transaction>) -> Result<
    ClientRecord,
    KoalaError,
> {
    if rec.locked {
        Err(KoalaError::AccountLockedError)
    } else {
        match origin {
            None => Err(KoalaError::PartnerError),
            Some(t) => dispute_result(rec, origin_amount(t)),
        }
    }
}

/// A resolve's outcome including the journal lookup.
pub open spec fn resolve_outcome(rec: ClientRecord, origin: Option<Transaction>) -> Result<
    ClientRecord,
    KoalaError,
> {
    if rec.locked {
        Err(KoalaError::AccountLockedError)
    } else {
        match origin {
            None => Err(KoalaError::PartnerError),
            Some(t) => resolve_result(rec, origin_amount(t)),
        }
    }
}

/// A chargeback's outcome including the journal lookup.
pub open spec fn chargeback_outcome(rec: ClientRecord, origin: Option<Transaction>) -> Result<
    ClientRecord,
    KoalaError,
> {
    if rec.locked {
        Err(KoalaError::AccountLockedError)
    } else {
        match origin {
            None => Err(KoalaError::PartnerError),
            Some(t) => chargeback_result(rec, origin_amount(t)),
        }
    }
}

/// The first journal entry from position `i` on whose identifier is `id`.
pub open spec fn find_tx_from(j: Seq<Transaction>, id: Seq<char>, i: int) -> Option<Transaction>
    decreases j.len() - i,
{
    if i < 0 || i >= j.len() {
        None
    } else if j[i].tx@ == id {
        Some(j[i])
    } else {
        find_tx_from(j, id, i + 1)
    }
}

/// The first journal entry in insertion order whose identifier is `id`;
/// on a duplicated identifier the first inserted wins.
pub open spec fn find_tx(j: Seq<Transaction>, id: Seq<char>) -> Option<Transaction> {
    find_tx_from(j, id, 0)
}

/// What a deposit or withdrawal leaves behind at the account it names: on
/// success the outcome record is persisted and the transaction is
/// journaled; on any failure the journal did not grow, and on a local
/// (non-storage) failure the outcome names the same error.
pub open spec fn funding_post(
    post_rec: ClientRecord,
    pre_j: Seq<Transaction>,
    post_j: Seq<Transaction>,
    tx: Transaction,
    outcome: Result<ClientRecord, KoalaError>,
    r: Result<(), KoalaError>,
) -> bool {
    match r {
        Ok(()) => {
            &&& outcome == Ok::<ClientRecord, KoalaError>(post_rec)
            &&& post_j == pre_j.push(tx)
        },
        Err(e) => {
            &&& post_j == pre_j
            &&& (e is StorageError || outcome == Err::<ClientRecord, KoalaError>(e))
        },
    }
}

/// What a dispute, resolve or chargeback leaves behind at the account it
/// names; these are never journaled, so the journal reads the same either
/// way.
pub open spec fn reference_post(
    post_rec: ClientRecord,
    pre_j: Seq<Transaction>,
    post_j: Seq<Transaction>,
    outcome: Result<ClientRecord, KoalaError>,
    r: Result<(), KoalaError>,
) -> bool {
    &&& post_j == pre_j
    &&& match r {
        Ok(()) => outcome == Ok::<ClientRecord, KoalaError>(post_rec),
        Err(e) => e is StorageError || outcome == Err::<ClientRecord, KoalaError>(e),
    }
}

/// The contract every transaction engine satisfies, whatever its store.
///
/// `account_view` is the record the store currently holds for a client (a
/// zero record where it holds none) and `journal_view` the accepted
/// deposits and withdrawals in insertion order. Each operation's
/// postcondition pins the new views down exactly, except after a storage
/// failure, which is fatal to a run and promises nothing of the store.
pub trait Engine: Sized {
    /// The record the store holds for `client`, or the zero record.
    spec fn account_view(&self, client: u16) -> ClientRecord;

    /// The journal of accepted deposits and withdrawals, oldest first.
    spec fn journal_view(&self) -> Seq<Transaction>;

    /// Applies a deposit and persists the changed record.
    fn deposit_tx(&mut self, tx: Transaction) -> (r: Result<(), KoalaError>)
        ensures
            funding_post(
                final(self).account_view(tx.client),
                old(self).journal_view(),
                final(self).journal_view(),
                tx,
                deposit_result(old(self).account_view(tx.client), tx.amount),
                r,
            ),
            r is Ok ==> forall|c: u16|
                c != tx.client ==> final(self).account_view(c) == old(self).account_view(c),
            (r matches Err(e) && !(e is StorageError)) ==> forall|c: u16|
                final(self).account_view(c) == old(self).account_view(c),
    ;

    /// Applies a withdrawal and persists the changed record.
    fn withdrawal_tx(&mut self, tx: Transaction) -> (r: Result<(), KoalaError>)
        ensures
            funding_post(
                final(self).account_view(tx.client),
                old(self).journal_view(),
                final(self).journal_view(),
                tx,
                withdrawal_result(old(self).account_view(tx.client), tx.amount),
                r,
            ),
            r is Ok ==> forall|c: u16|
                c != tx.client ==> final(self).account_view(c) == old(self).account_view(c),
            (r matches Err(e) && !(e is StorageError)) ==> forall|c: u16|
                final(self).account_view(c) == old(self).account_view(c),
    ;

    /// Replays a dispute against the origin transaction it references.
    fn dispute_tx(&mut self, tx: &Transaction) -> (r: Result<(), KoalaError>)
        ensures
            reference_post(
                final(self).account_view(tx.client),
                old(self).journal_view(),
                final(self).journal_view(),
                dispute_outcome(
                    old(self).account_view(tx.client),
                    find_tx(old(self).journal_view(), tx.tx@),
                ),
                r,
            ),
            r is Ok ==> forall|c: u16|
                c != tx.client ==> final(self).account_view(c) == old(self).account_view(c),
            (r matches Err(e) && !(e is StorageError)) ==> forall|c: u16|
                final(self).account_view(c) == old(self).account_view(c),
    ;

    /// Replays a resolve against the origin transaction it references.
    fn resolve_tx(&mut self, tx: &Transaction) -> (r: Result<(), KoalaError>)
        ensures
            reference_post(
                final(self).account_view(tx.client),
                old(self).journal_view(),
                final(self).journal_view(),
                resolve_outcome(
                    old(self).account_view(tx.client),
                    find_tx(old(self).journal_view(), tx.tx@),
                ),
                r,
            ),
            r is Ok ==> forall|c: u16|
                c != tx.client ==> final(self).account_view(c) == old(self).account_view(c),
            (r matches Err(e) && !(e is StorageError)) ==> forall|c: u16|
                final(self).account_view(c) == old(self).account_view(c),
    ;

    /// Replays a chargeback against the origin transaction it references.
    fn chargeback_tx(&mut self, tx: &Transaction) -> (r: Result<(), KoalaError>)
        ensures
            reference_post(
                final(self).account_view(tx.client),
                old(self).journal_view(),
                final(self).journal_view(),
                chargeback_outcome(
                    old(self).account_view(tx.client),
                    find_tx(old(self).journal_view(), tx.tx@),
                ),
                r,
            ),
            r is Ok ==> forall|c: u16|
                c != tx.client ==> final(self).account_view(c) == old(self).account_view(c),
            (r matches Err(e) && !(e is StorageError)) ==> forall|c: u16|
                final(self).account_view(c) == old(self).account_view(c),
    ;

    /// The first journaled transaction with this identifier, if any.
    fn find_original_transaction(&self, tx_id: &str) -> (r: Option<&Transaction>)
        ensures
            match r {
                Some(t) => find_tx(self.journal_view(), tx_id@) == Some(*t),
                None => find_tx(self.journal_view(), tx_id@) is None,
            },
    ;

    /// Reads the current record of a client from the store.
    fn get_client_record(&self, client_id: u16) -> (r: Result<ClientRecord, KoalaError>)
        ensures
            match r {
                Ok(rec) => rec == self.account_view(client_id) && rec.id == client_id,
                Err(e) => e is StorageError,
            },
    ;

    /// Upserts one record in the store; every other record stays put.
    fn update_record(&mut self, cr: &ClientRecord) -> (r: Result<(), KoalaError>)
        ensures
            final(self).journal_view() == old(self).journal_view(),
            match r {
                Ok(()) => final(self).account_view(cr.id) == *cr,
                Err(e) => e is StorageError,
            },
            r is Ok ==> forall|c: u16|
                c != cr.id ==> final(self).account_view(c) == old(self).account_view(c),
    ;
}

/// The frame every engine operation keeps: a success rewrites at most
/// the named account, and a local (non-storage) failure rewrites none.
pub open spec fn frame_ok<E: Engine>(
    pre: E,
    post: E,
    client: u16,
    r: Result<(), KoalaError>,
) -> bool {
    &&& (r is Ok ==> forall|c: u16| c != client ==> post.account_view(c) == pre.account_view(c))
    &&& ((r matches Err(e) && !(e is StorageError)) ==> forall|c: u16|
        post.account_view(c) == pre.account_view(c))
}

/// What one dispatch step leaves behind: the operation named by the
/// transaction's kind ran under its own contract, and an unrecognized
/// kind is an input error that touches nothing.
pub open spec fn dispatch_post<E: Engine>(
    pre: E,
    post: E,
    tx: Transaction,
    r: Result<(), KoalaError>,
) -> bool {
    match kind_of(tx.tx_type@) {
        TxKind::Deposit => funding_post(
            post.account_view(tx.client),
            pre.journal_view(),
            post.journal_view(),
            tx,
            deposit_result(pre.account_view(tx.client), tx.amount),
            r,
        ) && frame_ok(pre, post, tx.client, r),
        TxKind::Withdrawal => funding_post(
            post.account_view(tx.client),
            pre.journal_view(),
            post.journal_view(),
            tx,
            withdrawal_result(pre.account_view(tx.client), tx.amount),
            r,
        ) && frame_ok(pre, post, tx.client, r),
        TxKind::Dispute => reference_post(
            post.account_view(tx.client),
            pre.journal_view(),
            post.journal_view(),
            dispute_outcome(pre.account_view(tx.client), find_tx(pre.journal_view(), tx.tx@)),
            r,
        ) && frame_ok(pre, post, tx.client, r),
        TxKind::Resolve => reference_post(
            post.account_view(tx.client),
            pre.journal_view(),
            post.journal_view(),
            resolve_outcome(pre.account_view(tx.client), find_tx(pre.journal_view(), tx.tx@)),
            r,
        ) && frame_ok(pre, post, tx.client, r),
        TxKind::Chargeback => reference_post(
            post.account_view(tx.client),
            pre.journal_view(),
            post.journal_view(),
            chargeback_outcome(pre.account_view(tx.client), find_tx(pre.journal_view(), tx.tx@)),
            r,
        ) && frame_ok(pre, post, tx.client, r),
        TxKind::Unknown => r == Err::<(), KoalaError>(KoalaError::InputError) && post == pre,
    }
}

/// The kind a `tx_type` field names, decided by exact string matches.
pub fn tx_kind(tx_type: &String) -> (k: TxKind)
    ensures
        k == kind_of(tx_type@),
{
    if *tx_type == "deposit".to_owned() {
        TxKind::Deposit
    } else if *tx_type == "withdrawal".to_owned() {
        TxKind::Withdrawal
    } else if *tx_type == "dispute".to_owned() {
        TxKind::Dispute
    } else if *tx_type == "resolve".to_owned() {
        TxKind::Resolve
    } else if *tx_type == "chargeback".to_owned() {
        TxKind::Chargeback
    } else {
        TxKind::Unknown
    }
}

/// Law: every record a successful operation persists is balanced — the
/// total equals the available and the held funds together. Together with
/// the engine contract (a success rewrites only the named account, a
/// local failure rewrites nothing) this holds of every client after
/// every accepted transaction.
pub proof fn lemma_accepted_records_balanced(
    rec: ClientRecord,
    amount: Option<i64>,
    origin: Option<Transaction>,
)
    ensures
        deposit_result(rec, amount) matches Ok(nr) ==> balanced(nr),
        withdrawal_result(rec, amount) matches Ok(nr) ==> balanced(nr),
        dispute_outcome(rec, origin) matches Ok(nr) ==> balanced(nr),
        resolve_outcome(rec, origin) matches Ok(nr) ==> balanced(nr),
        chargeback_outcome(rec, origin) matches Ok(nr) ==> balanced(nr),
{
}

/// Law: a locked account rejects every operation with the lock error.
/// The engine contract adds that such a failure leaves every account,
/// and the journal, unchanged.
pub proof fn lemma_locked_account_rejects(
    rec: ClientRecord,
    amount: Option<i64>,
    origin: Option<Transaction>,
)
    requires
        rec.locked,
    ensures
        deposit_result(rec, amount) == Err::<ClientRecord, KoalaError>(
            KoalaError::AccountLockedError,
        ),
        withdrawal_result(rec, amount) == Err::<ClientRecord, KoalaError>(
            KoalaError::AccountLockedError,
        ),
        dispute_outcome(rec, origin) == Err::<ClientRecord, KoalaError>(
            KoalaError::AccountLockedError,
        ),
        resolve_outcome(rec, origin) == Err::<ClientRecord, KoalaError>(
            KoalaError::AccountLockedError,
        ),
        chargeback_outcome(rec, origin) == Err::<ClientRecord, KoalaError>(
            KoalaError::AccountLockedError,
        ),
{
}

/// Law: a dispute followed by a resolve of the same amount restores the
/// available and the held funds exactly, assuming no mutation of the
/// account in between; the resolve is always accepted there.
pub proof fn lemma_dispute_resolve_round_trip(rec: ClientRecord, a: i64)
    requires
        dispute_result(rec, a) is Ok,
    ensures
        dispute_result(rec, a) matches Ok(d) ==> resolve_result(d, a) matches Ok(b)
            && b.available == rec.available && b.held == rec.held && b.locked == rec.locked
            && b.id == rec.id && b.total == rec.available + rec.held,
{
}

/// Law: an accepted dispute followed by an accepted resolve of the same
/// reference, against the same client and with no step in between,
/// restores the available and the held funds to their pre-dispute
/// values exactly — the two steps replay one and the same journaled
/// amount, because a dispute never changes the journal.
pub proof fn lemma_dispatch_dispute_resolve_round_trip<E: Engine>(
    s0: E,
    s1: E,
    s2: E,
    t1: Transaction,
    t2: Transaction,
)
    requires
        dispatch_post(s0, s1, t1, Ok(())),
        dispatch_post(s1, s2, t2, Ok(())),
        kind_of(t1.tx_type@) == TxKind::Dispute,
        kind_of(t2.tx_type@) == TxKind::Resolve,
        t2.client == t1.client,
        t2.tx@ == t1.tx@,
    ensures
        s2.account_view(t1.client).available == s0.account_view(t1.client).available,
        s2.account_view(t1.client).held == s0.account_view(t1.client).held,
        s2.account_view(t1.client).locked == s0.account_view(t1.client).locked,
        s2.account_view(t1.client).total == s0.account_view(t1.client).available + s0.account_view(
            t1.client,
        ).held,
{
    let rec0 = s0.account_view(t1.client);
    let origin = find_tx(s0.journal_view(), t1.tx@);
    let a = origin_amount(origin->Some_0);
    lemma_dispute_resolve_round_trip(rec0, a);
}

/// Law: a withdrawal of more than the available funds fails with the
/// balance error. The engine contract adds that such a failure leaves
/// every account unchanged.
pub proof fn lemma_overdraft_rejected(rec: ClientRecord, a: i64)
    requires
        !rec.locked,
        a > rec.available,
    ensures
        withdrawal_result(rec, Some(a)) == Err::<ClientRecord, KoalaError>(
            KoalaError::BalanceError,
        ),
{
}

/// Law: a dispute, resolve or chargeback whose identifier no journal
/// entry carries — and only accepted deposits and withdrawals are ever
/// journaled — fails with the partner error on an unlocked account. The
/// engine contract adds that such a failure leaves every account
/// unchanged.
pub proof fn lemma_unknown_reference_rejected(rec: ClientRecord)
    requires
        !rec.locked,
    ensures
        dispute_outcome(rec, None) == Err::<ClientRecord, KoalaError>(KoalaError::PartnerError),
        resolve_outcome(rec, None) == Err::<ClientRecord, KoalaError>(KoalaError::PartnerError),
        chargeback_outcome(rec, None) == Err::<ClientRecord, KoalaError>(KoalaError::PartnerError),
{
}

/// Law: a dispatch step keeps every account balanced — where every
/// account satisfies `total == available + held` before a transaction,
/// every account satisfies it after, for every outcome short of a
/// storage failure (which aborts the run).
pub proof fn lemma_dispatch_preserves_balance<E: Engine>(
    pre: E,
    post: E,
    tx: Transaction,
    r: Result<(), KoalaError>,
)
    requires
        dispatch_post(pre, post, tx, r),
        r matches Err(e) ==> !(e is StorageError),
        forall|c: u16| balanced(#[trigger] pre.account_view(c)),
    ensures
        forall|c: u16| balanced(#[trigger] post.account_view(c)),
{
    lemma_accepted_records_balanced(
        pre.account_view(tx.client),
        tx.amount,
        find_tx(pre.journal_view(), tx.tx@),
    );
    assert forall|c: u16| balanced(#[trigger] post.account_view(c)) by {
        assert(balanced(pre.account_view(c)));
    }
}

/// Law: once an account is locked, a dispatch step of any recognized
/// kind against it fails — with the lock error, short of a storage
/// failure — and no non-storage failure rewrites any account.
pub proof fn lemma_dispatch_rejects_locked<E: Engine>(
    pre: E,
    post: E,
    tx: Transaction,
    r: Result<(), KoalaError>,
)
    requires
        dispatch_post(pre, post, tx, r),
        pre.account_view(tx.client).locked,
        kind_of(tx.tx_type@) != TxKind::Unknown,
    ensures
        r is Err,
        r matches Err(e) ==> e is StorageError || e == KoalaError::AccountLockedError,
        (r matches Err(e) && !(e is StorageError)) ==> forall|c: u16|
            post.account_view(c) == pre.account_view(c) && post.journal_view()
                == pre.journal_view(),
{
}

/// Law: a dispatched withdrawal of more than the available funds on an
/// unlocked account fails — with the balance error, short of a storage
/// failure — and a non-storage failure leaves every account and the
/// journal unchanged.
pub proof fn lemma_dispatch_rejects_overdraft<E: Engine>(
    pre: E,
    post: E,
    tx: Transaction,
    r: Result<(), KoalaError>,
)
    requires
        dispatch_post(pre, post, tx, r),
        kind_of(tx.tx_type@) == TxKind::Withdrawal,
        !pre.account_view(tx.client).locked,
        tx.amount matches Some(a) && a > pre.account_view(tx.client).available,
    ensures
        r is Err,
        r matches Err(e) ==> e is StorageError || e == KoalaError::BalanceError,
        (r matches Err(e) && !(e is StorageError)) ==> forall|c: u16|
            post.account_view(c) == pre.account_view(c),
        post.journal_view() == pre.journal_view(),
{
}

/// Law: a dispatched dispute, resolve or chargeback whose identifier no
/// journal entry carries fails on an unlocked account — with the
/// partner error, short of a storage failure — and a non-storage
/// failure leaves every account unchanged; the journal is never touched
/// by these kinds.
pub proof fn lemma_dispatch_rejects_unknown_reference<E: Engine>(
    pre: E,
    post: E,
    tx: Transaction,
    r: Result<(), KoalaError>,
)
    requires
        dispatch_post(pre, post, tx, r),
        kind_of(tx.tx_type@) == TxKind::Dispute || kind_of(tx.tx_type@) == TxKind::Resolve
            || kind_of(tx.tx_type@) == TxKind::Chargeback,
        !pre.account_view(tx.client).locked,
        find_tx(pre.journal_view(), tx.tx@) is None,
    ensures
        r is Err,
        r matches Err(e) ==> e is StorageError || e == KoalaError::PartnerError,
        (r matches Err(e) && !(e is StorageError)) ==> forall|c: u16|
            post.account_view(c) == pre.account_view(c),
        post.journal_view() == pre.journal_view(),
{
}

/// Scans a journal front to back for the first entry with this
/// identifier; both stores share it.
pub(crate) fn journal_find<'a>(txs: &'a Vec<Transaction>, tx_id: &str) -> (r: Option<
    &'a Transaction,
>)
    ensures
        match r {
            Some(t) => find_tx(txs@, tx_id@) == Some(*t),
            None => find_tx(txs@, tx_id@) is None,
        },
{
    let target: String = tx_id.to_owned();
    let mut i: usize = 0;
    while i < txs.len()
        invariant
            i <= txs.len(),
            target@ == tx_id@,
            find_tx(txs@, tx_id@) == find_tx_from(txs@, tx_id@, i as int),
        decreases txs.len() - i,
    {
        if txs[i].tx == target {
            return Some(&txs[i]);
        }
        i += 1;
    }
    None
}

} // verus!
