use koala_transaction_engine::cs::CSVProcessor;
use koala_transaction_engine::db::DBProcessor;
use koala_transaction_engine::dispatch_tx;
use koala_transaction_engine::engine::{tx_kind, Engine, Transaction, TxKind};
use koala_transaction_engine::errors::KoalaError;

/// Creates (or truncates) the two table files and opens a processor
/// over them, so every test starts from an empty account table.
fn prep(tmp_file: &str, output_file: &str) -> CSVProcessor {
    let w = csv::Writer::from_path(output_file).unwrap();
    drop(w);
    let w = csv::Writer::from_path(tmp_file).unwrap();
    drop(w);
    CSVProcessor::new(tmp_file.to_string(), output_file.to_string()).unwrap()
}

fn tx(kind: &str, client: u16, id: &str, amount: Option<i64>) -> Transaction {
    Transaction::new(kind.to_string(), client, id.to_string(), amount)
}

#[test]
fn dispatch_deposit_scenario() {
    let mut p = prep("/tmp/koala_en_dep_tmp.csv", "/tmp/koala_en_dep_out.csv");
    dispatch_tx(&mut p, tx("deposit", 1, "1", Some(100000))).unwrap();
    let cr = p.get_client_record(1).unwrap();
    assert_eq!(cr.available, 100000);
    assert_eq!(cr.held, 0);
    assert_eq!(cr.total, 100000);
    assert_eq!(cr.locked, false);
}

#[test]
fn dispatch_deposit_withdrawal_scenario() {
    let mut p = prep("/tmp/koala_en_wd_tmp.csv", "/tmp/koala_en_wd_out.csv");
    dispatch_tx(&mut p, tx("deposit", 1, "1", Some(100000))).unwrap();
    dispatch_tx(&mut p, tx("withdrawal", 1, "2", Some(100000))).unwrap();
    let cr = p.get_client_record(1).unwrap();
    assert_eq!(cr.available, 0);
    assert_eq!(cr.held, 0);
    assert_eq!(cr.total, 0);
}

#[test]
fn dispatch_dispute_scenario() {
    let mut p = prep("/tmp/koala_en_dis_tmp.csv", "/tmp/koala_en_dis_out.csv");
    dispatch_tx(&mut p, tx("deposit", 1, "1", Some(100000))).unwrap();
    dispatch_tx(&mut p, tx("dispute", 1, "1", None)).unwrap();
    let cr = p.get_client_record(1).unwrap();
    assert_eq!(cr.available, 0);
    assert_eq!(cr.held, 100000);
    assert_eq!(cr.total, 100000);
    assert_eq!(cr.locked, false);
}

#[test]
fn dispatch_resolve_scenario() {
    let mut p = prep("/tmp/koala_en_res_tmp.csv", "/tmp/koala_en_res_out.csv");
    dispatch_tx(&mut p, tx("deposit", 1, "1", Some(100000))).unwrap();
    dispatch_tx(&mut p, tx("dispute", 1, "1", None)).unwrap();
    dispatch_tx(&mut p, tx("resolve", 1, "1", None)).unwrap();
    let cr = p.get_client_record(1).unwrap();
    assert_eq!(cr.available, 100000);
    assert_eq!(cr.held, 0);
    assert_eq!(cr.total, 100000);
}

#[test]
fn dispatch_chargeback_locks_scenario() {
    let mut p = prep("/tmp/koala_en_cb_tmp.csv", "/tmp/koala_en_cb_out.csv");
    dispatch_tx(&mut p, tx("deposit", 1, "1", Some(100000))).unwrap();
    dispatch_tx(&mut p, tx("dispute", 1, "1", None)).unwrap();
    dispatch_tx(&mut p, tx("chargeback", 1, "1", None)).unwrap();
    let cr = p.get_client_record(1).unwrap();
    assert_eq!(cr.available, 0);
    assert_eq!(cr.held, 0);
    assert_eq!(cr.total, 0);
    assert_eq!(cr.locked, true);

    // A subsequent deposit fails with the lock error and changes nothing.
    let r = dispatch_tx(&mut p, tx("deposit", 1, "7", Some(50000)));
    assert_eq!(r, Err(KoalaError::AccountLockedError));
    let cr = p.get_client_record(1).unwrap();
    assert_eq!(cr.available, 0);
    assert_eq!(cr.held, 0);
    assert_eq!(cr.total, 0);
    assert_eq!(cr.locked, true);
}

#[test]
fn locked_account_rejects_every_operation() {
    let mut p = prep("/tmp/koala_en_lock_tmp.csv", "/tmp/koala_en_lock_out.csv");
    dispatch_tx(&mut p, tx("deposit", 1, "1", Some(100000))).unwrap();
    dispatch_tx(&mut p, tx("dispute", 1, "1", None)).unwrap();
    dispatch_tx(&mut p, tx("chargeback", 1, "1", None)).unwrap();

    let locked = Err(KoalaError::AccountLockedError);
    assert_eq!(p.deposit_tx(tx("deposit", 1, "9", Some(10000))), locked);
    assert_eq!(p.withdrawal_tx(tx("withdrawal", 1, "10", Some(10000))), locked);
    assert_eq!(p.dispute_tx(&tx("dispute", 1, "1", None)), locked);
    assert_eq!(p.resolve_tx(&tx("resolve", 1, "1", None)), locked);
    assert_eq!(p.chargeback_tx(&tx("chargeback", 1, "1", None)), locked);
    let cr = p.get_client_record(1).unwrap();
    assert_eq!((cr.available, cr.held, cr.total, cr.locked), (0, 0, 0, true));
}

#[test]
fn overdraft_fails_and_account_unmodified() {
    let mut p = prep("/tmp/koala_en_over_tmp.csv", "/tmp/koala_en_over_out.csv");
    dispatch_tx(&mut p, tx("deposit", 1, "1", Some(100000))).unwrap();
    let r = p.withdrawal_tx(tx("withdrawal", 1, "2", Some(100001)));
    assert_eq!(r, Err(KoalaError::BalanceError));
    let cr = p.get_client_record(1).unwrap();
    assert_eq!(cr.available, 100000);
    assert_eq!(cr.held, 0);
    assert_eq!(cr.total, 100000);
}

#[test]
fn unknown_reference_fails_and_account_unmodified() {
    let mut p = prep("/tmp/koala_en_ref_tmp.csv", "/tmp/koala_en_ref_out.csv");
    dispatch_tx(&mut p, tx("deposit", 1, "1", Some(100000))).unwrap();

    let missing = Err(KoalaError::PartnerError);
    assert_eq!(p.dispute_tx(&tx("dispute", 1, "42", None)), missing);
    assert_eq!(p.resolve_tx(&tx("resolve", 1, "42", None)), missing);
    assert_eq!(p.chargeback_tx(&tx("chargeback", 1, "42", None)), missing);

    // A rejected deposit is not journaled, so its identifier is no
    // valid dispute target either.
    assert_eq!(
        p.deposit_tx(tx("deposit", 1, "43", Some(-5))),
        Err(KoalaError::InputError)
    );
    assert_eq!(p.dispute_tx(&tx("dispute", 1, "43", None)), missing);

    let cr = p.get_client_record(1).unwrap();
    assert_eq!(cr.available, 100000);
    assert_eq!(cr.held, 0);
    assert_eq!(cr.total, 100000);
}

#[test]
fn missing_or_nonpositive_amount_is_input_error() {
    let mut p = prep("/tmp/koala_en_amt_tmp.csv", "/tmp/koala_en_amt_out.csv");
    let bad = Err(KoalaError::InputError);
    assert_eq!(p.deposit_tx(tx("deposit", 1, "1", None)), bad);
    assert_eq!(p.deposit_tx(tx("deposit", 1, "2", Some(0))), bad);
    assert_eq!(p.deposit_tx(tx("deposit", 1, "3", Some(-100000))), bad);
    assert_eq!(p.withdrawal_tx(tx("withdrawal", 1, "4", None)), bad);
    let cr = p.get_client_record(1).unwrap();
    assert_eq!((cr.available, cr.held, cr.total, cr.locked), (0, 0, 0, false));
}

#[test]
fn unrecognized_kind_is_input_error() {
    let mut p = prep("/tmp/koala_en_kind_tmp.csv", "/tmp/koala_en_kind_out.csv");
    let r = dispatch_tx(&mut p, tx("Deposit", 1, "1", Some(100000)));
    assert_eq!(r, Err(KoalaError::InputError));
    let r = dispatch_tx(&mut p, tx("transfer", 1, "1", Some(100000)));
    assert_eq!(r, Err(KoalaError::InputError));
    let cr = p.get_client_record(1).unwrap();
    assert_eq!(cr.total, 0);
}

#[test]
fn missing_table_file_is_storage_error() {
    // No file is created here, so the first read of the live table
    // fails and the failure is reported as a storage error.
    let mut p = CSVProcessor::new(
        "/tmp/koala_en_missing_tmp.csv".to_string(),
        "/tmp/koala_en_missing_nowhere/out.csv".to_string(),
    )
    .unwrap();
    let r = p.deposit_tx(tx("deposit", 1, "1", Some(100000)));
    assert_eq!(r, Err(KoalaError::StorageError));
}

#[test]
fn dispatch_runs_against_db_backend_too() {
    let conn = rusqlite::Connection::open("/tmp/koala_en_db.sqlite").unwrap();
    conn.execute("DROP TABLE IF EXISTS CLIENT_RECORDS", ()).unwrap();
    drop(conn);
    let mut p = DBProcessor::new("/tmp/koala_en_db.sqlite".to_string()).unwrap();
    dispatch_tx(&mut p, tx("deposit", 1, "1", Some(100000))).unwrap();
    dispatch_tx(&mut p, tx("dispute", 1, "1", None)).unwrap();
    dispatch_tx(&mut p, tx("resolve", 1, "1", None)).unwrap();
    let cr = p.get_client_record(1).unwrap();
    assert_eq!(cr.available, 100000);
    assert_eq!(cr.held, 0);
    assert_eq!(cr.total, 100000);
}

#[test]
fn tx_kind_matches_exactly() {
    assert_eq!(tx_kind(&"deposit".to_string()), TxKind::Deposit);
    assert_eq!(tx_kind(&"withdrawal".to_string()), TxKind::Withdrawal);
    assert_eq!(tx_kind(&"dispute".to_string()), TxKind::Dispute);
    assert_eq!(tx_kind(&"resolve".to_string()), TxKind::Resolve);
    assert_eq!(tx_kind(&"chargeback".to_string()), TxKind::Chargeback);
    assert_eq!(tx_kind(&"DEPOSIT".to_string()), TxKind::Unknown);
    assert_eq!(tx_kind(&"".to_string()), TxKind::Unknown);
}

#[test]
fn transaction_new_keeps_fields() {
    let t = Transaction::new("deposit".to_string(), 3, "17".to_string(), Some(42));
    assert_eq!(t.tx_type, "deposit");
    assert_eq!(t.client, 3);
    assert_eq!(t.tx, "17");
    assert_eq!(t.amount, Some(42));
}
