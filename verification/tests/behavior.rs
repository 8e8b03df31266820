use lmdb::DatabaseFlags;
use lmdb::Environment;
use lmdb::EnvironmentFlags;
use lmdb::Error;
use lmdb::Store;
use lmdb::TransactionMode;

fn open_writable(store: Store, max_dbs: u32) -> lmdb::Environment {
    match Environment::new().set_max_dbs(max_dbs).open(store, 0o700) {
        Ok(env) => env,
        Err(_) => panic!("writable open failed"),
    }
}

#[test]
fn named_db_create_then_open_with_empty_flags() {
    let store = Store::new();
    let mut env = open_writable(store, 10);

    match env.open_db(Some("x")) {
        Err(err) => assert_eq!(err, Error::NotFound),
        Ok(_) => panic!("resolution before creation succeeded"),
    }
    let created = match env.create_db(Some("x"), DatabaseFlags::empty()) {
        Ok(db) => db,
        Err(_) => panic!("creation failed"),
    };
    let resolved = match env.open_db(Some("x")) {
        Ok(db) => db,
        Err(_) => panic!("resolution after creation failed"),
    };
    assert_eq!(created, resolved);
    match env.get_db_flags(resolved) {
        Ok(flags) => assert_eq!(flags, DatabaseFlags::empty()),
        Err(_) => panic!("flag query failed"),
    }
}

#[test]
fn create_db_widens_flags() {
    let store = Store::new();
    let mut env = open_writable(store, 10);

    assert!(env.create_db(Some("x"), DatabaseFlags::reverse_key()).is_ok());
    let db = match env.create_db(Some("x"), DatabaseFlags::dup_sort()) {
        Ok(db) => db,
        Err(_) => panic!("second creation failed"),
    };
    let expected = DatabaseFlags::reverse_key().union(DatabaseFlags::dup_sort());
    match env.get_db_flags(db) {
        Ok(flags) => assert_eq!(flags, expected),
        Err(_) => panic!("flag query failed"),
    }
}

#[test]
fn default_db_flags_widen() {
    let store = Store::new();
    let mut env = open_writable(store, 0);

    assert!(env.create_db(None, DatabaseFlags::dup_sort()).is_ok());
    let db = match env.open_db(None) {
        Ok(db) => db,
        Err(_) => panic!("default resolution failed"),
    };
    assert_eq!(db.dbi(), 0);
    match env.get_db_flags(db) {
        Ok(flags) => assert!(flags.contains(DatabaseFlags::dup_sort())),
        Err(_) => panic!("flag query failed"),
    }
}

#[test]
fn read_only_environment_refuses_writes() {
    let store = Store::new();
    let store = open_writable(store, 10).close();
    let mut env = match Environment::new()
        .set_flags(EnvironmentFlags::read_only())
        .set_max_dbs(10)
        .open(store, 0o700)
    {
        Ok(env) => env,
        Err(_) => panic!("read-only reopen failed"),
    };
    match env.begin_write_txn() {
        Err(err) => assert_eq!(err, Error::PermissionDenied),
        Ok(_) => panic!("write transaction on a read-only environment"),
    }
    match env.create_db(Some("x"), DatabaseFlags::empty()) {
        Err(err) => assert_eq!(err, Error::PermissionDenied),
        Ok(_) => panic!("creation on a read-only environment"),
    }
}

#[test]
fn named_dbs_need_configured_slots() {
    let store = Store::new();
    let mut env = open_writable(store, 0);
    match env.open_db(Some("x")) {
        Err(err) => assert_eq!(err, Error::DbsFull),
        Ok(_) => panic!("named resolution without slots succeeded"),
    }
    match env.create_db(Some("x"), DatabaseFlags::empty()) {
        Err(err) => assert_eq!(err, Error::DbsFull),
        Ok(_) => panic!("named creation without slots succeeded"),
    }
}

#[test]
fn named_db_slots_exhaust() {
    let store = Store::new();
    let mut env = open_writable(store, 1);
    assert!(env.create_db(Some("a"), DatabaseFlags::empty()).is_ok());
    match env.create_db(Some("b"), DatabaseFlags::empty()) {
        Err(err) => assert_eq!(err, Error::DbsFull),
        Ok(_) => panic!("creation beyond the slot limit succeeded"),
    }
}

#[test]
fn close_db_frees_the_slot() {
    let store = Store::new();
    let mut env = open_writable(store, 1);
    let first = match env.create_db(Some("a"), DatabaseFlags::empty()) {
        Ok(db) => db,
        Err(_) => panic!("creation failed"),
    };
    assert_eq!(first.dbi(), 1);
    env.close_db(first);
    let second = match env.create_db(Some("b"), DatabaseFlags::empty()) {
        Ok(db) => db,
        Err(_) => panic!("creation after closing failed"),
    };
    assert_eq!(second.dbi(), 1);
}

#[test]
fn named_dbs_persist_across_reopen() {
    let store = Store::new();
    let mut env = open_writable(store, 10);
    assert!(env.create_db(Some("kept"), DatabaseFlags::empty()).is_ok());
    let store = env.close();
    let mut env = open_writable(store, 10);
    assert!(env.open_db(Some("kept")).is_ok());
}

#[test]
fn transaction_modes_and_commit() {
    let store = Store::new();
    let mut env = open_writable(store, 0);
    let txn = match env.begin_read_txn() {
        Ok(txn) => txn,
        Err(_) => panic!("read transaction failed"),
    };
    assert_eq!(txn.mode(), TransactionMode::ReadOnly);
    assert!(txn.commit(&mut env).is_ok());
    let txn = match env.begin_write_txn() {
        Ok(txn) => txn,
        Err(_) => panic!("write transaction failed"),
    };
    assert_eq!(txn.mode(), TransactionMode::ReadWrite);
    assert!(txn.commit(&mut env).is_ok());
}

#[test]
fn sync_without_force_succeeds() {
    let store = Store::new();
    let mut env = open_writable(store, 0);
    assert!(env.sync(false).is_ok());
}

#[test]
fn builder_reuse_opens_independent_environments() {
    let builder = Environment::new().set_max_dbs(2).set_max_readers(64).set_map_size(1 << 20);
    let first = match builder.open(Store::new(), 0o700) {
        Ok(env) => env,
        Err(_) => panic!("first open failed"),
    };
    let mut second = match builder.open(Store::new(), 0o700) {
        Ok(env) => env,
        Err(_) => panic!("second open failed"),
    };
    assert!(second.create_db(Some("only-here"), DatabaseFlags::empty()).is_ok());
    let mut first = first;
    match first.open_db(Some("only-here")) {
        Err(err) => assert_eq!(err, Error::NotFound),
        Ok(_) => panic!("environments shared state"),
    }
}
