use lmdb::DatabaseFlags;
use lmdb::Environment;
use lmdb::EnvironmentFlags;
use lmdb::Error;
use lmdb::Store;

#[test]
fn test_open() {
    let store = Store::new();

    // opening a non-existent location with read-only should fail
    let refused = Environment::new()
        .set_flags(EnvironmentFlags::read_only())
        .open(store, 0o700);
    assert!(refused.is_err());
    let store = match refused {
        Err((store, err)) => {
            assert_eq!(err, Error::NotFound);
            store
        }
        Ok(_) => panic!("read-only open of a non-existent location succeeded"),
    };

    // opening a non-existent location should not fail
    let opened = Environment::new().open(store, 0o700);
    assert!(opened.is_ok());
    let store = match opened {
        Ok(env) => env.close(),
        Err(_) => panic!("writable open of a non-existent location failed"),
    };

    // opening the created location with read-only should not fail
    assert!(Environment::new()
        .set_flags(EnvironmentFlags::read_only())
        .open(store, 0o700)
        .is_ok());
}

#[test]
fn test_begin_txn() {
    let store = Store::new();
    let mut env = match Environment::new().open(store, 0o700) {
        Ok(env) => env,
        Err(_) => panic!("open failed"),
    };

    {
        // writable environment, read-write transaction
        let txn = env.begin_write_txn();
        assert!(txn.is_ok());
        match txn {
            Ok(txn) => txn.abort(&mut env),
            Err(_) => unreachable!(),
        }
    }
    {
        // writable environment, read-only transaction
        let txn = env.begin_read_txn();
        assert!(txn.is_ok());
        match txn {
            Ok(txn) => txn.abort(&mut env),
            Err(_) => unreachable!(),
        }
    }

    let store = env.close();
    let mut env = match Environment::new()
        .set_flags(EnvironmentFlags::read_only())
        .open(store, 0o700)
    {
        Ok(env) => env,
        Err(_) => panic!("read-only reopen failed"),
    };

    {
        // read-only environment, read-write transaction
        assert!(env.begin_write_txn().is_err());
    }
    {
        // read-only environment, read-only transaction
        let txn = env.begin_read_txn();
        assert!(txn.is_ok());
        match txn {
            Ok(txn) => txn.abort(&mut env),
            Err(_) => unreachable!(),
        }
    }
}

#[test]
fn test_open_db() {
    let store = Store::new();
    let mut env = match Environment::new().set_max_dbs(10).open(store, 0o700) {
        Ok(env) => env,
        Err(_) => panic!("open failed"),
    };
    assert!(env.open_db(None).is_ok());
    assert!(env.open_db(Some("testdb")).is_err());
}

#[test]
fn test_create_db() {
    let store = Store::new();
    let mut env = match Environment::new().set_max_dbs(10).open(store, 0o700) {
        Ok(env) => env,
        Err(_) => panic!("open failed"),
    };
    assert!(env.open_db(Some("testdb")).is_err());
    assert!(env.create_db(Some("testdb"), DatabaseFlags::empty()).is_ok());
    assert!(env.open_db(Some("testdb")).is_ok());
}

#[test]
fn test_sync() {
    let store = Store::new();
    let store = {
        let mut env = match Environment::new().open(store, 0o700) {
            Ok(env) => env,
            Err(_) => panic!("open failed"),
        };
        assert!(env.sync(true).is_ok());
        env.close()
    };
    {
        let mut env = match Environment::new()
            .set_flags(EnvironmentFlags::read_only())
            .open(store, 0o700)
        {
            Ok(env) => env,
            Err(_) => panic!("read-only reopen failed"),
        };
        assert!(env.sync(true).is_ok());
    }
}
