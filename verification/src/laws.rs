use vstd::prelude::*;

use crate::environment::lemma_free_slot_props;
use crate::environment::lemma_handle_slot_first;
use crate::environment::lemma_handle_slot_props;
use crate::environment::BuilderView;
use crate::environment::EnvView;
use crate::environment::Environment;
use crate::environment::Transaction;
use crate::error::Error;
use crate::store::StoreView;

verus! {

/// Opening a location whose backing files were never created succeeds
/// whenever the request is not read-only, and creates the backing storage;
/// a second open of the same location — read-only or not — then succeeds
/// as well.
pub proof fn lemma_open_creates_and_reopens(first: BuilderView, again: BuilderView, s: StoreView)
    requires
        !first.is_read_only(),
    ensures
        !first.refused(s),
        first.opened(s).store.exists,
        !again.refused(first.opened(s).store),
{
}

/// On an environment configured with named-database slots, a successful
/// creation makes a later resolution of the same name — which itself never
/// creates — succeed, with the same handle, and leaves the database
/// carrying exactly the widened flag word.
pub proof fn lemma_create_then_open_named(v: EnvView, name: Seq<char>, flags: u32)
    requires
        v.wf(),
        v.max_dbs > 0,
        v.create_db_ok(Some(name)),
    ensures
        v.create_db_env(Some(name), flags).open_db_ok(Some(name)),
        v.create_db_env(Some(name), flags).open_db_dbi(Some(name)) == v.create_db_dbi(
            Some(name),
        ),
        v.create_db_env(Some(name), flags).store.named.contains_key(name),
        v.create_db_env(Some(name), flags).store.named[name] == v.merged_flags(
            Some(name),
            flags,
        ),
{
    let w = v.create_db_env(Some(name), flags);
    lemma_handle_slot_props(v.handles, name, 0);
    if v.has_handle(name) {
        assert(w.handles == v.handles);
    } else {
        lemma_free_slot_props(v.handles, 0);
        let a = v.alloc_slot();
        if a < v.handles.len() {
            assert(w.handles[a] == Some(name));
            assert(forall|j: int| 0 <= j < a ==> w.handles[j] == v.handles[j]);
            lemma_handle_slot_first(w.handles, name, 0, a);
        } else {
            assert(w.handles[v.handles.len() as int] == Some(name));
            assert(forall|j: int|
                0 <= j < v.handles.len() ==> w.handles[j] == v.handles[j]);
            lemma_handle_slot_first(w.handles, name, 0, v.handles.len() as int);
        }
    }
}

/// Resolving a named database that was never created fails, and fails with
/// `NotFound`: on a well-formed environment with named-database slots
/// configured, a name the store does not know has no open handle either.
pub proof fn lemma_open_before_create_not_found(v: EnvView, name: Seq<char>)
    requires
        v.wf(),
        v.max_dbs > 0,
        !v.store.named.contains_key(name),
    ensures
        !v.open_db_ok(Some(name)),
        v.open_db_err(Some(name)) == Error::NotFound,
{
    if v.has_handle(name) {
        lemma_handle_slot_props(v.handles, name, 0);
    }
}

/// While an environment holds any read-write session open, the write lock
/// is held: together with `begin_write_txn`'s precondition, a second
/// read-write transaction cannot be begun until the first is committed or
/// aborted — which are the operations whose contracts release the lock.
pub proof fn lemma_write_lock_held(env: &Environment, txn: &Transaction)
    requires
        env@.owns(*txn),
        txn.mode_spec() is ReadWrite,
    ensures
        env@.has_open_write(),
{
}

/// At most one read-write transaction is active per environment: any two
/// read-write sessions an environment holds open are the same session.
pub proof fn lemma_single_writer(env: &Environment, first: &Transaction, second: &Transaction)
    requires
        env.wf(),
        env@.owns(*first),
        env@.owns(*second),
        first.mode_spec() is ReadWrite,
        second.mode_spec() is ReadWrite,
    ensures
        first.id() == second.id(),
{
}

} // verus!
