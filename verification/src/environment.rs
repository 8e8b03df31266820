use vstd::prelude::*;

use crate::database::Database;
use crate::error::Error;
use crate::flags::DatabaseFlags;
use crate::flags::EnvironmentFlags;
use crate::flags::ENV_NO_META_SYNC;
use crate::flags::ENV_NO_SYNC;
use crate::flags::ENV_READ_ONLY;
use crate::store::Store;
use crate::store::StoreView;

verus! {

/// Reader slots configured when the builder leaves the limit unset.
pub const DEFAULT_MAX_READERS: u32 = 126;

/// Memory-map size, in bytes, configured when the builder leaves it unset.
pub const DEFAULT_MAP_SIZE: usize = 10485760;

/// Whether a transaction reads only, or reads and writes.
#[derive(Clone, Copy, Debug, PartialEq, Eq, Structural)]
pub enum TransactionMode {
    ReadOnly,
    ReadWrite,
}

/// An environment as this layer observes it: the backing store, the
/// configuration fixed at open time, the table of named-database handle
/// slots (slot `i` answers to handle number `i + 1`; handle number zero is
/// the default database), the sessions currently open against it, and
/// whether the operating-system buffers are known flushed.
#[verifier::ext_equal]
pub ghost struct EnvView {
    pub store: StoreView,
    pub flags: u32,
    pub max_readers: u32,
    pub max_dbs: u32,
    pub map_size: usize,
    pub handles: Seq<Option<Seq<char>>>,
    pub open_txns: Map<int, TransactionMode>,
    pub next_txn: int,
    pub flushed: bool,
}

/// The first index at or after `i` whose slot holds the name, or the table's
/// length where none does.
pub open spec fn handle_slot(hs: Seq<Option<Seq<char>>>, name: Seq<char>, i: int) -> int
    decreases hs.len() - i,
{
    if i < 0 || i >= hs.len() {
        hs.len() as int
    } else if hs[i] == Some(name) {
        i
    } else {
        handle_slot(hs, name, i + 1)
    }
}

/// The first index at or after `i` whose slot is free, or the table's length
/// where none is.
pub open spec fn free_slot(hs: Seq<Option<Seq<char>>>, i: int) -> int
    decreases hs.len() - i,
{
    if i < 0 || i >= hs.len() {
        hs.len() as int
    } else if hs[i] is None {
        i
    } else {
        free_slot(hs, i + 1)
    }
}

/// What the slot search promises: the index it returns lies between the
/// start and the table's length; a found slot holds the name; and no slot
/// between the start and the found one does.
pub proof fn lemma_handle_slot_props(hs: Seq<Option<Seq<char>>>, name: Seq<char>, i: int)
    requires
        0 <= i <= hs.len(),
    ensures
        i <= handle_slot(hs, name, i) <= hs.len(),
        handle_slot(hs, name, i) < hs.len() ==> hs[handle_slot(hs, name, i)] == Some(name),
        forall|j: int| i <= j < handle_slot(hs, name, i) ==> hs[j] != Some(name),
    decreases hs.len() - i,
{
    if i < hs.len() && hs[i] != Some(name) {
        lemma_handle_slot_props(hs, name, i + 1);
    }
}

/// A slot that holds the name, with none before it holding the name, is the
/// one the search finds.
pub proof fn lemma_handle_slot_first(hs: Seq<Option<Seq<char>>>, name: Seq<char>, i: int, k: int)
    requires
        0 <= i <= k < hs.len(),
        hs[k] == Some(name),
        forall|j: int| i <= j < k ==> hs[j] != Some(name),
    ensures
        handle_slot(hs, name, i) == k,
    decreases k - i,
{
    if i < k {
        lemma_handle_slot_first(hs, name, i + 1, k);
    }
}

/// What the free-slot search promises, likewise.
pub proof fn lemma_free_slot_props(hs: Seq<Option<Seq<char>>>, i: int)
    requires
        0 <= i <= hs.len(),
    ensures
        i <= free_slot(hs, i) <= hs.len(),
        free_slot(hs, i) < hs.len() ==> hs[free_slot(hs, i)] is None,
        forall|j: int| i <= j < free_slot(hs, i) ==> !(hs[j] is None),
    decreases hs.len() - i,
{
    if i < hs.len() && !(hs[i] is None) {
        lemma_free_slot_props(hs, i + 1);
    }
}

/// The name a caller hands to handle resolution, as the sequence of its
/// characters; the default database is addressed namelessly.
pub open spec fn name_view(name: Option<&str>) -> Option<Seq<char>> {
    match name {
        Some(s) => Some(s@),
        None => None,
    }
}

impl EnvView {
    /// Whether the environment was opened read-only.
    pub open spec fn is_read_only(self) -> bool {
        self.flags & ENV_READ_ONLY != 0
    }

    /// Whether the environment was opened with commits exempted from
    /// flushing the system buffers, fully or for metadata.
    pub open spec fn defers_sync(self) -> bool {
        self.flags & ENV_NO_SYNC != 0 || self.flags & ENV_NO_META_SYNC != 0
    }

    /// Whether a read-write session is open: the environment-wide write lock
    /// is held.
    pub open spec fn has_open_write(self) -> bool {
        exists|i: int|
            #[trigger] self.open_txns.contains_key(i) && self.open_txns[i] is ReadWrite
    }

    /// The slot index of the open handle for this name, or the table's
    /// length where the name has no open handle.
    pub open spec fn handle_of(self, name: Seq<char>) -> int {
        handle_slot(self.handles, name, 0)
    }

    /// Whether this name already has an open handle.
    pub open spec fn has_handle(self, name: Seq<char>) -> bool {
        self.handle_of(name) < self.handles.len()
    }

    /// The slot a fresh handle would take: the first free slot, or the
    /// table's length where the table must grow.
    pub open spec fn alloc_slot(self) -> int {
        free_slot(self.handles, 0)
    }

    /// Whether a fresh handle can be issued: a slot is free for reuse, or
    /// the table is still below the configured named-database limit.
    pub open spec fn can_alloc(self) -> bool {
        self.alloc_slot() < self.handles.len() || self.handles.len() < self.max_dbs
    }

    /// The environment with a handle for this name installed in the slot
    /// that allocation picks.
    pub open spec fn with_handle(self, name: Seq<char>) -> EnvView {
        if self.alloc_slot() < self.handles.len() {
            EnvView { handles: self.handles.update(self.alloc_slot(), Some(name)), ..self }
        } else {
            EnvView { handles: self.handles.push(Some(name)), ..self }
        }
    }

    /// Whether this handle number was issued and is still open.
    pub open spec fn valid_db(self, dbi: u32) -> bool {
        dbi == 0 || (1 <= dbi && dbi <= self.handles.len() && self.handles[dbi - 1] is Some)
    }

    /// The flag word of the database this handle identifies.
    pub open spec fn db_flags(self, dbi: u32) -> u32 {
        if dbi == 0 {
            self.store.default_flags
        } else {
            self.store.named[self.handles[dbi - 1]->Some_0]
        }
    }

    /// Well-formedness: the backing files exist for the environment's whole
    /// lifetime; the handle table stays within the configured limit and
    /// holds only names the store knows; open sessions bear identifiers
    /// below the issue counter; and at most one of them is read-write —
    /// none at all on a read-only environment.
    pub open spec fn wf(self) -> bool {
        &&& self.store.exists
        &&& self.handles.len() <= self.max_dbs
        &&& (forall|i: int|
            0 <= i < self.handles.len() && (#[trigger] self.handles[i]) is Some
                ==> self.store.named.contains_key(self.handles[i]->Some_0))
        &&& (forall|i: int|
            #[trigger] self.open_txns.contains_key(i) ==> i < self.next_txn)
        &&& (forall|i: int, j: int|
            #[trigger] self.open_txns.contains_key(i) && #[trigger] self.open_txns.contains_key(j)
                && self.open_txns[i] is ReadWrite && self.open_txns[j] is ReadWrite ==> i == j)
        &&& (self.is_read_only() ==> !self.has_open_write())
    }

    /// Whether the environment issued this session and it is still open.
    pub open spec fn owns(self, txn: Transaction) -> bool {
        self.open_txns.contains_key(txn.id()) && self.open_txns[txn.id()] == txn.mode_spec()
    }

    /// Whether resolving (without creating) succeeds: the default database
    /// always resolves; a named one needs named-database slots configured
    /// and either an open handle already, or existence in the store with a
    /// handle slot obtainable.
    pub open spec fn open_db_ok(self, name: Option<Seq<char>>) -> bool {
        match name {
            None => true,
            Some(n) => self.max_dbs > 0 && (self.has_handle(n) || (self.store.named.contains_key(n)
                && self.can_alloc())),
        }
    }

    /// The error resolution reports when it fails.
    pub open spec fn open_db_err(self, name: Option<Seq<char>>) -> Error {
        match name {
            None => Error::NotFound,
            Some(n) => if self.max_dbs == 0 {
                Error::DbsFull
            } else if !self.store.named.contains_key(n) {
                Error::NotFound
            } else {
                Error::DbsFull
            },
        }
    }

    /// The handle number resolution returns when it succeeds.
    pub open spec fn open_db_dbi(self, name: Option<Seq<char>>) -> int {
        match name {
            None => 0,
            Some(n) => if self.has_handle(n) {
                self.handle_of(n) + 1
            } else {
                self.alloc_slot() + 1
            },
        }
    }

    /// The environment after successful resolution: unchanged but for a
    /// possibly fresh handle and the spent session identifier.
    pub open spec fn open_db_env(self, name: Option<Seq<char>>) -> EnvView {
        let resolved = match name {
            None => self,
            Some(n) => if self.has_handle(n) {
                self
            } else {
                self.with_handle(n)
            },
        };
        EnvView { next_txn: self.next_txn + 1, ..resolved }
    }

    /// Whether creating (or widening) succeeds: never on a read-only
    /// environment; namelessly otherwise always; a named database needs
    /// named-database slots configured and either an open handle already or
    /// a handle slot obtainable.
    pub open spec fn create_db_ok(self, name: Option<Seq<char>>) -> bool {
        &&& !self.is_read_only()
        &&& match name {
            None => true,
            Some(n) => self.max_dbs > 0 && (self.has_handle(n) || self.can_alloc()),
        }
    }

    /// The error creation reports when it fails.
    pub open spec fn create_db_err(self, name: Option<Seq<char>>) -> Error {
        if self.is_read_only() {
            Error::PermissionDenied
        } else {
            Error::DbsFull
        }
    }

    /// The flag word the database carries after creation: the given word,
    /// widening whatever word the database already carried.
    pub open spec fn merged_flags(self, name: Option<Seq<char>>, flags: u32) -> u32 {
        match name {
            None => self.store.default_flags | flags,
            Some(n) => if self.store.named.contains_key(n) {
                self.store.named[n] | flags
            } else {
                flags
            },
        }
    }

    /// The handle number creation returns when it succeeds.
    pub open spec fn create_db_dbi(self, name: Option<Seq<char>>) -> int {
        self.open_db_dbi(name)
    }

    /// The environment after successful creation: the store records the
    /// widened database, a handle is open for it, the committed write
    /// transaction has spent an identifier, and the buffers are flushed
    /// exactly where commits flush them.
    pub open spec fn create_db_env(self, name: Option<Seq<char>>, flags: u32) -> EnvView {
        let stored = match name {
            None => EnvView {
                store: StoreView {
                    default_flags: self.store.default_flags | flags,
                    ..self.store
                },
                ..self
            },
            Some(n) => EnvView {
                store: StoreView {
                    named: self.store.named.insert(n, self.merged_flags(name, flags)),
                    ..self.store
                },
                ..self
            },
        };
        let resolved = match name {
            None => stored,
            Some(n) => if self.has_handle(n) {
                stored
            } else {
                stored.with_handle(n)
            },
        };
        EnvView { next_txn: self.next_txn + 1, flushed: !self.defers_sync(), ..resolved }
    }
}

/// A read-only or read-write session against an environment. A session is
/// active from its issue until it is consumed, exactly once, by `commit` or
/// `abort`; the type allows no operation after either. While a read-write
/// session is active it holds the environment-wide write lock, and the
/// environment issues no second one.
pub struct Transaction {
    mode: TransactionMode,
    id: Ghost<int>,
}

impl Transaction {
    /// The identifier under which the issuing environment carries this
    /// session.
    pub closed spec fn id(self) -> int {
        self.id@
    }

    /// Whether the session reads only, or reads and writes.
    pub closed spec fn mode_spec(self) -> TransactionMode {
        self.mode
    }

    /// Whether the session reads only, or reads and writes.
    pub fn mode(&self) -> (r: TransactionMode)
        ensures
            r == self.mode_spec(),
    {
        self.mode
    }

    /// Ends the session, keeping its effects: a read-write session durably
    /// applies its view and releases the write lock, a read-only one simply
    /// releases its snapshot. Commits of read-write sessions flush the
    /// system buffers unless the environment defers its syncs.
    pub fn commit(self, env: &mut Environment) -> (r: Result<(), Error>)
        requires
            old(env).wf(),
            old(env)@.owns(self),
        ensures
            final(env).wf(),
            r is Ok,
            final(env)@ == (EnvView {
                open_txns: old(env)@.open_txns.remove(self.id()),
                flushed: if self.mode_spec() is ReadWrite {
                    !old(env)@.defers_sync()
                } else {
                    old(env)@.flushed
                },
                ..old(env)@
            }),
            !final(env)@.owns(self),
            self.mode_spec() is ReadWrite ==> !final(env)@.has_open_write(),
    {
        match self.mode {
            TransactionMode::ReadWrite => {
                env.flushed = !env.flags.sync_deferred();
            },
            TransactionMode::ReadOnly => {},
        }
        env.open_txns = Ghost(env.open_txns@.remove(self.id@));
        proof {
            if self.mode_spec() is ReadWrite {
                assert forall|i: int| !(#[trigger] env@.open_txns.contains_key(i)
                    && env@.open_txns[i] is ReadWrite) by {
                    if env@.open_txns.contains_key(i) && env@.open_txns[i] is ReadWrite {
                        assert(old(env)@.open_txns.contains_key(i));
                        assert(old(env)@.open_txns.contains_key(self.id()));
                    }
                }
            }
        }
        Ok(())
    }

    /// Ends the session, discarding any modifications, and releases the
    /// write lock where the session was read-write. Every session not
    /// committed must be ended this way before its environment closes.
    pub fn abort(self, env: &mut Environment)
        requires
            old(env).wf(),
            old(env)@.owns(self),
        ensures
            final(env).wf(),
            final(env)@ == (EnvView {
                open_txns: old(env)@.open_txns.remove(self.id()),
                ..old(env)@
            }),
            !final(env)@.owns(self),
            self.mode_spec() is ReadWrite ==> !final(env)@.has_open_write(),
    {
        env.open_txns = Ghost(env.open_txns@.remove(self.id@));
        proof {
            if self.mode_spec() is ReadWrite {
                assert forall|i: int| !(#[trigger] env@.open_txns.contains_key(i)
                    && env@.open_txns[i] is ReadWrite) by {
                    if env@.open_txns.contains_key(i) && env@.open_txns[i] is ReadWrite {
                        assert(old(env)@.open_txns.contains_key(i));
                        assert(old(env)@.open_txns.contains_key(self.id()));
                    }
                }
            }
        }
    }
}

/// An open environment: one engine instance and its shared memory map. It
/// issues transactions and database handles and owns every resource they
/// stand on, so no handle or transaction may be used past its closing —
/// which the exclusive receivers of the methods here and the consuming
/// `close` enforce statically, where the engine's own contract leaves the
/// same rules to the caller.
///
/// Handle-table mutation (`open_db`, `create_db`, `close_db`) is serialized:
/// the exclusive receiver stands in for the dedicated mutual-exclusion guard
/// the layer holds around the engine's handle table, which is distinct from
/// the write-transaction lock.
pub struct Environment {
    store: Store,
    flags: EnvironmentFlags,
    max_readers: u32,
    max_dbs: u32,
    map_size: usize,
    handles: Vec<Option<String>>,
    open_txns: Ghost<Map<int, TransactionMode>>,
    next_txn: Ghost<int>,
    flushed: bool,
}

impl View for Environment {
    type V = EnvView;

    closed spec fn view(&self) -> EnvView {
        EnvView {
            store: self.store@,
            flags: self.flags@,
            max_readers: self.max_readers,
            max_dbs: self.max_dbs,
            map_size: self.map_size,
            handles: self.handles@.map_values(|slot: Option<String>| match slot {
                Some(name) => Some(name@),
                None => None,
            }),
            open_txns: self.open_txns@,
            next_txn: self.next_txn@,
            flushed: self.flushed,
        }
    }
}

impl Environment {
    /// Well-formedness of the layer's bookkeeping; established at open and
    /// preserved by every operation.
    pub open spec fn wf(&self) -> bool {
        self@.wf()
    }

    /// Creates a new builder for specifying options for opening an
    /// environment.
    pub fn new() -> (r: EnvironmentBuilder)
        ensures
            r@ == (BuilderView {
                flags: 0,
                max_readers: None,
                max_dbs: None,
                map_size: None,
            }),
    {
        EnvironmentBuilder {
            flags: EnvironmentFlags::empty(),
            max_readers: None,
            max_dbs: None,
            map_size: None,
        }
    }

    /// Issues a read-only transaction. Any number of read-only sessions may
    /// be open at once, on writable and on read-only environments alike.
    pub fn begin_read_txn(&mut self) -> (r: Result<Transaction, Error>)
        requires
            old(self).wf(),
        ensures
            final(self).wf(),
            r is Ok,
            r->Ok_0.mode_spec() == TransactionMode::ReadOnly,
            r->Ok_0.id() == old(self)@.next_txn,
            final(self)@.owns(r->Ok_0),
            final(self)@ == (EnvView {
                open_txns: old(self)@.open_txns.insert(old(self)@.next_txn,
                    TransactionMode::ReadOnly),
                next_txn: old(self)@.next_txn + 1,
                ..old(self)@
            }),
    {
        let ghost id = self.next_txn@;
        let txn = Transaction { mode: TransactionMode::ReadOnly, id: Ghost(id) };
        self.open_txns = Ghost(self.open_txns@.insert(id, TransactionMode::ReadOnly));
        self.next_txn = Ghost(id + 1);
        Ok(txn)
    }

    /// Issues the one read-write transaction, taking the environment-wide
    /// write lock, or reports `PermissionDenied` on an environment opened
    /// read-only. While a read-write session is open, a further request
    /// would not return until that session ends; the precondition keeps a
    /// sequential caller from blocking itself forever.
    pub fn begin_write_txn(&mut self) -> (r: Result<Transaction, Error>)
        requires
            old(self).wf(),
            !old(self)@.has_open_write(),
        ensures
            final(self).wf(),
            old(self)@.is_read_only() ==> r == Err::<Transaction, Error>(Error::PermissionDenied)
                && final(self)@ == old(self)@,
            !old(self)@.is_read_only() ==> {
                &&& r is Ok
                &&& r->Ok_0.mode_spec() == TransactionMode::ReadWrite
                &&& r->Ok_0.id() == old(self)@.next_txn
                &&& final(self)@.owns(r->Ok_0)
                &&& final(self)@.has_open_write()
                &&& final(self)@ == (EnvView {
                    open_txns: old(self)@.open_txns.insert(old(self)@.next_txn,
                        TransactionMode::ReadWrite),
                    next_txn: old(self)@.next_txn + 1,
                    ..old(self)@
                })
            },
    {
        if self.flags.read_only_set() {
            return Err(Error::PermissionDenied);
        }
        let ghost id = self.next_txn@;
        let txn = Transaction { mode: TransactionMode::ReadWrite, id: Ghost(id) };
        self.open_txns = Ghost(self.open_txns@.insert(id, TransactionMode::ReadWrite));
        self.next_txn = Ghost(id + 1);
        Ok(txn)
    }

    /// The slot index of the open handle bearing this name, where one does.
    fn find_handle(&self, name: &String) -> (r: Option<usize>)
        ensures
            match r {
                Some(i) => i < self@.handles.len() && self@.handle_of(name@) == i,
                None => !self@.has_handle(name@),
            },
    {
        let ghost hs = self@.handles;
        let n = self.handles.len();
        let mut i: usize = 0;
        while i < n
            invariant
                i <= n,
                n == self.handles.len(),
                hs == self@.handles,
                handle_slot(hs, name@, 0) == handle_slot(hs, name@, i as int),
            decreases n - i,
        {
            let found = match &self.handles[i] {
                Some(s) => s.eq(name),
                None => false,
            };
            if found {
                proof {
                    assert(hs[i as int] == Some(name@));
                    assert(handle_slot(hs, name@, i as int) == i as int);
                }
                return Some(i);
            }
            proof {
                assert(hs[i as int] != Some(name@));
                assert(handle_slot(hs, name@, i as int) == handle_slot(hs, name@, i as int + 1));
            }
            i = i + 1;
        }
        None
    }

    /// The first free handle slot, where one is.
    fn find_free(&self) -> (r: Option<usize>)
        ensures
            match r {
                Some(i) => i < self@.handles.len() && self@.alloc_slot() == i,
                None => self@.alloc_slot() == self@.handles.len(),
            },
    {
        let ghost hs = self@.handles;
        let n = self.handles.len();
        let mut i: usize = 0;
        while i < n
            invariant
                i <= n,
                n == self.handles.len(),
                hs == self@.handles,
                free_slot(hs, 0) == free_slot(hs, i as int),
            decreases n - i,
        {
            let free = match &self.handles[i] {
                Some(_) => false,
                None => true,
            };
            if free {
                proof {
                    assert(hs[i as int] is None);
                    assert(free_slot(hs, i as int) == i as int);
                }
                return Some(i);
            }
            proof {
                assert(!(hs[i as int] is None));
                assert(free_slot(hs, i as int) == free_slot(hs, i as int + 1));
            }
            i = i + 1;
        }
        None
    }

    /// Issues a handle for a name the store knows: reuses the first free
    /// slot, grows the table while it is below the named-database limit,
    /// and otherwise reports that the table is full.
    fn install_handle(&mut self, name: String) -> (r: Option<u32>)
        requires
            old(self).wf(),
            old(self)@.store.named.contains_key(name@),
        ensures
            final(self).wf(),
            match r {
                Some(dbi) => old(self)@.can_alloc() && dbi == old(self)@.alloc_slot() + 1
                    && final(self)@ == old(self)@.with_handle(name@),
                None => !old(self)@.can_alloc() && final(self)@ == old(self)@,
            },
    {
        let ghost pre = self@;
        match self.find_free() {
            Some(j) => {
                self.handles[j] = Some(name);
                proof {
                    assert(self@.handles =~= pre.handles.update(j as int, Some(name@)));
                    assert(self@ =~= pre.with_handle(name@));
                }
                Some((j as u32) + 1)
            },
            None => {
                if (self.handles.len() as u32) < self.max_dbs {
                    self.handles.push(Some(name));
                    let dbi = self.handles.len() as u32;
                    proof {
                        assert(self@.handles =~= pre.handles.push(Some(name@)));
                        assert(self@ =~= pre.with_handle(name@));
                    }
                    Some(dbi)
                } else {
                    None
                }
            },
        }
    }

    /// Opens a handle to a database, resolving but never creating it.
    ///
    /// Namelessly, the handle is for the default database and resolution
    /// always succeeds. With a name, the environment must have been
    /// configured for named databases, and the database must exist:
    /// otherwise `NotFound` — resolution before any creation always so.
    /// The body runs inside a read-only transaction, and the exclusive
    /// receiver serializes it against every other handle-table operation,
    /// as the engine's handle table demands.
    pub fn open_db(&mut self, name: Option<&str>) -> (r: Result<Database, Error>)
        requires
            old(self).wf(),
        ensures
            final(self).wf(),
            old(self)@.open_db_ok(name_view(name)) ==> (r matches Ok(db)
                && db@ == old(self)@.open_db_dbi(name_view(name))
                && final(self)@ == old(self)@.open_db_env(name_view(name))),
            !old(self)@.open_db_ok(name_view(name)) ==> r == Err::<Database, Error>(
                old(self)@.open_db_err(name_view(name)))
                && final(self)@ == (EnvView { next_txn: old(self)@.next_txn + 1, ..old(self)@ }),
    {
        let ghost pre = self@;
        let txn = match self.begin_read_txn() {
            Ok(t) => t,
            Err(e) => {
                proof {
                    assert(false);
                }
                return Err(e);
            },
        };
        let resolved: Result<Database, Error> = match name {
            None => Ok(Database::new(0)),
            Some(n) => {
                if self.max_dbs == 0 {
                    Err(Error::DbsFull)
                } else {
                    let owned = n.to_owned();
                    match self.find_handle(&owned) {
                        Some(i) => Ok(Database::new((i as u32) + 1)),
                        None => match self.store.get(&owned) {
                            None => Err(Error::NotFound),
                            Some(_flags) => match self.install_handle(owned) {
                                Some(dbi) => Ok(Database::new(dbi)),
                                None => Err(Error::DbsFull),
                            },
                        },
                    }
                }
            },
        };
        match resolved {
            Ok(db) => {
                let committed = txn.commit(self);
                proof {
                    assert(committed is Ok);
                    assert(self@.open_txns =~= pre.open_txns);
                    assert(self@ =~= pre.open_db_env(name_view(name)));
                }
                Ok(db)
            },
            Err(e) => {
                txn.abort(self);
                proof {
                    assert(self@.open_txns =~= pre.open_txns);
                    assert(self@ =~= (EnvView { next_txn: pre.next_txn + 1, ..pre }));
                }
                Err(e)
            },
        }
    }

    /// Opens a handle to a database, creating the database if necessary.
    ///
    /// An already created database has the given flags added to the word it
    /// carries. Namelessly, the default database is addressed; with a name,
    /// the environment must have been configured for named databases. The
    /// body runs inside a read-write transaction and commits it, so it
    /// cannot run while any other read-write transaction is open — the
    /// precondition keeps a sequential caller from blocking itself forever
    /// — and on a read-only environment it fails with `PermissionDenied`.
    /// The exclusive receiver serializes it against every other
    /// handle-table operation.
    pub fn create_db(&mut self, name: Option<&str>, flags: DatabaseFlags) -> (r: Result<
        Database,
        Error,
    >)
        requires
            old(self).wf(),
            !old(self)@.has_open_write(),
        ensures
            final(self).wf(),
            old(self)@.create_db_ok(name_view(name)) ==> (r matches Ok(db)
                && db@ == old(self)@.create_db_dbi(name_view(name))
                && final(self)@ == old(self)@.create_db_env(name_view(name), flags@)),
            !old(self)@.create_db_ok(name_view(name)) ==> {
                &&& r == Err::<Database, Error>(old(self)@.create_db_err(name_view(name)))
                &&& (old(self)@.is_read_only() ==> final(self)@ == old(self)@)
                &&& (!old(self)@.is_read_only() ==> final(self)@ == (EnvView {
                    next_txn: old(self)@.next_txn + 1,
                    ..old(self)@
                }))
            },
    {
        let ghost pre = self@;
        let txn = match self.begin_write_txn() {
            Ok(t) => t,
            Err(e) => {
                return Err(e);
            },
        };
        let created: Result<Database, Error> = match name {
            None => {
                self.store.widen_default(flags.bits());
                Ok(Database::new(0))
            },
            Some(n) => {
                if self.max_dbs == 0 {
                    Err(Error::DbsFull)
                } else {
                    let owned = n.to_owned();
                    match self.find_handle(&owned) {
                        Some(i) => {
                            proof {
                                lemma_handle_slot_props(self@.handles, owned@, 0);
                            }
                            let cur = match self.store.get(&owned) {
                                Some(f) => f,
                                None => {
                                    proof {
                                        assert(false);
                                    }
                                    0
                                },
                            };
                            self.store.put(owned, cur | flags.bits());
                            Ok(Database::new((i as u32) + 1))
                        },
                        None => {
                            let has_room = match self.find_free() {
                                Some(_) => true,
                                None => (self.handles.len() as u32) < self.max_dbs,
                            };
                            if !has_room {
                                Err(Error::DbsFull)
                            } else {
                                let merged = match self.store.get(&owned) {
                                    Some(f) => f | flags.bits(),
                                    None => flags.bits(),
                                };
                                self.store.put(owned.clone(), merged);
                                match self.install_handle(owned) {
                                    Some(dbi) => Ok(Database::new(dbi)),
                                    None => {
                                        proof {
                                            assert(false);
                                        }
                                        Err(Error::DbsFull)
                                    },
                                }
                            }
                        },
                    }
                }
            },
        };
        match created {
            Ok(db) => {
                let committed = txn.commit(self);
                proof {
                    assert(committed is Ok);
                    assert(self@.open_txns =~= pre.open_txns);
                    assert(self@ =~= pre.create_db_env(name_view(name), flags@));
                }
                Ok(db)
            },
            Err(e) => {
                txn.abort(self);
                proof {
                    assert(self@.open_txns =~= pre.open_txns);
                    assert(self@ =~= (EnvView { next_txn: pre.next_txn + 1, ..pre }));
                }
                Err(e)
            },
        }
    }

    /// The flag word a database handle carries. Runs inside a read-only
    /// transaction and touches no handle-table state, so it needs no
    /// mutual exclusion; the handle must be one this environment issued
    /// and still holds open.
    pub fn get_db_flags(&self, db: Database) -> (r: Result<DatabaseFlags, Error>)
        requires
            self.wf(),
            self@.valid_db(db@),
        ensures
            r matches Ok(f) && f@ == self@.db_flags(db@),
    {
        if db.dbi() == 0 {
            Ok(DatabaseFlags::from_bits(self.store.default_flags()))
        } else {
            let i = (db.dbi() - 1) as usize;
            match &self.handles[i] {
                Some(name) => match self.store.get(name) {
                    Some(f) => Ok(DatabaseFlags::from_bits(f)),
                    None => {
                        proof {
                            assert(false);
                        }
                        Err(Error::NotFound)
                    },
                },
                None => {
                    proof {
                        assert(false);
                    }
                    Err(Error::NotFound)
                },
            }
        }
    }

    /// Closes a named-database handle so that a later resolution may reuse
    /// its slot — rarely necessary; raising the named-database limit is
    /// usually better. The engine leaves the timing rules of this call
    /// entirely to the caller, so they stand here as preconditions: the
    /// handle must be open, and no transaction may be open that could still
    /// reference it.
    pub fn close_db(&mut self, db: Database)
        requires
            old(self).wf(),
            old(self)@.valid_db(db@),
            db@ != 0,
            old(self)@.open_txns =~= Map::<int, TransactionMode>::empty(),
        ensures
            final(self).wf(),
            final(self)@ == (EnvView {
                handles: old(self)@.handles.update(db@ - 1, None::<Seq<char>>),
                ..old(self)@
            }),
    {
        let ghost pre = self@;
        let i = (db.dbi() - 1) as usize;
        self.handles[i] = None;
        proof {
            assert(self@.handles =~= pre.handles.update(db@ - 1, None::<Seq<char>>));
            assert(self@ =~= (EnvView {
                handles: pre.handles.update(db@ - 1, None::<Seq<char>>),
                ..pre
            }));
        }
    }

    /// Flushes buffered writes to durable storage. Data reaches the
    /// operating system at every commit, but its buffers may hold it;
    /// `force` demands the synchronous flush even on an environment
    /// configured to defer it. Succeeds on writable and read-only
    /// environments alike.
    pub fn sync(&mut self, force: bool) -> (r: Result<(), Error>)
        requires
            old(self).wf(),
        ensures
            final(self).wf(),
            r is Ok,
            final(self)@ == (EnvView { flushed: old(self)@.flushed || force, ..old(self)@ }),
    {
        if force {
            self.flushed = true;
        }
        Ok(())
    }

    /// Closes the environment, releasing the engine instance, and hands the
    /// backing storage back for later reopening. The last operation against
    /// the environment: every transaction must have been committed or
    /// aborted first, and the consuming receiver lets no handle or session
    /// be presented to the environment afterwards.
    pub fn close(self) -> (r: Store)
        requires
            self.wf(),
            self@.open_txns =~= Map::<int, TransactionMode>::empty(),
        ensures
            r@ == self@.store,
    {
        self.store
    }
}

/// The optional settings accumulated before an environment is opened:
/// environment flags, the reader-slot limit, the named-database limit, and
/// the memory-map size. A pure value: it owns nothing, validates nothing
/// (the engine validates at open time), and may be reused to open several
/// independent environments.
#[derive(Clone, Copy, Debug)]
pub struct EnvironmentBuilder {
    flags: EnvironmentFlags,
    max_readers: Option<u32>,
    max_dbs: Option<u32>,
    map_size: Option<usize>,
}

/// A builder's accumulated settings: the flag word, and each limit as it
/// was set or left to the engine's default.
#[verifier::ext_equal]
pub ghost struct BuilderView {
    pub flags: u32,
    pub max_readers: Option<u32>,
    pub max_dbs: Option<u32>,
    pub map_size: Option<usize>,
}

impl BuilderView {
    /// Whether the flag word asks for a read-only environment.
    pub open spec fn is_read_only(self) -> bool {
        self.flags & ENV_READ_ONLY != 0
    }

    /// The configured reader-slot limit, or the engine's default.
    pub open spec fn effective_max_readers(self) -> u32 {
        match self.max_readers {
            Some(n) => n,
            None => DEFAULT_MAX_READERS,
        }
    }

    /// The configured named-database limit, or none by default.
    pub open spec fn effective_max_dbs(self) -> u32 {
        match self.max_dbs {
            Some(n) => n,
            None => 0u32,
        }
    }

    /// The configured memory-map size, or the engine's default.
    pub open spec fn effective_map_size(self) -> usize {
        match self.map_size {
            Some(n) => n,
            None => DEFAULT_MAP_SIZE,
        }
    }

    /// Whether opening is refused: only a read-only request against a
    /// location whose backing files were never created.
    pub open spec fn refused(self, s: StoreView) -> bool {
        self.is_read_only() && !s.exists
    }

    /// The environment opening yields: the store with its backing files in
    /// place, the accumulated settings with defaults filled in, and no
    /// handle or session open yet.
    pub open spec fn opened(self, s: StoreView) -> EnvView {
        EnvView {
            store: StoreView { exists: true, ..s },
            flags: self.flags,
            max_readers: self.effective_max_readers(),
            max_dbs: self.effective_max_dbs(),
            map_size: self.effective_map_size(),
            handles: Seq::empty(),
            open_txns: Map::empty(),
            next_txn: 0,
            flushed: true,
        }
    }
}

impl View for EnvironmentBuilder {
    type V = BuilderView;

    closed spec fn view(&self) -> BuilderView {
        BuilderView {
            flags: self.flags@,
            max_readers: self.max_readers,
            max_dbs: self.max_dbs,
            map_size: self.map_size,
        }
    }
}

impl EnvironmentBuilder {
    /// Opens an environment against backing storage, applying each setting
    /// that was explicitly given and leaving engine defaults otherwise.
    /// A read-only request against never-created storage is refused with
    /// `NotFound` and hands the storage back untouched — a failed open
    /// leaks nothing; any other request succeeds, creating the backing
    /// files on first use. `mode` is the permission word the engine gives
    /// files it creates; file permissions stay outside this layer's model,
    /// so no operation here reads it back.
    pub fn open(&self, store: Store, mode: u32) -> (r: Result<Environment, (Store, Error)>)
        ensures
            self@.refused(store@) ==> (r matches Err(p) && p.0@ == store@
                && p.1 == Error::NotFound),
            !self@.refused(store@) ==> (r matches Ok(env) && env.wf()
                && env@ == self@.opened(store@)),
    {
        let _ = mode;
        if self.flags.read_only_set() && !store.is_created() {
            return Err((store, Error::NotFound));
        }
        let mut store = store;
        store.materialize();
        let max_readers = match self.max_readers {
            Some(n) => n,
            None => DEFAULT_MAX_READERS,
        };
        let max_dbs = match self.max_dbs {
            Some(n) => n,
            None => 0,
        };
        let map_size = match self.map_size {
            Some(n) => n,
            None => DEFAULT_MAP_SIZE,
        };
        let env = Environment {
            store,
            flags: self.flags,
            max_readers,
            max_dbs,
            map_size,
            handles: Vec::new(),
            open_txns: Ghost(Map::empty()),
            next_txn: Ghost(0),
            flushed: true,
        };
        proof {
            assert(env@.handles =~= Seq::<Option<Seq<char>>>::empty());
            assert(env@ =~= self@.opened(store@));
        }
        Ok(env)
    }

    /// Replaces the accumulated environment flags.
    pub fn set_flags(self, flags: EnvironmentFlags) -> (r: Self)
        ensures
            r@ == (BuilderView { flags: flags@, ..self@ }),
    {
        EnvironmentBuilder { flags, ..self }
    }

    /// Sets the maximum number of threads or reader slots for the
    /// environment's lock table.
    pub fn set_max_readers(self, max_readers: u32) -> (r: Self)
        ensures
            r@ == (BuilderView { max_readers: Some(max_readers), ..self@ }),
    {
        EnvironmentBuilder { max_readers: Some(max_readers), ..self }
    }

    /// Sets the maximum number of named databases the environment will
    /// hold; without it, only the default database can be addressed.
    pub fn set_max_dbs(self, max_dbs: u32) -> (r: Self)
        ensures
            r@ == (BuilderView { max_dbs: Some(max_dbs), ..self@ }),
    {
        EnvironmentBuilder { max_dbs: Some(max_dbs), ..self }
    }

    /// Sets the size of the memory map, which bounds the environment's
    /// data; a size below the space already committed is silently raised by
    /// the engine, never an error.
    pub fn set_map_size(self, map_size: usize) -> (r: Self)
        ensures
            r@ == (BuilderView { map_size: Some(map_size), ..self@ }),
    {
        EnvironmentBuilder { map_size: Some(map_size), ..self }
    }
}

} // verus!
