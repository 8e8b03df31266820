use vstd::prelude::*;

verus! {

/// Bit of the environment-flag word requesting that writes be kept out of
/// synchronous flushes; commits then leave the operating-system buffers dirty.
pub const ENV_NO_SYNC: u32 = 0x10000;

/// Bit of the environment-flag word opening the environment read-only.
pub const ENV_READ_ONLY: u32 = 0x20000;

/// Bit of the environment-flag word deferring the metadata flush of a commit.
pub const ENV_NO_META_SYNC: u32 = 0x40000;

/// Bit of the database-flag word storing keys in reverse byte order.
pub const DB_REVERSE_KEY: u32 = 0x02;

/// Bit of the database-flag word allowing duplicate values for one key.
pub const DB_DUP_SORT: u32 = 0x04;

/// Options accepted when opening an environment, as a word of flag bits from
/// the engine's fixed vocabulary. The view of a value is that word.
#[derive(Clone, Copy, Debug, PartialEq, Eq, Structural)]
pub struct EnvironmentFlags {
    bits: u32,
}

impl View for EnvironmentFlags {
    type V = u32;

    closed spec fn view(&self) -> u32 {
        self.bits
    }
}

impl EnvironmentFlags {
    /// Whether the word asks for a read-only environment.
    pub open spec fn is_read_only(self) -> bool {
        self@ & ENV_READ_ONLY != 0
    }

    /// Whether the word exempts commits from flushing the system buffers,
    /// fully or for metadata.
    pub open spec fn defers_sync(self) -> bool {
        self@ & ENV_NO_SYNC != 0 || self@ & ENV_NO_META_SYNC != 0
    }

    /// No option requested.
    pub fn empty() -> (r: Self)
        ensures
            r@ == 0u32,
    {
        EnvironmentFlags { bits: 0 }
    }

    /// The read-only option alone.
    pub fn read_only() -> (r: Self)
        ensures
            r@ == ENV_READ_ONLY,
            r.is_read_only(),
            !r.defers_sync(),
    {
        let r = EnvironmentFlags { bits: ENV_READ_ONLY };
        proof {
            assert(ENV_READ_ONLY & ENV_READ_ONLY != 0) by (bit_vector);
            assert(ENV_READ_ONLY & ENV_NO_SYNC == 0) by (bit_vector);
            assert(ENV_READ_ONLY & ENV_NO_META_SYNC == 0) by (bit_vector);
        }
        r
    }

    /// The no-sync option alone.
    pub fn no_sync() -> (r: Self)
        ensures
            r@ == ENV_NO_SYNC,
    {
        EnvironmentFlags { bits: ENV_NO_SYNC }
    }

    /// The no-metadata-sync option alone.
    pub fn no_meta_sync() -> (r: Self)
        ensures
            r@ == ENV_NO_META_SYNC,
    {
        EnvironmentFlags { bits: ENV_NO_META_SYNC }
    }

    /// Whether the word asks for a read-only environment.
    pub fn read_only_set(&self) -> (r: bool)
        ensures
            r == self.is_read_only(),
    {
        (self.bits & ENV_READ_ONLY) != 0
    }

    /// Whether the word exempts commits from flushing the system buffers.
    pub fn sync_deferred(&self) -> (r: bool)
        ensures
            r == self.defers_sync(),
    {
        (self.bits & ENV_NO_SYNC) != 0 || (self.bits & ENV_NO_META_SYNC) != 0
    }

    /// Both words' options together.
    pub fn union(self, other: Self) -> (r: Self)
        ensures
            r@ == (self@ | other@),
    {
        EnvironmentFlags { bits: self.bits | other.bits }
    }

    /// Whether every option of `other` is requested by `self`.
    pub fn contains(self, other: Self) -> (r: bool)
        ensures
            r == ((self@ & other@) == other@),
    {
        (self.bits & other.bits) == other.bits
    }

    /// The raw flag word.
    pub fn bits(self) -> (r: u32)
        ensures
            r == self@,
    {
        self.bits
    }
}

/// Options carried by one database of an environment, as a word of flag bits
/// from the engine's fixed vocabulary. The view of a value is that word.
#[derive(Clone, Copy, Debug, PartialEq, Eq, Structural)]
pub struct DatabaseFlags {
    bits: u32,
}

impl View for DatabaseFlags {
    type V = u32;

    closed spec fn view(&self) -> u32 {
        self.bits
    }
}

impl DatabaseFlags {
    /// No option requested.
    pub fn empty() -> (r: Self)
        ensures
            r@ == 0u32,
    {
        DatabaseFlags { bits: 0 }
    }

    /// The reverse-key option alone.
    pub fn reverse_key() -> (r: Self)
        ensures
            r@ == DB_REVERSE_KEY,
    {
        DatabaseFlags { bits: DB_REVERSE_KEY }
    }

    /// The duplicate-values option alone.
    pub fn dup_sort() -> (r: Self)
        ensures
            r@ == DB_DUP_SORT,
    {
        DatabaseFlags { bits: DB_DUP_SORT }
    }

    /// The word holding exactly the given bits.
    pub fn from_bits(bits: u32) -> (r: Self)
        ensures
            r@ == bits,
    {
        DatabaseFlags { bits }
    }

    /// Both words' options together.
    pub fn union(self, other: Self) -> (r: Self)
        ensures
            r@ == (self@ | other@),
    {
        DatabaseFlags { bits: self.bits | other.bits }
    }

    /// Whether every option of `other` is carried by `self`.
    pub fn contains(self, other: Self) -> (r: bool)
        ensures
            r == ((self@ & other@) == other@),
    {
        (self.bits & other.bits) == other.bits
    }

    /// The raw flag word.
    pub fn bits(self) -> (r: u32)
        ensures
            r == self@,
    {
        self.bits
    }
}

} // verus!
