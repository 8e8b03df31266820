use vstd::prelude::*;

verus! {

/// The persistent contents of one storage location, as this layer observes
/// them: whether backing files exist yet, the flag word of the default
/// database, and each named database with its flag word.
#[verifier::ext_equal]
pub ghost struct StoreView {
    pub exists: bool,
    pub default_flags: u32,
    pub named: Map<Seq<char>, u32>,
}

/// The flag word that `records` associate with the name `n`: that of the
/// latest record for `n`, if any.
pub closed spec fn lookup(records: Seq<(String, u32)>, n: Seq<char>) -> Option<u32>
    decreases records.len(),
{
    if records.len() == 0 {
        None
    } else if records.last().0@ == n {
        Some(records.last().1)
    } else {
        lookup(records.drop_last(), n)
    }
}

/// The named databases that `records` describe, as a map from name to flag
/// word; a later record for the same name supersedes an earlier one.
pub closed spec fn records_map(records: Seq<(String, u32)>) -> Map<Seq<char>, u32> {
    Map::new(|n: Seq<char>| lookup(records, n) is Some, |n: Seq<char>| lookup(records, n)->Some_0)
}

proof fn lemma_records_map_push(records: Seq<(String, u32)>, name: String, flags: u32)
    ensures
        records_map(records.push((name, flags))) =~= records_map(records).insert(name@, flags),
{
    let pushed = records.push((name, flags));
    assert(pushed.drop_last() =~= records);
    assert(forall|n: Seq<char>| n != name@ ==> lookup(pushed, n) == lookup(records, n));
}

/// The backing storage of one environment location: what the engine keeps on
/// disk at one filesystem path, reduced to the facts this layer depends on.
/// A fresh value stands for a directory in which no environment was ever
/// created; opening an environment there for writing creates the backing
/// files. The named databases are kept as the history of creation records,
/// of which the view retains the resulting name-to-flags map.
pub struct Store {
    exists: bool,
    default_flags: u32,
    records: Vec<(String, u32)>,
}

impl View for Store {
    type V = StoreView;

    closed spec fn view(&self) -> StoreView {
        StoreView {
            exists: self.exists,
            default_flags: self.default_flags,
            named: records_map(self.records@),
        }
    }
}

impl Store {
    /// A location at which no environment has ever been created.
    pub fn new() -> (r: Store)
        ensures
            !r@.exists,
            r@.default_flags == 0u32,
            r@.named =~= Map::<Seq<char>, u32>::empty(),
    {
        let r = Store { exists: false, default_flags: 0, records: Vec::new() };
        proof {
            assert forall|n: Seq<char>| !(#[trigger] lookup(r.records@, n) is Some) by {
                assert(r.records@.len() == 0);
            }
        }
        r
    }

    /// Whether backing files exist at this location.
    pub fn is_created(&self) -> (r: bool)
        ensures
            r == self@.exists,
    {
        self.exists
    }

    /// Marks the backing files as created.
    pub(crate) fn materialize(&mut self)
        ensures
            final(self)@ == (StoreView { exists: true, ..old(self)@ }),
    {
        self.exists = true;
    }

    /// The flag word of the default database.
    pub(crate) fn default_flags(&self) -> (r: u32)
        ensures
            r == self@.default_flags,
    {
        self.default_flags
    }

    /// Widens the default database's flag word by the given bits.
    pub(crate) fn widen_default(&mut self, flags: u32)
        ensures
            final(self)@ == (StoreView {
                default_flags: old(self)@.default_flags | flags,
                ..old(self)@
            }),
    {
        self.default_flags = self.default_flags | flags;
    }

    /// The flag word of the named database `name`, if it exists.
    pub(crate) fn get(&self, name: &String) -> (r: Option<u32>)
        ensures
            match r {
                Some(flags) => self@.named.contains_key(name@) && self@.named[name@] == flags,
                None => !self@.named.contains_key(name@),
            },
    {
        let records = &self.records;
        let ghost s = records@;
        let mut i: usize = records.len();
        proof {
            assert(s.take(i as int) =~= s);
        }
        while i > 0
            invariant
                i <= s.len(),
                s == records@,
                s == self.records@,
                lookup(s, name@) == lookup(s.take(i as int), name@),
            decreases i,
        {
            i = i - 1;
            let ghost prefix = s.take(i as int + 1);
            proof {
                assert(prefix.last() == s[i as int]);
                assert(prefix.drop_last() =~= s.take(i as int));
            }
            if records[i].0.eq(name) {
                proof {
                    assert(s[i as int].0@ == name@);
                    assert(lookup(prefix, name@) == Some(s[i as int].1));
                    assert(lookup(s, name@) == Some(s[i as int].1));
                    assert(self.records@ == s);
                    assert(records_map(s).contains_key(name@));
                    assert(records_map(s)[name@] == s[i as int].1);
                }
                return Some(records[i].1);
            }
        }
        proof {
            assert(s.take(0) =~= Seq::<(String, u32)>::empty());
        }
        None
    }

    /// Records the named database `name` as existing with exactly the given
    /// flag word, creating it or superseding its previous word.
    pub(crate) fn put(&mut self, name: String, flags: u32)
        ensures
            final(self)@ == (StoreView {
                named: old(self)@.named.insert(name@, flags),
                ..old(self)@
            }),
    {
        let ghost before = self.records@;
        let ghost pushed = name;
        let ghost f = flags;
        self.records.push((name, flags));
        proof {
            lemma_records_map_push(before, pushed, f);
        }
    }
}

} // verus!
