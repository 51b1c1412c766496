use vstd::prelude::*;
use fnv::FnvHashMap;
use crate::kinds::Time;

verus! {

/// What one relation's cache holds: for each child id, the parent ids last
/// fetched for it and the time they were fetched.
pub uninterp spec fn bucket_entries(b: Bucket) -> Map<Seq<char>, (Seq<String>, Time)>;

/// The entries of one relation, kept in a hash map with the FNV hasher.
#[verifier::external_body]
pub struct Bucket {
    entries: FnvHashMap<String, (Vec<String>, Time)>,
}

impl Bucket {
    /// Relies on `HashMap::default` with fnv's `FnvBuildHasher`: a map with
    /// no entries.
    #[verifier::external_body]
    pub(crate) fn new() -> (r: Bucket)
        ensures
            bucket_entries(r).dom() == Set::<Seq<char>>::empty(),
    {
        Bucket { entries: FnvHashMap::default() }
    }

    /// Relies on `HashMap::get` (with fnv's hasher): the value stored under
    /// the key, if any, handed out as a copy.
    #[verifier::external_body]
    pub(crate) fn lookup(&self, id: &str) -> (r: Option<(Vec<String>, Time)>)
        ensures
            match r {
                Some(e) => bucket_entries(*self).contains_key(id@) && bucket_entries(*self)[id@]
                    == (e.0@, e.1),
                None => !bucket_entries(*self).contains_key(id@),
            },
    {
        self.entries.get(id).cloned()
    }

    /// Relies on `HashMap::insert` (with fnv's hasher): the key now maps to
    /// the value, replacing what it mapped to before; other keys keep theirs.
    #[verifier::external_body]
    pub(crate) fn store(&mut self, id: String, parents: Vec<String>, fetched: Time)
        ensures
            bucket_entries(*final(self)) == bucket_entries(*old(self)).insert(
                id@,
                (parents@, fetched),
            ),
    {
        self.entries.insert(id, (parents, fetched));
    }
}

} // verus!
