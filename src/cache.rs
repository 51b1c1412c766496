use vstd::prelude::*;
use crate::bucket::{Bucket, bucket_entries};
use crate::clock::now;
use crate::hierarchy::{Hierarchy, HierarchyError};
use crate::kinds::{RecordType, Time};

verus! {

/// The number of registered relations, one cache bucket each.
pub const RELATION_COUNT: usize = 7;

/// What the cache holds, keyed by (child kind, parent kind, child id): the
/// parent ids last fetched and the time they were fetched.
pub type CacheView = Map<(RecordType, RecordType, Seq<char>), (Seq<String>, Time)>;

/// The bucket that holds the relation from `child` to `parent`, if that
/// relation is registered.
pub open spec fn relation_slot(child: RecordType, parent: RecordType) -> Option<int> {
    match (child, parent) {
        (RecordType::HostElement, RecordType::Element) => Some(0),
        (RecordType::HostElement, RecordType::Connection) => Some(1),
        (RecordType::HostConnection, RecordType::Connection) => Some(2),
        (RecordType::Element, RecordType::Topology) => Some(3),
        (RecordType::Connection, RecordType::Topology) => Some(4),
        (RecordType::Topology, RecordType::User) => Some(5),
        (RecordType::User, RecordType::Organization) => Some(6),
        _ => None,
    }
}

/// Whether the relation from `child` to `parent` is one the cache serves.
pub open spec fn is_relation(child: RecordType, parent: RecordType) -> bool {
    relation_slot(child, parent) is Some
}

/// An entry fetched at `fetched` is still good at `now` under a time to live
/// of `ttl`.
pub open spec fn is_fresh(fetched: Time, ttl: Time, now: Time) -> bool {
    now <= fetched + ttl
}

fn slot_of(child: RecordType, parent: RecordType) -> (r: Option<usize>)
    ensures
        match r {
            Some(i) => relation_slot(child, parent) == Some(i as int),
            None => relation_slot(child, parent) is None,
        },
{
    match (child, parent) {
        (RecordType::HostElement, RecordType::Element) => Some(0),
        (RecordType::HostElement, RecordType::Connection) => Some(1),
        (RecordType::HostConnection, RecordType::Connection) => Some(2),
        (RecordType::Element, RecordType::Topology) => Some(3),
        (RecordType::Connection, RecordType::Topology) => Some(4),
        (RecordType::Topology, RecordType::User) => Some(5),
        (RecordType::User, RecordType::Organization) => Some(6),
        _ => None,
    }
}

fn fresh_at(fetched: Time, ttl: Time, now: Time) -> (r: bool)
    ensures
        r == is_fresh(fetched, ttl, now),
{
    (now as i128) <= (fetched as i128) + (ttl as i128)
}

fn copy_ids(ids: &Vec<String>) -> (r: Vec<String>)
    ensures
        r@ == ids@,
{
    let mut r: Vec<String> = Vec::with_capacity(ids.len());
    let mut i: usize = 0;
    while i < ids.len()
        invariant
            i <= ids@.len(),
            r@ == ids@.subrange(0, i as int),
        decreases ids@.len() - i,
    {
        r.push(ids[i].clone());
        i += 1;
    }
    assert(r@ =~= ids@);
    r
}

/// A time-bounded cache in front of another lookup, with one bucket for each
/// registered relation.
pub struct HierarchyCache<H: Hierarchy> {
    timeout: Time,
    inner: H,
    cache: [Bucket; RELATION_COUNT],
}

impl<H: Hierarchy> HierarchyCache<H> {
    /// How long a fetched entry stays good.
    pub closed spec fn ttl(self) -> Time {
        self.timeout
    }

    /// The lookup behind the cache.
    pub closed spec fn inner(self) -> H {
        self.inner
    }

    /// The entries of all buckets.
    pub closed spec fn entries(self) -> CacheView {
        Map::new(
            |k: (RecordType, RecordType, Seq<char>)|
                relation_slot(k.0, k.1) is Some && bucket_entries(
                    self.cache@[relation_slot(k.0, k.1)->0],
                ).contains_key(k.2),
            |k: (RecordType, RecordType, Seq<char>)|
                bucket_entries(self.cache@[relation_slot(k.0, k.1)->0])[k.2],
        )
    }

    /// The parents that the cache answers with at `now` without asking the
    /// lookup behind it, if any.
    pub open spec fn fresh_parents(
        self,
        child: RecordType,
        parent: RecordType,
        id: Seq<char>,
        now: Time,
    ) -> Option<Seq<String>> {
        let k = (child, parent, id);
        if self.entries().contains_key(k) && is_fresh(self.entries()[k].1, self.ttl(), now) {
            Some(self.entries()[k].0)
        } else {
            None
        }
    }

    /// A lookup of `id` at `now` that takes the cache from `self` to `after`
    /// and answers `r`. An unregistered relation is refused and changes
    /// nothing. A fresh entry is the answer and changes nothing. Otherwise
    /// the lookup behind the cache is asked once, and its answer is the
    /// cache's answer: parents are stored under the time `now`, replacing any
    /// stale entry, and a failure leaves every entry as it was.
    pub open spec fn get_step(
        self,
        after: Self,
        child: RecordType,
        parent: RecordType,
        id: Seq<char>,
        now: Time,
        r: Result<Vec<String>, HierarchyError>,
    ) -> bool {
        &&& after.ttl() == self.ttl()
        &&& !is_relation(child, parent) ==> r == Err::<Vec<String>, HierarchyError>(
            HierarchyError::NoSuchRelation,
        ) && after == self
        &&& is_relation(child, parent) && self.fresh_parents(child, parent, id, now) is Some ==> r is Ok
            && r->Ok_0@ == self.fresh_parents(child, parent, id, now)->0 && after == self
        &&& is_relation(child, parent) && self.fresh_parents(child, parent, id, now) is None ==> {
            &&& self.inner().answers(after.inner(), child, parent, id, r)
            &&& match r {
                Ok(v) => after.entries() == self.entries().insert((child, parent, id), (v@, now)),
                Err(_) => after.entries() == self.entries(),
            }
        }
    }

    /// Storing `ids` as the parents of `id` at `now`, which takes the cache
    /// from `self` to `after` and answers `r`: the entry is replaced whole
    /// when the relation is registered, and nothing changes when it is not.
    pub open spec fn put_step(
        self,
        after: Self,
        child: RecordType,
        parent: RecordType,
        id: Seq<char>,
        ids: Seq<String>,
        now: Time,
        r: Result<(), HierarchyError>,
    ) -> bool {
        &&& after.ttl() == self.ttl()
        &&& after.inner() == self.inner()
        &&& r is Ok <==> is_relation(child, parent)
        &&& is_relation(child, parent) ==> after.entries() == self.entries().insert(
            (child, parent, id),
            (ids, now),
        )
        &&& !is_relation(child, parent) ==> r == Err::<(), HierarchyError>(
            HierarchyError::NoSuchRelation,
        ) && after == self
    }

    /// An empty cache with one bucket per registered relation.
    pub fn new(inner: H, timeout: Time) -> (r: Self)
        ensures
            r.ttl() == timeout,
            r.inner() == inner,
            r.entries() == CacheView::empty(),
    {
        let cache = [
            Bucket::new(),
            Bucket::new(),
            Bucket::new(),
            Bucket::new(),
            Bucket::new(),
            Bucket::new(),
            Bucket::new(),
        ];
        let r = HierarchyCache { timeout, inner, cache };
        assert(r.entries() =~= CacheView::empty()) by {
            assert forall|k: (RecordType, RecordType, Seq<char>)| !r.entries().contains_key(k) by {
                if relation_slot(k.0, k.1) is Some {
                    let j = relation_slot(k.0, k.1)->0;
                    assert(bucket_entries(cache@[j]).dom() == Set::<Seq<char>>::empty());
                    assert(!bucket_entries(cache@[j]).dom().contains(k.2));
                }
            }
        }
        r
    }

    /// The lookup behind the cache.
    pub fn wrapped(&self) -> (r: &H)
        ensures
            *r == self.inner(),
    {
        &self.inner
    }

    /// Stores `parents` as the entry of `child_id` in bucket `i`, fetched at
    /// `now`; everything else stays as it was.
    fn keep(
        &mut self,
        i: usize,
        child: RecordType,
        parent: RecordType,
        child_id: String,
        parents: Vec<String>,
        now: Time,
    )
        requires
            relation_slot(child, parent) == Some(i as int),
        ensures
            final(self).entries() == old(self).entries().insert(
                (child, parent, child_id@),
                (parents@, now),
            ),
            final(self).ttl() == old(self).ttl(),
            final(self).inner() == old(self).inner(),
    {
        let ghost before = self.cache@;
        let ghost id = child_id@;
        let ghost stored = parents@;
        self.cache[i].store(child_id, parents, now);
        proof {
            let k0 = (child, parent, id);
            assert(self.cache@ == before.update(i as int, self.cache@[i as int]));
            assert(self.entries() =~= old(self).entries().insert(k0, (stored, now))) by {
                assert forall|k: (RecordType, RecordType, Seq<char>)|
                    #![auto]
                    relation_slot(k.0, k.1) == Some(i as int) implies k.0 == child && k.1 == parent by {
                }
            }
        }
    }

    /// The parents of kind `parent_type` of `child_id`, as of time `now`: a
    /// fresh entry answers at once; otherwise the lookup behind the cache is
    /// asked once, and what it answers is stored (even when empty) and
    /// returned, while a failure is returned and nothing is stored.
    pub fn get_at(
        &mut self,
        child_type: RecordType,
        parent_type: RecordType,
        child_id: &str,
        now: Time,
    ) -> (r: Result<Vec<String>, HierarchyError>)
        ensures
            old(self).get_step(*final(self), child_type, parent_type, child_id@, now, r),
    {
        let i = match slot_of(child_type, parent_type) {
            Some(i) => i,
            None => return Err(HierarchyError::NoSuchRelation),
        };
        match self.cache[i].lookup(child_id) {
            Some(entry) => {
                if fresh_at(entry.1, self.timeout, now) {
                    return Ok(entry.0);
                }
            },
            None => {},
        }
        let fetched = self.inner.get(child_type, parent_type, child_id);
        match fetched {
            Ok(parents) => {
                let kept = copy_ids(&parents);
                self.keep(i, child_type, parent_type, child_id.to_owned(), kept, now);
                Ok(parents)
            },
            Err(e) => Err(e),
        }
    }

    /// Stores `parent_ids` as the parents of kind `parent_type` of `child_id`,
    /// fetched at `now`, without asking the lookup behind the cache.
    pub fn put_at(
        &mut self,
        child_type: RecordType,
        child_id: String,
        parent_type: RecordType,
        parent_ids: Vec<String>,
        now: Time,
    ) -> (r: Result<(), HierarchyError>)
        ensures
            old(self).put_step(
                *final(self),
                child_type,
                parent_type,
                child_id@,
                parent_ids@,
                now,
                r,
            ),
    {
        match slot_of(child_type, parent_type) {
            Some(i) => {
                self.keep(i, child_type, parent_type, child_id, parent_ids, now);
                Ok(())
            },
            None => Err(HierarchyError::NoSuchRelation),
        }
    }

    /// Stores `parent_ids` as the parents of kind `parent_type` of `child_id`,
    /// fetched now.
    pub fn put(
        &mut self,
        child_type: RecordType,
        child_id: String,
        parent_type: RecordType,
        parent_ids: Vec<String>,
    ) -> (r: Result<(), HierarchyError>)
        ensures
            exists|t: Time|
                t >= 0 && #[trigger] old(self).put_step(
                    *final(self),
                    child_type,
                    parent_type,
                    child_id@,
                    parent_ids@,
                    t,
                    r,
                ),
    {
        let t = now();
        self.put_at(child_type, child_id, parent_type, parent_ids, t)
    }
}

/// The first lookup of a key asks the lookup behind the cache once and
/// answers what it answered; when that succeeds, a second lookup of the same
/// key within the time to live answers the same parents and changes nothing,
/// the lookup behind the cache included.
pub proof fn lemma_second_lookup_is_cached<H: Hierarchy>(
    c0: HierarchyCache<H>,
    c1: HierarchyCache<H>,
    c2: HierarchyCache<H>,
    child: RecordType,
    parent: RecordType,
    id: Seq<char>,
    t1: Time,
    t2: Time,
    r1: Result<Vec<String>, HierarchyError>,
    r2: Result<Vec<String>, HierarchyError>,
)
    requires
        is_relation(child, parent),
        !c0.entries().contains_key((child, parent, id)),
        c0.get_step(c1, child, parent, id, t1, r1),
        c1.get_step(c2, child, parent, id, t2, r2),
        r1 is Ok,
        t2 <= t1 + c0.ttl(),
    ensures
        c0.inner().answers(c1.inner(), child, parent, id, r1),
        r2 is Ok,
        r2->Ok_0@ == r1->Ok_0@,
        c2 == c1,
{
    let k = (child, parent, id);
    assert(c1.entries()[k] == (r1->Ok_0@, t1));
    assert(c1.fresh_parents(child, parent, id, t2) == Some(r1->Ok_0@));
}

/// Once an entry's time to live has passed, the next lookup of its key asks
/// the lookup behind the cache and answers what it answered, not the stale
/// parents; parents it answers are stored, an empty list included, and a
/// failure leaves the entries as they were.
pub proof fn lemma_stale_entry_is_refetched<H: Hierarchy>(
    c0: HierarchyCache<H>,
    c1: HierarchyCache<H>,
    child: RecordType,
    parent: RecordType,
    id: Seq<char>,
    now: Time,
    r: Result<Vec<String>, HierarchyError>,
)
    requires
        c0.entries().contains_key((child, parent, id)),
        now > c0.entries()[(child, parent, id)].1 + c0.ttl(),
        c0.get_step(c1, child, parent, id, now, r),
    ensures
        c0.inner().answers(c1.inner(), child, parent, id, r),
        r is Err ==> c1.entries() == c0.entries(),
        r matches Ok(v) ==> c1.entries().contains_key((child, parent, id)) && c1.entries()[(
            child,
            parent,
            id,
        )] == (v@, now),
{
    assert(is_relation(child, parent));
}

/// Parents stored by hand are what a lookup of the same key answers within
/// the time to live, without asking the lookup behind the cache.
pub proof fn lemma_put_then_get<H: Hierarchy>(
    c0: HierarchyCache<H>,
    c1: HierarchyCache<H>,
    c2: HierarchyCache<H>,
    child: RecordType,
    parent: RecordType,
    id: Seq<char>,
    ids: Seq<String>,
    t1: Time,
    t2: Time,
    put: Result<(), HierarchyError>,
    r: Result<Vec<String>, HierarchyError>,
)
    requires
        is_relation(child, parent),
        c0.put_step(c1, child, parent, id, ids, t1, put),
        c1.get_step(c2, child, parent, id, t2, r),
        t2 <= t1 + c0.ttl(),
    ensures
        r is Ok,
        r->Ok_0@ == ids,
        c2 == c1,
        c1.inner() == c0.inner(),
{
    assert(c1.entries()[(child, parent, id)] == (ids, t1));
}

impl<H: Hierarchy> Hierarchy for HierarchyCache<H> {
    /// A lookup at some time the clock gave, as `get_step` describes it.
    open spec fn answers(
        self,
        after: Self,
        child: RecordType,
        parent: RecordType,
        id: Seq<char>,
        r: Result<Vec<String>, HierarchyError>,
    ) -> bool {
        exists|t: Time| t >= 0 && #[trigger] self.get_step(after, child, parent, id, t, r)
    }

    /// Passed to the lookup behind the cache, whose answer it is; the
    /// entries stay as they were.
    open spec fn exists_answers(
        self,
        after: Self,
        kind: RecordType,
        id: Seq<char>,
        r: Result<bool, HierarchyError>,
    ) -> bool {
        &&& after.ttl() == self.ttl()
        &&& after.entries() == self.entries()
        &&& self.inner().exists_answers(after.inner(), kind, id, r)
    }

    fn get(&mut self, child_type: RecordType, parent_type: RecordType, child_id: &str) -> (r: Result<
        Vec<String>,
        HierarchyError,
    >) {
        let t = now();
        let r = self.get_at(child_type, parent_type, child_id, t);
        assert(old(self).get_step(*self, child_type, parent_type, child_id@, t, r));
        r
    }

    fn entity_exists(&mut self, type_: RecordType, id: &str) -> (r: Result<bool, HierarchyError>) {
        self.inner.entity_exists(type_, id)
    }
}

} // verus!
