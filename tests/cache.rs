use backend_accounting::cache::HierarchyCache;
use backend_accounting::hierarchy::{DummyHierarchy, Hierarchy, HierarchyError};
use backend_accounting::kinds::RecordType;

/// A lookup that gives its answers in turn, repeating the last, and counts
/// the questions.
struct Scripted {
    answers: Vec<Result<Vec<String>, HierarchyError>>,
    calls: usize,
    exists_calls: usize,
}

impl Scripted {
    fn new(answers: Vec<Result<Vec<String>, HierarchyError>>) -> Scripted {
        Scripted { answers, calls: 0, exists_calls: 0 }
    }
}

impl Hierarchy for Scripted {
    fn get(
        &mut self,
        _child_type: RecordType,
        _parent_type: RecordType,
        _child_id: &str,
    ) -> Result<Vec<String>, HierarchyError> {
        let answer = self.answers[self.calls.min(self.answers.len() - 1)].clone();
        self.calls += 1;
        answer
    }

    fn entity_exists(&mut self, _type_: RecordType, id: &str) -> Result<bool, HierarchyError> {
        self.exists_calls += 1;
        Ok(id == "here")
    }
}

fn ids(v: &[&str]) -> Vec<String> {
    v.iter().map(|s| s.to_string()).collect()
}

#[test]
fn first_lookup_asks_once_then_serves_from_cache() {
    let mut c = HierarchyCache::new(Scripted::new(vec![Ok(ids(&["t1", "t2"])), Ok(ids(&["other"]))]), 60);
    assert_eq!(c.get_at(RecordType::Element, RecordType::Topology, "e1", 100), Ok(ids(&["t1", "t2"])));
    assert_eq!(c.wrapped().calls, 1);
    assert_eq!(c.get_at(RecordType::Element, RecordType::Topology, "e1", 130), Ok(ids(&["t1", "t2"])));
    assert_eq!(c.get_at(RecordType::Element, RecordType::Topology, "e1", 160), Ok(ids(&["t1", "t2"])));
    assert_eq!(c.wrapped().calls, 1);
}

#[test]
fn keys_are_cached_separately() {
    let mut c = HierarchyCache::new(Scripted::new(vec![Ok(ids(&["t1"])), Ok(ids(&["t9"]))]), 60);
    assert_eq!(c.get_at(RecordType::Element, RecordType::Topology, "e1", 0), Ok(ids(&["t1"])));
    assert_eq!(c.get_at(RecordType::Element, RecordType::Topology, "e2", 0), Ok(ids(&["t9"])));
    assert_eq!(c.get_at(RecordType::Connection, RecordType::Topology, "e1", 0), Ok(ids(&["t9"])));
    assert_eq!(c.wrapped().calls, 3);
    assert_eq!(c.get_at(RecordType::Element, RecordType::Topology, "e1", 1), Ok(ids(&["t1"])));
    assert_eq!(c.wrapped().calls, 3);
}

#[test]
fn unregistered_relation_is_refused() {
    let mut c = HierarchyCache::new(Scripted::new(vec![Ok(ids(&["u1"]))]), 60);
    assert_eq!(c.get_at(RecordType::Element, RecordType::User, "e1", 0), Err(HierarchyError::NoSuchRelation));
    assert_eq!(c.get_at(RecordType::Topology, RecordType::Element, "t1", 0), Err(HierarchyError::NoSuchRelation));
    assert_eq!(c.get_at(RecordType::Organization, RecordType::User, "", 0), Err(HierarchyError::NoSuchRelation));
    assert_eq!(
        c.put_at(RecordType::Element, "e1".to_string(), RecordType::User, ids(&["u1"]), 0),
        Err(HierarchyError::NoSuchRelation)
    );
    assert_eq!(c.get_at(RecordType::Element, RecordType::User, "e1", 1), Err(HierarchyError::NoSuchRelation));
    assert_eq!(c.get(RecordType::Element, RecordType::User, "e1"), Err(HierarchyError::NoSuchRelation));
    assert_eq!(c.wrapped().calls, 0);
}

#[test]
fn every_registered_relation_is_served() {
    let pairs = [
        (RecordType::HostElement, RecordType::Element),
        (RecordType::HostElement, RecordType::Connection),
        (RecordType::HostConnection, RecordType::Connection),
        (RecordType::Element, RecordType::Topology),
        (RecordType::Connection, RecordType::Topology),
        (RecordType::Topology, RecordType::User),
        (RecordType::User, RecordType::Organization),
    ];
    let mut c = HierarchyCache::new(DummyHierarchy, 60);
    for (child, parent) in pairs {
        assert_eq!(c.get_at(child, parent, "x", 0), Ok(Vec::new()));
    }
}

#[test]
fn stale_entry_is_refetched_and_empty_answer_is_kept() {
    let mut c = HierarchyCache::new(Scripted::new(vec![Ok(ids(&["t1"])), Ok(Vec::new()), Ok(ids(&["t3"]))]), 60);
    assert_eq!(c.get_at(RecordType::Element, RecordType::Topology, "e1", 0), Ok(ids(&["t1"])));
    assert_eq!(c.get_at(RecordType::Element, RecordType::Topology, "e1", 61), Ok(Vec::new()));
    assert_eq!(c.wrapped().calls, 2);
    // the empty answer is an entry of its own, served while fresh
    assert_eq!(c.get_at(RecordType::Element, RecordType::Topology, "e1", 100), Ok(Vec::new()));
    assert_eq!(c.wrapped().calls, 2);
    assert_eq!(c.get_at(RecordType::Element, RecordType::Topology, "e1", 122), Ok(ids(&["t3"])));
    assert_eq!(c.wrapped().calls, 3);
}

#[test]
fn entry_is_fresh_up_to_and_including_its_deadline() {
    let mut c = HierarchyCache::new(Scripted::new(vec![Ok(ids(&["t1"])), Ok(ids(&["t2"]))]), 60);
    assert_eq!(c.get_at(RecordType::Element, RecordType::Topology, "e1", 40), Ok(ids(&["t1"])));
    assert_eq!(c.get_at(RecordType::Element, RecordType::Topology, "e1", 100), Ok(ids(&["t1"])));
    assert_eq!(c.wrapped().calls, 1);
    assert_eq!(c.get_at(RecordType::Element, RecordType::Topology, "e1", 101), Ok(ids(&["t2"])));
    assert_eq!(c.wrapped().calls, 2);
}

#[test]
fn zero_ttl_serves_only_within_the_same_second() {
    let mut c = HierarchyCache::new(Scripted::new(vec![Ok(ids(&["a"])), Ok(ids(&["b"]))]), 0);
    assert_eq!(c.get_at(RecordType::User, RecordType::Organization, "u1", 5), Ok(ids(&["a"])));
    assert_eq!(c.get_at(RecordType::User, RecordType::Organization, "u1", 5), Ok(ids(&["a"])));
    assert_eq!(c.get_at(RecordType::User, RecordType::Organization, "u1", 6), Ok(ids(&["b"])));
    assert_eq!(c.wrapped().calls, 2);
}

#[test]
fn extreme_times_do_not_overflow() {
    let mut c = HierarchyCache::new(Scripted::new(vec![Ok(ids(&["a"])), Ok(ids(&["b"]))]), i64::MAX);
    assert_eq!(c.get_at(RecordType::Topology, RecordType::User, "t", i64::MAX), Ok(ids(&["a"])));
    assert_eq!(c.get_at(RecordType::Topology, RecordType::User, "t", i64::MIN), Ok(ids(&["a"])));
    assert_eq!(c.wrapped().calls, 1);
}

#[test]
fn failure_is_passed_on_and_not_cached() {
    let mut c = HierarchyCache::new(
        Scripted::new(vec![
            Err(HierarchyError::CommunicationError),
            Err(HierarchyError::NoSuchEntity),
            Ok(ids(&["t1"])),
        ]),
        60,
    );
    assert_eq!(c.get_at(RecordType::Element, RecordType::Topology, "e1", 0), Err(HierarchyError::CommunicationError));
    assert_eq!(c.get_at(RecordType::Element, RecordType::Topology, "e1", 1), Err(HierarchyError::NoSuchEntity));
    assert_eq!(c.get_at(RecordType::Element, RecordType::Topology, "e1", 2), Ok(ids(&["t1"])));
    assert_eq!(c.wrapped().calls, 3);
}

#[test]
fn put_then_get_does_not_ask() {
    let mut c = HierarchyCache::new(Scripted::new(vec![Ok(ids(&["backend"]))]), 60);
    assert_eq!(
        c.put_at(RecordType::HostElement, "h1".to_string(), RecordType::Element, ids(&["e1", "e2"]), 7),
        Ok(())
    );
    assert_eq!(c.get_at(RecordType::HostElement, RecordType::Element, "h1", 7), Ok(ids(&["e1", "e2"])));
    assert_eq!(c.wrapped().calls, 0);
}

#[test]
fn put_replaces_an_entry_whole() {
    let mut c = HierarchyCache::new(DummyHierarchy, 60);
    assert_eq!(c.put_at(RecordType::Element, "e1".to_string(), RecordType::Topology, ids(&["t1", "t2"]), 0), Ok(()));
    assert_eq!(c.put_at(RecordType::Element, "e1".to_string(), RecordType::Topology, ids(&["t3"]), 0), Ok(()));
    assert_eq!(c.get_at(RecordType::Element, RecordType::Topology, "e1", 0), Ok(ids(&["t3"])));
}

#[test]
fn ttl_scenario_put_then_expire() {
    let mut c = HierarchyCache::new(Scripted::new(vec![Ok(ids(&["t2"]))]), 60);
    assert_eq!(c.put_at(RecordType::Element, "e1".to_string(), RecordType::Topology, ids(&["t1"]), 0), Ok(()));
    assert_eq!(c.get_at(RecordType::Element, RecordType::Topology, "e1", 10), Ok(ids(&["t1"])));
    assert_eq!(c.wrapped().calls, 0);
    assert_eq!(c.get_at(RecordType::Element, RecordType::Topology, "e1", 61), Ok(ids(&["t2"])));
    assert_eq!(c.wrapped().calls, 1);
    assert_eq!(c.get_at(RecordType::Element, RecordType::Topology, "e1", 62), Ok(ids(&["t2"])));
    assert_eq!(c.wrapped().calls, 1);
}

#[test]
fn put_and_get_with_the_clock() {
    let mut c = HierarchyCache::new(Scripted::new(vec![Ok(ids(&["backend"]))]), 3600);
    assert_eq!(c.put(RecordType::Connection, "c1".to_string(), RecordType::Topology, ids(&["t1"])), Ok(()));
    assert_eq!(c.get(RecordType::Connection, RecordType::Topology, "c1"), Ok(ids(&["t1"])));
    assert_eq!(c.wrapped().calls, 0);
    assert_eq!(c.get(RecordType::Element, RecordType::Topology, "e1"), Ok(ids(&["backend"])));
    assert_eq!(c.wrapped().calls, 1);
    assert_eq!(
        c.put(RecordType::Connection, "c1".to_string(), RecordType::Element, ids(&["x"])),
        Err(HierarchyError::NoSuchRelation)
    );
}

#[test]
fn existence_is_passed_through_uncached() {
    let mut c = HierarchyCache::new(Scripted::new(vec![Ok(Vec::new())]), 60);
    assert_eq!(c.entity_exists(RecordType::User, "here"), Ok(true));
    assert_eq!(c.entity_exists(RecordType::User, "here"), Ok(true));
    assert_eq!(c.entity_exists(RecordType::User, "gone"), Ok(false));
    assert_eq!(c.wrapped().exists_calls, 3);
    assert_eq!(c.wrapped().calls, 0);
}

#[test]
fn cache_over_cache() {
    let mut c = HierarchyCache::new(HierarchyCache::new(Scripted::new(vec![Ok(ids(&["o1"]))]), 60), 30);
    assert_eq!(c.get_at(RecordType::User, RecordType::Organization, "u1", 0), Ok(ids(&["o1"])));
    assert_eq!(c.wrapped().wrapped().calls, 1);
}

#[test]
fn dummy_answers_nothing() {
    let mut d = DummyHierarchy;
    assert_eq!(d.get(RecordType::Element, RecordType::Topology, "e1"), Ok(Vec::new()));
    assert_eq!(d.get(RecordType::Element, RecordType::User, ""), Ok(Vec::new()));
    assert_eq!(d.entity_exists(RecordType::User, "u1"), Ok(false));
    assert_eq!(d.entity_exists(RecordType::HostConnection, ""), Ok(false));
}
