use vstd::prelude::*;
use crate::kinds::RecordType;

verus! {

/// Why a lookup did not produce an answer.
#[derive(Clone, Copy, Debug, PartialEq, Eq, Structural)]
pub enum HierarchyError {
    /// The backend confirmed that the entity does not exist.
    NoSuchEntity,
    /// The pair of kinds is not a registered relation.
    NoSuchRelation,
    /// The backend could not be reached, or its answer could not be read.
    CommunicationError,
}

/// The lookup capability: the parents of an entity, and whether an entity
/// exists.
pub trait Hierarchy: Sized {
    /// Asked for the parents of kind `parent` of the entity `id` of kind
    /// `child`, the lookup may go from `self` to `after` and answer `r`. A
    /// lookup that does not say claims nothing.
    open spec fn answers(
        self,
        after: Self,
        child: RecordType,
        parent: RecordType,
        id: Seq<char>,
        r: Result<Vec<String>, HierarchyError>,
    ) -> bool {
        true
    }

    /// Asked whether the entity `id` of kind `kind` exists, the lookup may go
    /// from `self` to `after` and answer `r`. A lookup that does not say
    /// claims nothing.
    open spec fn exists_answers(
        self,
        after: Self,
        kind: RecordType,
        id: Seq<char>,
        r: Result<bool, HierarchyError>,
    ) -> bool {
        true
    }

    /// The ids of the parents of kind `parent_type` of the entity `child_id`
    /// of kind `child_type`, in the order the source gives them.
    fn get(&mut self, child_type: RecordType, parent_type: RecordType, child_id: &str) -> (r: Result<
        Vec<String>,
        HierarchyError,
    >)
        ensures
            old(self).answers(*final(self), child_type, parent_type, child_id@, r),
    ;

    /// Whether the entity `id` of kind `type_` exists.
    fn entity_exists(&mut self, type_: RecordType, id: &str) -> (r: Result<bool, HierarchyError>)
        ensures
            old(self).exists_answers(*final(self), type_, id@, r),
    ;
}

/// A lookup with no backend behind it: no entity has parents, and none
/// exists.
pub struct DummyHierarchy;

impl Hierarchy for DummyHierarchy {
    /// Every entity has no parents.
    open spec fn answers(
        self,
        after: Self,
        child: RecordType,
        parent: RecordType,
        id: Seq<char>,
        r: Result<Vec<String>, HierarchyError>,
    ) -> bool {
        r matches Ok(v) && v@.len() == 0
    }

    /// No entity exists.
    open spec fn exists_answers(
        self,
        after: Self,
        kind: RecordType,
        id: Seq<char>,
        r: Result<bool, HierarchyError>,
    ) -> bool {
        r == Ok::<bool, HierarchyError>(false)
    }

    fn get(&mut self, child_type: RecordType, parent_type: RecordType, child_id: &str) -> (r: Result<
        Vec<String>,
        HierarchyError,
    >) {
        Ok(Vec::new())
    }

    fn entity_exists(&mut self, type_: RecordType, id: &str) -> (r: Result<bool, HierarchyError>) {
        Ok(false)
    }
}

} // verus!
