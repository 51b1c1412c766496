use vstd::prelude::*;
use crate::hierarchy::HierarchyError;
use crate::kinds::{RecordType, Service, kind_name, service_of};

verus! {

/// How a remote call ended, as far as the decisions about it go.
pub enum RpcOutcome<T> {
    /// The call returned and its answer decoded to the expected type.
    Returned(T),
    /// The call returned something, a result or a failure report, that did
    /// not decode.
    Undecodable,
    /// The service reported a failure; `code` is the report's error code,
    /// where it gave one as text.
    Failed(Option<String>),
    /// The call did not complete: a timeout, a transport error or an abort.
    Lost,
}

/// The error code by which a service confirms that an entity is absent.
pub open spec fn missing_entity_code() -> Seq<char> {
    "entity_does_not_exist"@
}

/// What a call answers for a given outcome.
pub open spec fn outcome_result<T>(o: RpcOutcome<T>) -> Result<T, HierarchyError> {
    match o {
        RpcOutcome::Returned(v) => Ok(v),
        RpcOutcome::Failed(Some(code)) => if code@ == missing_entity_code() {
            Err(HierarchyError::NoSuchEntity)
        } else {
            Err(HierarchyError::CommunicationError)
        },
        _ => Err(HierarchyError::CommunicationError),
    }
}

/// The ids of the pairs whose kind name is `name`, in their order.
pub open spec fn parents_of_kind(pairs: Seq<(String, String)>, name: Seq<char>) -> Seq<String>
    decreases pairs.len(),
{
    if pairs.len() == 0 {
        Seq::empty()
    } else {
        let rest = parents_of_kind(pairs.drop_last(), name);
        if pairs.last().0@ == name {
            rest.push(pairs.last().1)
        } else {
            rest
        }
    }
}

/// The parents of kind `parent_type` among all the (kind name, id) pairs a
/// service gave for an entity, in the order given.
pub fn filter_parents(pairs: &Vec<(String, String)>, parent_type: RecordType) -> (r: Vec<String>)
    ensures
        r@ == parents_of_kind(pairs@, kind_name(parent_type)),
{
    let wanted: String = parent_type.name().to_owned();
    let mut r: Vec<String> = Vec::new();
    let mut i: usize = 0;
    while i < pairs.len()
        invariant
            i <= pairs@.len(),
            wanted@ == kind_name(parent_type),
            r@ == parents_of_kind(pairs@.subrange(0, i as int), kind_name(parent_type)),
        decreases pairs@.len() - i,
    {
        assert(pairs@.subrange(0, i + 1).drop_last() == pairs@.subrange(0, i as int));
        if pairs[i].0 == wanted {
            r.push(pairs[i].1.clone());
        }
        i += 1;
    }
    assert(pairs@.subrange(0, pairs@.len() as int) == pairs@);
    r
}

/// Which service a call goes to, and whether its connection must be
/// replaced before the call is made.
#[derive(Clone, Copy, Debug, PartialEq, Eq, Structural)]
pub struct ServicePlan {
    pub service: Service,
    pub reconnect: bool,
}

/// Whether the connection to each service is marked broken. A broken
/// connection is replaced before its next use.
#[derive(Clone, Copy, Debug, PartialEq, Eq, Structural)]
pub struct ConnectionHealth {
    pub core_broken: bool,
    pub user_broken: bool,
}

impl ConnectionHealth {
    pub open spec fn broken(self, service: Service) -> bool {
        match service {
            Service::Core => self.core_broken,
            Service::User => self.user_broken,
        }
    }

    /// The same health with the mark of `service` set to `broken`.
    pub open spec fn marked(self, service: Service, broken: bool) -> ConnectionHealth {
        match service {
            Service::Core => ConnectionHealth { core_broken: broken, ..self },
            Service::User => ConnectionHealth { user_broken: broken, ..self },
        }
    }

    /// The plan for a call about an entity of `kind`.
    pub open spec fn plan(self, kind: RecordType) -> ServicePlan {
        ServicePlan { service: service_of(kind), reconnect: self.broken(service_of(kind)) }
    }

    /// The health after a call to `service` ended with `o`: a call that
    /// fails for want of communication marks the connection broken; any
    /// other end leaves the marks as they were.
    pub open spec fn after<T>(self, service: Service, o: RpcOutcome<T>) -> ConnectionHealth {
        if outcome_result(o) == Err::<T, HierarchyError>(HierarchyError::CommunicationError) {
            self.marked(service, true)
        } else {
            self
        }
    }

    /// Both connections fresh.
    pub fn new() -> (r: ConnectionHealth)
        ensures
            !r.broken(Service::Core),
            !r.broken(Service::User),
    {
        ConnectionHealth { core_broken: false, user_broken: false }
    }

    pub fn is_broken(&self, service: Service) -> (r: bool)
        ensures
            r == self.broken(service),
    {
        match service {
            Service::Core => self.core_broken,
            Service::User => self.user_broken,
        }
    }

    fn mark(&mut self, service: Service, broken: bool)
        ensures
            *final(self) == old(self).marked(service, broken),
    {
        match service {
            Service::Core => self.core_broken = broken,
            Service::User => self.user_broken = broken,
        }
    }

    /// The first step of a call about an entity of `kind`: the service that
    /// answers it, and whether its connection is to be replaced first.
    pub fn plan_service(&self, kind: RecordType) -> (r: ServicePlan)
        ensures
            r == self.plan(kind),
    {
        let service = kind.service();
        ServicePlan { service, reconnect: self.is_broken(service) }
    }

    /// Takes note of an attempt to replace the connection to `service`: on
    /// success the mark is cleared; a failed attempt is a communication
    /// error and leaves the mark set.
    pub fn reconnected(&mut self, service: Service, succeeded: bool) -> (r: Result<(), HierarchyError>)
        ensures
            succeeded ==> r is Ok && *final(self) == old(self).marked(service, false),
            !succeeded ==> r == Err::<(), HierarchyError>(HierarchyError::CommunicationError)
                && *final(self) == *old(self),
    {
        if succeeded {
            self.mark(service, false);
            Ok(())
        } else {
            Err(HierarchyError::CommunicationError)
        }
    }

    /// What a call to `service` answers, given how it ended: its result, a
    /// confirmed absence, or a communication error, which also marks the
    /// connection broken.
    pub fn settle<T>(&mut self, service: Service, outcome: RpcOutcome<T>) -> (r: Result<T, HierarchyError>)
        ensures
            r == outcome_result(outcome),
            *final(self) == old(self).after(service, outcome),
    {
        match outcome {
            RpcOutcome::Returned(v) => Ok(v),
            RpcOutcome::Failed(Some(code)) => {
                let missing: String = "entity_does_not_exist".to_owned();
                if code == missing {
                    Err(HierarchyError::NoSuchEntity)
                } else {
                    self.mark(service, true);
                    Err(HierarchyError::CommunicationError)
                }
            },
            _ => {
                self.mark(service, true);
                Err(HierarchyError::CommunicationError)
            },
        }
    }

    /// The parents of kind `parent_type` from how an `object_parents` call to
    /// `service` ended.
    pub fn settle_parents(
        &mut self,
        service: Service,
        outcome: RpcOutcome<Vec<(String, String)>>,
        parent_type: RecordType,
    ) -> (r: Result<Vec<String>, HierarchyError>)
        ensures
            *final(self) == old(self).after(service, outcome),
            match outcome_result(outcome) {
                Ok(pairs) => r is Ok && r->Ok_0@ == parents_of_kind(pairs@, kind_name(parent_type)),
                Err(e) => r == Err::<Vec<String>, HierarchyError>(e),
            },
    {
        match self.settle(service, outcome) {
            Ok(pairs) => Ok(filter_parents(&pairs, parent_type)),
            Err(e) => Err(e),
        }
    }
}

/// A call that ends in a confirmed absence leaves the connection marks as
/// they were. A call that ends in any other failure, a failure report with
/// another code, an unreadable answer or a lost call, is a communication
/// error and marks its service's connection broken, so that the next call
/// about a kind of that service replaces the connection first.
pub proof fn lemma_failure_forces_reconnect<T>(
    h: ConnectionHealth,
    service: Service,
    o: RpcOutcome<T>,
    kind: RecordType,
)
    requires
        service_of(kind) == service,
    ensures
        outcome_result(o) == Err::<T, HierarchyError>(HierarchyError::NoSuchEntity) ==> h.after(
            service,
            o,
        ) == h,
        o is Lost || o is Undecodable ==> outcome_result(o) == Err::<T, HierarchyError>(
            HierarchyError::CommunicationError,
        ),
        outcome_result(o) == Err::<T, HierarchyError>(HierarchyError::CommunicationError) ==> h.after(
            service,
            o,
        ).plan(kind) == (ServicePlan { service, reconnect: true }),
{
}

} // verus!
