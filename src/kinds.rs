use vstd::prelude::*;

verus! {

/// A point in time, in whole seconds.
pub type Time = i64;

/// The categories of entities that the hierarchy relates.
#[derive(Clone, Copy, Debug, PartialEq, Eq, Structural, Hash)]
pub enum RecordType {
    HostElement,
    HostConnection,
    Element,
    Connection,
    Topology,
    User,
    Organization,
}

/// The backend service that answers queries about a kind of entity.
#[derive(Clone, Copy, Debug, PartialEq, Eq, Structural, Hash)]
pub enum Service {
    User,
    Core,
}

/// The name under which a kind travels to and from the backends.
pub open spec fn kind_name(kind: RecordType) -> Seq<char> {
    match kind {
        RecordType::HostElement => "HostElement"@,
        RecordType::HostConnection => "HostConnection"@,
        RecordType::Element => "Element"@,
        RecordType::Connection => "Connection"@,
        RecordType::Topology => "Topology"@,
        RecordType::User => "User"@,
        RecordType::Organization => "Organization"@,
    }
}

/// The service that owns a kind: users and organizations live in the user
/// service, everything else in the core service.
pub open spec fn service_of(kind: RecordType) -> Service {
    match kind {
        RecordType::User | RecordType::Organization => Service::User,
        _ => Service::Core,
    }
}

impl RecordType {
    pub fn name(self) -> (r: &'static str)
        ensures
            r@ == kind_name(self),
    {
        match self {
            RecordType::HostElement => "HostElement",
            RecordType::HostConnection => "HostConnection",
            RecordType::Element => "Element",
            RecordType::Connection => "Connection",
            RecordType::Topology => "Topology",
            RecordType::User => "User",
            RecordType::Organization => "Organization",
        }
    }

    pub fn service(self) -> (r: Service)
        ensures
            r == service_of(self),
    {
        match self {
            RecordType::User | RecordType::Organization => Service::User,
            _ => Service::Core,
        }
    }
}

} // verus!
