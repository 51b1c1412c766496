//! Resolution of parent entities in the accounting hierarchy: a lookup
//! capability, a stub, a time-bounded cache in front of any lookup, and the
//! decisions of a client that talks to the two backend services.

pub mod kinds;
pub mod hierarchy;
pub mod bucket;
pub mod clock;
pub mod cache;
pub mod remote;
