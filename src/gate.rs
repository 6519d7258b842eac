use vstd::prelude::*;

verus! {

/// The two migration operations that a gate can guard.
#[derive(Debug, Clone, Copy, PartialEq, Eq, Structural)]
pub enum OperationKind {
    Resize,
    FillZeros,
}

/// Whether a migration operation may still run.
#[derive(Debug, Clone, Copy, PartialEq, Eq, Structural)]
pub enum Availability {
    Open,
    Closed,
}

impl Availability {
    pub fn is_closed(&self) -> (r: bool)
        ensures
            r == (*self == Availability::Closed),
    {
        match self {
            Availability::Open => false,
            Availability::Closed => true,
        }
    }
}

/// The availability this deployment was built with: both migration
/// generations are retired, so both gates are closed for good.
pub open spec fn deployed_availability(kind: OperationKind) -> Availability {
    Availability::Closed
}

pub fn availability_of(kind: OperationKind) -> (a: Availability)
    ensures
        a == deployed_availability(kind),
{
    match kind {
        OperationKind::Resize => Availability::Closed,
        OperationKind::FillZeros => Availability::Closed,
    }
}

/// Whether the deployment rejects every invocation of `kind`.
pub fn is_closed(kind: OperationKind) -> (r: bool)
    ensures
        r == (deployed_availability(kind) == Availability::Closed),
        r,
{
    availability_of(kind).is_closed()
}

} // verus!
