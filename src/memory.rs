use vstd::prelude::*;

verus! {

/// CPU access rights of a resource.
#[derive(Clone, Copy, Debug, PartialEq, Eq, Structural)]
pub struct Access {
    pub read: bool,
    pub write: bool,
}

/// How a resource is used for its whole lifetime; it decides which update
/// strategy is legal.
#[derive(Clone, Copy, Debug, PartialEq, Eq, Structural)]
pub enum Usage {
    Immutable,
    GpuOnly,
    Dynamic,
    CpuOnly(Access),
    Persistent(Access),
}

/// True when the usage forbids any update of the resource's contents.
pub open spec fn usage_is_read_only(usage: Usage) -> bool {
    match usage {
        Usage::Immutable => true,
        Usage::CpuOnly(a) => a.read && !a.write,
        _ => false,
    }
}

/// Memory requirements of a resource that is not bound yet.
#[derive(Clone, Copy, Debug, PartialEq, Eq, Structural)]
pub struct Requirements {
    pub size: u64,
    pub alignment: u64,
}

} // verus!
