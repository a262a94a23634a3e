//! The handle of the body that the physics backend keeps for a node.

use vstd::prelude::*;

verus! {

/// The handle under which the physics backend keeps a body: the index of a slot
/// in its set of bodies, and the generation of that slot.
#[derive(Clone, Copy, Debug, PartialEq, Eq, Structural)]
pub struct NativeHandle {
    pub index: u32,
    pub generation: u32,
}

/// The handle that names no body: the backend never gives it to one.
pub open spec fn invalid_handle() -> NativeHandle {
    NativeHandle { index: u32::MAX, generation: u32::MAX }
}

/// Calls `rapier2d`'s `RigidBodyHandle::invalid()` and takes the result apart
/// with `into_raw_parts`. Trusted: both parts of that handle are `u32::MAX`,
/// the value that `rapier2d` keeps for indices that name nothing.
#[verifier::external_body]
fn backend_invalid_handle() -> (handle: NativeHandle)
    ensures
        handle.index == u32::MAX,
        handle.generation == u32::MAX,
{
    let (index, generation) = rapier2d::prelude::RigidBodyHandle::invalid().into_raw_parts();
    NativeHandle { index, generation }
}

impl NativeHandle {
    /// The handle made of the given parts.
    pub fn from_raw_parts(index: u32, generation: u32) -> (handle: Self)
        ensures
            handle.index == index,
            handle.generation == generation,
    {
        NativeHandle { index, generation }
    }

    /// The index and the generation of this handle.
    pub fn into_raw_parts(self) -> (parts: (u32, u32))
        ensures
            parts.0 == self.index,
            parts.1 == self.generation,
    {
        (self.index, self.generation)
    }

    /// The handle that names no body, as the backend defines it.
    pub fn invalid() -> (handle: Self)
        ensures
            handle == invalid_handle(),
    {
        backend_invalid_handle()
    }

    /// Whether this handle may name a body: whether it differs from the
    /// backend's invalid handle.
    pub fn is_valid(&self) -> (valid: bool)
        ensures
            valid == (*self != invalid_handle()),
    {
        let invalid = NativeHandle::invalid();
        !(self.index == invalid.index && self.generation == invalid.generation)
    }
}

} // verus!
