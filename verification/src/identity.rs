use vstd::prelude::*;

verus! {

/// An actor identity, as established by the host platform's authentication
/// layer (signature verification) before a request reaches the registry.
/// The platform's public keys are abstracted to opaque numeric handles:
/// the registry only stores identities and compares them for equality.
#[derive(Clone, Copy, PartialEq, Eq, Structural, Debug)]
pub struct Pubkey {
    pub id: u64,
}

} // verus!
