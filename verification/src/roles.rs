//! Access roles recognized by the deployment's authorization surface.

use vstd::prelude::*;

verus! {

/// An access role, declared from least to most access.
#[derive(Debug, Clone, Copy, PartialEq, Eq, Structural)]
pub enum Role {
    Player,
    Partner,
    SkipQueue,
    Mod,
    Gm,
    Admin,
    Relay,
}

/// The position of a role in the access order, least access first.
pub open spec fn role_rank(r: Role) -> nat {
    match r {
        Role::Player => 0,
        Role::Partner => 1,
        Role::SkipQueue => 2,
        Role::Mod => 3,
        Role::Gm => 4,
        Role::Admin => 5,
        Role::Relay => 6,
    }
}

impl Role {
    /// The position of this role in the access order, least access first.
    pub fn rank(&self) -> (n: u8)
        ensures
            n as nat == role_rank(*self),
    {
        match self {
            Role::Player => 0,
            Role::Partner => 1,
            Role::SkipQueue => 2,
            Role::Mod => 3,
            Role::Gm => 4,
            Role::Admin => 5,
            Role::Relay => 6,
        }
    }

    /// Whether this role carries at least the access of `other`.
    pub fn grants(&self, other: Role) -> (b: bool)
        ensures
            b == (role_rank(*self) >= role_rank(other)),
    {
        self.rank() >= other.rank()
    }
}

} // verus!
