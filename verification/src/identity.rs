//! The ephemeral unprivileged build identity. The account is created only
//! when it did not already exist, and deleted at the end of the run only
//! when this run created it: a pre-existing account is never touched.

use vstd::prelude::*;

verus! {

/// What the identity step must do when the run starts.
#[derive(Clone, Copy, PartialEq, Eq, Structural, Debug)]
pub enum IdentitySetup {
    /// The account is missing: create a system account without an
    /// interactive shell and with a dedicated home directory.
    CreateAccount,
    /// The account already exists: use it without any mutation.
    ReuseExisting,
}

/// What the guaranteed teardown must do when the run ends.
#[derive(Clone, Copy, PartialEq, Eq, Structural, Debug)]
pub enum IdentityTeardown {
    /// Delete the account and its home directory.
    DeleteAccount,
    /// Leave the account exactly as it was found.
    KeepAccount,
}

/// Tracks whether the unprivileged build account was created by this run.
pub struct BuildUserGuard {
    pub created_by_us: bool,
}

pub open spec fn spec_setup(existed: bool) -> IdentitySetup {
    if existed {
        IdentitySetup::ReuseExisting
    } else {
        IdentitySetup::CreateAccount
    }
}

pub open spec fn spec_teardown(g: BuildUserGuard) -> IdentityTeardown {
    if g.created_by_us {
        IdentityTeardown::DeleteAccount
    } else {
        IdentityTeardown::KeepAccount
    }
}

impl BuildUserGuard {
    /// Decides the identity step from the account lookup's answer and
    /// records whose account it is from then on.
    pub fn ensure(existed: bool) -> (r: (BuildUserGuard, IdentitySetup))
        ensures
            r.0.created_by_us == !existed,
            r.1 == spec_setup(existed),
    {
        if existed {
            (BuildUserGuard { created_by_us: false }, IdentitySetup::ReuseExisting)
        } else {
            (BuildUserGuard { created_by_us: true }, IdentitySetup::CreateAccount)
        }
    }

    /// Decides the guaranteed end-of-run step: delete the account only
    /// when this run created it.
    pub fn teardown(&self) -> (r: IdentityTeardown)
        ensures
            r == spec_teardown(*self),
    {
        if self.created_by_us {
            IdentityTeardown::DeleteAccount
        } else {
            IdentityTeardown::KeepAccount
        }
    }
}

/// Identity safety: an account that existed before the run is kept, on
/// every exit path; an account this run created is deleted at the end.
pub proof fn lemma_identity_safety(existed: bool)
    ensures
        existed ==> spec_teardown(BuildUserGuard { created_by_us: !existed })
            == IdentityTeardown::KeepAccount,
        !existed ==> spec_teardown(BuildUserGuard { created_by_us: !existed })
            == IdentityTeardown::DeleteAccount,
{
}

} // verus!
