//! The airdropper component: a proxy that lets holders of its operator token,
//! or its owner, have an account locker send assets to many accounts, using an
//! elevation badge that the component keeps in its own vault.

use vstd::prelude::*;
use crate::auth::{holds_spec, AuthZone};
use crate::resource::{
    Bucket, ComponentId, FungibleVault, Proof, ResourceError, ResourceKind, ResourceManager, ONE,
};

verus! {

/// The lifecycle of the component. `Active` is the initial state; the one
/// transition leads to `Disabled`, which is terminal.
#[derive(Clone, Copy, Debug, PartialEq, Eq, Structural)]
pub enum Lifecycle {
    Active,
    Disabled,
}

/// What one recipient of a distribution is to receive.
#[derive(Clone, Debug)]
pub enum ResourceSpecifier {
    /// An amount of a fungible resource, in its smallest subdivision.
    Fungible(u128),
    /// Items of a non-fungible resource, by their local ids.
    NonFungible(Vec<String>),
}

/// One entry of a claim batch: a recipient account and what it receives.
#[derive(Clone, Debug)]
pub struct Claim {
    pub account: ComponentId,
    pub resource: ResourceSpecifier,
}

/// The one privileged call into the account locker that a distribution
/// makes, together with the proof of the elevation badge that authorizes it.
#[derive(Clone, Debug)]
pub struct LockerCall {
    pub locker: ComponentId,
    pub claimants: Vec<Claim>,
    pub bucket: Bucket,
    pub try_direct_send: bool,
    pub badge_proof: Proof,
}

/// Why an operation of the component was refused.
#[derive(Clone, Copy, Debug, PartialEq, Eq, Structural)]
pub enum AirdropperError {
    /// The caller holds none of the roles the operation requires.
    Unauthorized,
    /// The component has been disabled.
    NotFunctional,
    /// The vault holds less than one unit of the elevation badge.
    InsufficientBadge,
    /// The deposited bucket is not of the elevation badge kind.
    ResourceMismatch,
    /// An amount would pass the largest one that can be counted.
    Overflow,
}

/// The state of one airdropper component.
#[derive(Clone, Copy, Debug, PartialEq, Eq, Structural)]
pub struct Airdropper {
    /// The component's own address, the only caller allowed to mint operator tokens.
    pub component: ComponentId,
    /// The elevation badge kind; holding it makes a caller the owner.
    pub badge_address: ResourceKind,
    /// The operator token kind and its supply.
    pub airdropper_ids: ResourceManager,
    pub lifecycle: Lifecycle,
    /// The account locker that performs distributions.
    pub locker: ComponentId,
    /// Where the elevation badge is kept between calls.
    pub badge_vault: FungibleVault,
}

/// The state right after construction.
pub open spec fn constructed(
    badge_address: ResourceKind,
    locker: ComponentId,
    component: ComponentId,
    airdropper_id_address: ResourceKind,
) -> Airdropper {
    Airdropper {
        component,
        badge_address,
        airdropper_ids: ResourceManager {
            resource: airdropper_id_address,
            total_supply: ONE,
            minter: component,
        },
        lifecycle: Lifecycle::Active,
        locker,
        badge_vault: FungibleVault { resource: badge_address, amount: 0 },
    }
}

/// `b` may follow `a` by one operation: what construction fixed is kept, and
/// a disabled component stays disabled.
pub open spec fn follows(a: Airdropper, b: Airdropper) -> bool {
    &&& b.component == a.component
    &&& b.badge_address == a.badge_address
    &&& b.locker == a.locker
    &&& b.airdropper_ids.resource == a.airdropper_ids.resource
    &&& b.airdropper_ids.minter == a.airdropper_ids.minter
    &&& b.badge_vault.resource == a.badge_vault.resource
    &&& (a.lifecycle == Lifecycle::Disabled ==> b.lifecycle == Lifecycle::Disabled)
}

/// `b` may follow `a` by one operation that deposits no badge.
pub open spec fn follows_without_deposit(a: Airdropper, b: Airdropper) -> bool {
    follows(a, b) && b.badge_vault.amount <= a.badge_vault.amount
}

impl Airdropper {
    /// The vault keeps the badge kind, and the component mints its own tokens.
    pub open spec fn wf(&self) -> bool {
        &&& self.badge_vault.resource == self.badge_address
        &&& self.airdropper_ids.minter == self.component
    }

    /// The owner role: a proof of the elevation badge kind.
    pub open spec fn is_owner_spec(&self, proofs: Seq<Proof>) -> bool {
        holds_spec(proofs, self.badge_address)
    }

    /// The owner or operator roles: a proof of the badge or of the operator token.
    pub open spec fn may_operate_spec(&self, proofs: Seq<Proof>) -> bool {
        holds_spec(proofs, self.badge_address) || holds_spec(proofs, self.airdropper_ids.resource)
    }

    /// Why a distribution by a caller presenting `proofs` is refused, if it is.
    pub open spec fn airdrop_error(&self, proofs: Seq<Proof>) -> Option<AirdropperError> {
        if !self.may_operate_spec(proofs) {
            Some(AirdropperError::Unauthorized)
        } else if self.lifecycle == Lifecycle::Disabled {
            Some(AirdropperError::NotFunctional)
        } else if self.badge_vault.amount < ONE {
            Some(AirdropperError::InsufficientBadge)
        } else {
            None
        }
    }

    /// Sets up a component at the address `component` that the ledger
    /// reserved for it, with `airdropper_id_address` the new operator token
    /// kind, and hands out the first operator token.
    pub fn drop_it_like_its_hot(
        badge_address: ResourceKind,
        locker: ComponentId,
        component: ComponentId,
        airdropper_id_address: ResourceKind,
    ) -> (r: (Airdropper, Bucket))
        ensures
            r.0 == constructed(badge_address, locker, component, airdropper_id_address),
            r.0.wf(),
            r.1 == (Bucket { resource: airdropper_id_address, amount: ONE }),
    {
        let (airdropper_ids, first) = ResourceManager::new_with_initial_supply(
            airdropper_id_address,
            component,
            ONE,
        );
        let airdropper = Airdropper {
            component,
            badge_address,
            airdropper_ids,
            lifecycle: Lifecycle::Active,
            locker,
            badge_vault: FungibleVault::new(badge_address),
        };
        (airdropper, first)
    }

    /// Whether the caller is the owner.
    pub fn is_owner(&self, auth: &AuthZone) -> (r: bool)
        ensures
            r == self.is_owner_spec(auth.proofs@),
    {
        auth.holds(self.badge_address)
    }

    /// Whether the caller is the owner or an operator.
    pub fn may_operate(&self, auth: &AuthZone) -> (r: bool)
        ensures
            r == self.may_operate_spec(auth.proofs@),
    {
        auth.holds(self.badge_address) || auth.holds(self.airdropper_ids.resource)
    }

    /// Whether the component has not been disabled.
    pub fn is_functional(&self) -> (r: bool)
        ensures
            r == (self.lifecycle == Lifecycle::Active),
    {
        match self.lifecycle {
            Lifecycle::Active => true,
            Lifecycle::Disabled => false,
        }
    }

    /// Prepares a distribution of `airdrop` over `claimants`. One unit of the
    /// elevation badge leaves the vault only to back the proof that
    /// authorizes the locker call, and is back in the vault before this
    /// returns, so the component's state is the same on every outcome.
    pub fn airdrop(&mut self, auth: &AuthZone, airdrop: Bucket, claimants: Vec<Claim>) -> (r:
        Result<LockerCall, AirdropperError>)
        ensures
            *final(self) == *old(self),
            follows_without_deposit(*old(self), *final(self)),
            r is Err <==> old(self).airdrop_error(auth.proofs@) is Some,
            match r {
                Err(e) => old(self).airdrop_error(auth.proofs@) == Some(e),
                Ok(call) => {
                    &&& call.locker == old(self).locker
                    &&& call.claimants@ == claimants@
                    &&& call.bucket == airdrop
                    &&& call.try_direct_send
                    &&& call.badge_proof == (Proof {
                        resource: old(self).badge_vault.resource,
                        amount: ONE,
                    })
                },
            },
    {
        if !self.may_operate(auth) {
            return Err(AirdropperError::Unauthorized);
        }
        if !self.is_functional() {
            return Err(AirdropperError::NotFunctional);
        }
        let badge = match self.badge_vault.take(ONE) {
            Ok(b) => b,
            Err(_) => {
                return Err(AirdropperError::InsufficientBadge);
            },
        };
        let badge_proof = badge.create_proof();
        // The badge goes back into the vault it came from, which cannot fail.
        let _ = self.badge_vault.put(badge);
        Ok(LockerCall {
            locker: self.locker,
            claimants,
            bucket: airdrop,
            try_direct_send: true,
            badge_proof,
        })
    }

    /// Mints one more operator token for a caller who is an owner or operator.
    /// This does not depend on the lifecycle.
    pub fn add_airdropper(&mut self, auth: &AuthZone) -> (r: Result<Bucket, AirdropperError>)
        requires
            old(self).wf(),
        ensures
            follows_without_deposit(*old(self), *final(self)),
            final(self).wf(),
            !old(self).may_operate_spec(auth.proofs@) ==> r == Err::<Bucket, AirdropperError>(
                AirdropperError::Unauthorized,
            ),
            old(self).may_operate_spec(auth.proofs@) && old(self).airdropper_ids.total_supply
                + ONE > u128::MAX ==> r == Err::<Bucket, AirdropperError>(
                AirdropperError::Overflow,
            ),
            r is Ok <==> old(self).may_operate_spec(auth.proofs@)
                && old(self).airdropper_ids.total_supply + ONE <= u128::MAX,
            r is Ok ==> r == Ok::<Bucket, AirdropperError>(
                Bucket { resource: old(self).airdropper_ids.resource, amount: ONE },
            ) && *final(self) == (Airdropper {
                airdropper_ids: ResourceManager {
                    total_supply: (old(self).airdropper_ids.total_supply + ONE) as u128,
                    ..old(self).airdropper_ids
                },
                ..*old(self)
            }),
            r is Err ==> *final(self) == *old(self),
    {
        if !self.may_operate(auth) {
            return Err(AirdropperError::Unauthorized);
        }
        match self.airdropper_ids.mint(self.component, ONE) {
            Ok(bucket) => Ok(bucket),
            Err(_) => Err(AirdropperError::Overflow),
        }
    }

    /// Disables the component for good and hands the owner everything the
    /// vault holds.
    pub fn disable_component(&mut self, auth: &AuthZone) -> (r: Result<Bucket, AirdropperError>)
        ensures
            follows_without_deposit(*old(self), *final(self)),
            r is Ok <==> old(self).is_owner_spec(auth.proofs@),
            r is Err ==> r == Err::<Bucket, AirdropperError>(AirdropperError::Unauthorized)
                && *final(self) == *old(self),
            r is Ok ==> r == Ok::<Bucket, AirdropperError>(
                Bucket {
                    resource: old(self).badge_vault.resource,
                    amount: old(self).badge_vault.amount,
                },
            ) && *final(self) == (Airdropper {
                lifecycle: Lifecycle::Disabled,
                badge_vault: FungibleVault { amount: 0, ..old(self).badge_vault },
                ..*old(self)
            }),
    {
        if !self.is_owner(auth) {
            return Err(AirdropperError::Unauthorized);
        }
        self.lifecycle = Lifecycle::Disabled;
        let all = self.badge_vault.take_all();
        Ok(all)
    }

    /// Deposits the whole bucket into the badge vault; anyone may call this.
    pub fn input_badge(&mut self, badge: Bucket) -> (r: Result<(), AirdropperError>)
        ensures
            follows(*old(self), *final(self)),
            badge.resource != old(self).badge_vault.resource ==> r == Err::<(), AirdropperError>(
                AirdropperError::ResourceMismatch,
            ),
            badge.resource == old(self).badge_vault.resource && old(self).badge_vault.amount
                + badge.amount > u128::MAX ==> r == Err::<(), AirdropperError>(
                AirdropperError::Overflow,
            ),
            r is Ok <==> badge.resource == old(self).badge_vault.resource
                && old(self).badge_vault.amount + badge.amount <= u128::MAX,
            r is Ok ==> *final(self) == (Airdropper {
                badge_vault: FungibleVault {
                    amount: (old(self).badge_vault.amount + badge.amount) as u128,
                    ..old(self).badge_vault
                },
                ..*old(self)
            }),
            r is Err ==> *final(self) == *old(self),
    {
        match self.badge_vault.put(badge) {
            Ok(()) => Ok(()),
            Err(ResourceError::ResourceMismatch) => Err(AirdropperError::ResourceMismatch),
            Err(_) => Err(AirdropperError::Overflow),
        }
    }
}

/// Once the component is disabled it stays disabled through every later
/// operation, and every later distribution is refused: as inactive for a
/// caller who holds the owner or operator role, and as unauthorized for one
/// who does not.
pub proof fn lemma_disabled_stays_disabled(
    trace: Seq<Airdropper>,
    i: int,
    j: int,
    proofs: Seq<Proof>,
)
    requires
        forall|k: int| 0 <= k < trace.len() - 1 ==> follows(#[trigger] trace[k], trace[k + 1]),
        0 <= i <= j < trace.len(),
        trace[i].lifecycle == Lifecycle::Disabled,
    ensures
        trace[j].lifecycle == Lifecycle::Disabled,
        trace[j].airdrop_error(proofs) is Some,
        trace[j].may_operate_spec(proofs) ==> trace[j].airdrop_error(proofs) == Some(
            AirdropperError::NotFunctional,
        ),
    decreases j - i,
{
    if j > i {
        lemma_disabled_stays_disabled(trace, i, j - 1, proofs);
        assert(follows(trace[j - 1], trace[j]));
    }
}

/// A component into which no badge was ever deposited cannot distribute:
/// from construction on, through operations that deposit nothing, the vault
/// stays empty and every distribution is refused, as lacking the badge for
/// a caller with a role while the component is active.
pub proof fn lemma_no_deposit_no_airdrop(
    badge_address: ResourceKind,
    locker: ComponentId,
    component: ComponentId,
    airdropper_id_address: ResourceKind,
    trace: Seq<Airdropper>,
    j: int,
    proofs: Seq<Proof>,
)
    requires
        trace.len() > 0,
        trace[0] == constructed(badge_address, locker, component, airdropper_id_address),
        forall|k: int|
            0 <= k < trace.len() - 1 ==> follows_without_deposit(#[trigger] trace[k], trace[k + 1]),
        0 <= j < trace.len(),
    ensures
        trace[j].badge_vault.amount == 0,
        trace[j].airdrop_error(proofs) is Some,
        trace[j].may_operate_spec(proofs) && trace[j].lifecycle == Lifecycle::Active
            ==> trace[j].airdrop_error(proofs) == Some(AirdropperError::InsufficientBadge),
    decreases j,
{
    if j > 0 {
        lemma_no_deposit_no_airdrop(
            badge_address,
            locker,
            component,
            airdropper_id_address,
            trace,
            j - 1,
            proofs,
        );
        assert(follows_without_deposit(trace[j - 1], trace[j]));
    }
}

} // verus!
