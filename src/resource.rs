//! Plain-value model of ledger resources: resource kinds, buckets of a
//! fungible resource, proofs of holding one, vaults that keep one kind, and
//! the manager that mints a kind under a minting rule.

use vstd::prelude::*;

verus! {

/// One whole unit of a fungible resource, counted in its smallest
/// subdivision (eighteen decimal places).
pub const ONE: u128 = 1_000_000_000_000_000_000;

/// The identifier of a resource kind: the thirty bytes of its node id, the
/// first fifteen in `hi` and the last fifteen in `lo`, both big-endian.
#[derive(Clone, Copy, Debug, PartialEq, Eq, Structural)]
pub struct ResourceKind {
    pub hi: u128,
    pub lo: u128,
}

/// The identifier of a component on the ledger, laid out as `ResourceKind`.
#[derive(Clone, Copy, Debug, PartialEq, Eq, Structural)]
pub struct ComponentId {
    pub hi: u128,
    pub lo: u128,
}

/// An amount of one fungible resource in transit.
#[derive(Clone, Copy, Debug, PartialEq, Eq, Structural)]
pub struct Bucket {
    pub resource: ResourceKind,
    pub amount: u128,
}

/// Evidence that some amount of a resource is held, without moving it.
#[derive(Clone, Copy, Debug, PartialEq, Eq, Structural)]
pub struct Proof {
    pub resource: ResourceKind,
    pub amount: u128,
}

/// Why an operation on a vault or a resource manager was refused.
#[derive(Clone, Copy, Debug, PartialEq, Eq, Structural)]
pub enum ResourceError {
    /// The bucket holds another kind than the one the store was made for.
    ResourceMismatch,
    /// Less is held than was asked for.
    InsufficientBalance,
    /// The amount would pass the largest one that can be counted.
    Overflow,
    /// The caller does not satisfy the minting rule.
    MintDenied,
}

/// A store for one fungible resource kind, fixed when it is made.
#[derive(Clone, Copy, Debug, PartialEq, Eq, Structural)]
pub struct FungibleVault {
    pub resource: ResourceKind,
    pub amount: u128,
}

impl Bucket {
    /// A proof of everything this bucket holds.
    pub fn create_proof(&self) -> (r: Proof)
        ensures
            r == (Proof { resource: self.resource, amount: self.amount }),
    {
        Proof { resource: self.resource, amount: self.amount }
    }
}

impl FungibleVault {
    /// An empty vault that accepts only `resource`.
    pub fn new(resource: ResourceKind) -> (r: FungibleVault)
        ensures
            r == (FungibleVault { resource, amount: 0 }),
    {
        FungibleVault { resource, amount: 0 }
    }

    /// Adds the whole bucket to the vault.
    pub fn put(&mut self, bucket: Bucket) -> (r: Result<(), ResourceError>)
        ensures
            bucket.resource != old(self).resource ==> r == Err::<(), ResourceError>(
                ResourceError::ResourceMismatch,
            ),
            bucket.resource == old(self).resource && old(self).amount + bucket.amount
                > u128::MAX ==> r == Err::<(), ResourceError>(ResourceError::Overflow),
            r is Ok <==> bucket.resource == old(self).resource && old(self).amount
                + bucket.amount <= u128::MAX,
            r is Ok ==> *final(self) == (FungibleVault {
                amount: (old(self).amount + bucket.amount) as u128,
                ..*old(self)
            }),
            r is Err ==> *final(self) == *old(self),
    {
        if bucket.resource != self.resource {
            return Err(ResourceError::ResourceMismatch);
        }
        match self.amount.checked_add(bucket.amount) {
            Some(total) => {
                self.amount = total;
                Ok(())
            },
            None => Err(ResourceError::Overflow),
        }
    }

    /// Takes `amount` out of the vault.
    pub fn take(&mut self, amount: u128) -> (r: Result<Bucket, ResourceError>)
        ensures
            r is Ok <==> amount <= old(self).amount,
            r is Err ==> r == Err::<Bucket, ResourceError>(ResourceError::InsufficientBalance)
                && *final(self) == *old(self),
            r is Ok ==> r == Ok::<Bucket, ResourceError>(
                Bucket { resource: old(self).resource, amount },
            ) && *final(self) == (FungibleVault {
                amount: (old(self).amount - amount) as u128,
                ..*old(self)
            }),
    {
        if amount > self.amount {
            return Err(ResourceError::InsufficientBalance);
        }
        self.amount = self.amount - amount;
        Ok(Bucket { resource: self.resource, amount })
    }

    /// Empties the vault into one bucket.
    pub fn take_all(&mut self) -> (r: Bucket)
        ensures
            r == (Bucket { resource: old(self).resource, amount: old(self).amount }),
            *final(self) == (FungibleVault { amount: 0, ..*old(self) }),
    {
        let all = self.amount;
        self.amount = 0;
        Bucket { resource: self.resource, amount: all }
    }
}

/// The supply of one fungible resource kind and its minting rule: only the
/// component `minter` may mint more.
#[derive(Clone, Copy, Debug, PartialEq, Eq, Structural)]
pub struct ResourceManager {
    pub resource: ResourceKind,
    pub total_supply: u128,
    pub minter: ComponentId,
}

impl ResourceManager {
    /// A new kind whose initial supply is handed out in one bucket.
    pub fn new_with_initial_supply(resource: ResourceKind, minter: ComponentId, supply: u128) -> (r: (
        ResourceManager,
        Bucket,
    ))
        ensures
            r.0 == (ResourceManager { resource, total_supply: supply, minter }),
            r.1 == (Bucket { resource, amount: supply }),
    {
        (ResourceManager { resource, total_supply: supply, minter }, Bucket { resource, amount: supply })
    }

    /// Mints `amount` more, on behalf of the component `caller`.
    pub fn mint(&mut self, caller: ComponentId, amount: u128) -> (r: Result<Bucket, ResourceError>)
        ensures
            caller != old(self).minter ==> r == Err::<Bucket, ResourceError>(
                ResourceError::MintDenied,
            ),
            caller == old(self).minter && old(self).total_supply + amount > u128::MAX ==> r
                == Err::<Bucket, ResourceError>(ResourceError::Overflow),
            r is Ok <==> caller == old(self).minter && old(self).total_supply + amount
                <= u128::MAX,
            r is Ok ==> r == Ok::<Bucket, ResourceError>(
                Bucket { resource: old(self).resource, amount },
            ) && *final(self) == (ResourceManager {
                total_supply: (old(self).total_supply + amount) as u128,
                ..*old(self)
            }),
            r is Err ==> *final(self) == *old(self),
    {
        if caller != self.minter {
            return Err(ResourceError::MintDenied);
        }
        match self.total_supply.checked_add(amount) {
            Some(total) => {
                self.total_supply = total;
                Ok(Bucket { resource: self.resource, amount })
            },
            None => Err(ResourceError::Overflow),
        }
    }
}

} // verus!
