//! The proofs a caller presents, and the check of an access rule of the
//! form "require a proof of this resource kind".

use vstd::prelude::*;
use crate::resource::{Proof, ResourceKind};

verus! {

/// The proofs presented with one call.
#[derive(Clone, Debug)]
pub struct AuthZone {
    pub proofs: Vec<Proof>,
}

/// Whether some proof in `proofs` shows a nonzero amount of `kind`.
pub open spec fn holds_spec(proofs: Seq<Proof>, kind: ResourceKind) -> bool {
    exists|i: int| 0 <= i < proofs.len() && #[trigger] proofs[i].resource == kind && proofs[i].amount
        > 0
}

impl AuthZone {
    /// A zone with no proofs in it.
    pub fn new() -> (r: AuthZone)
        ensures
            r.proofs@ == Seq::<Proof>::empty(),
    {
        AuthZone { proofs: Vec::new() }
    }

    /// Adds a proof to the zone.
    pub fn push(&mut self, proof: Proof)
        ensures
            final(self).proofs@ == old(self).proofs@.push(proof),
    {
        self.proofs.push(proof);
    }

    /// Whether the zone satisfies the rule "require `kind`".
    pub fn holds(&self, kind: ResourceKind) -> (r: bool)
        ensures
            r == holds_spec(self.proofs@, kind),
    {
        let n: usize = self.proofs.len();
        let mut i: usize = 0;
        while i < n
            invariant
                n == self.proofs@.len(),
                0 <= i <= n,
                forall|k: int| 0 <= k < i ==> !(#[trigger] self.proofs@[k].resource == kind
                    && self.proofs@[k].amount > 0),
            decreases n - i,
        {
            let p = self.proofs[i];
            if p.resource == kind && p.amount > 0 {
                return true;
            }
            i = i + 1;
        }
        false
    }
}

} // verus!
