//! An authorization-gated proxy in front of an account locker: holders of
//! the component's operator token, or its owner, may have the locker send
//! assets to many accounts, authorized by an elevation badge that the
//! component keeps in its vault, until the owner disables it for good.

pub mod airdropper;
pub mod auth;
pub mod resource;

pub use airdropper::{
    Airdropper, AirdropperError, Claim, Lifecycle, LockerCall, ResourceSpecifier,
};
pub use auth::AuthZone;
pub use resource::{
    Bucket, ComponentId, FungibleVault, Proof, ResourceError, ResourceKind, ResourceManager, ONE,
};
