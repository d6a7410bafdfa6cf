use certified_airdropper::{
    AuthZone, Bucket, ComponentId, FungibleVault, Proof, ResourceError, ResourceKind,
    ResourceManager, ONE,
};

fn kind(n: u128) -> ResourceKind {
    ResourceKind { hi: 0, lo: n }
}

#[test]
fn one_is_ten_to_the_eighteenth() {
    assert_eq!(ONE, 1_000_000_000_000_000_000);
}

#[test]
fn vault_take_and_put() {
    let mut v = FungibleVault::new(kind(1));
    v.put(Bucket { resource: kind(1), amount: 5 }).unwrap();
    assert_eq!(v.take(6).unwrap_err(), ResourceError::InsufficientBalance);
    assert_eq!(v.take(2).unwrap(), Bucket { resource: kind(1), amount: 2 });
    assert_eq!(v.amount, 3);
    assert_eq!(v.take_all(), Bucket { resource: kind(1), amount: 3 });
    assert_eq!(v.amount, 0);
    assert_eq!(v.put(Bucket { resource: kind(2), amount: 1 }).unwrap_err(), ResourceError::ResourceMismatch);
}

#[test]
fn mint_follows_the_minting_rule() {
    let me = ComponentId { hi: 9, lo: 9 };
    let (mut m, first) = ResourceManager::new_with_initial_supply(kind(4), me, ONE);
    assert_eq!(first, Bucket { resource: kind(4), amount: ONE });
    assert_eq!(m.mint(ComponentId { hi: 9, lo: 8 }, ONE).unwrap_err(), ResourceError::MintDenied);
    assert_eq!(m.mint(me, 3).unwrap(), Bucket { resource: kind(4), amount: 3 });
    assert_eq!(m.total_supply, ONE + 3);
}

#[test]
fn auth_zone_looks_at_every_proof() {
    let mut z = AuthZone::new();
    assert!(!z.holds(kind(3)));
    z.push(Proof { resource: kind(1), amount: 1 });
    z.push(Proof { resource: kind(3), amount: 0 });
    assert!(!z.holds(kind(3)));
    z.push(Proof { resource: kind(3), amount: 2 });
    assert!(z.holds(kind(3)));
    assert!(z.holds(kind(1)));
}

#[test]
fn bucket_proof_covers_the_whole_bucket() {
    let b = Bucket { resource: kind(7), amount: 11 };
    assert_eq!(b.create_proof(), Proof { resource: kind(7), amount: 11 });
}
