use bitcoin::bip32::{ChildNumber, Xpriv, Xpub as BitcoinXpub};
use bitcoin::secp256k1::{PublicKey, Secp256k1};
use bitcoin::NetworkKind;
use checkpoint::error::Error;
use checkpoint::keys::{Pubkey, Xpub};
use checkpoint::signatory::{Signatory, SignatorySet, Validator, ValidatorContext};

fn master(seed: u8) -> Xpriv {
    Xpriv::new_master(NetworkKind::Test, &[seed; 32]).unwrap()
}

fn xpub(seed: u8) -> Xpub {
    let secp = Secp256k1::new();
    Xpub::new(BitcoinXpub::from_priv(&secp, &master(seed)).encode())
}

fn master_pubkey(seed: u8) -> Pubkey {
    let secp = Secp256k1::new();
    Pubkey::new(BitcoinXpub::from_priv(&secp, &master(seed)).public_key.serialize())
}

fn child_pubkey(seed: u8, index: u32) -> Pubkey {
    let secp = Secp256k1::new();
    let step = [ChildNumber::from_normal_idx(index).unwrap()];
    let child = master(seed).derive_priv(&secp, &step).unwrap();
    Pubkey::new(PublicKey::from_secret_key(&secp, &child.private_key).serialize())
}

fn validator(seed: u8, power: u64, registered: bool) -> Validator {
    Validator {
        consensus_key: [seed; 32],
        power,
        xpub: if registered { Some(xpub(seed)) } else { None },
    }
}

#[test]
fn new_signatory_set_is_empty() {
    let set = SignatorySet::new(7);
    assert_eq!(set.len(), 0);
    assert_eq!(set.index(), 7);
    assert!(set.get(0).is_none());
}

#[test]
fn insert_appends_in_order() {
    let mut set = SignatorySet::new(2);
    let first = Signatory { pubkey: child_pubkey(1, 0), weight: 3 };
    let second = Signatory { pubkey: child_pubkey(2, 0), weight: 9 };
    set.insert(first);
    set.insert(second);
    assert_eq!(set.len(), 2);
    assert_eq!(set.index(), 2);
    assert_eq!(set.get(0), Some(first));
    assert_eq!(set.get(1), Some(second));
    assert_eq!(set.get(2), None);
}

#[test]
fn clone_copies_index_and_signers() {
    let mut set = SignatorySet::new(4);
    set.insert(Signatory { pubkey: child_pubkey(1, 4), weight: 3 });
    set.insert(Signatory { pubkey: child_pubkey(2, 4), weight: 9 });
    let copy = set.clone();
    assert_eq!(copy, set);
    assert_eq!(copy.len(), 2);
    assert_eq!(copy.index(), 4);
    assert_eq!(copy.get(1), set.get(1));
}

#[test]
fn from_validator_ctx_without_validators_is_empty() {
    let ctx = ValidatorContext { validators: vec![] };
    let set = SignatorySet::from_validator_ctx(0, &ctx).unwrap();
    assert_eq!(set.len(), 0);
    assert_eq!(set.index(), 0);
}

#[test]
fn from_validator_ctx_without_registered_keys_is_empty() {
    let ctx = ValidatorContext {
        validators: vec![validator(1, 10, false), validator(2, 20, false)],
    };
    let set = SignatorySet::from_validator_ctx(3, &ctx).unwrap();
    assert_eq!(set.len(), 0);
    assert_eq!(set.index(), 3);
}

#[test]
fn from_validator_ctx_derives_the_child_key_of_the_index() {
    let ctx = ValidatorContext { validators: vec![validator(1, 10, true)] };
    let at_zero = SignatorySet::from_validator_ctx(0, &ctx).unwrap();
    let at_five = SignatorySet::from_validator_ctx(5, &ctx).unwrap();
    assert_eq!(at_zero.get(0), Some(Signatory { pubkey: child_pubkey(1, 0), weight: 10 }));
    assert_eq!(at_five.get(0), Some(Signatory { pubkey: child_pubkey(1, 5), weight: 10 }));
    assert_eq!(at_five.index(), 5);
    assert_ne!(child_pubkey(1, 0), child_pubkey(1, 5));
    assert_ne!(at_zero.get(0).unwrap().pubkey, master_pubkey(1));
    assert_ne!(at_zero.get(0).unwrap().pubkey.bytes[..], xpub(1).bytes[45..78]);
}

#[test]
fn from_validator_ctx_leaves_out_validators_without_a_key() {
    let ctx = ValidatorContext {
        validators: vec![
            validator(1, 10, true),
            validator(2, 20, false),
            validator(3, 30, true),
            validator(4, 40, false),
        ],
    };
    let set = SignatorySet::from_validator_ctx(1, &ctx).unwrap();
    assert_eq!(set.len(), 2);
    assert_eq!(set.get(0), Some(Signatory { pubkey: child_pubkey(1, 1), weight: 10 }));
    assert_eq!(set.get(1), Some(Signatory { pubkey: child_pubkey(3, 1), weight: 30 }));
}

#[test]
fn from_validator_ctx_keeps_the_validators_order() {
    let forward = ValidatorContext {
        validators: vec![validator(1, 1, true), validator(2, 2, true), validator(3, 3, true)],
    };
    let backward = ValidatorContext {
        validators: vec![validator(3, 3, true), validator(2, 2, true), validator(1, 1, true)],
    };
    let a = SignatorySet::from_validator_ctx(0, &forward).unwrap();
    let b = SignatorySet::from_validator_ctx(0, &backward).unwrap();
    assert_eq!(a.len(), 3);
    assert_eq!(a.get(0), b.get(2));
    assert_eq!(a.get(1), b.get(1));
    assert_eq!(a.get(2), b.get(0));
    assert_eq!(a.get(0).unwrap().weight, 1);
}

#[test]
fn from_validator_ctx_is_deterministic() {
    let ctx = ValidatorContext {
        validators: vec![validator(1, 10, true), validator(2, 20, true)],
    };
    assert_eq!(
        SignatorySet::from_validator_ctx(9, &ctx).unwrap(),
        SignatorySet::from_validator_ctx(9, &ctx).unwrap()
    );
}

#[test]
fn from_validator_ctx_fails_on_a_key_that_does_not_decode() {
    let broken = Validator { consensus_key: [2; 32], power: 5, xpub: Some(Xpub::new([0u8; 78])) };
    let ctx = ValidatorContext { validators: vec![validator(1, 10, true), broken] };
    assert_eq!(SignatorySet::from_validator_ctx(0, &ctx), Err(Error::KeyDerivation));
}

#[test]
fn from_validator_ctx_fails_on_an_index_that_is_no_normal_child() {
    let ctx = ValidatorContext { validators: vec![validator(1, 10, true)] };
    assert!(SignatorySet::from_validator_ctx((1 << 31) - 1, &ctx).is_ok());
    assert_eq!(SignatorySet::from_validator_ctx(1 << 31, &ctx), Err(Error::KeyDerivation));
    assert_eq!(SignatorySet::from_validator_ctx(u32::MAX, &ctx), Err(Error::KeyDerivation));
}

#[test]
fn from_validator_ctx_ignores_a_high_index_without_registered_keys() {
    let ctx = ValidatorContext { validators: vec![validator(1, 10, false)] };
    let set = SignatorySet::from_validator_ctx(u32::MAX, &ctx).unwrap();
    assert_eq!(set.len(), 0);
    assert_eq!(set.index(), u32::MAX);
}
