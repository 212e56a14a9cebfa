use crate::error::Error;
use crate::keys::{Pubkey, Xpub};
use vstd::prelude::*;

verus! {

/// One validator of the chain, as the host reports it.
#[derive(Debug, Clone, Copy, PartialEq, Eq)]
pub struct Validator {
    /// The key the validator takes part in consensus with.
    pub consensus_key: [u8; 32],
    /// The validator's voting power.
    pub power: u64,
    /// The extended public key the validator registered, if any.
    pub xpub: Option<Xpub>,
}

/// What a validator holds, with its keys as byte strings.
pub struct ValidatorView {
    pub consensus_key: Seq<u8>,
    pub power: u64,
    pub xpub: Option<Seq<u8>>,
}

impl View for Validator {
    type V = ValidatorView;

    open spec fn view(&self) -> ValidatorView {
        ValidatorView {
            consensus_key: self.consensus_key@,
            power: self.power,
            xpub: match self.xpub {
                Some(xpub) => Some(xpub@),
                None => None,
            },
        }
    }
}

/// The active validators, in the order in which the host lists them.
#[derive(Debug, PartialEq, Eq)]
pub struct ValidatorContext {
    pub validators: Vec<Validator>,
}

impl View for ValidatorContext {
    type V = Seq<ValidatorView>;

    open spec fn view(&self) -> Seq<ValidatorView> {
        self.validators@.map_values(|v: Validator| v@)
    }
}

/// A signer with the weight of its signature.
#[derive(Debug, Clone, Copy, PartialEq, Eq)]
pub struct Signatory {
    pub pubkey: Pubkey,
    pub weight: u64,
}

/// What a signatory holds, with its key as a byte string.
pub struct SignatoryView {
    pub pubkey: Seq<u8>,
    pub weight: u64,
}

impl View for Signatory {
    type V = SignatoryView;

    open spec fn view(&self) -> SignatoryView {
        SignatoryView { pubkey: self.pubkey@, weight: self.weight }
    }
}

/// The weighted signers that may sign one checkpoint.
#[derive(Debug, PartialEq, Eq)]
pub struct SignatorySet {
    index: u32,
    signatories: Vec<Signatory>,
}

/// What a signatory set holds: the signers in their order.
pub struct SignatorySetView {
    /// The checkpoint index the signing keys were derived for.
    pub index: u32,
    pub signatories: Seq<SignatoryView>,
}

/// The compressed public key of the child that BIP 32 public derivation
/// gives for a serialized extended public key at one normal child index.
/// `None` where the extended key does not decode, the index is no normal
/// child index, or the derivation fails.
pub uninterp spec fn child_key(xpub: Seq<u8>, index: u32) -> Option<Seq<u8>>;

/// The weight of all the signatories together.
pub open spec fn weight_sum(signatories: Seq<SignatoryView>) -> nat
    decreases signatories.len(),
{
    if signatories.len() == 0 {
        0
    } else {
        weight_sum(signatories.drop_last()) + signatories.last().weight as nat
    }
}

/// The signatories that a list of validators gives for a checkpoint index:
/// one for each validator with a registered key, in the validators' order,
/// with the child key at that index and the validator's power as its
/// weight. `None` where some registered key has no child key at the index.
pub open spec fn derive_signatories(validators: Seq<ValidatorView>, index: u32) -> Option<
    Seq<SignatoryView>,
>
    decreases validators.len(),
{
    if validators.len() == 0 {
        Some(Seq::empty())
    } else {
        let validator = validators.last();
        match derive_signatories(validators.drop_last(), index) {
            None => None,
            Some(earlier) => match validator.xpub {
                None => Some(earlier),
                Some(xpub) => match child_key(xpub, index) {
                    None => None,
                    Some(key) => Some(
                        earlier.push(SignatoryView { pubkey: key, weight: validator.power }),
                    ),
                },
            },
        }
    }
}

/// Calls `bitcoin::bip32::Xpub::derive_pub` for the one-step path of the
/// normal child `index`, on the key that `Xpub::decode` reads from `xpub`,
/// and returns the child's compressed public key. The contract names that
/// result; it is `None` where decoding, the child number or the derivation
/// is refused.
#[verifier::external_body]
fn derive_child_key(xpub: &Xpub, index: u32) -> (key: Option<Pubkey>)
    ensures
        match key {
            Some(k) => child_key(xpub@, index) == Some(k@),
            None => child_key(xpub@, index) is None,
        },
{
    let parent = bitcoin::bip32::Xpub::decode(&xpub.bytes).ok()?;
    let step = bitcoin::bip32::ChildNumber::from_normal_idx(index).ok()?;
    let secp = bitcoin::secp256k1::Secp256k1::verification_only();
    let child = parent.derive_pub(&secp, &[step]).ok()?;
    Some(Pubkey { bytes: child.public_key.serialize() })
}

impl View for SignatorySet {
    type V = SignatorySetView;

    closed spec fn view(&self) -> SignatorySetView {
        SignatorySetView {
            index: self.index,
            signatories: self.signatories@.map_values(|s: Signatory| s@),
        }
    }
}

impl SignatorySet {
    /// A set without signers for the checkpoint at `index`.
    pub fn new(index: u32) -> (set: SignatorySet)
        ensures
            set@ == (SignatorySetView { index, signatories: Seq::empty() }),
    {
        let set = SignatorySet { index, signatories: Vec::new() };
        assert(set@.signatories =~= Seq::empty());
        set
    }

    /// Adds a signer behind those already in the set.
    pub fn insert(&mut self, signatory: Signatory)
        ensures
            final(self)@ == (SignatorySetView {
                index: old(self)@.index,
                signatories: old(self)@.signatories.push(signatory@),
            }),
    {
        self.signatories.push(signatory);
        assert(final(self)@.signatories =~= old(self)@.signatories.push(signatory@));
    }

    /// Builds the signatory set of the checkpoint at `index` from the active
    /// validators. Validators without a registered key are left out.
    pub fn from_validator_ctx(index: u32, ctx: &ValidatorContext) -> (result: Result<
        SignatorySet,
        Error,
    >)
        ensures
            match derive_signatories(ctx@, index) {
                Some(signatories) => result is Ok && result->Ok_0@ == (SignatorySetView {
                    index,
                    signatories,
                }),
                None => result == Err::<SignatorySet, Error>(Error::KeyDerivation),
            },
    {
        let mut set = SignatorySet::new(index);
        let mut i: usize = 0;
        while i < ctx.validators.len()
            invariant
                i <= ctx.validators.len(),
                derive_signatories(ctx@.take(i as int), index) == Some(set@.signatories),
                set@.index == index,
            decreases ctx.validators.len() - i,
        {
            let validator = &ctx.validators[i];
            proof {
                let next = ctx@.take(i as int + 1);
                assert(next.drop_last() =~= ctx@.take(i as int));
                assert(next.last() == validator@);
            }
            match &validator.xpub {
                None => {},
                Some(xpub) => match derive_child_key(xpub, index) {
                    None => {
                        proof {
                            lemma_derivation_fails_for_good(ctx@, i as int + 1, index);
                        }
                        return Err(Error::KeyDerivation);
                    },
                    Some(pubkey) => {
                        set.insert(Signatory { pubkey, weight: validator.power });
                    },
                },
            }
            i += 1;
        }
        assert(ctx@.take(i as int) =~= ctx@);
        Ok(set)
    }

    /// The number of signers.
    pub fn len(&self) -> (count: usize)
        ensures
            count == self@.signatories.len(),
    {
        self.signatories.len()
    }

    /// The checkpoint index the set was built for.
    pub fn index(&self) -> (index: u32)
        ensures
            index == self@.index,
    {
        self.index
    }

    /// The signer at position `i`.
    pub fn get(&self, i: usize) -> (signatory: Option<Signatory>)
        ensures
            match signatory {
                Some(s) => i < self@.signatories.len() && s@ == self@.signatories[i as int],
                None => i >= self@.signatories.len(),
            },
    {
        if i < self.signatories.len() {
            Some(self.signatories[i])
        } else {
            None
        }
    }
}

impl Clone for SignatorySet {
    fn clone(&self) -> (copy: SignatorySet)
        ensures
            copy@ == self@,
    {
        let mut copy = SignatorySet::new(self.index);
        let mut i: usize = 0;
        while i < self.signatories.len()
            invariant
                i <= self.signatories.len(),
                copy@.index == self@.index,
                copy@.signatories == self@.signatories.take(i as int),
            decreases self.signatories.len() - i,
        {
            copy.insert(self.signatories[i]);
            assert(self@.signatories.take(i as int + 1) =~= self@.signatories.take(i as int).push(
                self.signatories[i as int]@,
            ));
            i += 1;
        }
        assert(self@.signatories.take(i as int) =~= self@.signatories);
        copy
    }
}

/// Once a prefix of the validators has a key without a child at the index,
/// every longer prefix fails too.
proof fn lemma_derivation_fails_for_good(validators: Seq<ValidatorView>, n: int, index: u32)
    requires
        0 <= n <= validators.len(),
        derive_signatories(validators.take(n), index) is None,
    ensures
        derive_signatories(validators, index) is None,
    decreases validators.len() - n,
{
    if n < validators.len() {
        let next = validators.take(n + 1);
        assert(next.drop_last() =~= validators.take(n));
        lemma_derivation_fails_for_good(validators, n + 1, index);
    } else {
        assert(validators.take(n) =~= validators);
    }
}

} // verus!
