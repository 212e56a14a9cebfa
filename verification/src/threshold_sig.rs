use crate::error::Error;
use crate::keys::{zero_hash, Pubkey, Signature};
use crate::signatory::{weight_sum, SignatorySet, SignatoryView};
use vstd::prelude::*;

verus! {

/// Share of the total signing weight, in percent, that completes a
/// threshold signature.
pub const INITIAL_QUORUM_PERCENT: u64 = 70;

/// One signer's part in a threshold signature.
#[derive(Debug, Clone, Copy, PartialEq, Eq)]
pub struct Share {
    pub pubkey: Pubkey,
    pub weight: u64,
    /// The signature, once the signer has given one.
    pub signature: Option<Signature>,
}

/// What a share holds, with its key and signature as byte strings.
pub struct ShareView {
    pub pubkey: Seq<u8>,
    pub weight: u64,
    pub signature: Option<Seq<u8>>,
}

impl View for Share {
    type V = ShareView;

    open spec fn view(&self) -> ShareView {
        ShareView {
            pubkey: self.pubkey@,
            weight: self.weight,
            signature: match self.signature {
                Some(signature) => Some(signature@),
                None => None,
            },
        }
    }
}

/// The signatures that the members of one signatory set have given for one
/// message, with the weight of each.
#[derive(Debug, PartialEq, Eq)]
pub struct ThresholdSig {
    shares: Vec<Share>,
    message: [u8; 32],
}

/// What a threshold signature holds: the shares in the order of the
/// signatory set, and the digest that is signed.
pub struct ThresholdSigView {
    pub shares: Seq<ShareView>,
    pub message: Seq<u8>,
}

/// The weight of all shares.
pub open spec fn total_weight(shares: Seq<ShareView>) -> nat
    decreases shares.len(),
{
    if shares.len() == 0 {
        0
    } else {
        total_weight(shares.drop_last()) + shares.last().weight as nat
    }
}

/// The weight of the shares that hold a signature.
pub open spec fn signed_weight(shares: Seq<ShareView>) -> nat
    decreases shares.len(),
{
    if shares.len() == 0 {
        0
    } else {
        signed_weight(shares.drop_last()) + if shares.last().signature is Some {
            shares.last().weight as nat
        } else {
            0
        }
    }
}

/// Whether `signed` out of `total` weight is a quorum.
pub open spec fn is_quorum(signed: nat, total: nat) -> bool {
    signed * 100 >= total * INITIAL_QUORUM_PERCENT
}

/// The share a signatory starts with.
pub open spec fn unsigned_share(signatory: SignatoryView) -> ShareView {
    ShareView { pubkey: signatory.pubkey, weight: signatory.weight, signature: None }
}

/// The share at place `i` once it holds `signature`.
pub open spec fn signed_share(shares: Seq<ShareView>, i: int, signature: Seq<u8>) -> ShareView {
    ShareView { pubkey: shares[i].pubkey, weight: shares[i].weight, signature: Some(signature) }
}

impl ThresholdSigView {
    /// The threshold signature without signers.
    pub open spec fn empty() -> ThresholdSigView {
        ThresholdSigView { shares: Seq::empty(), message: zero_hash() }
    }

    /// The threshold signature that a signatory set starts with.
    pub open spec fn from_signatories(signatories: Seq<SignatoryView>) -> ThresholdSigView {
        ThresholdSigView {
            shares: signatories.map_values(|s: SignatoryView| unsigned_share(s)),
            message: zero_hash(),
        }
    }

    /// Whether share `i` is the first one of the key.
    pub open spec fn is_share_of(self, i: int, pubkey: Seq<u8>) -> bool {
        &&& 0 <= i < self.shares.len()
        &&& self.shares[i].pubkey == pubkey
        &&& forall|j: int| 0 <= j < i ==> self.shares[j].pubkey != pubkey
    }

    /// Whether the key belongs to a signer.
    pub open spec fn has_signer(self, pubkey: Seq<u8>) -> bool {
        exists|i: int| self.is_share_of(i, pubkey)
    }

    /// The position of the key's share.
    pub open spec fn share_of(self, pubkey: Seq<u8>) -> int {
        choose|i: int| self.is_share_of(i, pubkey)
    }

    /// Whether a signature of the key is taken: the key belongs to a signer
    /// who has not signed, and the signature was found valid.
    pub open spec fn accepts(self, pubkey: Seq<u8>, valid: bool) -> bool {
        &&& valid
        &&& self.has_signer(pubkey)
        &&& self.shares[self.share_of(pubkey)].signature is None
    }

    /// The threshold signature once the key's share holds `signature`.
    pub open spec fn with_signature(self, pubkey: Seq<u8>, signature: Seq<u8>) -> ThresholdSigView {
        let i = self.share_of(pubkey);
        ThresholdSigView {
            shares: self.shares.update(i, signed_share(self.shares, i, signature)),
            message: self.message,
        }
    }

    /// The weight of all signers.
    pub open spec fn total_weight(self) -> nat {
        total_weight(self.shares)
    }

    /// The weight of the signers who have signed.
    pub open spec fn signed_weight(self) -> nat {
        signed_weight(self.shares)
    }

    /// Whether the signatures given so far are a quorum.
    pub open spec fn done(self) -> bool {
        is_quorum(self.signed_weight(), self.total_weight())
    }
}

/// Whether libsecp256k1 takes the 64 bytes `signature` as a compact ECDSA
/// signature of the digest `message` under the serialized public key
/// `pubkey`; false where the key or the signature does not parse.
pub uninterp spec fn signature_valid(message: Seq<u8>, pubkey: Seq<u8>, signature: Seq<u8>) -> bool;

/// Calls `Secp256k1::verify_ecdsa` of `bitcoin::secp256k1` on the digest, on
/// the key that `PublicKey::from_slice` reads and on the signature that
/// `ecdsa::Signature::from_compact` reads. The contract names the outcome:
/// true where both parse and the verification returns `Ok`.
#[verifier::external_body]
fn verify_ecdsa(message: &[u8; 32], pubkey: &Pubkey, signature: &Signature) -> (valid: bool)
    ensures
        valid == signature_valid(message@, pubkey@, signature@),
{
    let key = match bitcoin::secp256k1::PublicKey::from_slice(&pubkey.bytes) {
        Ok(key) => key,
        Err(_) => return false,
    };
    let sig = match bitcoin::secp256k1::ecdsa::Signature::from_compact(&signature.bytes) {
        Ok(sig) => sig,
        Err(_) => return false,
    };
    let digest = bitcoin::secp256k1::Message::from_digest(*message);
    bitcoin::secp256k1::Secp256k1::verification_only().verify_ecdsa(&digest, &sig, &key).is_ok()
}

/// Whether `signed` out of `total` weight is a quorum.
pub fn quorum_reached(signed: u128, total: u128) -> (reached: bool)
    ensures
        reached == is_quorum(signed as nat, total as nat),
{
    let percent: u128 = INITIAL_QUORUM_PERCENT as u128;
    let hundreds: u128 = total / 100;
    let rest: u128 = total % 100;
    let threshold: u128 = hundreds * percent + (rest * percent + 99) / 100;
    signed >= threshold
}

impl View for ThresholdSig {
    type V = ThresholdSigView;

    closed spec fn view(&self) -> ThresholdSigView {
        ThresholdSigView {
            shares: self.shares@.map_values(|s: Share| s@),
            message: self.message@,
        }
    }
}

impl ThresholdSig {
    /// A threshold signature without signers, for the blank message.
    pub fn new() -> (sig: ThresholdSig)
        ensures
            sig@ == ThresholdSigView::empty(),
    {
        let sig = ThresholdSig { shares: Vec::new(), message: [0u8; 32] };
        assert(sig@.shares =~= Seq::empty());
        assert(sig@.message =~= zero_hash());
        sig
    }

    /// A threshold signature that the members of `sigset` are to sign, for
    /// the blank message.
    pub fn from_sigset(sigset: &SignatorySet) -> (sig: ThresholdSig)
        ensures
            sig@ == ThresholdSigView::from_signatories(sigset@.signatories),
    {
        let mut shares: Vec<Share> = Vec::new();
        let mut i: usize = 0;
        while i < sigset.len()
            invariant
                i <= sigset@.signatories.len(),
                shares@.len() == i,
                forall|j: int| 0 <= j < i ==> shares@[j]@ == unsigned_share(sigset@.signatories[j]),
            decreases sigset@.signatories.len() - i,
        {
            match sigset.get(i) {
                Some(signatory) => {
                    shares.push(
                        Share {
                            pubkey: signatory.pubkey,
                            weight: signatory.weight,
                            signature: None,
                        },
                    );
                },
                None => {},
            }
            i += 1;
        }
        let sig = ThresholdSig { shares, message: [0u8; 32] };
        assert(sig@.shares =~= ThresholdSigView::from_signatories(sigset@.signatories).shares);
        assert(sig@.message =~= zero_hash());
        sig
    }

    /// Sets the digest that the signers sign.
    pub fn set_message(&mut self, message: [u8; 32])
        ensures
            final(self)@ == (ThresholdSigView { shares: old(self)@.shares, message: message@ }),
    {
        self.message = message;
    }

    /// The digest that the signers sign.
    pub fn message(&self) -> (message: [u8; 32])
        ensures
            message@ == self@.message,
    {
        self.message
    }

    /// The number of signers.
    pub fn len(&self) -> (count: usize)
        ensures
            count == self@.shares.len(),
    {
        self.shares.len()
    }

    /// The share at position `i`.
    pub fn share(&self, i: usize) -> (share: Option<Share>)
        ensures
            match share {
                Some(s) => i < self@.shares.len() && s@ == self@.shares[i as int],
                None => i >= self@.shares.len(),
            },
    {
        if i < self.shares.len() {
            Some(self.shares[i])
        } else {
            None
        }
    }

    /// The weight of all signers.
    pub fn total_weight(&self) -> (weight: u128)
        ensures
            weight == self@.total_weight(),
    {
        let mut weight: u128 = 0;
        let mut i: usize = 0;
        while i < self.shares.len()
            invariant
                i <= self.shares.len(),
                weight == total_weight(self@.shares.take(i as int)),
                weight <= i * u64::MAX,
            decreases self.shares.len() - i,
        {
            proof {
                let next = self@.shares.take(i as int + 1);
                assert(next.drop_last() =~= self@.shares.take(i as int));
                lemma_weights_fit(i as nat, weight as nat, self.shares[i as int].weight as nat);
            }
            weight = weight + self.shares[i].weight as u128;
            i += 1;
        }
        assert(self@.shares.take(i as int) =~= self@.shares);
        weight
    }

    /// The weight of the signers who have signed.
    pub fn signed_weight(&self) -> (weight: u128)
        ensures
            weight == self@.signed_weight(),
    {
        let mut weight: u128 = 0;
        let mut i: usize = 0;
        while i < self.shares.len()
            invariant
                i <= self.shares.len(),
                weight == signed_weight(self@.shares.take(i as int)),
                weight <= i * u64::MAX,
            decreases self.shares.len() - i,
        {
            proof {
                let next = self@.shares.take(i as int + 1);
                assert(next.drop_last() =~= self@.shares.take(i as int));
                lemma_weights_fit(i as nat, weight as nat, self.shares[i as int].weight as nat);
            }
            if self.shares[i].signature.is_some() {
                weight = weight + self.shares[i].weight as u128;
            }
            i += 1;
        }
        assert(self@.shares.take(i as int) =~= self@.shares);
        weight
    }

    /// Whether the signatures given so far are a quorum.
    pub fn done(&self) -> (done: bool)
        ensures
            done == self@.done(),
    {
        quorum_reached(self.signed_weight(), self.total_weight())
    }

    /// Whether `signature` is a valid signature of the message under
    /// `pubkey`.
    pub fn verify(&self, pubkey: &Pubkey, signature: &Signature) -> (valid: bool)
        ensures
            valid == signature_valid(self@.message, pubkey@, signature@),
    {
        verify_ecdsa(&self.message, pubkey, signature)
    }

    /// Takes a signature whose validity the caller has established: stores
    /// it in the share of `pubkey` where that signer has not signed before
    /// and `valid` holds, and rejects it otherwise.
    pub fn record(&mut self, pubkey: Pubkey, signature: Signature, valid: bool) -> (result: Result<
        (),
        Error,
    >)
        ensures
            old(self)@.accepts(pubkey@, valid) ==> result is Ok && final(self)@ == old(
                self,
            )@.with_signature(pubkey@, signature@),
            !old(self)@.accepts(pubkey@, valid) ==> result == Err::<(), Error>(
                Error::SignatureRejected,
            ) && final(self)@ == old(self)@,
    {
        if !valid {
            return Err(Error::SignatureRejected);
        }
        let mut i: usize = 0;
        while i < self.shares.len()
            invariant
                valid,
                i <= self.shares.len(),
                *self == *old(self),
                forall|j: int| 0 <= j < i ==> self@.shares[j].pubkey != pubkey@,
            decreases self.shares.len() - i,
        {
            if self.shares[i].pubkey.same_as(&pubkey) {
                assert(self@.is_share_of(i as int, pubkey@));
                assert(self@.share_of(pubkey@) == i);
                if self.shares[i].signature.is_some() {
                    return Err(Error::SignatureRejected);
                }
                let share = Share {
                    pubkey: self.shares[i].pubkey,
                    weight: self.shares[i].weight,
                    signature: Some(signature),
                };
                self.shares[i] = share;
                assert(final(self)@.shares =~= old(self)@.with_signature(pubkey@, signature@).shares);
                return Ok(());
            }
            i += 1;
        }
        Err(Error::SignatureRejected)
    }

    /// Takes the signature of one signer: verifies it for the message under
    /// `pubkey` and stores it where the key belongs to a signer who has not
    /// signed before.
    pub fn sign(&mut self, pubkey: Pubkey, signature: Signature) -> (result: Result<(), Error>)
        ensures
            old(self)@.accepts(pubkey@, signature_valid(old(self)@.message, pubkey@, signature@))
                ==> result is Ok && final(self)@ == old(self)@.with_signature(
                pubkey@,
                signature@,
            ),
            !old(self)@.accepts(pubkey@, signature_valid(old(self)@.message, pubkey@, signature@))
                ==> result == Err::<(), Error>(Error::SignatureRejected) && final(self)@ == old(
                self,
            )@,
    {
        let valid = self.verify(&pubkey, &signature);
        self.record(pubkey, signature, valid)
    }
}

/// A sum of `count` weights and one more fits in 128 bits.
proof fn lemma_weights_fit(count: nat, sum: nat, weight: nat)
    requires
        count < usize::MAX,
        sum <= count * u64::MAX,
        weight <= u64::MAX,
    ensures
        sum + weight <= (count + 1) * u64::MAX,
        sum + weight <= u128::MAX,
{
    assert((count + 1) * u64::MAX == count * u64::MAX + u64::MAX) by (nonlinear_arith);
    assert((count + 1) * u64::MAX <= 0x1_0000_0000_0000_0000 * 0xFFFF_FFFF_FFFF_FFFF) by (
        nonlinear_arith)
        requires
            count + 1 <= 0x1_0000_0000_0000_0000,
            u64::MAX == 0xFFFF_FFFF_FFFF_FFFF,
    ;
}

/// Signing a share that was not signed adds its weight to the weight that
/// has signed, and leaves the weight of all shares.
pub proof fn lemma_signing_adds_weight(shares: Seq<ShareView>, i: int, signature: Seq<u8>)
    requires
        0 <= i < shares.len(),
        shares[i].signature is None,
    ensures
        total_weight(shares.update(i, signed_share(shares, i, signature))) == total_weight(shares),
        signed_weight(shares.update(i, signed_share(shares, i, signature))) == signed_weight(shares)
            + shares[i].weight,
    decreases shares.len(),
{
    let after = shares.update(i, signed_share(shares, i, signature));
    if i == shares.len() - 1 {
        assert(after.drop_last() =~= shares.drop_last());
    } else {
        assert(after.drop_last() =~= shares.drop_last().update(
            i,
            signed_share(shares.drop_last(), i, signature),
        ));
        lemma_signing_adds_weight(shares.drop_last(), i, signature);
    }
}

/// A signature that is taken adds the signer's weight to the weight that
/// has signed and leaves the whole weight, so a quorum that was reached
/// stays reached.
pub proof fn lemma_signature_adds_weight(sig: ThresholdSigView, pubkey: Seq<u8>, signature: Seq<u8>)
    requires
        sig.accepts(pubkey, true),
    ensures
        sig.with_signature(pubkey, signature).total_weight() == sig.total_weight(),
        sig.with_signature(pubkey, signature).signed_weight() == sig.signed_weight()
            + sig.shares[sig.share_of(pubkey)].weight,
        sig.done() ==> sig.with_signature(pubkey, signature).done(),
        sig.with_signature(pubkey, signature).message == sig.message,
{
    let i = sig.share_of(pubkey);
    assert(sig.is_share_of(i, pubkey));
    lemma_signing_adds_weight(sig.shares, i, signature);
    assert(sig.done() ==> sig.with_signature(pubkey, signature).done()) by (nonlinear_arith)
        requires
            sig.done() == (sig.signed_weight() * 100 >= sig.total_weight() * 70),
            sig.with_signature(pubkey, signature).done() == (sig.with_signature(
                pubkey,
                signature,
            ).signed_weight() * 100 >= sig.with_signature(pubkey, signature).total_weight() * 70),
            sig.with_signature(pubkey, signature).total_weight() == sig.total_weight(),
            sig.with_signature(pubkey, signature).signed_weight() >= sig.signed_weight(),
    ;
}

/// The weight that has signed is never more than the whole weight.
pub proof fn lemma_signed_within_total(shares: Seq<ShareView>)
    ensures
        signed_weight(shares) <= total_weight(shares),
    decreases shares.len(),
{
    if shares.len() > 0 {
        lemma_signed_within_total(shares.drop_last());
    }
}

/// A threshold signature that starts from a signatory set has the set's
/// weight, and nobody has signed it.
pub proof fn lemma_fresh_weights(signatories: Seq<SignatoryView>)
    ensures
        ThresholdSigView::from_signatories(signatories).total_weight() == weight_sum(signatories),
        ThresholdSigView::from_signatories(signatories).signed_weight() == 0,
    decreases signatories.len(),
{
    let shares = ThresholdSigView::from_signatories(signatories).shares;
    if signatories.len() > 0 {
        assert(shares.drop_last() =~= ThresholdSigView::from_signatories(
            signatories.drop_last(),
        ).shares);
        lemma_fresh_weights(signatories.drop_last());
    }
}

} // verus!
