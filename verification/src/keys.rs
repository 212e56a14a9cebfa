use vstd::prelude::*;

verus! {

/// Length of a compressed secp256k1 public key.
pub const PUBKEY_LENGTH: usize = 33;

/// Length of a compact ECDSA signature.
pub const SIGNATURE_LENGTH: usize = 64;

/// Length of a serialized BIP 32 extended public key.
pub const XPUB_LENGTH: usize = 78;

/// Length of a signing digest, a transaction id and a consensus key.
pub const HASH_LENGTH: usize = 32;

/// A compressed secp256k1 public key.
#[derive(Debug, Clone, Copy, PartialEq, Eq)]
pub struct Pubkey {
    pub bytes: [u8; 33],
}

/// A compact ECDSA signature.
#[derive(Debug, Clone, Copy, PartialEq, Eq)]
pub struct Signature {
    pub bytes: [u8; 64],
}

/// A serialized BIP 32 extended public key.
#[derive(Debug, Clone, Copy, PartialEq, Eq)]
pub struct Xpub {
    pub bytes: [u8; 78],
}

impl View for Pubkey {
    type V = Seq<u8>;

    open spec fn view(&self) -> Seq<u8> {
        self.bytes@
    }
}

impl View for Signature {
    type V = Seq<u8>;

    open spec fn view(&self) -> Seq<u8> {
        self.bytes@
    }
}

impl View for Xpub {
    type V = Seq<u8>;

    open spec fn view(&self) -> Seq<u8> {
        self.bytes@
    }
}

/// The 32 zero bytes that stand for a digest or a transaction id not yet
/// known.
pub open spec fn zero_hash() -> Seq<u8> {
    Seq::new(32, |i: int| 0u8)
}

/// Whether two byte strings hold the same bytes.
pub fn bytes_equal(a: &[u8], b: &[u8]) -> (same: bool)
    ensures
        same == (a@ == b@),
{
    if a.len() != b.len() {
        return false;
    }
    let mut i: usize = 0;
    while i < a.len()
        invariant
            a@.len() == b@.len(),
            i <= a@.len(),
            forall|j: int| 0 <= j < i ==> a@[j] == b@[j],
        decreases a@.len() - i,
    {
        if a[i] != b[i] {
            return false;
        }
        i += 1;
    }
    assert(a@ =~= b@);
    true
}

impl Pubkey {
    pub fn new(bytes: [u8; 33]) -> (key: Pubkey)
        ensures
            key@ == bytes@,
    {
        Pubkey { bytes }
    }

    /// Whether `other` is the same key.
    pub fn same_as(&self, other: &Pubkey) -> (same: bool)
        ensures
            same == (self@ == other@),
    {
        bytes_equal(self.bytes.as_slice(), other.bytes.as_slice())
    }
}

impl Signature {
    pub fn new(bytes: [u8; 64]) -> (signature: Signature)
        ensures
            signature@ == bytes@,
    {
        Signature { bytes }
    }
}

impl Xpub {
    pub fn new(bytes: [u8; 78]) -> (xpub: Xpub)
        ensures
            xpub@ == bytes@,
    {
        Xpub { bytes }
    }
}

} // verus!
