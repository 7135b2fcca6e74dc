//! Partially signed transactions, held as their consensus serialization.

use vstd::prelude::*;

verus! {

/// The bytes that base64 text decodes to (standard alphabet, with padding),
/// or `None` where the text is not valid base64.
pub uninterp spec fn base64_decoded(text: Seq<char>) -> Option<Seq<u8>>;

/// The identity (txid) of the unsigned transaction inside the PSBT whose
/// consensus serialization is `bytes`, or `None` where the bytes do not
/// deserialize, entirely, into a PSBT.
pub uninterp spec fn psbt_unsigned_txid(bytes: Seq<u8>) -> Option<Seq<u8>>;

/// Relies on `bitcoin::base64::decode` (the base64 crate that bitcoin
/// re-exports): it returns the decoded bytes, or an error for text that is
/// not base64.
#[verifier::external_body]
fn decode_base64(text: &str) -> (r: Option<Vec<u8>>)
    ensures
        r.is_some() == base64_decoded(text@).is_some(),
        r.is_some() ==> r.unwrap()@ == base64_decoded(text@).unwrap(),
{
    bitcoin::base64::decode(text).ok()
}

/// Relies on `bitcoin::consensus::encode::deserialize` for a
/// `PartiallySignedTransaction` (which fails unless every byte is consumed)
/// and on `Transaction::txid` of its unsigned transaction.
#[verifier::external_body]
fn unsigned_txid(bytes: &[u8]) -> (r: Option<Vec<u8>>)
    ensures
        r.is_some() == psbt_unsigned_txid(bytes@).is_some(),
        r.is_some() ==> r.unwrap()@ == psbt_unsigned_txid(bytes@).unwrap(),
{
    bitcoin::consensus::encode::deserialize::<bitcoin::util::psbt::PartiallySignedTransaction>(
        bytes,
    ).ok().map(|p| p.global.unsigned_tx.txid()[..].to_vec())
}

/// The PSBT that base64 text stands for: the decoded bytes, where they
/// decode and deserialize into a PSBT.
pub open spec fn psbt_of_text(text: Seq<char>) -> Option<Seq<u8>> {
    match base64_decoded(text) {
        Some(bytes) => if psbt_unsigned_txid(bytes).is_some() {
            Some(bytes)
        } else {
            None
        },
        None => None,
    }
}

/// The identity of the unsigned transaction of a well-formed PSBT.
pub open spec fn txid_of(bytes: Seq<u8>) -> Seq<u8> {
    psbt_unsigned_txid(bytes).unwrap()
}

/// Two PSBTs are for the same transaction when their unsigned transactions
/// have the same identity; signatures do not change that identity.
pub open spec fn same_transaction(a: Seq<u8>, b: Seq<u8>) -> bool {
    txid_of(a) == txid_of(b)
}

/// The models of an optional PSBT.
pub open spec fn opt_view(p: Option<Psbt>) -> Option<Seq<u8>> {
    match p {
        Some(p) => Some(p@),
        None => None,
    }
}

/// A partially signed transaction, kept as the bytes of its consensus
/// serialization together with the identity of its unsigned transaction.
pub struct Psbt {
    bytes: Vec<u8>,
    txid: Vec<u8>,
}

impl View for Psbt {
    type V = Seq<u8>;

    closed spec fn view(&self) -> Seq<u8> {
        self.bytes@
    }
}

impl Psbt {
    #[verifier::type_invariant]
    spec fn well_formed(&self) -> bool {
        psbt_unsigned_txid(self.bytes@) == Some(self.txid@)
    }

    /// Reads a PSBT from its consensus serialization.
    pub fn from_bytes(bytes: Vec<u8>) -> (r: Option<Psbt>)
        ensures
            r.is_some() == psbt_unsigned_txid(bytes@).is_some(),
            r.is_some() ==> r.unwrap()@ == bytes@,
    {
        match unsigned_txid(bytes.as_slice()) {
            Some(txid) => Some(Psbt { bytes, txid }),
            None => None,
        }
    }

    /// Reads a PSBT from base64 text.
    pub fn from_base64(text: &str) -> (r: Option<Psbt>)
        ensures
            opt_view(r) == psbt_of_text(text@),
    {
        match decode_base64(text) {
            Some(bytes) => Psbt::from_bytes(bytes),
            None => None,
        }
    }

    /// The consensus serialization.
    pub fn bytes(&self) -> (r: &[u8])
        ensures
            r@ == self@,
    {
        self.bytes.as_slice()
    }

    /// The identity of the unsigned transaction.
    pub fn txid(&self) -> (r: &[u8])
        ensures
            psbt_unsigned_txid(self@) == Some(r@),
    {
        proof {
            use_type_invariant(self);
        }
        self.txid.as_slice()
    }

    /// Whether both PSBTs are for the same unsigned transaction.
    pub fn same_transaction(&self, other: &Psbt) -> (r: bool)
        ensures
            r == same_transaction(self@, other@),
    {
        let a = self.txid();
        let b = other.txid();
        bytes_equal(a, b)
    }

    /// A copy of this PSBT.
    pub fn duplicate(&self) -> (r: Psbt)
        ensures
            r@ == self@,
    {
        proof {
            use_type_invariant(self);
        }
        Psbt { bytes: self.bytes.clone(), txid: self.txid.clone() }
    }
}

/// Byte-wise equality of two slices.
pub fn bytes_equal(a: &[u8], b: &[u8]) -> (r: bool)
    ensures
        r == (a@ == b@),
{
    if a.len() != b.len() {
        return false;
    }
    let mut i: usize = 0;
    while i < a.len()
        invariant
            a.len() == b.len(),
            i <= a.len(),
            a@.subrange(0, i as int) == b@.subrange(0, i as int),
        decreases a.len() - i,
    {
        if a[i] != b[i] {
            assert(a@[i as int] != b@[i as int]);
            return false;
        }
        assert(a@.subrange(0, i + 1) == a@.subrange(0, i as int).push(a@[i as int]));
        assert(b@.subrange(0, i + 1) == b@.subrange(0, i as int).push(b@[i as int]));
        i = i + 1;
    }
    assert(a@ == a@.subrange(0, a@.len() as int));
    assert(b@ == b@.subrange(0, b@.len() as int));
    true
}

} // verus!
