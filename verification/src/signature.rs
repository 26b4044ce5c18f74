//! Recovery of a transaction's signer from its signature.

use alloy_eips::eip2718::Decodable2718;
use vstd::prelude::*;
use crate::encoding::{compress_point, compressed_point, copy_range, prefixed_hex, to_prefixed_hex};

verus! {

/// A recoverable signature over the curve secp256k1: the two scalars in
/// big-endian bytes and the parity of the point that the signer chose.
#[derive(Clone, Copy, Debug, PartialEq, Eq)]
pub struct TxSignature {
    pub r: [u8; 32],
    pub s: [u8; 32],
    pub y_parity: bool,
}

/// What a signed transaction offers for recovery: its signature and the hash
/// that was signed.
#[derive(Clone, Copy, Debug, PartialEq, Eq)]
pub struct SignedPayload {
    pub signature: TxSignature,
    pub signing_hash: [u8; 32],
}

/// A signed transaction by the kind of its envelope. Each kind defines its own
/// signing hash.
#[derive(Clone, Copy, Debug, PartialEq, Eq)]
pub enum TxEnvelope {
    Legacy(SignedPayload),
    Eip2930(SignedPayload),
    Eip1559(SignedPayload),
    Eip4844(SignedPayload),
    Eip7702(SignedPayload),
}

/// The signer of a transaction: the account address and the compressed public
/// key as hexadecimal text behind `0x`.
#[derive(Clone, Debug, PartialEq, Eq)]
pub struct RecoveredIdentity {
    pub address: [u8; 20],
    pub public_key: String,
}

/// The envelope that `TxEnvelope::decode_2718_exact` of alloy-consensus reads
/// from the typed encoding of a signed transaction, with the signature and the
/// signing hash that the envelope reports; none where the bytes are no
/// transaction of a known kind.
pub uninterp spec fn decoded_envelope(encoded: Seq<u8>) -> Option<TxEnvelope>;

/// What `Signature::recover_from_prehash` of alloy-primitives returns for a
/// signature and a signed hash: the recovered public key as an uncompressed
/// curve point, or the text of the error.
pub uninterp spec fn recovered_point(r: Seq<u8>, s: Seq<u8>, y_parity: bool, prehash: Seq<u8>) -> Result<Seq<u8>, Seq<char>>;

/// What `Address::from_raw_public_key` of alloy-primitives returns for the two
/// coordinates of a public key: the last twenty bytes of their Keccak-256
/// hash.
pub uninterp spec fn raw_key_address(key: Seq<u8>) -> Seq<u8>;

impl TxEnvelope {
    /// The signature and signing hash, whatever the kind.
    pub open spec fn payload(self) -> SignedPayload {
        match self {
            TxEnvelope::Legacy(p) => p,
            TxEnvelope::Eip2930(p) => p,
            TxEnvelope::Eip1559(p) => p,
            TxEnvelope::Eip4844(p) => p,
            TxEnvelope::Eip7702(p) => p,
        }
    }

    /// The signature of the transaction.
    pub fn signature(&self) -> (res: TxSignature)
        ensures
            res == self.payload().signature,
    {
        match self {
            TxEnvelope::Legacy(p) => p.signature,
            TxEnvelope::Eip2930(p) => p.signature,
            TxEnvelope::Eip1559(p) => p.signature,
            TxEnvelope::Eip4844(p) => p.signature,
            TxEnvelope::Eip7702(p) => p.signature,
        }
    }

    /// The hash that the signature was made over.
    pub fn signature_hash(&self) -> (res: [u8; 32])
        ensures
            res == self.payload().signing_hash,
    {
        match self {
            TxEnvelope::Legacy(p) => p.signing_hash,
            TxEnvelope::Eip2930(p) => p.signing_hash,
            TxEnvelope::Eip1559(p) => p.signing_hash,
            TxEnvelope::Eip4844(p) => p.signing_hash,
            TxEnvelope::Eip7702(p) => p.signing_hash,
        }
    }
}

/// The public key that a payload's signature recovers to, or the text of the
/// recovery error.
pub open spec fn payload_point(payload: SignedPayload) -> Result<Seq<u8>, Seq<char>> {
    recovered_point(payload.signature.r@, payload.signature.s@, payload.signature.y_parity, payload.signing_hash@)
}

/// The address that belongs to an uncompressed curve point of 65 bytes.
pub open spec fn point_address(point: Seq<u8>) -> Seq<u8> {
    raw_key_address(point.subrange(1, 65))
}

/// Calls `TxEnvelope::decode_2718_exact` of alloy-consensus on the typed
/// encoding of a signed transaction and copies out, by the envelope's kind, the
/// signature and the signing hash that the envelope reports.
#[verifier::external_body]
fn decode_2718_exact(encoded: &Vec<u8>) -> (res: Option<TxEnvelope>)
    ensures
        res == decoded_envelope(encoded@),
{
    let envelope = alloy_consensus::TxEnvelope::decode_2718_exact(encoded.as_slice()).ok()?;
    let sig = envelope.signature();
    let signature = TxSignature { r: sig.r().to_be_bytes(), s: sig.s().to_be_bytes(), y_parity: sig.v() };
    let payload = SignedPayload { signature, signing_hash: envelope.signature_hash().0 };
    Some(match envelope {
        alloy_consensus::TxEnvelope::Legacy(_) => TxEnvelope::Legacy(payload),
        alloy_consensus::TxEnvelope::Eip2930(_) => TxEnvelope::Eip2930(payload),
        alloy_consensus::TxEnvelope::Eip1559(_) => TxEnvelope::Eip1559(payload),
        alloy_consensus::TxEnvelope::Eip4844(_) => TxEnvelope::Eip4844(payload),
        alloy_consensus::TxEnvelope::Eip7702(_) => TxEnvelope::Eip7702(payload),
    })
}

/// Calls `Signature::recover_from_prehash` of alloy-primitives and writes the
/// recovered key as an uncompressed curve point, which takes 65 bytes: a tag
/// and two coordinates of 32 bytes. An error comes back as its text.
#[verifier::external_body]
fn recover_from_prehash(signature: &TxSignature, prehash: &[u8; 32]) -> (res: Result<Vec<u8>, String>)
    ensures
        match res {
            Ok(point) => point@.len() == 65 && recovered_point(signature.r@, signature.s@, signature.y_parity, prehash@) == Ok::<Seq<u8>, Seq<char>>(point@),
            Err(cause) => recovered_point(signature.r@, signature.s@, signature.y_parity, prehash@) == Err::<Seq<u8>, Seq<char>>(cause@),
        },
{
    let sig = alloy_primitives::Signature::from_scalars_and_parity(
        alloy_primitives::B256::new(signature.r),
        alloy_primitives::B256::new(signature.s),
        signature.y_parity,
    );
    match sig.recover_from_prehash(&alloy_primitives::B256::new(*prehash)) {
        Ok(key) => Ok(key.to_encoded_point(false).as_bytes().to_vec()),
        Err(e) => Err(e.to_string()),
    }
}

/// Calls `Address::from_raw_public_key` of alloy-primitives on the 64 bytes of
/// a public key's two coordinates; it refuses any other length.
#[verifier::external_body]
fn from_raw_public_key(key: &Vec<u8>) -> (res: [u8; 20])
    requires
        key@.len() == 64,
    ensures
        res@ == raw_key_address(key@),
{
    alloy_primitives::Address::from_raw_public_key(key.as_slice()).0.0
}

/// Reads the envelope of a signed transaction from its typed encoding.
pub fn decode_envelope(encoded: &Vec<u8>) -> (res: Option<TxEnvelope>)
    ensures
        res == decoded_envelope(encoded@),
{
    decode_2718_exact(encoded)
}

/// The identity that belongs to a recovered public key, given as an
/// uncompressed curve point: the address of its two coordinates, and its
/// compressed form as hexadecimal text behind `0x`.
pub fn identity_from_point(point: &Vec<u8>) -> (res: RecoveredIdentity)
    requires
        point@.len() == 65,
    ensures
        res.address@ == point_address(point@),
        res.public_key@ == prefixed_hex(compressed_point(point@)),
{
    let coordinates = copy_range(point, 1, 65);
    let address = from_raw_public_key(&coordinates);
    let compressed = compress_point(point);
    RecoveredIdentity { address, public_key: to_prefixed_hex(&compressed) }
}

/// Recovers the signer of a transaction from its signature and signing hash.
/// Fails with the text of the recovery error where the signature recovers to
/// no key.
pub fn recover_identity(envelope: &TxEnvelope) -> (res: Result<RecoveredIdentity, String>)
    ensures
        match payload_point(envelope.payload()) {
            Ok(point) => {
                &&& res.is_ok()
                &&& point.len() == 65
                &&& res.unwrap().address@ == point_address(point)
                &&& res.unwrap().public_key@ == prefixed_hex(compressed_point(point))
            },
            Err(cause) => res.is_err() && res.unwrap_err()@ == cause,
        },
{
    let signature = envelope.signature();
    let prehash = envelope.signature_hash();
    match recover_from_prehash(&signature, &prehash) {
        Ok(point) => Ok(identity_from_point(&point)),
        Err(cause) => Err(cause),
    }
}

} // verus!
