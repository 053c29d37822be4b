//! Deterministic identifiers for multisig accounts and for transactions.
//!
//! An identifier is the BLAKE2b-256 digest of a domain tag followed by the
//! SCALE encoding of the inputs, decoded back into the identifier's type from
//! a stream that pads the digest with zeros. Anyone who knows the inputs can
//! recompute it.

use vstd::prelude::*;
use vstd::bytes::{spec_u64_from_le_bytes, spec_u64_to_le_bytes};
use parity_scale_codec::{Decode, Encode};
use sp_core::H256;
use sp_runtime::traits::TrailingZeroInput;

verus! {

/// The domain tag of account identifiers: the bytes of `pba/multisig`.
pub const MULTISIG_TAG: [u8; 12] = [112, 98, 97, 47, 109, 117, 108, 116, 105, 115, 105, 103];

/// The domain tag of transaction identifiers: the bytes of `pba/transaction`.
pub const TRANSACTION_TAG: [u8; 15] = [
    112,
    98,
    97,
    47,
    116,
    114,
    97,
    110,
    115,
    97,
    99,
    116,
    105,
    111,
    110,
];

/// The BLAKE2b digest of `data`, 256 bits long.
pub uninterp spec fn blake2_256_digest(data: Seq<u8>) -> Seq<u8>;

/// `sp_crypto_hashing::blake2_256`: the digest of `data`. The digest depends
/// on the bytes alone; nothing else is claimed of it.
pub assume_specification[ sp_crypto_hashing::blake2_256 ](data: &[u8]) -> (digest: [u8; 32])
    ensures
        digest@ == blake2_256_digest(data@),
;

/// The first `n` bytes of the stream that starts with `bytes` and goes on
/// with zeros without end.
pub open spec fn zero_padded(bytes: Seq<u8>, n: nat) -> Seq<u8> {
    Seq::new(
        n,
        |i: int|
            if i < bytes.len() {
                bytes[i]
            } else {
                0u8
            },
    )
}

/// What is hashed for the account of `nonce`: the tag, then the nonce in
/// eight little-endian bytes.
pub open spec fn account_seed(nonce: u64) -> Seq<u8> {
    MULTISIG_TAG@ + spec_u64_to_le_bytes(nonce)
}

/// What is hashed for a transaction: the tag, the proposer and the height in
/// eight little-endian bytes each, then the call hash.
pub open spec fn transaction_seed(proposer: u64, height: u64, call_hash: Seq<u8>) -> Seq<u8> {
    TRANSACTION_TAG@ + spec_u64_to_le_bytes(proposer) + spec_u64_to_le_bytes(height) + call_hash
}

/// The account identifier that a digest decodes to: its first eight bytes,
/// little-endian.
pub open spec fn account_id_of(digest: Seq<u8>) -> u64 {
    spec_u64_from_le_bytes(zero_padded(digest, 8))
}

/// The array that holds the 32 bytes `bytes`.
pub open spec fn array_of(bytes: Seq<u8>) -> [u8; 32] {
    choose|a: [u8; 32]| a@ == bytes
}

/// An array is the array of its bytes.
pub proof fn lemma_array_of(a: [u8; 32])
    ensures
        array_of(a@) == a,
{
    let b = array_of(a@);
    assert(b@ == a@);
    assert(b =~= a);
}

/// The transaction identifier that a digest decodes to: its first 32 bytes.
pub open spec fn transaction_id_of(digest: Seq<u8>) -> [u8; 32] {
    array_of(zero_padded(digest, 32))
}

/// The hash by which a call is recognised: the digest of its encoding.
pub open spec fn call_hash_of(call: Seq<u8>) -> [u8; 32] {
    array_of(blake2_256_digest(call))
}

/// The account identifier derived from `nonce`.
pub open spec fn spec_account_id(nonce: u64) -> u64 {
    account_id_of(blake2_256_digest(account_seed(nonce)))
}

/// The transaction identifier derived from the proposer, the height of
/// creation and the hash of the call.
pub open spec fn spec_transaction_id(proposer: u64, height: u64, call_hash: [u8; 32]) -> [u8; 32] {
    transaction_id_of(blake2_256_digest(transaction_seed(proposer, height, call_hash@)))
}

/// `Encode::encode` of parity-scale-codec on a pair of a byte array and a
/// `u64`: a tuple encodes its fields in order, a byte array as its bytes with
/// no length before them, a `u64` in little-endian bytes.
#[verifier::external_body]
fn encode_account_seed(tag: &[u8; 12], nonce: u64) -> (out: Vec<u8>)
    ensures
        out@ == tag@ + spec_u64_to_le_bytes(nonce),
{
    (tag, nonce).encode()
}

/// `Encode::encode` of parity-scale-codec on a tuple of a byte array, two
/// `u64` and a byte array: the fields in order, arrays as their bytes, each
/// `u64` in little-endian bytes.
#[verifier::external_body]
fn encode_transaction_seed(
    tag: &[u8; 15],
    proposer: u64,
    height: u64,
    call_hash: &[u8; 32],
) -> (out: Vec<u8>)
    ensures
        out@ == tag@ + spec_u64_to_le_bytes(proposer) + spec_u64_to_le_bytes(height) + call_hash@,
{
    (tag, proposer, height, call_hash).encode()
}

/// `Decode::decode` of parity-scale-codec for `u64`, reading from sp-runtime's
/// `TrailingZeroInput` over `bytes`: the input never runs out, so decoding
/// succeeds, and gives the first eight bytes read as little-endian.
#[verifier::external_body]
fn decode_u64_zero_padded(bytes: &[u8]) -> (id: Option<u64>)
    ensures
        id == Some(spec_u64_from_le_bytes(zero_padded(bytes@, 8))),
{
    u64::decode(&mut TrailingZeroInput::new(bytes)).ok()
}

/// `Decode::decode` of parity-scale-codec for `H256`, reading from
/// sp-runtime's `TrailingZeroInput` over `bytes`: decoding succeeds, and the
/// hash holds the first 32 bytes read.
#[verifier::external_body]
fn decode_hash_zero_padded(bytes: &[u8]) -> (hash: Option<[u8; 32]>)
    ensures
        hash is Some,
        hash->0@ == zero_padded(bytes@, 32),
{
    H256::decode(&mut TrailingZeroInput::new(bytes)).ok().map(|h| h.0)
}

/// Decodes a digest into an account identifier.
pub fn account_id_from_digest(digest: &[u8; 32]) -> (id: u64)
    ensures
        id == account_id_of(digest@),
        id == spec_u64_from_le_bytes(digest@.subrange(0, 8)),
{
    let decoded = decode_u64_zero_padded(digest.as_slice());
    assert(zero_padded(digest@, 8) =~= digest@.subrange(0, 8));
    decoded.unwrap()
}

/// Decodes a digest into a transaction identifier: the digest itself.
pub fn transaction_id_from_digest(digest: &[u8; 32]) -> (id: [u8; 32])
    ensures
        id == transaction_id_of(digest@),
        id == *digest,
{
    let decoded = decode_hash_zero_padded(digest.as_slice());
    let id = decoded.unwrap();
    proof {
        assert(zero_padded(digest@, 32) =~= digest@);
        lemma_array_of(id);
        assert(id =~= *digest);
    }
    id
}

/// Derives the identifier of the multisig account created with `nonce`.
pub fn derive_account_id(nonce: u64) -> (id: u64)
    ensures
        id == spec_account_id(nonce),
{
    let seed = encode_account_seed(&MULTISIG_TAG, nonce);
    let digest = sp_crypto_hashing::blake2_256(seed.as_slice());
    account_id_from_digest(&digest)
}

/// Derives the identifier of the transaction that `proposer` creates at
/// `height` for a call with hash `call_hash`.
pub fn derive_transaction_id(proposer: u64, height: u64, call_hash: &[u8; 32]) -> (id: [u8; 32])
    ensures
        id == spec_transaction_id(proposer, height, *call_hash),
{
    let seed = encode_transaction_seed(&TRANSACTION_TAG, proposer, height, call_hash);
    let digest = sp_crypto_hashing::blake2_256(seed.as_slice());
    transaction_id_from_digest(&digest)
}

/// Computes the hash by which a call is recognised.
pub fn hash_call(call: &Vec<u8>) -> (hash: [u8; 32])
    ensures
        hash == call_hash_of(call@),
        hash@ == blake2_256_digest(call@),
{
    let hash = sp_crypto_hashing::blake2_256(call.as_slice());
    proof {
        lemma_array_of(hash);
    }
    hash
}

} // verus!
