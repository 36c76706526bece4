//! The outside hashing and encoding primitives that the registry relies on.
//!
//! Hashes come from `sp-crypto-hashing`, the SCALE encoding from `parity-scale-codec`.
use vstd::prelude::*;
use parity_scale_codec::{Decode, Encode};

verus! {

/// What Blake2-256 gives for the given bytes.
pub uninterp spec fn blake2_256_of(data: Seq<u8>) -> [u8; 32];

/// What Blake2-128 gives for the given bytes.
pub uninterp spec fn blake2_128_of(data: Seq<u8>) -> [u8; 16];

/// What XX-128 (two seeded 64-bit xxHash digests) gives for the given bytes.
pub uninterp spec fn twox_128_of(data: Seq<u8>) -> [u8; 16];

/// Relies on `sp_crypto_hashing::blake2_256`: a 32-byte digest that depends on `data` alone.
#[verifier::external_body]
pub fn blake2_256(data: &[u8]) -> (r: [u8; 32])
    ensures
        r == blake2_256_of(data@),
{
    sp_crypto_hashing::blake2_256(data)
}

/// Relies on `sp_crypto_hashing::blake2_128`: a 16-byte digest that depends on `data` alone.
#[verifier::external_body]
pub fn blake2_128(data: &[u8]) -> (r: [u8; 16])
    ensures
        r == blake2_128_of(data@),
{
    sp_crypto_hashing::blake2_128(data)
}

/// Relies on `sp_crypto_hashing::twox_128`: a 16-byte digest that depends on `data` alone.
#[verifier::external_body]
pub fn twox_128(data: &[u8]) -> (r: [u8; 16])
    ensures
        r == twox_128_of(data@),
{
    sp_crypto_hashing::twox_128(data)
}

/// The SCALE encoding of a byte string shorter than 64 bytes: one byte holding four times the
/// length, then the bytes.
pub open spec fn scale_short(b: Seq<u8>) -> Seq<u8>
    recommends
        b.len() < 64,
{
    seq![(4 * b.len()) as u8] + b
}

/// The SCALE compact encoding of a length below 16384: one byte holding four times the length
/// below 64, else two little-endian bytes holding four times the length plus one.
pub open spec fn compact_len(n: nat) -> Seq<u8> {
    if n < 64 {
        seq![(4 * n) as u8]
    } else {
        seq![((4 * n + 1) % 256) as u8, ((4 * n + 1) / 256) as u8]
    }
}

/// The SCALE encoding of a byte string shorter than 16384 bytes: its compact length, then the
/// bytes.
pub open spec fn scale_bytes(b: Seq<u8>) -> Seq<u8> {
    compact_len(b.len()) + b
}

/// The byte string that a SCALE length prefix of one byte announces at the start of `input`,
/// when there is one and `input` holds all of it.
pub open spec fn short_payload(input: Seq<u8>) -> Option<Seq<u8>> {
    if input.len() >= 1 && input[0] % 4 == 0 && input.len() >= 1 + input[0] / 4 {
        Some(input.subrange(1, 1 + input[0] / 4))
    } else {
        None
    }
}

/// The byte string that a SCALE compact length prefix (of one or two bytes, in its shortest
/// form) announces at the start of `input`, with the number of bytes that prefix and string
/// take, when `input` holds all of it.
pub open spec fn scale_payload(input: Seq<u8>) -> Option<(Seq<u8>, nat)> {
    if input.len() >= 1 && input[0] % 4 == 0 && input.len() >= 1 + input[0] / 4 {
        Some((input.subrange(1, 1 + input[0] / 4), (1 + input[0] / 4) as nat))
    } else if input.len() >= 2 && input[0] % 4 == 1 && (input[0] + 256 * input[1]) / 4 >= 64
        && input.len() >= 2 + (input[0] + 256 * input[1]) / 4 {
        let n = (input[0] + 256 * input[1]) / 4;
        Some((input.subrange(2, 2 + n), (2 + n) as nat))
    } else {
        None
    }
}

/// The value of little-endian bytes.
pub open spec fn le_value(b: Seq<u8>) -> nat
    decreases b.len(),
{
    if b.len() == 0 {
        0
    } else {
        (b[0] + 256 * le_value(b.drop_first())) as nat
    }
}

/// The SCALE encoding of a checkpoint's contents: the optional parent (a tag byte, then the
/// parent's bytes when there is one), then the project state hash.
pub open spec fn checkpoint_encoding(parent: Option<Seq<u8>>, hash: Seq<u8>) -> Seq<u8> {
    match parent {
        None => seq![0u8] + hash,
        Some(p) => seq![1u8] + p + hash,
    }
}

/// Whether `signature` is a valid Ed25519 signature of `message` by the key `public`.
pub uninterp spec fn ed25519_accepts(signature: Seq<u8>, message: Seq<u8>, public: Seq<u8>) -> bool;

/// Relies on `<sp_core::ed25519::Pair as sp_core::Pair>::verify`: whether the signature is valid
/// for the message and public key, which depends on those bytes alone; malformed keys or
/// signatures give `false`.
#[verifier::external_body]
pub fn ed25519_verify(signature: &[u8; 64], message: &[u8], public: &[u8; 32]) -> (r: bool)
    ensures
        r == ed25519_accepts(signature@, message@, public@),
{
    <sp_core::ed25519::Pair as sp_core::Pair>::verify(
        &sp_core::ed25519::Signature::from_raw(*signature),
        message,
        &sp_core::ed25519::Public::from_raw(*public),
    )
}

#[verifier::external_type_specification]
#[verifier::external_body]
pub struct ExCodecError(parity_scale_codec::Error);

/// Relies on `Encode for [u8]` of parity-scale-codec: a compact length prefix, then the bytes;
/// below 64 bytes the prefix is one byte holding four times the length, below 16384 two
/// little-endian bytes holding four times the length plus one.
/// Lengths above `u32::MAX` make it panic, so they are left out.
#[verifier::external_body]
pub fn encode_bytes(b: &[u8]) -> (r: Vec<u8>)
    requires
        b@.len() <= u32::MAX,
    ensures
        b@.len() < 64 ==> r@ == scale_short(b@),
        b@.len() < 16384 ==> r@ == scale_bytes(b@),
{
    b.encode()
}

/// Relies on `Decode for Vec<u8>` of parity-scale-codec, read from the front of `input`: returns
/// the bytes and how many input bytes were read. Compact prefixes are decoded only in their
/// shortest form, so a result shorter than 64 bytes always came with a one-byte prefix.
#[verifier::external_body]
pub fn decode_bytes(input: &[u8]) -> (r: Result<(Vec<u8>, usize), parity_scale_codec::Error>)
    ensures
        short_payload(input@) is Some ==> (r is Ok && r->Ok_0.0@ == short_payload(input@)->Some_0
            && r->Ok_0.1 == 1 + r->Ok_0.0@.len()),
        r is Ok ==> r->Ok_0.1 <= input@.len(),
        (r is Ok && r->Ok_0.0@.len() < 64) ==> (short_payload(input@) == Some(r->Ok_0.0@)
            && r->Ok_0.1 == 1 + r->Ok_0.0@.len()),
        scale_payload(input@) is Some ==> (r is Ok && scale_payload(input@) == Some((r->Ok_0.0@, r->Ok_0.1 as nat))),
        (r is Ok && r->Ok_0.0@.len() < 16384) ==> scale_payload(input@) == Some((r->Ok_0.0@, r->Ok_0.1 as nat)),
{
    let mut rest: &[u8] = input;
    let v = <Vec<u8>>::decode(&mut rest)?;
    Ok((v, input.len() - rest.len()))
}

/// Relies on `Decode for u128` of parity-scale-codec, read from the front of `input`: the value of
/// the first 16 bytes, least significant first; an error when fewer are there.
#[verifier::external_body]
pub fn decode_u128(input: &[u8]) -> (r: Result<u128, parity_scale_codec::Error>)
    ensures
        input@.len() >= 16 ==> r is Ok && r->Ok_0 as nat == le_value(input@.subrange(0, 16)),
        input@.len() < 16 ==> r is Err,
{
    let mut rest: &[u8] = input;
    u128::decode(&mut rest)
}

/// Relies on `Encode` of parity-scale-codec for `(Option<[u8; 32]>, [u8; 32])`: the tag byte `0`
/// or `1` of the option, the parent's bytes when present, then the hash's bytes.
#[verifier::external_body]
pub fn encode_checkpoint(parent: Option<[u8; 32]>, hash: [u8; 32]) -> (r: Vec<u8>)
    ensures
        r@ == checkpoint_encoding(
            match parent {
                Some(p) => Some(p@),
                None => None,
            },
            hash@,
        ),
{
    (parent, hash).encode()
}

} // verus!
