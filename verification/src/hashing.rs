//! The algebraic-hash layer: packing byte strings and integers into BN254
//! scalar-field elements (carried as their canonical 32-byte little-endian
//! encodings) and hashing a short list of such elements with Poseidon.

use vstd::prelude::*;
use vstd::arithmetic::power::pow;

verus! {

/// Bytes are packed into one field element in groups of at most this many, so
/// that the packed integer is always below the field order.
pub const BYTES_PACKED_PER_SCALAR: usize = 31;

/// A field element's canonical encoding is this many bytes, little-endian.
pub const SCALAR_NUM_BYTES: usize = 32;

/// The order of the BN254 scalar field,
/// 0x30644e72e131a029b85045b68181585d2833e84879b9709143e1f593f0000001,
/// written as two 128-bit halves.
pub open spec fn fr_order() -> int {
    0x30644e72e131a029b85045b68181585d * pow(2, 128) + 0x2833e84879b9709143e1f593f0000001
}

/// The integer a byte string denotes when read little-endian.
pub open spec fn bytes_le_int(s: Seq<u8>) -> int
    decreases s.len(),
{
    if s.len() == 0 {
        0
    } else {
        s[0] + 256 * bytes_le_int(s.skip(1))
    }
}

/// The 32-byte little-endian encoding of an integer below 2^256.
pub open spec fn int_to_32_le(v: int) -> Seq<u8> {
    Seq::new(32, |i: int| ((v / pow(256, i as nat)) % 256) as u8)
}

/// A canonical field-element encoding: 32 bytes whose value lies below the
/// field order.
pub open spec fn scalar_ok(s: Seq<u8>) -> bool {
    s.len() == 32 && 0 <= bytes_le_int(s) && bytes_le_int(s) < fr_order()
}

/// The field element that a byte string packs to: its little-endian value
/// reduced modulo the field order, in canonical encoding.
pub open spec fn spec_pack_scalar(b: Seq<u8>) -> Seq<u8> {
    int_to_32_le(bytes_le_int(b) % fr_order())
}

/// What the Poseidon hash returns on a list of canonical field-element
/// encodings. The hash is an external primitive; this names its result, which
/// depends on the inputs alone.
pub uninterp spec fn poseidon_of(inputs: Seq<Seq<u8>>) -> Seq<u8>;

/// Relies on `ark_ff::PrimeField::from_le_bytes_mod_order`, which interprets
/// the bytes as a little-endian integer and reduces it modulo the BN254
/// scalar-field order, and on
/// `ark_serialize::CanonicalSerialize::serialize_uncompressed`, which writes
/// the reduced representative as exactly 32 little-endian bytes.
#[verifier::external_body]
pub(crate) fn pack_scalar_bytes(b: &[u8]) -> (r: Vec<u8>)
    ensures
        r@ == spec_pack_scalar(b@),
        bytes_le_int(r@) == bytes_le_int(b@) % fr_order(),
        scalar_ok(r@),
{
    let fr = <ark_bn254::Fr as ark_ff::PrimeField>::from_le_bytes_mod_order(b);
    let mut out = vec![0u8; 32];
    ark_serialize::CanonicalSerialize::serialize_uncompressed(&fr, &mut out[..])
        .expect("a field element serializes into 32 bytes");
    out
}

/// Relies on `ark_bn254::Fr::from::<u64>`, which embeds the integer into the
/// field (no reduction occurs: 2^64 is below the field order), and on
/// `ark_serialize::CanonicalSerialize::serialize_uncompressed` as above.
#[verifier::external_body]
pub(crate) fn scalar_from_u64(x: u64) -> (r: Vec<u8>)
    ensures
        r@ == int_to_32_le(x as int),
        bytes_le_int(r@) == x as int,
        scalar_ok(r@),
{
    let fr = ark_bn254::Fr::from(x);
    let mut out = vec![0u8; 32];
    ark_serialize::CanonicalSerialize::serialize_uncompressed(&fr, &mut out[..])
        .expect("a field element serializes into 32 bytes");
    out
}

/// Relies on `light_poseidon::Poseidon::<ark_bn254::Fr>::new_circom` and
/// `light_poseidon::PoseidonHasher::hash`: a deterministic Poseidon hash over
/// the BN254 scalar field that accepts between 1 and 12 inputs; and on ark's
/// `CanonicalDeserialize`/`CanonicalSerialize` for the canonical 32-byte
/// little-endian encoding of each element.
#[verifier::external_body]
pub(crate) fn poseidon_hash_scalars(inputs: &Vec<Vec<u8>>) -> (r: Vec<u8>)
    requires
        1 <= inputs.deep_view().len() <= 12,
        forall|i: int| 0 <= i < inputs.deep_view().len()
            ==> scalar_ok(#[trigger] inputs.deep_view()[i]),
    ensures
        r@ == poseidon_of(inputs.deep_view()),
        scalar_ok(r@),
{
    let mut frs: Vec<ark_bn254::Fr> = Vec::with_capacity(inputs.len());
    for inp in inputs {
        let fr = <ark_bn254::Fr as ark_serialize::CanonicalDeserialize>::deserialize_uncompressed(
            &inp[..],
        ).expect("the caller supplies canonical 32-byte field elements");
        frs.push(fr);
    }
    let mut hasher = light_poseidon::Poseidon::<ark_bn254::Fr>::new_circom(frs.len())
        .expect("between 1 and 12 inputs are supported");
    let fr = light_poseidon::PoseidonHasher::hash(&mut hasher, &frs)
        .expect("the input count matches the hasher's arity");
    let mut out = vec![0u8; 32];
    ark_serialize::CanonicalSerialize::serialize_uncompressed(&fr, &mut out[..])
        .expect("a field element serializes into 32 bytes");
    out
}

/// Relies on `TryInto::try_into` from a byte slice to a 32-byte array, which
/// succeeds exactly when the slice has length 32 and keeps the bytes.
#[verifier::external_body]
pub(crate) fn bytes32_from_vec(v: &Vec<u8>) -> (r: [u8; 32])
    requires
        v@.len() == 32,
    ensures
        r@ == v@,
{
    v.as_slice().try_into().expect("the slice has exactly 32 bytes")
}

/// Byte-exact comparison of two byte strings.
pub fn bytes_eq(a: &[u8], b: &[u8]) -> (r: bool)
    ensures
        r == (a@ == b@),
{
    if a.len() != b.len() {
        return false;
    }
    let mut i: usize = 0;
    while i < a.len()
        invariant
            a@.len() == b@.len(),
            i <= a@.len(),
            forall|j: int| 0 <= j < i ==> a@[j] == b@[j],
        decreases a@.len() - i,
    {
        if a[i] != b[i] {
            return false;
        }
        i += 1;
    }
    proof {
        assert(a@ =~= b@);
    }
    true
}

/// A byte string padded with zero bytes up to length `n`.
pub open spec fn spec_pad(b: Seq<u8>, n: int) -> Seq<u8>
    recommends
        b.len() <= n,
{
    b + Seq::new((n - b.len()) as nat, |i: int| 0u8)
}

/// The field elements that a zero-padded byte string packs to, 31 bytes per
/// element.
pub open spec fn spec_chunks31(padded: Seq<u8>) -> Seq<Seq<u8>>
    recommends
        padded.len() % 31 == 0,
{
    Seq::new((padded.len() as int / 31) as nat, |i: int| spec_pack_scalar(padded.subrange(31 * i, 31 * i + 31)))
}

/// The packing of a byte string for hashing: the string is zero-padded to
/// `max`, packed 31 bytes per field element, and its unpadded length is
/// appended as one more element.
pub open spec fn spec_pack_with_len(b: Seq<u8>, max: int) -> Seq<Seq<u8>>
    recommends
        b.len() <= max,
        max % 31 == 0,
{
    spec_chunks31(spec_pad(b, max)).push(int_to_32_le(b.len() as int))
}

/// The hash of a byte string under the pad-pack-append-length scheme.
pub open spec fn spec_pad_hash(b: Seq<u8>, max: int) -> Seq<u8>
    recommends
        b.len() <= max,
        max % 31 == 0,
{
    poseidon_of(spec_pack_with_len(b, max))
}

/// Zero-pads `b` to `max` bytes, packs each 31-byte group into a field
/// element, and appends the unpadded length as a final element.
pub(crate) fn pad_and_pack_scalars_with_len(b: &[u8], max: usize) -> (r: Vec<Vec<u8>>)
    requires
        b@.len() <= max,
        max % 31 == 0,
        max / 31 + 1 <= 12,
    ensures
        r.deep_view() == spec_pack_with_len(b@, max as int),
        1 <= r.deep_view().len() <= 12,
        forall|i: int| 0 <= i < r.deep_view().len() ==> scalar_ok(#[trigger] r.deep_view()[i]),
{
    proof {
        vstd::arithmetic::div_mod::lemma_fundamental_div_mod(max as int, 31);
    }
    let mut padded: Vec<u8> = Vec::new();
    let mut i: usize = 0;
    while i < b.len()
        invariant
            i <= b@.len() <= max,
            padded@ == b@.take(i as int),
        decreases b@.len() - i,
    {
        padded.push(b[i]);
        i += 1;
    }
    assert(padded@ == b@);
    while padded.len() < max
        invariant
            b@.len() <= padded@.len() <= max,
            padded@.take(b@.len() as int) == b@,
            forall|j: int| b@.len() <= j < padded@.len() ==> padded@[j] == 0u8,
        decreases max - padded@.len(),
    {
        padded.push(0u8);
    }
    assert(padded@ =~= spec_pad(b@, max as int));

    let n: usize = max / 31;
    let ghost chunks = spec_chunks31(padded@);
    let mut out: Vec<Vec<u8>> = Vec::new();
    assert(out.deep_view() =~~= chunks.take(0));
    let mut c: usize = 0;
    while c < n
        invariant
            c <= n,
            n == max / 31,
            max % 31 == 0,
            31 * n == max,
            padded@.len() == max,
            chunks == spec_chunks31(padded@),
            out.deep_view() == chunks.take(c as int),
            forall|i: int| 0 <= i < out.deep_view().len()
                ==> scalar_ok(#[trigger] out.deep_view()[i]),
        decreases n - c,
    {
        assert(31 * c + 31 <= max) by {
            assert(c + 1 <= n);
            assert(31 * (c + 1) <= 31 * n) by (nonlinear_arith)
                requires c + 1 <= n;
        }
        let mut chunk: Vec<u8> = Vec::new();
        let mut j: usize = 0;
        while j < 31
            invariant
                j <= 31,
                31 * c + 31 <= max,
                padded@.len() == max,
                chunk@ == padded@.subrange(31 * c, 31 * c + j),
            decreases 31 - j,
        {
            chunk.push(padded[31 * c + j]);
            assert(chunk@ =~= padded@.subrange(31 * c, 31 * c + j + 1));
            j += 1;
        }
        let s = pack_scalar_bytes(chunk.as_slice());
        assert(s@ == chunks[c as int]);
        let ghost pre = out.deep_view();
        out.push(s);
        assert(out.deep_view() =~~= pre.push(s@));
        assert(pre.push(s@) =~~= chunks.take(c as int + 1));
        c += 1;
    }
    assert(chunks.take(n as int) =~= chunks);
    let len_scalar = scalar_from_u64(b.len() as u64);
    let ghost pre = out.deep_view();
    out.push(len_scalar);
    assert(out.deep_view() =~~= pre.push(len_scalar@));
    assert(out.deep_view() =~~= spec_pack_with_len(b@, max as int));
    assert forall|i: int| 0 <= i < out.deep_view().len()
        implies scalar_ok(#[trigger] out.deep_view()[i]) by {
        if i < n as int {
            assert(scalar_ok(pre[i]));
        } else {
            assert(out.deep_view()[i] == len_scalar@);
        }
    }
    out
}

/// Hashes a byte string of at most `max` bytes under the pad-pack-append
/// scheme, returning the canonical encoding of the resulting field element.
pub(crate) fn pad_and_hash_bytes(b: &[u8], max: usize) -> (r: Vec<u8>)
    requires
        b@.len() <= max,
        max % 31 == 0,
        max / 31 + 1 <= 12,
    ensures
        r@ == spec_pad_hash(b@, max as int),
        scalar_ok(r@),
{
    let scalars = pad_and_pack_scalars_with_len(b, max);
    poseidon_hash_scalars(&scalars)
}

} // verus!
