//! The canonical byte encoding of the envelope types: one deterministic
//! little-endian format with four-byte length prefixes, and its decoder, which
//! accepts exactly the canonical encodings.

use vstd::prelude::*;
use vstd::bytes::{
    spec_u32_to_le_bytes, spec_u32_from_le_bytes, spec_u64_to_le_bytes, spec_u64_from_le_bytes,
    u32_to_le_bytes, u32_from_le_bytes, u64_to_le_bytes, u64_from_le_bytes,
    lemma_auto_spec_u32_to_from_le_bytes, lemma_auto_spec_u64_to_from_le_bytes,
};
use vstd::slice::{slice_subrange, slice_to_vec};
use vstd::utf8::{encode_utf8, decode_utf8, valid_utf8, encode_utf8_valid_utf8, encode_utf8_decode_utf8};
use crate::errors::ZkIdError;
use crate::b64::string_from_utf8;
use crate::hashing::bytes32_from_vec;
use crate::zkid::{
    IdCommitment, Pepper, ZkIdPublicKey, ZkIdPublicKeyView, OpenIdSig, OpenIdSigView, Groth16Zkp,
    Groth16ZkpView, ZkpOrOpenIdSig, ZkpOrOpenIdSigView, ZkIdSignature, ZkIdSignatureView,
    EphemeralPublicKey, EphemeralSignature, EPK_BLINDER_NUM_BYTES, PEPPER_NUM_BYTES,
    IDC_NUM_BYTES,
};

verus! {

// ---------------------------------------------------------------- encoders
/// A four-byte little-endian length prefix.
pub open spec fn enc_u32(n: int) -> Seq<u8> {
    spec_u32_to_le_bytes(n as u32)
}


/// The length prefix is four bytes long.
pub proof fn lemma_enc_u32_len(n: int)
    ensures
        enc_u32(n).len() == 4,
{
    lemma_auto_spec_u32_to_from_le_bytes();
}

/// A length-prefixed byte string.
pub open spec fn enc_bytes(b: Seq<u8>) -> Seq<u8>
    recommends
        b.len() <= u32::MAX,
{
    enc_u32(b.len() as int) + b
}

/// A length-prefixed UTF-8 string.
pub open spec fn enc_chars(s: Seq<char>) -> Seq<u8> {
    enc_bytes(encode_utf8(s))
}

/// The strings of a list, one after the other.
pub open spec fn enc_chars_seq(l: Seq<Seq<char>>) -> Seq<u8>
    decreases l.len(),
{
    if l.len() == 0 {
        Seq::empty()
    } else {
        enc_chars(l[0]) + enc_chars_seq(l.drop_first())
    }
}

/// A count-prefixed list of strings.
pub open spec fn enc_str_list(l: Seq<Seq<char>>) -> Seq<u8> {
    enc_u32(l.len() as int) + enc_chars_seq(l)
}

/// The string lists of a list, one after the other.
pub open spec fn enc_str_list_seq(l: Seq<Seq<Seq<char>>>) -> Seq<u8>
    decreases l.len(),
{
    if l.len() == 0 {
        Seq::empty()
    } else {
        enc_str_list(l[0]) + enc_str_list_seq(l.drop_first())
    }
}

/// A count-prefixed list of string lists.
pub open spec fn enc_g2(l: Seq<Seq<Seq<char>>>) -> Seq<u8> {
    enc_u32(l.len() as int) + enc_str_list_seq(l)
}

pub open spec fn enc_zk_public_key(v: ZkIdPublicKeyView) -> Seq<u8> {
    enc_chars(v.iss) + v.idc
}

pub open spec fn enc_open_id_sig(v: OpenIdSigView) -> Seq<u8> {
    enc_chars(v.jwt_sig) + enc_chars(v.jwt_payload) + enc_chars(v.uid_key) + v.epk_blinder
        + v.pepper
}

pub open spec fn enc_groth16(v: Groth16ZkpView) -> Seq<u8> {
    enc_str_list(v.a) + enc_g2(v.b) + enc_str_list(v.c)
}

/// The payload with its one-byte variant tag in front.
pub open spec fn enc_sig_payload(v: ZkpOrOpenIdSigView) -> Seq<u8> {
    match v {
        ZkpOrOpenIdSigView::Groth16Zkp(p) => seq![0u8] + enc_groth16(p),
        ZkpOrOpenIdSigView::OpenIdSig(o) => seq![1u8] + enc_open_id_sig(o),
    }
}

pub open spec fn enc_zkid_signature(v: ZkIdSignatureView) -> Seq<u8> {
    enc_sig_payload(v.sig) + enc_chars(v.jwt_header) + spec_u64_to_le_bytes(v.exp_timestamp_secs)
        + enc_bytes(v.ephemeral_pubkey) + enc_bytes(v.ephemeral_signature)
}

// ------------------------------------------------------------ encodability
pub open spec fn chars_encodable(s: Seq<char>) -> bool {
    encode_utf8(s).len() <= u32::MAX
}

pub open spec fn chars_seq_encodable(l: Seq<Seq<char>>) -> bool {
    l.len() <= u32::MAX && forall|k: int| 0 <= k < l.len() ==> chars_encodable(#[trigger] l[k])
}

pub open spec fn g2_encodable(l: Seq<Seq<Seq<char>>>) -> bool {
    l.len() <= u32::MAX && forall|k: int| 0 <= k < l.len() ==> chars_seq_encodable(
        #[trigger] l[k],
    )
}

pub open spec fn zk_public_key_encodable(v: ZkIdPublicKeyView) -> bool {
    chars_encodable(v.iss) && v.idc.len() == IDC_NUM_BYTES
}

pub open spec fn open_id_sig_encodable(v: OpenIdSigView) -> bool {
    &&& chars_encodable(v.jwt_sig)
    &&& chars_encodable(v.jwt_payload)
    &&& chars_encodable(v.uid_key)
    &&& v.epk_blinder.len() == EPK_BLINDER_NUM_BYTES
    &&& v.pepper.len() == PEPPER_NUM_BYTES
}

pub open spec fn groth16_encodable(v: Groth16ZkpView) -> bool {
    chars_seq_encodable(v.a) && g2_encodable(v.b) && chars_seq_encodable(v.c)
}

pub open spec fn sig_payload_encodable(v: ZkpOrOpenIdSigView) -> bool {
    match v {
        ZkpOrOpenIdSigView::Groth16Zkp(p) => groth16_encodable(p),
        ZkpOrOpenIdSigView::OpenIdSig(o) => open_id_sig_encodable(o),
    }
}

pub open spec fn zkid_signature_encodable(v: ZkIdSignatureView) -> bool {
    &&& sig_payload_encodable(v.sig)
    &&& chars_encodable(v.jwt_header)
    &&& v.ephemeral_pubkey.len() <= u32::MAX
    &&& v.ephemeral_signature.len() <= u32::MAX
}

// ---------------------------------------------------------------- decoders
pub open spec fn dec_u32(s: Seq<u8>, i: int) -> Option<(u32, int)> {
    if 0 <= i && i + 4 <= s.len() {
        Some((spec_u32_from_le_bytes(s.subrange(i, i + 4)), i + 4))
    } else {
        None
    }
}

pub open spec fn dec_u64(s: Seq<u8>, i: int) -> Option<(u64, int)> {
    if 0 <= i && i + 8 <= s.len() {
        Some((spec_u64_from_le_bytes(s.subrange(i, i + 8)), i + 8))
    } else {
        None
    }
}

pub open spec fn dec_bytes(s: Seq<u8>, i: int) -> Option<(Seq<u8>, int)> {
    match dec_u32(s, i) {
        Some((n, j)) => if j + n <= s.len() {
            Some((s.subrange(j, j + n), j + n))
        } else {
            None
        },
        None => None,
    }
}

pub open spec fn dec_chars(s: Seq<u8>, i: int) -> Option<(Seq<char>, int)> {
    match dec_bytes(s, i) {
        Some((b, j)) => if valid_utf8(b) {
            Some((decode_utf8(b), j))
        } else {
            None
        },
        None => None,
    }
}

pub open spec fn dec_arr32(s: Seq<u8>, i: int) -> Option<(Seq<u8>, int)> {
    if 0 <= i && i + 32 <= s.len() {
        Some((s.subrange(i, i + 32), i + 32))
    } else {
        None
    }
}

pub open spec fn dec_chars_seq(s: Seq<u8>, i: int, n: int) -> Option<(Seq<Seq<char>>, int)>
    decreases n,
{
    if n <= 0 {
        Some((Seq::empty(), i))
    } else {
        match dec_chars(s, i) {
            Some((c, j)) => match dec_chars_seq(s, j, n - 1) {
                Some((l, k)) => Some((seq![c] + l, k)),
                None => None,
            },
            None => None,
        }
    }
}

pub open spec fn dec_str_list(s: Seq<u8>, i: int) -> Option<(Seq<Seq<char>>, int)> {
    match dec_u32(s, i) {
        Some((n, j)) => dec_chars_seq(s, j, n as int),
        None => None,
    }
}

pub open spec fn dec_str_list_seq(s: Seq<u8>, i: int, n: int) -> Option<
    (Seq<Seq<Seq<char>>>, int),
>
    decreases n,
{
    if n <= 0 {
        Some((Seq::empty(), i))
    } else {
        match dec_str_list(s, i) {
            Some((c, j)) => match dec_str_list_seq(s, j, n - 1) {
                Some((l, k)) => Some((seq![c] + l, k)),
                None => None,
            },
            None => None,
        }
    }
}

pub open spec fn dec_g2(s: Seq<u8>, i: int) -> Option<(Seq<Seq<Seq<char>>>, int)> {
    match dec_u32(s, i) {
        Some((n, j)) => dec_str_list_seq(s, j, n as int),
        None => None,
    }
}

pub open spec fn dec_zk_public_key(s: Seq<u8>, i: int) -> Option<(ZkIdPublicKeyView, int)> {
    match dec_chars(s, i) {
        Some((iss, j)) => match dec_arr32(s, j) {
            Some((idc, k)) => Some((ZkIdPublicKeyView { iss, idc }, k)),
            None => None,
        },
        None => None,
    }
}

pub open spec fn dec_open_id_sig(s: Seq<u8>, i: int) -> Option<(OpenIdSigView, int)> {
    match dec_chars(s, i) {
        Some((jwt_sig, i1)) => match dec_chars(s, i1) {
            Some((jwt_payload, i2)) => match dec_chars(s, i2) {
                Some((uid_key, i3)) => match dec_arr32(s, i3) {
                    Some((epk_blinder, i4)) => match dec_arr32(s, i4) {
                        Some((pepper, i5)) => Some(
                            (OpenIdSigView { jwt_sig, jwt_payload, uid_key, epk_blinder, pepper }, i5),
                        ),
                        None => None,
                    },
                    None => None,
                },
                None => None,
            },
            None => None,
        },
        None => None,
    }
}

pub open spec fn dec_groth16(s: Seq<u8>, i: int) -> Option<(Groth16ZkpView, int)> {
    match dec_str_list(s, i) {
        Some((a, i1)) => match dec_g2(s, i1) {
            Some((b, i2)) => match dec_str_list(s, i2) {
                Some((c, i3)) => Some((Groth16ZkpView { a, b, c }, i3)),
                None => None,
            },
            None => None,
        },
        None => None,
    }
}

pub open spec fn dec_sig_payload(s: Seq<u8>, i: int) -> Option<(ZkpOrOpenIdSigView, int)> {
    if 0 <= i && i < s.len() {
        if s[i] == 0u8 {
            match dec_groth16(s, i + 1) {
                Some((p, j)) => Some((ZkpOrOpenIdSigView::Groth16Zkp(p), j)),
                None => None,
            }
        } else if s[i] == 1u8 {
            match dec_open_id_sig(s, i + 1) {
                Some((o, j)) => Some((ZkpOrOpenIdSigView::OpenIdSig(o), j)),
                None => None,
            }
        } else {
            None
        }
    } else {
        None
    }
}

pub open spec fn dec_zkid_signature(s: Seq<u8>, i: int) -> Option<(ZkIdSignatureView, int)> {
    match dec_sig_payload(s, i) {
        Some((sig, i1)) => match dec_chars(s, i1) {
            Some((jwt_header, i2)) => match dec_u64(s, i2) {
                Some((exp_timestamp_secs, i3)) => match dec_bytes(s, i3) {
                    Some((ephemeral_pubkey, i4)) => match dec_bytes(s, i4) {
                        Some((ephemeral_signature, i5)) => Some(
                            (
                                ZkIdSignatureView {
                                    sig,
                                    jwt_header,
                                    exp_timestamp_secs,
                                    ephemeral_pubkey,
                                    ephemeral_signature,
                                },
                                i5,
                            ),
                        ),
                        None => None,
                    },
                    None => None,
                },
                None => None,
            },
            None => None,
        },
        None => None,
    }
}

// --------------------------------------------------- round-trip lemmas
/// Decoding a length-prefixed byte string from where it was written yields it
/// back.
pub proof fn lemma_dec_bytes_round(pre: Seq<u8>, b: Seq<u8>, rest: Seq<u8>)
    requires
        b.len() <= u32::MAX,
    ensures
        dec_bytes(pre + enc_bytes(b) + rest, pre.len() as int) == Some(
            (b, (pre.len() + 4 + b.len()) as int),
        ),
{
    let s = pre + enc_bytes(b) + rest;
    let i = pre.len() as int;
    lemma_auto_spec_u32_to_from_le_bytes();
    assert(s.subrange(i, i + 4) =~= spec_u32_to_le_bytes(b.len() as u32));
    assert(s.subrange(i + 4, i + 4 + b.len()) =~= b);
}

/// Decoding a length-prefixed string from where it was written yields it back.
pub proof fn lemma_dec_chars_round(pre: Seq<u8>, c: Seq<char>, rest: Seq<u8>)
    requires
        chars_encodable(c),
    ensures
        dec_chars(pre + enc_chars(c) + rest, pre.len() as int) == Some(
            (c, (pre.len() + 4 + encode_utf8(c).len()) as int),
        ),
{
    broadcast use encode_utf8_valid_utf8, encode_utf8_decode_utf8;

    lemma_dec_bytes_round(pre, encode_utf8(c), rest);
}

pub proof fn lemma_dec_u32_round(pre: Seq<u8>, n: u32, rest: Seq<u8>)
    ensures
        dec_u32(pre + spec_u32_to_le_bytes(n) + rest, pre.len() as int) == Some(
            (n, (pre.len() + 4) as int),
        ),
{
    let s = pre + spec_u32_to_le_bytes(n) + rest;
    let i = pre.len() as int;
    lemma_auto_spec_u32_to_from_le_bytes();
    assert(s.subrange(i, i + 4) =~= spec_u32_to_le_bytes(n));
}

pub proof fn lemma_dec_u64_round(pre: Seq<u8>, n: u64, rest: Seq<u8>)
    ensures
        dec_u64(pre + spec_u64_to_le_bytes(n) + rest, pre.len() as int) == Some(
            (n, (pre.len() + 8) as int),
        ),
{
    let s = pre + spec_u64_to_le_bytes(n) + rest;
    let i = pre.len() as int;
    lemma_auto_spec_u64_to_from_le_bytes();
    assert(s.subrange(i, i + 8) =~= spec_u64_to_le_bytes(n));
}

pub proof fn lemma_dec_arr32_round(pre: Seq<u8>, b: Seq<u8>, rest: Seq<u8>)
    requires
        b.len() == 32,
    ensures
        dec_arr32(pre + b + rest, pre.len() as int) == Some((b, (pre.len() + 32) as int)),
{
    let s = pre + b + rest;
    let i = pre.len() as int;
    assert(s.subrange(i, i + 32) =~= b);
}

/// Decoding a written string list, item by item, yields it back.
pub proof fn lemma_dec_chars_seq_round(pre: Seq<u8>, l: Seq<Seq<char>>, rest: Seq<u8>)
    requires
        forall|k: int| 0 <= k < l.len() ==> chars_encodable(#[trigger] l[k]),
    ensures
        dec_chars_seq(pre + enc_chars_seq(l) + rest, pre.len() as int, l.len() as int) == Some(
            (l, (pre.len() + enc_chars_seq(l).len()) as int),
        ),
    decreases l.len(),
{
    if l.len() == 0 {
        assert(pre + enc_chars_seq(l) + rest =~= pre + rest);
        assert(l =~= Seq::<Seq<char>>::empty());
    } else {
        let c = l[0];
        let tail = l.drop_first();
        let pre2 = pre + enc_chars(c);
        lemma_enc_u32_len(encode_utf8(c).len() as int);
        assert(pre + enc_chars_seq(l) + rest =~= pre + enc_chars(c) + (enc_chars_seq(tail)
            + rest));
        lemma_dec_chars_round(pre, c, enc_chars_seq(tail) + rest);
        assert(pre + enc_chars(c) + (enc_chars_seq(tail) + rest) =~= pre2 + enc_chars_seq(tail)
            + rest);
        lemma_dec_chars_seq_round(pre2, tail, rest);
        assert(seq![c] + tail =~= l);
    }
}

pub proof fn lemma_dec_str_list_round(pre: Seq<u8>, l: Seq<Seq<char>>, rest: Seq<u8>)
    requires
        chars_seq_encodable(l),
    ensures
        dec_str_list(pre + enc_str_list(l) + rest, pre.len() as int) == Some(
            (l, (pre.len() + enc_str_list(l).len()) as int),
        ),
{
    let pre2 = pre + enc_u32(l.len() as int);
    lemma_enc_u32_len(l.len() as int);
    assert(pre + enc_str_list(l) + rest =~= pre + enc_u32(l.len() as int) + (enc_chars_seq(l)
        + rest));
    lemma_dec_u32_round(pre, l.len() as u32, enc_chars_seq(l) + rest);
    assert(pre + enc_u32(l.len() as int) + (enc_chars_seq(l) + rest) =~= pre2 + enc_chars_seq(l)
        + rest);
    lemma_dec_chars_seq_round(pre2, l, rest);
}

pub proof fn lemma_dec_str_list_seq_round(pre: Seq<u8>, l: Seq<Seq<Seq<char>>>, rest: Seq<u8>)
    requires
        forall|k: int| 0 <= k < l.len() ==> chars_seq_encodable(#[trigger] l[k]),
    ensures
        dec_str_list_seq(pre + enc_str_list_seq(l) + rest, pre.len() as int, l.len() as int)
            == Some((l, (pre.len() + enc_str_list_seq(l).len()) as int)),
    decreases l.len(),
{
    if l.len() == 0 {
        assert(pre + enc_str_list_seq(l) + rest =~= pre + rest);
        assert(l =~= Seq::<Seq<Seq<char>>>::empty());
    } else {
        let c = l[0];
        let tail = l.drop_first();
        let pre2 = pre + enc_str_list(c);
        lemma_enc_u32_len(c.len() as int);
        assert(pre + enc_str_list_seq(l) + rest =~= pre + enc_str_list(c) + (enc_str_list_seq(
            tail,
        ) + rest));
        lemma_dec_str_list_round(pre, c, enc_str_list_seq(tail) + rest);
        assert(pre + enc_str_list(c) + (enc_str_list_seq(tail) + rest) =~= pre2
            + enc_str_list_seq(tail) + rest);
        lemma_dec_str_list_seq_round(pre2, tail, rest);
        assert(seq![c] + tail =~= l);
    }
}

pub proof fn lemma_dec_g2_round(pre: Seq<u8>, l: Seq<Seq<Seq<char>>>, rest: Seq<u8>)
    requires
        g2_encodable(l),
    ensures
        dec_g2(pre + enc_g2(l) + rest, pre.len() as int) == Some((l, (pre.len() + enc_g2(l).len()) as int)),
{
    let pre2 = pre + enc_u32(l.len() as int);
    lemma_enc_u32_len(l.len() as int);
    assert(pre + enc_g2(l) + rest =~= pre + enc_u32(l.len() as int) + (enc_str_list_seq(l)
        + rest));
    lemma_dec_u32_round(pre, l.len() as u32, enc_str_list_seq(l) + rest);
    assert(pre + enc_u32(l.len() as int) + (enc_str_list_seq(l) + rest) =~= pre2
        + enc_str_list_seq(l) + rest);
    lemma_dec_str_list_seq_round(pre2, l, rest);
}

/// Decoding a written public key yields it back.
pub proof fn lemma_dec_zk_public_key_round(pre: Seq<u8>, v: ZkIdPublicKeyView, rest: Seq<u8>)
    requires
        zk_public_key_encodable(v),
    ensures
        dec_zk_public_key(pre + enc_zk_public_key(v) + rest, pre.len() as int) == Some(
            (v, (pre.len() + enc_zk_public_key(v).len()) as int),
        ),
{
    let pre2 = pre + enc_chars(v.iss);
    lemma_enc_u32_len(encode_utf8(v.iss).len() as int);
    assert(pre + enc_zk_public_key(v) + rest =~= pre + enc_chars(v.iss) + (v.idc + rest));
    lemma_dec_chars_round(pre, v.iss, v.idc + rest);
    assert(pre + enc_chars(v.iss) + (v.idc + rest) =~= pre2 + v.idc + rest);
    lemma_dec_arr32_round(pre2, v.idc, rest);
}

/// Decoding a written open signature yields it back.
#[verifier::rlimit(100)]
pub proof fn lemma_dec_open_id_sig_round(pre: Seq<u8>, v: OpenIdSigView, rest: Seq<u8>)
    requires
        open_id_sig_encodable(v),
    ensures
        dec_open_id_sig(pre + enc_open_id_sig(v) + rest, pre.len() as int) == Some(
            (v, (pre.len() + enc_open_id_sig(v).len()) as int),
        ),
{
    let p1 = pre + enc_chars(v.jwt_sig);
    let p2 = p1 + enc_chars(v.jwt_payload);
    let p3 = p2 + enc_chars(v.uid_key);
    let p4 = p3 + v.epk_blinder;
    let s = pre + enc_open_id_sig(v) + rest;
    lemma_enc_u32_len(encode_utf8(v.jwt_sig).len() as int);
    lemma_enc_u32_len(encode_utf8(v.jwt_payload).len() as int);
    lemma_enc_u32_len(encode_utf8(v.uid_key).len() as int);
    assert(s =~= pre + enc_chars(v.jwt_sig) + (enc_chars(v.jwt_payload) + enc_chars(v.uid_key)
        + v.epk_blinder + v.pepper + rest));
    lemma_dec_chars_round(
        pre,
        v.jwt_sig,
        enc_chars(v.jwt_payload) + enc_chars(v.uid_key) + v.epk_blinder + v.pepper + rest,
    );
    assert(s =~= p1 + enc_chars(v.jwt_payload) + (enc_chars(v.uid_key) + v.epk_blinder + v.pepper
        + rest));
    lemma_dec_chars_round(
        p1,
        v.jwt_payload,
        enc_chars(v.uid_key) + v.epk_blinder + v.pepper + rest,
    );
    assert(s =~= p2 + enc_chars(v.uid_key) + (v.epk_blinder + v.pepper + rest));
    lemma_dec_chars_round(p2, v.uid_key, v.epk_blinder + v.pepper + rest);
    assert(s =~= p3 + v.epk_blinder + (v.pepper + rest));
    lemma_dec_arr32_round(p3, v.epk_blinder, v.pepper + rest);
    assert(s =~= p4 + v.pepper + rest);
    lemma_dec_arr32_round(p4, v.pepper, rest);
}

/// Decoding a written proof yields it back.
pub proof fn lemma_dec_groth16_round(pre: Seq<u8>, v: Groth16ZkpView, rest: Seq<u8>)
    requires
        groth16_encodable(v),
    ensures
        dec_groth16(pre + enc_groth16(v) + rest, pre.len() as int) == Some(
            (v, (pre.len() + enc_groth16(v).len()) as int),
        ),
{
    let p1 = pre + enc_str_list(v.a);
    let p2 = p1 + enc_g2(v.b);
    let s = pre + enc_groth16(v) + rest;
    assert(s =~= pre + enc_str_list(v.a) + (enc_g2(v.b) + enc_str_list(v.c) + rest));
    lemma_dec_str_list_round(pre, v.a, enc_g2(v.b) + enc_str_list(v.c) + rest);
    assert(s =~= p1 + enc_g2(v.b) + (enc_str_list(v.c) + rest));
    lemma_dec_g2_round(p1, v.b, enc_str_list(v.c) + rest);
    assert(s =~= p2 + enc_str_list(v.c) + rest);
    lemma_dec_str_list_round(p2, v.c, rest);
}

/// Decoding a written tagged payload yields it back.
pub proof fn lemma_dec_sig_payload_round(pre: Seq<u8>, v: ZkpOrOpenIdSigView, rest: Seq<u8>)
    requires
        sig_payload_encodable(v),
    ensures
        dec_sig_payload(pre + enc_sig_payload(v) + rest, pre.len() as int) == Some(
            (v, (pre.len() + enc_sig_payload(v).len()) as int),
        ),
{
    let s = pre + enc_sig_payload(v) + rest;
    let i = pre.len() as int;
    let p1 = pre + seq![if v is Groth16Zkp { 0u8 } else { 1u8 }];
    match v {
        ZkpOrOpenIdSigView::Groth16Zkp(p) => {
            assert(s[i] == 0u8);
            assert(s =~= p1 + enc_groth16(p) + rest);
            lemma_dec_groth16_round(p1, p, rest);
        },
        ZkpOrOpenIdSigView::OpenIdSig(o) => {
            assert(s[i] == 1u8);
            assert(s =~= p1 + enc_open_id_sig(o) + rest);
            lemma_dec_open_id_sig_round(p1, o, rest);
        },
    }
}

/// Decoding a written signature yields it back.
#[verifier::rlimit(100)]
pub proof fn lemma_dec_zkid_signature_round(pre: Seq<u8>, v: ZkIdSignatureView, rest: Seq<u8>)
    requires
        zkid_signature_encodable(v),
    ensures
        dec_zkid_signature(pre + enc_zkid_signature(v) + rest, pre.len() as int) == Some(
            (v, (pre.len() + enc_zkid_signature(v).len()) as int),
        ),
{
    let p1 = pre + enc_sig_payload(v.sig);
    let p2 = p1 + enc_chars(v.jwt_header);
    let p3 = p2 + spec_u64_to_le_bytes(v.exp_timestamp_secs);
    let p4 = p3 + enc_bytes(v.ephemeral_pubkey);
    let s = pre + enc_zkid_signature(v) + rest;
    lemma_enc_u32_len(encode_utf8(v.jwt_header).len() as int);
    lemma_enc_u32_len(v.ephemeral_pubkey.len() as int);
    lemma_enc_u32_len(v.ephemeral_signature.len() as int);
    vstd::bytes::lemma_auto_spec_u64_to_from_le_bytes();
    assert(s =~= pre + enc_sig_payload(v.sig) + (enc_chars(v.jwt_header) + spec_u64_to_le_bytes(
        v.exp_timestamp_secs,
    ) + enc_bytes(v.ephemeral_pubkey) + enc_bytes(v.ephemeral_signature) + rest));
    lemma_dec_sig_payload_round(
        pre,
        v.sig,
        enc_chars(v.jwt_header) + spec_u64_to_le_bytes(v.exp_timestamp_secs) + enc_bytes(
            v.ephemeral_pubkey,
        ) + enc_bytes(v.ephemeral_signature) + rest,
    );
    assert(s =~= p1 + enc_chars(v.jwt_header) + (spec_u64_to_le_bytes(v.exp_timestamp_secs)
        + enc_bytes(v.ephemeral_pubkey) + enc_bytes(v.ephemeral_signature) + rest));
    lemma_dec_chars_round(
        p1,
        v.jwt_header,
        spec_u64_to_le_bytes(v.exp_timestamp_secs) + enc_bytes(v.ephemeral_pubkey) + enc_bytes(
            v.ephemeral_signature,
        ) + rest,
    );
    assert(s =~= p2 + spec_u64_to_le_bytes(v.exp_timestamp_secs) + (enc_bytes(v.ephemeral_pubkey)
        + enc_bytes(v.ephemeral_signature) + rest));
    lemma_dec_u64_round(
        p2,
        v.exp_timestamp_secs,
        enc_bytes(v.ephemeral_pubkey) + enc_bytes(v.ephemeral_signature) + rest,
    );
    assert(s =~= p3 + enc_bytes(v.ephemeral_pubkey) + (enc_bytes(v.ephemeral_signature) + rest));
    lemma_dec_bytes_round(p3, v.ephemeral_pubkey, enc_bytes(v.ephemeral_signature) + rest);
    assert(s =~= p4 + enc_bytes(v.ephemeral_signature) + rest);
    lemma_dec_bytes_round(p4, v.ephemeral_signature, rest);
}

/// Canonical round trip for a public key: decoding what was encoded yields
/// the same value, with every byte consumed.
pub proof fn lemma_zk_public_key_round_trip(v: ZkIdPublicKeyView)
    requires
        zk_public_key_encodable(v),
    ensures
        dec_zk_public_key(enc_zk_public_key(v), 0) == Some(
            (v, enc_zk_public_key(v).len() as int),
        ),
{
    let e = enc_zk_public_key(v);
    assert(Seq::<u8>::empty() + e + Seq::<u8>::empty() =~= e);
    lemma_dec_zk_public_key_round(Seq::empty(), v, Seq::empty());
}

/// Canonical round trip for a signature: decoding what was encoded yields the
/// same value, with every byte consumed.
pub proof fn lemma_zkid_signature_round_trip(v: ZkIdSignatureView)
    requires
        zkid_signature_encodable(v),
    ensures
        dec_zkid_signature(enc_zkid_signature(v), 0) == Some(
            (v, enc_zkid_signature(v).len() as int),
        ),
{
    let e = enc_zkid_signature(v);
    assert(Seq::<u8>::empty() + e + Seq::<u8>::empty() =~= e);
    lemma_dec_zkid_signature_round(Seq::empty(), v, Seq::empty());
}

/// Canonical round trip for a commitment: its encoding is its 32 bytes, and
/// decoding accepts exactly 32 bytes.
pub proof fn lemma_id_commitment_round_trip(b: Seq<u8>)
    requires
        b.len() == 32,
    ensures
        dec_arr32(b, 0) == Some((b, 32int)),
{
    assert(b.subrange(0, 32) =~= b);
}

// ------------------------------------------------------------- exec encode
fn append_bytes(out: &mut Vec<u8>, b: &[u8])
    ensures
        final(out)@ == old(out)@ + b@,
{
    let mut i: usize = 0;
    while i < b.len()
        invariant
            i <= b@.len(),
            out@ == old(out)@ + b@.take(i as int),
        decreases b@.len() - i,
    {
        out.push(b[i]);
        assert(out@ =~= old(out)@ + b@.take(i as int + 1));
        i += 1;
    }
    proof {
        assert(old(out)@ + b@.take(b@.len() as int) =~= old(out)@ + b@);
    }
}

fn append_u32(out: &mut Vec<u8>, n: u32)
    ensures
        final(out)@ == old(out)@ + enc_u32(n as int),
{
    let le = u32_to_le_bytes(n);
    append_bytes(out, le.as_slice());
}

fn append_u64(out: &mut Vec<u8>, x: u64)
    ensures
        final(out)@ == old(out)@ + spec_u64_to_le_bytes(x),
{
    let le = u64_to_le_bytes(x);
    append_bytes(out, le.as_slice());
}

fn append_len_bytes(out: &mut Vec<u8>, b: &[u8])
    requires
        b@.len() <= u32::MAX,
    ensures
        final(out)@ == old(out)@ + enc_bytes(b@),
{
    append_u32(out, b.len() as u32);
    append_bytes(out, b);
    proof {
        assert(out@ =~= old(out)@ + enc_bytes(b@));
    }
}

fn append_chars(out: &mut Vec<u8>, s: &str)
    requires
        chars_encodable(s@),
    ensures
        final(out)@ == old(out)@ + enc_chars(s@),
{
    append_len_bytes(out, s.as_bytes());
}

/// Appends the encodings of the strings from index `k` on.
fn append_chars_seq(out: &mut Vec<u8>, l: &Vec<String>, k: usize)
    requires
        k <= l@.len(),
        chars_seq_encodable(l.deep_view()),
    ensures
        final(out)@ == old(out)@ + enc_chars_seq(l.deep_view().skip(k as int)),
    decreases l@.len() - k,
{
    if k == l.len() {
        proof {
            assert(l.deep_view().skip(k as int) =~= Seq::<Seq<char>>::empty());
            assert(old(out)@ + enc_chars_seq(l.deep_view().skip(k as int)) =~= old(out)@);
        }
    } else {
        assert(l.deep_view()[k as int] == l@[k as int]@);
        append_chars(out, l[k].as_str());
        append_chars_seq(out, l, k + 1);
        proof {
            let dv = l.deep_view();
            assert(dv.skip(k as int)[0] == dv[k as int]);
            assert(dv.skip(k as int).drop_first() =~= dv.skip(k as int + 1));
            assert(out@ =~= old(out)@ + enc_chars_seq(dv.skip(k as int)));
        }
    }
}

fn append_str_list(out: &mut Vec<u8>, l: &Vec<String>)
    requires
        chars_seq_encodable(l.deep_view()),
    ensures
        final(out)@ == old(out)@ + enc_str_list(l.deep_view()),
{
    append_u32(out, l.len() as u32);
    append_chars_seq(out, l, 0);
    proof {
        assert(l.deep_view().skip(0) =~= l.deep_view());
        assert(out@ =~= old(out)@ + enc_str_list(l.deep_view()));
    }
}

/// Appends the encodings of the string lists from index `k` on.
fn append_str_list_seq(out: &mut Vec<u8>, l: &Vec<Vec<String>>, k: usize)
    requires
        k <= l@.len(),
        g2_encodable(l.deep_view()),
    ensures
        final(out)@ == old(out)@ + enc_str_list_seq(l.deep_view().skip(k as int)),
    decreases l@.len() - k,
{
    if k == l.len() {
        proof {
            assert(l.deep_view().skip(k as int) =~= Seq::<Seq<Seq<char>>>::empty());
            assert(old(out)@ + enc_str_list_seq(l.deep_view().skip(k as int)) =~= old(out)@);
        }
    } else {
        proof {
            assert(l.deep_view()[k as int] == l@[k as int].deep_view());
        }
        append_str_list(out, &l[k]);
        append_str_list_seq(out, l, k + 1);
        proof {
            let dv = l.deep_view();
            assert(dv.skip(k as int)[0] == dv[k as int]);
            assert(dv.skip(k as int).drop_first() =~= dv.skip(k as int + 1));
            assert(out@ =~= old(out)@ + enc_str_list_seq(dv.skip(k as int)));
        }
    }
}

fn append_g2(out: &mut Vec<u8>, l: &Vec<Vec<String>>)
    requires
        g2_encodable(l.deep_view()),
    ensures
        final(out)@ == old(out)@ + enc_g2(l.deep_view()),
{
    append_u32(out, l.len() as u32);
    append_str_list_seq(out, l, 0);
    proof {
        assert(l.deep_view().skip(0) =~= l.deep_view());
        assert(out@ =~= old(out)@ + enc_g2(l.deep_view()));
    }
}

fn append_open_id_sig(out: &mut Vec<u8>, o: &OpenIdSig)
    requires
        open_id_sig_encodable(o@),
    ensures
        final(out)@ == old(out)@ + enc_open_id_sig(o@),
{
    append_chars(out, o.jwt_sig.as_str());
    append_chars(out, o.jwt_payload.as_str());
    append_chars(out, o.uid_key.as_str());
    append_bytes(out, o.epk_blinder.as_slice());
    append_bytes(out, o.pepper.0.as_slice());
    proof {
        assert(out@ =~= old(out)@ + enc_open_id_sig(o@));
    }
}

fn append_groth16(out: &mut Vec<u8>, p: &Groth16Zkp)
    requires
        groth16_encodable(p@),
    ensures
        final(out)@ == old(out)@ + enc_groth16(p@),
{
    append_str_list(out, &p.a);
    append_g2(out, &p.b);
    append_str_list(out, &p.c);
    proof {
        assert(out@ =~= old(out)@ + enc_groth16(p@));
    }
}

fn append_sig_payload(out: &mut Vec<u8>, v: &ZkpOrOpenIdSig)
    requires
        sig_payload_encodable(v@),
    ensures
        final(out)@ == old(out)@ + enc_sig_payload(v@),
{
    match v {
        ZkpOrOpenIdSig::Groth16Zkp(p) => {
            out.push(0u8);
            assert(out@ =~= old(out)@ + seq![0u8]);
            append_groth16(out, p);
            assert(out@ =~= old(out)@ + enc_sig_payload(v@));
        },
        ZkpOrOpenIdSig::OpenIdSig(o) => {
            out.push(1u8);
            assert(out@ =~= old(out)@ + seq![1u8]);
            append_open_id_sig(out, o);
            assert(out@ =~= old(out)@ + enc_sig_payload(v@));
        },
    }
}

// ------------------------------------------------------------- exec decode
fn read_u32(s: &[u8], pos: usize) -> (r: Option<(u32, usize)>)
    requires
        pos <= s@.len(),
    ensures
        match r {
            Some((v, next)) => dec_u32(s@, pos as int) == Some((v, next as int)) && pos <= next
                <= s@.len(),
            None => dec_u32(s@, pos as int) is None,
        },
{
    if s.len() - pos < 4 {
        return None;
    }
    let v = u32_from_le_bytes(slice_subrange(s, pos, pos + 4));
    Some((v, pos + 4))
}

fn read_u64(s: &[u8], pos: usize) -> (r: Option<(u64, usize)>)
    requires
        pos <= s@.len(),
    ensures
        match r {
            Some((v, next)) => dec_u64(s@, pos as int) == Some((v, next as int)) && pos <= next
                <= s@.len(),
            None => dec_u64(s@, pos as int) is None,
        },
{
    if s.len() - pos < 8 {
        return None;
    }
    let v = u64_from_le_bytes(slice_subrange(s, pos, pos + 8));
    Some((v, pos + 8))
}

fn read_bytes(s: &[u8], pos: usize) -> (r: Option<(Vec<u8>, usize)>)
    requires
        pos <= s@.len(),
    ensures
        match r {
            Some((v, next)) => dec_bytes(s@, pos as int) == Some((v@, next as int)) && pos <= next
                <= s@.len(),
            None => dec_bytes(s@, pos as int) is None,
        },
{
    let (n32, j) = match read_u32(s, pos) {
        Some(p) => p,
        None => {
            return None;
        },
    };
    let n = n32 as usize;
    if s.len() - j < n {
        return None;
    }
    let chunk = slice_to_vec(slice_subrange(s, j, j + n));
    Some((chunk, j + n))
}

fn read_string(s: &[u8], pos: usize) -> (r: Option<(String, usize)>)
    requires
        pos <= s@.len(),
    ensures
        match r {
            Some((v, next)) => dec_chars(s@, pos as int) == Some((v@, next as int)) && pos <= next
                <= s@.len(),
            None => dec_chars(s@, pos as int) is None,
        },
{
    let (b, j) = match read_bytes(s, pos) {
        Some(p) => p,
        None => {
            return None;
        },
    };
    match string_from_utf8(b) {
        Some(t) => Some((t, j)),
        None => None,
    }
}

fn read_arr32(s: &[u8], pos: usize) -> (r: Option<([u8; 32], usize)>)
    requires
        pos <= s@.len(),
    ensures
        match r {
            Some((v, next)) => dec_arr32(s@, pos as int) == Some((v@, next as int)) && pos <= next
                <= s@.len(),
            None => dec_arr32(s@, pos as int) is None,
        },
{
    if s.len() - pos < 32 {
        return None;
    }
    let chunk = slice_to_vec(slice_subrange(s, pos, pos + 32));
    Some((bytes32_from_vec(&chunk), pos + 32))
}

fn read_chars_seq(s: &[u8], pos: usize, n: u32) -> (r: Option<(Vec<String>, usize)>)
    requires
        pos <= s@.len(),
    ensures
        match r {
            Some((v, next)) => dec_chars_seq(s@, pos as int, n as int) == Some(
                (v.deep_view(), next as int),
            ) && pos <= next <= s@.len(),
            None => dec_chars_seq(s@, pos as int, n as int) is None,
        },
    decreases n,
{
    if n == 0 {
        let empty: Vec<String> = Vec::new();
        assert(empty.deep_view() =~~= Seq::<Seq<char>>::empty());
        return Some((empty, pos));
    }
    let (c, j) = match read_string(s, pos) {
        Some(p) => p,
        None => {
            return None;
        },
    };
    let (mut l, k) = match read_chars_seq(s, j, n - 1) {
        Some(p) => p,
        None => {
            return None;
        },
    };
    let ghost pre = l.deep_view();
    l.insert(0, c);
    assert(l.deep_view() =~~= seq![c@] + pre);
    Some((l, k))
}

fn read_str_list(s: &[u8], pos: usize) -> (r: Option<(Vec<String>, usize)>)
    requires
        pos <= s@.len(),
    ensures
        match r {
            Some((v, next)) => dec_str_list(s@, pos as int) == Some((v.deep_view(), next as int))
                && pos <= next <= s@.len(),
            None => dec_str_list(s@, pos as int) is None,
        },
{
    let (n, j) = match read_u32(s, pos) {
        Some(p) => p,
        None => {
            return None;
        },
    };
    read_chars_seq(s, j, n)
}

fn read_str_list_seq(s: &[u8], pos: usize, n: u32) -> (r: Option<(Vec<Vec<String>>, usize)>)
    requires
        pos <= s@.len(),
    ensures
        match r {
            Some((v, next)) => dec_str_list_seq(s@, pos as int, n as int) == Some(
                (v.deep_view(), next as int),
            ) && pos <= next <= s@.len(),
            None => dec_str_list_seq(s@, pos as int, n as int) is None,
        },
    decreases n,
{
    if n == 0 {
        let empty: Vec<Vec<String>> = Vec::new();
        assert(empty.deep_view() =~~= Seq::<Seq<Seq<char>>>::empty());
        return Some((empty, pos));
    }
    let (c, j) = match read_str_list(s, pos) {
        Some(p) => p,
        None => {
            return None;
        },
    };
    let (mut l, k) = match read_str_list_seq(s, j, n - 1) {
        Some(p) => p,
        None => {
            return None;
        },
    };
    let ghost pre = l.deep_view();
    l.insert(0, c);
    assert(l.deep_view() =~~= seq![c.deep_view()] + pre);
    Some((l, k))
}

fn read_g2(s: &[u8], pos: usize) -> (r: Option<(Vec<Vec<String>>, usize)>)
    requires
        pos <= s@.len(),
    ensures
        match r {
            Some((v, next)) => dec_g2(s@, pos as int) == Some((v.deep_view(), next as int)) && pos
                <= next <= s@.len(),
            None => dec_g2(s@, pos as int) is None,
        },
{
    let (n, j) = match read_u32(s, pos) {
        Some(p) => p,
        None => {
            return None;
        },
    };
    read_str_list_seq(s, j, n)
}

fn read_open_id_sig(s: &[u8], pos: usize) -> (r: Option<(OpenIdSig, usize)>)
    requires
        pos <= s@.len(),
    ensures
        match r {
            Some((v, next)) => dec_open_id_sig(s@, pos as int) == Some((v@, next as int)) && pos
                <= next <= s@.len(),
            None => dec_open_id_sig(s@, pos as int) is None,
        },
{
    let (jwt_sig, i1) = match read_string(s, pos) {
        Some(p) => p,
        None => {
            return None;
        },
    };
    let (jwt_payload, i2) = match read_string(s, i1) {
        Some(p) => p,
        None => {
            return None;
        },
    };
    let (uid_key, i3) = match read_string(s, i2) {
        Some(p) => p,
        None => {
            return None;
        },
    };
    let (epk_blinder, i4) = match read_arr32(s, i3) {
        Some(p) => p,
        None => {
            return None;
        },
    };
    let (pepper_bytes, i5) = match read_arr32(s, i4) {
        Some(p) => p,
        None => {
            return None;
        },
    };
    let v = OpenIdSig { jwt_sig, jwt_payload, uid_key, epk_blinder, pepper: Pepper(pepper_bytes) };
    Some((v, i5))
}

fn read_groth16(s: &[u8], pos: usize) -> (r: Option<(Groth16Zkp, usize)>)
    requires
        pos <= s@.len(),
    ensures
        match r {
            Some((v, next)) => dec_groth16(s@, pos as int) == Some((v@, next as int)) && pos
                <= next <= s@.len(),
            None => dec_groth16(s@, pos as int) is None,
        },
{
    let (a, i1) = match read_str_list(s, pos) {
        Some(p) => p,
        None => {
            return None;
        },
    };
    let (b, i2) = match read_g2(s, i1) {
        Some(p) => p,
        None => {
            return None;
        },
    };
    let (c, i3) = match read_str_list(s, i2) {
        Some(p) => p,
        None => {
            return None;
        },
    };
    Some((Groth16Zkp { a, b, c }, i3))
}

fn read_sig_payload(s: &[u8], pos: usize) -> (r: Option<(ZkpOrOpenIdSig, usize)>)
    requires
        pos <= s@.len(),
    ensures
        match r {
            Some((v, next)) => dec_sig_payload(s@, pos as int) == Some((v@, next as int)) && pos
                <= next <= s@.len(),
            None => dec_sig_payload(s@, pos as int) is None,
        },
{
    if pos >= s.len() {
        return None;
    }
    let tag = s[pos];
    if tag == 0u8 {
        match read_groth16(s, pos + 1) {
            Some((p, j)) => Some((ZkpOrOpenIdSig::Groth16Zkp(p), j)),
            None => None,
        }
    } else if tag == 1u8 {
        match read_open_id_sig(s, pos + 1) {
            Some((o, j)) => Some((ZkpOrOpenIdSig::OpenIdSig(o), j)),
            None => None,
        }
    } else {
        None
    }
}

impl IdCommitment {
    /// Decodes the canonical form: exactly 32 bytes.
    pub fn try_from_bytes(bytes: &[u8]) -> (r: Result<Self, ZkIdError>)
        ensures
            r is Ok <==> bytes@.len() == 32,
            r is Ok ==> r.unwrap()@ == bytes@,
            r is Err ==> r.unwrap_err() == ZkIdError::DeserializationError,
    {
        if bytes.len() != 32 {
            return Err(ZkIdError::DeserializationError);
        }
        let v = slice_to_vec(bytes);
        Ok(IdCommitment(bytes32_from_vec(&v)))
    }
}

impl ZkIdPublicKey {
    /// The canonical byte encoding: the length-prefixed issuer, then the
    /// commitment's 32 bytes.
    pub fn to_bytes(&self) -> (r: Vec<u8>)
        requires
            chars_encodable(self.iss@),
        ensures
            r@ == enc_zk_public_key(self@),
    {
        let mut out: Vec<u8> = Vec::new();
        append_chars(&mut out, self.iss.as_str());
        append_bytes(&mut out, self.idc.0.as_slice());
        proof {
            assert(out@ =~= enc_zk_public_key(self@));
        }
        out
    }

    /// Decodes the canonical form, rejecting malformed bytes and trailing
    /// bytes.
    pub fn try_from_bytes(bytes: &[u8]) -> (r: Result<Self, ZkIdError>)
        ensures
            match dec_zk_public_key(bytes@, 0) {
                Some((v, n)) => if n == bytes@.len() {
                    r is Ok && r.unwrap()@ == v
                } else {
                    r == Err::<ZkIdPublicKey, ZkIdError>(ZkIdError::DeserializationError)
                },
                None => r == Err::<ZkIdPublicKey, ZkIdError>(ZkIdError::DeserializationError),
            },
    {
        let (iss, i1) = match read_string(bytes, 0) {
            Some(p) => p,
            None => {
                return Err(ZkIdError::DeserializationError);
            },
        };
        let (idc, i2) = match read_arr32(bytes, i1) {
            Some(p) => p,
            None => {
                return Err(ZkIdError::DeserializationError);
            },
        };
        if i2 != bytes.len() {
            return Err(ZkIdError::DeserializationError);
        }
        Ok(ZkIdPublicKey { iss, idc: IdCommitment(idc) })
    }
}

impl OpenIdSig {
    /// Decodes the canonical form, rejecting malformed bytes and trailing
    /// bytes.
    pub fn try_from_bytes(bytes: &[u8]) -> (r: Result<Self, ZkIdError>)
        ensures
            match dec_open_id_sig(bytes@, 0) {
                Some((v, n)) => if n == bytes@.len() {
                    r is Ok && r.unwrap()@ == v
                } else {
                    r == Err::<OpenIdSig, ZkIdError>(ZkIdError::DeserializationError)
                },
                None => r == Err::<OpenIdSig, ZkIdError>(ZkIdError::DeserializationError),
            },
    {
        match read_open_id_sig(bytes, 0) {
            Some((v, n)) => if n == bytes.len() {
                Ok(v)
            } else {
                Err(ZkIdError::DeserializationError)
            },
            None => Err(ZkIdError::DeserializationError),
        }
    }
}

impl Groth16Zkp {
    /// Decodes the canonical form, rejecting malformed bytes and trailing
    /// bytes.
    pub fn try_from_bytes(bytes: &[u8]) -> (r: Result<Self, ZkIdError>)
        ensures
            match dec_groth16(bytes@, 0) {
                Some((v, n)) => if n == bytes@.len() {
                    r is Ok && r.unwrap()@ == v
                } else {
                    r == Err::<Groth16Zkp, ZkIdError>(ZkIdError::DeserializationError)
                },
                None => r == Err::<Groth16Zkp, ZkIdError>(ZkIdError::DeserializationError),
            },
    {
        match read_groth16(bytes, 0) {
            Some((v, n)) => if n == bytes.len() {
                Ok(v)
            } else {
                Err(ZkIdError::DeserializationError)
            },
            None => Err(ZkIdError::DeserializationError),
        }
    }
}

impl ZkIdSignature {
    /// The canonical byte encoding: the tagged payload, the length-prefixed
    /// header, the expiry, and the two length-prefixed key and signature
    /// encodings.
    pub fn to_bytes(&self) -> (r: Vec<u8>)
        requires
            zkid_signature_encodable(self@),
        ensures
            r@ == enc_zkid_signature(self@),
    {
        let mut out: Vec<u8> = Vec::new();
        append_sig_payload(&mut out, &self.sig);
        append_chars(&mut out, self.jwt_header.as_str());
        append_u64(&mut out, self.exp_timestamp_secs);
        append_len_bytes(&mut out, self.ephemeral_pubkey.bytes.as_slice());
        append_len_bytes(&mut out, self.ephemeral_signature.bytes.as_slice());
        proof {
            assert(out@ =~= enc_zkid_signature(self@));
        }
        out
    }

    /// Decodes the canonical form, rejecting malformed bytes and trailing
    /// bytes.
    pub fn try_from_bytes(bytes: &[u8]) -> (r: Result<Self, ZkIdError>)
        ensures
            match dec_zkid_signature(bytes@, 0) {
                Some((v, n)) => if n == bytes@.len() {
                    r is Ok && r.unwrap()@ == v
                } else {
                    r == Err::<ZkIdSignature, ZkIdError>(ZkIdError::DeserializationError)
                },
                None => r == Err::<ZkIdSignature, ZkIdError>(ZkIdError::DeserializationError),
            },
    {
        let (sig, i1) = match read_sig_payload(bytes, 0) {
            Some(p) => p,
            None => {
                return Err(ZkIdError::DeserializationError);
            },
        };
        let (jwt_header, i2) = match read_string(bytes, i1) {
            Some(p) => p,
            None => {
                return Err(ZkIdError::DeserializationError);
            },
        };
        let (exp_timestamp_secs, i3) = match read_u64(bytes, i2) {
            Some(p) => p,
            None => {
                return Err(ZkIdError::DeserializationError);
            },
        };
        let (epk, i4) = match read_bytes(bytes, i3) {
            Some(p) => p,
            None => {
                return Err(ZkIdError::DeserializationError);
            },
        };
        let (esig, i5) = match read_bytes(bytes, i4) {
            Some(p) => p,
            None => {
                return Err(ZkIdError::DeserializationError);
            },
        };
        if i5 != bytes.len() {
            return Err(ZkIdError::DeserializationError);
        }
        Ok(
            ZkIdSignature {
                sig,
                jwt_header,
                exp_timestamp_secs,
                ephemeral_pubkey: EphemeralPublicKey { bytes: epk },
                ephemeral_signature: EphemeralSignature { bytes: esig },
            },
        )
    }
}

} // verus!
