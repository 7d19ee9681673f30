//! The core protocol types: peppers, identity commitments, public keys and
//! signatures, the nonce-binding computation, the claims policy checks, and
//! the dispatch between the direct and the zero-knowledge verification paths.

use vstd::prelude::*;
use vstd::utf8::encode_utf8;
use vstd::string::StringExecFns;
use crate::errors::ZkIdError;
use crate::hashing::{
    spec_pack_scalar, spec_pad_hash, spec_pack_with_len, poseidon_of, int_to_32_le,
    pack_scalar_bytes, scalar_from_u64, poseidon_hash_scalars, pad_and_pack_scalars_with_len,
    pad_and_hash_bytes, bytes32_from_vec, bytes_eq,
};
use crate::b64::{
    b64url_nopad_of, b64url_encode_nopad, spec_b64url_to_chars, base64url_to_str, str_eq,
    is_b64url_char,
};
use crate::claims::{
    Claims, ClaimsModel, claims_model_of_text, spec_truthy, parse_claims, lookup_str_claim,
    json_str_claim_of,
};

verus! {

/// A pepper is packed into a single field element.
pub const PEPPER_NUM_BYTES: usize = 32;

/// A blinder is packed into a single field element.
pub const EPK_BLINDER_NUM_BYTES: usize = 32;

pub const NONCE_NUM_BYTES: usize = 32;

pub const IDC_NUM_BYTES: usize = 32;

/// Supports ephemeral public key encodings of up to 93 bytes.
pub const MAX_EPK_BYTES: usize = 93;

pub const MAX_ISS_BYTES: usize = 248;

pub const MAX_AUD_VAL_BYTES: usize = 248;

pub const MAX_UID_KEY_BYTES: usize = 248;

pub const MAX_UID_VAL_BYTES: usize = 248;

pub const MAX_JWT_HEADER_BYTES: usize = 248;

pub const MAX_ZK_PUBLIC_KEY_BYTES: usize = MAX_ISS_BYTES + MAX_EPK_BYTES;

pub const MAX_ZK_SIGNATURE_BYTES: usize = 2048;

/// A per-transaction cap on how many of these authenticators are processed,
/// bounding worst-case proof-verification cost.
pub const MAX_ZK_ID_AUTHENTICATORS_ALLOWED: usize = 10;

/// How far in the future from the token's issued-at time the ephemeral public
/// key's expiry may be set.
pub const MAX_EXPIRY_HORIZON_SECS: u64 = 1728000000;

/// The pair (issuer, key id) that identifies which provider key verifies a
/// given token.
#[derive(Clone, Debug, Eq, PartialEq, Ord, PartialOrd)]
pub struct JwkId {
    /// The OIDC provider associated with this key.
    pub iss: String,
    /// The key id associated with this key.
    pub kid: String,
}

/// Fixed-size secret randomness that makes the identity commitment hiding.
#[derive(Clone, Copy, Debug, Eq, PartialEq, Hash)]
pub struct Pepper(pub [u8; PEPPER_NUM_BYTES]);

impl View for Pepper {
    type V = Seq<u8>;

    open spec fn view(&self) -> Seq<u8> {
        self.0@
    }
}

impl Pepper {
    pub fn new(bytes: [u8; PEPPER_NUM_BYTES]) -> (r: Self)
        ensures
            r@ == bytes@,
    {
        Self(bytes)
    }

    pub fn to_bytes(&self) -> (r: &[u8; PEPPER_NUM_BYTES])
        ensures
            r@ == self@,
    {
        &self.0
    }

    /// The pepper whose bytes are the little-endian encoding of `num`,
    /// zero-extended.
    pub fn from_number(num: u128) -> (r: Self)
        ensures
            r@ == vstd::bytes::spec_u128_to_le_bytes(num) + Seq::new(16, |i: int| 0u8),
    {
        let le = vstd::bytes::u128_to_le_bytes(num);
        let mut bytes = [0u8; PEPPER_NUM_BYTES];
        let mut i: usize = 0;
        proof {
            vstd::bytes::lemma_auto_spec_u128_to_from_le_bytes();
        }
        while i < 16
            invariant
                i <= 16,
                le@ == vstd::bytes::spec_u128_to_le_bytes(num),
                le@.len() == 16,
                bytes@.len() == 32,
                forall|j: int| 0 <= j < i ==> bytes@[j] == le@[j],
                forall|j: int| i <= j < 32 ==> bytes@[j] == 0u8,
            decreases 16 - i,
        {
            bytes[i] = le[i];
            i += 1;
        }
        proof {
            assert(bytes@ =~= vstd::bytes::spec_u128_to_le_bytes(num) + Seq::new(16, |i: int| 0u8));
        }
        Self(bytes)
    }
}

/// The fixed-size output of the identity-commitment hash; publicly stored as
/// part of a `ZkIdPublicKey`.
#[derive(Clone, Copy, Debug, Eq, PartialEq, Hash)]
pub struct IdCommitment(pub [u8; IDC_NUM_BYTES]);

impl View for IdCommitment {
    type V = Seq<u8>;

    open spec fn view(&self) -> Seq<u8> {
        self.0@
    }
}

impl IdCommitment {
    /// The identity commitment of (audience, uid key, uid value, pepper):
    /// each string is padded and hashed into one field element, the pepper is
    /// packed into one, and the four elements are hashed together, in order.
    pub open spec fn spec_idc(
        aud: Seq<char>,
        uid_key: Seq<char>,
        uid_val: Seq<char>,
        pepper: Seq<u8>,
    ) -> Seq<u8> {
        poseidon_of(
            seq![
                spec_pad_hash(encode_utf8(aud), MAX_AUD_VAL_BYTES as int),
                spec_pad_hash(encode_utf8(uid_key), MAX_UID_KEY_BYTES as int),
                spec_pad_hash(encode_utf8(uid_val), MAX_UID_VAL_BYTES as int),
                spec_pack_scalar(pepper),
            ],
        )
    }

    /// Whether all three commitment inputs fit their fixed byte bounds.
    pub open spec fn spec_idc_inputs_ok(
        aud: Seq<char>,
        uid_key: Seq<char>,
        uid_val: Seq<char>,
    ) -> bool {
        &&& encode_utf8(aud).len() <= MAX_AUD_VAL_BYTES
        &&& encode_utf8(uid_key).len() <= MAX_UID_KEY_BYTES
        &&& encode_utf8(uid_val).len() <= MAX_UID_VAL_BYTES
    }

    /// Computes the identity commitment, rejecting any input over its fixed
    /// byte bound.
    pub fn new_from_preimage(aud: &str, uid_key: &str, uid_val: &str, pepper: &Pepper) -> (r:
        Result<Self, ZkIdError>)
        ensures
            r is Ok <==> Self::spec_idc_inputs_ok(aud@, uid_key@, uid_val@),
            r is Ok ==> r.unwrap()@ == Self::spec_idc(aud@, uid_key@, uid_val@, pepper@),
            r is Err ==> r.unwrap_err() == ZkIdError::HashingError,
    {
        let aud_bytes = aud.as_bytes();
        let uid_key_bytes = uid_key.as_bytes();
        let uid_val_bytes = uid_val.as_bytes();
        if aud_bytes.len() > MAX_AUD_VAL_BYTES || uid_key_bytes.len() > MAX_UID_KEY_BYTES
            || uid_val_bytes.len() > MAX_UID_VAL_BYTES {
            return Err(ZkIdError::HashingError);
        }
        let aud_val_hash = pad_and_hash_bytes(aud_bytes, MAX_AUD_VAL_BYTES);
        let uid_key_hash = pad_and_hash_bytes(uid_key_bytes, MAX_UID_KEY_BYTES);
        let uid_val_hash = pad_and_hash_bytes(uid_val_bytes, MAX_UID_VAL_BYTES);
        let pepper_scalar = pack_scalar_bytes(self_pepper_slice(pepper));
        let mut inputs: Vec<Vec<u8>> = Vec::new();
        inputs.push(aud_val_hash);
        inputs.push(uid_key_hash);
        inputs.push(uid_val_hash);
        inputs.push(pepper_scalar);
        assert(inputs.deep_view() =~~= seq![
            spec_pad_hash(encode_utf8(aud@), MAX_AUD_VAL_BYTES as int),
            spec_pad_hash(encode_utf8(uid_key@), MAX_UID_KEY_BYTES as int),
            spec_pad_hash(encode_utf8(uid_val@), MAX_UID_VAL_BYTES as int),
            spec_pack_scalar(pepper@),
        ]);
        let fr = poseidon_hash_scalars(&inputs);
        Ok(IdCommitment(bytes32_from_vec(&fr)))
    }

    /// The canonical byte encoding: the 32 commitment bytes themselves.
    pub fn to_bytes(&self) -> (r: Vec<u8>)
        ensures
            r@ == self@,
    {
        let mut out: Vec<u8> = Vec::new();
        let mut i: usize = 0;
        while i < IDC_NUM_BYTES
            invariant
                i <= 32,
                self.0@.len() == 32,
                out@ == self.0@.take(i as int),
            decreases 32 - i,
        {
            out.push(self.0[i]);
            i += 1;
        }
        proof {
            assert(out@ =~= self@);
        }
        out
    }
}

/// A slice of a pepper's bytes.
fn self_pepper_slice(pepper: &Pepper) -> (r: &[u8])
    ensures
        r@ == pepper@,
{
    pepper.0.as_slice()
}

/// A copy of a byte vector.
pub fn clone_bytes(v: &Vec<u8>) -> (r: Vec<u8>)
    ensures
        r@ == v@,
{
    let mut out: Vec<u8> = Vec::new();
    let mut i: usize = 0;
    while i < v.len()
        invariant
            i <= v@.len(),
            out@ == v@.take(i as int),
        decreases v@.len() - i,
    {
        out.push(v[i]);
        i += 1;
    }
    proof {
        assert(out@ =~= v@);
    }
    out
}

/// A copy of a vector of strings.
pub fn clone_strings(v: &Vec<String>) -> (r: Vec<String>)
    ensures
        r.deep_view() == v.deep_view(),
{
    let mut out: Vec<String> = Vec::new();
    let mut i: usize = 0;
    while i < v.len()
        invariant
            i <= v@.len(),
            out.deep_view() == v.deep_view().take(i as int),
        decreases v@.len() - i,
    {
        let ghost pre = out.deep_view();
        out.push(v[i].clone());
        assert(out.deep_view() =~~= pre.push(v@[i as int]@));
        assert(out.deep_view() =~~= v.deep_view().take(i as int + 1));
        i += 1;
    }
    proof {
        assert(out.deep_view() =~~= v.deep_view());
    }
    out
}

/// A short-lived public key whose byte encoding binds it into the nonce; the
/// underlying signature scheme stays outside this library's scope.
#[derive(Debug, Eq, PartialEq, Hash)]
pub struct EphemeralPublicKey {
    pub bytes: Vec<u8>,
}

impl View for EphemeralPublicKey {
    type V = Seq<u8>;

    open spec fn view(&self) -> Seq<u8> {
        self.bytes@
    }
}

impl Clone for EphemeralPublicKey {
    fn clone(&self) -> (r: Self)
        ensures
            r@ == self@,
    {
        EphemeralPublicKey { bytes: clone_bytes(&self.bytes) }
    }
}

impl EphemeralPublicKey {
    pub fn new(bytes: Vec<u8>) -> (r: Self)
        ensures
            r@ == bytes@,
    {
        EphemeralPublicKey { bytes }
    }

    pub fn to_bytes(&self) -> (r: &Vec<u8>)
        ensures
            r@ == self@,
    {
        &self.bytes
    }
}

/// A signature under an ephemeral key, carried as its byte encoding.
#[derive(Debug, Eq, PartialEq, Hash)]
pub struct EphemeralSignature {
    pub bytes: Vec<u8>,
}

impl View for EphemeralSignature {
    type V = Seq<u8>;

    open spec fn view(&self) -> Seq<u8> {
        self.bytes@
    }
}

impl Clone for EphemeralSignature {
    fn clone(&self) -> (r: Self)
        ensures
            r@ == self@,
    {
        EphemeralSignature { bytes: clone_bytes(&self.bytes) }
    }
}

/// The on-chain address-binding public key: it reveals which provider was
/// used, never which user.
#[derive(Debug, Eq, PartialEq, Hash)]
pub struct ZkIdPublicKey {
    /// The OIDC provider.
    pub iss: String,
    /// The hiding commitment to (audience, uid key, uid value, pepper).
    pub idc: IdCommitment,
}

/// The mathematical content of a `ZkIdPublicKey`.
pub struct ZkIdPublicKeyView {
    pub iss: Seq<char>,
    pub idc: Seq<u8>,
}

impl View for ZkIdPublicKey {
    type V = ZkIdPublicKeyView;

    open spec fn view(&self) -> ZkIdPublicKeyView {
        ZkIdPublicKeyView { iss: self.iss@, idc: self.idc@ }
    }
}

impl DeepView for ZkIdPublicKey {
    type V = ZkIdPublicKeyView;

    open spec fn deep_view(&self) -> ZkIdPublicKeyView {
        self.view()
    }
}

impl Clone for ZkIdPublicKey {
    fn clone(&self) -> (r: Self)
        ensures
            r@ == self@,
    {
        let r = ZkIdPublicKey { iss: self.iss.clone(), idc: IdCommitment(self.idc.0) };
        proof {
            assert(r@ == self@);
        }
        r
    }
}

/// The open (non-hidden) proof path: the payload is visible, and the chain
/// recomputes commitment and nonce from it.
#[derive(Debug, Eq, PartialEq, Hash)]
pub struct OpenIdSig {
    /// The base64url-encoded signature of the token.
    pub jwt_sig: String,
    /// The base64url-encoded payload of the token.
    pub jwt_payload: String,
    /// The name of the claim that maps to the user identifier; `sub` or `email`.
    pub uid_key: String,
    /// The randomness that hides the ephemeral public key inside the nonce.
    pub epk_blinder: [u8; EPK_BLINDER_NUM_BYTES],
    /// The randomness that hides the identity inside the commitment.
    pub pepper: Pepper,
}

/// The mathematical content of an `OpenIdSig`.
pub struct OpenIdSigView {
    pub jwt_sig: Seq<char>,
    pub jwt_payload: Seq<char>,
    pub uid_key: Seq<char>,
    pub epk_blinder: Seq<u8>,
    pub pepper: Seq<u8>,
}

impl View for OpenIdSig {
    type V = OpenIdSigView;

    open spec fn view(&self) -> OpenIdSigView {
        OpenIdSigView {
            jwt_sig: self.jwt_sig@,
            jwt_payload: self.jwt_payload@,
            uid_key: self.uid_key@,
            epk_blinder: self.epk_blinder@,
            pepper: self.pepper@,
        }
    }
}

impl Clone for OpenIdSig {
    fn clone(&self) -> (r: Self)
        ensures
            r@ == self@,
    {
        let r = OpenIdSig {
            jwt_sig: self.jwt_sig.clone(),
            jwt_payload: self.jwt_payload.clone(),
            uid_key: self.uid_key.clone(),
            epk_blinder: self.epk_blinder,
            pepper: Pepper(self.pepper.0),
        };
        proof {
            assert(r@ == self@);
        }
        r
    }
}

/// A Groth16 proof's structural shape: two lists of decimal-string
/// coordinates around one list of coordinate pairs. Opaque beyond shape; it is
/// passed whole to the external verifier.
#[derive(Debug, Eq, PartialEq, Hash)]
pub struct Groth16Zkp {
    pub a: Vec<String>,
    pub b: Vec<Vec<String>>,
    pub c: Vec<String>,
}

/// The mathematical content of a `Groth16Zkp`.
pub struct Groth16ZkpView {
    pub a: Seq<Seq<char>>,
    pub b: Seq<Seq<Seq<char>>>,
    pub c: Seq<Seq<char>>,
}

impl View for Groth16Zkp {
    type V = Groth16ZkpView;

    open spec fn view(&self) -> Groth16ZkpView {
        Groth16ZkpView { a: self.a.deep_view(), b: self.b.deep_view(), c: self.c.deep_view() }
    }
}

impl Clone for Groth16Zkp {
    fn clone(&self) -> (r: Self)
        ensures
            r@ == self@,
    {
        let mut b: Vec<Vec<String>> = Vec::new();
        let mut i: usize = 0;
        while i < self.b.len()
            invariant
                i <= self.b@.len(),
                b.deep_view() == self.b.deep_view().take(i as int),
            decreases self.b@.len() - i,
        {
            let ghost pre = b.deep_view();
            b.push(clone_strings(&self.b[i]));
            assert(b.deep_view() =~~= pre.push(self.b@[i as int].deep_view()));
            assert(b.deep_view() =~~= self.b.deep_view().take(i as int + 1));
            i += 1;
        }
        let r = Groth16Zkp { a: clone_strings(&self.a), b, c: clone_strings(&self.c) };
        proof {
            assert(r.b.deep_view() =~~= self.b.deep_view());
            assert(r@ == self@);
        }
        r
    }
}

/// The tagged choice between the two verification paths: exactly one payload
/// is present, and the tag alone decides which path verifies it.
#[derive(Debug, Eq, PartialEq, Hash)]
pub enum ZkpOrOpenIdSig {
    Groth16Zkp(Groth16Zkp),
    OpenIdSig(OpenIdSig),
}

/// The mathematical content of a `ZkpOrOpenIdSig`.
pub enum ZkpOrOpenIdSigView {
    Groth16Zkp(Groth16ZkpView),
    OpenIdSig(OpenIdSigView),
}

impl View for ZkpOrOpenIdSig {
    type V = ZkpOrOpenIdSigView;

    open spec fn view(&self) -> ZkpOrOpenIdSigView {
        match self {
            ZkpOrOpenIdSig::Groth16Zkp(p) => ZkpOrOpenIdSigView::Groth16Zkp(p@),
            ZkpOrOpenIdSig::OpenIdSig(o) => ZkpOrOpenIdSigView::OpenIdSig(o@),
        }
    }
}

impl Clone for ZkpOrOpenIdSig {
    fn clone(&self) -> (r: Self)
        ensures
            r@ == self@,
    {
        match self {
            ZkpOrOpenIdSig::Groth16Zkp(p) => ZkpOrOpenIdSig::Groth16Zkp(p.clone()),
            ZkpOrOpenIdSig::OpenIdSig(o) => ZkpOrOpenIdSig::OpenIdSig(o.clone()),
        }
    }
}

/// A complete authenticator: the proof-or-signature payload, the token
/// header, the ephemeral key with its expiry, and the ephemeral signature
/// over the transaction.
#[derive(Debug, Eq, PartialEq, Hash)]
pub struct ZkIdSignature {
    /// The proof path's payload: a Groth16 proof or an open signature.
    pub sig: ZkpOrOpenIdSig,
    /// The base64url-encoded header of the token; carries `kid` and `alg`.
    pub jwt_header: String,
    /// The expiry time of the ephemeral key, as epoch seconds.
    pub exp_timestamp_secs: u64,
    /// The short-lived key that signs the transaction.
    pub ephemeral_pubkey: EphemeralPublicKey,
    /// The transaction signature under the ephemeral key.
    pub ephemeral_signature: EphemeralSignature,
}

/// The mathematical content of a `ZkIdSignature`.
pub struct ZkIdSignatureView {
    pub sig: ZkpOrOpenIdSigView,
    pub jwt_header: Seq<char>,
    pub exp_timestamp_secs: u64,
    pub ephemeral_pubkey: Seq<u8>,
    pub ephemeral_signature: Seq<u8>,
}

impl View for ZkIdSignature {
    type V = ZkIdSignatureView;

    open spec fn view(&self) -> ZkIdSignatureView {
        ZkIdSignatureView {
            sig: self.sig@,
            jwt_header: self.jwt_header@,
            exp_timestamp_secs: self.exp_timestamp_secs,
            ephemeral_pubkey: self.ephemeral_pubkey@,
            ephemeral_signature: self.ephemeral_signature@,
        }
    }
}

impl DeepView for ZkIdSignature {
    type V = ZkIdSignatureView;

    open spec fn deep_view(&self) -> ZkIdSignatureView {
        self.view()
    }
}

impl Clone for ZkIdSignature {
    fn clone(&self) -> (r: Self)
        ensures
            r@ == self@,
    {
        let r = ZkIdSignature {
            sig: self.sig.clone(),
            jwt_header: self.jwt_header.clone(),
            exp_timestamp_secs: self.exp_timestamp_secs,
            ephemeral_pubkey: self.ephemeral_pubkey.clone(),
            ephemeral_signature: self.ephemeral_signature.clone(),
        };
        proof {
            assert(r@ == self@);
        }
        r
    }
}

/// The two fields of a token header that verification reads.
#[derive(Debug, Eq, PartialEq)]
pub struct JWTHeader {
    pub kid: String,
    pub alg: String,
}

/// A point in time, in microseconds since the epoch, supplied by the
/// verifying context.
#[derive(Clone, Copy, Debug, PartialEq, Eq, Structural)]
pub struct CurrentTimeMicroseconds {
    pub microseconds: u64,
}

/// The uid value the verification path accepts for a uid key: only `sub` and
/// `email` are allowed there, and `email` only with a truthy email-verified
/// claim.
pub open spec fn spec_verify_uid_val(m: ClaimsModel, uid_key: Seq<char>) -> Option<Seq<char>> {
    if uid_key == "sub"@ {
        Some(m.sub)
    } else if uid_key == "email"@ {
        if spec_truthy(m.email_verified) && m.email is Some {
            Some(m.email.unwrap())
        } else {
            None
        }
    } else {
        None
    }
}

/// The field elements hashed into the nonce: the packed ephemeral key with
/// its length, the expiry timestamp, and the packed blinder, in order.
pub open spec fn spec_nonce_scalars(epk: Seq<u8>, exp: u64, blinder: Seq<u8>) -> Seq<Seq<u8>> {
    spec_pack_with_len(epk, MAX_EPK_BYTES as int).push(int_to_32_le(exp as int)).push(
        spec_pack_scalar(blinder),
    )
}

/// The nonce text: the Poseidon hash of the nonce scalars, base64url-encoded
/// without padding.
pub open spec fn spec_nonce(epk: Seq<u8>, exp: u64, blinder: Seq<u8>) -> Seq<char> {
    b64url_nopad_of(poseidon_of(spec_nonce_scalars(epk, exp, blinder)))
}

impl OpenIdSig {
    /// The exact outcome of the five policy checks over parsed claims, in the
    /// order they are decided: expiry horizon, issuer match, uid-key policy
    /// and uid resolution, commitment-input bounds, commitment match,
    /// ephemeral-key bound, nonce match. Oversized commitment inputs and an
    /// oversized ephemeral key carry their own errors; every other failure is
    /// a policy violation.
    pub open spec fn spec_claims_outcome(
        &self,
        m: ClaimsModel,
        exp: u64,
        epk: Seq<u8>,
        pk: &ZkIdPublicKey,
    ) -> Result<(), ZkIdError> {
        let uv = spec_verify_uid_val(m, self.uid_key@);
        if !(exp as int <= m.iat as int + MAX_EXPIRY_HORIZON_SECS as int) {
            Err(ZkIdError::ClaimsPolicyError)
        } else if m.iss != pk.iss@ {
            Err(ZkIdError::ClaimsPolicyError)
        } else if uv is None {
            Err(ZkIdError::ClaimsPolicyError)
        } else if !IdCommitment::spec_idc_inputs_ok(m.aud, self.uid_key@, uv.unwrap()) {
            Err(ZkIdError::HashingError)
        } else if IdCommitment::spec_idc(m.aud, self.uid_key@, uv.unwrap(), self.pepper@)
            != pk.idc@ {
            Err(ZkIdError::ClaimsPolicyError)
        } else if epk.len() > MAX_EPK_BYTES {
            Err(ZkIdError::EncodingError)
        } else if m.nonce != spec_nonce(epk, exp, self.epk_blinder@) {
            Err(ZkIdError::ClaimsPolicyError)
        } else {
            Ok(())
        }
    }

    /// Verifies the five policy checks over an already-parsed payload; the
    /// result, error variants included, is exactly the spec outcome.
    pub fn verify_parsed_jwt_claims(
        &self,
        claims: &Claims,
        exp_timestamp_secs: u64,
        epk: &EphemeralPublicKey,
        pk: &ZkIdPublicKey,
    ) -> (r: Result<(), ZkIdError>)
        ensures
            r == self.spec_claims_outcome(claims.model(), exp_timestamp_secs, epk@, pk),
    {
        proof {
            reveal_strlit("sub");
            reveal_strlit("email");
            assert("sub"@.len() == 3);
            assert("email"@.len() == 5);
        }
        if !(exp_timestamp_secs as u128 <= claims.iat as u128
            + MAX_EXPIRY_HORIZON_SECS as u128) {
            return Err(ZkIdError::ClaimsPolicyError);
        }
        if !str_eq(claims.iss.as_str(), pk.iss.as_str()) {
            return Err(ZkIdError::ClaimsPolicyError);
        }
        let is_sub = str_eq(self.uid_key.as_str(), "sub");
        let is_email = str_eq(self.uid_key.as_str(), "email");
        if !(is_sub || is_email) {
            return Err(ZkIdError::ClaimsPolicyError);
        }
        let uid_val = match claims.get_uid_val(&self.uid_key) {
            Ok(v) => v,
            Err(e) => {
                return Err(e);
            },
        };
        let idc = match IdCommitment::new_from_preimage(
            claims.aud.as_str(),
            self.uid_key.as_str(),
            uid_val.as_str(),
            &self.pepper,
        ) {
            Ok(i) => i,
            Err(e) => {
                return Err(e);
            },
        };
        if !bytes_eq(idc.0.as_slice(), pk.idc.0.as_slice()) {
            return Err(ZkIdError::ClaimsPolicyError);
        }
        let nonce = match self.reconstruct_oauth_nonce(exp_timestamp_secs, epk) {
            Ok(n) => n,
            Err(e) => {
                return Err(e);
            },
        };
        if !str_eq(nonce.as_str(), claims.nonce.as_str()) {
            return Err(ZkIdError::ClaimsPolicyError);
        }
        Ok(())
    }

    /// Parses the payload and verifies the five policy checks over it: the
    /// payload must decode as base64url, UTF-8 and JSON with the required
    /// claims present, else parsing fails; the checks' outcome over the
    /// denoted claims, error variants included, is exactly the spec outcome.
    pub fn verify_jwt_claims(
        &self,
        exp_timestamp_secs: u64,
        epk: &EphemeralPublicKey,
        pk: &ZkIdPublicKey,
    ) -> (r: Result<(), ZkIdError>)
        ensures
            match spec_b64url_to_chars(self.jwt_payload@) {
                Some(text) => match claims_model_of_text(text) {
                    Some(m) => r == self.spec_claims_outcome(m, exp_timestamp_secs, epk@, pk),
                    None => r == Err::<(), ZkIdError>(ZkIdError::ClaimsParseError),
                },
                None => r == Err::<(), ZkIdError>(ZkIdError::ClaimsParseError),
            },
    {
        let claims = match parse_claims(self.jwt_payload.as_str()) {
            Ok(c) => c,
            Err(e) => {
                return Err(e);
            },
        };
        self.verify_parsed_jwt_claims(&claims, exp_timestamp_secs, epk, pk)
    }

    /// The dot-joined three-part token text: header, payload, signature.
    pub fn assemble_jwt_token(jwt_header: &String, jwt_payload: &String, jwt_sig: &String) -> (r:
        String)
        ensures
            r@ == jwt_header@ + "."@ + jwt_payload@ + "."@ + jwt_sig@,
    {
        let mut t = jwt_header.clone();
        t.append(".");
        t.append(jwt_payload.as_str());
        t.append(".");
        t.append(jwt_sig.as_str());
        proof {
            assert(t@ =~= jwt_header@ + "."@ + jwt_payload@ + "."@ + jwt_sig@);
        }
        t
    }

    /// Assembles the dot-joined token and checks it under the provider key;
    /// what the key answers decides the outcome.
    pub fn verify_jwt_signature<K: ProviderKey>(&self, rsa_jwk: &K, jwt_header: &String) -> (r:
        Result<(), ZkIdError>)
        ensures
            r is Err ==> r.unwrap_err() == ZkIdError::SignatureInvalid,
    {
        let jwt_token = Self::assemble_jwt_token(jwt_header, &self.jwt_payload, &self.jwt_sig);
        if rsa_jwk.verify_signature(jwt_token.as_str()) {
            Ok(())
        } else {
            Err(ZkIdError::SignatureInvalid)
        }
    }

    /// Recomputes the nonce that binds the ephemeral key and its expiry into
    /// the token, failing exactly when the key's encoding exceeds its bound.
    pub fn reconstruct_oauth_nonce(&self, exp_timestamp_secs: u64, epk: &EphemeralPublicKey) -> (r:
        Result<String, ZkIdError>)
        ensures
            r is Ok <==> epk@.len() <= MAX_EPK_BYTES,
            r is Ok ==> r.unwrap()@ == spec_nonce(epk@, exp_timestamp_secs, self.epk_blinder@),
            r is Ok ==> r.unwrap()@.len() == 43,
            r is Ok ==> forall|i: int|
                0 <= i < r.unwrap()@.len() ==> is_b64url_char(#[trigger] r.unwrap()@[i]),
            r is Err ==> r.unwrap_err() == ZkIdError::EncodingError,
    {
        if epk.bytes.len() > MAX_EPK_BYTES {
            return Err(ZkIdError::EncodingError);
        }
        let mut frs = pad_and_pack_scalars_with_len(epk.bytes.as_slice(), MAX_EPK_BYTES);
        let ghost pre1 = frs.deep_view();
        frs.push(scalar_from_u64(exp_timestamp_secs));
        assert(frs.deep_view() =~~= pre1.push(int_to_32_le(exp_timestamp_secs as int)));
        let ghost pre2 = frs.deep_view();
        frs.push(pack_scalar_bytes(blinder_slice(&self.epk_blinder)));
        assert(frs.deep_view() =~~= pre2.push(spec_pack_scalar(self.epk_blinder@)));
        assert(frs.deep_view() =~~= spec_nonce_scalars(epk@, exp_timestamp_secs, self.epk_blinder@));
        let nonce_fr = poseidon_hash_scalars(&frs);
        Ok(b64url_encode_nopad(nonce_fr.as_slice()))
    }
}

/// A slice of a blinder's bytes.
fn blinder_slice(blinder: &[u8; EPK_BLINDER_NUM_BYTES]) -> (r: &[u8])
    ensures
        r@ == blinder@,
{
    blinder.as_slice()
}

/// A resolved provider key: answers whether the provider's signature over the
/// dot-joined token text verifies. The key store outside the library
/// implements it.
pub trait ProviderKey {
    fn verify_signature(&self, jwt_token: &str) -> bool;
}

/// An external Groth16 verifier holding a fixed verification key: answers
/// whether a proof holds for a vector of public inputs.
pub trait ZkpVerifier {
    fn verify_proof(&self, proof: &Groth16Zkp, public_inputs: &Vec<Vec<u8>>) -> bool;
}

/// The public inputs handed to the external verifier: the identity
/// commitment, the issuer's bytes, the ephemeral key's bytes and the expiry,
/// in the circuit's expected order.
pub open spec fn spec_public_inputs(pk: &ZkIdPublicKey, epk: Seq<u8>, exp: u64) -> Seq<Seq<u8>> {
    seq![pk.idc@, encode_utf8(pk.iss@), epk, vstd::bytes::spec_u64_to_le_bytes(exp)]
}

impl ZkIdSignature {
    /// Parses the token header: base64url text carrying a JSON object with
    /// string fields `kid` and `alg`; succeeds exactly when the text decodes
    /// and both lookups yield a string, and then returns exactly those.
    pub fn parse_jwt_header(&self) -> (r: Result<JWTHeader, ZkIdError>)
        ensures
            match spec_b64url_to_chars(self.jwt_header@) {
                Some(text) => {
                    &&& (r is Ok <==> json_str_claim_of(text, "kid"@) is Some && json_str_claim_of(
                        text,
                        "alg"@,
                    ) is Some)
                    &&& (r is Ok ==> r.unwrap().kid@ == json_str_claim_of(text, "kid"@).unwrap())
                    &&& (r is Ok ==> r.unwrap().alg@ == json_str_claim_of(text, "alg"@).unwrap())
                },
                None => r is Err,
            },
            r is Err ==> r.unwrap_err() == ZkIdError::ClaimsParseError,
    {
        let json_text = match base64url_to_str(self.jwt_header.as_str()) {
            Ok(s) => s,
            Err(e) => {
                return Err(e);
            },
        };
        let kid = lookup_str_claim(json_text.as_str(), "kid");
        let alg = lookup_str_claim(json_text.as_str(), "alg");
        match (kid, alg) {
            (Some(kid), Some(alg)) => Ok(JWTHeader { kid, alg }),
            _ => Err(ZkIdError::ClaimsParseError),
        }
    }

    /// The signature is not yet expired at the given time: the block time, in
    /// microseconds, is at most the expiry timestamp.
    pub open spec fn spec_not_expired(&self, current_time: CurrentTimeMicroseconds) -> bool {
        current_time.microseconds as int <= self.exp_timestamp_secs as int * 1000000
    }

    /// Enforces expiry against a supplied current time, inclusively: a block
    /// time equal to the expiry instant still passes.
    pub fn verify_expiry(&self, current_time: &CurrentTimeMicroseconds) -> (r: Result<
        (),
        ZkIdError,
    >)
        ensures
            r is Ok <==> self.spec_not_expired(*current_time),
            r is Err ==> r.unwrap_err() == ZkIdError::Expired,
    {
        let block_time = current_time.microseconds as u128;
        let expiry_time = (self.exp_timestamp_secs as u128) * 1000000;
        if block_time > expiry_time {
            Err(ZkIdError::Expired)
        } else {
            Ok(())
        }
    }

    /// The public inputs handed to the external Groth16 verifier.
    pub fn assemble_public_inputs(pk: &ZkIdPublicKey, epk: &EphemeralPublicKey, exp: u64) -> (r:
        Vec<Vec<u8>>)
        ensures
            r.deep_view() == spec_public_inputs(pk, epk@, exp),
    {
        let mut inputs: Vec<Vec<u8>> = Vec::new();
        inputs.push(pk.idc.to_bytes());
        inputs.push(pk.iss.as_str().as_bytes_vec());
        inputs.push(clone_bytes(&epk.bytes));
        inputs.push(vstd::bytes::u64_to_le_bytes(exp));
        assert(inputs.deep_view() =~~= spec_public_inputs(pk, epk@, exp));
        inputs
    }

    /// Top-level verification: enforce expiry against the supplied time, then
    /// dispatch on the payload's tag — the open path runs the claims checks
    /// and the provider-key signature check; the zero-knowledge path hands
    /// the proof and the public inputs to the external verifier. An expired
    /// signature is rejected before any other work.
    pub fn verify<K: ProviderKey, V: ZkpVerifier>(
        &self,
        current_time: &CurrentTimeMicroseconds,
        pk: &ZkIdPublicKey,
        provider_key: &K,
        zkp_verifier: &V,
    ) -> (r: Result<(), ZkIdError>)
        ensures
            r == Err::<(), ZkIdError>(ZkIdError::Expired) <==> !self.spec_not_expired(
                *current_time,
            ),
            r is Ok ==> self.spec_not_expired(*current_time),
            self.spec_not_expired(*current_time) ==> (self.sig matches ZkpOrOpenIdSig::OpenIdSig(o)
                ==> match spec_b64url_to_chars(o.jwt_payload@) {
                Some(text) => match claims_model_of_text(text) {
                    Some(m) => {
                        let c = o.spec_claims_outcome(
                            m,
                            self.exp_timestamp_secs,
                            self.ephemeral_pubkey@,
                            pk,
                        );
                        &&& (c is Err ==> r == c)
                        &&& (c is Ok ==> r is Ok || r == Err::<(), ZkIdError>(
                            ZkIdError::SignatureInvalid,
                        ))
                    },
                    None => r == Err::<(), ZkIdError>(ZkIdError::ClaimsParseError),
                },
                None => r == Err::<(), ZkIdError>(ZkIdError::ClaimsParseError),
            }),
            self.spec_not_expired(*current_time) ==> (self.sig matches
                ZkpOrOpenIdSig::Groth16Zkp(p) ==> (r is Ok || r == Err::<(), ZkIdError>(
                ZkIdError::ProofInvalid,
            ))),
    {
        match self.verify_expiry(current_time) {
            Ok(()) => (),
            Err(e) => {
                return Err(e);
            },
        }
        match &self.sig {
            ZkpOrOpenIdSig::OpenIdSig(openid) => {
                match openid.verify_jwt_claims(self.exp_timestamp_secs, &self.ephemeral_pubkey, pk) {
                    Ok(()) => (),
                    Err(e) => {
                        return Err(e);
                    },
                }
                openid.verify_jwt_signature(provider_key, &self.jwt_header)
            },
            ZkpOrOpenIdSig::Groth16Zkp(proof) => {
                let inputs = Self::assemble_public_inputs(
                    pk,
                    &self.ephemeral_pubkey,
                    self.exp_timestamp_secs,
                );
                if zkp_verifier.verify_proof(proof, &inputs) {
                    Ok(())
                } else {
                    Err(ZkIdError::ProofInvalid)
                }
            },
        }
    }
}

/// One signer slot of a transaction's authenticator set: a public key of some
/// kind paired with a signature of some kind.
#[derive(Clone, Debug)]
pub enum AnyPublicKey {
    ZkId { public_key: ZkIdPublicKey },
    Other,
}

#[derive(Clone, Debug)]
pub enum AnySignature {
    ZkId { signature: ZkIdSignature },
    Other,
}

#[derive(Clone, Debug)]
pub struct SingleKeyAuthenticator {
    pub public_key: AnyPublicKey,
    pub signature: AnySignature,
}

/// The transaction surface this library reads: the signer slots in order.
#[derive(Clone, Debug)]
pub struct SignedTransaction {
    pub authenticators: Vec<SingleKeyAuthenticator>,
}

/// The pair a signer slot contributes when both its public-key and its
/// signature variants are of the zkID kind.
pub open spec fn spec_zkid_pair(a: &SingleKeyAuthenticator) -> Option<
    (ZkIdPublicKeyView, ZkIdSignatureView),
> {
    match (&a.public_key, &a.signature) {
        (AnyPublicKey::ZkId { public_key }, AnySignature::ZkId { signature }) => Some(
            (public_key@, signature@),
        ),
        _ => None,
    }
}

/// The zkID pairs of a slot sequence, in slot order.
pub open spec fn spec_zkid_authenticators(s: Seq<SingleKeyAuthenticator>) -> Seq<
    (ZkIdPublicKeyView, ZkIdSignatureView),
>
    decreases s.len(),
{
    if s.len() == 0 {
        Seq::empty()
    } else {
        spec_zkid_authenticators(s.drop_last()) + match spec_zkid_pair(&s.last()) {
            Some(p) => seq![p],
            None => Seq::empty(),
        }
    }
}

/// Scans every signer slot of the transaction and pairs up the slots whose
/// public-key and signature variants are both of the zkID kind, in slot
/// order; no slot of that kind yields an empty sequence. This is extraction,
/// not verification.
pub fn get_zkid_authenticators(transaction: &SignedTransaction) -> (r: Result<
    Vec<(ZkIdPublicKey, ZkIdSignature)>,
    ZkIdError,
>)
    ensures
        r is Ok,
        r.unwrap().deep_view() == spec_zkid_authenticators(transaction.authenticators@),
{
    let mut authenticators: Vec<(ZkIdPublicKey, ZkIdSignature)> = Vec::new();
    let mut i: usize = 0;
    assert(authenticators.deep_view() =~~= spec_zkid_authenticators(
        transaction.authenticators@.take(0),
    ));
    while i < transaction.authenticators.len()
        invariant
            i <= transaction.authenticators@.len(),
            authenticators.deep_view() == spec_zkid_authenticators(
                transaction.authenticators@.take(i as int),
            ),
        decreases transaction.authenticators@.len() - i,
    {
        let ghost taken = transaction.authenticators@.take(i as int + 1);
        proof {
            assert(taken.drop_last() =~= transaction.authenticators@.take(i as int));
            assert(taken.last() == transaction.authenticators@[i as int]);
        }
        let a = &transaction.authenticators[i];
        match (&a.public_key, &a.signature) {
            (AnyPublicKey::ZkId { public_key }, AnySignature::ZkId { signature }) => {
                let ghost pre = authenticators.deep_view();
                authenticators.push((public_key.clone(), signature.clone()));
                assert(authenticators.deep_view() =~~= pre.push((public_key@, signature@)));
                assert(authenticators.deep_view() =~~= spec_zkid_authenticators(taken));
            },
            _ => {
                proof {
                    assert(authenticators.deep_view() =~~= spec_zkid_authenticators(taken));
                }
            },
        }
        i += 1;
    }
    proof {
        assert(transaction.authenticators@.take(transaction.authenticators@.len() as int)
            =~= transaction.authenticators@);
    }
    Ok(authenticators)
}


/// The identity commitment is a pure function: two computations over
/// identical (audience, uid key, uid value, pepper) inputs yield identical
/// commitments.
pub proof fn lemma_commit_deterministic(
    aud: Seq<char>,
    uid_key: Seq<char>,
    uid_val: Seq<char>,
    pepper: Seq<u8>,
    r1: Seq<u8>,
    r2: Seq<u8>,
)
    requires
        r1 == IdCommitment::spec_idc(aud, uid_key, uid_val, pepper),
        r2 == IdCommitment::spec_idc(aud, uid_key, uid_val, pepper),
    ensures
        r1 == r2,
{
}

/// The nonce is a deterministic function of the ephemeral key, the expiry and
/// the blinder: two reconstructions over identical inputs yield identical
/// nonce text.
pub proof fn lemma_nonce_deterministic(
    epk: Seq<u8>,
    exp: u64,
    blinder: Seq<u8>,
    r1: Seq<char>,
    r2: Seq<char>,
)
    requires
        r1 == spec_nonce(epk, exp, blinder),
        r2 == spec_nonce(epk, exp, blinder),
    ensures
        r1 == r2,
{
}

} // verus!
