use base64::Engine;
use zkid::claims::ClaimValue;
use zkid::errors::ZkIdError;
use zkid::validator_txn::{Topic, ValidatorTransaction};
use zkid::zkid::{
    get_zkid_authenticators, AnyPublicKey, AnySignature, CurrentTimeMicroseconds,
    EphemeralPublicKey, EphemeralSignature, Groth16Zkp, IdCommitment, OpenIdSig, Pepper,
    ProviderKey, SignedTransaction, SingleKeyAuthenticator, ZkIdPublicKey, ZkIdSignature,
    ZkpOrOpenIdSig, ZkpVerifier, MAX_EXPIRY_HORIZON_SECS,
};

const ISS: &str = "https://accounts.example.com";
const AUD: &str = "test_client_id";

fn b64url_nopad(bytes: &[u8]) -> String {
    base64::engine::general_purpose::URL_SAFE_NO_PAD.encode(bytes)
}

fn pepper() -> Pepper {
    Pepper::new([7u8; 32])
}

fn epk() -> EphemeralPublicKey {
    EphemeralPublicKey::new(vec![0x20; 34])
}

fn open_id_sig(jwt_payload: String, uid_key: &str) -> OpenIdSig {
    OpenIdSig {
        jwt_sig: "c2lnbmF0dXJl".to_string(),
        jwt_payload,
        uid_key: uid_key.to_string(),
        epk_blinder: [3u8; 32],
        pepper: pepper(),
    }
}

/// A token payload for the given claims, nonce included, base64url-encoded.
fn payload_b64(iss: &str, sub: &str, nonce: &str, iat: u64, extra: &str) -> String {
    let json = format!(
        "{{\"iss\":\"{}\",\"aud\":\"{}\",\"sub\":\"{}\",\"nonce\":\"{}\",\"iat\":{}{}}}",
        iss, AUD, sub, nonce, iat, extra
    );
    b64url_nopad(json.as_bytes())
}

/// A public key whose commitment matches (AUD, uid_key, uid_val, pepper).
fn public_key_for(uid_key: &str, uid_val: &str) -> ZkIdPublicKey {
    let idc = IdCommitment::new_from_preimage(AUD, uid_key, uid_val, &pepper()).unwrap();
    ZkIdPublicKey { iss: ISS.to_string(), idc }
}

struct AcceptAllKey;

impl ProviderKey for AcceptAllKey {
    fn verify_signature(&self, _jwt_token: &str) -> bool {
        true
    }
}

struct RejectAllKey;

impl ProviderKey for RejectAllKey {
    fn verify_signature(&self, _jwt_token: &str) -> bool {
        false
    }
}

/// Accepts exactly when the public inputs have the expected shape: four
/// entries whose last is the little-endian expiry.
struct ShapeCheckingVerifier {
    exp: u64,
}

impl ZkpVerifier for ShapeCheckingVerifier {
    fn verify_proof(&self, _proof: &Groth16Zkp, public_inputs: &Vec<Vec<u8>>) -> bool {
        public_inputs.len() == 4 && public_inputs[3] == self.exp.to_le_bytes().to_vec()
    }
}

fn valid_signature(exp: u64, iat: u64) -> (ZkIdSignature, ZkIdPublicKey) {
    let sig = open_id_sig(String::new(), "sub");
    let nonce = sig.reconstruct_oauth_nonce(exp, &epk()).unwrap();
    let sig = open_id_sig(payload_b64(ISS, "123", &nonce, iat, ""), "sub");
    let pk = public_key_for("sub", "123");
    let zk_sig = ZkIdSignature {
        sig: ZkpOrOpenIdSig::OpenIdSig(sig),
        jwt_header: b64url_nopad(b"{\"kid\":\"k1\",\"alg\":\"RS256\"}"),
        exp_timestamp_secs: exp,
        ephemeral_pubkey: epk(),
        ephemeral_signature: EphemeralSignature { bytes: vec![9u8; 64] },
    };
    (zk_sig, pk)
}

#[test]
fn commitment_is_deterministic_and_input_sensitive() {
    let a = IdCommitment::new_from_preimage(AUD, "sub", "123", &pepper()).unwrap();
    let b = IdCommitment::new_from_preimage(AUD, "sub", "123", &pepper()).unwrap();
    assert_eq!(a, b);
    let other_aud = IdCommitment::new_from_preimage("other_client", "sub", "123", &pepper()).unwrap();
    let other_key = IdCommitment::new_from_preimage(AUD, "email", "123", &pepper()).unwrap();
    let other_val = IdCommitment::new_from_preimage(AUD, "sub", "124", &pepper()).unwrap();
    let other_pepper = IdCommitment::new_from_preimage(AUD, "sub", "123", &Pepper::new([8u8; 32])).unwrap();
    assert_ne!(a, other_aud);
    assert_ne!(a, other_key);
    assert_ne!(a, other_val);
    assert_ne!(a, other_pepper);
    // The commitment is a hash output, not the pepper handed back.
    assert_ne!(a.to_bytes(), pepper().to_bytes().to_vec());
}

#[test]
fn nonce_is_deterministic_and_expiry_sensitive() {
    let sig = open_id_sig(String::new(), "sub");
    let n1 = sig.reconstruct_oauth_nonce(2000, &epk()).unwrap();
    let n2 = sig.reconstruct_oauth_nonce(2000, &epk()).unwrap();
    let n3 = sig.reconstruct_oauth_nonce(2001, &epk()).unwrap();
    assert_eq!(n1, n2);
    assert_ne!(n1, n3);
    // 32 hash bytes encode to 43 base64url characters without padding.
    assert_eq!(n1.len(), 43);
    assert!(!n1.contains('='));
}

#[test]
fn commitment_length_boundaries() {
    let at_bound = "a".repeat(248);
    let over_bound = "a".repeat(249);
    assert!(IdCommitment::new_from_preimage(&at_bound, "sub", "123", &pepper()).is_ok());
    assert_eq!(
        IdCommitment::new_from_preimage(&over_bound, "sub", "123", &pepper()).unwrap_err(),
        ZkIdError::HashingError
    );
    assert_eq!(
        IdCommitment::new_from_preimage(AUD, &over_bound, "123", &pepper()).unwrap_err(),
        ZkIdError::HashingError
    );
    assert_eq!(
        IdCommitment::new_from_preimage(AUD, "sub", &over_bound, &pepper()).unwrap_err(),
        ZkIdError::HashingError
    );
}

#[test]
fn nonce_epk_length_boundaries() {
    let sig = open_id_sig(String::new(), "sub");
    let at_bound = EphemeralPublicKey::new(vec![1u8; 93]);
    let over_bound = EphemeralPublicKey::new(vec![1u8; 94]);
    assert!(sig.reconstruct_oauth_nonce(2000, &at_bound).is_ok());
    assert_eq!(
        sig.reconstruct_oauth_nonce(2000, &over_bound).unwrap_err(),
        ZkIdError::EncodingError
    );
}

#[test]
fn id_commitment_round_trip() {
    let idc = IdCommitment::new_from_preimage(AUD, "sub", "123", &pepper()).unwrap();
    let bytes = idc.to_bytes();
    assert_eq!(bytes.len(), 32);
    let back = IdCommitment::try_from_bytes(&bytes).unwrap();
    assert_eq!(idc, back);
    assert_eq!(
        IdCommitment::try_from_bytes(&bytes[..31]).unwrap_err(),
        ZkIdError::DeserializationError
    );
}

#[test]
fn public_key_round_trip() {
    for iss in ["", ISS, &"i".repeat(248)] {
        let pk = ZkIdPublicKey {
            iss: iss.to_string(),
            idc: IdCommitment::new_from_preimage(AUD, "sub", "123", &pepper()).unwrap(),
        };
        let bytes = pk.to_bytes();
        let back = ZkIdPublicKey::try_from_bytes(&bytes).unwrap();
        assert_eq!(pk, back);
        // A trailing byte is rejected.
        let mut longer = bytes.clone();
        longer.push(0);
        assert_eq!(
            ZkIdPublicKey::try_from_bytes(&longer).unwrap_err(),
            ZkIdError::DeserializationError
        );
        // A truncated encoding is rejected.
        assert_eq!(
            ZkIdPublicKey::try_from_bytes(&bytes[..bytes.len() - 1]).unwrap_err(),
            ZkIdError::DeserializationError
        );
    }
}

#[test]
fn signature_round_trip_open_id_path() {
    let (zk_sig, _) = valid_signature(2000, 1000);
    let bytes = zk_sig.to_bytes();
    let back = ZkIdSignature::try_from_bytes(&bytes).unwrap();
    assert_eq!(zk_sig, back);
}

#[test]
fn signature_round_trip_zkp_path() {
    let proof = Groth16Zkp {
        a: vec!["1".to_string(), "2".to_string()],
        b: vec![
            vec!["3".to_string(), "4".to_string()],
            vec!["5".to_string(), "6".to_string()],
        ],
        c: vec!["7".to_string(), "8".to_string()],
    };
    let zk_sig = ZkIdSignature {
        sig: ZkpOrOpenIdSig::Groth16Zkp(proof),
        jwt_header: String::new(),
        exp_timestamp_secs: u64::MAX,
        ephemeral_pubkey: EphemeralPublicKey::new(Vec::new()),
        ephemeral_signature: EphemeralSignature { bytes: Vec::new() },
    };
    let bytes = zk_sig.to_bytes();
    let back = ZkIdSignature::try_from_bytes(&bytes).unwrap();
    assert_eq!(zk_sig, back);
    assert_eq!(
        ZkIdSignature::try_from_bytes(&bytes[..bytes.len() - 1]).unwrap_err(),
        ZkIdError::DeserializationError
    );
}

#[test]
fn verify_claims_accepts_sub_token() {
    let sig = open_id_sig(String::new(), "sub");
    let nonce = sig.reconstruct_oauth_nonce(2000, &epk()).unwrap();
    let sig = open_id_sig(payload_b64(ISS, "123", &nonce, 1000, ""), "sub");
    let pk = public_key_for("sub", "123");
    assert!(sig.verify_jwt_claims(2000, &epk(), &pk).is_ok());
}

#[test]
fn verify_claims_rejects_unverified_email() {
    let probe = open_id_sig(String::new(), "email");
    let nonce = probe.reconstruct_oauth_nonce(2000, &epk()).unwrap();
    let extra = ",\"email\":\"bob@example.com\",\"email_verified\":\"false\"";
    let sig = open_id_sig(payload_b64(ISS, "123", &nonce, 1000, extra), "email");
    let pk = public_key_for("email", "bob@example.com");
    assert_eq!(
        sig.verify_jwt_claims(2000, &epk(), &pk).unwrap_err(),
        ZkIdError::ClaimsPolicyError
    );
}

#[test]
fn verify_claims_accepts_verified_email() {
    let probe = open_id_sig(String::new(), "email");
    let nonce = probe.reconstruct_oauth_nonce(2000, &epk()).unwrap();
    for extra in [
        ",\"email\":\"bob@example.com\",\"email_verified\":true",
        ",\"email\":\"bob@example.com\",\"email_verified\":\"true\"",
    ] {
        let sig = open_id_sig(payload_b64(ISS, "123", &nonce, 1000, extra), "email");
        let pk = public_key_for("email", "bob@example.com");
        assert!(sig.verify_jwt_claims(2000, &epk(), &pk).is_ok());
    }
}

#[test]
fn verify_claims_expiry_horizon_is_inclusive() {
    let iat: u64 = 1000;
    let at_horizon = iat + MAX_EXPIRY_HORIZON_SECS;
    let over_horizon = iat + MAX_EXPIRY_HORIZON_SECS + 1;

    let probe = open_id_sig(String::new(), "sub");
    let nonce = probe.reconstruct_oauth_nonce(at_horizon, &epk()).unwrap();
    let sig = open_id_sig(payload_b64(ISS, "123", &nonce, iat, ""), "sub");
    let pk = public_key_for("sub", "123");
    assert!(sig.verify_jwt_claims(at_horizon, &epk(), &pk).is_ok());

    let nonce = probe.reconstruct_oauth_nonce(over_horizon, &epk()).unwrap();
    let sig = open_id_sig(payload_b64(ISS, "123", &nonce, iat, ""), "sub");
    assert_eq!(
        sig.verify_jwt_claims(over_horizon, &epk(), &pk).unwrap_err(),
        ZkIdError::ClaimsPolicyError
    );
}

#[test]
fn verify_claims_rejects_issuer_mismatch() {
    let probe = open_id_sig(String::new(), "sub");
    let nonce = probe.reconstruct_oauth_nonce(2000, &epk()).unwrap();
    let sig = open_id_sig(
        payload_b64("https://rogue.example.com", "123", &nonce, 1000, ""),
        "sub",
    );
    let pk = public_key_for("sub", "123");
    assert_eq!(
        sig.verify_jwt_claims(2000, &epk(), &pk).unwrap_err(),
        ZkIdError::ClaimsPolicyError
    );
}

#[test]
fn verify_claims_rejects_tampered_nonce() {
    let probe = open_id_sig(String::new(), "sub");
    let nonce = probe.reconstruct_oauth_nonce(2000, &epk()).unwrap();
    // Flip one character of the nonce.
    let mut tampered: Vec<char> = nonce.chars().collect();
    tampered[0] = if tampered[0] == 'A' { 'B' } else { 'A' };
    let tampered: String = tampered.into_iter().collect();
    let sig = open_id_sig(payload_b64(ISS, "123", &tampered, 1000, ""), "sub");
    let pk = public_key_for("sub", "123");
    assert_eq!(
        sig.verify_jwt_claims(2000, &epk(), &pk).unwrap_err(),
        ZkIdError::ClaimsPolicyError
    );
}

#[test]
fn verify_claims_rejects_commitment_mismatch() {
    let probe = open_id_sig(String::new(), "sub");
    let nonce = probe.reconstruct_oauth_nonce(2000, &epk()).unwrap();
    let sig = open_id_sig(payload_b64(ISS, "123", &nonce, 1000, ""), "sub");
    // Commitment built over a different subject.
    let pk = public_key_for("sub", "999");
    assert_eq!(
        sig.verify_jwt_claims(2000, &epk(), &pk).unwrap_err(),
        ZkIdError::ClaimsPolicyError
    );
}

#[test]
fn verify_claims_rejects_custom_uid_key() {
    let probe = open_id_sig(String::new(), "sub");
    let nonce = probe.reconstruct_oauth_nonce(2000, &epk()).unwrap();
    let sig = open_id_sig(payload_b64(ISS, "123", &nonce, 1000, ""), "employee_id");
    let pk = public_key_for("employee_id", "123");
    assert_eq!(
        sig.verify_jwt_claims(2000, &epk(), &pk).unwrap_err(),
        ZkIdError::ClaimsPolicyError
    );
}

#[test]
fn parse_claims_rejects_malformed_input() {
    assert_eq!(
        zkid::claims::parse_claims("!!!not-base64!!!").unwrap_err(),
        ZkIdError::ClaimsParseError
    );
    // Valid base64url of JSON that misses the nonce claim.
    let payload = b64url_nopad(b"{\"iss\":\"a\",\"aud\":\"b\",\"sub\":\"c\",\"iat\":5}");
    assert_eq!(
        zkid::claims::parse_claims(&payload).unwrap_err(),
        ZkIdError::ClaimsParseError
    );
    // Valid base64url of text that is not JSON at all.
    let payload = b64url_nopad(b"plain text");
    assert_eq!(
        zkid::claims::parse_claims(&payload).unwrap_err(),
        ZkIdError::ClaimsParseError
    );
}

#[test]
fn parse_claims_reads_all_fields() {
    let payload = b64url_nopad(
        b"{\"iss\":\"i\",\"aud\":\"a\",\"sub\":\"s\",\"nonce\":\"n\",\"iat\":77,\
          \"email\":\"e@x\",\"email_verified\":true,\"dept\":\"sales\"}",
    );
    let claims = zkid::claims::parse_claims(&payload).unwrap();
    assert_eq!(claims.iss, "i");
    assert_eq!(claims.aud, "a");
    assert_eq!(claims.sub, "s");
    assert_eq!(claims.nonce, "n");
    assert_eq!(claims.iat, 77);
    assert_eq!(claims.email.as_deref(), Some("e@x"));
    assert_eq!(claims.email_verified, Some(ClaimValue::Bool(true)));
    // uid resolution over the parsed claims.
    assert_eq!(claims.get_uid_val(&"sub".to_string()).unwrap(), "s");
    assert_eq!(claims.get_uid_val(&"email".to_string()).unwrap(), "e@x");
    assert_eq!(claims.get_uid_val(&"dept".to_string()).unwrap(), "sales");
    assert_eq!(
        claims.get_uid_val(&"missing".to_string()).unwrap_err(),
        ZkIdError::ClaimsPolicyError
    );
    assert_eq!(
        claims.get_uid_val(&"iat".to_string()).unwrap_err(),
        ZkIdError::ClaimsPolicyError
    );
}

#[test]
fn parse_claims_rejects_nonstring_email() {
    let payload = b64url_nopad(
        b"{\"iss\":\"i\",\"aud\":\"a\",\"sub\":\"s\",\"nonce\":\"n\",\"iat\":77,\"email\":42}",
    );
    assert_eq!(
        zkid::claims::parse_claims(&payload).unwrap_err(),
        ZkIdError::ClaimsParseError
    );
}

#[test]
fn get_uid_val_screens_reserved_keys() {
    let payload = b64url_nopad(
        b"{\"iss\":\"i\",\"aud\":\"a\",\"sub\":\"s\",\"nonce\":\"n\",\"iat\":77}",
    );
    let claims = zkid::claims::parse_claims(&payload).unwrap();
    // Reserved top-level names never resolve through the additional-claims
    // leg, even though the payload holds them as strings.
    for key in ["iss", "aud", "nonce", "iat", "email_verified"] {
        assert_eq!(
            claims.get_uid_val(&key.to_string()).unwrap_err(),
            ZkIdError::ClaimsPolicyError
        );
    }
}

#[test]
fn verify_expiry_boundary_is_inclusive() {
    let (zk_sig, _) = valid_signature(2000, 1000);
    let exactly = CurrentTimeMicroseconds { microseconds: 2000 * 1_000_000 };
    let just_after = CurrentTimeMicroseconds { microseconds: 2000 * 1_000_000 + 1 };
    assert!(zk_sig.verify_expiry(&exactly).is_ok());
    assert_eq!(zk_sig.verify_expiry(&just_after).unwrap_err(), ZkIdError::Expired);
}

#[test]
fn verify_dispatches_open_id_path() {
    let (zk_sig, pk) = valid_signature(2000, 1000);
    let now = CurrentTimeMicroseconds { microseconds: 2000 * 1_000_000 };
    let late = CurrentTimeMicroseconds { microseconds: 2001 * 1_000_000 };
    let verifier = ShapeCheckingVerifier { exp: 2000 };
    assert!(zk_sig.verify(&now, &pk, &AcceptAllKey, &verifier).is_ok());
    assert_eq!(
        zk_sig.verify(&late, &pk, &AcceptAllKey, &verifier).unwrap_err(),
        ZkIdError::Expired
    );
    assert_eq!(
        zk_sig.verify(&now, &pk, &RejectAllKey, &verifier).unwrap_err(),
        ZkIdError::SignatureInvalid
    );
}

#[test]
fn verify_dispatches_zkp_path() {
    let proof = Groth16Zkp {
        a: vec!["1".to_string()],
        b: vec![vec!["2".to_string()]],
        c: vec!["3".to_string()],
    };
    let pk = public_key_for("sub", "123");
    let zk_sig = ZkIdSignature {
        sig: ZkpOrOpenIdSig::Groth16Zkp(proof),
        jwt_header: String::new(),
        exp_timestamp_secs: 2000,
        ephemeral_pubkey: epk(),
        ephemeral_signature: EphemeralSignature { bytes: Vec::new() },
    };
    let now = CurrentTimeMicroseconds { microseconds: 1_000_000 };
    assert!(zk_sig
        .verify(&now, &pk, &AcceptAllKey, &ShapeCheckingVerifier { exp: 2000 })
        .is_ok());
    assert_eq!(
        zk_sig
            .verify(&now, &pk, &AcceptAllKey, &ShapeCheckingVerifier { exp: 9999 })
            .unwrap_err(),
        ZkIdError::ProofInvalid
    );
}

#[test]
fn parse_jwt_header_reads_kid_and_alg() {
    let (zk_sig, _) = valid_signature(2000, 1000);
    let header = zk_sig.parse_jwt_header().unwrap();
    assert_eq!(header.kid, "k1");
    assert_eq!(header.alg, "RS256");
}

#[test]
fn authenticator_extraction_keeps_slot_order() {
    let (zk_sig, pk) = valid_signature(2000, 1000);
    let (zk_sig2, pk2) = valid_signature(3000, 1000);
    let tx = SignedTransaction {
        authenticators: vec![
            SingleKeyAuthenticator { public_key: AnyPublicKey::Other, signature: AnySignature::Other },
            SingleKeyAuthenticator {
                public_key: AnyPublicKey::ZkId { public_key: pk.clone() },
                signature: AnySignature::ZkId { signature: zk_sig.clone() },
            },
            SingleKeyAuthenticator {
                public_key: AnyPublicKey::ZkId { public_key: pk2.clone() },
                signature: AnySignature::Other,
            },
            SingleKeyAuthenticator {
                public_key: AnyPublicKey::ZkId { public_key: pk2.clone() },
                signature: AnySignature::ZkId { signature: zk_sig2.clone() },
            },
        ],
    };
    let pairs = get_zkid_authenticators(&tx).unwrap();
    assert_eq!(pairs.len(), 2);
    assert_eq!(pairs[0].0, pk);
    assert_eq!(pairs[0].1, zk_sig);
    assert_eq!(pairs[1].0, pk2);
    assert_eq!(pairs[1].1, zk_sig2);
    let empty = SignedTransaction { authenticators: Vec::new() };
    assert!(get_zkid_authenticators(&empty).unwrap().is_empty());
}

#[test]
fn pepper_from_number_is_little_endian() {
    let p = Pepper::from_number(258);
    let mut expected = [0u8; 32];
    expected[0] = 2;
    expected[1] = 1;
    assert_eq!(p.to_bytes(), &expected);
}

#[test]
fn validator_transaction_envelope() {
    let t1 = ValidatorTransaction::dummy1(vec![1, 2, 3]);
    let t2 = ValidatorTransaction::dummy2(vec![]);
    assert_eq!(t1.size_in_bytes(), 8);
    assert_eq!(t2.size_in_bytes(), 5);
    assert!(matches!(t1, ValidatorTransaction::DummyTopic1(_)));
    assert!(matches!(t2, ValidatorTransaction::DummyTopic2(_)));
    let topic = Topic::JWK_CONSENSUS(b"iss".to_vec());
    assert!(topic == Topic::JWK_CONSENSUS(b"iss".to_vec()));
    assert!(Topic::DKG != Topic::DUMMY1);
}

#[test]
fn error_messages_are_nonempty() {
    for e in [
        ZkIdError::ClaimsParseError,
        ZkIdError::ClaimsPolicyError,
        ZkIdError::HashingError,
        ZkIdError::EncodingError,
        ZkIdError::SignatureInvalid,
        ZkIdError::ProofInvalid,
        ZkIdError::Expired,
        ZkIdError::DeserializationError,
    ] {
        assert!(!e.message().is_empty());
    }
}
