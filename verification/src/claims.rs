//! Claims extraction: parsing a federated identity token's payload into plain
//! values, and the uid-claim resolution policy. The JSON lookups are
//! deterministic functions of the payload text, named so that every caller's
//! contract can speak of them.

use vstd::prelude::*;
use crate::errors::ZkIdError;
use crate::b64::{base64url_to_str, str_eq, spec_b64url_to_chars};

verus! {

/// The shape of an optional claim as found in the payload: a boolean, a plain
/// string, or any other kind of value.
#[derive(Clone, Debug, PartialEq, Eq)]
pub enum ClaimValue {
    Bool(bool),
    Text(String),
    Other,
}

/// The mathematical content of a `ClaimValue`.
pub enum ClaimValueModel {
    Bool(bool),
    Text(Seq<char>),
    Other,
}

impl View for ClaimValue {
    type V = ClaimValueModel;

    open spec fn view(&self) -> ClaimValueModel {
        match self {
            ClaimValue::Bool(b) => ClaimValueModel::Bool(*b),
            ClaimValue::Text(s) => ClaimValueModel::Text(s@),
            ClaimValue::Other => ClaimValueModel::Other,
        }
    }
}

/// What looking up a top-level field that holds a plain string returns on a
/// JSON text: nothing when the text is not a JSON object, the field is absent,
/// or its value is not a string. A function of the text and the key alone.
pub uninterp spec fn json_str_claim_of(text: Seq<char>, key: Seq<char>) -> Option<Seq<char>>;

/// What looking up a top-level field that holds an unsigned integer returns
/// on a JSON text; nothing when absent or not such an integer.
pub uninterp spec fn json_u64_claim_of(text: Seq<char>, key: Seq<char>) -> Option<u64>;

/// What looking up a top-level field's shape returns on a JSON text: the
/// boolean or string it holds, another shape of value, or nothing when the
/// text is not a JSON object or the field is absent.
pub uninterp spec fn json_claim_kind_of(text: Seq<char>, key: Seq<char>) -> Option<ClaimValueModel>;

/// Relies on `serde_json::from_str::<Value>`, `Value::get` and `Value::as_str`:
/// the string held by the named top-level field of the JSON text, a
/// deterministic function of the text and the key alone.
#[verifier::external_body]
pub(crate) fn lookup_str_claim(text: &str, key: &str) -> (r: Option<String>)
    ensures
        r is Some <==> json_str_claim_of(text@, key@) is Some,
        r is Some ==> r.unwrap()@ == json_str_claim_of(text@, key@).unwrap(),
{
    let v: serde_json::Value = match serde_json::from_str(text) {
        Ok(v) => v,
        Err(_) => return None,
    };
    match v.get(key) {
        Some(x) => x.as_str().map(|s| s.to_string()),
        None => None,
    }
}

/// Relies on `serde_json::from_str::<Value>`, `Value::get` and `Value::as_u64`:
/// the unsigned integer held by the named top-level field, a deterministic
/// function of the text and the key alone.
#[verifier::external_body]
pub(crate) fn lookup_u64_claim(text: &str, key: &str) -> (r: Option<u64>)
    ensures
        r == json_u64_claim_of(text@, key@),
{
    let v: serde_json::Value = match serde_json::from_str(text) {
        Ok(v) => v,
        Err(_) => return None,
    };
    match v.get(key) {
        Some(x) => x.as_u64(),
        None => None,
    }
}

/// Relies on `serde_json::from_str::<Value>` and `Value::get`, telling a
/// boolean, a string and every other shape of value apart, one arm each; a
/// deterministic function of the text and the key alone.
#[verifier::external_body]
pub(crate) fn lookup_claim_value(text: &str, key: &str) -> (r: Option<ClaimValue>)
    ensures
        r is Some <==> json_claim_kind_of(text@, key@) is Some,
        r is Some ==> r.unwrap()@ == json_claim_kind_of(text@, key@).unwrap(),
{
    let v: serde_json::Value = match serde_json::from_str(text) {
        Ok(v) => v,
        Err(_) => return None,
    };
    match v.get(key) {
        None => None,
        Some(serde_json::Value::Bool(b)) => Some(ClaimValue::Bool(*b)),
        Some(serde_json::Value::String(s)) => Some(ClaimValue::Text(s.clone())),
        Some(_) => Some(ClaimValue::Other),
    }
}

/// A parsed token payload: the required fields, the optional email fields, and
/// the payload text itself for lookups of additional claims.
#[derive(Debug)]
pub struct Claims {
    pub iss: String,
    pub aud: String,
    pub sub: String,
    pub nonce: String,
    pub iat: u64,
    pub email: Option<String>,
    pub email_verified: Option<ClaimValue>,
    pub payload_json: String,
}

/// The mathematical content of a `Claims` value, without the payload text.
pub struct ClaimsModel {
    pub iss: Seq<char>,
    pub aud: Seq<char>,
    pub sub: Seq<char>,
    pub nonce: Seq<char>,
    pub iat: u64,
    pub email: Option<Seq<char>>,
    pub email_verified: Option<ClaimValueModel>,
}

impl Claims {
    /// The claims a value carries, as a model.
    pub open spec fn model(&self) -> ClaimsModel {
        ClaimsModel {
            iss: self.iss@,
            aud: self.aud@,
            sub: self.sub@,
            nonce: self.nonce@,
            iat: self.iat,
            email: match self.email {
                Some(e) => Some(e@),
                None => None,
            },
            email_verified: match self.email_verified {
                Some(v) => Some(v@),
                None => None,
            },
        }
    }
}

/// Whether the optional email claim is well-shaped on a payload text: absent,
/// or present and holding a plain string.
pub open spec fn email_claim_ok(text: Seq<char>) -> bool {
    match json_claim_kind_of(text, "email"@) {
        None => true,
        Some(k) => k is Text && json_str_claim_of(text, "email"@) is Some,
    }
}

/// The claims a JSON payload text denotes: nothing when a required field
/// (`iss`, `aud`, `sub`, `nonce`, `iat`) is absent or ill-shaped, or when a
/// present email claim is not a plain string.
pub open spec fn claims_model_of_text(text: Seq<char>) -> Option<ClaimsModel> {
    let iss = json_str_claim_of(text, "iss"@);
    let aud = json_str_claim_of(text, "aud"@);
    let sub = json_str_claim_of(text, "sub"@);
    let nonce = json_str_claim_of(text, "nonce"@);
    let iat = json_u64_claim_of(text, "iat"@);
    if iss is Some && aud is Some && sub is Some && nonce is Some && iat is Some
        && email_claim_ok(text) {
        Some(
            ClaimsModel {
                iss: iss.unwrap(),
                aud: aud.unwrap(),
                sub: sub.unwrap(),
                nonce: nonce.unwrap(),
                iat: iat.unwrap(),
                email: json_str_claim_of(text, "email"@),
                email_verified: json_claim_kind_of(text, "email_verified"@),
            },
        )
    } else {
        None
    }
}

/// Assembles a payload's parts into `Claims`: every required field must be
/// present; the email fields stay optional.
pub fn claims_from_parts(
    iss: Option<String>,
    aud: Option<String>,
    sub: Option<String>,
    nonce: Option<String>,
    iat: Option<u64>,
    email: Option<String>,
    email_verified: Option<ClaimValue>,
    payload_json: String,
) -> (r: Result<Claims, ZkIdError>)
    ensures
        r is Ok <==> iss is Some && aud is Some && sub is Some && nonce is Some && iat is Some,
        r is Ok ==> r.unwrap().iss == iss.unwrap(),
        r is Ok ==> r.unwrap().aud == aud.unwrap(),
        r is Ok ==> r.unwrap().sub == sub.unwrap(),
        r is Ok ==> r.unwrap().nonce == nonce.unwrap(),
        r is Ok ==> r.unwrap().iat == iat.unwrap(),
        r is Ok ==> r.unwrap().email == email,
        r is Ok ==> r.unwrap().email_verified == email_verified,
        r is Ok ==> r.unwrap().payload_json == payload_json,
        r is Err ==> r.unwrap_err() == ZkIdError::ClaimsParseError,
{
    match (iss, aud, sub, nonce, iat) {
        (Some(iss), Some(aud), Some(sub), Some(nonce), Some(iat)) => Ok(
            Claims { iss, aud, sub, nonce, iat, email, email_verified, payload_json },
        ),
        _ => Err(ZkIdError::ClaimsParseError),
    }
}

/// Parses a federated identity token's payload: base64url text carrying a
/// JSON object whose required top-level fields are `iss`, `aud`, `sub`,
/// `nonce` and `iat` (integer seconds), with optional `email` (a string when
/// present) and `email_verified`. Succeeds exactly when the text decodes and
/// denotes such claims, and then returns exactly those claims.
pub fn parse_claims(jwt_payload_b64url: &str) -> (r: Result<Claims, ZkIdError>)
    ensures
        match spec_b64url_to_chars(jwt_payload_b64url@) {
            Some(text) => {
                &&& (r is Ok <==> claims_model_of_text(text) is Some)
                &&& (r is Ok ==> r.unwrap().model() == claims_model_of_text(text).unwrap())
                &&& (r is Ok ==> r.unwrap().payload_json@ == text)
            },
            None => r is Err,
        },
        r is Err ==> r.unwrap_err() == ZkIdError::ClaimsParseError,
{
    let json_text = match base64url_to_str(jwt_payload_b64url) {
        Ok(s) => s,
        Err(e) => {
            return Err(e);
        },
    };
    let text = json_text.as_str();
    let iss = lookup_str_claim(text, "iss");
    let aud = lookup_str_claim(text, "aud");
    let sub = lookup_str_claim(text, "sub");
    let nonce = lookup_str_claim(text, "nonce");
    let iat = lookup_u64_claim(text, "iat");
    let email = lookup_str_claim(text, "email");
    let email_verified = lookup_claim_value(text, "email_verified");
    let email_kind = lookup_claim_value(text, "email");
    let email_present_not_string = match (&email_kind, &email) {
        (Some(ClaimValue::Text(_)), Some(_)) => false,
        (Some(_), _) => true,
        (None, _) => false,
    };
    if email_present_not_string {
        return Err(ZkIdError::ClaimsParseError);
    }
    claims_from_parts(iss, aud, sub, nonce, iat, email, email_verified, json_text)
}

/// Whether the email-verified claim counts as truthy: a boolean is taken as
/// it is; of strings, exactly the literal "true" counts (so the string
/// "false" parses but stays false, and so does any other string); any other
/// shape of value, or a missing claim, is not truthy.
pub open spec fn spec_truthy(v: Option<ClaimValueModel>) -> bool {
    match v {
        Some(ClaimValueModel::Bool(b)) => b,
        Some(ClaimValueModel::Text(s)) => s == "true"@,
        Some(ClaimValueModel::Other) => false,
        None => false,
    }
}

/// The reserved top-level claim names that the open additional-claims map
/// never holds (besides `sub` and `email`, which are resolved directly).
pub open spec fn is_reserved_claim(key: Seq<char>) -> bool {
    ||| key == "iss"@
    ||| key == "aud"@
    ||| key == "nonce"@
    ||| key == "iat"@
    ||| key == "email_verified"@
}

impl Claims {
    /// The truthiness rule for `email_verified`.
    pub open spec fn spec_email_verified_truthy(&self) -> bool {
        spec_truthy(self.model().email_verified)
    }

    /// Resolves the user-identifier value that `uid_key` selects: `sub` maps
    /// to the subject claim; `email` maps to the email claim, owed only when
    /// the email-verified claim is truthy; any other key names an additional
    /// claim of the payload — never a reserved top-level name — which must be
    /// present and hold a plain string.
    pub fn get_uid_val(&self, uid_key: &String) -> (r: Result<String, ZkIdError>)
        ensures
            uid_key@ == "sub"@ ==> r is Ok && r.unwrap()@ == self.sub@,
            uid_key@ == "email"@ ==> ((r is Ok <==> self.spec_email_verified_truthy()
                && self.email is Some) && (r is Ok ==> r.unwrap()@
                == self.email.unwrap()@)),
            (uid_key@ != "sub"@ && uid_key@ != "email"@) ==> ((r is Ok <==> !is_reserved_claim(
                uid_key@,
            ) && json_str_claim_of(self.payload_json@, uid_key@) is Some) && (r is Ok
                ==> r.unwrap()@ == json_str_claim_of(self.payload_json@, uid_key@).unwrap())),
            r is Err ==> r.unwrap_err() == ZkIdError::ClaimsPolicyError,
    {
        proof {
            reveal_strlit("sub");
            reveal_strlit("email");
            reveal_strlit("iss");
            reveal_strlit("aud");
            reveal_strlit("nonce");
            reveal_strlit("iat");
            reveal_strlit("email_verified");
            assert("sub"@.len() == 3);
            assert("email"@.len() == 5);
        }
        if str_eq(uid_key.as_str(), "email") {
            let truthy = match &self.email_verified {
                Some(ClaimValue::Bool(b)) => *b,
                Some(ClaimValue::Text(s)) => str_eq(s.as_str(), "true"),
                Some(ClaimValue::Other) => false,
                None => false,
            };
            if truthy {
                match &self.email {
                    Some(e) => Ok(e.clone()),
                    None => Err(ZkIdError::ClaimsPolicyError),
                }
            } else {
                Err(ZkIdError::ClaimsPolicyError)
            }
        } else if str_eq(uid_key.as_str(), "sub") {
            Ok(self.sub.clone())
        } else if str_eq(uid_key.as_str(), "iss") || str_eq(uid_key.as_str(), "aud") || str_eq(
            uid_key.as_str(),
            "nonce",
        ) || str_eq(uid_key.as_str(), "iat") || str_eq(uid_key.as_str(), "email_verified") {
            Err(ZkIdError::ClaimsPolicyError)
        } else {
            uid_val_from_lookup(lookup_str_claim(self.payload_json.as_str(), uid_key.as_str()))
        }
    }
}

/// The additional-claim leg of uid-value resolution, over the result of the
/// payload lookup: the named claim must be present and hold a plain string.
pub fn uid_val_from_lookup(lookup: Option<String>) -> (r: Result<String, ZkIdError>)
    ensures
        r is Ok <==> lookup is Some,
        r is Ok ==> r.unwrap() == lookup.unwrap(),
        r is Err ==> r.unwrap_err() == ZkIdError::ClaimsPolicyError,
{
    match lookup {
        Some(v) => Ok(v),
        None => Err(ZkIdError::ClaimsPolicyError),
    }
}

} // verus!
