use vstd::prelude::*;
use vstd::string::StrSliceExecFns;

verus! {

#[verifier::external_type_specification]
#[verifier::external_body]
pub struct ExDecodingKey(jsonwebtoken::DecodingKey);

#[verifier::external_type_specification]
#[verifier::external_body]
pub struct ExValidation(jsonwebtoken::Validation);

/// What token verification yields under this gate's policy: the
/// `preferred_username` claim of a token that verifies against the RSA
/// public key read from `pem`, and nothing for a token that is refused.
/// With the expiry and audience checks off, the outcome is a function of
/// the key and the token alone.
pub uninterp spec fn jwt_username_of(pem: Seq<char>, token: Seq<char>) -> Option<Seq<char>>;

/// The auth gate's verifier: a fixed RSA public key and a validation policy
/// that is deliberately lax — neither the expiry value nor the audience is
/// checked (an expiry claim must still be present, as the policy's defaults
/// ask). The PEM text the key was read from is kept alongside, in ghost
/// form, so that contracts can speak of it.
pub struct JWTChecker {
    key: jsonwebtoken::DecodingKey,
    validation: jsonwebtoken::Validation,
    pem: Ghost<Seq<char>>,
}

/// Relies on jsonwebtoken::DecodingKey::from_rsa_pem: turns a PEM-encoded
/// RSA public key into a decoding key; a malformed PEM yields nothing.
#[verifier::external_body]
fn decoding_key_from_rsa_pem(rsa_pub: &str) -> Option<jsonwebtoken::DecodingKey> {
    jsonwebtoken::DecodingKey::from_rsa_pem(rsa_pub.as_bytes()).ok()
}

/// Relies on jsonwebtoken::Validation::new: an RS256 validation policy with
/// the expiry-value and audience checks switched off on purpose; the claims
/// the policy requires to be present are left as `new` sets them.
#[verifier::external_body]
fn lax_rs256_validation() -> jsonwebtoken::Validation {
    let mut validation = jsonwebtoken::Validation::new(jsonwebtoken::Algorithm::RS256);
    validation.validate_exp = false;
    validation.validate_aud = false;
    validation
}

impl JWTChecker {
    /// The PEM text this checker's key was read from.
    pub closed spec fn spec_pem(&self) -> Seq<char> {
        self.pem@
    }

    /// Build a checker from a PEM-encoded RSA public key. A malformed key is
    /// refused here, at startup, rather than on the first request.
    pub fn new(rsa_pub: &str) -> (r: Option<JWTChecker>)
        ensures
            r matches Some(c) ==> c.spec_pem() == rsa_pub@,
    {
        match decoding_key_from_rsa_pem(rsa_pub) {
            Some(key) => Some(
                JWTChecker {
                    key,
                    validation: lax_rs256_validation(),
                    pem: Ghost(rsa_pub@),
                },
            ),
            None => None,
        }
    }

    /// The auth gate: a caller's identity comes only out of an
    /// `Authorization` value that carries the bearer prefix and whose token
    /// verifies under the checker's key; anything else is refused.
    pub fn decode_header(&self, header: &str) -> (r: Option<String>)
        ensures
            header@.len() < 7 ==> r is None,
            header@.len() >= 7 && header@.subrange(0, 7) != "Bearer "@ ==> r is None,
            header@.len() >= 7 && header@.subrange(0, 7) == "Bearer "@ ==> match r {
                Some(u) => jwt_username_of(
                    self.spec_pem(),
                    header@.subrange(7, header@.len() as int),
                ) == Some(u@),
                None => jwt_username_of(
                    self.spec_pem(),
                    header@.subrange(7, header@.len() as int),
                ) is None,
            },
    {
        let n = header.unicode_len();
        if n < 7 {
            return None;
        }
        let prefix = header.substring_char(0, 7);
        if !(prefix.to_owned() == "Bearer ".to_owned()) {
            return None;
        }
        let token = header.substring_char(7, n);
        self.decode(token)
    }

    /// Relies on jsonwebtoken::decode: verifies the token's signature with
    /// the checker's key under its policy and picks the `preferred_username`
    /// claim out of the claim set; a failed verification or a missing claim
    /// yields nothing. The outcome depends on the key and the token alone,
    /// which `jwt_username_of` names.
    #[verifier::external_body]
    pub fn decode(&self, token: &str) -> (r: Option<String>)
        ensures
            match r {
                Some(u) => jwt_username_of(self.spec_pem(), token@) == Some(u@),
                None => jwt_username_of(self.spec_pem(), token@) is None,
            },
    {
        match jsonwebtoken::decode::<serde_json::Value>(token, &self.key, &self.validation) {
            Ok(data) => match data.claims.get("preferred_username") {
                Some(v) => v.as_str().map(|s| s.to_owned()),
                None => None,
            },
            Err(_) => None,
        }
    }
}

} // verus!
