//! The dual authentication model.
//!
//! Privileged bulk administration presents a bearer token, checked
//! cryptographically by the outside JWT library and then compared against
//! the expected claims injected at startup.  End-user writes present a
//! per-write signature; the signing library is consumed as an outside
//! capability whose verdict this module turns into the service's
//! authentication outcome.

use vstd::prelude::*;

use crate::error::AuthError;

verus! {

use jsonwebtoken::{decode, Algorithm, DecodingKey, Validation};


/// The claims carried by a service token.
#[derive(Clone, Debug, PartialEq, Eq, Hash)]
pub struct Claims {
    pub sub: String,
    pub company: String,
    pub exp: u64,
}

/// Spec-level shape of `Claims`.
pub struct ClaimsSpec {
    pub sub: Seq<char>,
    pub company: Seq<char>,
    pub exp: u64,
}

impl View for Claims {
    type V = ClaimsSpec;

    open spec fn view(&self) -> ClaimsSpec {
        ClaimsSpec { sub: self.sub@, company: self.company@, exp: self.exp }
    }
}

/// The claims a privileged token must present, injected at startup.  The
/// expiry bound is optional: when present, the decoded expiry must equal it
/// exactly; the decoder additionally rejects tokens whose expiry has passed.
#[derive(Clone, Debug, PartialEq, Eq, Hash)]
pub struct ExpectedClaims {
    pub sub: String,
    pub company: String,
    pub exp: Option<u64>,
}

/// Spec-level shape of `ExpectedClaims`.
pub struct ExpectedClaimsSpec {
    pub sub: Seq<char>,
    pub company: Seq<char>,
    pub exp: Option<u64>,
}

impl View for ExpectedClaims {
    type V = ExpectedClaimsSpec;

    open spec fn view(&self) -> ExpectedClaimsSpec {
        ExpectedClaimsSpec { sub: self.sub@, company: self.company@, exp: self.exp }
    }
}

/// Decoded claims match the expected ones: subject and company exactly, and
/// the expiry exactly where the expected claims pin one.
pub open spec fn spec_claims_match(c: ClaimsSpec, e: ExpectedClaimsSpec) -> bool {
    &&& c.sub == e.sub
    &&& c.company == e.company
    &&& (e.exp matches Some(x) ==> c.exp == x)
}

/// What the token check needs: the verification key and the expected claims.
#[derive(Clone, Debug, PartialEq, Eq)]
pub struct JwtDetails {
    /// PEM form of the fixed public key tokens are checked against.
    pub public_key_pem: Vec<u8>,
    /// The claims a valid token must carry.
    pub expected: ExpectedClaims,
}

/// The bearer-token gate in front of privileged operations.
#[derive(Clone, Debug, PartialEq, Eq)]
pub struct JwtInterceptor {
    pub jwt_details: JwtDetails,
}

/// Bytes of `Bearer `, the optional scheme prefix of the header value.
pub open spec fn bearer_prefix() -> Seq<u8> {
    seq![66u8, 101, 97, 114, 101, 114, 32]
}

/// The header value with one optional `Bearer ` prefix removed.
pub open spec fn spec_strip_bearer(h: Seq<u8>) -> Seq<u8> {
    if h.len() >= 7 && h.take(7) == bearer_prefix() {
        h.skip(7)
    } else {
        h
    }
}

/// Remove one optional `Bearer ` prefix from a header value.
pub fn strip_bearer(header: &[u8]) -> (r: &[u8])
    ensures
        r@ == spec_strip_bearer(header@),
{
    let n = header.len();
    if n >= 7
        && *vstd::slice::slice_index_get(header, 0) == 66
        && *vstd::slice::slice_index_get(header, 1) == 101
        && *vstd::slice::slice_index_get(header, 2) == 97
        && *vstd::slice::slice_index_get(header, 3) == 114
        && *vstd::slice::slice_index_get(header, 4) == 101
        && *vstd::slice::slice_index_get(header, 5) == 114
        && *vstd::slice::slice_index_get(header, 6) == 32 {
        proof {
            assert(header@.take(7) =~= bearer_prefix());
        }
        vstd::slice::slice_subrange(header, 7, n)
    } else {
        proof {
            if header@.len() >= 7 && header@.take(7) == bearer_prefix() {
                assert(header@[0] == header@.take(7)[0]);
                assert(header@[1] == header@.take(7)[1]);
                assert(header@[2] == header@.take(7)[2]);
                assert(header@[3] == header@.take(7)[3]);
                assert(header@[4] == header@.take(7)[4]);
                assert(header@[5] == header@.take(7)[5]);
                assert(header@[6] == header@.take(7)[6]);
            }
        }
        header
    }
}

/// Decide a decoded token: a decode failure is a malformed token, decoded
/// claims that differ from the expected ones are an invalid token.
pub fn evaluate_decoded_token(decoded: &Result<Claims, ()>, expected: &ExpectedClaims) -> (r:
    Result<(), AuthError>)
    ensures
        decoded matches Err(_) ==> r == Err::<(), AuthError>(AuthError::TokenMalformed),
        decoded matches Ok(c) && spec_claims_match(c@, expected@) ==> r is Ok,
        decoded matches Ok(c) && !spec_claims_match(c@, expected@)
            ==> r == Err::<(), AuthError>(AuthError::TokenInvalid),
{
    match decoded {
        Err(_) => Err(AuthError::TokenMalformed),
        Ok(c) => {
            let exp_ok = match expected.exp {
                Some(x) => c.exp == x,
                None => true,
            };
            if c.sub == expected.sub && c.company == expected.company && exp_ok {
                Ok(())
            } else {
                Err(AuthError::TokenInvalid)
            }
        },
    }
}

impl JwtInterceptor {
    pub fn new(jwt_details: JwtDetails) -> (r: JwtInterceptor)
        ensures
            r.jwt_details == jwt_details,
    {
        JwtInterceptor { jwt_details }
    }

    /// Check one bearer token (already stripped of its scheme prefix).
    ///
    /// The cryptographic outcome rests with the outside decoder, so success
    /// is not promised for any input; but a failure is always a malformed or
    /// an invalid token, and a token whose decoded claims differ from the
    /// expected ones is never accepted silently under another error.
    pub fn verify_token(&self, token: &[u8]) -> (r: Result<(), AuthError>)
        ensures
            r matches Err(e) ==> (e == AuthError::TokenMalformed || e == AuthError::TokenInvalid),
    {
        let decoded = decode_token_claims(token, &self.jwt_details.public_key_pem);
        evaluate_decoded_token(&decoded, &self.jwt_details.expected)
    }

    /// Check an optional authorization header: a missing header is a missing
    /// token; otherwise the optional `Bearer ` prefix is stripped and the
    /// token checked.
    pub fn check_auth(&self, header: Option<&Vec<u8>>) -> (r: Result<(), AuthError>)
        ensures
            (header matches None <==> r == Err::<(), AuthError>(AuthError::TokenMissing)),
            r matches Err(e) ==> (e == AuthError::TokenMissing || e == AuthError::TokenMalformed
                || e == AuthError::TokenInvalid),
    {
        match header {
            None => Err(AuthError::TokenMissing),
            Some(h) => {
                let token = strip_bearer(h.as_slice());
                self.verify_token(token)
            },
        }
    }
}

/// The per-write signature gate.  The identity-signing library is consumed
/// as an outside capability judging the signature over the canonical message
/// for the claimed principal; this check turns its verdict into the
/// service's authentication outcome.
pub fn signature_auth(verified: bool) -> (r: Result<(), AuthError>)
    ensures
        verified <==> r is Ok,
        !verified ==> r == Err::<(), AuthError>(AuthError::InvalidSignature),
{
    if verified {
        Ok(())
    } else {
        Err(AuthError::InvalidSignature)
    }
}

/// Relies on `jsonwebtoken::decode` (with `DecodingKey::from_ed_pem` and
/// `Validation::new(Algorithm::EdDSA)`): verifies the token's EdDSA
/// signature against the public key and its expiry against the clock, then
/// hands back the decoded claims.  The outcome depends on the clock, so
/// nothing is promised beyond the shape; the caller decides from whatever
/// came back.
#[verifier::external_body]
fn decode_token_claims(token: &[u8], public_key_pem: &[u8]) -> (r: Result<Claims, ()>) {
    let s = core::str::from_utf8(token).map_err(|_| ())?;
    let key = DecodingKey::from_ed_pem(public_key_pem).map_err(|_| ())?;
    let v = Validation::new(Algorithm::EdDSA);
    let data = decode::<serde_json::Value>(s, &key, &v).map_err(|_| ())?;
    let sub = data.claims.get("sub").and_then(|v| v.as_str()).ok_or(())?.to_string();
    let company = data.claims.get("company").and_then(|v| v.as_str()).ok_or(())?.to_string();
    let exp = data.claims.get("exp").and_then(|v| v.as_u64()).ok_or(())?;
    Ok(Claims { sub, company, exp })
}

} // verus!
