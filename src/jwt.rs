use vstd::prelude::*;

verus! {

/// Claims carried by a session token.
#[derive(Debug)]
pub struct Claims {
    /// Username of the person the token was issued to.
    pub sub: String,
    /// Domain of the issuing instance.
    pub iss: String,
    /// Issue time, seconds since the Unix epoch.
    pub iat: i64,
    /// Expiry time, seconds since the Unix epoch.
    pub exp: u64,
}

/// Claims as plain values: subject, issuer, issued-at, expiry.
pub type ClaimsModel = (Seq<char>, Seq<char>, int, int);

impl Claims {
    pub open spec fn model(&self) -> ClaimsModel {
        (self.sub@, self.iss@, self.iat as int, self.exp as int)
    }
}

/// The claims that `jsonwebtoken::decode` reads out of `token` when its
/// HS256 signature checks out under `secret`, or `None`.
pub uninterp spec fn jwt_claims(token: Seq<char>, secret: Seq<char>) -> Option<ClaimsModel>;

/// The token that `jsonwebtoken::encode` makes of the claims `c` with the
/// default HS256 header under `secret`.
pub uninterp spec fn jwt_token_of(c: ClaimsModel, secret: Seq<char>) -> Seq<char>;

/// Relies on `jsonwebtoken::encode` with the default HS256 header: with an
/// HMAC key and a JSON map of claims it does not fail, its token depends on
/// the claims and the secret alone, and that token decodes under the same
/// secret to the claims it was given.
#[verifier::external_body]
pub(crate) fn encode_claims(c: &Claims, secret: &str) -> (r: Option<String>)
    ensures
        r is Some,
        r matches Some(t) ==> t@ == jwt_token_of(c.model(), secret@),
        r matches Some(t) ==> jwt_claims(t@, secret@) == Some(c.model()),
{
    let mut m = serde_json::Map::new();
    m.insert("sub".to_string(), c.sub.clone().into());
    m.insert("iss".to_string(), c.iss.clone().into());
    m.insert("iat".to_string(), c.iat.into());
    m.insert("exp".to_string(), c.exp.into());
    let key = jsonwebtoken::EncodingKey::from_secret(secret.as_bytes());
    jsonwebtoken::encode(&jsonwebtoken::Header::default(), &m, &key).ok()
}

/// Relies on `jsonwebtoken::decode` with HS256 and the expiry check left to
/// the caller: the outcome depends on the token and the secret alone.
#[verifier::external_body]
pub(crate) fn decode_claims(token: &str, secret: &str) -> (r: Option<Claims>)
    ensures
        r matches Some(c) ==> jwt_claims(token@, secret@) == Some(c.model()),
        r is None ==> jwt_claims(token@, secret@) is None,
{
    let mut validation = jsonwebtoken::Validation::default();
    validation.validate_exp = false;
    let key = jsonwebtoken::DecodingKey::from_secret(secret.as_bytes());
    let data = jsonwebtoken::decode::<serde_json::Map<String, serde_json::Value>>(token, &key, &validation);
    let m = data.ok()?.claims;
    Some(Claims {
        sub: m.get("sub")?.as_str()?.to_string(),
        iss: m.get("iss")?.as_str()?.to_string(),
        iat: m.get("iat")?.as_i64()?,
        exp: m.get("exp")?.as_u64()?,
    })
}

} // verus!
