use crate::auth::jwt::{base64url_decoded, middle_of_three};
use crate::json::{
    json_document, json_of_value, lemma_object_view, members_view, value_content, value_of_json,
    Json, JsonValue,
};
use crate::text::texts;
use jsonwebtoken::{DecodingKey, EncodingKey, Header, Validation};
use serde_json::Value;
use vstd::prelude::*;

verus! {

/// The claims of a development token.
#[derive(Debug, Clone, PartialEq, Eq)]
pub struct TestClaims {
    pub sub: String,
    pub roles: Vec<String>,
    pub exp: i64,
    pub iat: i64,
}

/// The mathematical value of `TestClaims`.
pub struct TestClaimsView {
    pub sub: Seq<char>,
    pub roles: Seq<Seq<char>>,
    pub exp: i64,
    pub iat: i64,
}

impl View for TestClaims {
    type V = TestClaimsView;

    open spec fn view(&self) -> TestClaimsView {
        TestClaimsView { sub: self.sub@, roles: texts(self.roles@), exp: self.exp, iat: self.iat }
    }
}

/// The value of claims that may be missing.
pub open spec fn optional_view(claims: Option<TestClaims>) -> Option<TestClaimsView> {
    match claims {
        Some(claims) => Some(claims@),
        None => None,
    }
}

/// Why no development token came out, or why one was not accepted.
#[derive(Debug, Clone, Copy, PartialEq, Eq, Structural)]
pub enum TestTokenError {
    /// The token is not one that was signed with the development secret and is still valid.
    Rejected,
    /// The token's payload does not hold development claims.
    ClaimsMalformed,
    /// An hour from the time given is past the last second that can be written down.
    ClockOutOfRange,
    /// The claims could not be signed.
    SigningFailed,
}

/// The secret that development tokens are signed with.
pub open spec fn dev_secret() -> Seq<char> {
    "test-secret-key-for-local-development"@
}

/// The seconds for which a development token is valid.
pub open spec fn token_lifetime() -> int {
    3600
}

/// The claims of the development token issued at `now`: the subject `admin` with the role
/// `author`, valid for an hour.
pub open spec fn issued_claims(now: i64) -> TestClaimsView {
    TestClaimsView {
        sub: "admin"@,
        roles: seq!["author"@],
        exp: (now + token_lifetime()) as i64,
        iat: now,
    }
}

/// The JSON object that carries development claims: `sub`, `roles`, `exp` and `iat`, in this
/// order.
pub open spec fn test_claims_json(claims: TestClaimsView) -> JsonValue {
    JsonValue::Object(
        seq![
            ("sub"@, JsonValue::Text(claims.sub)),
            ("roles"@, JsonValue::text_array(claims.roles)),
            ("exp"@, JsonValue::integer(claims.exp)),
            ("iat"@, JsonValue::integer(claims.iat)),
        ],
    )
}

/// The development claims that a JSON document holds, if it holds them: a string under `sub`,
/// a list of strings under `roles`, and integers under `exp` and `iat`.
pub open spec fn test_claims_of(doc: JsonValue) -> Option<TestClaimsView> {
    if doc.required_text("sub"@) is Some && doc.required_text_list("roles"@) is Some
        && doc.required_signed("exp"@) is Some && doc.required_signed("iat"@) is Some {
        Some(
            TestClaimsView {
                sub: doc.required_text("sub"@).unwrap(),
                roles: doc.required_text_list("roles"@).unwrap(),
                exp: doc.required_signed("exp"@).unwrap(),
                iat: doc.required_signed("iat"@).unwrap(),
            },
        )
    } else {
        None
    }
}

/// The development claims in the payload of a token, whether or not its signature is good.
pub open spec fn local_claims(token: Seq<char>) -> Option<TestClaimsView> {
    match middle_of_three(token) {
        Some(middle) => match base64url_decoded(middle) {
            Some(bytes) => match json_document(bytes) {
                Some(doc) => test_claims_of(doc),
                None => None,
            },
            None => None,
        },
        None => None,
    }
}

/// `jsonwebtoken::errors::Error`: why a token was refused. It is carried out of the decoder
/// and never looked into.
#[verifier::external_type_specification]
#[verifier::external_body]
pub struct ExTokenError(jsonwebtoken::errors::Error);

/// The token that `jsonwebtoken::encode` makes of claims with this content, under the default
/// header and an HMAC key made of `secret`; `None` where it reports an error.
pub uninterp spec fn hs256_token(claims: JsonValue, secret: Seq<char>) -> Option<Seq<char>>;

/// `jsonwebtoken::encode` with `Header::default()`, which names HS256, and the key
/// `EncodingKey::from_secret`.
#[verifier::external_body]
fn encode_hs256(claims: &Value, secret: &str) -> (token: Option<String>)
    ensures
        match token {
            Some(token) => hs256_token(value_content(*claims), secret@) == Some(token@),
            None => hs256_token(value_content(*claims), secret@) is None,
        },
{
    let key = EncodingKey::from_secret(secret.as_bytes());
    jsonwebtoken::encode(&Header::default(), claims, &key).ok()
}

/// The claims that `jsonwebtoken::decode` hands out for a token, under an HMAC key made of
/// `secret` and the default validation, when the clock that it reads once shows `now`
/// seconds since the epoch; `None` where it refuses the token.
pub uninterp spec fn hs256_claims_at(token: Seq<char>, secret: Seq<char>, now: int) -> Option<
    JsonValue,
>;

/// `jsonwebtoken::decode` with `Validation::default()` and the key `DecodingKey::from_secret`:
/// it checks the HS256 signature and, against the clock, the expiry. What it returns is
/// fixed by the token, the key and the one reading of the clock that it takes. The claims it
/// hands out on success are the JSON document in the token's middle segment, which is one of
/// three.
#[verifier::external_body]
fn decode_hs256(token: &str, secret: &str) -> (claims: Result<Value, jsonwebtoken::errors::Error>)
    ensures
        exists|now: int| #[trigger]
            hs256_claims_at(token@, secret@, now) == (match claims {
                Ok(value) => Some(value_content(value)),
                Err(_) => None::<JsonValue>,
            }),
        claims matches Ok(value) ==> {
            &&& middle_of_three(token@) matches Some(middle)
            &&& base64url_decoded(middle) matches Some(bytes)
            &&& json_document(bytes) == Some(value_content(value))
        },
{
    let key = DecodingKey::from_secret(secret.as_bytes());
    jsonwebtoken::decode::<Value>(token, &key, &Validation::default()).map(|data| data.claims)
}

/// `chrono::Utc::now`, in whole seconds since the epoch. It reads the time that has passed
/// since the epoch and holds it as a date, so the seconds are not negative and their day,
/// counted from the first day of the year 1, fits 32 bits.
#[verifier::external_body]
fn unix_now() -> (seconds: i64)
    ensures
        0 <= seconds,
        seconds / 86_400 + 719_163 <= i32::MAX,
{
    chrono::Utc::now().timestamp()
}

/// Reads development claims out of a JSON document.
pub fn claims_from_json(doc: &Json) -> (claims: Option<TestClaims>)
    ensures
        optional_view(claims) == test_claims_of(doc@),
{
    let sub = match doc.required_text("sub") {
        Some(text) => text,
        None => {
            return None;
        },
    };
    let roles = match doc.required_text_list("roles") {
        Some(list) => list,
        None => {
            return None;
        },
    };
    let exp = match doc.required_signed("exp") {
        Some(number) => number,
        None => {
            return None;
        },
    };
    let iat = match doc.required_signed("iat") {
        Some(number) => number,
        None => {
            return None;
        },
    };
    Some(TestClaims { sub, roles, exp, iat })
}

/// The four keys of development claims differ from one another.
pub proof fn lemma_claim_keys_differ()
    ensures
        "sub"@ != "roles"@,
        "sub"@ != "exp"@,
        "sub"@ != "iat"@,
        "roles"@ != "exp"@,
        "roles"@ != "iat"@,
        "exp"@ != "iat"@,
{
    reveal_strlit("sub");
    reveal_strlit("roles");
    reveal_strlit("exp");
    reveal_strlit("iat");
    assert("sub"@[0] == 's');
    assert("roles"@[0] == 'r');
    assert("exp"@[0] == 'e');
    assert("iat"@[0] == 'i');
}

/// Writes development claims as a JSON object.
pub fn claims_to_json(claims: &TestClaims) -> (doc: Json)
    ensures
        doc@ == test_claims_json(claims@),
        doc@.canonical(),
{
    let mut members: Vec<(String, Json)> = Vec::new();
    members.push(("sub".to_owned(), Json::Text(claims.sub.clone())));
    members.push(("roles".to_owned(), Json::text_array(&claims.roles)));
    members.push(("exp".to_owned(), Json::integer(claims.exp)));
    members.push(("iat".to_owned(), Json::integer(claims.iat)));
    proof {
        lemma_object_view(members);
        lemma_claim_keys_differ();
        let fields = members_view(members@);
        assert(fields =~= test_claims_json(claims@)->Object_0);
        assert(fields[0].1.canonical());
        assert(fields[1].1.canonical());
        assert(fields[2].1.canonical());
        assert(fields[3].1.canonical());
    }
    Json::Object(members)
}

/// The development token for claims issued at `now`, or the reason why there is none.
pub fn test_token_at(now: i64) -> (token: Result<String, TestTokenError>)
    ensures
        match token {
            Ok(token) => now + token_lifetime() <= i64::MAX && hs256_token(
                test_claims_json(issued_claims(now)),
                dev_secret(),
            ) == Some(token@),
            Err(TestTokenError::ClockOutOfRange) => now + token_lifetime() > i64::MAX,
            Err(TestTokenError::SigningFailed) => now + token_lifetime() <= i64::MAX
                && hs256_token(test_claims_json(issued_claims(now)), dev_secret()) is None,
            Err(_) => false,
        },
{
    let exp = match now.checked_add(3600) {
        Some(exp) => exp,
        None => {
            return Err(TestTokenError::ClockOutOfRange);
        },
    };
    let mut roles: Vec<String> = Vec::new();
    roles.push("author".to_owned());
    let claims = TestClaims { sub: "admin".to_owned(), roles, exp, iat: now };
    assert(claims@.roles =~= seq!["author"@]);
    let doc = claims_to_json(&claims);
    let value = value_of_json(&doc);
    match encode_hs256(&value, "test-secret-key-for-local-development") {
        Some(token) => Ok(token),
        None => Err(TestTokenError::SigningFailed),
    }
}

/// A development token issued now: the subject `admin` with the role `author`, valid for an
/// hour, signed with the development secret. Whatever the clock shows, the outcome is that
/// of signing the claims issued at that time.
pub fn generate_test_token() -> (token: Result<String, TestTokenError>)
    ensures
        exists|now: i64|
            0 <= now && now + token_lifetime() <= i64::MAX && match token {
                Ok(token) => #[trigger] hs256_token(
                    test_claims_json(issued_claims(now)),
                    dev_secret(),
                ) == Some(token@),
                Err(TestTokenError::SigningFailed) => hs256_token(
                    test_claims_json(issued_claims(now)),
                    dev_secret(),
                ) is None,
                Err(_) => false,
            },
{
    let now = unix_now();
    let token = test_token_at(now);
    proof {
        let signed = hs256_token(test_claims_json(issued_claims(now)), dev_secret());
        assert(0 <= now && now + token_lifetime() <= i64::MAX && match token {
            Ok(token) => signed == Some(token@),
            Err(TestTokenError::SigningFailed) => signed is None,
            Err(_) => false,
        });
    }
    token
}

/// The value of the outcome of a validation.
pub open spec fn outcome_view(outcome: Result<TestClaims, TestTokenError>) -> Result<
    TestClaimsView,
    TestTokenError,
> {
    match outcome {
        Ok(claims) => Ok(claims@),
        Err(e) => Err(e),
    }
}

/// What the validation of a development token gives when the clock shows `now`: the
/// development claims that the decoder hands out under the development secret, `Rejected`
/// where the decoder refuses the token, `ClaimsMalformed` where what it hands out holds no
/// development claims.
pub open spec fn test_claims_at(token: Seq<char>, now: int) -> Result<
    TestClaimsView,
    TestTokenError,
> {
    match hs256_claims_at(token, dev_secret(), now) {
        Some(doc) => match test_claims_of(doc) {
            Some(claims) => Ok(claims),
            None => Err(TestTokenError::ClaimsMalformed),
        },
        None => Err(TestTokenError::Rejected),
    }
}

/// Accepts a token that was signed with the development secret, has not expired and holds
/// development claims, and hands out these claims.
///
/// The signature and the clock decide whether a token is accepted. The outcome is what the
/// decoder gives under the development secret at the time it reads, and claims that come
/// back are the ones in the token's payload.
pub fn validate_test_token(token: &str) -> (claims: Result<TestClaims, TestTokenError>)
    ensures
        exists|now: int| outcome_view(claims) == #[trigger] test_claims_at(token@, now),
        match claims {
            Ok(claims) => local_claims(token@) == Some(claims@),
            Err(TestTokenError::Rejected) => true,
            Err(TestTokenError::ClaimsMalformed) => local_claims(token@) is None,
            Err(_) => false,
        },
{
    let decoded = decode_hs256(token, "test-secret-key-for-local-development");
    let ghost handed = if decoded is Ok {
        Some(value_content(decoded->Ok_0))
    } else {
        None::<JsonValue>
    };
    let ghost now = choose|now: int| #[trigger] hs256_claims_at(token@, dev_secret(), now) == handed;
    let value = match decoded {
        Ok(value) => value,
        Err(_) => {
            assert(test_claims_at(token@, now) == Err::<TestClaimsView, TestTokenError>(
                TestTokenError::Rejected,
            ));
            return Err(TestTokenError::Rejected);
        },
    };
    let doc = json_of_value(value);
    let claims = match claims_from_json(&doc) {
        Some(claims) => Ok(claims),
        None => Err(TestTokenError::ClaimsMalformed),
    };
    assert(outcome_view(claims) == test_claims_at(token@, now));
    claims
}

} // verus!
