use base64::Engine;
use blog_backend::auth::jwt::test_token::{
    claims_from_json, claims_to_json, generate_test_token, test_token_at, validate_test_token,
    TestClaims, TestTokenError,
};
use blog_backend::auth::jwt::{
    claims_of_payload, decode_keycloak_token_without_verification, extract_token_from_header,
    middle_segment, normalize_token, payload_from_json, payload_json, resolve_claims,
    validate_token, KeycloakConfig,
};
use blog_backend::auth::{auth_middleware, has_role, require_author, AuthError, Claims};
use blog_backend::json::{parse, Json, JsonNumber};

const DEV_SECRET: &str = "test-secret-key-for-local-development";

fn b64(text: &str) -> String {
    base64::engine::general_purpose::URL_SAFE_NO_PAD.encode(text.as_bytes())
}

fn unsigned_token(payload: &str) -> String {
    format!("{}.{}.{}", b64("{\"alg\":\"none\"}"), b64(payload), "sig")
}

fn external_payload(extra: &str) -> String {
    format!(
        "{{\"iss\":\"http://idp/realms/blog\",\"sub\":\"user-1\",\"aud\":\"account\",\"exp\":1,\"iat\":0{}}}",
        extra
    )
}

fn signed_with(secret: &str, sub: &str, role: &str, exp: u64) -> String {
    let mut claims = serde_json::Map::new();
    claims.insert("sub".to_string(), serde_json::Value::from(sub));
    claims.insert(
        "roles".to_string(),
        serde_json::Value::Array(vec![serde_json::Value::from(role)]),
    );
    claims.insert("exp".to_string(), serde_json::Value::from(exp));
    claims.insert("iat".to_string(), serde_json::Value::from(0u64));
    jsonwebtoken::encode(
        &jsonwebtoken::Header::default(),
        &serde_json::Value::Object(claims),
        &jsonwebtoken::EncodingKey::from_secret(secret.as_bytes()),
    )
    .unwrap()
}

fn far_future() -> u64 {
    jsonwebtoken::get_current_timestamp() + 100_000
}

#[test]
fn header_with_bearer_prefix_gives_the_rest() {
    assert_eq!(extract_token_from_header("Bearer abc.def.ghi"), Ok("abc.def.ghi"));
    assert_eq!(extract_token_from_header("Bearer "), Ok(""));
    assert_eq!(extract_token_from_header("Bearer Bearer x"), Ok("Bearer x"));
}

#[test]
fn header_without_bearer_prefix_is_refused() {
    for header in ["", "Bearer", "bearer abc", "BEARER abc", "Basic abc", " Bearer abc", "Bearerabc"] {
        assert_eq!(extract_token_from_header(header), Err(AuthError::HeaderFormatInvalid));
    }
}

#[test]
fn token_is_normalized_before_validation() {
    assert_eq!(normalize_token("Bearer Bearer  a.b.c \n"), "a.b.c");
    assert_eq!(normalize_token("a.b.c"), "a.b.c");
    assert_eq!(normalize_token("  \t "), "");
    assert_eq!(normalize_token("\u{a0}x y\u{3000}"), "x y");
    assert_eq!(normalize_token(" Bearer x"), "Bearer x");
}

#[test]
fn middle_segment_needs_exactly_three() {
    assert_eq!(middle_segment("a.b.c"), Some("b"));
    assert_eq!(middle_segment("a..c"), Some(""));
    assert_eq!(middle_segment(".."), Some(""));
    assert_eq!(middle_segment("aa.b\u{e9}b.cc"), Some("b\u{e9}b"));
    assert_eq!(middle_segment("a.b"), None);
    assert_eq!(middle_segment("a.b.c.d"), None);
    assert_eq!(middle_segment(""), None);
}

#[test]
fn has_role_looks_for_the_exact_role() {
    let claims = Claims { sub: "u".to_string(), roles: vec!["reader".to_string(), "author".to_string()] };
    assert!(has_role(&claims, "author"));
    assert!(has_role(&claims, "reader"));
    assert!(!has_role(&claims, "Author"));
    assert!(!has_role(&claims, "auth"));
    assert!(!has_role(&Claims { sub: "u".to_string(), roles: vec![] }, "author"));
}

#[test]
fn failures_map_to_status_and_texts() {
    assert_eq!(AuthError::HeaderMissing.status(), 401);
    assert_eq!(AuthError::HeaderFormatInvalid.status(), 401);
    assert_eq!(AuthError::TokenFormatInvalid.status(), 401);
    assert_eq!(AuthError::TokenDecodeFailure.status(), 401);
    assert_eq!(AuthError::TokenParseFailure.status(), 401);
    assert_eq!(AuthError::RoleInsufficient.status(), 403);
    assert_eq!(AuthError::HeaderMissing.error(), "Missing Authorization header");
    assert_eq!(AuthError::HeaderFormatInvalid.error(), "Invalid Authorization header format");
    assert_eq!(AuthError::TokenDecodeFailure.error(), "Invalid or expired token");
    assert_eq!(AuthError::RoleInsufficient.error(), "Insufficient permissions");
    assert_eq!(AuthError::HeaderMissing.message(), "Please provide a valid Bearer token");
    assert_eq!(
        AuthError::RoleInsufficient.message(),
        "You need the 'author' role to access this endpoint"
    );
}

#[test]
fn request_without_header_is_unauthenticated() {
    assert_eq!(auth_middleware(None), Err(AuthError::HeaderMissing));
}

#[test]
fn token_without_bearer_prefix_is_rejected_before_decoding() {
    let token = unsigned_token(&external_payload(",\"realm_access\":{\"roles\":[\"author\"]}"));
    assert_eq!(auth_middleware(Some(token.as_str())), Err(AuthError::HeaderFormatInvalid));
    let lower = format!("bearer {}", token);
    assert_eq!(auth_middleware(Some(lower.as_str())), Err(AuthError::HeaderFormatInvalid));
    let signed = generate_test_token().unwrap();
    assert_eq!(auth_middleware(Some(signed.as_str())), Err(AuthError::HeaderFormatInvalid));
}

#[test]
fn development_token_with_author_role_passes() {
    let token = generate_test_token().unwrap();
    let header = format!("Bearer {}", token);
    let claims = auth_middleware(Some(header.as_str())).unwrap();
    assert_eq!(claims, Claims { sub: "admin".to_string(), roles: vec!["author".to_string()] });
}

#[test]
fn development_token_with_reader_role_is_forbidden() {
    let token = signed_with(DEV_SECRET, "bob", "reader", far_future());
    assert_eq!(
        validate_token(&token),
        Ok(Claims { sub: "bob".to_string(), roles: vec!["reader".to_string()] })
    );
    let header = format!("Bearer {}", token);
    assert_eq!(auth_middleware(Some(header.as_str())), Err(AuthError::RoleInsufficient));
}

#[test]
fn unsigned_external_token_is_accepted_by_the_fallback_path() {
    let token = unsigned_token(&external_payload(",\"realm_access\":{\"roles\":[\"author\"]}"));
    let expected = Claims { sub: "user-1".to_string(), roles: vec!["author".to_string()] };
    assert_eq!(validate_token(&token), Ok(expected.clone()));
    assert_eq!(decode_keycloak_token_without_verification(&token), Ok(expected.clone()));
    let header = format!("Bearer {}", token);
    assert_eq!(auth_middleware(Some(header.as_str())), Ok(expected));
}

#[test]
fn roles_come_from_the_realm_then_the_client_then_nowhere() {
    let both = unsigned_token(&external_payload(
        ",\"realm_access\":{\"roles\":[\"r\"]},\"resource_access\":{\"blog-admin\":{\"roles\":[\"c\"]}}",
    ));
    assert_eq!(validate_token(&both).unwrap().roles, vec!["r".to_string()]);
    let client = unsigned_token(&external_payload(
        ",\"resource_access\":{\"account\":{\"roles\":[\"a\"]},\"blog-admin\":{\"roles\":[\"c\",\"d\"]}}",
    ));
    assert_eq!(validate_token(&client).unwrap().roles, vec!["c".to_string(), "d".to_string()]);
    let other_client =
        unsigned_token(&external_payload(",\"resource_access\":{\"account\":{\"roles\":[\"a\"]}}"));
    assert_eq!(validate_token(&other_client).unwrap().roles, Vec::<String>::new());
    let neither = unsigned_token(&external_payload(""));
    assert_eq!(
        validate_token(&neither),
        Ok(Claims { sub: "user-1".to_string(), roles: vec![] })
    );
    let header = format!("Bearer {}", neither);
    assert_eq!(auth_middleware(Some(header.as_str())), Err(AuthError::RoleInsufficient));
}

#[test]
fn malformed_tokens_fail_at_their_step() {
    assert_eq!(validate_token("only.two"), Err(AuthError::TokenFormatInvalid));
    assert_eq!(validate_token("a.b.c.d"), Err(AuthError::TokenFormatInvalid));
    assert_eq!(validate_token(""), Err(AuthError::TokenFormatInvalid));
    assert_eq!(validate_token("a.!!!.c"), Err(AuthError::TokenDecodeFailure));
    assert_eq!(validate_token("a.YQ==.c"), Err(AuthError::TokenDecodeFailure));
    let not_json = format!("a.{}.c", b64("not json"));
    assert_eq!(validate_token(&not_json), Err(AuthError::TokenParseFailure));
    let missing_sub = unsigned_token("{\"iss\":\"i\",\"aud\":\"a\",\"exp\":1,\"iat\":0}");
    assert_eq!(validate_token(&missing_sub), Err(AuthError::TokenParseFailure));
    let negative_exp =
        unsigned_token("{\"iss\":\"i\",\"sub\":\"s\",\"aud\":\"a\",\"exp\":-1,\"iat\":0}");
    assert_eq!(validate_token(&negative_exp), Err(AuthError::TokenParseFailure));
    let list_aud =
        unsigned_token("{\"iss\":\"i\",\"sub\":\"s\",\"aud\":[\"a\"],\"exp\":1,\"iat\":0}");
    assert_eq!(validate_token(&list_aud), Err(AuthError::TokenParseFailure));
    let bad_roles = unsigned_token(&external_payload(",\"realm_access\":{\"roles\":[1]}"));
    assert_eq!(validate_token(&bad_roles), Err(AuthError::TokenParseFailure));
    let bad_access = unsigned_token(&external_payload(",\"resource_access\":5"));
    assert_eq!(validate_token(&bad_access), Err(AuthError::TokenParseFailure));
    let header = format!("Bearer {}", not_json);
    assert_eq!(auth_middleware(Some(header.as_str())), Err(AuthError::TokenParseFailure));
}

#[test]
fn payload_json_reads_the_middle_segment() {
    let doc = payload_json(&format!("x.{}.y", b64("{\"a\":[1,-2,true,null,\"s\"]}"))).unwrap();
    let items = vec![
        Json::Number(JsonNumber::PosInt(1)),
        Json::Number(JsonNumber::NegInt(-2)),
        Json::Bool(true),
        Json::Null,
        Json::Text("s".to_string()),
    ];
    assert_eq!(doc, Json::Object(vec![("a".to_string(), Json::Array(items))]));
}

#[test]
fn payload_reads_every_member() {
    let text = "{\"iss\":\"i\",\"sub\":\"s\",\"aud\":\"a\",\"exp\":7,\"iat\":5,\"jti\":\"j\",\
        \"typ\":null,\"allowed-origins\":[\"o1\",\"o2\"],\"email_verified\":true,\
        \"preferred_username\":\"pu\",\"unknown\":{\"x\":1.5}}";
    let doc = parse(text.as_bytes()).unwrap();
    let payload = payload_from_json(&doc).unwrap();
    assert_eq!(payload.iss, "i");
    assert_eq!(payload.sub, "s");
    assert_eq!(payload.aud, "a");
    assert_eq!(payload.exp, 7);
    assert_eq!(payload.iat, 5);
    assert_eq!(payload.jti, Some("j".to_string()));
    assert_eq!(payload.typ, None);
    assert_eq!(payload.azp, None);
    assert_eq!(payload.allowed_origins, Some(vec!["o1".to_string(), "o2".to_string()]));
    assert_eq!(payload.realm_access, None);
    assert_eq!(payload.resource_access, None);
    assert_eq!(payload.email_verified, Some(true));
    assert_eq!(payload.preferred_username, Some("pu".to_string()));
    assert_eq!(claims_of_payload(payload), Claims { sub: "s".to_string(), roles: vec![] });
    assert_eq!(payload_from_json(&Json::Array(vec![])), None);
}

#[test]
fn expired_development_token_falls_back_to_the_payload() {
    let expired = signed_with(DEV_SECRET, "bob", "author", 1);
    assert_eq!(validate_test_token(&expired), Err(TestTokenError::Rejected));
    assert_eq!(validate_token(&expired), Err(AuthError::TokenParseFailure));
}

#[test]
fn development_token_round_trips() {
    let token = generate_test_token().unwrap();
    let claims = validate_test_token(&token).unwrap();
    assert_eq!(claims.sub, "admin");
    assert_eq!(claims.roles, vec!["author".to_string()]);
    assert_eq!(claims.exp - claims.iat, 3600);
    let padded = format!("Bearer  {} ", token);
    assert_eq!(validate_token(&padded).unwrap().sub, "admin");
}

#[test]
fn development_token_is_refused_under_another_secret() {
    let token = signed_with("another-secret", "eve", "author", far_future());
    assert_eq!(validate_test_token(&token), Err(TestTokenError::Rejected));
    assert_eq!(validate_test_token("garbage"), Err(TestTokenError::Rejected));
    assert_eq!(validate_token(&token), Err(AuthError::TokenParseFailure));
}

#[test]
fn development_token_without_claims_is_malformed() {
    let mut claims = serde_json::Map::new();
    claims.insert("exp".to_string(), serde_json::Value::from(far_future()));
    let token = jsonwebtoken::encode(
        &jsonwebtoken::Header::default(),
        &serde_json::Value::Object(claims),
        &jsonwebtoken::EncodingKey::from_secret(DEV_SECRET.as_bytes()),
    )
    .unwrap();
    assert_eq!(validate_test_token(&token), Err(TestTokenError::ClaimsMalformed));
}

#[test]
fn token_issued_at_a_given_time_holds_the_claims() {
    let token = test_token_at(1000).unwrap();
    assert_eq!(
        token,
        "eyJ0eXAiOiJKV1QiLCJhbGciOiJIUzI1NiJ9.eyJzdWIiOiJhZG1pbiIsInJvbGVzIjpbImF1dGhvciJdLCJleHAiOjQ2MDAsImlhdCI6MTAwMH0."
            .to_string()
            + token.rsplit('.').next().unwrap()
    );
    let doc = payload_json(&token).unwrap();
    let claims = claims_from_json(&doc).unwrap();
    assert_eq!(
        claims,
        TestClaims { sub: "admin".to_string(), roles: vec!["author".to_string()], exp: 4600, iat: 1000 }
    );
    assert_eq!(test_token_at(1000).unwrap(), token);
    assert_eq!(test_token_at(i64::MAX), Err(TestTokenError::ClockOutOfRange));
    assert_eq!(test_token_at(i64::MAX - 3599), Err(TestTokenError::ClockOutOfRange));
    assert!(test_token_at(i64::MAX - 3600).is_ok());
    assert!(test_token_at(-5000).is_ok());
}

#[test]
fn development_claims_are_written_in_order() {
    let claims =
        TestClaims { sub: "a".to_string(), roles: vec!["x".to_string()], exp: -3, iat: 4 };
    let doc = claims_to_json(&claims);
    let expected = Json::Object(vec![
        ("sub".to_string(), Json::Text("a".to_string())),
        ("roles".to_string(), Json::Array(vec![Json::Text("x".to_string())])),
        ("exp".to_string(), Json::Number(JsonNumber::NegInt(-3))),
        ("iat".to_string(), Json::Number(JsonNumber::PosInt(4))),
    ]);
    assert_eq!(doc, expected);
    assert_eq!(claims_from_json(&doc), Some(claims));
    assert_eq!(claims_from_json(&Json::Null), None);
}

#[test]
fn claims_resolve_from_the_local_outcome_first() {
    let local = TestClaims { sub: "l".to_string(), roles: vec!["r".to_string()], exp: 1, iat: 0 };
    assert_eq!(
        resolve_claims(Some(local), "not.a.token"),
        Ok(Claims { sub: "l".to_string(), roles: vec!["r".to_string()] })
    );
    assert_eq!(resolve_claims(None, "nope"), Err(AuthError::TokenFormatInvalid));
}

#[test]
fn author_role_is_required() {
    let author = Claims { sub: "a".to_string(), roles: vec!["author".to_string()] };
    let reader = Claims { sub: "b".to_string(), roles: vec!["reader".to_string()] };
    assert_eq!(require_author(Ok(author.clone())), Ok(author));
    assert_eq!(require_author(Ok(reader)), Err(AuthError::RoleInsufficient));
    assert_eq!(
        require_author(Err(AuthError::TokenDecodeFailure)),
        Err(AuthError::TokenDecodeFailure)
    );
}

#[test]
fn default_config_names_the_local_realm() {
    let config = KeycloakConfig::default();
    assert_eq!(config.realm, "blog-realm");
    assert_eq!(config.client_id, "blog-backend");
    assert_eq!(config.issuer_url, "http://localhost:8080/realms/blog-realm");
    assert_eq!(config.public_key, "");
}
