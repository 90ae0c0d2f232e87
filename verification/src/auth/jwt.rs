use crate::auth::{AuthError, Claims, ClaimsView};
use crate::json::{json_document, parse, Json, JsonValue};
use crate::text::{
    chars_of, strip_all, strip_prefix, strip_prefix_repeated, texts, trim, trimmed,
};
use crate::auth::jwt::test_token::{
    local_claims, outcome_view, test_claims_at, validate_test_token, TestClaims,
    TestClaimsView,
};
use base64::Engine;
use vstd::prelude::*;

pub mod test_token;


verus! {

/// The characters `Bearer `, with which an `Authorization` header has to start.
pub open spec fn bearer_prefix() -> Seq<char> {
    seq!['B', 'e', 'a', 'r', 'e', 'r', ' ']
}

/// The string literal `"Bearer "` holds `bearer_prefix()`.
pub proof fn lemma_bearer_literal()
    ensures
        "Bearer "@ == bearer_prefix(),
{
    reveal_strlit("Bearer ");
    assert("Bearer "@ =~= bearer_prefix());
}

/// The token of an `Authorization` header: what follows `Bearer `. A header that does not
/// start with these seven characters, in this case, is refused.
pub fn extract_token_from_header(auth_header: &str) -> (token: Result<&str, AuthError>)
    ensures
        match token {
            Ok(token) => auth_header@ == bearer_prefix() + token@,
            Err(e) => e == AuthError::HeaderFormatInvalid && !bearer_prefix().is_prefix_of(
                auth_header@,
            ),
        },
{
    proof {
        lemma_bearer_literal();
    }
    match strip_prefix(auth_header, "Bearer ") {
        Some(token) => Ok(token),
        None => Err(AuthError::HeaderFormatInvalid),
    }
}

/// A token as the validation paths see it: without any `Bearer ` in front, however often it
/// is repeated, and then without white space at either end.
pub open spec fn normalized(token: Seq<char>) -> Seq<char> {
    trimmed(strip_all(token, bearer_prefix()))
}

/// Brings a token into the form that the validation paths see.
pub fn normalize_token(token: &str) -> (normal: &str)
    ensures
        normal@ == normalized(token@),
{
    proof {
        lemma_bearer_literal();
    }
    trim(strip_prefix_repeated(token, "Bearer "))
}

/// The pieces of `s` between its dots, in order. A string without a dot is one piece; two
/// dots side by side, or a dot at either end, bound an empty piece.
pub open spec fn segments(s: Seq<char>) -> Seq<Seq<char>>
    decreases s.len(),
{
    if s.len() == 0 {
        seq![Seq::empty()]
    } else {
        let before = segments(s.drop_last());
        if s.last() == '.' {
            before.push(Seq::empty())
        } else {
            before.update(before.len() - 1, before.last().push(s.last()))
        }
    }
}

/// The middle one of exactly three segments.
pub open spec fn middle_of_three(token: Seq<char>) -> Option<Seq<char>> {
    if segments(token).len() == 3 {
        Some(segments(token)[1])
    } else {
        None
    }
}

/// The middle segment of a token that has exactly three.
pub fn middle_segment(token: &str) -> (middle: Option<&str>)
    ensures
        match middle {
            Some(middle) => middle_of_three(token@) == Some(middle@),
            None => middle_of_three(token@) is None,
        },
{
    let chars = chars_of(token);
    let ghost s = token@;
    let mut dots: usize = 0;
    let mut first: usize = 0;
    let mut second: usize = 0;
    let mut i: usize = 0;
    while i < chars.len()
        invariant
            chars@ == s,
            i <= s.len(),
            dots <= i,
            segments(s.take(i as int)).len() == dots + 1,
            dots == 1 ==> first < i && segments(s.take(i as int))[1] == s.subrange(
                first + 1,
                i as int,
            ),
            dots >= 2 ==> first < second < i && segments(s.take(i as int))[1] == s.subrange(
                first + 1,
                second as int,
            ),
        decreases chars.len() - i,
    {
        proof {
            let next = s.take(i + 1);
            assert(next.drop_last() =~= s.take(i as int));
            assert(next.last() == s[i as int]);
            let before = segments(s.take(i as int));
            if s[i as int] == '.' {
                if dots == 0 {
                    assert(s.subrange(i + 1, i + 1) =~= Seq::<char>::empty());
                }
            } else {
                if dots == 1 {
                    assert(s.subrange(first + 1, i as int).push(s[i as int]) =~= s.subrange(
                        first + 1,
                        i + 1,
                    ));
                }
            }
        }
        if chars[i] == '.' {
            if dots == 0 {
                first = i;
            } else if dots == 1 {
                second = i;
            }
            dots += 1;
        }
        i += 1;
    }
    assert(s.take(i as int) =~= s);
    if dots == 2 {
        Some(token.substring_char(first + 1, second))
    } else {
        None
    }
}

/// The header of a token, as its first segment gives it.
#[derive(Debug, Clone, PartialEq, Eq)]
pub struct JwtHeader {
    pub alg: String,
    pub typ: String,
    pub kid: Option<String>,
}

/// The roles that a realm grants.
#[derive(Debug, Clone, PartialEq, Eq)]
pub struct RealmAccess {
    pub roles: Vec<String>,
}

/// The roles that one client grants.
#[derive(Debug, Clone, PartialEq, Eq)]
pub struct ClientAccess {
    pub roles: Vec<String>,
}

/// The roles granted client by client, for the two clients that are read.
#[derive(Debug, Clone, PartialEq, Eq)]
pub struct ResourceAccess {
    pub account: Option<ClientAccess>,
    pub blog_admin: Option<ClientAccess>,
}

/// The payload of a token issued by the identity provider.
#[derive(Debug, Clone, PartialEq, Eq)]
pub struct JwtPayload {
    pub iss: String,
    pub sub: String,
    pub aud: String,
    pub exp: u64,
    pub iat: u64,
    pub jti: Option<String>,
    pub typ: Option<String>,
    pub azp: Option<String>,
    pub sid: Option<String>,
    pub acr: Option<String>,
    pub allowed_origins: Option<Vec<String>>,
    pub realm_access: Option<RealmAccess>,
    pub resource_access: Option<ResourceAccess>,
    pub scope: Option<String>,
    pub email_verified: Option<bool>,
    pub name: Option<String>,
    pub preferred_username: Option<String>,
    pub given_name: Option<String>,
    pub family_name: Option<String>,
    pub email: Option<String>,
}

/// The characters of a string that may be missing.
pub open spec fn optional_chars(text: Option<String>) -> Option<Seq<char>> {
    match text {
        Some(text) => Some(text@),
        None => None,
    }
}

impl View for RealmAccess {
    type V = Seq<Seq<char>>;

    open spec fn view(&self) -> Seq<Seq<char>> {
        texts(self.roles@)
    }
}

impl View for ClientAccess {
    type V = Seq<Seq<char>>;

    open spec fn view(&self) -> Seq<Seq<char>> {
        texts(self.roles@)
    }
}

/// The mathematical value of `ResourceAccess`: each client's roles.
pub struct ResourceAccessView {
    pub account: Option<Seq<Seq<char>>>,
    pub blog_admin: Option<Seq<Seq<char>>>,
}

impl View for ResourceAccess {
    type V = ResourceAccessView;

    open spec fn view(&self) -> ResourceAccessView {
        ResourceAccessView {
            account: match self.account {
                Some(access) => Some(access@),
                None => None,
            },
            blog_admin: match self.blog_admin {
                Some(access) => Some(access@),
                None => None,
            },
        }
    }
}

/// The mathematical value of `JwtPayload`.
pub struct JwtPayloadView {
    pub iss: Seq<char>,
    pub sub: Seq<char>,
    pub aud: Seq<char>,
    pub exp: u64,
    pub iat: u64,
    pub jti: Option<Seq<char>>,
    pub typ: Option<Seq<char>>,
    pub azp: Option<Seq<char>>,
    pub sid: Option<Seq<char>>,
    pub acr: Option<Seq<char>>,
    pub allowed_origins: Option<Seq<Seq<char>>>,
    pub realm_access: Option<Seq<Seq<char>>>,
    pub resource_access: Option<ResourceAccessView>,
    pub scope: Option<Seq<char>>,
    pub email_verified: Option<bool>,
    pub name: Option<Seq<char>>,
    pub preferred_username: Option<Seq<char>>,
    pub given_name: Option<Seq<char>>,
    pub family_name: Option<Seq<char>>,
    pub email: Option<Seq<char>>,
}

impl View for JwtPayload {
    type V = JwtPayloadView;

    open spec fn view(&self) -> JwtPayloadView {
        JwtPayloadView {
            iss: self.iss@,
            sub: self.sub@,
            aud: self.aud@,
            exp: self.exp,
            iat: self.iat,
            jti: optional_chars(self.jti),
            typ: optional_chars(self.typ),
            azp: optional_chars(self.azp),
            sid: optional_chars(self.sid),
            acr: optional_chars(self.acr),
            allowed_origins: match self.allowed_origins {
                Some(origins) => Some(texts(origins@)),
                None => None,
            },
            realm_access: match self.realm_access {
                Some(access) => Some(access@),
                None => None,
            },
            resource_access: match self.resource_access {
                Some(access) => Some(access@),
                None => None,
            },
            scope: optional_chars(self.scope),
            email_verified: self.email_verified,
            name: optional_chars(self.name),
            preferred_username: optional_chars(self.preferred_username),
            given_name: optional_chars(self.given_name),
            family_name: optional_chars(self.family_name),
            email: optional_chars(self.email),
        }
    }
}

/// The roles that the object under `key` grants, where a missing member and `null` stand for
/// no grant. The outer `None` marks a member that is no object with a list of strings under
/// `roles`.
pub open spec fn optional_roles(doc: JsonValue, key: Seq<char>) -> Option<Option<Seq<Seq<char>>>> {
    match doc.member(key) {
        None => Some(None),
        Some(JsonValue::Null) => Some(None),
        Some(access) => match access.required_text_list("roles"@) {
            Some(roles) => Some(Some(roles)),
            None => None,
        },
    }
}

/// The grants of the object under `resource_access`, where a missing member and `null` stand
/// for none. The outer `None` marks a member that is no object, or one whose `account` or
/// `blog-admin` is no grant.
pub open spec fn optional_resource_access(doc: JsonValue) -> Option<Option<ResourceAccessView>> {
    match doc.member("resource_access"@) {
        None => Some(None),
        Some(JsonValue::Null) => Some(None),
        Some(access) => if access is Object && optional_roles(access, "account"@) is Some
            && optional_roles(access, "blog-admin"@) is Some {
            Some(
                Some(
                    ResourceAccessView {
                        account: optional_roles(access, "account"@).unwrap(),
                        blog_admin: optional_roles(access, "blog-admin"@).unwrap(),
                    },
                ),
            )
        } else {
            None
        },
    }
}

/// Whether `doc` is a payload: an object in which each member that a payload reads has the
/// type that the payload gives it. Members that a payload does not read are let pass.
pub open spec fn is_payload(doc: JsonValue) -> bool {
    &&& doc.required_text("iss"@) is Some
    &&& doc.required_text("sub"@) is Some
    &&& doc.required_text("aud"@) is Some
    &&& doc.required_unsigned("exp"@) is Some
    &&& doc.required_unsigned("iat"@) is Some
    &&& doc.optional_text("jti"@) is Some
    &&& doc.optional_text("typ"@) is Some
    &&& doc.optional_text("azp"@) is Some
    &&& doc.optional_text("sid"@) is Some
    &&& doc.optional_text("acr"@) is Some
    &&& doc.optional_text_list("allowed-origins"@) is Some
    &&& optional_roles(doc, "realm_access"@) is Some
    &&& optional_resource_access(doc) is Some
    &&& doc.optional_text("scope"@) is Some
    &&& doc.optional_flag("email_verified"@) is Some
    &&& doc.optional_text("name"@) is Some
    &&& doc.optional_text("preferred_username"@) is Some
    &&& doc.optional_text("given_name"@) is Some
    &&& doc.optional_text("family_name"@) is Some
    &&& doc.optional_text("email"@) is Some
}

/// The payload that `doc` holds, if it is one.
pub open spec fn payload_of(doc: JsonValue) -> Option<JwtPayloadView> {
    if is_payload(doc) {
        Some(
            JwtPayloadView {
                iss: doc.required_text("iss"@).unwrap(),
                sub: doc.required_text("sub"@).unwrap(),
                aud: doc.required_text("aud"@).unwrap(),
                exp: doc.required_unsigned("exp"@).unwrap(),
                iat: doc.required_unsigned("iat"@).unwrap(),
                jti: doc.optional_text("jti"@).unwrap(),
                typ: doc.optional_text("typ"@).unwrap(),
                azp: doc.optional_text("azp"@).unwrap(),
                sid: doc.optional_text("sid"@).unwrap(),
                acr: doc.optional_text("acr"@).unwrap(),
                allowed_origins: doc.optional_text_list("allowed-origins"@).unwrap(),
                realm_access: optional_roles(doc, "realm_access"@).unwrap(),
                resource_access: optional_resource_access(doc).unwrap(),
                scope: doc.optional_text("scope"@).unwrap(),
                email_verified: doc.optional_flag("email_verified"@).unwrap(),
                name: doc.optional_text("name"@).unwrap(),
                preferred_username: doc.optional_text("preferred_username"@).unwrap(),
                given_name: doc.optional_text("given_name"@).unwrap(),
                family_name: doc.optional_text("family_name"@).unwrap(),
                email: doc.optional_text("email"@).unwrap(),
            },
        )
    } else {
        None
    }
}

/// The roles that a payload grants: those of the realm where the payload names a realm,
/// else those of the client `blog-admin` where it names that client, else none.
pub open spec fn payload_roles(payload: JwtPayloadView) -> Seq<Seq<char>> {
    match payload.realm_access {
        Some(roles) => roles,
        None => match payload.resource_access {
            Some(access) => match access.blog_admin {
                Some(roles) => roles,
                None => Seq::empty(),
            },
            None => Seq::empty(),
        },
    }
}

/// The claims that a payload makes: its subject, with the roles it grants.
pub open spec fn payload_claims(payload: JwtPayloadView) -> ClaimsView {
    ClaimsView { sub: payload.sub, roles: payload_roles(payload) }
}

/// Reads the roles that the object under `key` grants.
fn read_optional_roles(doc: &Json, key: &str) -> (roles: Option<Option<Vec<String>>>)
    ensures
        match roles {
            Some(Some(roles)) => optional_roles(doc@, key@) == Some(Some(texts(roles@))),
            Some(None) => optional_roles(doc@, key@) == Some(None::<Seq<Seq<char>>>),
            None => optional_roles(doc@, key@) is None,
        },
{
    match doc.get(key) {
        None => Some(None),
        Some(Json::Null) => Some(None),
        Some(access) => match access.required_text_list("roles") {
            Some(roles) => Some(Some(roles)),
            None => None,
        },
    }
}

/// Reads the grants of the object under `resource_access`.
fn read_resource_access(doc: &Json) -> (access: Option<Option<ResourceAccess>>)
    ensures
        match access {
            Some(Some(access)) => optional_resource_access(doc@) == Some(Some(access@)),
            Some(None) => optional_resource_access(doc@) == Some(None::<ResourceAccessView>),
            None => optional_resource_access(doc@) is None,
        },
{
    match doc.get("resource_access") {
        None => Some(None),
        Some(Json::Null) => Some(None),
        Some(access) => {
            match access {
                Json::Object(_) => {},
                _ => {
                    return None;
                },
            }
            let account = match read_optional_roles(access, "account") {
                Some(Some(roles)) => Some(ClientAccess { roles }),
                Some(None) => None,
                None => {
                    return None;
                },
            };
            let blog_admin = match read_optional_roles(access, "blog-admin") {
                Some(Some(roles)) => Some(ClientAccess { roles }),
                Some(None) => None,
                None => {
                    return None;
                },
            };
            Some(Some(ResourceAccess { account, blog_admin }))
        },
    }
}

/// Reads a payload out of a JSON document.
pub fn payload_from_json(doc: &Json) -> (payload: Option<JwtPayload>)
    ensures
        match payload {
            Some(payload) => payload_of(doc@) == Some(payload@),
            None => payload_of(doc@) is None,
        },
{
    let iss = match doc.required_text("iss") {
        Some(text) => text,
        None => {
            return None;
        },
    };
    let sub = match doc.required_text("sub") {
        Some(text) => text,
        None => {
            return None;
        },
    };
    let aud = match doc.required_text("aud") {
        Some(text) => text,
        None => {
            return None;
        },
    };
    let exp = match doc.required_unsigned("exp") {
        Some(number) => number,
        None => {
            return None;
        },
    };
    let iat = match doc.required_unsigned("iat") {
        Some(number) => number,
        None => {
            return None;
        },
    };
    let jti = match doc.optional_text("jti") {
        Some(text) => text,
        None => {
            return None;
        },
    };
    let typ = match doc.optional_text("typ") {
        Some(text) => text,
        None => {
            return None;
        },
    };
    let azp = match doc.optional_text("azp") {
        Some(text) => text,
        None => {
            return None;
        },
    };
    let sid = match doc.optional_text("sid") {
        Some(text) => text,
        None => {
            return None;
        },
    };
    let acr = match doc.optional_text("acr") {
        Some(text) => text,
        None => {
            return None;
        },
    };
    let allowed_origins = match doc.optional_text_list("allowed-origins") {
        Some(list) => list,
        None => {
            return None;
        },
    };
    let realm_access = match read_optional_roles(doc, "realm_access") {
        Some(Some(roles)) => Some(RealmAccess { roles }),
        Some(None) => None,
        None => {
            return None;
        },
    };
    let resource_access = match read_resource_access(doc) {
        Some(access) => access,
        None => {
            return None;
        },
    };
    let scope = match doc.optional_text("scope") {
        Some(text) => text,
        None => {
            return None;
        },
    };
    let email_verified = match doc.optional_flag("email_verified") {
        Some(flag) => flag,
        None => {
            return None;
        },
    };
    let name = match doc.optional_text("name") {
        Some(text) => text,
        None => {
            return None;
        },
    };
    let preferred_username = match doc.optional_text("preferred_username") {
        Some(text) => text,
        None => {
            return None;
        },
    };
    let given_name = match doc.optional_text("given_name") {
        Some(text) => text,
        None => {
            return None;
        },
    };
    let family_name = match doc.optional_text("family_name") {
        Some(text) => text,
        None => {
            return None;
        },
    };
    let email = match doc.optional_text("email") {
        Some(text) => text,
        None => {
            return None;
        },
    };
    Some(
        JwtPayload {
            iss,
            sub,
            aud,
            exp,
            iat,
            jti,
            typ,
            azp,
            sid,
            acr,
            allowed_origins,
            realm_access,
            resource_access,
            scope,
            email_verified,
            name,
            preferred_username,
            given_name,
            family_name,
            email,
        },
    )
}

/// The claims that a payload makes: its subject, with the roles of the realm where the
/// payload names a realm, else those of the client `blog-admin` where it names that client,
/// else none.
pub fn claims_of_payload(payload: JwtPayload) -> (claims: Claims)
    ensures
        claims@ == payload_claims(payload@),
{
    let roles = match payload.realm_access {
        Some(access) => access.roles,
        None => match payload.resource_access {
            Some(access) => match access.blog_admin {
                Some(client) => client.roles,
                None => Vec::new(),
            },
            None => Vec::new(),
        },
    };
    assert(roles@.len() == 0 ==> texts(roles@) =~= Seq::<Seq<char>>::empty());
    Claims { sub: payload.sub, roles }
}

/// The bytes that `text` stands for in base64 with the URL-safe alphabet and without padding,
/// as the crate `base64` decodes it; `None` where it reports an error.
pub uninterp spec fn base64url_decoded(text: Seq<char>) -> Option<Seq<u8>>;

/// `Engine::decode` of `base64::engine::general_purpose::URL_SAFE_NO_PAD`.
#[verifier::external_body]
fn decode_base64url(text: &str) -> (bytes: Option<Vec<u8>>)
    ensures
        match bytes {
            Some(bytes) => base64url_decoded(text@) == Some(bytes@),
            None => base64url_decoded(text@) is None,
        },
{
    base64::engine::general_purpose::URL_SAFE_NO_PAD.decode(text).ok()
}

/// The JSON document that the middle segment of a token holds, or the step at which the token
/// fails to give one: it does not have three segments, its middle segment is not base64url,
/// or the bytes are not JSON.
pub open spec fn payload_document(token: Seq<char>) -> Result<JsonValue, AuthError> {
    match middle_of_three(token) {
        None => Err(AuthError::TokenFormatInvalid),
        Some(middle) => match base64url_decoded(middle) {
            None => Err(AuthError::TokenDecodeFailure),
            Some(bytes) => match json_document(bytes) {
                None => Err(AuthError::TokenParseFailure),
                Some(doc) => Ok(doc),
            },
        },
    }
}

/// The claims that a token makes when nobody checks its signature: those of the payload in
/// its middle segment.
pub open spec fn unverified_claims(token: Seq<char>) -> Result<ClaimsView, AuthError> {
    match payload_document(token) {
        Err(e) => Err(e),
        Ok(doc) => match payload_of(doc) {
            None => Err(AuthError::TokenParseFailure),
            Some(payload) => Ok(payload_claims(payload)),
        },
    }
}

/// Reads the JSON document in the middle segment of a token.
pub fn payload_json(token: &str) -> (doc: Result<Json, AuthError>)
    ensures
        match doc {
            Ok(doc) => payload_document(token@) == Ok::<JsonValue, AuthError>(doc@),
            Err(e) => payload_document(token@) == Err::<JsonValue, AuthError>(e),
        },
{
    let middle = match middle_segment(token) {
        Some(middle) => middle,
        None => {
            return Err(AuthError::TokenFormatInvalid);
        },
    };
    let bytes = match decode_base64url(middle) {
        Some(bytes) => bytes,
        None => {
            return Err(AuthError::TokenDecodeFailure);
        },
    };
    match parse(bytes.as_slice()) {
        Some(doc) => Ok(doc),
        None => Err(AuthError::TokenParseFailure),
    }
}

/// Reads the claims of a token without checking its signature, its issuer or its expiry:
/// whoever writes a payload of the right form into the middle segment is believed.
pub fn decode_keycloak_token_without_verification(token: &str) -> (claims: Result<
    Claims,
    AuthError,
>)
    ensures
        match claims {
            Ok(claims) => unverified_claims(token@) == Ok::<ClaimsView, AuthError>(claims@),
            Err(e) => unverified_claims(token@) == Err::<ClaimsView, AuthError>(e),
        },
{
    let doc = match payload_json(token) {
        Ok(doc) => doc,
        Err(e) => {
            return Err(e);
        },
    };
    match payload_from_json(&doc) {
        Some(payload) => Ok(claims_of_payload(payload)),
        None => Err(AuthError::TokenParseFailure),
    }
}

/// The claims of a development token: its subject and roles.
pub open spec fn test_claims_as_claims(claims: TestClaimsView) -> ClaimsView {
    ClaimsView { sub: claims.sub, roles: claims.roles }
}

/// The claims that follow from the outcome of the development path and from the token: those
/// of the development path where it accepted the token, else those of the payload, read
/// without verification.
pub open spec fn resolved_claims(local: Option<TestClaimsView>, token: Seq<char>) -> Result<
    ClaimsView,
    AuthError,
> {
    match local {
        Some(claims) => Ok(test_claims_as_claims(claims)),
        None => unverified_claims(token),
    }
}

/// Settles the claims of a normalized token once the development path has spoken: its claims
/// where it accepted the token, else what the payload says, unverified.
pub fn resolve_claims(local: Option<TestClaims>, token: &str) -> (claims: Result<Claims, AuthError>)
    ensures
        match claims {
            Ok(claims) => resolved_claims(test_token::optional_view(local), token@) == Ok::<
                ClaimsView,
                AuthError,
            >(claims@),
            Err(e) => resolved_claims(test_token::optional_view(local), token@) == Err::<
                ClaimsView,
                AuthError,
            >(e),
        },
{
    match local {
        Some(claims) => Ok(Claims { sub: claims.sub, roles: claims.roles }),
        None => decode_keycloak_token_without_verification(token),
    }
}

/// The value of the outcome of a validation.
pub open spec fn claims_outcome(outcome: Result<Claims, AuthError>) -> Result<
    ClaimsView,
    AuthError,
> {
    match outcome {
        Ok(claims) => Ok(claims@),
        Err(e) => Err(e),
    }
}

/// What the validation of a token gives when the clock shows `now`: the claims of the
/// development path where it accepts the normalized token at that time, else those of the
/// payload, read without verification.
pub open spec fn validated_at(token: Seq<char>, now: int) -> Result<ClaimsView, AuthError> {
    match test_claims_at(normalized(token), now) {
        Ok(local) => Ok(test_claims_as_claims(local)),
        Err(_) => unverified_claims(normalized(token)),
    }
}

/// Validates a token: first as a development token, signed with the development secret and
/// not expired, then, where that fails, by reading its payload without verification.
///
/// Whether the development path accepts a token depends on the clock. The outcome is the
/// one that belongs to the time the decoder reads. Whatever that time is, an error is the
/// error of the unverified path, claims are those that one of the two paths reads from the
/// token, and a token whose payload reads as claims is never refused.
pub fn validate_token(token: &str) -> (claims: Result<Claims, AuthError>)
    ensures
        exists|now: int| claims_outcome(claims) == #[trigger] validated_at(token@, now),
        match claims {
            Ok(claims) => {
                ||| local_claims(normalized(token@)) matches Some(local) && claims@
                    == test_claims_as_claims(local)
                ||| unverified_claims(normalized(token@)) == Ok::<ClaimsView, AuthError>(claims@)
            },
            Err(e) => unverified_claims(normalized(token@)) == Err::<ClaimsView, AuthError>(e),
        },
        unverified_claims(normalized(token@)) is Ok ==> claims is Ok,
{
    let normal = normalize_token(token);
    let checked = validate_test_token(normal);
    let ghost now = choose|now: int| outcome_view(checked) == #[trigger] test_claims_at(normal@, now);
    let local = match checked {
        Ok(claims) => Some(claims),
        Err(_) => None,
    };
    let claims = resolve_claims(local, normal);
    assert(claims_outcome(claims) == validated_at(token@, now));
    claims
}

/// Where the identity provider is found.
#[derive(Debug, Clone, PartialEq, Eq)]
pub struct KeycloakConfig {
    pub realm: String,
    pub client_id: String,
    pub issuer_url: String,
    pub public_key: String,
}

impl Default for KeycloakConfig {
    /// The local development realm, with no public key yet.
    fn default() -> (config: Self)
        ensures
            config.realm@ == "blog-realm"@,
            config.client_id@ == "blog-backend"@,
            config.issuer_url@ == "http://localhost:8080/realms/blog-realm"@,
            config.public_key@ == Seq::<char>::empty(),
    {
        KeycloakConfig {
            realm: "blog-realm".to_owned(),
            client_id: "blog-backend".to_owned(),
            issuer_url: "http://localhost:8080/realms/blog-realm".to_owned(),
            public_key: String::new(),
        }
    }
}

} // verus!
