use crate::auth::jwt::{
    bearer_prefix, claims_outcome, extract_token_from_header, validate_token, validated_at,
};
use crate::text::{optional_text_view, same_text, texts};
use vstd::prelude::*;

pub mod jwt;

verus! {

/// Who a request comes from and what they may do.
#[derive(Debug, Clone, PartialEq, Eq)]
pub struct Claims {
    pub sub: String,
    pub roles: Vec<String>,
}

/// The mathematical value of `Claims`.
pub struct ClaimsView {
    pub sub: Seq<char>,
    pub roles: Seq<Seq<char>>,
}

impl View for Claims {
    type V = ClaimsView;

    open spec fn view(&self) -> ClaimsView {
        ClaimsView { sub: self.sub@, roles: texts(self.roles@) }
    }
}

/// Why a request was turned away.
#[derive(Debug, Clone, Copy, PartialEq, Eq, Structural)]
pub enum AuthError {
    /// The request carries no `Authorization` header.
    HeaderMissing,
    /// The header does not start with `Bearer `.
    HeaderFormatInvalid,
    /// The token does not have three segments.
    TokenFormatInvalid,
    /// The token's middle segment is not base64url.
    TokenDecodeFailure,
    /// The token's payload is not JSON, or not a payload.
    TokenParseFailure,
    /// The claims lack the role asked for.
    RoleInsufficient,
}

/// The role that the admin routes ask for.
pub open spec fn author_role() -> Seq<char> {
    "author"@
}

impl AuthError {
    /// Whether the caller is known but not allowed, rather than not known.
    pub open spec fn forbidden(self) -> bool {
        self is RoleInsufficient
    }

    /// The HTTP status that answers a request turned away for this reason: 403 where the
    /// caller is known but lacks the role, 401 otherwise.
    pub fn status(&self) -> (code: u16)
        ensures
            code == if self.forbidden() {
                403u16
            } else {
                401u16
            },
    {
        match self {
            AuthError::RoleInsufficient => 403,
            _ => 401,
        }
    }

    /// The short name of the failure, as the response body gives it.
    pub fn error(&self) -> (text: &'static str)
        ensures
            text@ == match *self {
                AuthError::HeaderMissing => "Missing Authorization header"@,
                AuthError::HeaderFormatInvalid => "Invalid Authorization header format"@,
                AuthError::RoleInsufficient => "Insufficient permissions"@,
                _ => "Invalid or expired token"@,
            },
    {
        match self {
            AuthError::HeaderMissing => "Missing Authorization header",
            AuthError::HeaderFormatInvalid => "Invalid Authorization header format",
            AuthError::RoleInsufficient => "Insufficient permissions",
            _ => "Invalid or expired token",
        }
    }

    /// What the caller should do about it, as the response body gives it.
    pub fn message(&self) -> (text: &'static str)
        ensures
            text@ == if self.forbidden() {
                "You need the 'author' role to access this endpoint"@
            } else {
                "Please provide a valid Bearer token"@
            },
    {
        match self {
            AuthError::RoleInsufficient => "You need the 'author' role to access this endpoint",
            _ => "Please provide a valid Bearer token",
        }
    }
}

/// Whether `role` is among the roles of `claims`.
pub fn has_role(claims: &Claims, role: &str) -> (held: bool)
    ensures
        held == claims@.roles.contains(role@),
{
    let mut i: usize = 0;
    while i < claims.roles.len()
        invariant
            i <= claims.roles.len(),
            forall|k: int| 0 <= k < i ==> #[trigger] claims@.roles[k] != role@,
        decreases claims.roles.len() - i,
    {
        if same_text(claims.roles[i].as_str(), role) {
            assert(claims@.roles[i as int] == role@);
            return true;
        }
        i += 1;
    }
    false
}

/// What becomes of the outcome of a validation on the admin routes: claims that hold the
/// role `author` pass, other claims are turned away, and a failure stays what it is.
pub open spec fn with_author_required(outcome: Result<ClaimsView, AuthError>) -> Result<
    ClaimsView,
    AuthError,
> {
    match outcome {
        Ok(claims) => if claims.roles.contains(author_role()) {
            Ok(claims)
        } else {
            Err(AuthError::RoleInsufficient)
        },
        Err(e) => Err(e),
    }
}

/// What becomes of a request to the admin routes when the clock shows `now`, from its
/// `Authorization` header: a request without the header, or with one that does not start
/// with `Bearer `, is turned away; else the token behind `Bearer ` is validated and has to
/// hold the role `author`.
pub open spec fn authorized_at(authorization: Option<Seq<char>>, now: int) -> Result<
    ClaimsView,
    AuthError,
> {
    match authorization {
        None => Err(AuthError::HeaderMissing),
        Some(header) => if bearer_prefix().is_prefix_of(header) {
            with_author_required(validated_at(header.skip(bearer_prefix().len() as int), now))
        } else {
            Err(AuthError::HeaderFormatInvalid)
        },
    }
}

/// Lets claims pass that hold the role `author`, and turns the others away.
pub fn require_author(outcome: Result<Claims, AuthError>) -> (admitted: Result<Claims, AuthError>)
    ensures
        admitted == match outcome {
            Ok(claims) => if claims@.roles.contains(author_role()) {
                Ok(claims)
            } else {
                Err(AuthError::RoleInsufficient)
            },
            Err(e) => Err(e),
        },
        claims_outcome(admitted) == with_author_required(claims_outcome(outcome)),
{
    match outcome {
        Ok(claims) => if has_role(&claims, "author") {
            Ok(claims)
        } else {
            Err(AuthError::RoleInsufficient)
        },
        Err(e) => Err(e),
    }
}

/// Decides whether a request to the admin routes may pass, from its `Authorization` header.
///
/// A request without the header, or with one that does not start with `Bearer `, is turned
/// away before a token is looked at. Otherwise the token is validated, and its claims have
/// to hold the role `author`. The claims that come back are to be attached to the request.
/// The outcome is the one that belongs to the time the decoder reads.
pub fn auth_middleware(authorization: Option<&str>) -> (admitted: Result<Claims, AuthError>)
    ensures
        exists|now: int|
            claims_outcome(admitted) == #[trigger] authorized_at(
                optional_text_view(authorization),
                now,
            ),
        authorization is None ==> admitted == Err::<Claims, AuthError>(AuthError::HeaderMissing),
        authorization matches Some(header) && !bearer_prefix().is_prefix_of(header@) ==> admitted
            == Err::<Claims, AuthError>(AuthError::HeaderFormatInvalid),
        admitted matches Ok(claims) ==> claims@.roles.contains(author_role()),
{
    let header = match authorization {
        Some(header) => header,
        None => {
            assert(authorized_at(optional_text_view(authorization), 0) == Err::<
                ClaimsView,
                AuthError,
            >(AuthError::HeaderMissing));
            return Err(AuthError::HeaderMissing);
        },
    };
    let token = match extract_token_from_header(header) {
        Ok(token) => token,
        Err(e) => {
            assert(authorized_at(optional_text_view(authorization), 0) == Err::<
                ClaimsView,
                AuthError,
            >(AuthError::HeaderFormatInvalid));
            return Err(e);
        },
    };
    assert(header@.skip(bearer_prefix().len() as int) =~= token@);
    assert(bearer_prefix().is_prefix_of(header@));
    let outcome = validate_token(token);
    let ghost now = choose|now: int| claims_outcome(outcome) == #[trigger] validated_at(token@, now);
    let admitted = require_author(outcome);
    assert(claims_outcome(admitted) == authorized_at(optional_text_view(authorization), now));
    admitted
}

} // verus!
