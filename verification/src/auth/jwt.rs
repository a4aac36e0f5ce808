use vstd::prelude::*;
use crate::clock::now_millis;
use crate::db::models::{User, UserRole};
use crate::error::AppError;
use crate::json::{
    insert_number, insert_text, member_number, member_text, new_object, object_names,
    object_numbers, object_texts, plain_object, JsonObject,
};
use crate::text::{begins_with, joined, owned, same_text};

verus! {

/// Access tokens live for a quarter of an hour.
pub const ACCESS_TOKEN_DURATION: i64 = 900;

/// Refresh tokens live for a week.
pub const REFRESH_TOKEN_DURATION: i64 = 604_800;

/// What a token says about its bearer. `exp` and `iat` are in seconds since
/// the Unix epoch.
#[derive(Debug, PartialEq, Eq)]
pub struct Claims {
    pub sub: String,
    pub email: String,
    pub role: UserRole,
    pub exp: i64,
    pub iat: i64,
    pub token_type: String,
}

pub struct ClaimsView {
    pub sub: Seq<char>,
    pub email: Seq<char>,
    pub role: UserRole,
    pub exp: i64,
    pub iat: i64,
    pub token_type: Seq<char>,
}

impl View for Claims {
    type V = ClaimsView;

    open spec fn view(&self) -> ClaimsView {
        ClaimsView {
            sub: self.sub@,
            email: self.email@,
            role: self.role,
            exp: self.exp,
            iat: self.iat,
            token_type: self.token_type@,
        }
    }
}

impl Clone for Claims {
    fn clone(&self) -> (r: Self)
        ensures
            r@ == self@,
    {
        Claims {
            sub: self.sub.clone(),
            email: self.email.clone(),
            role: self.role,
            exp: self.exp,
            iat: self.iat,
            token_type: self.token_type.clone(),
        }
    }
}

/// An access token with the refresh token to renew it.
#[derive(Debug)]
pub struct TokenPair {
    pub access_token: String,
    pub refresh_token: String,
    pub token_type: String,
    pub expires_in: i64,
}

/// How decoding a token failed.
#[derive(Debug, Clone, Copy, PartialEq, Eq, Structural)]
pub enum TokenFailure {
    /// The token is past its expiry.
    Expired,
    /// The text does not have the shape of a token.
    Malformed,
    /// Anything else: a bad signature, a missing expiry and the like.
    Other,
}

/// The error of jsonwebtoken. It is opaque here.
#[verifier::external_type_specification]
#[verifier::external_body]
pub struct ExJwtError(jsonwebtoken::errors::Error);

/// The token that signing the claims in a JSON object with `secret` gives,
/// or `None` where jsonwebtoken reports an error.
pub uninterp spec fn signed_token(
    texts: Map<Seq<char>, Seq<char>>,
    numbers: Map<Seq<char>, int>,
    secret: Seq<char>,
) -> Option<Seq<char>>;

/// Signs a claims object with `jsonwebtoken::encode`, under the default
/// header (HS256) and the key `EncodingKey::from_secret` of the secret's
/// bytes. The object is written with its members in the order of their
/// names, so the token depends on the members and the secret alone, which
/// is all the contract says. It is stated for objects whose members are all
/// strings or integers, since of other members the contract could not speak.
#[verifier::external_body]
fn sign(object: &JsonObject, secret: &str) -> (r: Result<String, jsonwebtoken::errors::Error>)
    requires
        plain_object(*object),
    ensures
        r is Ok ==> signed_token(object_texts(*object), object_numbers(*object), secret@) == Some(
            r->Ok_0@,
        ),
        r is Err ==> signed_token(object_texts(*object), object_numbers(*object), secret@) is None,
{
    let key = jsonwebtoken::EncodingKey::from_secret(secret.as_bytes());
    jsonwebtoken::encode(&jsonwebtoken::Header::default(), object, &key)
}

/// Checks and decodes a token with `jsonwebtoken::decode`, under the default
/// validation (HS256, an expiry that has not passed, with a minute's leeway)
/// and the key `DecodingKey::from_secret` of the secret's bytes, and hands
/// out the claims object. The outcome depends on the clock, so nothing is
/// claimed of it.
#[verifier::external_body]
fn decode(token: &str, secret: &str) -> (r: Result<JsonObject, jsonwebtoken::errors::Error>) {
    let key = jsonwebtoken::DecodingKey::from_secret(secret.as_bytes());
    jsonwebtoken::decode::<JsonObject>(token, &key, &jsonwebtoken::Validation::default()).map(
        |data| data.claims,
    )
}

/// Tells the kinds of `jsonwebtoken::errors::Error::kind` apart that the
/// library answers differently.
#[verifier::external_body]
fn failure_kind(error: &jsonwebtoken::errors::Error) -> (r: TokenFailure) {
    match error.kind() {
        jsonwebtoken::errors::ErrorKind::ExpiredSignature => TokenFailure::Expired,
        jsonwebtoken::errors::ErrorKind::InvalidToken => TokenFailure::Malformed,
        _ => TokenFailure::Other,
    }
}

/// The text of a jsonwebtoken error, as its `Display` gives it.
#[verifier::external_body]
fn failure_text(error: &jsonwebtoken::errors::Error) -> (r: String) {
    error.to_string()
}

/// The name of a role inside a token.
pub open spec fn role_title(role: UserRole) -> Seq<char> {
    match role {
        UserRole::Admin => "Admin"@,
        UserRole::User => "User"@,
        UserRole::Viewer => "Viewer"@,
    }
}

/// The role that a token names.
pub open spec fn role_titled(title: Seq<char>) -> Option<UserRole> {
    if title == "Admin"@ {
        Some(UserRole::Admin)
    } else if title == "User"@ {
        Some(UserRole::User)
    } else if title == "Viewer"@ {
        Some(UserRole::Viewer)
    } else {
        None
    }
}

fn title_of(role: UserRole) -> (r: &'static str)
    ensures
        r@ == role_title(role),
{
    match role {
        UserRole::Admin => "Admin",
        UserRole::User => "User",
        UserRole::Viewer => "Viewer",
    }
}

fn role_of(title: &str) -> (r: Option<UserRole>)
    ensures
        r == role_titled(title@),
{
    if same_text(title, "Admin") {
        Some(UserRole::Admin)
    } else if same_text(title, "User") {
        Some(UserRole::User)
    } else if same_text(title, "Viewer") {
        Some(UserRole::Viewer)
    } else {
        None
    }
}

/// A sum of seconds, kept within 64 bits.
pub open spec fn clamped(seconds: int) -> i64 {
    if seconds > i64::MAX {
        i64::MAX
    } else if seconds < i64::MIN {
        i64::MIN
    } else {
        seconds as i64
    }
}

fn add_seconds(a: i64, b: i64) -> (r: i64)
    ensures
        r == clamped(a + b),
{
    if b >= 0 {
        if a > i64::MAX - b {
            i64::MAX
        } else {
            a + b
        }
    } else {
        if a < i64::MIN - b {
            i64::MIN
        } else {
            a + b
        }
    }
}

/// The whole seconds, rounded down, of an instant in milliseconds.
pub open spec fn whole_seconds(millis: i64) -> int {
    millis as int / 1000
}

/// Converts an instant in milliseconds to whole seconds, rounding down, so
/// that instants before the epoch round away from it.
pub fn seconds_of(millis: i64) -> (r: i64)
    ensures
        r == whole_seconds(millis),
{
    if millis >= 0 {
        millis / 1000
    } else {
        let back: i64 = -(millis + 1);
        -(back / 1000) - 1
    }
}

/// The current time in whole seconds since the Unix epoch, rounded down:
/// the whole seconds of what the clock reads in milliseconds.
pub(crate) fn now_seconds() -> (r: i64)
    ensures
        exists|millis: i64| r == #[trigger] whole_seconds(millis),
{
    let millis = now_millis();
    seconds_of(millis)
}

/// The claims of a token of `user` issued at `now` for `duration` seconds.
pub open spec fn claims_for(user: User, token_type: Seq<char>, duration: i64, now: i64) -> ClaimsView {
    ClaimsView {
        sub: user.id@,
        email: user.email@,
        role: user.role,
        exp: clamped(now + duration),
        iat: now,
        token_type,
    }
}

impl Claims {
    /// The claims of a token of `user` issued at `now`.
    pub fn issued_at(user: &User, token_type: &str, duration: i64, now: i64) -> (r: Self)
        ensures
            r@ == claims_for(*user, token_type@, duration, now),
    {
        Claims {
            sub: user.id.clone(),
            email: user.email.clone(),
            role: user.role,
            exp: add_seconds(now, duration),
            iat: now,
            token_type: owned(token_type),
        }
    }

    /// The claims of a token of `user` issued now.
    pub fn new(user: &User, token_type: &str, duration: i64) -> (r: Self)
        ensures
            r@ == claims_for(*user, token_type@, duration, r.iat),
    {
        Claims::issued_at(user, token_type, duration, now_seconds())
    }
}

/// The string members of the claims object.
pub open spec fn claim_texts(claims: ClaimsView) -> Map<Seq<char>, Seq<char>> {
    Map::<Seq<char>, Seq<char>>::empty().insert("sub"@, claims.sub).insert(
        "email"@,
        claims.email,
    ).insert("role"@, role_title(claims.role)).insert("token_type"@, claims.token_type)
}

/// The integer members of the claims object.
pub open spec fn claim_numbers(claims: ClaimsView) -> Map<Seq<char>, int> {
    Map::<Seq<char>, int>::empty().insert("exp"@, claims.exp as int).insert(
        "iat"@,
        claims.iat as int,
    )
}

proof fn lemma_claim_names_differ()
    ensures
        "sub"@ != "email"@,
        "sub"@ != "role"@,
        "sub"@ != "token_type"@,
        "sub"@ != "exp"@,
        "sub"@ != "iat"@,
        "email"@ != "role"@,
        "email"@ != "token_type"@,
        "email"@ != "exp"@,
        "email"@ != "iat"@,
        "role"@ != "token_type"@,
        "role"@ != "exp"@,
        "role"@ != "iat"@,
        "token_type"@ != "exp"@,
        "token_type"@ != "iat"@,
        "exp"@ != "iat"@,
{
    reveal_strlit("sub");
    reveal_strlit("email");
    reveal_strlit("role");
    reveal_strlit("token_type");
    reveal_strlit("exp");
    reveal_strlit("iat");
    assert("sub"@[0] == 's');
    assert("email"@[0] == 'e');
    assert("role"@[0] == 'r');
    assert("token_type"@[0] == 't');
    assert("exp"@[1] == 'x');
    assert("email"@[1] == 'm');
    assert("iat"@[0] == 'i');
}

/// The JSON object that carries the claims.
pub fn claims_object(claims: &Claims) -> (r: JsonObject)
    ensures
        object_texts(r) == claim_texts(claims@),
        object_numbers(r) == claim_numbers(claims@),
        plain_object(r),
{
    proof {
        lemma_claim_names_differ();
    }
    let mut object = new_object();
    insert_text(&mut object, "sub", claims.sub.as_str());
    insert_text(&mut object, "email", claims.email.as_str());
    insert_text(&mut object, "role", title_of(claims.role));
    insert_text(&mut object, "token_type", claims.token_type.as_str());
    insert_number(&mut object, "exp", claims.exp);
    insert_number(&mut object, "iat", claims.iat);
    assert(object_texts(object) =~= claim_texts(claims@));
    assert(object_numbers(object) =~= claim_numbers(claims@));
    assert(object_names(object) =~= object_texts(object).dom().union(object_numbers(object).dom()));
    object
}

/// What reading the claims off an object gives: the claims where all six
/// members are there and the role is a known one, and an authentication
/// error otherwise.
pub open spec fn claims_in(
    texts: Map<Seq<char>, Seq<char>>,
    numbers: Map<Seq<char>, int>,
) -> Option<ClaimsView> {
    if texts.contains_key("sub"@) && texts.contains_key("email"@) && texts.contains_key("role"@)
        && texts.contains_key("token_type"@) && numbers.contains_key("exp"@)
        && numbers.contains_key("iat"@) && role_titled(texts["role"@]) is Some {
        Some(
            ClaimsView {
                sub: texts["sub"@],
                email: texts["email"@],
                role: role_titled(texts["role"@])->Some_0,
                exp: numbers["exp"@] as i64,
                iat: numbers["iat"@] as i64,
                token_type: texts["token_type"@],
            },
        )
    } else {
        None
    }
}

/// A role is found again under its own title.
pub proof fn lemma_role_round_trip(role: UserRole)
    ensures
        role_titled(role_title(role)) == Some(role),
{
    reveal_strlit("Admin");
    reveal_strlit("User");
    reveal_strlit("Viewer");
    assert("Admin"@.len() == 5);
    assert("User"@.len() == 4);
    assert("Viewer"@.len() == 6);
}

/// Claims survive their object form: reading the object that carries some
/// claims gives the same claims back.
pub proof fn lemma_claims_round_trip(claims: ClaimsView)
    ensures
        claims_in(claim_texts(claims), claim_numbers(claims)) == Some(claims),
{
    lemma_claim_names_differ();
    lemma_role_round_trip(claims.role);
}

fn claims_incomplete() -> (r: AppError)
    ensures
        r is AuthError,
        r->AuthError_0@ == "Token verification failed: claims are incomplete"@,
{
    AppError::AuthError(owned("Token verification failed: claims are incomplete"))
}

/// Reads the claims off a decoded claims object.
pub fn read_claims(object: &JsonObject) -> (r: Result<Claims, AppError>)
    ensures
        match claims_in(object_texts(*object), object_numbers(*object)) {
            Some(claims) => r is Ok && r->Ok_0@ == claims,
            None => r is Err && r->Err_0 is AuthError && r->Err_0->AuthError_0@
                == "Token verification failed: claims are incomplete"@,
        },
{
    let sub = match member_text(object, "sub") {
        Some(v) => v,
        None => {
            return Err(claims_incomplete());
        },
    };
    let email = match member_text(object, "email") {
        Some(v) => v,
        None => {
            return Err(claims_incomplete());
        },
    };
    let role = match member_text(object, "role") {
        Some(v) => match role_of(v.as_str()) {
            Some(role) => role,
            None => {
                return Err(claims_incomplete());
            },
        },
        None => {
            return Err(claims_incomplete());
        },
    };
    let token_type = match member_text(object, "token_type") {
        Some(v) => v,
        None => {
            return Err(claims_incomplete());
        },
    };
    let exp = match member_number(object, "exp") {
        Some(v) => v,
        None => {
            return Err(claims_incomplete());
        },
    };
    let iat = match member_number(object, "iat") {
        Some(v) => v,
        None => {
            return Err(claims_incomplete());
        },
    };
    Ok(Claims { sub, email, role, exp, iat, token_type })
}

/// The message that answers a token that failed to decode; `detail` is what
/// jsonwebtoken said of the failure.
pub open spec fn token_failure_message(kind: TokenFailure, detail: Seq<char>) -> Seq<char> {
    match kind {
        TokenFailure::Expired => "Token has expired"@,
        TokenFailure::Malformed => "Invalid token format"@,
        TokenFailure::Other => "Token verification failed: "@ + detail,
    }
}

/// The error that answers a token that failed to decode.
pub fn token_failure(kind: TokenFailure, detail: &str) -> (r: AppError)
    ensures
        r is AuthError,
        r->AuthError_0@ == token_failure_message(kind, detail@),
{
    match kind {
        TokenFailure::Expired => AppError::AuthError(owned("Token has expired")),
        TokenFailure::Malformed => AppError::AuthError(owned("Invalid token format")),
        TokenFailure::Other => AppError::AuthError(joined("Token verification failed: ", detail)),
    }
}

/// What decoding a token gives: its claims object, or the kind of the
/// failure with what jsonwebtoken said of it.
pub type Decoded = Result<JsonObject, (TokenFailure, String)>;

/// Whether `r` is what verification makes of a decoded token: the claims
/// that the object holds, an authentication error for an object whose
/// claims are incomplete, and for a token that failed to decode the
/// authentication error of the failure.
pub open spec fn verified_as(decoded: Decoded, r: Result<Claims, AppError>) -> bool {
    match decoded {
        Ok(object) => match claims_in(object_texts(object), object_numbers(object)) {
            Some(claims) => r is Ok && r->Ok_0@ == claims,
            None => r is Err && r->Err_0 is AuthError && r->Err_0->AuthError_0@
                == "Token verification failed: claims are incomplete"@,
        },
        Err(failure) => r is Err && r->Err_0 is AuthError && r->Err_0->AuthError_0@
            == token_failure_message(failure.0, failure.1@),
    }
}

/// Turns a decoded token into its claims, or into the error that answers it.
pub fn claims_of(decoded: Decoded) -> (r: Result<Claims, AppError>)
    ensures
        verified_as(decoded, r),
{
    match decoded {
        Ok(object) => read_claims(&object),
        Err(failure) => Err(token_failure(failure.0, failure.1.as_str())),
    }
}

/// Checks the signature and the expiry of a token against `secret` and
/// returns its claims.
///
/// Whether the token decodes is for jsonwebtoken and the clock to say. The
/// result is what `claims_of` makes of the outcome, whatever it is, so every
/// failure is an authentication error.
pub fn verify_token(token: &str, secret: &str) -> (r: Result<Claims, AppError>)
    ensures
        exists|decoded: Decoded| #[trigger] verified_as(decoded, r),
        r is Err ==> r->Err_0 is AuthError,
{
    let decoded: Decoded = match decode(token, secret) {
        Ok(object) => Ok(object),
        Err(error) => {
            let kind = failure_kind(&error);
            let detail = failure_text(&error);
            Err((kind, detail))
        },
    };
    let ghost outcome = decoded;
    let r = claims_of(decoded);
    assert(verified_as(outcome, r));
    r
}

/// Lets claims pass that belong to a refresh token.
pub fn require_refresh(claims: Claims) -> (r: Result<Claims, AppError>)
    ensures
        claims.token_type@ == "refresh"@ ==> r == Ok::<Claims, AppError>(claims),
        claims.token_type@ != "refresh"@ ==> r is Err && r->Err_0 is AuthError
            && r->Err_0->AuthError_0@ == "Invalid token type"@,
{
    if same_text(claims.token_type.as_str(), "refresh") {
        Ok(claims)
    } else {
        Err(AppError::AuthError(owned("Invalid token type")))
    }
}

/// Verifies a token as `verify_token` does and insists that it is a refresh
/// token.
pub fn verify_refresh_token(token: &str, secret: &str) -> (r: Result<Claims, AppError>)
    ensures
        r is Ok ==> r->Ok_0.token_type@ == "refresh"@,
        r is Err ==> r->Err_0 is AuthError,
{
    match verify_token(token, secret) {
        Ok(claims) => require_refresh(claims),
        Err(error) => Err(error),
    }
}

/// Whether `r` is what signing `claims` with `secret` gives: the token, or
/// an internal error whose message starts with `context` where jsonwebtoken
/// reports an error.
pub open spec fn signed_as(
    claims: ClaimsView,
    secret: Seq<char>,
    context: Seq<char>,
    r: Result<String, AppError>,
) -> bool {
    match signed_token(claim_texts(claims), claim_numbers(claims), secret) {
        Some(token) => r is Ok && r->Ok_0@ == token,
        None => r is Err && r->Err_0 is InternalError && begins_with(
            r->Err_0->InternalError_0@,
            context,
        ),
    }
}

/// Signs claims with `secret`. A failure is an internal error whose message
/// starts with `context`.
pub fn encode_claims(claims: &Claims, secret: &str, context: &str) -> (r: Result<String, AppError>)
    ensures
        signed_as(claims@, secret@, context@, r),
{
    proof {
        lemma_claim_names_differ();
    }
    let object = claims_object(claims);
    match sign(&object, secret) {
        Ok(token) => Ok(token),
        Err(error) => {
            let detail = failure_text(&error);
            let message = joined(context, detail.as_str());
            assert(message@.take(context@.len() as int) =~= context@);
            Err(AppError::InternalError(message))
        },
    }
}

/// Puts two signed tokens together as a bearer pair.
pub fn token_pair(access_token: String, refresh_token: String) -> (r: TokenPair)
    ensures
        r.access_token == access_token,
        r.refresh_token == refresh_token,
        r.token_type@ == "Bearer"@,
        r.expires_in == ACCESS_TOKEN_DURATION,
{
    TokenPair {
        access_token,
        refresh_token,
        token_type: owned("Bearer"),
        expires_in: ACCESS_TOKEN_DURATION,
    }
}

/// Issues an access token and a refresh token for `user`, both signed with
/// `secret` and issued now.
pub fn create_token_pair(user: &User, secret: &str) -> (r: Result<TokenPair, AppError>)
    ensures
        r is Ok ==> r->Ok_0.token_type@ == "Bearer"@ && r->Ok_0.expires_in == ACCESS_TOKEN_DURATION,
        r is Err ==> r->Err_0 is InternalError,
{
    let access_claims = Claims::new(user, "access", ACCESS_TOKEN_DURATION);
    let refresh_claims = Claims::new(user, "refresh", REFRESH_TOKEN_DURATION);
    let access_token = match encode_claims(&access_claims, secret, "Access token creation failed: ") {
        Ok(token) => token,
        Err(error) => {
            return Err(error);
        },
    };
    let refresh_token = match encode_claims(
        &refresh_claims,
        secret,
        "Refresh token creation failed: ",
    ) {
        Ok(token) => token,
        Err(error) => {
            return Err(error);
        },
    };
    Ok(token_pair(access_token, refresh_token))
}

/// The claims of the access token that renews the one of `bearer` at `now`:
/// the same subject, email and role, issued at `now` for the lifetime of an
/// access token.
pub open spec fn renewal(bearer: ClaimsView, now: i64) -> ClaimsView {
    ClaimsView {
        sub: bearer.sub,
        email: bearer.email,
        role: bearer.role,
        exp: clamped(now + ACCESS_TOKEN_DURATION),
        iat: now,
        token_type: "access"@,
    }
}

/// Whether `r` is what a refresh at `now` makes of verified refresh claims:
/// a failed verification is handed on, and claims of a refresh token give
/// the signed renewal.
pub open spec fn refreshed_as(
    verified: Result<Claims, AppError>,
    now: i64,
    secret: Seq<char>,
    r: Result<String, AppError>,
) -> bool {
    match verified {
        Ok(bearer) => bearer.token_type@ == "refresh"@ && signed_as(
            renewal(bearer@, now),
            secret,
            "Access token renewal failed: "@,
            r,
        ),
        Err(error) => error is AuthError && r == Err::<String, AppError>(error),
    }
}

/// Issues, at `now`, the access token that renews the token of `bearer`.
pub fn renew_access_token(bearer: &Claims, secret: &str, now: i64) -> (r: Result<String, AppError>)
    ensures
        signed_as(renewal(bearer@, now), secret@, "Access token renewal failed: "@, r),
{
    let renewed = Claims {
        sub: bearer.sub.clone(),
        email: bearer.email.clone(),
        role: bearer.role,
        exp: add_seconds(now, ACCESS_TOKEN_DURATION),
        iat: now,
        token_type: owned("access"),
    };
    encode_claims(&renewed, secret, "Access token renewal failed: ")
}

/// Issues a new access token for the bearer of a valid refresh token.
///
/// Whether the refresh token verifies is for jsonwebtoken and the clock to
/// say. The result is what `renew_access_token` makes of the verified
/// claims at the time of the call, and a failed verification is handed on.
pub fn refresh_access_token(refresh_token: &str, secret: &str) -> (r: Result<String, AppError>)
    ensures
        exists|verified: Result<Claims, AppError>, now: i64| #[trigger]
            refreshed_as(verified, now, secret@, r),
        r is Err ==> r->Err_0 is AuthError || r->Err_0 is InternalError,
{
    match verify_refresh_token(refresh_token, secret) {
        Ok(bearer) => {
            let now = now_seconds();
            let r = renew_access_token(&bearer, secret, now);
            assert(refreshed_as(Ok::<Claims, AppError>(bearer), now, secret@, r));
            r
        },
        Err(error) => {
            assert(refreshed_as(
                Err::<Claims, AppError>(error),
                0,
                secret@,
                Err::<String, AppError>(error),
            ));
            Err(error)
        },
    }
}

} // verus!
