use vstd::prelude::*;
use crate::auth::jwt::{verify_token, Claims};
use crate::error::AppError;
use crate::text::{begins_with, owned, same_text, strip_prefix, trim_end, trimmed_end};

verus! {

/// What the guard decides about a request.
#[derive(Debug, PartialEq, Eq)]
pub enum Admission {
    /// The path needs no token.
    Public,
    /// The token is a valid access token with these claims.
    Authenticated(Claims),
    /// The request is turned away with this message.
    Rejected(String),
}

/// The guard in front of the routes: it lets public paths through and asks
/// every other request for an access token.
#[derive(Debug, Clone, Copy)]
pub struct AuthMiddleware;

/// The guard around one inner service.
#[derive(Debug)]
pub struct AuthMiddlewareService<S> {
    pub service: S,
}

/// Whether `path`, as it stands, is one of the paths that need no token.
pub open spec fn public_path(path: Seq<char>) -> bool {
    ||| path == "/api/v1/auth/login"@
    ||| path == "/api/v1/auth/register"@
    ||| path == "/api/v1/auth/social-login"@
    ||| path == "/api/v1/auth/refresh"@
    ||| path == "/api/v1/health"@
    ||| path == "/api/v1/ws"@
    ||| path == "/api/v1/servers/test-connection"@
}

/// Whether a request to `path` needs no token: slashes at the end do not
/// count.
pub open spec fn is_public_path(path: Seq<char>) -> bool {
    public_path(trimmed_end(path, '/'))
}

/// The token that an `Authorization` header carries, or the message that
/// turns the request away: `Unauthorized` without a header, `Invalid token`
/// for a header that does not begin with `Bearer `.
pub open spec fn bearer_of(header: Option<Seq<char>>) -> Result<Seq<char>, Seq<char>> {
    match header {
        None => Err("Unauthorized"@),
        Some(value) => if begins_with(value, "Bearer "@) {
            Ok(value.skip("Bearer "@.len() as int))
        } else {
            Err("Invalid token"@)
        },
    }
}

impl AuthMiddleware {
    /// Wraps an inner service.
    pub fn new_transform<S>(&self, service: S) -> (r: AuthMiddlewareService<S>)
        ensures
            r.service == service,
    {
        AuthMiddlewareService { service }
    }

    pub fn is_public(path: &str) -> (r: bool)
        ensures
            r == is_public_path(path@),
    {
        let path = trim_end(path, '/');
        same_text(path, "/api/v1/auth/login") || same_text(path, "/api/v1/auth/register")
            || same_text(path, "/api/v1/auth/social-login") || same_text(
            path,
            "/api/v1/auth/refresh",
        ) || same_text(path, "/api/v1/health") || same_text(path, "/api/v1/ws") || same_text(
            path,
            "/api/v1/servers/test-connection",
        )
    }

    /// Reads the token off an `Authorization` header.
    pub fn bearer_token(header: Option<&str>) -> (r: Result<String, String>)
        ensures
            match bearer_of(
                match header {
                    Some(h) => Some(h@),
                    None => None,
                },
            ) {
                Ok(token) => r is Ok && r->Ok_0@ == token,
                Err(message) => r is Err && r->Err_0@ == message,
            },
    {
        match header {
            None => Err(owned("Unauthorized")),
            Some(value) => match strip_prefix(value, "Bearer ") {
                Some(token) => Ok(owned(token)),
                None => Err(owned("Invalid token")),
            },
        }
    }

    /// Decides on verified claims: an access token admits its bearer, any
    /// other token is turned away with `Invalid token type`, and a token
    /// that did not verify with `Invalid token`.
    pub fn decide(verified: Result<Claims, AppError>) -> (r: Admission)
        ensures
            match verified {
                Ok(claims) => if claims.token_type@ == "access"@ {
                    r == Admission::Authenticated(claims)
                } else {
                    r is Rejected && r->Rejected_0@ == "Invalid token type"@
                },
                Err(_) => r is Rejected && r->Rejected_0@ == "Invalid token"@,
            },
    {
        match verified {
            Ok(claims) => {
                if same_text(claims.token_type.as_str(), "access") {
                    Admission::Authenticated(claims)
                } else {
                    Admission::Rejected(owned("Invalid token type"))
                }
            },
            Err(_) => Admission::Rejected(owned("Invalid token")),
        }
    }
}

impl<S> AuthMiddlewareService<S> {
    /// Decides whether a request to `path` with the given `Authorization`
    /// header goes through to the inner service. Tokens are checked against
    /// `secret`.
    pub fn call(&self, path: &str, authorization: Option<&str>, secret: &str) -> (r: Admission)
        ensures
            is_public_path(path@) ==> r is Public,
            !is_public_path(path@) ==> !(r is Public),
            !is_public_path(path@) && authorization is None ==> r is Rejected && r->Rejected_0@
                == "Unauthorized"@,
            !is_public_path(path@) && authorization is Some && !begins_with(
                authorization->Some_0@,
                "Bearer "@,
            ) ==> r is Rejected && r->Rejected_0@ == "Invalid token"@,
            r is Authenticated ==> r->Authenticated_0.token_type@ == "access"@,
    {
        if AuthMiddleware::is_public(path) {
            return Admission::Public;
        }
        match AuthMiddleware::bearer_token(authorization) {
            Ok(token) => AuthMiddleware::decide(verify_token(token.as_str(), secret)),
            Err(message) => Admission::Rejected(message),
        }
    }
}

} // verus!
