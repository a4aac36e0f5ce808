use vstd::prelude::*;
use vstd::std_specs::convert::FromSpecImpl;
use crate::auth::jwt::Claims;
use crate::db::models::{AuthProvider, User, UserRole};

verus! {

#[derive(Debug)]
pub struct LoginRequest {
    pub email: String,
    pub password: String,
}

#[derive(Debug)]
pub struct RegisterRequest {
    pub email: String,
    pub password: String,
    pub name: String,
}

#[derive(Debug)]
pub struct SocialLoginRequest {
    pub provider: String,
    pub token: String,
    pub email: Option<String>,
}

/// What a client gets after signing in: both tokens and the account.
#[derive(Debug)]
pub struct AuthResponse {
    pub token: String,
    pub refresh_token: String,
    pub user: UserResponse,
}

/// The part of an account that clients may see.
#[derive(Debug)]
pub struct UserResponse {
    pub id: String,
    pub email: String,
    pub name: String,
    pub role: UserRole,
    pub provider: AuthProvider,
    pub profile_image_url: Option<String>,
}

impl From<User> for UserResponse {
    fn from(user: User) -> (r: Self) {
        UserResponse {
            id: user.id,
            email: user.email,
            name: user.name,
            role: user.role,
            provider: user.provider,
            profile_image_url: user.profile_image_url,
        }
    }
}

impl FromSpecImpl<User> for UserResponse {
    open spec fn obeys_from_spec() -> bool {
        true
    }

    open spec fn from_spec(user: User) -> Self {
        UserResponse {
            id: user.id,
            email: user.email,
            name: user.name,
            role: user.role,
            provider: user.provider,
            profile_image_url: user.profile_image_url,
        }
    }
}

/// Who a request comes from, as its access token says.
#[derive(Debug)]
pub struct AuthenticatedUser {
    pub id: String,
    pub email: String,
    pub role: UserRole,
}

impl From<Claims> for AuthenticatedUser {
    fn from(claims: Claims) -> (r: Self) {
        AuthenticatedUser { id: claims.sub, email: claims.email, role: claims.role }
    }
}

impl FromSpecImpl<Claims> for AuthenticatedUser {
    open spec fn obeys_from_spec() -> bool {
        true
    }

    open spec fn from_spec(claims: Claims) -> Self {
        AuthenticatedUser { id: claims.sub, email: claims.email, role: claims.role }
    }
}

impl AuthenticatedUser {
    /// Whether the user may change or delete a server created by
    /// `created_by`: administrators may, and so may the creator.
    pub fn may_manage(&self, created_by: &Option<String>) -> (r: bool)
        ensures
            r == (self.role == UserRole::Admin || (created_by is Some && created_by->Some_0@
                == self.id@)),
    {
        match self.role {
            UserRole::Admin => true,
            _ => match created_by {
                Some(creator) => *creator == self.id,
                None => false,
            },
        }
    }
}

} // verus!
