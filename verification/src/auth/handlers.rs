use vstd::prelude::*;
use crate::auth::jwt::{
    claim_numbers, claim_texts, claims_for, encode_claims, now_seconds, signed_token, Claims,
};
use crate::auth::types::{AuthResponse, RegisterRequest, UserResponse};
use crate::auth::utils::{hash_password, password_matches, verify_password};
use crate::clock::now_millis;
use crate::config::AuthConfig;
use crate::db::models::{AuthProvider, User, UserRole};
use crate::error::AppError;
use crate::ids::fresh_id;
use crate::text::{begins_with, first_index, joined, owned, prefix_before, same_text};

verus! {

#[derive(Debug)]
pub struct LoginRequest {
    pub email: String,
    pub password: String,
}

/// What signing in through an identity provider does to the accounts.
#[derive(Debug)]
pub enum UserChange {
    /// A new account is to be stored.
    Create(User),
    /// The account exists and is to be stored with these changes.
    Update(User),
}

/// The response that carries `tokens`, access token first, and the account.
pub fn create_auth_response(user: User, tokens: (String, String)) -> (r: AuthResponse)
    ensures
        r.token == tokens.0,
        r.refresh_token == tokens.1,
        r.user.id == user.id,
        r.user.email == user.email,
        r.user.name == user.name,
        r.user.role == user.role,
        r.user.provider == user.provider,
        r.user.profile_image_url == user.profile_image_url,
{
    AuthResponse { token: tokens.0, refresh_token: tokens.1, user: UserResponse::from(user) }
}

/// The provider that a social sign-in names. Signing in by email is not a
/// social sign-in.
pub open spec fn social_provider(name: Seq<char>) -> Option<AuthProvider> {
    if name == "facebook"@ {
        Some(AuthProvider::Facebook)
    } else if name == "google"@ {
        Some(AuthProvider::Google)
    } else if name == "kakao"@ {
        Some(AuthProvider::Kakao)
    } else if name == "apple"@ {
        Some(AuthProvider::Apple)
    } else {
        None
    }
}

/// Reads the provider of a social sign-in; any other name is a bad request.
pub fn parse_provider(name: &str) -> (r: Result<AuthProvider, AppError>)
    ensures
        match social_provider(name@) {
            Some(provider) => r == Ok::<AuthProvider, AppError>(provider),
            None => r is Err && r->Err_0 is BadRequest && r->Err_0->BadRequest_0@
                == "Unsupported provider"@,
        },
{
    if same_text(name, "facebook") {
        Ok(AuthProvider::Facebook)
    } else if same_text(name, "google") {
        Ok(AuthProvider::Google)
    } else if same_text(name, "kakao") {
        Ok(AuthProvider::Kakao)
    } else if same_text(name, "apple") {
        Ok(AuthProvider::Apple)
    } else {
        Err(AppError::BadRequest(owned("Unsupported provider")))
    }
}

/// Checks a password sign-in against the account found for the email, if
/// any. An unknown email and a wrong password get the same answer.
pub fn authenticate(user: Option<User>, password: &str) -> (r: Result<User, AppError>)
    ensures
        match user {
            None => r is Err && r->Err_0 is AuthError && r->Err_0->AuthError_0@
                == "Invalid credentials"@,
            Some(account) => match password_matches(
                password@,
                match account.password_hash {
                    Some(hash) => hash@,
                    None => Seq::empty(),
                },
            ) {
                Some(true) => r == Ok::<User, AppError>(account),
                Some(false) => r is Err && r->Err_0 is AuthError && r->Err_0->AuthError_0@
                    == "Invalid credentials"@,
                None => r is Err && r->Err_0 is InternalError,
            },
        },
{
    let account = match user {
        Some(account) => account,
        None => {
            return Err(AppError::AuthError(owned("Invalid credentials")));
        },
    };
    let checked = match &account.password_hash {
        Some(hash) => verify_password(password, hash.as_str()),
        None => verify_password(password, ""),
    };
    proof {
        reveal_strlit("");
        assert(""@ =~= Seq::<char>::empty());
    }
    match checked {
        Ok(true) => Ok(account),
        Ok(false) => Err(AppError::AuthError(owned("Invalid credentials"))),
        Err(error) => Err(error),
    }
}

/// The account of somebody who registers with a password, or a bad request
/// where the email is taken. The account gets a fresh id and is an ordinary
/// user who signs in by email.
pub fn register_user(taken: bool, request: &RegisterRequest) -> (r: Result<User, AppError>)
    ensures
        taken ==> r is Err && r->Err_0 is BadRequest && r->Err_0->BadRequest_0@
            == "Email already exists"@,
        !taken && r is Ok ==> {
            &&& r->Ok_0.email@ == request.email@
            &&& r->Ok_0.name@ == request.name@
            &&& r->Ok_0.password_hash is Some
            &&& r->Ok_0.role == UserRole::User
            &&& r->Ok_0.provider == AuthProvider::Email
            &&& r->Ok_0.profile_image_url is None
            &&& r->Ok_0.updated_at == r->Ok_0.created_at
            &&& r->Ok_0.last_login_at == Some(r->Ok_0.created_at)
        },
        !taken && r is Err ==> r->Err_0 is InternalError,
{
    if taken {
        return Err(AppError::BadRequest(owned("Email already exists")));
    }
    let password_hash = match hash_password(request.password.as_str()) {
        Ok(hash) => hash,
        Err(error) => {
            return Err(error);
        },
    };
    let now = now_millis();
    Ok(
        User {
            id: fresh_id(),
            email: request.email.clone(),
            password_hash: Some(password_hash),
            name: request.name.clone(),
            role: UserRole::User,
            provider: AuthProvider::Email,
            profile_image_url: None,
            created_at: now,
            updated_at: now,
            last_login_at: Some(now),
        },
    )
}

/// The name of an account that gives none: what stands before the `@` of
/// its email.
pub open spec fn default_name(email: Seq<char>) -> Seq<char> {
    email.take(first_index(email, '@', 0))
}

/// Decides what a sign-in through `provider` does to the accounts, given
/// the account found for the email, if any.
///
/// An account of the same provider is updated: a new name if one is given,
/// the profile image, and the time of the sign-in. An account of another
/// provider refuses the sign-in. Without an account one is created, named
/// after the email if no name is given.
pub fn handle_user_creation(
    existing: Option<User>,
    email: &str,
    name: Option<String>,
    profile_image: Option<String>,
    provider: AuthProvider,
) -> (r: Result<UserChange, AppError>)
    ensures
        match existing {
            Some(account) => if account.provider == provider {
                &&& r is Ok
                &&& r->Ok_0 is Update
                &&& r->Ok_0->Update_0.id == account.id
                &&& r->Ok_0->Update_0.email == account.email
                &&& r->Ok_0->Update_0.password_hash == account.password_hash
                &&& r->Ok_0->Update_0.name == (match name {
                    Some(n) => n,
                    None => account.name,
                })
                &&& r->Ok_0->Update_0.role == account.role
                &&& r->Ok_0->Update_0.provider == provider
                &&& r->Ok_0->Update_0.profile_image_url == profile_image
                &&& r->Ok_0->Update_0.created_at == account.created_at
                &&& r->Ok_0->Update_0.last_login_at == Some(r->Ok_0->Update_0.updated_at)
            } else {
                &&& r is Err
                &&& r->Err_0 is BadRequest
                &&& r->Err_0->BadRequest_0@ == "Email already exists with different provider: "@
                    + account.provider.name()
            },
            None => {
                &&& r is Ok
                &&& r->Ok_0 is Create
                &&& r->Ok_0->Create_0.email@ == email@
                &&& r->Ok_0->Create_0.password_hash is None
                &&& r->Ok_0->Create_0.name@ == (match name {
                    Some(n) => n@,
                    None => default_name(email@),
                })
                &&& r->Ok_0->Create_0.role == UserRole::User
                &&& r->Ok_0->Create_0.provider == provider
                &&& r->Ok_0->Create_0.profile_image_url == profile_image
                &&& r->Ok_0->Create_0.updated_at == r->Ok_0->Create_0.created_at
                &&& r->Ok_0->Create_0.last_login_at == Some(r->Ok_0->Create_0.created_at)
            },
        },
{
    let now = now_millis();
    match existing {
        Some(account) => {
            if account.provider == provider {
                let mut account = account;
                match name {
                    Some(new_name) => {
                        account.name = new_name;
                    },
                    None => {},
                }
                account.profile_image_url = profile_image;
                account.last_login_at = Some(now);
                account.updated_at = now;
                Ok(UserChange::Update(account))
            } else {
                Err(
                    AppError::BadRequest(
                        joined(
                            "Email already exists with different provider: ",
                            account.provider.as_ref(),
                        ),
                    ),
                )
            }
        },
        None => {
            let name = match name {
                Some(given) => given,
                None => owned(prefix_before(email, '@')),
            };
            Ok(
                UserChange::Create(
                    User {
                        id: fresh_id(),
                        email: owned(email),
                        password_hash: None,
                        name,
                        role: UserRole::User,
                        provider,
                        profile_image_url: profile_image,
                        created_at: now,
                        updated_at: now,
                        last_login_at: Some(now),
                    },
                ),
            )
        },
    }
}

/// Whether `r` is the pair of tokens that `user` gets at `now` under
/// `config`: an access token and a refresh token, in this order, each with
/// the lifetime that `config` gives it and signed with its secret; or an
/// internal error that names the token that could not be signed.
pub open spec fn issued_as(user: User, config: AuthConfig, now: i64, r: Result<(String, String), AppError>) -> bool {
    let access = claims_for(user, "access"@, config.access_token_expire, now);
    let refresh = claims_for(user, "refresh"@, config.refresh_token_expire, now);
    let secret = config.jwt_secret@;
    match signed_token(claim_texts(access), claim_numbers(access), secret) {
        Some(access_token) => match signed_token(claim_texts(refresh), claim_numbers(refresh), secret) {
            Some(refresh_token) => r is Ok && r->Ok_0.0@ == access_token && r->Ok_0.1@
                == refresh_token,
            None => r is Err && r->Err_0 is InternalError && begins_with(
                r->Err_0->InternalError_0@,
                "Refresh token generation failed: "@,
            ),
        },
        None => r is Err && r->Err_0 is InternalError && begins_with(
            r->Err_0->InternalError_0@,
            "Access token generation failed: "@,
        ),
    }
}

/// Issues, at `now`, an access token and a refresh token for `user` with
/// the lifetimes and the secret of `config`, access token first.
pub fn generate_tokens_at(user: &User, config: &AuthConfig, now: i64) -> (r: Result<
    (String, String),
    AppError,
>)
    ensures
        issued_as(*user, *config, now, r),
{
    let access = Claims::issued_at(user, "access", config.access_token_expire, now);
    let refresh = Claims::issued_at(user, "refresh", config.refresh_token_expire, now);
    let access_token = match encode_claims(
        &access,
        config.jwt_secret.as_str(),
        "Access token generation failed: ",
    ) {
        Ok(token) => token,
        Err(error) => {
            return Err(error);
        },
    };
    let refresh_token = match encode_claims(
        &refresh,
        config.jwt_secret.as_str(),
        "Refresh token generation failed: ",
    ) {
        Ok(token) => token,
        Err(error) => {
            return Err(error);
        },
    };
    Ok((access_token, refresh_token))
}

/// Issues an access token and a refresh token for `user` with the lifetimes
/// and the secret of `config`, access token first. Both are issued at the
/// time of the call, read off the clock once.
pub fn generate_tokens(user: &User, config: &AuthConfig) -> (r: Result<(String, String), AppError>)
    ensures
        exists|now: i64| #[trigger] issued_as(*user, *config, now, r),
        r is Err ==> r->Err_0 is InternalError,
{
    let now = now_seconds();
    let r = generate_tokens_at(user, config, now);
    assert(issued_as(*user, *config, now, r));
    r
}

/// Signs a user in with a password: checks it against the account found
/// for the email and issues the tokens.
pub fn login(user: Option<User>, password: &str, config: &AuthConfig) -> (r: Result<
    AuthResponse,
    AppError,
>)
    ensures
        user is None ==> r is Err && r->Err_0 is AuthError,
        r is Ok ==> user is Some && r->Ok_0.user.id == user->Some_0.id,
{
    let account = match authenticate(user, password) {
        Ok(account) => account,
        Err(error) => {
            return Err(error);
        },
    };
    let tokens = match generate_tokens(&account, config) {
        Ok(tokens) => tokens,
        Err(error) => {
            return Err(error);
        },
    };
    Ok(create_auth_response(account, tokens))
}

} // verus!
