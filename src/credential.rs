use vstd::prelude::*;

verus! {

/// How serious a failed resolution is, as an HTTP status.
#[derive(Debug, Clone, Copy, PartialEq, Eq, Structural)]
pub enum Status {
    Unauthorized,
    BadGateway,
    InternalServerError,
}

/// Why no user came out of a request's credentials.
#[derive(Debug)]
pub enum UserFromRequestError {
    /// No usable credential cookie.
    Cookie,
    /// The provider answered with a status outside 2xx; its status and body.
    Upstream(u16, String),
    /// The provider could not be reached.
    Transport,
    /// The provider's answer could not be read.
    Decode,
    /// The provider reported a negative token lifetime.
    TokenExpiry,
    /// A "current user" query response lacks the user or its id.
    GraphQLQueryResponse,
    /// A view-as mapping names a user that does not exist.
    ViewAsNoSuchUser,
    /// The server holds no HTTP client.
    HttpClient,
    /// The server holds no user store.
    Database,
}

/// A failure with its status.
#[derive(Debug)]
pub struct Failure {
    pub status: Status,
    pub error: UserFromRequestError,
}

/// The result of one request guard: a value, nothing to say (the guard does not apply),
/// or a failure.
#[derive(Debug)]
pub enum Outcome<T> {
    Success(T),
    Forward,
    Error(Failure),
}

/// Why a call to a provider's "current user" endpoint failed.
#[derive(Debug)]
pub enum FetchError {
    /// A status outside 2xx, with the response body.
    Upstream(u16, String),
    Transport,
    Decode,
}

/// The two providers whose tokens are kept in cookies.
#[derive(Debug, Clone, Copy, PartialEq, Eq, Structural)]
pub enum Provider {
    RaceTime,
    Discord,
}

/// The credential cookies of one provider.
pub struct SessionCookies {
    pub access_token: Option<String>,
    pub refresh_token: Option<String>,
}

/// What to do first with a provider's cookies.
#[derive(Debug)]
pub enum CredentialPlan {
    /// Ask the provider who holds this access token.
    FetchProfile(String),
    /// Trade this refresh token for a new access token.
    Refresh(String),
    /// Neither cookie is there: the provider does not take part in this request.
    NoCredential,
}

/// A token grant from a provider's OAuth endpoint.
pub struct TokenResponse {
    pub access_token: String,
    pub refresh_token: Option<String>,
    /// Lifetime in seconds, where the provider gives one.
    pub expires_in: Option<i64>,
}

/// How long a cookie lives.
#[derive(Debug, Clone, Copy, PartialEq, Eq, Structural)]
pub enum CookieAge {
    /// Until the browser session ends.
    Session,
    Seconds(u64),
    Permanent,
}

/// A private cookie to set.
#[derive(Debug)]
pub struct SetCookie {
    pub name: String,
    pub value: String,
    pub age: CookieAge,
}

/// A failure with its status.
pub open spec fn failure(status: Status, error: UserFromRequestError) -> Failure {
    Failure { status, error }
}

/// The access token is tried first; the refresh token only where no access token is there.
pub open spec fn credential_plan_spec(c: SessionCookies) -> CredentialPlan {
    match c.access_token {
        Some(t) => CredentialPlan::FetchProfile(t),
        None => match c.refresh_token {
            Some(t) => CredentialPlan::Refresh(t),
            None => CredentialPlan::NoCredential,
        },
    }
}

/// A profile becomes the provider's identity; an unreachable or refusing provider is a bad
/// gateway; an unreadable answer is an internal error.
pub open spec fn profile_outcome_spec<U>(fetched: Result<U, FetchError>) -> Outcome<U> {
    match fetched {
        Ok(u) => Outcome::Success(u),
        Err(FetchError::Upstream(s, b)) => Outcome::Error(
            failure(Status::BadGateway, UserFromRequestError::Upstream(s, b)),
        ),
        Err(FetchError::Transport) => Outcome::Error(
            failure(Status::BadGateway, UserFromRequestError::Transport),
        ),
        Err(FetchError::Decode) => Outcome::Error(
            failure(Status::InternalServerError, UserFromRequestError::Decode),
        ),
    }
}

/// The cookie that holds a provider's access token.
pub open spec fn access_cookie_name(p: Provider) -> Seq<char> {
    match p {
        Provider::RaceTime => "racetime_token"@,
        Provider::Discord => "discord_token"@,
    }
}

/// The cookie that holds a provider's refresh token.
pub open spec fn refresh_cookie_name(p: Provider) -> Seq<char> {
    match p {
        Provider::RaceTime => "racetime_refresh_token"@,
        Provider::Discord => "discord_refresh_token"@,
    }
}

/// The access cookie expires a minute before the token does (never below zero), or with
/// the session where the provider gives no lifetime.
pub open spec fn access_cookie_age(expires_in: Option<i64>) -> Option<CookieAge> {
    match expires_in {
        None => Some(CookieAge::Session),
        Some(n) => if n < 0 {
            None
        } else if n < 60 {
            Some(CookieAge::Seconds(0))
        } else {
            Some(CookieAge::Seconds((n - 60) as u64))
        },
    }
}

/// The cookies that store a token grant: the access token with `access_cookie_age`, and
/// the refresh token, where there is one, for good.
pub open spec fn token_cookies_match(p: Provider, t: TokenResponse, cookies: Seq<SetCookie>) -> bool {
    &&& access_cookie_age(t.expires_in) is Some
    &&& cookies.len() == if t.refresh_token is Some { 2int } else { 1int }
    &&& cookies[0].name@ == access_cookie_name(p)
    &&& cookies[0].value == t.access_token
    &&& cookies[0].age == access_cookie_age(t.expires_in).unwrap()
    &&& t.refresh_token matches Some(r) ==> {
        &&& cookies[1].name@ == refresh_cookie_name(p)
        &&& cookies[1].value == r
        &&& cookies[1].age == CookieAge::Permanent
    }
}

/// Decides which credential of one provider to use first.
pub fn credential_plan(cookies: SessionCookies) -> (r: CredentialPlan)
    ensures
        r == credential_plan_spec(cookies),
{
    match cookies.access_token {
        Some(t) => CredentialPlan::FetchProfile(t),
        None => match cookies.refresh_token {
            Some(t) => CredentialPlan::Refresh(t),
            None => CredentialPlan::NoCredential,
        },
    }
}

/// Turns the answer of a provider's "current user" endpoint into the guard's outcome.
pub fn profile_outcome<U>(fetched: Result<U, FetchError>) -> (r: Outcome<U>)
    ensures
        r == profile_outcome_spec(fetched),
{
    match fetched {
        Ok(u) => Outcome::Success(u),
        Err(FetchError::Upstream(s, b)) => Outcome::Error(
            Failure { status: Status::BadGateway, error: UserFromRequestError::Upstream(s, b) },
        ),
        Err(FetchError::Transport) => Outcome::Error(
            Failure { status: Status::BadGateway, error: UserFromRequestError::Transport },
        ),
        Err(FetchError::Decode) => Outcome::Error(
            Failure { status: Status::InternalServerError, error: UserFromRequestError::Decode },
        ),
    }
}

/// The cookie lifetime for an access token that lives `expires_in` seconds; `None` where
/// the lifetime is negative.
pub fn cookie_age(expires_in: Option<i64>) -> (r: Option<CookieAge>)
    ensures
        r == access_cookie_age(expires_in),
{
    match expires_in {
        None => Some(CookieAge::Session),
        Some(n) => if n < 0 {
            None
        } else {
            Some(CookieAge::Seconds((n as u64).saturating_sub(60)))
        },
    }
}

/// The cookies that store the token grant `token` of provider `p`, or `TokenExpiry` where
/// its lifetime is negative.
pub fn token_cookies(p: Provider, token: &TokenResponse) -> (r: Result<Vec<SetCookie>, UserFromRequestError>)
    ensures
        match r {
            Ok(cookies) => token_cookies_match(p, *token, cookies@),
            Err(e) => access_cookie_age(token.expires_in) is None && e == UserFromRequestError::TokenExpiry,
        },
{
    let age = match cookie_age(token.expires_in) {
        Some(age) => age,
        None => return Err(UserFromRequestError::TokenExpiry),
    };
    let (access_name, refresh_name) = match p {
        Provider::RaceTime => (String::from_str("racetime_token"), String::from_str("racetime_refresh_token")),
        Provider::Discord => (String::from_str("discord_token"), String::from_str("discord_refresh_token")),
    };
    let mut cookies: Vec<SetCookie> = Vec::new();
    cookies.push(SetCookie { name: access_name, value: token.access_token.clone(), age });
    match &token.refresh_token {
        Some(r) => {
            cookies.push(SetCookie { name: refresh_name, value: r.clone(), age: CookieAge::Permanent });
        },
        None => {},
    }
    Ok(cookies)
}

/// After a refresh: the cookies to set and the new access token to fetch the profile with,
/// or the failure. A refused refresh means the request is not signed in with this provider.
pub fn refresh_outcome<E>(p: Provider, refreshed: Result<TokenResponse, E>) -> (r: Result<(Vec<SetCookie>, String), Failure>)
    ensures
        match refreshed {
            Err(_) => r == Err::<(Vec<SetCookie>, String), Failure>(
                failure(Status::Unauthorized, UserFromRequestError::Cookie),
            ),
            Ok(t) => match r {
                Ok((cookies, access)) => token_cookies_match(p, t, cookies@) && access == t.access_token,
                Err(f) => access_cookie_age(t.expires_in) is None
                    && f == failure(Status::InternalServerError, UserFromRequestError::TokenExpiry),
            },
        },
{
    match refreshed {
        Err(_) => Err(Failure { status: Status::Unauthorized, error: UserFromRequestError::Cookie }),
        Ok(t) => match token_cookies(p, &t) {
            Ok(cookies) => Ok((cookies, t.access_token)),
            Err(e) => Err(Failure { status: Status::InternalServerError, error: e }),
        },
    }
}

} // verus!
verus! {

/// With an access-token cookie the access token is used, whatever refresh token is there,
/// so no refresh is asked for; and a profile fetched with it becomes the provider's
/// identity.
pub proof fn lemma_access_token_first<U>(access: String, refresh: Option<String>, profile: U)
    ensures
        credential_plan_spec(SessionCookies { access_token: Some(access), refresh_token: refresh })
            == CredentialPlan::FetchProfile(access),
        profile_outcome_spec(Ok::<U, FetchError>(profile)) == Outcome::<U>::Success(profile),
{
}

} // verus!
