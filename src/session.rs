use vstd::prelude::*;
use crate::credential::UserFromRequestError;

verus! {

/// Whether two strings hold the same characters.
pub fn same_text(a: &str, b: &str) -> (r: bool)
    ensures
        r == (a@ == b@),
{
    let n = a.unicode_len();
    if n != b.unicode_len() {
        return false;
    }
    let mut i: usize = 0;
    while i < n
        invariant
            n == a@.len(),
            n == b@.len(),
            i <= n,
            forall|j: int| 0 <= j < i ==> a@[j] == b@[j],
        decreases n - i,
    {
        if a.get_char(i) != b.get_char(i) {
            return false;
        }
        i += 1;
    }
    proof {
        assert(a@ =~= b@);
    }
    true
}

/// The paths that a provider sends the browser back to after signing in.
pub open spec fn is_callback_path(path: Seq<char>) -> bool {
    path == "/auth/racetime"@ || path == "/auth/discord"@
}

/// Whether a login should remember `path` to return to afterwards: any path but a sign-in
/// callback, which would show a login error page after a successful login.
pub fn should_remember_redirect(path: &str) -> (r: bool)
    ensures
        r == !is_callback_path(path@),
{
    !(same_text(path, "/auth/racetime") || same_text(path, "/auth/discord"))
}

/// The credential cookies, all of which signing out removes.
pub open spec fn credential_cookie_names() -> Seq<Seq<char>> {
    seq!["racetime_token"@, "discord_token"@, "racetime_refresh_token"@, "discord_refresh_token"@]
}

/// The names of the cookies to remove when signing out.
pub fn logout_cookies() -> (r: Vec<String>)
    ensures
        r@.len() == 4,
        forall|i: int| 0 <= i < 4 ==> (#[trigger] r@[i])@ == credential_cookie_names()[i],
{
    let mut r: Vec<String> = Vec::new();
    r.push(String::from_str("racetime_token"));
    r.push(String::from_str("discord_token"));
    r.push(String::from_str("racetime_refresh_token"));
    r.push(String::from_str("discord_refresh_token"));
    r
}

/// The start.gg id in a "current user" query response, whose user and id may each be
/// missing.
pub fn current_user_id(current_user: Option<Option<String>>) -> (r: Result<String, UserFromRequestError>)
    ensures
        match current_user {
            Some(Some(id)) => r matches Ok(s) && s == id,
            _ => r matches Err(e) && e == UserFromRequestError::GraphQLQueryResponse,
        },
{
    match current_user {
        Some(Some(id)) => Ok(id),
        _ => Err(UserFromRequestError::GraphQLQueryResponse),
    }
}

} // verus!
