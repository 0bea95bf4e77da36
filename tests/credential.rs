use account_auth::credential::{
    CookieAge, CredentialPlan, FetchError, Outcome, Provider, SessionCookies, Status,
    TokenResponse, UserFromRequestError, cookie_age, credential_plan, profile_outcome,
    refresh_outcome, token_cookies,
};
use account_auth::session::{current_user_id, logout_cookies, same_text, should_remember_redirect};

fn cookies(access: Option<&str>, refresh: Option<&str>) -> SessionCookies {
    SessionCookies {
        access_token: access.map(|s| s.to_string()),
        refresh_token: refresh.map(|s| s.to_string()),
    }
}

#[test]
fn access_token_is_tried_before_refresh() {
    match credential_plan(cookies(Some("acc"), Some("ref"))) {
        CredentialPlan::FetchProfile(t) => assert_eq!(t, "acc"),
        other => panic!("unexpected plan {:?}", other),
    }
}

#[test]
fn refresh_token_is_used_without_access_token() {
    match credential_plan(cookies(None, Some("ref"))) {
        CredentialPlan::Refresh(t) => assert_eq!(t, "ref"),
        other => panic!("unexpected plan {:?}", other),
    }
}

#[test]
fn no_cookies_means_no_credential() {
    assert!(matches!(credential_plan(cookies(None, None)), CredentialPlan::NoCredential));
}

#[test]
fn fetched_profile_succeeds() {
    assert!(matches!(profile_outcome::<u32>(Ok(5)), Outcome::Success(5)));
}

#[test]
fn upstream_failure_is_bad_gateway() {
    match profile_outcome::<u32>(Err(FetchError::Upstream(401, "nope".to_string()))) {
        Outcome::Error(f) => {
            assert_eq!(f.status, Status::BadGateway);
            match f.error {
                UserFromRequestError::Upstream(code, body) => {
                    assert_eq!(code, 401);
                    assert_eq!(body, "nope");
                }
                other => panic!("unexpected error {:?}", other),
            }
        }
        other => panic!("unexpected outcome {:?}", other),
    }
    match profile_outcome::<u32>(Err(FetchError::Transport)) {
        Outcome::Error(f) => {
            assert_eq!(f.status, Status::BadGateway);
            assert!(matches!(f.error, UserFromRequestError::Transport));
        }
        other => panic!("unexpected outcome {:?}", other),
    }
}

#[test]
fn unreadable_profile_is_internal_error() {
    match profile_outcome::<u32>(Err(FetchError::Decode)) {
        Outcome::Error(f) => {
            assert_eq!(f.status, Status::InternalServerError);
            assert!(matches!(f.error, UserFromRequestError::Decode));
        }
        other => panic!("unexpected outcome {:?}", other),
    }
}

#[test]
fn cookie_expires_a_minute_early() {
    assert_eq!(cookie_age(None), Some(CookieAge::Session));
    assert_eq!(cookie_age(Some(3600)), Some(CookieAge::Seconds(3540)));
    assert_eq!(cookie_age(Some(60)), Some(CookieAge::Seconds(0)));
    assert_eq!(cookie_age(Some(30)), Some(CookieAge::Seconds(0)));
    assert_eq!(cookie_age(Some(-5)), None);
}

#[test]
fn token_cookies_for_racetime() {
    let token = TokenResponse {
        access_token: "acc".to_string(),
        refresh_token: Some("ref".to_string()),
        expires_in: Some(100),
    };
    let c = token_cookies(Provider::RaceTime, &token).unwrap();
    assert_eq!(c.len(), 2);
    assert_eq!(c[0].name, "racetime_token");
    assert_eq!(c[0].value, "acc");
    assert_eq!(c[0].age, CookieAge::Seconds(40));
    assert_eq!(c[1].name, "racetime_refresh_token");
    assert_eq!(c[1].value, "ref");
    assert_eq!(c[1].age, CookieAge::Permanent);
}

#[test]
fn token_cookies_for_discord_without_refresh() {
    let token = TokenResponse { access_token: "a".to_string(), refresh_token: None, expires_in: None };
    let c = token_cookies(Provider::Discord, &token).unwrap();
    assert_eq!(c.len(), 1);
    assert_eq!(c[0].name, "discord_token");
    assert_eq!(c[0].age, CookieAge::Session);
}

#[test]
fn negative_lifetime_is_refused() {
    let token = TokenResponse { access_token: "a".to_string(), refresh_token: None, expires_in: Some(-1) };
    assert!(matches!(token_cookies(Provider::Discord, &token), Err(UserFromRequestError::TokenExpiry)));
    match refresh_outcome::<()>(Provider::Discord, Ok(token)) {
        Err(f) => {
            assert_eq!(f.status, Status::InternalServerError);
            assert!(matches!(f.error, UserFromRequestError::TokenExpiry));
        }
        Ok(_) => panic!("negative lifetime accepted"),
    }
}

#[test]
fn failed_refresh_is_unauthorized() {
    match refresh_outcome::<&str>(Provider::RaceTime, Err("expired")) {
        Err(f) => {
            assert_eq!(f.status, Status::Unauthorized);
            assert!(matches!(f.error, UserFromRequestError::Cookie));
        }
        Ok(_) => panic!("refused refresh accepted"),
    }
}

#[test]
fn successful_refresh_stores_and_fetches() {
    let token = TokenResponse {
        access_token: "new".to_string(),
        refresh_token: Some("r2".to_string()),
        expires_in: Some(7200),
    };
    let (c, access) = refresh_outcome::<()>(Provider::Discord, Ok(token)).unwrap();
    assert_eq!(access, "new");
    assert_eq!(c[0].name, "discord_token");
    assert_eq!(c[0].age, CookieAge::Seconds(7140));
    assert_eq!(c[1].name, "discord_refresh_token");
}

#[test]
fn callback_paths_are_not_remembered() {
    assert!(!should_remember_redirect("/auth/racetime"));
    assert!(!should_remember_redirect("/auth/discord"));
    assert!(should_remember_redirect("/event/1"));
    assert!(should_remember_redirect("/auth/racetim"));
    assert!(should_remember_redirect("/"));
}

#[test]
fn same_text_compares_characters() {
    assert!(same_text("abc", "abc"));
    assert!(!same_text("abc", "abd"));
    assert!(!same_text("abc", "ab"));
    assert!(same_text("", ""));
}

#[test]
fn logout_clears_all_credentials() {
    assert_eq!(
        logout_cookies(),
        vec!["racetime_token", "discord_token", "racetime_refresh_token", "discord_refresh_token"]
    );
}

#[test]
fn startgg_current_user() {
    assert_eq!(current_user_id(Some(Some("u1".to_string()))).unwrap(), "u1");
    assert!(matches!(current_user_id(Some(None)), Err(UserFromRequestError::GraphQLQueryResponse)));
    assert!(matches!(current_user_id(None), Err(UserFromRequestError::GraphQLQueryResponse)));
}
