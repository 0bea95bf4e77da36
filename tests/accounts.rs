use account_auth::credential::{Failure, Outcome, Status, UserFromRequestError};
use account_auth::discriminator::{Discriminator, RawDiscriminator};
use account_auth::identity::{ChallongeUser, DiscordUser, RaceTimeUser, UsernameOrDiscriminator};
use account_auth::merge::MergeAccountsError;
use account_auth::register::{LinkError, RegisterError};
use account_auth::store::UserStore;

fn disc(n: i16) -> Discriminator {
    Discriminator::try_from(RawDiscriminator::Number(n)).unwrap()
}

fn racetime(id: &str, name: &str) -> RaceTimeUser {
    RaceTimeUser {
        id: id.to_string(),
        name: name.to_string(),
        discriminator: Some(disc(1234)),
        pronouns: Some("they/them".to_string()),
    }
}

fn discord(id: u64, username: &str, global: Option<&str>) -> DiscordUser {
    DiscordUser {
        id,
        username: username.to_string(),
        global_name: global.map(|s| s.to_string()),
        discriminator: None,
    }
}

fn failure(status: Status) -> Failure {
    Failure { status, error: UserFromRequestError::Transport }
}

#[test]
fn discord_link_of_migrated_account() {
    let link = discord(9, "alice", Some("Alice A")).to_link();
    assert_eq!(link.id, 9);
    assert_eq!(link.display_name, "Alice A");
    assert!(matches!(link.username_or_discriminator, UsernameOrDiscriminator::Username(ref u) if u == "alice"));
    let link = discord(9, "alice", None).to_link();
    assert_eq!(link.display_name, "alice");
}

#[test]
fn discord_link_of_legacy_account() {
    let mut u = discord(9, "bob", Some("Bobby"));
    u.discriminator = Some(disc(42));
    let link = u.to_link();
    assert_eq!(link.display_name, "bob");
    assert!(matches!(link.username_or_discriminator, UsernameOrDiscriminator::Discriminator(d) if d.value() == 42));
}

#[test]
fn register_racetime_twice_creates_one_user() {
    let mut store = UserStore::new(1);
    assert_eq!(store.register_racetime(None, &racetime("rt1", "Alice")), Ok(1));
    assert_eq!(store.users.len(), 1);
    assert_eq!(store.users[0].id, 1);
    assert_eq!(store.users[0].racetime.as_ref().unwrap().id, "rt1");
    assert_eq!(store.users[0].racetime.as_ref().unwrap().display_name, "Alice");
    assert!(store.users[0].discord.is_none());
    assert_eq!(store.register_racetime(None, &racetime("rt1", "Alice")), Err(RegisterError::ExistsRaceTime));
    assert_eq!(store.users.len(), 1);
    assert_eq!(store.next_id, 2);
}

#[test]
fn register_discord_twice_creates_one_user() {
    let mut store = UserStore::new(10);
    assert_eq!(store.register_discord(None, &discord(5, "carol", None)), Ok(10));
    assert_eq!(store.register_discord(None, &discord(5, "carol", None)), Err(RegisterError::ExistsDiscord));
    assert_eq!(store.users.len(), 1);
    assert_eq!(store.next_id, 11);
}

#[test]
fn register_attaches_to_signed_in_user() {
    let mut store = UserStore::new(1);
    let me = store.register_racetime(None, &racetime("rt1", "Alice")).unwrap();
    assert_eq!(store.register_discord(Some(me), &discord(5, "alice", Some("Alice"))), Ok(me));
    assert_eq!(store.users.len(), 1);
    assert_eq!(store.users[0].discord.as_ref().unwrap().id, 5);
    assert_eq!(store.users[0].discord.as_ref().unwrap().display_name, "Alice");
    assert!(store.users[0].racetime.is_some());
}

#[test]
fn callback_for_known_account_changes_nothing() {
    let mut store = UserStore::new(1);
    assert_eq!(store.racetime_callback(None, &racetime("rt1", "Alice")), Ok(Some(1)));
    assert_eq!(store.racetime_callback(None, &racetime("rt1", "Alice")), Ok(None));
    assert_eq!(store.discord_callback(Some(1), &discord(3, "a", None)), Ok(Some(1)));
    assert_eq!(store.discord_callback(None, &discord(3, "a", None)), Ok(None));
    assert_eq!(store.users.len(), 1);
}

#[test]
fn later_success_overrides_racetime_failure() {
    let mut store = UserStore::new(1);
    store.register_racetime(None, &racetime("rt1", "Alice")).unwrap();
    let bob = store.register_discord(None, &discord(7, "bob", None)).unwrap();
    let r = store.user_from_request(Outcome::Error(failure(Status::BadGateway)), Outcome::Success(discord(7, "bob", Some("Bob"))));
    assert_eq!(r.unwrap(), bob);
    assert_eq!(store.users[1].discord.as_ref().unwrap().display_name, "Bob");
}

#[test]
fn no_credentials_are_unauthorized() {
    let mut store = UserStore::new(1);
    store.register_racetime(None, &racetime("rt1", "Alice")).unwrap();
    match store.user_from_request(Outcome::Forward, Outcome::Forward) {
        Err(f) => {
            assert_eq!(f.status, Status::Unauthorized);
            assert!(matches!(f.error, UserFromRequestError::Cookie));
        }
        Ok(id) => panic!("resolved to {}", id),
    }
}

#[test]
fn forward_keeps_earlier_failure() {
    let mut store = UserStore::new(1);
    match store.user_from_request(Outcome::Error(failure(Status::BadGateway)), Outcome::Forward) {
        Err(f) => assert_eq!(f.status, Status::BadGateway),
        Ok(id) => panic!("resolved to {}", id),
    }
}

#[test]
fn first_success_wins() {
    let mut store = UserStore::new(1);
    let alice = store.register_racetime(None, &racetime("rt1", "Alice")).unwrap();
    store.register_discord(None, &discord(7, "bob", None)).unwrap();
    let r = store.user_from_request(Outcome::Success(racetime("rt1", "Alice")), Outcome::Success(discord(7, "bob", None)));
    assert_eq!(r.unwrap(), alice);
    let r = store.user_from_request(Outcome::Success(racetime("rt1", "Alice")), Outcome::Error(failure(Status::BadGateway)));
    assert_eq!(r.unwrap(), alice);
}

#[test]
fn unknown_account_does_not_resolve() {
    let mut store = UserStore::new(1);
    let r = store.user_from_request(Outcome::Success(racetime("rt9", "Zed")), Outcome::Forward);
    assert_eq!(r.unwrap_err().status, Status::Unauthorized);
}

#[test]
fn resolution_refreshes_display_fields() {
    let mut store = UserStore::new(1);
    store.register_racetime(None, &racetime("rt1", "Alice")).unwrap();
    let mut fresh = racetime("rt1", "Alicia");
    fresh.discriminator = Some(disc(1));
    fresh.pronouns = None;
    store.user_from_request(Outcome::Success(fresh), Outcome::Forward).unwrap();
    let link = store.users[0].racetime.as_ref().unwrap();
    assert_eq!(link.display_name, "Alicia");
    assert_eq!(link.discriminator, Some(disc(1)));
    assert_eq!(link.pronouns, None);
}

#[test]
fn view_as_returns_target() {
    let mut store = UserStore::new(1);
    let admin = store.register_racetime(None, &racetime("rt1", "Admin")).unwrap();
    let other = store.register_discord(None, &discord(7, "bob", None)).unwrap();
    store.set_view_as(admin, other);
    assert_eq!(store.view_as_target(admin), Some(other));
    let r = store.user_from_request(Outcome::Success(racetime("rt1", "Admin")), Outcome::Forward);
    assert_eq!(r.unwrap(), other);
}

#[test]
fn view_as_missing_target_is_internal_error() {
    let mut store = UserStore::new(1);
    let admin = store.register_racetime(None, &racetime("rt1", "Admin")).unwrap();
    store.set_view_as(admin, 99);
    match store.user_from_request(Outcome::Success(racetime("rt1", "Admin")), Outcome::Forward) {
        Err(f) => {
            assert_eq!(f.status, Status::InternalServerError);
            assert!(matches!(f.error, UserFromRequestError::ViewAsNoSuchUser));
        }
        Ok(id) => panic!("resolved to {}", id),
    }
}

#[test]
fn set_view_as_replaces_mapping() {
    let mut store = UserStore::new(1);
    store.set_view_as(1, 2);
    store.set_view_as(3, 4);
    store.set_view_as(1, 5);
    assert_eq!(store.view_as_target(1), Some(5));
    assert_eq!(store.view_as_target(3), Some(4));
    assert_eq!(store.view_as_target(2), None);
    assert_eq!(store.view_as.len(), 2);
}

#[test]
fn merge_absorbs_discord_only_user() {
    let mut store = UserStore::new(1);
    let a = store.register_racetime(None, &racetime("rt1", "Alice")).unwrap();
    let b = store.register_discord(None, &discord(7, "alice", Some("Alice D"))).unwrap();
    let r = store.merge_accounts(a, &Some(racetime("rt1", "Alice")), &Some(discord(7, "alice", None)));
    assert_eq!(r, Ok(a));
    assert_eq!(store.users.len(), 1);
    assert_eq!(store.users[0].id, a);
    assert!(store.find_by_id(b).is_none());
    assert_eq!(store.users[0].racetime.as_ref().unwrap().id, "rt1");
    let d = store.users[0].discord.as_ref().unwrap();
    assert_eq!(d.id, 7);
    assert_eq!(d.display_name, "Alice D");
}

#[test]
fn merge_absorbs_racetime_only_user() {
    let mut store = UserStore::new(1);
    let b = store.register_racetime(None, &racetime("rt1", "Alice")).unwrap();
    let a = store.register_discord(None, &discord(7, "alice", None)).unwrap();
    let r = store.merge_accounts(a, &Some(racetime("rt1", "Alice")), &None);
    assert_eq!(r, Ok(a));
    assert_eq!(store.users.len(), 1);
    assert_eq!(store.users[0].id, a);
    assert!(store.find_by_id(b).is_none());
    assert_eq!(store.users[0].racetime.as_ref().unwrap().display_name, "Alice");
}

#[test]
fn merge_when_already_merged() {
    let mut store = UserStore::new(1);
    let a = store.register_racetime(None, &racetime("rt1", "Alice")).unwrap();
    store.register_discord(Some(a), &discord(7, "alice", None)).unwrap();
    let r = store.merge_accounts(a, &None, &Some(discord(7, "alice", None)));
    assert_eq!(r, Err(MergeAccountsError::AlreadyMerged));
    assert_eq!(store.users.len(), 1);
}

#[test]
fn merge_refuses_user_with_both_links() {
    let mut store = UserStore::new(1);
    let a = store.register_racetime(None, &racetime("rt1", "Alice")).unwrap();
    let b = store.register_racetime(None, &racetime("rt2", "Bob")).unwrap();
    store.register_discord(Some(b), &discord(7, "bob", None)).unwrap();
    let r = store.merge_accounts(a, &None, &Some(discord(7, "bob", None)));
    assert_eq!(r, Err(MergeAccountsError::Other));
    assert_eq!(store.users.len(), 2);
    assert!(store.users[0].discord.is_none());
    assert_eq!(store.users[1].discord.as_ref().unwrap().id, 7);
}

#[test]
fn merge_without_other_account_fails() {
    let mut store = UserStore::new(1);
    let a = store.register_racetime(None, &racetime("rt1", "Alice")).unwrap();
    assert_eq!(store.merge_accounts(a, &None, &Some(discord(8, "x", None))), Err(MergeAccountsError::Other));
    assert_eq!(store.merge_accounts(a, &None, &None), Err(MergeAccountsError::Other));
    assert_eq!(store.users.len(), 1);
}

#[test]
fn link_challonge_and_startgg() {
    let mut store = UserStore::new(1);
    let a = store.register_racetime(None, &racetime("rt1", "Alice")).unwrap();
    let b = store.register_racetime(None, &racetime("rt2", "Bob")).unwrap();
    assert_eq!(store.link_challonge(a, ChallongeUser { id: "ch1".to_string() }), Ok(()));
    assert_eq!(store.users[0].challonge_id.as_deref(), Some("ch1"));
    assert_eq!(store.link_challonge(b, ChallongeUser { id: "ch1".to_string() }), Err(LinkError::ExistsChallonge));
    assert_eq!(store.link_challonge(a, ChallongeUser { id: "ch1".to_string() }), Ok(()));
    assert_eq!(store.link_startgg(b, "sg1".to_string()), Ok(()));
    assert_eq!(store.link_startgg(a, "sg1".to_string()), Err(LinkError::ExistsStartGG));
    assert_eq!(store.users[1].startgg_id.as_deref(), Some("sg1"));
    assert!(store.users[0].startgg_id.is_none());
}
