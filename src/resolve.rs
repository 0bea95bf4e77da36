use vstd::prelude::*;
use crate::credential::{Failure, Outcome, Status, UserFromRequestError, failure};
use crate::identity::{DiscordLink, DiscordUser, RaceTimeLink, RaceTimeUser, discord_link_of, racetime_link_of};
use crate::register::{with_discord, with_racetime};
use crate::store::{
    LocalUser, StoreModel, UserStore, discord_claimed, discord_index, has_discord, has_racetime,
    id_present, racetime_claimed, racetime_index, users_wf, view_as_wf,
};

verus! {

/// The failure of a request that holds no usable credential.
pub open spec fn unauthorized() -> Failure {
    failure(Status::Unauthorized, UserFromRequestError::Cookie)
}

/// An earlier success stands; otherwise the later result does.
pub open spec fn or_later(found: Result<u64, Failure>, later: Result<u64, Failure>) -> Result<u64, Failure> {
    match found {
        Ok(id) => Ok(id),
        Err(_) => later,
    }
}

/// One provider's part of a resolution: a known racetime.gg account refreshes its user's
/// stored fields and offers that user; a failure is offered as the result; a forward, or
/// an account that no user holds, leaves everything as it was.
pub open spec fn racetime_step(users: Seq<LocalUser>, found: Result<u64, Failure>, o: Outcome<RaceTimeUser>) -> (Seq<LocalUser>, Result<u64, Failure>) {
    match o {
        Outcome::Success(ru) => if racetime_claimed(users, ru.id@) {
            let i = racetime_index(users, ru.id@);
            (users.update(i, with_racetime(users[i], Some(racetime_link_of(ru)))), or_later(found, Ok(users[i].id)))
        } else {
            (users, found)
        },
        Outcome::Forward => (users, found),
        Outcome::Error(f) => (users, or_later(found, Err(f))),
    }
}

/// The same as `racetime_step`, for Discord.
pub open spec fn discord_step(users: Seq<LocalUser>, found: Result<u64, Failure>, o: Outcome<DiscordUser>) -> (Seq<LocalUser>, Result<u64, Failure>) {
    match o {
        Outcome::Success(du) => if discord_claimed(users, du.id) {
            let i = discord_index(users, du.id);
            (users.update(i, with_discord(users[i], Some(discord_link_of(du)))), or_later(found, Ok(users[i].id)))
        } else {
            (users, found)
        },
        Outcome::Forward => (users, found),
        Outcome::Error(f) => (users, or_later(found, Err(f))),
    }
}

/// The target that `viewer` views the site as, if any.
pub open spec fn view_as_lookup(view_as: Seq<(u64, u64)>, viewer: u64) -> Option<u64> {
    if exists|i: int| 0 <= i < view_as.len() && (#[trigger] view_as[i]).0 == viewer {
        Some(view_as[choose|i: int| 0 <= i < view_as.len() && (#[trigger] view_as[i]).0 == viewer].1)
    } else {
        None
    }
}

/// A resolved user with a view-as mapping becomes its target; a target that does not exist
/// is an internal error.
pub open spec fn apply_view_as(m: StoreModel, found: Result<u64, Failure>) -> Result<u64, Failure> {
    match found {
        Ok(id) => match view_as_lookup(m.view_as, id) {
            Some(t) => if id_present(m.users, t) {
                Ok(t)
            } else {
                Err(failure(Status::InternalServerError, UserFromRequestError::ViewAsNoSuchUser))
            },
            None => Ok(id),
        },
        Err(f) => Err(f),
    }
}

/// Resolving a request: racetime.gg first, then Discord, starting from "unauthorized";
/// then the view-as mapping.
pub open spec fn user_from_request_model(m: StoreModel, racetime: Outcome<RaceTimeUser>, discord: Outcome<DiscordUser>) -> (StoreModel, Result<u64, Failure>) {
    let (users1, found1) = racetime_step(m.users, Err(unauthorized()), racetime);
    let (users2, found2) = discord_step(users1, found1, discord);
    let m2 = StoreModel { users: users2, ..m };
    (m2, apply_view_as(m2, found2))
}

/// Refreshing the stored fields of a racetime.gg link keeps the table well formed.
proof fn lemma_refresh_racetime_wf(users: Seq<LocalUser>, next_id: u64, i: int, link: RaceTimeLink)
    requires
        users_wf(users, next_id),
        0 <= i < users.len(),
        has_racetime(users[i], link.id@),
    ensures
        users_wf(users.update(i, with_racetime(users[i], Some(link))), next_id),
{
    let u2 = users.update(i, with_racetime(users[i], Some(link)));
    assert forall|x: int| 0 <= x < u2.len() && x != i implies #[trigger] u2[x] == users[x] by {}
}

/// Refreshing the stored fields of a Discord link keeps the table well formed.
proof fn lemma_refresh_discord_wf(users: Seq<LocalUser>, next_id: u64, i: int, link: DiscordLink)
    requires
        users_wf(users, next_id),
        0 <= i < users.len(),
        has_discord(users[i], link.id),
    ensures
        users_wf(users.update(i, with_discord(users[i], Some(link))), next_id),
{
    let u2 = users.update(i, with_discord(users[i], Some(link)));
    assert forall|x: int| 0 <= x < u2.len() && x != i implies #[trigger] u2[x] == users[x] by {}
}

/// Replacing the mapping of a viewer changes the lookup for that viewer only.
proof fn lemma_view_as_replaced(v: Seq<(u64, u64)>, i: int, pair: (u64, u64))
    requires
        view_as_wf(v),
        0 <= i < v.len(),
        v[i].0 == pair.0,
    ensures
        view_as_wf(v.update(i, pair)),
        view_as_lookup(v.update(i, pair), pair.0) == Some(pair.1),
        forall|w: u64| w != pair.0 ==> view_as_lookup(v.update(i, pair), w) == view_as_lookup(v, w),
{
    let nv = v.update(i, pair);
    assert forall|a: int, b: int| 0 <= a < nv.len() && 0 <= b < nv.len() && a != b
        implies (#[trigger] nv[a]).0 != (#[trigger] nv[b]).0 by {
        assert(nv[a].0 == v[a].0 && nv[b].0 == v[b].0);
    }
    assert(nv[i].0 == pair.0);
    let k = choose|k: int| 0 <= k < nv.len() && (#[trigger] nv[k]).0 == pair.0;
    assert(k == i);
    assert forall|w: u64| w != pair.0 implies view_as_lookup(nv, w) == view_as_lookup(v, w) by {
        if exists|j: int| 0 <= j < nv.len() && (#[trigger] nv[j]).0 == w {
            let a = choose|j: int| 0 <= j < nv.len() && (#[trigger] nv[j]).0 == w;
            assert(a != i);
            assert(v[a] == nv[a]);
            let b = choose|j: int| 0 <= j < v.len() && (#[trigger] v[j]).0 == w;
            assert(a == b);
        } else {
            assert forall|j: int| 0 <= j < v.len() implies (#[trigger] v[j]).0 != w by {
                if j != i {
                    assert(nv[j] == v[j]);
                }
            }
        }
    }
}

/// Adding a mapping for a new viewer changes the lookup for that viewer only.
proof fn lemma_view_as_added(v: Seq<(u64, u64)>, pair: (u64, u64))
    requires
        view_as_wf(v),
        forall|j: int| 0 <= j < v.len() ==> (#[trigger] v[j]).0 != pair.0,
    ensures
        view_as_wf(v.push(pair)),
        view_as_lookup(v.push(pair), pair.0) == Some(pair.1),
        forall|w: u64| w != pair.0 ==> view_as_lookup(v.push(pair), w) == view_as_lookup(v, w),
{
    let nv = v.push(pair);
    let n = v.len() as int;
    assert forall|a: int, b: int| 0 <= a < nv.len() && 0 <= b < nv.len() && a != b
        implies (#[trigger] nv[a]).0 != (#[trigger] nv[b]).0 by {
        if a < n {
            assert(nv[a] == v[a]);
        }
        if b < n {
            assert(nv[b] == v[b]);
        }
    }
    assert(nv[n].0 == pair.0);
    let k = choose|k: int| 0 <= k < nv.len() && (#[trigger] nv[k]).0 == pair.0;
    assert(k == n);
    assert forall|w: u64| w != pair.0 implies view_as_lookup(nv, w) == view_as_lookup(v, w) by {
        if exists|j: int| 0 <= j < nv.len() && (#[trigger] nv[j]).0 == w {
            let a = choose|j: int| 0 <= j < nv.len() && (#[trigger] nv[j]).0 == w;
            assert(a < n);
            assert(v[a] == nv[a]);
            let b = choose|j: int| 0 <= j < v.len() && (#[trigger] v[j]).0 == w;
            assert(a == b);
        } else {
            assert forall|j: int| 0 <= j < v.len() implies (#[trigger] v[j]).0 != w by {
                assert(nv[j] == v[j]);
            }
        }
    }
}

/// Resolution changes links only: the users, their ids and the view-as table stay.
proof fn lemma_steps_keep_ids(m: StoreModel, racetime: Outcome<RaceTimeUser>, discord: Outcome<DiscordUser>)
    ensures
        ({
            let m2 = user_from_request_model(m, racetime, discord).0;
            &&& m2.users.len() == m.users.len()
            &&& forall|i: int| 0 <= i < m.users.len() ==> (#[trigger] m2.users[i]).id == m.users[i].id
            &&& m2.view_as == m.view_as
            &&& forall|id: u64| id_present(m2.users, id) == id_present(m.users, id)
        }),
{
    let m2 = user_from_request_model(m, racetime, discord).0;
    let (users1, found1) = racetime_step(m.users, Err(unauthorized()), racetime);
    assert(users1.len() == m.users.len());
    assert(forall|i: int| 0 <= i < m.users.len() ==> (#[trigger] users1[i]).id == m.users[i].id);
    assert(m2.users.len() == m.users.len());
    assert(forall|i: int| 0 <= i < m.users.len() ==> (#[trigger] m2.users[i]).id == users1[i].id);
    assert forall|id: u64| id_present(m2.users, id) == id_present(m.users, id) by {
        if id_present(m.users, id) {
            let i = choose|i: int| 0 <= i < m.users.len() && (#[trigger] m.users[i]).id == id;
            assert(m2.users[i].id == id);
        }
        if id_present(m2.users, id) {
            let i = choose|i: int| 0 <= i < m2.users.len() && (#[trigger] m2.users[i]).id == id;
            assert(m.users[i].id == id);
        }
    }
}

/// A failed racetime.gg credential followed by a Discord account that a user holds
/// resolves to that user (or to its view-as target): the failure is dropped.
pub proof fn lemma_later_success_overrides_failure(m: StoreModel, f: Failure, du: DiscordUser)
    requires
        m.wf(),
        discord_claimed(m.users, du.id),
    ensures
        ({
            let (m2, r) = user_from_request_model(m, Outcome::Error(f), Outcome::Success(du));
            let id = m.users[discord_index(m.users, du.id)].id;
            &&& r == apply_view_as(m2, Ok(id))
            &&& view_as_lookup(m.view_as, id) is None ==> r == Ok::<u64, Failure>(id)
        }),
{
}

/// A later forward leaves an earlier failure or success as it was.
pub proof fn lemma_forward_keeps_earlier(m: StoreModel, racetime: Outcome<RaceTimeUser>)
    ensures
        ({
            let (users1, found1) = racetime_step(m.users, Err(unauthorized()), racetime);
            discord_step(users1, found1, Outcome::Forward) == (users1, found1)
        }),
{
}

/// With neither credential the request is unauthorized and nothing changes.
pub proof fn lemma_no_credential_unauthorized(m: StoreModel)
    ensures
        user_from_request_model(m, Outcome::Forward, Outcome::Forward) == (m, Err::<u64, Failure>(unauthorized())),
{
    let m2 = user_from_request_model(m, Outcome::Forward, Outcome::Forward).0;
    assert(m2 == m);
}

/// A user who views the site as another resolves to that target, never to itself; where
/// the target no longer exists the resolution fails with an internal error.
pub proof fn lemma_view_as_resolves_to_target(m: StoreModel, racetime: Outcome<RaceTimeUser>, discord: Outcome<DiscordUser>, viewer: u64, target: u64)
    requires
        m.wf(),
        ({
            let (users1, found1) = racetime_step(m.users, Err(unauthorized()), racetime);
            discord_step(users1, found1, discord).1 == Ok::<u64, Failure>(viewer)
        }),
        view_as_lookup(m.view_as, viewer) == Some(target),
        viewer != target,
    ensures
        ({
            let r = user_from_request_model(m, racetime, discord).1;
            &&& id_present(m.users, target) ==> r == Ok::<u64, Failure>(target)
            &&& !id_present(m.users, target) ==> r == Err::<u64, Failure>(
                failure(Status::InternalServerError, UserFromRequestError::ViewAsNoSuchUser),
            )
            &&& r != Ok::<u64, Failure>(viewer)
        }),
{
    lemma_steps_keep_ids(m, racetime, discord);
}

/// An earlier success stands; otherwise the later result does.
fn take_earlier_success(found: Result<u64, Failure>, later: Result<u64, Failure>) -> (r: Result<u64, Failure>)
    ensures
        r == or_later(found, later),
{
    match found {
        Ok(id) => Ok(id),
        Err(_) => later,
    }
}

impl UserStore {
    /// The target that `viewer` views the site as, if any.
    pub fn view_as_target(&self, viewer: u64) -> (r: Option<u64>)
        requires
            self@.wf(),
        ensures
            r == view_as_lookup(self@.view_as, viewer),
    {
        let mut i: usize = 0;
        while i < self.view_as.len()
            invariant
                self@.wf(),
                i <= self.view_as@.len(),
                forall|j: int| 0 <= j < i ==> (#[trigger] self.view_as@[j]).0 != viewer,
            decreases self.view_as@.len() - i,
        {
            let (v, t) = self.view_as[i];
            if v == viewer {
                proof {
                    let k = choose|k: int| 0 <= k < self.view_as@.len() && (#[trigger] self.view_as@[k]).0 == viewer;
                    assert(self.view_as@[i as int].0 == viewer);
                    assert(k == i);
                }
                return Some(t);
            }
            i += 1;
        }
        None
    }

    /// Makes `viewer` view the site as `target`, in place of any earlier mapping.
    pub fn set_view_as(&mut self, viewer: u64, target: u64)
        requires
            old(self)@.wf(),
        ensures
            final(self)@.wf(),
            final(self)@.users == old(self)@.users,
            final(self)@.next_id == old(self)@.next_id,
            view_as_lookup(final(self)@.view_as, viewer) == Some(target),
            forall|v: u64| v != viewer ==> view_as_lookup(final(self)@.view_as, v) == view_as_lookup(old(self)@.view_as, v),
    {
        let ghost old_v = self.view_as@;
        let mut i: usize = 0;
        while i < self.view_as.len()
            invariant
                self@ == old(self)@,
                self@.wf(),
                self.view_as@ == old_v,
                i <= old_v.len(),
                forall|j: int| 0 <= j < i ==> (#[trigger] old_v[j]).0 != viewer,
            decreases old_v.len() - i,
        {
            if self.view_as[i].0 == viewer {
                self.view_as.set(i, (viewer, target));
                proof {
                    lemma_view_as_replaced(old_v, i as int, (viewer, target));
                }
                return;
            }
            i += 1;
        }
        self.view_as.push((viewer, target));
        proof {
            lemma_view_as_added(old_v, (viewer, target));
        }
    }

    /// Resolves the request's provider identities to one local user, as
    /// `user_from_request_model` says, refreshing the stored fields of each user found.
    pub fn user_from_request(&mut self, racetime: Outcome<RaceTimeUser>, discord: Outcome<DiscordUser>) -> (r: Result<u64, Failure>)
        requires
            old(self)@.wf(),
        ensures
            final(self)@.wf(),
            (final(self)@, r) == user_from_request_model(old(self)@, racetime, discord),
    {
        let ghost m = self@;
        let mut found: Result<u64, Failure> = Err(Failure { status: Status::Unauthorized, error: UserFromRequestError::Cookie });
        match racetime {
            Outcome::Success(ru) => {
                if let Some(i) = self.find_by_racetime(&ru.id) {
                    let ghost before = self.users@;
                    let id = self.users[i].id;
                    let link = ru.to_link();
                    self.users[i].racetime = Some(link);
                    proof {
                        assert(self.users@ =~= before.update(i as int, with_racetime(before[i as int], Some(racetime_link_of(ru)))));
                        lemma_refresh_racetime_wf(before, self.next_id, i as int, link);
                    }
                    found = take_earlier_success(found, Ok(id));
                }
            },
            Outcome::Forward => {},
            Outcome::Error(f) => {
                found = take_earlier_success(found, Err(f));
            },
        }
        let ghost mid = self.users@;
        let ghost found1 = found;
        assert((mid, found1) == racetime_step(m.users, Err(unauthorized()), racetime));
        match discord {
            Outcome::Success(du) => {
                if let Some(i) = self.find_by_discord(du.id) {
                    let ghost before = self.users@;
                    let id = self.users[i].id;
                    let link = du.to_link();
                    self.users[i].discord = Some(link);
                    proof {
                        assert(self.users@ =~= before.update(i as int, with_discord(before[i as int], Some(discord_link_of(du)))));
                        lemma_refresh_discord_wf(before, self.next_id, i as int, link);
                    }
                    found = take_earlier_success(found, Ok(id));
                }
            },
            Outcome::Forward => {},
            Outcome::Error(f) => {
                found = take_earlier_success(found, Err(f));
            },
        }
        assert((self.users@, found) == discord_step(mid, found1, discord));
        match found {
            Ok(id) => match self.view_as_target(id) {
                Some(t) => match self.find_by_id(t) {
                    Some(_) => Ok(t),
                    None => Err(Failure { status: Status::InternalServerError, error: UserFromRequestError::ViewAsNoSuchUser }),
                },
                None => Ok(id),
            },
            Err(f) => Err(f),
        }
    }
}

} // verus!
