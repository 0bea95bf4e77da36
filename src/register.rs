use vstd::prelude::*;
use crate::identity::{
    ChallongeUser, DiscordLink, DiscordUser, RaceTimeLink, RaceTimeUser, discord_link_of, racetime_link_of,
};
use crate::store::{
    LocalUser, StoreModel, UserStore, discord_claimed, has_discord, has_racetime, id_index,
    id_present, racetime_claimed, users_wf,
};

verus! {

/// Why a provider account could not be registered.
#[derive(Debug, Clone, Copy, PartialEq, Eq, Structural)]
pub enum RegisterError {
    /// Another local user already holds this Discord account.
    ExistsDiscord,
    /// Another local user already holds this racetime.gg account.
    ExistsRaceTime,
}

/// `u` with its racetime.gg link set to `link`.
pub open spec fn with_racetime(u: LocalUser, link: Option<RaceTimeLink>) -> LocalUser {
    LocalUser { racetime: link, ..u }
}

/// `u` with its Discord link set to `link`.
pub open spec fn with_discord(u: LocalUser, link: Option<DiscordLink>) -> LocalUser {
    LocalUser { discord: link, ..u }
}

/// A new local user that holds only a racetime.gg account.
pub open spec fn new_racetime_user(id: u64, link: RaceTimeLink) -> LocalUser {
    LocalUser { id, racetime: Some(link), discord: None, challonge_id: None, startgg_id: None }
}

/// A new local user that holds only a Discord account.
pub open spec fn new_discord_user(id: u64, link: DiscordLink) -> LocalUser {
    LocalUser { id, racetime: None, discord: Some(link), challonge_id: None, startgg_id: None }
}

/// Registering a racetime.gg account: refused where a user holds it already; otherwise
/// attached to the signed-in user `me`, or given to a new user with the next id.
pub open spec fn register_racetime_model(m: StoreModel, me: Option<u64>, link: RaceTimeLink) -> (StoreModel, Result<u64, RegisterError>) {
    if racetime_claimed(m.users, link.id@) {
        (m, Err(RegisterError::ExistsRaceTime))
    } else {
        match me {
            Some(id) => {
                let i = id_index(m.users, id);
                (StoreModel { users: m.users.update(i, with_racetime(m.users[i], Some(link))), ..m }, Ok(id))
            },
            None => (
                StoreModel {
                    users: m.users.push(new_racetime_user(m.next_id, link)),
                    next_id: (m.next_id + 1) as u64,
                    ..m
                },
                Ok(m.next_id),
            ),
        }
    }
}

/// Registering a Discord account, in the same way as a racetime.gg account.
pub open spec fn register_discord_model(m: StoreModel, me: Option<u64>, link: DiscordLink) -> (StoreModel, Result<u64, RegisterError>) {
    if discord_claimed(m.users, link.id) {
        (m, Err(RegisterError::ExistsDiscord))
    } else {
        match me {
            Some(id) => {
                let i = id_index(m.users, id);
                (StoreModel { users: m.users.update(i, with_discord(m.users[i], Some(link))), ..m }, Ok(id))
            },
            None => (
                StoreModel {
                    users: m.users.push(new_discord_user(m.next_id, link)),
                    next_id: (m.next_id + 1) as u64,
                    ..m
                },
                Ok(m.next_id),
            ),
        }
    }
}

/// What a registration may be asked on: a signed-in user is in the store, and a new user
/// can still get an id.
pub open spec fn register_ready(m: StoreModel, me: Option<u64>) -> bool {
    &&& m.wf()
    &&& me matches Some(id) ==> id_present(m.users, id)
    &&& me is None ==> m.next_id < u64::MAX
}

/// Registering one racetime.gg account twice with nobody signed in: the first call
/// creates exactly one user, who holds the account; the second is refused with
/// `ExistsRaceTime` and changes nothing.
pub proof fn lemma_register_racetime_twice(m: StoreModel, link: RaceTimeLink)
    requires
        register_ready(m, None),
        !racetime_claimed(m.users, link.id@),
    ensures
        ({
            let (m1, r1) = register_racetime_model(m, None, link);
            let (m2, r2) = register_racetime_model(m1, None, link);
            &&& r1 == Ok::<u64, RegisterError>(m.next_id)
            &&& m1.users.len() == m.users.len() + 1
            &&& m1.users.last() == new_racetime_user(m.next_id, link)
            &&& forall|i: int| 0 <= i < m1.users.len() && has_racetime(#[trigger] m1.users[i], link.id@)
                ==> i == m.users.len()
            &&& r2 == Err::<u64, RegisterError>(RegisterError::ExistsRaceTime)
            &&& m2 == m1
        }),
{
    let (m1, r1) = register_racetime_model(m, None, link);
    let n = m.users.len() as int;
    assert(has_racetime(m1.users[n], link.id@));
    assert forall|i: int| 0 <= i < m1.users.len() && has_racetime(#[trigger] m1.users[i], link.id@)
        implies i == n by {
        if i < n {
            assert(m1.users[i] == m.users[i]);
        }
    }
}

/// Registering one Discord account twice with nobody signed in: the first call creates
/// exactly one user, who holds the account; the second is refused with `ExistsDiscord`
/// and changes nothing.
pub proof fn lemma_register_discord_twice(m: StoreModel, link: DiscordLink)
    requires
        register_ready(m, None),
        !discord_claimed(m.users, link.id),
    ensures
        ({
            let (m1, r1) = register_discord_model(m, None, link);
            let (m2, r2) = register_discord_model(m1, None, link);
            &&& r1 == Ok::<u64, RegisterError>(m.next_id)
            &&& m1.users.len() == m.users.len() + 1
            &&& m1.users.last() == new_discord_user(m.next_id, link)
            &&& forall|i: int| 0 <= i < m1.users.len() && has_discord(#[trigger] m1.users[i], link.id)
                ==> i == m.users.len()
            &&& r2 == Err::<u64, RegisterError>(RegisterError::ExistsDiscord)
            &&& m2 == m1
        }),
{
    let (m1, r1) = register_discord_model(m, None, link);
    let n = m.users.len() as int;
    assert(has_discord(m1.users[n], link.id));
    assert forall|i: int| 0 <= i < m1.users.len() && has_discord(#[trigger] m1.users[i], link.id)
        implies i == n by {
        if i < n {
            assert(m1.users[i] == m.users[i]);
        }
    }
}

impl UserStore {
    /// Links the racetime.gg account of `racetime_user` to the signed-in user `me`, or
    /// creates a user for it. Returns the id of the user that holds it.
    pub fn register_racetime(&mut self, me: Option<u64>, racetime_user: &RaceTimeUser) -> (r: Result<u64, RegisterError>)
        requires
            register_ready(old(self)@, me),
        ensures
            final(self)@.wf(),
            (final(self)@, r) == register_racetime_model(old(self)@, me, racetime_link_of(*racetime_user)),
    {
        if let Some(_) = self.find_by_racetime(&racetime_user.id) {
            return Err(RegisterError::ExistsRaceTime);
        }
        let link = racetime_user.to_link();
        let ghost old_users = self.users@;
        match me {
            Some(id) => {
                let i = self.position_of(id);
                self.users[i].racetime = Some(link);
                proof {
                    assert(self.users@ =~= old_users.update(i as int, with_racetime(old_users[i as int], Some(link))));
                    assert(users_wf(self.users@, self.next_id)) by {
                        assert forall|j: int| 0 <= j < self.users@.len() && j != i implies #[trigger] self.users@[j] == old_users[j] by {}
                        assert forall|j: int| 0 <= j < old_users.len() implies !has_racetime(#[trigger] old_users[j], link.id@) by {}
                    }
                }
                Ok(id)
            },
            None => {
                let id = self.next_id;
                self.users.push(LocalUser { id, racetime: Some(link), discord: None, challonge_id: None, startgg_id: None });
                self.next_id = id + 1;
                proof {
                    assert(self.users@ =~= old_users.push(new_racetime_user(id, link)));
                    assert(users_wf(self.users@, self.next_id)) by {
                        assert forall|j: int| 0 <= j < old_users.len() implies !has_racetime(#[trigger] old_users[j], link.id@) by {}
                        assert forall|j: int| 0 <= j < old_users.len() implies #[trigger] self.users@[j] == old_users[j] by {}
                    }
                }
                Ok(id)
            },
        }
    }

    /// Links the Discord account of `discord_user` to the signed-in user `me`, or creates
    /// a user for it. Returns the id of the user that holds it.
    pub fn register_discord(&mut self, me: Option<u64>, discord_user: &DiscordUser) -> (r: Result<u64, RegisterError>)
        requires
            register_ready(old(self)@, me),
        ensures
            final(self)@.wf(),
            (final(self)@, r) == register_discord_model(old(self)@, me, discord_link_of(*discord_user)),
    {
        if let Some(_) = self.find_by_discord(discord_user.id) {
            return Err(RegisterError::ExistsDiscord);
        }
        let link = discord_user.to_link();
        let ghost old_users = self.users@;
        match me {
            Some(id) => {
                let i = self.position_of(id);
                self.users[i].discord = Some(link);
                proof {
                    assert(self.users@ =~= old_users.update(i as int, with_discord(old_users[i as int], Some(link))));
                    assert(users_wf(self.users@, self.next_id)) by {
                        assert forall|j: int| 0 <= j < self.users@.len() && j != i implies #[trigger] self.users@[j] == old_users[j] by {}
                        assert forall|j: int| 0 <= j < old_users.len() implies !has_discord(#[trigger] old_users[j], link.id) by {}
                    }
                }
                Ok(id)
            },
            None => {
                let id = self.next_id;
                self.users.push(LocalUser { id, racetime: None, discord: Some(link), challonge_id: None, startgg_id: None });
                self.next_id = id + 1;
                proof {
                    assert(self.users@ =~= old_users.push(new_discord_user(id, link)));
                    assert(users_wf(self.users@, self.next_id)) by {
                        assert forall|j: int| 0 <= j < old_users.len() implies !has_discord(#[trigger] old_users[j], link.id) by {}
                        assert forall|j: int| 0 <= j < old_users.len() implies #[trigger] self.users@[j] == old_users[j] by {}
                    }
                }
                Ok(id)
            },
        }
    }
}

/// Why a Challonge or start.gg account could not be linked.
#[derive(Debug, Clone, Copy, PartialEq, Eq, Structural)]
pub enum LinkError {
    /// Another local user holds this Challonge account.
    ExistsChallonge,
    /// Another local user holds this start.gg account.
    ExistsStartGG,
}

/// `o` holds the string `id`.
pub open spec fn names(o: Option<String>, id: Seq<char>) -> bool {
    o is Some && o.unwrap()@ == id
}

/// Another user than the one with id `me` holds the Challonge account `cid`.
pub open spec fn challonge_held_by_other(users: Seq<LocalUser>, me: u64, cid: Seq<char>) -> bool {
    exists|i: int| 0 <= i < users.len() && (#[trigger] users[i]).id != me
        && names(users[i].challonge_id, cid)
}

/// Another user than the one with id `me` holds the start.gg account `sid`.
pub open spec fn startgg_held_by_other(users: Seq<LocalUser>, me: u64, sid: Seq<char>) -> bool {
    exists|i: int| 0 <= i < users.len() && (#[trigger] users[i]).id != me
        && names(users[i].startgg_id, sid)
}

/// Whether a user other than `me` holds `id` as its Challonge id (`challonge`) or its
/// start.gg id (otherwise).
fn holds_other(users: &Vec<LocalUser>, me: u64, id: &String, challonge: bool) -> (r: bool)
    ensures
        challonge ==> r == challonge_held_by_other(users@, me, id@),
        !challonge ==> r == startgg_held_by_other(users@, me, id@),
{
    let mut i: usize = 0;
    while i < users.len()
        invariant
            i <= users@.len(),
            challonge ==> forall|j: int| 0 <= j < i ==> !((#[trigger] users@[j]).id != me
                && names(users@[j].challonge_id, id@)),
            !challonge ==> forall|j: int| 0 <= j < i ==> !((#[trigger] users@[j]).id != me
                && names(users@[j].startgg_id, id@)),
        decreases users@.len() - i,
    {
        let u = &users[i];
        if u.id != me {
            let field = if challonge { &u.challonge_id } else { &u.startgg_id };
            if let Some(c) = field {
                if *c == *id {
                    return true;
                }
            }
        }
        i += 1;
    }
    false
}

impl UserStore {
    /// After a racetime.gg sign-in: an account that a user holds already changes nothing
    /// (`Ok(None)`); any other is registered as `register_racetime` does
    /// (`Ok(Some(id))`, or its error).
    pub fn racetime_callback(&mut self, me: Option<u64>, racetime_user: &RaceTimeUser) -> (r: Result<Option<u64>, RegisterError>)
        requires
            register_ready(old(self)@, me),
        ensures
            final(self)@.wf(),
            racetime_claimed(old(self)@.users, racetime_user.id@) ==> r == Ok::<Option<u64>, RegisterError>(None)
                && final(self)@ == old(self)@,
            !racetime_claimed(old(self)@.users, racetime_user.id@) ==> ({
                let (m, res) = register_racetime_model(old(self)@, me, racetime_link_of(*racetime_user));
                &&& final(self)@ == m
                &&& res matches Ok(id) && r == Ok::<Option<u64>, RegisterError>(Some(id))
            }),
    {
        if self.find_by_racetime(&racetime_user.id).is_some() {
            return Ok(None);
        }
        match self.register_racetime(me, racetime_user) {
            Ok(id) => Ok(Some(id)),
            Err(e) => Err(e),
        }
    }

    /// After a Discord sign-in: an account that a user holds already changes nothing
    /// (`Ok(None)`); any other is registered as `register_discord` does.
    pub fn discord_callback(&mut self, me: Option<u64>, discord_user: &DiscordUser) -> (r: Result<Option<u64>, RegisterError>)
        requires
            register_ready(old(self)@, me),
        ensures
            final(self)@.wf(),
            discord_claimed(old(self)@.users, discord_user.id) ==> r == Ok::<Option<u64>, RegisterError>(None)
                && final(self)@ == old(self)@,
            !discord_claimed(old(self)@.users, discord_user.id) ==> ({
                let (m, res) = register_discord_model(old(self)@, me, discord_link_of(*discord_user));
                &&& final(self)@ == m
                &&& res matches Ok(id) && r == Ok::<Option<u64>, RegisterError>(Some(id))
            }),
    {
        if self.find_by_discord(discord_user.id).is_some() {
            return Ok(None);
        }
        match self.register_discord(me, discord_user) {
            Ok(id) => Ok(Some(id)),
            Err(e) => Err(e),
        }
    }

    /// Links the Challonge account of `challonge_user` to the signed-in user `me`, unless
    /// another user holds it.
    pub fn link_challonge(&mut self, me: u64, challonge_user: ChallongeUser) -> (r: Result<(), LinkError>)
        requires
            old(self)@.wf(),
            id_present(old(self)@.users, me),
        ensures
            final(self)@.wf(),
            challonge_held_by_other(old(self)@.users, me, challonge_user.id@) ==> r == Err::<(), LinkError>(LinkError::ExistsChallonge)
                && final(self)@ == old(self)@,
            !challonge_held_by_other(old(self)@.users, me, challonge_user.id@) ==> r is Ok && ({
                let i = id_index(old(self)@.users, me);
                final(self)@ == StoreModel {
                    users: old(self)@.users.update(i, LocalUser { challonge_id: Some(challonge_user.id), ..old(self)@.users[i] }),
                    ..old(self)@
                }
            }),
    {
        let challonge_id = challonge_user.id;
        if holds_other(&self.users, me, &challonge_id, true) {
            return Err(LinkError::ExistsChallonge);
        }
        let i = self.position_of(me);
        let ghost before = self.users@;
        self.users[i].challonge_id = Some(challonge_id);
        proof {
            let after = before.update(i as int, LocalUser { challonge_id: Some(challonge_id), ..before[i as int] });
            assert(self.users@ =~= after);
            assert forall|x: int| 0 <= x < after.len() && x != i implies #[trigger] after[x] == before[x] by {}
        }
        Ok(())
    }

    /// Links the start.gg account `startgg_id` to the signed-in user `me`, unless another
    /// user holds it.
    pub fn link_startgg(&mut self, me: u64, startgg_id: String) -> (r: Result<(), LinkError>)
        requires
            old(self)@.wf(),
            id_present(old(self)@.users, me),
        ensures
            final(self)@.wf(),
            startgg_held_by_other(old(self)@.users, me, startgg_id@) ==> r == Err::<(), LinkError>(LinkError::ExistsStartGG)
                && final(self)@ == old(self)@,
            !startgg_held_by_other(old(self)@.users, me, startgg_id@) ==> r is Ok && ({
                let i = id_index(old(self)@.users, me);
                final(self)@ == StoreModel {
                    users: old(self)@.users.update(i, LocalUser { startgg_id: Some(startgg_id), ..old(self)@.users[i] }),
                    ..old(self)@
                }
            }),
    {
        if holds_other(&self.users, me, &startgg_id, false) {
            return Err(LinkError::ExistsStartGG);
        }
        let i = self.position_of(me);
        let ghost before = self.users@;
        self.users[i].startgg_id = Some(startgg_id);
        proof {
            let after = before.update(i as int, LocalUser { startgg_id: Some(startgg_id), ..before[i as int] });
            assert(self.users@ =~= after);
            assert forall|x: int| 0 <= x < after.len() && x != i implies #[trigger] after[x] == before[x] by {}
        }
        Ok(())
    }
}

} // verus!
