use vstd::prelude::*;
use crate::identity::{DiscordLink, RaceTimeLink};

verus! {

/// A local account: its id and the provider accounts linked to it.
pub struct LocalUser {
    pub id: u64,
    pub racetime: Option<RaceTimeLink>,
    pub discord: Option<DiscordLink>,
    pub challonge_id: Option<String>,
    pub startgg_id: Option<String>,
}

/// The users table and the view-as table. Ids are handed out in sequence from `next_id`.
pub struct UserStore {
    pub users: Vec<LocalUser>,
    pub view_as: Vec<(u64, u64)>,
    pub next_id: u64,
}

/// The contents of a `UserStore`.
pub ghost struct StoreModel {
    pub users: Seq<LocalUser>,
    /// Pairs of (viewer, target).
    pub view_as: Seq<(u64, u64)>,
    pub next_id: u64,
}

impl View for UserStore {
    type V = StoreModel;

    open spec fn view(&self) -> StoreModel {
        StoreModel { users: self.users@, view_as: self.view_as@, next_id: self.next_id }
    }
}

/// `u` holds the racetime.gg account `rid`.
pub open spec fn has_racetime(u: LocalUser, rid: Seq<char>) -> bool {
    u.racetime is Some && u.racetime.unwrap().id@ == rid
}

/// `u` holds the Discord account `did`.
pub open spec fn has_discord(u: LocalUser, did: u64) -> bool {
    u.discord is Some && u.discord.unwrap().id == did
}

/// Some user holds the racetime.gg account `rid`.
pub open spec fn racetime_claimed(users: Seq<LocalUser>, rid: Seq<char>) -> bool {
    exists|i: int| 0 <= i < users.len() && has_racetime(#[trigger] users[i], rid)
}

/// Some user holds the Discord account `did`.
pub open spec fn discord_claimed(users: Seq<LocalUser>, did: u64) -> bool {
    exists|i: int| 0 <= i < users.len() && has_discord(#[trigger] users[i], did)
}

/// Some user has the id `id`.
pub open spec fn id_present(users: Seq<LocalUser>, id: u64) -> bool {
    exists|i: int| 0 <= i < users.len() && (#[trigger] users[i]).id == id
}

/// The position of the user that holds the racetime.gg account `rid`, where one does.
pub open spec fn racetime_index(users: Seq<LocalUser>, rid: Seq<char>) -> int {
    choose|i: int| 0 <= i < users.len() && has_racetime(#[trigger] users[i], rid)
}

/// The position of the user that holds the Discord account `did`, where one does.
pub open spec fn discord_index(users: Seq<LocalUser>, did: u64) -> int {
    choose|i: int| 0 <= i < users.len() && has_discord(#[trigger] users[i], did)
}

/// The position of the user with id `id`, where there is one.
pub open spec fn id_index(users: Seq<LocalUser>, id: u64) -> int {
    choose|i: int| 0 <= i < users.len() && (#[trigger] users[i]).id == id
}

/// Ids are unique and below `next_id`, each provider account is held by at most one
/// user, and every user holds a racetime.gg or a Discord account.
pub open spec fn users_wf(users: Seq<LocalUser>, next_id: u64) -> bool {
    &&& forall|i: int| 0 <= i < users.len() ==> (#[trigger] users[i]).id < next_id
    &&& forall|i: int|
        0 <= i < users.len() ==> (#[trigger] users[i]).racetime is Some || users[i].discord is Some
    &&& forall|i: int, j: int|
        0 <= i < users.len() && 0 <= j < users.len() && i != j ==> (#[trigger] users[i]).id != (#[trigger] users[j]).id
    &&& forall|i: int, j: int|
        0 <= i < users.len() && 0 <= j < users.len() && i != j && (#[trigger] users[i]).racetime is Some
            && (#[trigger] users[j]).racetime is Some
            ==> users[i].racetime.unwrap().id@ != users[j].racetime.unwrap().id@
    &&& forall|i: int, j: int|
        0 <= i < users.len() && 0 <= j < users.len() && i != j && (#[trigger] users[i]).discord is Some
            && (#[trigger] users[j]).discord is Some
            ==> users[i].discord.unwrap().id != users[j].discord.unwrap().id
}

/// Each viewer has at most one view-as target.
pub open spec fn view_as_wf(view_as: Seq<(u64, u64)>) -> bool {
    forall|i: int, j: int|
        0 <= i < view_as.len() && 0 <= j < view_as.len() && i != j ==> (#[trigger] view_as[i]).0 != (#[trigger] view_as[j]).0
}

impl StoreModel {
    /// Both tables are well formed.
    pub open spec fn wf(self) -> bool {
        users_wf(self.users, self.next_id) && view_as_wf(self.view_as)
    }
}

/// In a well-formed table the user at `i` is the one that `racetime_index` picks.
pub proof fn lemma_racetime_index(users: Seq<LocalUser>, next_id: u64, rid: Seq<char>, i: int)
    requires
        users_wf(users, next_id),
        0 <= i < users.len(),
        has_racetime(users[i], rid),
    ensures
        racetime_index(users, rid) == i,
{
    let k = racetime_index(users, rid);
    assert(has_racetime(users[k], rid));
}

/// In a well-formed table the user at `i` is the one that `discord_index` picks.
pub proof fn lemma_discord_index(users: Seq<LocalUser>, next_id: u64, did: u64, i: int)
    requires
        users_wf(users, next_id),
        0 <= i < users.len(),
        has_discord(users[i], did),
    ensures
        discord_index(users, did) == i,
{
    let k = discord_index(users, did);
    assert(has_discord(users[k], did));
}

/// In a well-formed table the user at `i` is the one that `id_index` picks.
pub proof fn lemma_id_index(users: Seq<LocalUser>, next_id: u64, id: u64, i: int)
    requires
        users_wf(users, next_id),
        0 <= i < users.len(),
        users[i].id == id,
    ensures
        id_index(users, id) == i,
{
    let k = id_index(users, id);
    assert(users[k].id == id);
}

impl UserStore {
    /// An empty store whose first id is `first_id`.
    pub fn new(first_id: u64) -> (r: UserStore)
        ensures
            r@.wf(),
            r@.users.len() == 0,
            r@.view_as.len() == 0,
            r@.next_id == first_id,
    {
        UserStore { users: Vec::new(), view_as: Vec::new(), next_id: first_id }
    }

    /// The position of the user that holds the racetime.gg account `rid`.
    pub fn find_by_racetime(&self, rid: &String) -> (r: Option<usize>)
        requires
            self@.wf(),
        ensures
            match r {
                Some(i) => i < self@.users.len() && has_racetime(self@.users[i as int], rid@)
                    && racetime_index(self@.users, rid@) == i,
                None => !racetime_claimed(self@.users, rid@),
            },
    {
        let mut i: usize = 0;
        while i < self.users.len()
            invariant
                self@.wf(),
                i <= self.users@.len(),
                forall|j: int| 0 <= j < i ==> !has_racetime(#[trigger] self.users@[j], rid@),
            decreases self.users@.len() - i,
        {
            match &self.users[i].racetime {
                Some(link) => {
                    if link.id == *rid {
                        proof {
                            lemma_racetime_index(self.users@, self.next_id, rid@, i as int);
                        }
                        return Some(i);
                    }
                },
                None => {},
            }
            i += 1;
        }
        None
    }

    /// The position of the user that holds the Discord account `did`.
    pub fn find_by_discord(&self, did: u64) -> (r: Option<usize>)
        requires
            self@.wf(),
        ensures
            match r {
                Some(i) => i < self@.users.len() && has_discord(self@.users[i as int], did)
                    && discord_index(self@.users, did) == i,
                None => !discord_claimed(self@.users, did),
            },
    {
        let mut i: usize = 0;
        while i < self.users.len()
            invariant
                self@.wf(),
                i <= self.users@.len(),
                forall|j: int| 0 <= j < i ==> !has_discord(#[trigger] self.users@[j], did),
            decreases self.users@.len() - i,
        {
            match &self.users[i].discord {
                Some(link) => {
                    if link.id == did {
                        proof {
                            lemma_discord_index(self.users@, self.next_id, did, i as int);
                        }
                        return Some(i);
                    }
                },
                None => {},
            }
            i += 1;
        }
        None
    }

    /// The position of the user with id `id`, which the store holds.
    pub fn position_of(&self, id: u64) -> (r: usize)
        requires
            self@.wf(),
            id_present(self@.users, id),
        ensures
            r < self@.users.len(),
            self@.users[r as int].id == id,
            id_index(self@.users, id) == r,
    {
        let mut i: usize = 0;
        while i < self.users.len()
            invariant
                self@.wf(),
                id_present(self@.users, id),
                i <= self.users@.len(),
                forall|j: int| 0 <= j < i ==> (#[trigger] self.users@[j]).id != id,
            decreases self.users@.len() - i,
        {
            if self.users[i].id == id {
                proof {
                    lemma_id_index(self.users@, self.next_id, id, i as int);
                }
                return i;
            }
            i += 1;
        }
        proof {
            let k = id_index(self@.users, id);
            assert(self.users@[k].id == id);
        }
        0
    }

    /// The position of the user with id `id`.
    pub fn find_by_id(&self, id: u64) -> (r: Option<usize>)
        requires
            self@.wf(),
        ensures
            match r {
                Some(i) => i < self@.users.len() && self@.users[i as int].id == id
                    && id_index(self@.users, id) == i,
                None => !id_present(self@.users, id),
            },
    {
        let mut i: usize = 0;
        while i < self.users.len()
            invariant
                self@.wf(),
                i <= self.users@.len(),
                forall|j: int| 0 <= j < i ==> (#[trigger] self.users@[j]).id != id,
            decreases self.users@.len() - i,
        {
            if self.users[i].id == id {
                proof {
                    lemma_id_index(self.users@, self.next_id, id, i as int);
                }
                return Some(i);
            }
            i += 1;
        }
        None
    }
}

} // verus!
