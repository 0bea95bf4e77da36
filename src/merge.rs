use vstd::prelude::*;
use crate::identity::{DiscordUser, RaceTimeUser};
use crate::register::{with_discord, with_racetime};
use crate::store::{
    LocalUser, StoreModel, UserStore, discord_claimed, discord_index, has_discord, has_racetime, id_index,
    id_present, racetime_claimed, racetime_index, users_wf,
};

verus! {

/// Why two accounts were not merged.
#[derive(Debug, Clone, Copy, PartialEq, Eq, Structural)]
pub enum MergeAccountsError {
    /// The signed-in user holds both a racetime.gg and a Discord account already.
    AlreadyMerged,
    /// Neither way of merging applies.
    Other,
}

/// The id of a racetime.gg profile, if one was presented.
pub open spec fn racetime_id_of(u: Option<RaceTimeUser>) -> Option<Seq<char>> {
    match u {
        Some(u) => Some(u.id@),
        None => None,
    }
}

/// The id of a Discord profile, if one was presented.
pub open spec fn discord_id_of(u: Option<DiscordUser>) -> Option<u64> {
    match u {
        Some(u) => Some(u.id),
        None => None,
    }
}

/// The signed-in user at `i` holds only racetime.gg, and the Discord account `discord`
/// belongs to a user without racetime.gg.
pub open spec fn absorbs_discord(m: StoreModel, i: int, discord: Option<u64>) -> bool {
    &&& m.users[i].racetime is Some
    &&& m.users[i].discord is None
    &&& discord matches Some(did)
    &&& discord_claimed(m.users, did)
    &&& m.users[discord_index(m.users, did)].racetime is None
}

/// The signed-in user at `i` holds only Discord, and the racetime.gg account `racetime`
/// belongs to a user without Discord.
pub open spec fn absorbs_racetime(m: StoreModel, i: int, racetime: Option<Seq<char>>) -> bool {
    &&& m.users[i].racetime is None
    &&& racetime matches Some(rid)
    &&& racetime_claimed(m.users, rid)
    &&& m.users[racetime_index(m.users, rid)].discord is None
}

/// Merging the user `me` with the user that holds the other provider's account presented:
/// that user is deleted and its link moves to `me`. Where nothing applies the store stays
/// as it is.
pub open spec fn merge_model(m: StoreModel, me: u64, racetime: Option<Seq<char>>, discord: Option<u64>) -> (StoreModel, Result<u64, MergeAccountsError>) {
    let i = id_index(m.users, me);
    let u = m.users[i];
    if u.racetime is Some && u.discord is Some {
        (m, Err(MergeAccountsError::AlreadyMerged))
    } else if absorbs_discord(m, i, discord) {
        let j = discord_index(m.users, discord.unwrap());
        (StoreModel { users: m.users.update(i, with_discord(u, m.users[j].discord)).remove(j), ..m }, Ok(me))
    } else if absorbs_racetime(m, i, racetime) {
        let k = racetime_index(m.users, racetime.unwrap());
        (StoreModel { users: m.users.update(i, with_racetime(u, m.users[k].racetime)).remove(k), ..m }, Ok(me))
    } else {
        (m, Err(MergeAccountsError::Other))
    }
}

/// Moving the Discord link of the user at `j` to the user at `i` and deleting `j` keeps the
/// table well formed.
proof fn lemma_absorb_discord_wf(users: Seq<LocalUser>, next_id: u64, i: int, j: int)
    requires
        users_wf(users, next_id),
        0 <= i < users.len(),
        0 <= j < users.len(),
        i != j,
        users[i].racetime is Some,
        users[j].racetime is None,
    ensures
        users_wf(users.update(i, with_discord(users[i], users[j].discord)).remove(j), next_id),
{
    let merged = users.update(i, with_discord(users[i], users[j].discord)).remove(j);
    let at = if j < i { i - 1 } else { i };
    assert forall|x: int| 0 <= x < merged.len() && x != at implies
        #[trigger] merged[x] == users[if x < j { x } else { x + 1 }] by {}
}

/// Moving the racetime.gg link of the user at `k` to the user at `i` and deleting `k` keeps
/// the table well formed.
proof fn lemma_absorb_racetime_wf(users: Seq<LocalUser>, next_id: u64, i: int, k: int)
    requires
        users_wf(users, next_id),
        0 <= i < users.len(),
        0 <= k < users.len(),
        i != k,
        users[i].discord is Some,
        users[k].discord is None,
    ensures
        users_wf(users.update(i, with_racetime(users[i], users[k].racetime)).remove(k), next_id),
{
    let merged = users.update(i, with_racetime(users[i], users[k].racetime)).remove(k);
    let at = if k < i { i - 1 } else { i };
    assert forall|x: int| 0 <= x < merged.len() && x != at implies
        #[trigger] merged[x] == users[if x < k { x } else { x + 1 }] by {}
}

/// Merging a user A who holds only racetime.gg with the user B who holds only the Discord
/// account presented leaves one user of the two, A, who then holds A's racetime.gg account
/// and B's Discord account; B is gone, and nobody else was touched.
pub proof fn lemma_merge_absorbs_discord_user(m: StoreModel, a: u64, b: u64, did: u64, racetime: Option<Seq<char>>)
    requires
        m.wf(),
        id_present(m.users, a),
        id_present(m.users, b),
        m.users[id_index(m.users, a)].racetime is Some,
        m.users[id_index(m.users, a)].discord is None,
        m.users[id_index(m.users, b)].racetime is None,
        has_discord(m.users[id_index(m.users, b)], did),
    ensures
        ({
            let (m2, r) = merge_model(m, a, racetime, Some(did));
            let ua = m.users[id_index(m.users, a)];
            let ub = m.users[id_index(m.users, b)];
            &&& r == Ok::<u64, MergeAccountsError>(a)
            &&& m2.users.len() == m.users.len() - 1
            &&& !id_present(m2.users, b)
            &&& id_present(m2.users, a)
            &&& m2.users[id_index(m2.users, a)] == with_discord(ua, ub.discord)
            &&& forall|x: int| 0 <= x < m2.users.len() && #[trigger] m2.users[x].id != a
                ==> m.users.contains(m2.users[x])
            &&& m2.view_as == m.view_as
            &&& m2.next_id == m.next_id
        }),
{
    let i = id_index(m.users, a);
    let j = id_index(m.users, b);
    assert(m.users[i].id == a);
    assert(m.users[j].id == b);
    crate::store::lemma_discord_index(m.users, m.next_id, did, j);
    assert(absorbs_discord(m, i, Some(did)));
    let (m2, r) = merge_model(m, a, racetime, Some(did));
    let at = if j < i { i - 1 } else { i };
    assert(i != j);
    assert forall|x: int| 0 <= x < m2.users.len() && x != at implies
        #[trigger] m2.users[x] == m.users[if x < j { x } else { x + 1 }] by {}
    assert(m2.users[at].id == a);
    assert forall|x: int| 0 <= x < m2.users.len() implies #[trigger] m2.users[x].id != b by {
        if x != at {
            let y = if x < j { x } else { x + 1 };
            assert(m2.users[x] == m.users[y]);
            assert(y != j);
        }
    }
    lemma_absorb_discord_wf(m.users, m.next_id, i, j);
    crate::store::lemma_id_index(m2.users, m2.next_id, a, at);
    assert forall|x: int| 0 <= x < m2.users.len() && #[trigger] m2.users[x].id != a
        implies m.users.contains(m2.users[x]) by {
        let y = if x < j { x } else { x + 1 };
        assert(m2.users[x] == m.users[y]);
    }
}

impl UserStore {
    /// Merges the signed-in user `me`, who holds one provider account, with the user that
    /// holds the other provider account presented, as `merge_model` says. Returns `me`.
    pub fn merge_accounts(&mut self, me: u64, racetime_user: &Option<RaceTimeUser>, discord_user: &Option<DiscordUser>) -> (r: Result<u64, MergeAccountsError>)
        requires
            old(self)@.wf(),
            id_present(old(self)@.users, me),
        ensures
            final(self)@.wf(),
            (final(self)@, r) == merge_model(old(self)@, me, racetime_id_of(*racetime_user), discord_id_of(*discord_user)),
    {
        let i = self.position_of(me);
        let has_racetime_link = self.users[i].racetime.is_some();
        let has_discord_link = self.users[i].discord.is_some();
        if has_racetime_link && has_discord_link {
            return Err(MergeAccountsError::AlreadyMerged);
        }
        let ghost old_users = self.users@;
        if has_racetime_link {
            if let Some(du) = discord_user {
                if let Some(j) = self.find_by_discord(du.id) {
                    if self.users[j].racetime.is_none() {
                        let other = self.users.remove(j);
                        let at = if j < i { i - 1 } else { i };
                        self.users[at].discord = other.discord;
                        proof {
                            let merged = old_users.update(i as int, with_discord(old_users[i as int], old_users[j as int].discord)).remove(j as int);
                            assert(self.users@ =~= merged);
                            lemma_absorb_discord_wf(old_users, self.next_id, i as int, j as int);
                        }
                        return Ok(me);
                    }
                }
            }
        } else {
            if let Some(ru) = racetime_user {
                if let Some(k) = self.find_by_racetime(&ru.id) {
                    if self.users[k].discord.is_none() {
                        let other = self.users.remove(k);
                        let at = if k < i { i - 1 } else { i };
                        self.users[at].racetime = other.racetime;
                        proof {
                            let merged = old_users.update(i as int, with_racetime(old_users[i as int], old_users[k as int].racetime)).remove(k as int);
                            assert(self.users@ =~= merged);
                            lemma_absorb_racetime_wf(old_users, self.next_id, i as int, k as int);
                        }
                        return Ok(me);
                    }
                }
            }
        }
        Err(MergeAccountsError::Other)
    }
}

} // verus!
