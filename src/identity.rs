use vstd::prelude::*;
use crate::discriminator::Discriminator;

verus! {

/// A racetime.gg account as the provider's profile endpoint describes it.
pub struct RaceTimeUser {
    pub id: String,
    pub name: String,
    pub discriminator: Option<Discriminator>,
    pub pronouns: Option<String>,
}

/// A Discord account as `/users/@me` describes it. Accounts that moved to global names
/// have no discriminator.
pub struct DiscordUser {
    pub id: u64,
    pub username: String,
    pub global_name: Option<String>,
    pub discriminator: Option<Discriminator>,
}

/// A Challonge account as `/v2/me.json` describes it (inside its `data` envelope).
pub struct ChallongeUser {
    pub id: String,
}

/// The racetime.gg account stored on a local user.
pub struct RaceTimeLink {
    pub id: String,
    pub display_name: String,
    pub discriminator: Option<Discriminator>,
    pub pronouns: Option<String>,
}

/// A legacy Discord account keeps its discriminator; a migrated one keeps its username
/// beside the global display name.
pub enum UsernameOrDiscriminator {
    Username(String),
    Discriminator(Discriminator),
}

/// The Discord account stored on a local user.
pub struct DiscordLink {
    pub id: u64,
    pub display_name: String,
    pub username_or_discriminator: UsernameOrDiscriminator,
}

/// The fields stored for a racetime.gg profile.
pub open spec fn racetime_link_of(u: RaceTimeUser) -> RaceTimeLink {
    RaceTimeLink {
        id: u.id,
        display_name: u.name,
        discriminator: u.discriminator,
        pronouns: u.pronouns,
    }
}

/// The fields stored for a Discord profile: a legacy account shows its username and keeps
/// its discriminator; a migrated one shows its global name (its username where it has
/// none) and keeps its username.
pub open spec fn discord_link_of(u: DiscordUser) -> DiscordLink {
    match u.discriminator {
        Some(d) => DiscordLink {
            id: u.id,
            display_name: u.username,
            username_or_discriminator: UsernameOrDiscriminator::Discriminator(d),
        },
        None => DiscordLink {
            id: u.id,
            display_name: match u.global_name {
                Some(g) => g,
                None => u.username,
            },
            username_or_discriminator: UsernameOrDiscriminator::Username(u.username),
        },
    }
}

/// A copy of an optional string.
pub(crate) fn clone_opt_string(o: &Option<String>) -> (r: Option<String>)
    ensures
        r == *o,
{
    match o {
        Some(s) => Some(s.clone()),
        None => None,
    }
}

impl RaceTimeUser {
    /// The racetime.gg link that this profile gives a local user.
    pub fn to_link(&self) -> (r: RaceTimeLink)
        ensures
            r == racetime_link_of(*self),
    {
        RaceTimeLink {
            id: self.id.clone(),
            display_name: self.name.clone(),
            discriminator: self.discriminator,
            pronouns: clone_opt_string(&self.pronouns),
        }
    }
}

impl DiscordUser {
    /// The Discord link that this profile gives a local user.
    pub fn to_link(&self) -> (r: DiscordLink)
        ensures
            r == discord_link_of(*self),
    {
        match self.discriminator {
            Some(d) => DiscordLink {
                id: self.id,
                display_name: self.username.clone(),
                username_or_discriminator: UsernameOrDiscriminator::Discriminator(d),
            },
            None => {
                let display_name = match &self.global_name {
                    Some(g) => g.clone(),
                    None => self.username.clone(),
                };
                DiscordLink {
                    id: self.id,
                    display_name,
                    username_or_discriminator: UsernameOrDiscriminator::Username(self.username.clone()),
                }
            },
        }
    }
}

} // verus!
