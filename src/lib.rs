//! Account identity for a site whose users sign in with racetime.gg, Discord, Challonge
//! and start.gg: parsing provider profiles, deciding which credential cookie to use,
//! resolving a request to one local user, registering provider accounts, and merging two
//! local users into one.

pub mod credential;
pub mod discriminator;
pub mod identity;
pub mod merge;
pub mod register;
pub mod resolve;
pub mod session;
pub mod store;
