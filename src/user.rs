//! Discord identity of a user.

use vstd::prelude::*;

verus! {

/// The Discord account data that a user's OAuth login yields.
#[derive(Debug, Clone)]
pub struct DiscordUser {
    /// Discord snowflake id.
    pub id: String,
    /// Discord username.
    pub username: String,
    /// Legacy discriminator, absent for new usernames.
    pub discriminator: Option<String>,
    /// Avatar hash.
    pub avatar: Option<String>,
}

} // verus!
