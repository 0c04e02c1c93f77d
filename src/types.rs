//! Payloads of the control messages and their validation.

use crate::channel::{channel_problem, Channel};
use crate::error::{validation_error, validation_outcome, FleetNetError};
use crate::session::SessionState;
use vstd::prelude::*;

verus! {

/// Server name, version and counts.
#[non_exhaustive]
#[derive(Debug, Clone)]
pub struct ServerInfo {
    pub name: String,
    pub version: String,
    pub user_count: u16,
    pub channel_count: u16,
}

impl ServerInfo {
    pub fn new(name: String, version: String, user_count: u16, channel_count: u16) -> (r: Self)
        ensures
            r == (ServerInfo { name, version, user_count, channel_count }),
    {
        ServerInfo { name, version, user_count, channel_count }
    }

    /// Name and version must both be non-empty, checked in that order.
    pub fn validate(&self) -> (r: Result<(), FleetNetError>)
        ensures
            validation_outcome(
                r,
                if self.name@.len() == 0 {
                    Some("Server Name cannot be empty"@)
                } else if self.version@.len() == 0 {
                    Some("Server Version cannot be empty"@)
                } else {
                    None
                },
            ),
    {
        if self.name.as_str().is_empty() {
            return Err(validation_error("Server Name cannot be empty"));
        }
        if self.version.as_str().is_empty() {
            return Err(validation_error("Server Version cannot be empty"));
        }
        Ok(())
    }
}

/// What is wrong with a user entry: an empty username.
pub open spec fn user_info_problem(u: UserInfo) -> Option<Seq<char>> {
    if u.username@.len() == 0 {
        Some("Username cannot be empty"@)
    } else {
        None
    }
}

/// The problem of the first user entry of `users` that has one.
pub open spec fn first_user_problem(users: Seq<UserInfo>) -> Option<Seq<char>>
    decreases users.len(),
{
    if users.len() == 0 {
        None
    } else {
        match first_user_problem(users.drop_last()) {
            Some(m) => Some(m),
            None => user_info_problem(users.last()),
        }
    }
}

/// The problem of the first channel entry of `channels` that has one.
pub open spec fn first_channel_problem(channels: Seq<VoiceChannelState>) -> Option<Seq<char>>
    decreases channels.len(),
{
    if channels.len() == 0 {
        None
    } else {
        match first_channel_problem(channels.drop_last()) {
            Some(m) => Some(m),
            None => channel_problem(channels.last().channel),
        }
    }
}

proof fn lemma_first_user_problem_prefix(users: Seq<UserInfo>, i: int)
    requires
        0 <= i <= users.len(),
        first_user_problem(users.take(i)) is Some,
    ensures
        first_user_problem(users) == first_user_problem(users.take(i)),
    decreases users.len(),
{
    if i < users.len() {
        assert(users.drop_last().take(i) =~= users.take(i));
        lemma_first_user_problem_prefix(users.drop_last(), i);
    } else {
        assert(users.take(i) =~= users);
    }
}

proof fn lemma_first_channel_problem_prefix(channels: Seq<VoiceChannelState>, i: int)
    requires
        0 <= i <= channels.len(),
        first_channel_problem(channels.take(i)) is Some,
    ensures
        first_channel_problem(channels) == first_channel_problem(channels.take(i)),
    decreases channels.len(),
{
    if i < channels.len() {
        assert(channels.drop_last().take(i) =~= channels.take(i));
        lemma_first_channel_problem_prefix(channels.drop_last(), i);
    } else {
        assert(channels.take(i) =~= channels);
    }
}

/// The complete server state: users and channels.
#[non_exhaustive]
#[derive(Debug, Clone)]
pub struct ServerState {
    pub users: Vec<UserInfo>,
    pub channels: Vec<VoiceChannelState>,
}

impl ServerState {
    pub fn new(users: Vec<UserInfo>, channels: Vec<VoiceChannelState>) -> (r: Self)
        ensures
            r == (ServerState { users, channels }),
    {
        ServerState { users, channels }
    }

    /// Every user and every channel must be valid; the error is that of the
    /// first invalid user, else that of the first invalid channel.
    pub fn validate(&self) -> (r: Result<(), FleetNetError>)
        ensures
            validation_outcome(
                r,
                match first_user_problem(self.users@) {
                    Some(m) => Some(m),
                    None => first_channel_problem(self.channels@),
                },
            ),
    {
        let mut i: usize = 0;
        while i < self.users.len()
            invariant
                0 <= i <= self.users@.len(),
                first_user_problem(self.users@.take(i as int)) is None,
            decreases self.users@.len() - i,
        {
            assert(self.users@.take(i + 1).drop_last() =~= self.users@.take(i as int));
            match self.users[i].validate() {
                Ok(()) => {},
                Err(e) => {
                    proof {
                        lemma_first_user_problem_prefix(self.users@, i + 1);
                    }
                    return Err(e);
                },
            }
            i = i + 1;
        }
        assert(self.users@.take(i as int) =~= self.users@);
        let mut j: usize = 0;
        while j < self.channels.len()
            invariant
                0 <= j <= self.channels@.len(),
                first_user_problem(self.users@) is None,
                first_channel_problem(self.channels@.take(j as int)) is None,
            decreases self.channels@.len() - j,
        {
            assert(self.channels@.take(j + 1).drop_last() =~= self.channels@.take(j as int));
            match self.channels[j].validate() {
                Ok(()) => {},
                Err(e) => {
                    proof {
                        lemma_first_channel_problem_prefix(self.channels@, j + 1);
                    }
                    return Err(e);
                },
            }
            j = j + 1;
        }
        assert(self.channels@.take(j as int) =~= self.channels@);
        Ok(())
    }
}

/// A channel and the users in it.
#[non_exhaustive]
#[derive(Debug, Clone)]
pub struct VoiceChannelState {
    pub channel: Channel,
    pub users: Vec<u16>,
}

impl VoiceChannelState {
    pub fn new(channel: Channel, users: Vec<u16>) -> (r: Self)
        ensures
            r == (VoiceChannelState { channel, users }),
    {
        VoiceChannelState { channel, users }
    }

    /// The channel must be valid.
    pub fn validate(&self) -> (r: Result<(), FleetNetError>)
        ensures
            validation_outcome(r, channel_problem(self.channel)),
    {
        self.channel.validate()
    }
}

/// A client's authentication request.
#[non_exhaustive]
#[derive(Debug, Clone)]
pub struct AuthRequest {
    pub token: String,
    pub client_version: String,
}

impl AuthRequest {
    pub fn new(token: String, client_version: String) -> (r: Self)
        ensures
            r == (AuthRequest { token, client_version }),
    {
        AuthRequest { token, client_version }
    }

    /// Token and client version must both be non-empty, checked in that order.
    pub fn validate(&self) -> (r: Result<(), FleetNetError>)
        ensures
            validation_outcome(
                r,
                if self.token@.len() == 0 {
                    Some("Auth token cannot be empty"@)
                } else if self.client_version@.len() == 0 {
                    Some("Client version cannot be empty"@)
                } else {
                    None
                },
            ),
    {
        if self.token.as_str().is_empty() {
            return Err(validation_error("Auth token cannot be empty"));
        }
        if self.client_version.as_str().is_empty() {
            return Err(validation_error("Client version cannot be empty"));
        }
        Ok(())
    }
}

/// A connected user.
#[non_exhaustive]
#[derive(Debug, Clone)]
pub struct UserInfo {
    pub user_id: u16,
    pub username: String,
    pub avatar_url: Option<String>,
    pub channel_id: Option<u16>,
}

impl UserInfo {
    pub fn new(user_id: u16, username: String, avatar_url: Option<String>, channel_id: Option<u16>) -> (r: Self)
        ensures
            r == (UserInfo { user_id, username, avatar_url, channel_id }),
    {
        UserInfo { user_id, username, avatar_url, channel_id }
    }

    /// The username must be non-empty.
    pub fn validate(&self) -> (r: Result<(), FleetNetError>)
        ensures
            validation_outcome(r, user_info_problem(*self)),
    {
        if self.username.as_str().is_empty() {
            return Err(validation_error("Username cannot be empty"));
        }
        Ok(())
    }
}

/// A change of a user's session and mute state.
#[non_exhaustive]
#[derive(Debug, Clone)]
pub struct UserStateChange {
    pub user_id: u16,
    pub session_state: SessionState,
    pub is_self_muted: bool,
    pub is_self_deafened: bool,
    pub is_server_muted: bool,
    pub is_server_deafened: bool,
}

impl UserStateChange {
    pub fn new(
        user_id: u16,
        session_state: SessionState,
        is_self_muted: bool,
        is_self_deafened: bool,
        is_server_muted: bool,
        is_server_deafened: bool,
    ) -> (r: Self)
        ensures
            r == (UserStateChange {
                user_id,
                session_state,
                is_self_muted,
                is_self_deafened,
                is_server_muted,
                is_server_deafened,
            }),
    {
        UserStateChange { user_id, session_state, is_self_muted, is_self_deafened, is_server_muted, is_server_deafened }
    }

    /// The user id must be non-zero.
    pub fn validate(&self) -> (r: Result<(), FleetNetError>)
        ensures
            validation_outcome(
                r,
                if self.user_id == 0 {
                    Some("User ID cannot be zero"@)
                } else {
                    None
                },
            ),
    {
        if self.user_id == 0 {
            return Err(validation_error("User ID cannot be zero"));
        }
        Ok(())
    }
}

/// A user moving between channels.
#[non_exhaustive]
#[derive(Debug, Clone)]
pub struct UserChannelChange {
    pub user_id: u16,
    pub from_channel: Option<u16>,
    pub to_channel: Option<u16>,
}

impl UserChannelChange {
    pub fn new(user_id: u16, from_channel: Option<u16>, to_channel: Option<u16>) -> (r: Self)
        ensures
            r == (UserChannelChange { user_id, from_channel, to_channel }),
    {
        UserChannelChange { user_id, from_channel, to_channel }
    }

    /// The user id must be non-zero, then at least one channel must be given.
    pub fn validate(&self) -> (r: Result<(), FleetNetError>)
        ensures
            validation_outcome(
                r,
                if self.user_id == 0 {
                    Some("User ID cannot be zero"@)
                } else if self.from_channel is None && self.to_channel is None {
                    Some("Either from_channel or to_channel must be specified"@)
                } else {
                    None
                },
            ),
    {
        if self.user_id == 0 {
            return Err(validation_error("User ID cannot be zero"));
        }
        if self.from_channel.is_none() && self.to_channel.is_none() {
            return Err(validation_error("Either from_channel or to_channel must be specified"));
        }
        Ok(())
    }
}

/// A request to join a channel.
#[non_exhaustive]
#[derive(Debug, Clone, Copy, PartialEq, Eq, Structural)]
pub struct JoinChannelRequest {
    pub channel_id: u16,
}

impl JoinChannelRequest {
    pub fn new(channel_id: u16) -> (r: Self)
        ensures
            r.channel_id == channel_id,
    {
        JoinChannelRequest { channel_id }
    }

    /// The channel id must be non-zero.
    pub fn validate(&self) -> (r: Result<(), FleetNetError>)
        ensures
            validation_outcome(
                r,
                if self.channel_id == 0 {
                    Some("Channel ID cannot be zero"@)
                } else {
                    None
                },
            ),
    {
        if self.channel_id == 0 {
            return Err(validation_error("Channel ID cannot be zero"));
        }
        Ok(())
    }
}

/// An error reported to a peer.
#[derive(Debug, Clone)]
pub struct ErrorResponse {
    pub code: String,
    pub message: String,
}

} // verus!
