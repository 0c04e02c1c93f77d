//! Permission bit constants. Each permission is one bit of a 64-bit mask.

use vstd::prelude::*;

verus! {

/// Allows connecting to the server.
pub const CONNECT: u64 = 1;

/// Allows transmitting audio in voice channels.
pub const SPEAK: u64 = 2;

/// Allows receiving audio in voice channels.
pub const LISTEN: u64 = 4;

/// Allows moving other users between voice channels.
pub const MOVE_USERS: u64 = 8;

/// Allows server-muting other users.
pub const MUTE_USERS: u64 = 16;

/// Allows removing users from the server temporarily.
pub const KICK_USERS: u64 = 32;

/// Allows permanently banning users from the server.
pub const BAN_USERS: u64 = 64;

/// Allows creating, modifying and deleting channels.
pub const MANAGE_CHANNELS: u64 = 128;

/// Allows creating, modifying and deleting roles.
pub const MANAGE_ROLES: u64 = 256;

/// Master permission (bit 63): every permission check succeeds.
pub const ADMINISTRATOR: u64 = 0x8000_0000_0000_0000;

} // verus!
