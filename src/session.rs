//! Session states.

use vstd::prelude::*;

verus! {

/// The state of a user session.
#[derive(Debug, Clone, Copy, PartialEq, Eq, Structural)]
pub enum SessionState {
    /// Connected, not yet authenticated.
    Authenticating,
    /// Connected and authenticated.
    Active,
    /// Self-muted and self-deafened.
    Away,
    /// Being torn down.
    Disconnecting,
}

} // verus!
