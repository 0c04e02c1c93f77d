//! Channels and the resolution of a user's effective permissions in them.
//!
//! Resolution walks the channel and then its ancestors. Within one channel the
//! user's roles are taken in precedence order (highest first); a role's override
//! only decides the bits that no earlier role has decided. Bits left undecided
//! are inherited from the parent channel, whose decided bits then count as
//! decided; whatever is still undecided comes from the base mask of the
//! highest-precedence role.

use crate::error::{validation_error, validation_outcome, FleetNetError};
use crate::role::Role;
use vstd::prelude::*;
use vstd::set_lib::{lemma_int_range, lemma_len_subset, lemma_map_size, set_int_range};
use vstd::string::*;

verus! {

/// The kind of a channel.
#[derive(Debug, Clone, Copy, PartialEq, Eq, Structural, Hash)]
pub enum ChannelType {
    /// A voice channel; a user is in at most one at a time.
    Voice,
    /// A radio channel; a user may listen to several.
    Radio,
    /// A category that groups other channels.
    Category,
}

/// Per-role allow and deny masks for one channel.
#[derive(Debug, Clone, Copy, PartialEq, Eq, Structural, Hash)]
pub struct ChannelPermissions {
    pub allow: u64,
    pub deny: u64,
}

impl ChannelPermissions {
    /// The allowed bits less the denied ones: a deny always wins.
    pub fn compute_final_permissions(&self) -> (r: u64)
        ensures
            r == self.allow & !self.deny,
    {
        self.allow & !self.deny
    }
}

/// One role's override in a channel.
#[derive(Debug, Clone)]
pub struct RoleOverride {
    pub role_id: String,
    pub permissions: ChannelPermissions,
}

/// The override that `entries` holds for `role_id`: the first entry with that id.
pub open spec fn find_override(entries: Seq<RoleOverride>, role_id: Seq<char>) -> Option<ChannelPermissions>
    decreases entries.len(),
{
    if entries.len() == 0 {
        None
    } else {
        match find_override(entries.drop_last(), role_id) {
            Some(p) => Some(p),
            None => if entries.last().role_id@ == role_id {
                Some(entries.last().permissions)
            } else {
                None
            },
        }
    }
}

proof fn lemma_find_override_prefix(entries: Seq<RoleOverride>, role_id: Seq<char>, i: int)
    requires
        0 <= i <= entries.len(),
        find_override(entries.take(i), role_id) is Some,
    ensures
        find_override(entries, role_id) == find_override(entries.take(i), role_id),
    decreases entries.len(),
{
    if i < entries.len() {
        assert(entries.drop_last().take(i) =~= entries.take(i));
        lemma_find_override_prefix(entries.drop_last(), role_id, i);
    } else {
        assert(entries.take(i) =~= entries);
    }
}

proof fn lemma_find_override_none(entries: Seq<RoleOverride>, role_id: Seq<char>)
    requires
        forall|j: int| 0 <= j < entries.len() ==> #[trigger] entries[j].role_id@ != role_id,
    ensures
        find_override(entries, role_id) is None,
    decreases entries.len(),
{
    if entries.len() > 0 {
        lemma_find_override_none(entries.drop_last(), role_id);
    }
}

/// Whether no two entries of `entries` share a role id.
pub open spec fn unique_role_ids(entries: Seq<RoleOverride>) -> bool {
    forall|i: int, j: int|
        0 <= i < j < entries.len() ==> #[trigger] entries[i].role_id@ != #[trigger] entries[j].role_id@
}

proof fn lemma_find_override_none_means_absent(entries: Seq<RoleOverride>, role_id: Seq<char>)
    requires
        find_override(entries, role_id) is None,
    ensures
        forall|j: int| 0 <= j < entries.len() ==> #[trigger] entries[j].role_id@ != role_id,
    decreases entries.len(),
{
    if entries.len() > 0 {
        lemma_find_override_none_means_absent(entries.drop_last(), role_id);
        assert forall|j: int| 0 <= j < entries.len() implies #[trigger] entries[j].role_id@ != role_id by {
            if j < entries.len() - 1 {
                assert(entries.drop_last()[j] == entries[j]);
            }
        }
    }
}

/// Role overrides of a channel: a map from role id to allow/deny masks, with
/// one entry per role id.
#[derive(Debug)]
pub struct RoleOverrides {
    entries: Vec<RoleOverride>,
}

impl View for RoleOverrides {
    type V = Seq<RoleOverride>;

    closed spec fn view(&self) -> Seq<RoleOverride> {
        self.entries@
    }
}

impl RoleOverrides {
    #[verifier::type_invariant]
    spec fn one_entry_per_role(self) -> bool {
        unique_role_ids(self.entries@)
    }

    /// No overrides.
    pub fn new() -> (r: Self)
        ensures
            forall|k: Seq<char>| find_override(r@, k) is None,
            unique_role_ids(r@),
    {
        let r = RoleOverrides { entries: Vec::new() };
        assert forall|k: Seq<char>| find_override(r@, k) is None by {
            lemma_find_override_none(r@, k);
        }
        r
    }

    /// Index of the first entry for `role_id`, if any.
    fn position(&self, role_id: &String) -> (r: Option<usize>)
        ensures
            match r {
                Some(i) => i < self@.len() && self@[i as int].role_id@ == role_id@
                    && find_override(self@, role_id@) == Some(self@[i as int].permissions)
                    && find_override(self@.take(i as int), role_id@) is None,
                None => find_override(self@, role_id@) is None,
            },
    {
        let mut i: usize = 0;
        while i < self.entries.len()
            invariant
                0 <= i <= self@.len(),
                self@ == self.entries@,
                find_override(self@.take(i as int), role_id@) is None,
            decreases self@.len() - i,
        {
            assert(self@.take(i + 1).drop_last() =~= self@.take(i as int));
            if self.entries[i].role_id == *role_id {
                proof {
                    lemma_find_override_prefix(self@, role_id@, i + 1);
                }
                return Some(i);
            }
            i = i + 1;
        }
        assert(self@.take(i as int) =~= self@);
        None
    }

    /// The override for `role_id`, if there is one.
    pub fn get(&self, role_id: &String) -> (r: Option<ChannelPermissions>)
        ensures
            r == find_override(self@, role_id@),
    {
        match self.position(role_id) {
            Some(i) => Some(self.entries[i].permissions),
            None => None,
        }
    }

    /// The overrides, in insertion order.
    pub fn entries(&self) -> (r: &[RoleOverride])
        ensures
            r@ == self@,
    {
        self.entries.as_slice()
    }

    /// Sets the override for `role_id`, replacing any earlier one.
    pub fn insert(&mut self, role_id: String, permissions: ChannelPermissions)
        ensures
            find_override(final(self)@, role_id@) == Some(permissions),
            forall|k: Seq<char>| k != role_id@ ==> find_override(final(self)@, k) == find_override(old(self)@, k),
            unique_role_ids(final(self)@),
    {
        proof {
            use_type_invariant(&*self);
        }
        let ghost before = self@;
        let position = self.position(&role_id);
        let mut entries: Vec<RoleOverride> = Vec::new();
        std::mem::swap(&mut entries, &mut self.entries);
        assert(entries@ == before);
        match position {
            Some(i) => {
                entries.set(i, RoleOverride { role_id, permissions });
                assert forall|k: Seq<char>| find_override(entries@, k) == if k == before[i as int].role_id@ {
                    Some(permissions)
                } else {
                    find_override(before, k)
                } by {
                    lemma_find_override_update(before, i as int, entries@[i as int], k);
                }
                assert forall|a: int, b: int| 0 <= a < b < entries@.len() implies #[trigger] entries@[a].role_id@
                    != #[trigger] entries@[b].role_id@ by {
                    assert(before[a].role_id@ != before[b].role_id@);
                }
            },
            None => {
                proof {
                    lemma_find_override_none_means_absent(before, role_id@);
                }
                entries.push(RoleOverride { role_id, permissions });
                assert(entries@.drop_last() =~= before);
                assert forall|a: int, b: int| 0 <= a < b < entries@.len() implies #[trigger] entries@[a].role_id@
                    != #[trigger] entries@[b].role_id@ by {
                    if b < before.len() {
                        assert(before[a].role_id@ != before[b].role_id@);
                    } else {
                        assert(before[a].role_id@ != role_id@);
                    }
                }
            },
        }
        self.entries = entries;
    }
}

impl Clone for RoleOverrides {
    fn clone(&self) -> (r: Self)
        ensures
            r@ == self@,
    {
        proof {
            use_type_invariant(self);
        }
        let mut entries: Vec<RoleOverride> = Vec::new();
        let mut i: usize = 0;
        while i < self.entries.len()
            invariant
                0 <= i <= self@.len(),
                self@ == self.entries@,
                unique_role_ids(self@),
                entries@ == self@.take(i as int),
            decreases self@.len() - i,
        {
            let e = &self.entries[i];
            entries.push(RoleOverride { role_id: e.role_id.clone(), permissions: e.permissions });
            assert(entries@ =~= self@.take(i + 1));
            i = i + 1;
        }
        assert(entries@ =~= self@);
        RoleOverrides { entries }
    }
}

proof fn lemma_find_override_update(s: Seq<RoleOverride>, i: int, e: RoleOverride, k: Seq<char>)
    requires
        0 <= i < s.len(),
        e.role_id@ == s[i].role_id@,
        find_override(s, s[i].role_id@) == Some(s[i].permissions),
        find_override(s.take(i), s[i].role_id@) is None,
    ensures
        find_override(s.update(i, e), k) == if k == s[i].role_id@ {
            Some(e.permissions)
        } else {
            find_override(s, k)
        },
    decreases s.len(),
{
    let key = s[i].role_id@;
    if i == s.len() - 1 {
        assert(s.update(i, e).drop_last() =~= s.take(i));
        assert(s.drop_last() =~= s.take(i));
    } else {
        let d = s.drop_last();
        assert(s.update(i, e).drop_last() =~= d.update(i, e));
        assert(d.take(i) =~= s.take(i));
        assert(d.take(i + 1).drop_last() =~= s.take(i));
        lemma_find_override_prefix(d, key, i + 1);
        lemma_find_override_update(d, i, e, k);
    }
}

/// A channel: voice, radio or category, with role overrides and an optional parent.
#[derive(Debug, Clone)]
pub struct Channel {
    pub id: u16,
    pub name: String,
    pub description: Option<String>,
    pub channel_type: ChannelType,
    pub role_permissions: RoleOverrides,
    pub position: u32,
    pub parent_id: Option<u16>,
}

/// Longest channel name, in characters.
pub const MAX_CHANNEL_NAME_CHARS: usize = 100;

/// Longest channel description, in characters.
pub const MAX_CHANNEL_DESCRIPTION_CHARS: usize = 500;

/// The first structural invariant that a channel breaks, as the message
/// reporting it, checked in this order: a non-empty name, a name of at most
/// 100 characters, a description of at most 500 characters, a parent other
/// than itself.
pub open spec fn channel_problem(c: Channel) -> Option<Seq<char>> {
    if c.name@.len() == 0 {
        Some("Channel name cannot be empty"@)
    } else if c.name@.len() > MAX_CHANNEL_NAME_CHARS {
        Some("Channel name cannot exceed 100 characters"@)
    } else if c.description is Some && c.description->Some_0@.len() > MAX_CHANNEL_DESCRIPTION_CHARS {
        Some("Channel description cannot exceed 500 characters"@)
    } else if c.parent_id == Some(c.id) {
        Some("Channel cannot be its own parent"@)
    } else {
        None
    }
}

/// The first channel of `channels` whose id is `id`.
pub open spec fn find_channel(channels: Seq<Channel>, id: u16) -> Option<Channel>
    decreases channels.len(),
{
    if channels.len() == 0 {
        None
    } else {
        match find_channel(channels.drop_last(), id) {
            Some(c) => Some(c),
            None => if channels.last().id == id {
                Some(channels.last())
            } else {
                None
            },
        }
    }
}

proof fn lemma_find_channel_prefix(channels: Seq<Channel>, id: u16, i: int)
    requires
        0 <= i <= channels.len(),
        find_channel(channels.take(i), id) is Some,
    ensures
        find_channel(channels, id) == find_channel(channels.take(i), id),
    decreases channels.len(),
{
    if i < channels.len() {
        assert(channels.drop_last().take(i) =~= channels.take(i));
        lemma_find_channel_prefix(channels.drop_last(), id, i);
    } else {
        assert(channels.take(i) =~= channels);
    }
}

/// One role's override applied to the accumulated `(granted, decided)` masks:
/// it grants, then denies, only bits that are not decided yet.
pub open spec fn apply_override(acc: (u64, u64), p: ChannelPermissions) -> (u64, u64) {
    let new_allows = p.allow & !acc.1;
    let granted = acc.0 | new_allows;
    let decided = acc.1 | new_allows;
    let new_denies = p.deny & !decided;
    (granted & !new_denies, decided | new_denies)
}

/// The `(granted, decided)` masks from the overrides `entries` for `roles`,
/// taken in order.
pub open spec fn apply_overrides(entries: Seq<RoleOverride>, roles: Seq<Role>) -> (u64, u64)
    decreases roles.len(),
{
    if roles.len() == 0 {
        (0, 0)
    } else {
        let acc = apply_overrides(entries, roles.drop_last());
        match find_override(entries, roles.last().id@) {
            Some(p) => apply_override(acc, p),
            None => acc,
        }
    }
}

/// The `(granted, decided)` masks of `c` for `roles`, following parents
/// through `channels` for at most `depth` channels; `None` when the chain of
/// parents is longer than that.
pub open spec fn resolve(c: Channel, roles: Seq<Role>, channels: Seq<Channel>, depth: nat) -> Option<(u64, u64)>
    decreases depth,
{
    if depth == 0 {
        None
    } else {
        let own = apply_overrides(c.role_permissions@, roles);
        let inherited = match c.parent_id {
            None => Some(own),
            Some(pid) => match find_channel(channels, pid) {
                None => Some(own),
                Some(parent) => match resolve(parent, roles, channels, (depth - 1) as nat) {
                    None => None,
                    Some(up) => Some((own.0 | (up.0 & !own.1), own.1 | up.1)),
                },
            },
        };
        match inherited {
            None => None,
            Some(acc) => Some(
                (if roles.len() > 0 {
                    acc.0 | (roles[0].permissions & !acc.1)
                } else {
                    acc.0
                }, acc.1),
            ),
        }
    }
}

/// Resolution of `c` against `channels`: every chain of distinct parents drawn
/// from `channels` has at most `channels.len() + 1` channels, so a longer one
/// revisits a channel and never ends.
pub open spec fn resolve_in(c: Channel, roles: Seq<Role>, channels: Seq<Channel>) -> Option<(u64, u64)> {
    resolve(c, roles, channels, channels.len() + 1)
}

/// Index of the first channel of `channels` whose id is `id`.
fn find_channel_index(channels: &[Channel], id: u16) -> (r: Option<usize>)
    ensures
        match r {
            Some(i) => i < channels@.len() && find_channel(channels@, id) == Some(channels@[i as int]),
            None => find_channel(channels@, id) is None,
        },
{
    let mut i: usize = 0;
    while i < channels.len()
        invariant
            0 <= i <= channels@.len(),
            find_channel(channels@.take(i as int), id) is None,
        decreases channels@.len() - i,
    {
        assert(channels@.take(i + 1).drop_last() =~= channels@.take(i as int));
        if channels[i].id == id {
            proof {
                lemma_find_channel_prefix(channels@, id, i + 1);
            }
            return Some(i);
        }
        i = i + 1;
    }
    assert(channels@.take(i as int) =~= channels@);
    None
}

impl Channel {
    /// Checks the channel's structural invariants: a non-empty name of at most
    /// 100 characters, a description of at most 500 characters, and a parent
    /// other than itself.
    pub fn validate(&self) -> (r: Result<(), FleetNetError>)
        ensures
            validation_outcome(r, channel_problem(*self)),
    {
        let name_len = self.name.as_str().unicode_len();
        if name_len == 0 {
            return Err(validation_error("Channel name cannot be empty"));
        }
        if name_len > MAX_CHANNEL_NAME_CHARS {
            return Err(validation_error("Channel name cannot exceed 100 characters"));
        }
        match &self.description {
            Some(d) => {
                if d.as_str().unicode_len() > MAX_CHANNEL_DESCRIPTION_CHARS {
                    return Err(validation_error("Channel description cannot exceed 500 characters"));
                }
            },
            None => {},
        }
        match self.parent_id {
            Some(pid) => {
                if pid == self.id {
                    return Err(validation_error("Channel cannot be its own parent"));
                }
            },
            None => {},
        }
        Ok(())
    }

    /// The `(granted, decided)` masks from this channel's own overrides.
    fn own_overrides(&self, roles: &[Role]) -> (r: (u64, u64))
        ensures
            r == apply_overrides(self.role_permissions@, roles@),
    {
        let mut granted: u64 = 0;
        let mut decided: u64 = 0;
        let mut i: usize = 0;
        while i < roles.len()
            invariant
                0 <= i <= roles@.len(),
                (granted, decided) == apply_overrides(self.role_permissions@, roles@.take(i as int)),
            decreases roles@.len() - i,
        {
            assert(roles@.take(i + 1).drop_last() =~= roles@.take(i as int));
            match self.role_permissions.get(&roles[i].id) {
                Some(p) => {
                    let new_allows = p.allow & !decided;
                    granted = granted | new_allows;
                    decided = decided | new_allows;
                    let new_denies = p.deny & !decided;
                    granted = granted & !new_denies;
                    decided = decided | new_denies;
                },
                None => {},
            }
            i = i + 1;
        }
        assert(roles@.take(i as int) =~= roles@);
        (granted, decided)
    }

    /// Resolution of this channel with room for `depth` more ancestors.
    fn resolve_layers(&self, roles: &[Role], channels: &[Channel], depth: usize) -> (r: Option<(u64, u64)>)
        ensures
            r == resolve(*self, roles@, channels@, depth as nat + 1),
        decreases depth,
    {
        let own = self.own_overrides(roles);
        let acc = match self.parent_id {
            None => own,
            Some(pid) => match find_channel_index(channels, pid) {
                None => own,
                Some(idx) => {
                    if depth == 0 {
                        assert(resolve(channels@[idx as int], roles@, channels@, 0) is None);
                        return None;
                    }
                    match channels[idx].resolve_layers(roles, channels, depth - 1) {
                        None => {
                            return None;
                        },
                        Some(up) => (own.0 | (up.0 & !own.1), own.1 | up.1),
                    }
                },
            },
        };
        let granted = if roles.len() > 0 {
            acc.0 | (roles[0].permissions & !acc.1)
        } else {
            acc.0
        };
        Some((granted, acc.1))
    }

    /// The effective permission mask of a user holding `user_roles` (highest
    /// precedence first) in this channel, inheriting through the parents found
    /// in `channels` (looked up by id, first match). Fails with a validation
    /// error exactly when the chain of parents never ends (it is cyclic).
    pub fn compute_user_permissions(&self, user_roles: &[Role], channels: &[Channel]) -> (r: Result<u64, FleetNetError>)
        ensures
            r is Err <==> parent_chain_endless(*self, channels@),
            match resolve_in(*self, user_roles@, channels@) {
                Some(masks) => r == Ok::<u64, FleetNetError>(masks.0),
                None => r is Err && r->Err_0 is ValidationError,
            },
    {
        proof {
            match resolve_in(*self, user_roles@, channels@) {
                Some(_) => {
                    lemma_resolve_none_iff_ancestor(*self, user_roles@, channels@, channels@.len() + 1);
                },
                None => {
                    lemma_unresolved_chain_is_endless(*self, user_roles@, channels@);
                },
            }
        }
        match self.resolve_layers(user_roles, channels, channels.len()) {
            Some(masks) => Ok(masks.0),
            None => Err(validation_error("Channel parent chain is cyclic")),
        }
    }
}

proof fn lemma_override_keeps_decided(acc: (u64, u64), p: ChannelPermissions)
    ensures
        apply_override(acc, p).1 & acc.1 == acc.1,
        apply_override(acc, p).0 & acc.1 == acc.0 & acc.1,
{
    let (g, d, a, n) = (acc.0, acc.1, p.allow, p.deny);
    assert(((d | (a & !d)) | (n & !(d | (a & !d)))) & d == d) by (bit_vector);
    assert(((g | (a & !d)) & !(n & !(d | (a & !d)))) & d == g & d) by (bit_vector);
}

/// A bit decided by the roles of higher precedence keeps its decision whatever
/// roles of lower precedence follow: it stays decided, with the same value.
pub proof fn lemma_higher_precedence_wins(entries: Seq<RoleOverride>, roles: Seq<Role>, k: int)
    requires
        0 <= k <= roles.len(),
    ensures
        apply_overrides(entries, roles).1 & apply_overrides(entries, roles.take(k)).1
            == apply_overrides(entries, roles.take(k)).1,
        apply_overrides(entries, roles).0 & apply_overrides(entries, roles.take(k)).1
            == apply_overrides(entries, roles.take(k)).0 & apply_overrides(entries, roles.take(k)).1,
    decreases roles.len(),
{
    let before = apply_overrides(entries, roles.take(k));
    if k == roles.len() {
        assert(roles.take(k) =~= roles);
        let (g, d) = before;
        assert(d & d == d && g & d == g & d) by (bit_vector);
    } else {
        assert(roles.drop_last().take(k) =~= roles.take(k));
        lemma_higher_precedence_wins(entries, roles.drop_last(), k);
        let mid = apply_overrides(entries, roles.drop_last());
        let last = apply_overrides(entries, roles);
        match find_override(entries, roles.last().id@) {
            Some(p) => {
                lemma_override_keeps_decided(mid, p);
            },
            None => {},
        }
        let (g0, d0, g1, d1, g2, d2) = (before.0, before.1, mid.0, mid.1, last.0, last.1);
        assert(d1 & d0 == d0 && g1 & d0 == g0 & d0 && d2 & d1 == d1 && g2 & d1 == g1 & d1 ==> d2 & d0 == d0
            && g2 & d0 == g0 & d0) by (bit_vector);
    }
}

/// A channel's own overrides take precedence over what it inherits and over
/// the base mask: every bit they decide has, in the result, the value they gave it.
pub proof fn lemma_own_overrides_win(c: Channel, roles: Seq<Role>, channels: Seq<Channel>, depth: nat)
    requires
        resolve(c, roles, channels, depth) is Some,
    ensures
        resolve(c, roles, channels, depth)->Some_0.0 & apply_overrides(c.role_permissions@, roles).1
            == apply_overrides(c.role_permissions@, roles).0 & apply_overrides(c.role_permissions@, roles).1,
{
    let own = apply_overrides(c.role_permissions@, roles);
    let (g, d) = own;
    let base: u64 = if roles.len() > 0 {
        roles[0].permissions
    } else {
        0
    };
    let acc = match parent_in(c, channels) {
        None => own,
        Some(p) => {
            let up = resolve(p, roles, channels, (depth - 1) as nat)->Some_0;
            (g | (up.0 & !d), d | up.1)
        },
    };
    let (ag, ad) = acc;
    assert(ag & d == g & d && ad & d == d ==> (ag | (base & !ad)) & d == g & d) by (bit_vector);
    match parent_in(c, channels) {
        None => {
            assert(g & d == g & d && d & d == d) by (bit_vector);
        },
        Some(p) => {
            let up = resolve(p, roles, channels, (depth - 1) as nat)->Some_0;
            let (ug, ud) = up;
            assert((g | (ug & !d)) & d == g & d && (d | ud) & d == d) by (bit_vector);
        },
    }
}

/// Room for more ancestors than a resolution uses does not change its result:
/// the depth only bounds how far a chain of parents is followed.
pub proof fn lemma_resolve_depth_irrelevant(c: Channel, roles: Seq<Role>, channels: Seq<Channel>, depth: nat, more: nat)
    requires
        resolve(c, roles, channels, depth) is Some,
        depth <= more,
    ensures
        resolve(c, roles, channels, more) == resolve(c, roles, channels, depth),
    decreases depth,
{
    match c.parent_id {
        None => {},
        Some(pid) => match find_channel(channels, pid) {
            None => {},
            Some(parent) => {
                lemma_resolve_depth_irrelevant(parent, roles, channels, (depth - 1) as nat, (more - 1) as nat);
            },
        },
    }
}

/// The parent of `c` found in `channels`, if it has one that is there.
pub open spec fn parent_in(c: Channel, channels: Seq<Channel>) -> Option<Channel> {
    match c.parent_id {
        None => None,
        Some(pid) => find_channel(channels, pid),
    }
}

/// The `k`-th ancestor of `c` through `channels` (`c` itself for 0).
pub open spec fn ancestor(c: Channel, channels: Seq<Channel>, k: nat) -> Option<Channel>
    decreases k,
{
    if k == 0 {
        Some(c)
    } else {
        match parent_in(c, channels) {
            None => None,
            Some(p) => ancestor(p, channels, (k - 1) as nat),
        }
    }
}

/// Whether the chain of parents of `c` through `channels` never ends.
pub open spec fn parent_chain_endless(c: Channel, channels: Seq<Channel>) -> bool {
    forall|k: nat| #[trigger] ancestor(c, channels, k) is Some
}

proof fn lemma_resolve_none_iff_ancestor(c: Channel, roles: Seq<Role>, channels: Seq<Channel>, depth: nat)
    ensures
        resolve(c, roles, channels, depth) is None <==> ancestor(c, channels, depth) is Some,
    decreases depth,
{
    if depth > 0 {
        match parent_in(c, channels) {
            None => {},
            Some(p) => {
                lemma_resolve_none_iff_ancestor(p, roles, channels, (depth - 1) as nat);
            },
        }
    }
}

proof fn lemma_find_channel_member(channels: Seq<Channel>, id: u16)
    requires
        find_channel(channels, id) is Some,
    ensures
        exists|i: int| 0 <= i < channels.len() && channels[i] == find_channel(channels, id)->Some_0,
    decreases channels.len(),
{
    match find_channel(channels.drop_last(), id) {
        Some(x) => {
            lemma_find_channel_member(channels.drop_last(), id);
            let i = choose|i: int| 0 <= i < channels.drop_last().len() && channels.drop_last()[i] == x;
            assert(channels[i] == x);
        },
        None => {
            assert(channels[channels.len() - 1] == channels.last());
        },
    }
}

proof fn lemma_ancestor_add(c: Channel, channels: Seq<Channel>, i: nat, m: nat)
    requires
        ancestor(c, channels, i) is Some,
    ensures
        ancestor(c, channels, i + m) == ancestor(ancestor(c, channels, i)->Some_0, channels, m),
    decreases i,
{
    if i > 0 {
        let p = parent_in(c, channels)->Some_0;
        lemma_ancestor_add(p, channels, (i - 1) as nat, m);
        assert((i + m - 1) as nat == (i - 1) as nat + m);
    }
}

proof fn lemma_ancestor_prefix(c: Channel, channels: Seq<Channel>, j: nat, k: nat)
    requires
        ancestor(c, channels, k) is Some,
        j <= k,
    ensures
        ancestor(c, channels, j) is Some,
    decreases j,
{
    if j > 0 {
        let p = parent_in(c, channels)->Some_0;
        lemma_ancestor_prefix(p, channels, (j - 1) as nat, (k - 1) as nat);
    }
}

proof fn lemma_ancestor_in_channels(c: Channel, channels: Seq<Channel>, k: nat)
    requires
        k > 0,
        ancestor(c, channels, k) is Some,
    ensures
        exists|i: int| 0 <= i < channels.len() && channels[i] == ancestor(c, channels, k)->Some_0,
{
    lemma_ancestor_prefix(c, channels, (k - 1) as nat, k);
    lemma_ancestor_add(c, channels, (k - 1) as nat, 1);
    let a = ancestor(c, channels, (k - 1) as nat)->Some_0;
    assert((k - 1) as nat + 1 == k);
    assert(ancestor(a, channels, 1) == parent_in(a, channels)) by {
        match parent_in(a, channels) {
            None => {},
            Some(p) => {
                assert(ancestor(p, channels, 0) == Some(p));
            },
        }
    }
    lemma_find_channel_member(channels, a.parent_id->Some_0);
}

proof fn lemma_cycle_endless(a: Channel, channels: Seq<Channel>, period: nat, m: nat)
    requires
        period > 0,
        ancestor(a, channels, period) == Some(a),
    ensures
        ancestor(a, channels, m) is Some,
    decreases m,
{
    if m <= period {
        lemma_ancestor_prefix(a, channels, m, period);
    } else {
        lemma_cycle_endless(a, channels, period, (m - period) as nat);
        lemma_ancestor_add(a, channels, period, (m - period) as nat);
        assert(period + (m - period) as nat == m);
    }
}

/// A chain of parents that is longer than the number of channels it is drawn
/// from revisits a channel, and so never ends: resolution fails only on such
/// chains, and no depth would make it succeed.
pub proof fn lemma_unresolved_chain_is_endless(c: Channel, roles: Seq<Role>, channels: Seq<Channel>)
    requires
        resolve_in(c, roles, channels) is None,
    ensures
        parent_chain_endless(c, channels),
        forall|depth: nat| #[trigger] resolve(c, roles, channels, depth) is None,
{
    let n = channels.len() as int;
    let top = (n + 1) as nat;
    lemma_resolve_none_iff_ancestor(c, roles, channels, top);
    let index_of = |k: int|
        choose|i: int| 0 <= i < n && channels[i] == ancestor(c, channels, k as nat)->Some_0;
    let xs = set_int_range(1, n + 2);
    lemma_int_range(1, n + 2);
    assert forall|k: int| xs.contains(k) implies 0 <= #[trigger] index_of(k) < n
        && channels[index_of(k)] == ancestor(c, channels, k as nat)->Some_0 by {
        lemma_ancestor_prefix(c, channels, k as nat, top);
        lemma_ancestor_in_channels(c, channels, k as nat);
    }
    // Two of the n + 1 ancestors sit at the same index of `channels`.
    let (k1, k2) = if forall|a: int, b: int| xs.contains(a) && xs.contains(b) && #[trigger] index_of(a)
        == #[trigger] index_of(b) ==> a == b {
        assert(vstd::relations::injective_on(index_of, xs));
        lemma_map_size(xs, xs.map(index_of), index_of);
        lemma_int_range(0, n);
        assert(xs.map(index_of).subset_of(set_int_range(0, n)));
        lemma_len_subset(xs.map(index_of), set_int_range(0, n));
        (0int, 0int)
    } else {
        let (a, b) = choose|a: int, b: int| xs.contains(a) && xs.contains(b) && #[trigger] index_of(a)
            == #[trigger] index_of(b) && a != b;
        if a < b { (a, b) } else { (b, a) }
    };
    assert(1 <= k1 < k2 <= n + 1);
    let a1 = ancestor(c, channels, k1 as nat)->Some_0;
    assert(xs.contains(k1) && xs.contains(k2));
    assert(channels[index_of(k1)] == a1);
    assert(channels[index_of(k2)] == ancestor(c, channels, k2 as nat)->Some_0);
    lemma_ancestor_prefix(c, channels, k2 as nat, top);
    assert(ancestor(c, channels, k2 as nat) == Some(a1));
    lemma_ancestor_prefix(c, channels, k1 as nat, top);
    lemma_ancestor_add(c, channels, k1 as nat, (k2 - k1) as nat);
    assert(k1 as nat + (k2 - k1) as nat == k2 as nat);
    assert forall|k: nat| #[trigger] ancestor(c, channels, k) is Some by {
        if k <= k1 {
            lemma_ancestor_prefix(c, channels, k, k1 as nat);
        } else {
            lemma_cycle_endless(a1, channels, (k2 - k1) as nat, (k - k1) as nat);
            lemma_ancestor_add(c, channels, k1 as nat, (k - k1) as nat);
            assert(k1 as nat + (k - k1) as nat == k);
        }
    }
    assert forall|depth: nat| #[trigger] resolve(c, roles, channels, depth) is None by {
        lemma_resolve_none_iff_ancestor(c, roles, channels, depth);
    }
}

/// With no roles, resolution grants nothing, whatever the channels hold.
pub proof fn lemma_no_roles_no_permissions(c: Channel, channels: Seq<Channel>, depth: nat)
    requires
        resolve(c, Seq::<Role>::empty(), channels, depth) is Some,
    ensures
        resolve(c, Seq::<Role>::empty(), channels, depth) == Some((0u64, 0u64)),
    decreases depth,
{
    let roles = Seq::<Role>::empty();
    assert(apply_overrides(c.role_permissions@, roles) == (0u64, 0u64));
    match c.parent_id {
        None => {},
        Some(pid) => match find_channel(channels, pid) {
            None => {},
            Some(parent) => {
                lemma_no_roles_no_permissions(parent, channels, (depth - 1) as nat);
                assert((0u64 | (0u64 & !0u64)) == 0u64 && (0u64 | 0u64) == 0u64) by (bit_vector);
            },
        },
    }
}

} // verus!
