//! Roles: named permission masks with a precedence and Discord role mappings.

use vstd::prelude::*;

verus! {

/// The character contents of each string of `s`.
pub open spec fn texts(s: Seq<String>) -> Seq<Seq<char>> {
    s.map_values(|x: String| x@)
}

/// `s` with every occurrence of `x` taken out, order kept.
pub open spec fn without(s: Seq<Seq<char>>, x: Seq<char>) -> Seq<Seq<char>>
    decreases s.len(),
{
    if s.len() == 0 {
        s
    } else {
        let rest = without(s.drop_last(), x);
        if s.last() == x {
            rest
        } else {
            rest.push(s.last())
        }
    }
}

/// A role: a base permission mask, the Discord roles that map to it, and a
/// priority (a lower value takes precedence).
#[derive(Debug, Clone)]
pub struct Role {
    pub id: String,
    pub name: String,
    pub permissions: u64,
    pub discord_role_ids: Vec<String>,
    pub priority: u32,
}

/// Whether `x` equals one of the strings of `v`.
fn contains_text(v: &Vec<String>, x: &String) -> (r: bool)
    ensures
        r == texts(v@).contains(x@),
{
    let mut i: usize = 0;
    while i < v.len()
        invariant
            0 <= i <= v@.len(),
            forall|j: int| 0 <= j < i ==> v@[j]@ != x@,
        decreases v@.len() - i,
    {
        if v[i] == *x {
            assert(texts(v@)[i as int] == x@);
            return true;
        }
        i = i + 1;
    }
    proof {
        if texts(v@).contains(x@) {
            let k = choose|k: int| 0 <= k < texts(v@).len() && texts(v@)[k] == x@;
            assert(v@[k]@ == x@);
        }
    }
    false
}

impl Role {
    /// A role with no permissions, no Discord mappings and priority 0.
    pub fn new(id: String, name: String) -> (r: Self)
        ensures
            r.id == id,
            r.name == name,
            r.permissions == 0,
            r.discord_role_ids@.len() == 0,
            r.priority == 0,
    {
        Role { id, name, permissions: 0, discord_role_ids: Vec::new(), priority: 0 }
    }

    /// The role with its base permission mask replaced.
    pub fn with_permissions(self, permissions: u64) -> (r: Self)
        ensures
            r == (Role { permissions, ..self }),
    {
        let mut r = self;
        r.permissions = permissions;
        r
    }

    /// The role with its Discord mappings replaced.
    pub fn with_discord_roles(self, role_ids: Vec<String>) -> (r: Self)
        ensures
            r == (Role { discord_role_ids: role_ids, ..self }),
    {
        let mut r = self;
        r.discord_role_ids = role_ids;
        r
    }

    /// The role with its priority replaced (a lower value takes precedence);
    /// the value is taken as its 32-bit two's-complement pattern.
    pub fn with_priority(self, priority: i32) -> (r: Self)
        ensures
            r == (Role { priority: priority as u32, ..self }),
    {
        let mut r = self;
        r.priority = priority as u32;
        r
    }

    /// Adds a Discord mapping unless it is already present.
    pub fn add_discord_role(&mut self, role_id: String)
        ensures
            final(self).id == old(self).id,
            final(self).name == old(self).name,
            final(self).permissions == old(self).permissions,
            final(self).priority == old(self).priority,
            texts(final(self).discord_role_ids@) == if texts(old(self).discord_role_ids@).contains(role_id@) {
                texts(old(self).discord_role_ids@)
            } else {
                texts(old(self).discord_role_ids@).push(role_id@)
            },
    {
        if !contains_text(&self.discord_role_ids, &role_id) {
            self.discord_role_ids.push(role_id);
            assert(texts(self.discord_role_ids@) =~= texts(old(self).discord_role_ids@).push(role_id@));
        }
    }

    /// Removes every Discord mapping equal to `role_id`.
    pub fn remove_discord_role(&mut self, role_id: &str)
        ensures
            final(self).id == old(self).id,
            final(self).name == old(self).name,
            final(self).permissions == old(self).permissions,
            final(self).priority == old(self).priority,
            texts(final(self).discord_role_ids@) == without(texts(old(self).discord_role_ids@), role_id@),
    {
        let target = role_id.to_owned();
        let mut kept: Vec<String> = Vec::new();
        let mut i: usize = 0;
        while i < self.discord_role_ids.len()
            invariant
                *self == *old(self),
                0 <= i <= self.discord_role_ids@.len(),
                target@ == role_id@,
                texts(kept@) == without(texts(self.discord_role_ids@).take(i as int), role_id@),
            decreases self.discord_role_ids@.len() - i,
        {
            let ghost ts = texts(self.discord_role_ids@);
            assert(ts.take(i + 1).drop_last() =~= ts.take(i as int));
            assert(ts.take(i + 1).last() == self.discord_role_ids@[i as int]@);
            if self.discord_role_ids[i] != target {
                kept.push(self.discord_role_ids[i].clone());
                assert(texts(kept@) =~= without(ts.take(i as int), role_id@).push(ts[i as int]));
            }
            i = i + 1;
        }
        assert(texts(self.discord_role_ids@).take(i as int) =~= texts(self.discord_role_ids@));
        self.discord_role_ids = kept;
    }

    /// Whether one of this role's Discord mappings occurs in `role_ids`.
    pub fn matches_discord_roles(&self, role_ids: &[String]) -> (r: bool)
        ensures
            r == exists|i: int, j: int|
                0 <= i < self.discord_role_ids@.len() && 0 <= j < role_ids@.len()
                    && #[trigger] self.discord_role_ids@[i]@ == #[trigger] role_ids@[j]@,
    {
        let mut i: usize = 0;
        while i < self.discord_role_ids.len()
            invariant
                0 <= i <= self.discord_role_ids@.len(),
                forall|a: int, b: int|
                    0 <= a < i && 0 <= b < role_ids@.len() ==> #[trigger] self.discord_role_ids@[a]@ != #[trigger] role_ids@[b]@,
            decreases self.discord_role_ids@.len() - i,
        {
            let mut j: usize = 0;
            while j < role_ids.len()
                invariant
                    0 <= i < self.discord_role_ids@.len(),
                    0 <= j <= role_ids@.len(),
                    forall|a: int, b: int|
                        0 <= a < i && 0 <= b < role_ids@.len() ==> #[trigger] self.discord_role_ids@[a]@ != #[trigger] role_ids@[b]@,
                    forall|b: int| 0 <= b < j ==> self.discord_role_ids@[i as int]@ != #[trigger] role_ids@[b]@,
                decreases role_ids@.len() - j,
            {
                if self.discord_role_ids[i] == role_ids[j] {
                    return true;
                }
                j = j + 1;
            }
            i = i + 1;
        }
        false
    }
}

} // verus!
