//! Who may do what on a server, and which ids the bot falls back to.
use vstd::prelude::*;
use crate::settings::{guild_key, guild_settings, settings_at, GuildSettings};
use crate::store::KeyedStore;
use crate::text::{owned, parse_u64_spec, parse_u64_str, trim_spec, trim_str};

verus! {

/// The owner's user id when none is configured.
pub const DEFAULT_OWNER_ID: &'static str = "1117969014698811593";

/// The bot owner's id: the configured value when it is not blank, else [`DEFAULT_OWNER_ID`].
pub open spec fn owner_spec(configured: Option<Seq<char>>) -> Seq<char> {
    match configured {
        Some(v) => if trim_spec(v).len() > 0 {
            v
        } else {
            DEFAULT_OWNER_ID@
        },
        None => DEFAULT_OWNER_ID@,
    }
}

/// The bot owner's id, from the value of `DISCORD_OWNER_ID` if it is set. There always is one.
pub fn owner_user_id(configured: Option<&str>) -> (r: Option<String>)
    ensures
        r matches Some(x) && x@ == owner_spec(
            match configured {
                Some(v) => Some(v@),
                None => None,
            },
        ),
{
    match configured {
        Some(v) => {
            let t = trim_str(v);
            if t.unicode_len() > 0 {
                Some(owned(v))
            } else {
                Some(owned(DEFAULT_OWNER_ID))
            }
        },
        None => Some(owned(DEFAULT_OWNER_ID)),
    }
}

/// A server's terminal channel: the configured one, else the value of `TERMINAL_CHANNEL_ID`
/// when it parses as a number.
pub open spec fn terminal_channel_spec(
    store: Map<Seq<char>, GuildSettings>,
    guild: Option<u64>,
    fallback: Option<Seq<char>>,
) -> Option<u64> {
    let configured = match guild {
        Some(g) => settings_at(store, guild_key(g)).terminal_channel_id,
        None => None,
    };
    match configured {
        Some(c) => Some(c),
        None => match fallback {
            Some(f) => parse_u64_spec(f),
            None => None,
        },
    }
}

/// Finds a server's terminal channel.
pub fn terminal_channel_id(store: &KeyedStore<GuildSettings>, guild: Option<u64>, fallback: Option<&str>) -> (r: Option<u64>)
    ensures
        r == terminal_channel_spec(
            store@,
            guild,
            match fallback {
                Some(f) => Some(f@),
                None => None,
            },
        ),
{
    match guild {
        Some(g) => {
            let s = guild_settings(store, g);
            if s.terminal_channel_id.is_some() {
                return s.terminal_channel_id;
            }
        },
        None => {},
    }
    match fallback {
        Some(f) => parse_u64_str(f),
        None => None,
    }
}

/// The Administrator permission bit.
pub const ADMINISTRATOR: u64 = 8;

/// The Manage Server permission bit.
pub const MANAGE_GUILD: u64 = 32;

/// Whether a member's permissions, when known, include Administrator or Manage Server.
pub open spec fn is_admin_spec(permissions: Option<u64>) -> bool {
    match permissions {
        Some(p) => p & ADMINISTRATOR != 0 || p & MANAGE_GUILD != 0,
        None => false,
    }
}

/// Tells whether a member administers the server.
pub fn has_admin_permissions(permissions: Option<u64>) -> (r: bool)
    ensures
        r == is_admin_spec(permissions),
{
    match permissions {
        Some(p) => p & ADMINISTRATOR != 0 || p & MANAGE_GUILD != 0,
        None => false,
    }
}

/// What the access checks know of a member: their permissions, when resolved, and roles.
pub struct MemberAccess {
    pub permissions: Option<u64>,
    pub roles: Vec<u64>,
}

/// Whether `roles` holds the role `role`, when one is configured.
pub open spec fn has_configured_role(roles: Seq<u64>, role: Option<u64>) -> bool {
    match role {
        Some(r) => roles.contains(r),
        None => false,
    }
}

/// Staff are members who administer the server or hold its staff role.
pub open spec fn staff_spec(
    store: Map<Seq<char>, GuildSettings>,
    guild: Option<u64>,
    member: Option<MemberAccess>,
) -> bool {
    match member {
        None => false,
        Some(m) => is_admin_spec(m.permissions) || match guild {
            Some(g) => has_configured_role(m.roles@, settings_at(store, guild_key(g)).staff_role_id),
            None => false,
        },
    }
}

fn holds_role(roles: &Vec<u64>, role: Option<u64>) -> (r: bool)
    ensures
        r == has_configured_role(roles@, role),
{
    match role {
        Some(x) => {
            let mut i: usize = 0;
            while i < roles.len()
                invariant
                    i <= roles@.len(),
                    role == Some(x),
                    forall|j: int| 0 <= j < i ==> roles@[j] != x,
                decreases roles@.len() - i,
            {
                if roles[i] == x {
                    assert(roles@[i as int] == x);
                    return true;
                }
                i = i + 1;
            }
            false
        },
        None => false,
    }
}

/// Tells whether a member is staff on a server.
pub fn has_staff_access(store: &KeyedStore<GuildSettings>, guild: Option<u64>, member: Option<&MemberAccess>) -> (r: bool)
    ensures
        r == staff_spec(
            store@,
            guild,
            match member {
                Some(m) => Some(*m),
                None => None,
            },
        ),
{
    let m = match member {
        Some(m) => m,
        None => return false,
    };
    if has_admin_permissions(m.permissions) {
        return true;
    }
    match guild {
        Some(g) => {
            let s = guild_settings(store, g);
            holds_role(&m.roles, s.staff_role_id)
        },
        None => false,
    }
}

/// Private voice channels are open to staff and to holders of the private voice role.
pub open spec fn private_voice_spec(
    store: Map<Seq<char>, GuildSettings>,
    guild: Option<u64>,
    member: Option<MemberAccess>,
) -> bool {
    staff_spec(store, guild, member) || match (member, guild) {
        (Some(m), Some(g)) => has_configured_role(
            m.roles@,
            settings_at(store, guild_key(g)).private_voice_role_id,
        ),
        _ => false,
    }
}

/// Tells whether a member may use private voice channels.
pub fn has_private_voice_access(
    store: &KeyedStore<GuildSettings>,
    guild: Option<u64>,
    member: Option<&MemberAccess>,
) -> (r: bool)
    ensures
        r == private_voice_spec(
            store@,
            guild,
            match member {
                Some(m) => Some(*m),
                None => None,
            },
        ),
{
    if has_staff_access(store, guild, member) {
        return true;
    }
    match (member, guild) {
        (Some(m), Some(g)) => {
            let s = guild_settings(store, g);
            holds_role(&m.roles, s.private_voice_role_id)
        },
        _ => false,
    }
}

} // verus!
