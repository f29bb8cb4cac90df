//! Table and column identifiers of the database schema, and the kinds of log
//! channels a guild can configure.

use vstd::prelude::*;

verus! {

/// True when an identifier holds no double quote, so that quoting it for
/// Postgres needs no escaping.
pub open spec fn unquoted_iden(s: Seq<char>) -> bool {
    forall|i: int| 0 <= i < s.len() ==> s[i] != '"'
}

/// Identifiers of the `guilds` table and of its columns.
#[derive(Clone, Copy, PartialEq, Eq, Structural)]
pub enum Guilds {
    Table,
    Id,
    GuildId,
    CreatedAt,
    UpdatedAt,
}

/// The name under which each identifier of `guilds` appears in SQL.
pub open spec fn guilds_iden(i: Guilds) -> Seq<char> {
    match i {
        Guilds::Table => "guilds"@,
        Guilds::Id => "id"@,
        Guilds::GuildId => "guild_id"@,
        Guilds::CreatedAt => "created_at"@,
        Guilds::UpdatedAt => "updated_at"@,
    }
}

impl Guilds {
    /// The identifier as written in SQL (the table in snake case, each column
    /// in snake case).
    pub fn as_str(&self) -> (r: &'static str)
        ensures
            r@ == guilds_iden(*self),
            unquoted_iden(r@),
    {
        proof {
            reveal_strlit("guilds");
            reveal_strlit("id");
            reveal_strlit("guild_id");
            reveal_strlit("created_at");
            reveal_strlit("updated_at");
        }
        match self {
            Guilds::Table => "guilds",
            Guilds::Id => "id",
            Guilds::GuildId => "guild_id",
            Guilds::CreatedAt => "created_at",
            Guilds::UpdatedAt => "updated_at",
        }
    }
}

/// Identifiers of the `guild_configs` table and of its columns.
#[derive(Clone, Copy, PartialEq, Eq, Structural)]
pub enum GuildConfigs {
    Table,
    Id,
    GuildId,
    DefaultChannelId,
    CreatedAt,
    UpdatedAt,
}

/// The name under which each identifier of `guild_configs` appears in SQL.
pub open spec fn guild_configs_iden(i: GuildConfigs) -> Seq<char> {
    match i {
        GuildConfigs::Table => "guild_configs"@,
        GuildConfigs::Id => "id"@,
        GuildConfigs::GuildId => "guild_id"@,
        GuildConfigs::DefaultChannelId => "default_channel_id"@,
        GuildConfigs::CreatedAt => "created_at"@,
        GuildConfigs::UpdatedAt => "updated_at"@,
    }
}

impl GuildConfigs {
    /// The identifier as written in SQL.
    pub fn as_str(&self) -> (r: &'static str)
        ensures
            r@ == guild_configs_iden(*self),
            unquoted_iden(r@),
    {
        proof {
            reveal_strlit("guild_configs");
            reveal_strlit("id");
            reveal_strlit("guild_id");
            reveal_strlit("default_channel_id");
            reveal_strlit("created_at");
            reveal_strlit("updated_at");
        }
        match self {
            GuildConfigs::Table => "guild_configs",
            GuildConfigs::Id => "id",
            GuildConfigs::GuildId => "guild_id",
            GuildConfigs::DefaultChannelId => "default_channel_id",
            GuildConfigs::CreatedAt => "created_at",
            GuildConfigs::UpdatedAt => "updated_at",
        }
    }
}

/// The kinds of events a guild can route to a log channel.
#[derive(Clone, Copy, Debug, PartialEq, Eq, Structural)]
pub enum LogTypeEnum {
    MessageDelete,
}

} // verus!
