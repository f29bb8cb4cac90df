//! Rows of the store and the values that create them.

use vstd::prelude::*;

use crate::schema::LogTypeEnum;
use chrono::NaiveDateTime;

verus! {

/// What is needed to create a guild row: the Discord id of the guild.
#[derive(Debug)]
pub struct GuildInsertValue {
    pub guild_id: String,
}

/// A row of `guilds`. `id` is the row's uuid (its 128 bits), `guild_id` the
/// Discord id of the guild as decimal text; the times are in UTC.
#[derive(Debug)]
pub struct GuildStruct {
    pub id: u128,
    pub guild_id: String,
    pub created_at: NaiveDateTime,
    pub updated_at: NaiveDateTime,
}

/// What a command asks to store for a guild: the Discord ids, as decimal
/// text, of the guild and of its default log channel.
#[derive(Debug)]
pub struct GuildConfigInsertValue {
    pub guild_id: String,
    pub default_channel_id: String,
}

/// A row of `guild_configs`. `guild_id` is the uuid of the guild's row in
/// `guilds`; the times are in UTC.
#[derive(Debug)]
pub struct GuildConfigStruct {
    pub id: u128,
    pub guild_id: u128,
    pub default_channel_id: String,
    pub created_at: NaiveDateTime,
    pub updated_at: NaiveDateTime,
}

/// What a guild row holds.
pub struct GuildRow {
    pub id: u128,
    pub guild_id: Seq<char>,
    pub created_at: NaiveDateTime,
    pub updated_at: NaiveDateTime,
}

impl View for GuildStruct {
    type V = GuildRow;

    open spec fn view(&self) -> GuildRow {
        GuildRow {
            id: self.id,
            guild_id: self.guild_id@,
            created_at: self.created_at,
            updated_at: self.updated_at,
        }
    }
}

/// What a configuration row holds.
pub struct GuildConfigRow {
    pub id: u128,
    pub guild_id: u128,
    pub default_channel_id: Seq<char>,
    pub created_at: NaiveDateTime,
    pub updated_at: NaiveDateTime,
}

impl View for GuildConfigStruct {
    type V = GuildConfigRow;

    open spec fn view(&self) -> GuildConfigRow {
        GuildConfigRow {
            id: self.id,
            guild_id: self.guild_id,
            default_channel_id: self.default_channel_id@,
            created_at: self.created_at,
            updated_at: self.updated_at,
        }
    }
}

/// What a command asks to store for a guild.
pub struct GuildConfigRequest {
    pub guild_id: Seq<char>,
    pub default_channel_id: Seq<char>,
}

impl View for GuildConfigInsertValue {
    type V = GuildConfigRequest;

    open spec fn view(&self) -> GuildConfigRequest {
        GuildConfigRequest { guild_id: self.guild_id@, default_channel_id: self.default_channel_id@ }
    }
}

impl GuildConfigInsertValue {
    /// A copy of the value.
    pub fn duplicate(&self) -> (r: GuildConfigInsertValue)
        ensures
            r@ == self@,
    {
        GuildConfigInsertValue {
            guild_id: self.guild_id.clone(),
            default_channel_id: self.default_channel_id.clone(),
        }
    }
}

/// A log channel of a guild for one kind of event. `id` and `guild_id` are
/// uuids; the times are in UTC.
#[derive(Debug)]
pub struct LogType {
    pub id: u128,
    pub guild_id: u128,
    pub channel_id: String,
    pub log_type: LogTypeEnum,
    pub enabled: bool,
    pub created_at: NaiveDateTime,
    pub updated_at: NaiveDateTime,
}

} // verus!
