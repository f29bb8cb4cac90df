//! The statements that read and write guilds and their configurations.

use vstd::prelude::*;

use crate::models::GuildConfigInsertValue;
use crate::schema::{guild_configs_iden, guilds_iden, GuildConfigs, Guilds};
use crate::sql::{
    all_unquoted, idens_view, insert_text, new_v4_uuid, render_insert, render_select, render_update,
    select_text, update_text, utc_now, values_view, SqlQuery, SqlValue, SqlValueView,
};
use chrono::NaiveDateTime;

verus! {

/// The columns of `guilds` that every guild statement returns, in order.
pub open spec fn guild_columns() -> Seq<Seq<char>> {
    seq![
        guilds_iden(Guilds::Id),
        guilds_iden(Guilds::GuildId),
        guilds_iden(Guilds::CreatedAt),
        guilds_iden(Guilds::UpdatedAt),
    ]
}

/// The columns of `guild_configs` that every configuration statement returns,
/// and that an insert fills, in order.
pub open spec fn guild_config_columns() -> Seq<Seq<char>> {
    seq![
        guild_configs_iden(GuildConfigs::Id),
        guild_configs_iden(GuildConfigs::GuildId),
        guild_configs_iden(GuildConfigs::DefaultChannelId),
        guild_configs_iden(GuildConfigs::CreatedAt),
        guild_configs_iden(GuildConfigs::UpdatedAt),
    ]
}

/// A uuid of version 4 and of the RFC 4122 variant.
pub open spec fn is_v4_uuid(id: u128) -> bool {
    &&& (id >> 76u128) & 0xfu128 == 4
    &&& (id >> 62u128) & 0x3u128 == 2
}

fn guild_column_list() -> (r: Vec<&'static str>)
    ensures
        idens_view(r@) == guild_columns(),
        r@.len() == 4,
        all_unquoted(idens_view(r@)),
{
    let r = vec![Guilds::Id.as_str(), Guilds::GuildId.as_str(), Guilds::CreatedAt.as_str(), Guilds::UpdatedAt.as_str()];
    assert(idens_view(r@) =~= guild_columns());
    r
}

fn guild_config_column_list() -> (r: Vec<&'static str>)
    ensures
        idens_view(r@) == guild_config_columns(),
        r@.len() == 5,
        all_unquoted(idens_view(r@)),
{
    let r = vec![
        GuildConfigs::Id.as_str(),
        GuildConfigs::GuildId.as_str(),
        GuildConfigs::DefaultChannelId.as_str(),
        GuildConfigs::CreatedAt.as_str(),
        GuildConfigs::UpdatedAt.as_str(),
    ];
    assert(idens_view(r@) =~= guild_config_columns());
    r
}

/// Looks a guild up by its Discord id:
/// `SELECT "id", "guild_id", "created_at", "updated_at" FROM "guilds" WHERE "guild_id" = $1`.
pub fn find_guild_query(guild_id: String) -> (q: SqlQuery)
    ensures
        q.sql@ == select_text(guilds_iden(Guilds::Table), guild_columns(), guilds_iden(Guilds::GuildId)),
        values_view(q.values@) == seq![SqlValueView::Text(guild_id@)],
{
    let values = vec![SqlValue::Text(guild_id)];
    let columns = guild_column_list();
    let sql = render_select(Guilds::Table.as_str(), &columns, Guilds::GuildId.as_str(), &values[0]);
    assert(values_view(values@) =~= seq![SqlValueView::Text(guild_id@)]);
    SqlQuery { sql, values }
}

/// Creates the row of a guild with the given row id:
/// `INSERT INTO "guilds" ("id", "guild_id") VALUES ($1, $2) RETURNING "id", "guild_id", "created_at", "updated_at"`.
pub fn insert_guild_query_with_id(new_id: u128, guild_id: String) -> (q: SqlQuery)
    ensures
        q.sql@ == insert_text(
            guilds_iden(Guilds::Table),
            seq![guilds_iden(Guilds::Id), guilds_iden(Guilds::GuildId)],
            guild_columns(),
        ),
        values_view(q.values@) == seq![SqlValueView::Uuid(new_id), SqlValueView::Text(guild_id@)],
{
    let values = vec![SqlValue::Uuid(new_id), SqlValue::Text(guild_id)];
    let columns = vec![Guilds::Id.as_str(), Guilds::GuildId.as_str()];
    let returning = guild_column_list();
    assert(idens_view(columns@) =~= seq![guilds_iden(Guilds::Id), guilds_iden(Guilds::GuildId)]);
    let sql = render_insert(Guilds::Table.as_str(), &columns, &values, &returning);
    assert(values_view(values@) =~= seq![SqlValueView::Uuid(new_id), SqlValueView::Text(guild_id@)]);
    SqlQuery { sql, values }
}

/// Creates the row of a guild under a fresh random (version 4) row id.
pub fn insert_guild_query(guild_id: String) -> (q: SqlQuery)
    ensures
        q.sql@ == insert_text(
            guilds_iden(Guilds::Table),
            seq![guilds_iden(Guilds::Id), guilds_iden(Guilds::GuildId)],
            guild_columns(),
        ),
        q.values@.len() == 2,
        q.values@[0] matches SqlValue::Uuid(id) && is_v4_uuid(id),
        q.values@[1]@ == SqlValueView::Text(guild_id@),
{
    let new_id = new_v4_uuid();
    let q = insert_guild_query_with_id(new_id, guild_id);
    assert(values_view(q.values@).len() == q.values@.len());
    assert(q.values@[0]@ == values_view(q.values@)[0]);
    assert(q.values@[1]@ == values_view(q.values@)[1]);
    q
}

/// Looks the configuration of a guild up by the uuid of the guild's row:
/// `SELECT "id", "guild_id", "default_channel_id", "created_at", "updated_at" FROM "guild_configs" WHERE "guild_id" = $1`.
pub fn find_guild_config_query(guild_id: u128) -> (q: SqlQuery)
    ensures
        q.sql@ == select_text(
            guild_configs_iden(GuildConfigs::Table),
            guild_config_columns(),
            guild_configs_iden(GuildConfigs::GuildId),
        ),
        values_view(q.values@) == seq![SqlValueView::Uuid(guild_id)],
{
    let values = vec![SqlValue::Uuid(guild_id)];
    let columns = guild_config_column_list();
    let sql = render_select(GuildConfigs::Table.as_str(), &columns, GuildConfigs::GuildId.as_str(), &values[0]);
    assert(values_view(values@) =~= seq![SqlValueView::Uuid(guild_id)]);
    SqlQuery { sql, values }
}

/// Creates the configuration row of a guild with the given row id and time:
/// `INSERT INTO "guild_configs" ("id", "guild_id", "default_channel_id", "created_at", "updated_at") VALUES ($1, $2, $3, $4, $5) RETURNING ...`.
/// The Discord guild id of `config` is not stored: the row refers to the
/// guild by `guild_id`, the uuid of its row.
pub fn insert_guild_config_query_at(
    new_id: u128,
    now: NaiveDateTime,
    guild_id: u128,
    config: GuildConfigInsertValue,
) -> (q: SqlQuery)
    ensures
        q.sql@ == insert_text(
            guild_configs_iden(GuildConfigs::Table),
            guild_config_columns(),
            guild_config_columns(),
        ),
        values_view(q.values@) == seq![
            SqlValueView::Uuid(new_id),
            SqlValueView::Uuid(guild_id),
            SqlValueView::Text(config.default_channel_id@),
            SqlValueView::Timestamp(now),
            SqlValueView::Timestamp(now),
        ],
{
    let ghost channel = config.default_channel_id@;
    let values = vec![
        SqlValue::Uuid(new_id),
        SqlValue::Uuid(guild_id),
        SqlValue::Text(config.default_channel_id),
        SqlValue::Timestamp(now),
        SqlValue::Timestamp(now),
    ];
    let columns = guild_config_column_list();
    let returning = guild_config_column_list();
    let sql = render_insert(GuildConfigs::Table.as_str(), &columns, &values, &returning);
    assert(values_view(values@) =~= seq![
        SqlValueView::Uuid(new_id),
        SqlValueView::Uuid(guild_id),
        SqlValueView::Text(channel),
        SqlValueView::Timestamp(now),
        SqlValueView::Timestamp(now),
    ]);
    SqlQuery { sql, values }
}

/// Creates the configuration row of a guild under a fresh random (version 4)
/// row id, with the clock's current time as both creation and update time.
pub fn insert_guild_config_query(guild_id: u128, config: GuildConfigInsertValue) -> (q: SqlQuery)
    ensures
        q.sql@ == insert_text(
            guild_configs_iden(GuildConfigs::Table),
            guild_config_columns(),
            guild_config_columns(),
        ),
        q.values@.len() == 5,
        q.values@[0] matches SqlValue::Uuid(id) && is_v4_uuid(id),
        q.values@[1]@ == SqlValueView::Uuid(guild_id),
        q.values@[2]@ == SqlValueView::Text(config.default_channel_id@),
        q.values@[3] matches SqlValue::Timestamp(t) && q.values@[4]@ == SqlValueView::Timestamp(t),
{
    let now = utc_now();
    let new_id = new_v4_uuid();
    let ghost channel = config.default_channel_id@;
    let q = insert_guild_config_query_at(new_id, now, guild_id, config);
    assert(values_view(q.values@).len() == q.values@.len());
    assert(q.values@[0]@ == values_view(q.values@)[0]);
    assert(q.values@[1]@ == values_view(q.values@)[1]);
    assert(q.values@[2]@ == values_view(q.values@)[2]);
    assert(q.values@[3]@ == values_view(q.values@)[3]);
    assert(q.values@[4]@ == values_view(q.values@)[4]);
    q
}

/// Sets the default log channel of a configuration row:
/// `UPDATE "guild_configs" SET "default_channel_id" = $1 WHERE "id" = $2 RETURNING ...`.
pub fn update_guild_config_query(config_id: u128, default_channel_id: String) -> (q: SqlQuery)
    ensures
        q.sql@ == update_text(
            guild_configs_iden(GuildConfigs::Table),
            guild_configs_iden(GuildConfigs::DefaultChannelId),
            guild_configs_iden(GuildConfigs::Id),
            guild_config_columns(),
        ),
        values_view(q.values@) == seq![SqlValueView::Text(default_channel_id@), SqlValueView::Uuid(config_id)],
{
    let values = vec![SqlValue::Text(default_channel_id), SqlValue::Uuid(config_id)];
    let returning = guild_config_column_list();
    let sql = render_update(
        GuildConfigs::Table.as_str(),
        GuildConfigs::DefaultChannelId.as_str(),
        &values[0],
        GuildConfigs::Id.as_str(),
        &values[1],
        &returning,
    );
    assert(values_view(values@) =~= seq![SqlValueView::Text(default_channel_id@), SqlValueView::Uuid(config_id)]);
    SqlQuery { sql, values }
}

} // verus!
