use chrono::{NaiveDate, NaiveDateTime};
use guild_log::models::GuildConfigInsertValue;
use guild_log::queries::{
    find_guild_config_query, find_guild_query, insert_guild_config_query, insert_guild_config_query_at,
    insert_guild_query, insert_guild_query_with_id, update_guild_config_query,
};
use guild_log::schema::{GuildConfigs, Guilds};
use guild_log::sql::SqlValue;

const GUILD_COLUMNS: &str = r#""id", "guild_id", "created_at", "updated_at""#;
const CONFIG_COLUMNS: &str = r#""id", "guild_id", "default_channel_id", "created_at", "updated_at""#;

fn at(h: u32) -> NaiveDateTime {
    NaiveDate::from_ymd_opt(2024, 5, 17).unwrap().and_hms_opt(h, 30, 0).unwrap()
}

fn text(v: &SqlValue) -> &str {
    match v {
        SqlValue::Text(s) => s.as_str(),
        _ => panic!("not a text value"),
    }
}

fn uuid(v: &SqlValue) -> u128 {
    match v {
        SqlValue::Uuid(u) => *u,
        _ => panic!("not a uuid value"),
    }
}

fn time(v: &SqlValue) -> NaiveDateTime {
    match v {
        SqlValue::Timestamp(t) => *t,
        _ => panic!("not a timestamp value"),
    }
}

#[test]
fn identifiers_are_snake_case() {
    assert_eq!(Guilds::Table.as_str(), "guilds");
    assert_eq!(Guilds::GuildId.as_str(), "guild_id");
    assert_eq!(Guilds::CreatedAt.as_str(), "created_at");
    assert_eq!(GuildConfigs::Table.as_str(), "guild_configs");
    assert_eq!(GuildConfigs::DefaultChannelId.as_str(), "default_channel_id");
    assert_eq!(GuildConfigs::UpdatedAt.as_str(), "updated_at");
}

#[test]
fn find_guild_selects_by_discord_id() {
    let q = find_guild_query("1234567890".to_string());
    assert_eq!(q.sql, format!(r#"SELECT {GUILD_COLUMNS} FROM "guilds" WHERE "guild_id" = $1"#));
    assert_eq!(q.values.len(), 1);
    assert_eq!(text(&q.values[0]), "1234567890");
}

#[test]
fn insert_guild_with_id_binds_id_then_guild() {
    let q = insert_guild_query_with_id(0x1234, "42".to_string());
    assert_eq!(
        q.sql,
        format!(r#"INSERT INTO "guilds" ("id", "guild_id") VALUES ($1, $2) RETURNING {GUILD_COLUMNS}"#)
    );
    assert_eq!(q.values.len(), 2);
    assert_eq!(uuid(&q.values[0]), 0x1234);
    assert_eq!(text(&q.values[1]), "42");
}

#[test]
fn insert_guild_draws_version_4_ids() {
    let a = insert_guild_query("42".to_string());
    let b = insert_guild_query("42".to_string());
    let (ia, ib) = (uuid(&a.values[0]), uuid(&b.values[0]));
    assert_eq!((ia >> 76) & 0xf, 4);
    assert_eq!((ia >> 62) & 0x3, 2);
    assert_eq!((ib >> 76) & 0xf, 4);
    assert_ne!(ia, ib);
    assert_eq!(text(&a.values[1]), "42");
    assert_eq!(a.sql, insert_guild_query_with_id(1, "42".to_string()).sql);
}

#[test]
fn find_guild_config_selects_by_guild_row() {
    let q = find_guild_config_query(77);
    assert_eq!(q.sql, format!(r#"SELECT {CONFIG_COLUMNS} FROM "guild_configs" WHERE "guild_id" = $1"#));
    assert_eq!(q.values.len(), 1);
    assert_eq!(uuid(&q.values[0]), 77);
}

#[test]
fn insert_guild_config_at_binds_all_columns() {
    let config = GuildConfigInsertValue { guild_id: "1".to_string(), default_channel_id: "99".to_string() };
    let q = insert_guild_config_query_at(5, at(9), 7, config);
    assert_eq!(
        q.sql,
        format!(
            r#"INSERT INTO "guild_configs" ({CONFIG_COLUMNS}) VALUES ($1, $2, $3, $4, $5) RETURNING {CONFIG_COLUMNS}"#
        )
    );
    assert_eq!(q.values.len(), 5);
    assert_eq!(uuid(&q.values[0]), 5);
    assert_eq!(uuid(&q.values[1]), 7);
    assert_eq!(text(&q.values[2]), "99");
    assert_eq!(time(&q.values[3]), at(9));
    assert_eq!(time(&q.values[4]), at(9));
}

#[test]
fn insert_guild_config_stamps_now_twice() {
    let before = chrono::Utc::now().naive_utc();
    let config = GuildConfigInsertValue { guild_id: "1".to_string(), default_channel_id: "99".to_string() };
    let q = insert_guild_config_query(7, config);
    let after = chrono::Utc::now().naive_utc();
    let id = uuid(&q.values[0]);
    assert_eq!((id >> 76) & 0xf, 4);
    assert_eq!(uuid(&q.values[1]), 7);
    assert_eq!(text(&q.values[2]), "99");
    let t = time(&q.values[3]);
    assert!(before <= t && t <= after);
    assert_eq!(time(&q.values[4]), t);
}

#[test]
fn update_guild_config_sets_channel_by_row_id() {
    let q = update_guild_config_query(11, "555".to_string());
    assert_eq!(
        q.sql,
        format!(
            r#"UPDATE "guild_configs" SET "default_channel_id" = $1 WHERE "id" = $2 RETURNING {CONFIG_COLUMNS}"#
        )
    );
    assert_eq!(q.values.len(), 2);
    assert_eq!(text(&q.values[0]), "555");
    assert_eq!(uuid(&q.values[1]), 11);
}
