use chrono::{NaiveDate, NaiveDateTime};
use guild_log::models::{GuildConfigInsertValue, GuildConfigStruct, GuildStruct};
use guild_log::store::{
    DbError, Step, StoreReply, StoreRequest, UpdateGuildConfig, UpsertGuild, UpsertGuildConfig,
};

fn at(h: u32) -> NaiveDateTime {
    NaiveDate::from_ymd_opt(2023, 1, 2).unwrap().and_hms_opt(h, 0, 0).unwrap()
}

fn guild(id: u128, guild_id: &str) -> GuildStruct {
    GuildStruct { id, guild_id: guild_id.to_string(), created_at: at(1), updated_at: at(2) }
}

fn config_row(id: u128, guild_row: u128, channel: &str) -> GuildConfigStruct {
    GuildConfigStruct {
        id,
        guild_id: guild_row,
        default_channel_id: channel.to_string(),
        created_at: at(3),
        updated_at: at(4),
    }
}

fn value(guild_id: &str, channel: &str) -> GuildConfigInsertValue {
    GuildConfigInsertValue { guild_id: guild_id.to_string(), default_channel_id: channel.to_string() }
}

fn request(step: &Step<GuildConfigStruct, String>) -> &StoreRequest {
    match step {
        Step::Request(r) => r,
        Step::Done(_) => panic!("expected a request"),
    }
}

#[test]
fn upsert_guild_returns_existing_guild() {
    let (m, first) = UpsertGuild::start("10".to_string());
    assert!(matches!(&first, StoreRequest::FindGuild(g) if g == "10"));
    let (_, step) = m.resume::<String>(StoreReply::Guild(Ok(guild(1, "10"))));
    match step {
        Step::Done(Ok(g)) => assert_eq!(g.id, 1),
        _ => panic!("expected the found guild"),
    }
}

#[test]
fn upsert_guild_inserts_missing_guild() {
    let (m, _) = UpsertGuild::start("10".to_string());
    let (m, step) = m.resume::<String>(StoreReply::Guild(Err(DbError::RowNotFound)));
    assert!(matches!(&step, Step::Request(StoreRequest::InsertGuild(g)) if g == "10"));
    let (_, step) = m.resume::<String>(StoreReply::Guild(Ok(guild(2, "10"))));
    assert!(matches!(step, Step::Done(Ok(g)) if g.id == 2));
}

#[test]
fn upsert_guild_passes_other_errors_on() {
    let (m, _) = UpsertGuild::start("10".to_string());
    let (_, step) = m.resume(StoreReply::Guild(Err(DbError::Other("connection reset".to_string()))));
    assert!(matches!(step, Step::Done(Err(DbError::Other(e))) if e == "connection reset"));
}

#[test]
fn upsert_guild_fails_when_insert_fails() {
    let (m, _) = UpsertGuild::start("10".to_string());
    let (m, _) = m.resume::<String>(StoreReply::Guild(Err(DbError::RowNotFound)));
    let (_, step) = m.resume(StoreReply::Guild(Err(DbError::Other("duplicate key".to_string()))));
    assert!(matches!(step, Step::Done(Err(DbError::Other(e))) if e == "duplicate key"));
}

#[test]
fn update_guild_config_refetches_then_updates() {
    let (m, first) = UpdateGuildConfig::start(value("10", "555"));
    assert!(matches!(&first, StoreRequest::FindGuild(g) if g == "10"));
    let (m, step) = m.resume::<String>(StoreReply::Guild(Ok(guild(1, "10"))));
    assert!(matches!(request(&step), StoreRequest::FindGuildConfig(1)));
    let (m, step) = m.resume::<String>(StoreReply::GuildConfig(Ok(config_row(8, 1, "444"))));
    assert!(matches!(request(&step), StoreRequest::UpdateGuildConfig(8, ch) if ch == "555"));
    let (_, step) = m.resume::<String>(StoreReply::GuildConfig(Ok(config_row(8, 1, "555"))));
    assert!(matches!(step, Step::Done(Ok(c)) if c.default_channel_id == "555"));
}

#[test]
fn update_guild_config_fails_without_config() {
    let (m, _) = UpdateGuildConfig::start(value("10", "555"));
    let (m, _) = m.resume::<String>(StoreReply::Guild(Ok(guild(1, "10"))));
    let (_, step) = m.resume::<String>(StoreReply::GuildConfig(Err(DbError::RowNotFound)));
    assert!(matches!(step, Step::Done(Err(DbError::RowNotFound))));
}

#[test]
fn upsert_guild_config_creates_guild_and_config() {
    let (m, first) = UpsertGuildConfig::start(value("10", "555"));
    assert!(matches!(&first, StoreRequest::FindGuild(g) if g == "10"));
    let (m, step) = m.resume::<String>(StoreReply::Guild(Err(DbError::RowNotFound)));
    assert!(matches!(request(&step), StoreRequest::InsertGuild(g) if g == "10"));
    let (m, step) = m.resume::<String>(StoreReply::Guild(Ok(guild(3, "10"))));
    assert!(matches!(request(&step), StoreRequest::FindGuildConfig(3)));
    let (m, step) = m.resume::<String>(StoreReply::GuildConfig(Err(DbError::RowNotFound)));
    match request(&step) {
        StoreRequest::InsertGuildConfig(3, v) => {
            assert_eq!(v.guild_id, "10");
            assert_eq!(v.default_channel_id, "555");
        }
        _ => panic!("expected the insert of the configuration"),
    }
    let (_, step) = m.resume::<String>(StoreReply::GuildConfig(Ok(config_row(9, 3, "555"))));
    assert!(matches!(step, Step::Done(Ok(c)) if c.id == 9 && c.guild_id == 3));
}

#[test]
fn upsert_guild_config_updates_existing_config() {
    let (m, _) = UpsertGuildConfig::start(value("10", "555"));
    let (m, step) = m.resume::<String>(StoreReply::Guild(Ok(guild(3, "10"))));
    assert!(matches!(request(&step), StoreRequest::FindGuildConfig(3)));
    let (m, step) = m.resume::<String>(StoreReply::GuildConfig(Ok(config_row(9, 3, "111"))));
    assert!(matches!(request(&step), StoreRequest::FindGuild(g) if g == "10"));
    let (m, step) = m.resume::<String>(StoreReply::Guild(Ok(guild(3, "10"))));
    assert!(matches!(request(&step), StoreRequest::FindGuildConfig(3)));
    let (m, step) = m.resume::<String>(StoreReply::GuildConfig(Ok(config_row(9, 3, "111"))));
    assert!(matches!(request(&step), StoreRequest::UpdateGuildConfig(9, ch) if ch == "555"));
    let (_, step) = m.resume::<String>(StoreReply::GuildConfig(Ok(config_row(9, 3, "555"))));
    assert!(matches!(step, Step::Done(Ok(c)) if c.default_channel_id == "555"));
}

#[test]
fn upsert_guild_config_stops_on_lookup_error() {
    let (m, _) = UpsertGuildConfig::start(value("10", "555"));
    let (m, _) = m.resume::<String>(StoreReply::Guild(Ok(guild(3, "10"))));
    let (_, step) = m.resume(StoreReply::GuildConfig(Err(DbError::Other("timeout".to_string()))));
    assert!(matches!(step, Step::Done(Err(DbError::Other(e))) if e == "timeout"));
}

#[test]
fn upsert_guild_config_stops_on_guild_error() {
    let (m, _) = UpsertGuildConfig::start(value("10", "555"));
    let (_, step) = m.resume(StoreReply::Guild(Err(DbError::Other("refused".to_string()))));
    assert!(matches!(step, Step::Done(Err(DbError::Other(e))) if e == "refused"));
}
