# guild_log

A Discord bot that records, per guild, the channel its logs go to, and reports
deleted messages from its gateway cache.

- `src/` is the verified library:
  - `schema` — table and column identifiers; `models` — rows and insert values;
  - `sql`, `queries` — the Postgres statements (text rendered by sea_query,
    bound values in placeholder order);
  - `store` — the multi-step store operations (`upsert_guild`,
    `update_guild_config`, `upsert_guild_config`) as machines from reply to
    next request, with their laws;
  - `events` — what the gateway loop does with each received outcome and
    event, and the report of a deleted message;
  - `commands`, `decimal` — the replies of the slash commands and the
    decimal text of ids and latencies.
- `app/` runs it: the database round trips, the gateway shards, the command
  framework and the migrations (`guild_log migrate`).
- `tests/` exercises the library with the real outside crates.
