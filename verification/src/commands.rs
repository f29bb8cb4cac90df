//! What the slash commands answer and store.

use vstd::prelude::*;

use crate::decimal::{all_digits, decimal, lemma_decimal_reads_back, parse_decimal, push_decimal, to_decimal};
use crate::models::GuildConfigRequest;
use crate::models::GuildConfigInsertValue;

verus! {

/// How an interaction is answered.
#[derive(Clone, Copy, PartialEq, Eq, Structural)]
pub enum ResponseKind {
    /// A message right away.
    ChannelMessageWithSource,
    /// An acknowledgement now; the message follows as an edit of the response.
    DeferredChannelMessageWithSource,
}

/// The first response to an interaction.
pub struct CommandResponse {
    pub kind: ResponseKind,
    pub content: Option<String>,
}

/// `/hello` answers "Hello world" right away.
pub fn hello_response() -> (r: CommandResponse)
    ensures
        r.kind == ResponseKind::ChannelMessageWithSource,
        r.content matches Some(c) && c@ == "Hello world"@,
{
    CommandResponse { kind: ResponseKind::ChannelMessageWithSource, content: Some(String::from_str("Hello world")) }
}

/// `/ping` and `/set_default_channel` first acknowledge the interaction, with
/// no content, and edit the response when their work is done.
pub fn deferred_response() -> (r: CommandResponse)
    ensures
        r.kind == ResponseKind::DeferredChannelMessageWithSource,
        r.content is None,
{
    CommandResponse { kind: ResponseKind::DeferredChannelMessageWithSource, content: None }
}

/// The text `/ping` edits its response to, for the time the acknowledgement
/// took in milliseconds.
pub open spec fn pong_text(latency_ms: nat) -> Seq<char> {
    "🏓 | Pong! Latency: "@ + decimal(latency_ms) + " ms"@
}

/// The text `/ping` edits its response to.
pub fn pong_message(latency_ms: u128) -> (s: String)
    ensures
        s@ == pong_text(latency_ms as nat),
        exists|t: Seq<char>| {
            &&& s@ == "🏓 | Pong! Latency: "@ + t + " ms"@
            &&& all_digits(t)
            &&& parse_decimal(t) == latency_ms
        },
{
    proof {
        law_pong_reports_latency(latency_ms as nat);
    }
    let mut s = String::from_str("🏓 | Pong! Latency: ");
    push_decimal(&mut s, latency_ms);
    s.append(" ms");
    s
}

/// The value `/set_default_channel` stores for a guild and a channel.
pub open spec fn default_channel_value(guild_id: nat, channel_id: nat) -> GuildConfigRequest {
    GuildConfigRequest { guild_id: decimal(guild_id), default_channel_id: decimal(channel_id) }
}

/// What `/set_default_channel` stores: the ids of the guild and of the
/// chosen channel, as decimal text.
pub fn default_channel_config(guild_id: u64, channel_id: u64) -> (v: GuildConfigInsertValue)
    ensures
        v@ == default_channel_value(guild_id as nat, channel_id as nat),
        v.guild_id@ == decimal(guild_id as nat),
        v.default_channel_id@ == decimal(channel_id as nat),
        all_digits(v.guild_id@) && parse_decimal(v.guild_id@) == guild_id,
        all_digits(v.default_channel_id@) && parse_decimal(v.default_channel_id@) == channel_id,
{
    proof {
        law_default_channel_config_reads_back(guild_id, channel_id);
    }
    GuildConfigInsertValue { guild_id: to_decimal(guild_id as u128), default_channel_id: to_decimal(channel_id as u128) }
}

/// The text of a channel mention, `<#id>`.
pub open spec fn channel_mention(channel_id: nat) -> Seq<char> {
    "<#"@ + decimal(channel_id) + ">"@
}

/// The text `/set_default_channel` edits its response to: a confirmation that
/// mentions the channel when the configuration was stored, else the error's
/// text.
pub open spec fn default_channel_text(channel_id: nat, outcome: Result<(), Seq<char>>) -> Seq<char> {
    match outcome {
        Ok(_) => "Now default logging channel set to "@ + channel_mention(channel_id),
        Err(e) => "Failed to set the default logging channel. Error: "@ + e,
    }
}

/// The text `/set_default_channel` edits its response to, given whether
/// storing the configuration succeeded or the text of its error.
pub fn default_channel_message(channel_id: u64, outcome: &Result<(), String>) -> (s: String)
    ensures
        s@ == default_channel_text(
            channel_id as nat,
            match outcome { Ok(_) => Ok(()), Err(e) => Err(e@) },
        ),
        outcome is Ok ==> exists|t: Seq<char>| {
            &&& s@ == "Now default logging channel set to "@ + "<#"@ + t + ">"@
            &&& all_digits(t)
            &&& parse_decimal(t) == channel_id
        },
{
    proof {
        law_default_channel_text(channel_id, Seq::empty());
    }
    match outcome {
        Ok(_) => {
            let mut s = String::from_str("Now default logging channel set to <#");
            push_decimal(&mut s, channel_id as u128);
            s.append(">");
            proof {
                reveal_strlit("Now default logging channel set to <#");
                reveal_strlit("Now default logging channel set to ");
                reveal_strlit("<#");
                reveal_strlit(">");
                assert(s@ =~= default_channel_text(channel_id as nat, Ok(())));
            }
            s
        },
        Err(e) => {
            let mut s = String::from_str("Failed to set the default logging channel. Error: ");
            s.append(e.as_str());
            s
        },
    }
}

/// The configuration `/set_default_channel` stores names the guild and the
/// channel it was used with: both stored texts are made of digits and read
/// back as the ids, so different guilds or channels are stored differently.
pub proof fn law_default_channel_config_reads_back(guild_id: u64, channel_id: u64)
    ensures
        ({
            let v = default_channel_value(guild_id as nat, channel_id as nat);
            &&& all_digits(v.guild_id) && parse_decimal(v.guild_id) == guild_id
            &&& all_digits(v.default_channel_id) && parse_decimal(v.default_channel_id) == channel_id
        }),
{
    lemma_decimal_reads_back(guild_id as nat);
    lemma_decimal_reads_back(channel_id as nat);
}

/// The `/ping` text is the fixed text, the latency as digits, and " ms"; the
/// digits read back as the latency, for every latency.
pub proof fn law_pong_reports_latency(latency_ms: nat)
    ensures
        exists|t: Seq<char>| {
            &&& pong_text(latency_ms) == "🏓 | Pong! Latency: "@ + t + " ms"@
            &&& all_digits(t)
            &&& parse_decimal(t) == latency_ms
        },
{
    lemma_decimal_reads_back(latency_ms);
    let t = decimal(latency_ms);
    assert(pong_text(latency_ms) == "🏓 | Pong! Latency: "@ + t + " ms"@);
}

/// On success, `/set_default_channel` confirms with the fixed text and a
/// mention `<#t>` of the channel, where `t` is digits that read back as the
/// channel id, for every channel id; on failure it gives the fixed text
/// followed by the error's text unchanged.
pub proof fn law_default_channel_text(channel_id: u64, error: Seq<char>)
    ensures
        exists|t: Seq<char>| {
            &&& default_channel_text(channel_id as nat, Ok(()))
                == "Now default logging channel set to "@ + "<#"@ + t + ">"@
            &&& all_digits(t)
            &&& parse_decimal(t) == channel_id
        },
        default_channel_text(channel_id as nat, Err(error))
            == "Failed to set the default logging channel. Error: "@ + error,
{
    lemma_decimal_reads_back(channel_id as nat);
    let t = decimal(channel_id as nat);
    assert(default_channel_text(channel_id as nat, Ok(()))
        == "Now default logging channel set to "@ + "<#"@ + t + ">"@);
}

} // verus!
