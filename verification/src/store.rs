//! The decisions of the store operations that take several round trips to the
//! database: `upsert_guild`, `update_guild_config` and `upsert_guild_config`.
//!
//! Each operation is a machine. `start` gives the machine and its first
//! request; the caller performs each request against the database and hands
//! the reply to `resume`, which gives the next request or the operation's
//! result.

use vstd::prelude::*;

use crate::models::{
    GuildConfigInsertValue, GuildConfigRequest, GuildConfigRow, GuildConfigStruct, GuildRow,
    GuildStruct,
};

verus! {

/// How a database call failed: no row matched, or any other error `E`.
pub enum DbError<E> {
    RowNotFound,
    Other(E),
}

/// A round trip to the database.
pub enum StoreRequest {
    /// Read the guild row with this Discord id.
    FindGuild(String),
    /// Create a guild row for this Discord id.
    InsertGuild(String),
    /// Read the configuration row of the guild row with this uuid.
    FindGuildConfig(u128),
    /// Create the configuration row of the guild row with this uuid.
    InsertGuildConfig(u128, GuildConfigInsertValue),
    /// Set the default channel of the configuration row with this uuid.
    UpdateGuildConfig(u128, String),
}

pub enum StoreRequestView {
    FindGuild(Seq<char>),
    InsertGuild(Seq<char>),
    FindGuildConfig(u128),
    InsertGuildConfig(u128, GuildConfigRequest),
    UpdateGuildConfig(u128, Seq<char>),
}

impl View for StoreRequest {
    type V = StoreRequestView;

    open spec fn view(&self) -> StoreRequestView {
        match self {
            StoreRequest::FindGuild(g) => StoreRequestView::FindGuild(g@),
            StoreRequest::InsertGuild(g) => StoreRequestView::InsertGuild(g@),
            StoreRequest::FindGuildConfig(id) => StoreRequestView::FindGuildConfig(*id),
            StoreRequest::InsertGuildConfig(id, c) => StoreRequestView::InsertGuildConfig(*id, c@),
            StoreRequest::UpdateGuildConfig(id, ch) => StoreRequestView::UpdateGuildConfig(*id, ch@),
        }
    }
}

/// The database's answer to a request: guild requests are answered with a
/// guild row, configuration requests with a configuration row.
pub enum StoreReply<E> {
    Guild(Result<GuildStruct, DbError<E>>),
    GuildConfig(Result<GuildConfigStruct, DbError<E>>),
}

pub enum StoreReplyView<E> {
    Guild(Result<GuildRow, DbError<E>>),
    GuildConfig(Result<GuildConfigRow, DbError<E>>),
}

/// The view of a database result.
pub open spec fn result_view<T: View, E>(r: Result<T, DbError<E>>) -> Result<T::V, DbError<E>> {
    match r {
        Ok(t) => Ok(t@),
        Err(e) => Err(e),
    }
}

impl<E> View for StoreReply<E> {
    type V = StoreReplyView<E>;

    open spec fn view(&self) -> StoreReplyView<E> {
        match self {
            StoreReply::Guild(r) => StoreReplyView::Guild(result_view(*r)),
            StoreReply::GuildConfig(r) => StoreReplyView::GuildConfig(result_view(*r)),
        }
    }
}

/// The reply is of the kind that answers the request.
pub open spec fn answers<E>(request: StoreRequestView, reply: StoreReplyView<E>) -> bool {
    match request {
        StoreRequestView::FindGuild(_) | StoreRequestView::InsertGuild(_) => reply is Guild,
        _ => reply is GuildConfig,
    }
}

/// What a machine does next: ask the database, or end with a result.
pub enum Step<T, E> {
    Request(StoreRequest),
    Done(Result<T, DbError<E>>),
}

pub enum StepView<T, E> {
    Request(StoreRequestView),
    Done(Result<T, DbError<E>>),
}

impl<T: View, E> View for Step<T, E> {
    type V = StepView<T::V, E>;

    open spec fn view(&self) -> StepView<T::V, E> {
        match self {
            Step::Request(r) => StepView::Request(r@),
            Step::Done(r) => StepView::Done(result_view(*r)),
        }
    }
}

// ---------------------------------------------------------------------------
// upsert_guild

/// Where `upsert_guild` stands.
#[derive(Clone, Copy, PartialEq, Eq, Structural)]
pub enum UpsertGuildPhase {
    /// Waiting for the guild lookup.
    FindingGuild,
    /// Waiting for the guild insert.
    InsertingGuild,
    Finished,
}

/// Finds the guild row of a Discord guild, creating it when there is none.
pub struct UpsertGuild {
    pub guild_id: String,
    pub phase: UpsertGuildPhase,
}

pub struct UpsertGuildState {
    pub guild_id: Seq<char>,
    pub phase: UpsertGuildPhase,
}

impl View for UpsertGuild {
    type V = UpsertGuildState;

    open spec fn view(&self) -> UpsertGuildState {
        UpsertGuildState { guild_id: self.guild_id@, phase: self.phase }
    }
}

/// The machine `upsert_guild` begins in, and its first request: look the guild up.
pub open spec fn upsert_guild_start(guild_id: Seq<char>) -> (UpsertGuildState, StoreRequestView) {
    (
        UpsertGuildState { guild_id, phase: UpsertGuildPhase::FindingGuild },
        StoreRequestView::FindGuild(guild_id),
    )
}

/// `upsert_guild` takes this reply: a guild reply while it is not finished.
pub open spec fn upsert_guild_accepts<E>(s: UpsertGuildState, reply: StoreReplyView<E>) -> bool {
    s.phase != UpsertGuildPhase::Finished && reply is Guild
}

/// One step of `upsert_guild`: a found guild is the result; a lookup that
/// found no row leads to an insert, whose reply is the result; any other
/// failure is the result.
pub open spec fn upsert_guild_next<E>(s: UpsertGuildState, reply: StoreReplyView<E>) -> (UpsertGuildState, StepView<GuildRow, E>) {
    let finished = UpsertGuildState { guild_id: s.guild_id, phase: UpsertGuildPhase::Finished };
    match reply {
        StoreReplyView::Guild(r) => {
            if s.phase == UpsertGuildPhase::FindingGuild {
                match r {
                    Err(DbError::RowNotFound) => (
                        UpsertGuildState { guild_id: s.guild_id, phase: UpsertGuildPhase::InsertingGuild },
                        StepView::Request(StoreRequestView::InsertGuild(s.guild_id)),
                    ),
                    _ => (finished, StepView::Done(r)),
                }
            } else {
                (finished, StepView::Done(r))
            }
        },
        StoreReplyView::GuildConfig(_) => (finished, StepView::Done(Err(DbError::RowNotFound))),
    }
}

/// How many replies `upsert_guild` can still take, at most.
pub open spec fn upsert_guild_pending(s: UpsertGuildState) -> nat {
    match s.phase {
        UpsertGuildPhase::FindingGuild => 2,
        UpsertGuildPhase::InsertingGuild => 1,
        UpsertGuildPhase::Finished => 0,
    }
}

impl UpsertGuild {
    /// Begins `upsert_guild` for a Discord guild id.
    pub fn start(guild_id: String) -> (r: (UpsertGuild, StoreRequest))
        ensures
            (r.0@, r.1@) == upsert_guild_start(guild_id@),
    {
        let request = StoreRequest::FindGuild(guild_id.clone());
        (UpsertGuild { guild_id, phase: UpsertGuildPhase::FindingGuild }, request)
    }

    /// Takes the reply to the last request.
    pub fn resume<E>(self, reply: StoreReply<E>) -> (r: (UpsertGuild, Step<GuildStruct, E>))
        requires
            upsert_guild_accepts(self@, reply@),
        ensures
            (r.0@, r.1@) == upsert_guild_next(self@, reply@),
    {
        let UpsertGuild { guild_id, phase } = self;
        match reply {
            StoreReply::Guild(r) => {
                if phase == UpsertGuildPhase::FindingGuild {
                    match r {
                        Err(DbError::RowNotFound) => {
                            let request = StoreRequest::InsertGuild(guild_id.clone());
                            (UpsertGuild { guild_id, phase: UpsertGuildPhase::InsertingGuild }, Step::Request(request))
                        },
                        _ => (UpsertGuild { guild_id, phase: UpsertGuildPhase::Finished }, Step::Done(r)),
                    }
                } else {
                    (UpsertGuild { guild_id, phase: UpsertGuildPhase::Finished }, Step::Done(r))
                }
            },
            StoreReply::GuildConfig(_) => {
                (UpsertGuild { guild_id, phase: UpsertGuildPhase::Finished }, Step::Done(Err(DbError::RowNotFound)))
            },
        }
    }
}

// ---------------------------------------------------------------------------
// update_guild_config

/// Where `update_guild_config` stands.
#[derive(Clone, Copy, PartialEq, Eq, Structural)]
pub enum UpdateGuildConfigPhase {
    /// Waiting for the lookup of the guild row.
    FindingGuild,
    /// Waiting for the lookup of the guild's configuration row.
    FindingConfig,
    /// Waiting for the update of the configuration row.
    Updating,
    Finished,
}

/// Sets the default channel of the configuration of an existing guild: looks
/// the guild row up by its Discord id, then its configuration row by the
/// guild row's uuid, then updates that row.
pub struct UpdateGuildConfig {
    pub config: GuildConfigInsertValue,
    pub phase: UpdateGuildConfigPhase,
}

pub struct UpdateGuildConfigState {
    pub config: GuildConfigRequest,
    pub phase: UpdateGuildConfigPhase,
}

impl View for UpdateGuildConfig {
    type V = UpdateGuildConfigState;

    open spec fn view(&self) -> UpdateGuildConfigState {
        UpdateGuildConfigState { config: self.config@, phase: self.phase }
    }
}

/// The machine `update_guild_config` begins in, and its first request.
pub open spec fn update_guild_config_start(config: GuildConfigRequest) -> (UpdateGuildConfigState, StoreRequestView) {
    (
        UpdateGuildConfigState { config, phase: UpdateGuildConfigPhase::FindingGuild },
        StoreRequestView::FindGuild(config.guild_id),
    )
}

/// `update_guild_config` takes this reply: one of the kind its last request asked for.
pub open spec fn update_guild_config_accepts<E>(s: UpdateGuildConfigState, reply: StoreReplyView<E>) -> bool {
    match s.phase {
        UpdateGuildConfigPhase::FindingGuild => reply is Guild,
        UpdateGuildConfigPhase::FindingConfig | UpdateGuildConfigPhase::Updating => reply is GuildConfig,
        UpdateGuildConfigPhase::Finished => false,
    }
}

/// One step of `update_guild_config`: any failed lookup is the result; the
/// found guild leads to the lookup of its configuration, the found
/// configuration to its update with the requested channel, and the update's
/// reply is the result.
pub open spec fn update_guild_config_next<E>(s: UpdateGuildConfigState, reply: StoreReplyView<E>) -> (UpdateGuildConfigState, StepView<GuildConfigRow, E>) {
    let finished = UpdateGuildConfigState { config: s.config, phase: UpdateGuildConfigPhase::Finished };
    match reply {
        StoreReplyView::Guild(r) => match r {
            Ok(g) => (
                UpdateGuildConfigState { config: s.config, phase: UpdateGuildConfigPhase::FindingConfig },
                StepView::Request(StoreRequestView::FindGuildConfig(g.id)),
            ),
            Err(e) => (finished, StepView::Done(Err(e))),
        },
        StoreReplyView::GuildConfig(r) => {
            if s.phase == UpdateGuildConfigPhase::FindingConfig {
                match r {
                    Ok(c) => (
                        UpdateGuildConfigState { config: s.config, phase: UpdateGuildConfigPhase::Updating },
                        StepView::Request(StoreRequestView::UpdateGuildConfig(c.id, s.config.default_channel_id)),
                    ),
                    Err(e) => (finished, StepView::Done(Err(e))),
                }
            } else {
                (finished, StepView::Done(r))
            }
        },
    }
}

/// How many replies `update_guild_config` can still take, at most.
pub open spec fn update_guild_config_pending(s: UpdateGuildConfigState) -> nat {
    match s.phase {
        UpdateGuildConfigPhase::FindingGuild => 3,
        UpdateGuildConfigPhase::FindingConfig => 2,
        UpdateGuildConfigPhase::Updating => 1,
        UpdateGuildConfigPhase::Finished => 0,
    }
}

impl UpdateGuildConfig {
    /// Begins `update_guild_config`.
    pub fn start(config: GuildConfigInsertValue) -> (r: (UpdateGuildConfig, StoreRequest))
        ensures
            (r.0@, r.1@) == update_guild_config_start(config@),
    {
        let request = StoreRequest::FindGuild(config.guild_id.clone());
        (UpdateGuildConfig { config, phase: UpdateGuildConfigPhase::FindingGuild }, request)
    }

    /// Takes the reply to the last request.
    pub fn resume<E>(self, reply: StoreReply<E>) -> (r: (UpdateGuildConfig, Step<GuildConfigStruct, E>))
        requires
            update_guild_config_accepts(self@, reply@),
        ensures
            (r.0@, r.1@) == update_guild_config_next(self@, reply@),
    {
        let UpdateGuildConfig { config, phase } = self;
        match reply {
            StoreReply::Guild(r) => match r {
                Ok(g) => (
                    UpdateGuildConfig { config, phase: UpdateGuildConfigPhase::FindingConfig },
                    Step::Request(StoreRequest::FindGuildConfig(g.id)),
                ),
                Err(e) => (UpdateGuildConfig { config, phase: UpdateGuildConfigPhase::Finished }, Step::Done(Err(e))),
            },
            StoreReply::GuildConfig(r) => {
                if phase == UpdateGuildConfigPhase::FindingConfig {
                    match r {
                        Ok(c) => {
                            let request = StoreRequest::UpdateGuildConfig(c.id, config.default_channel_id.clone());
                            (UpdateGuildConfig { config, phase: UpdateGuildConfigPhase::Updating }, Step::Request(request))
                        },
                        Err(e) => (UpdateGuildConfig { config, phase: UpdateGuildConfigPhase::Finished }, Step::Done(Err(e))),
                    }
                } else {
                    (UpdateGuildConfig { config, phase: UpdateGuildConfigPhase::Finished }, Step::Done(r))
                }
            },
        }
    }
}

// ---------------------------------------------------------------------------
// upsert_guild_config

/// Where `upsert_guild_config` stands.
pub enum UpsertGuildConfigPhase {
    /// Running `upsert_guild` for the guild.
    UpsertingGuild(UpsertGuild),
    /// Waiting for the lookup of the configuration of the guild row with this uuid.
    FindingConfig(u128),
    /// Running `update_guild_config`.
    Updating(UpdateGuildConfig),
    /// Waiting for the insert of the configuration row.
    InsertingConfig,
    Finished,
}

pub enum UpsertGuildConfigPhaseView {
    UpsertingGuild(UpsertGuildState),
    FindingConfig(u128),
    Updating(UpdateGuildConfigState),
    InsertingConfig,
    Finished,
}

/// Stores the default channel of a guild: makes sure the guild row exists,
/// then updates its configuration row, or creates it when there is none.
pub struct UpsertGuildConfig {
    pub config: GuildConfigInsertValue,
    pub phase: UpsertGuildConfigPhase,
}

pub struct UpsertGuildConfigState {
    pub config: GuildConfigRequest,
    pub phase: UpsertGuildConfigPhaseView,
}

impl View for UpsertGuildConfig {
    type V = UpsertGuildConfigState;

    open spec fn view(&self) -> UpsertGuildConfigState {
        UpsertGuildConfigState {
            config: self.config@,
            phase: match self.phase {
                UpsertGuildConfigPhase::UpsertingGuild(m) => UpsertGuildConfigPhaseView::UpsertingGuild(m@),
                UpsertGuildConfigPhase::FindingConfig(id) => UpsertGuildConfigPhaseView::FindingConfig(id),
                UpsertGuildConfigPhase::Updating(m) => UpsertGuildConfigPhaseView::Updating(m@),
                UpsertGuildConfigPhase::InsertingConfig => UpsertGuildConfigPhaseView::InsertingConfig,
                UpsertGuildConfigPhase::Finished => UpsertGuildConfigPhaseView::Finished,
            },
        }
    }
}

/// The machine `upsert_guild_config` begins in, and its first request: it
/// begins with `upsert_guild` for the requested guild.
pub open spec fn upsert_guild_config_start(config: GuildConfigRequest) -> (UpsertGuildConfigState, StoreRequestView) {
    let (inner, request) = upsert_guild_start(config.guild_id);
    (UpsertGuildConfigState { config, phase: UpsertGuildConfigPhaseView::UpsertingGuild(inner) }, request)
}

/// `upsert_guild_config` takes this reply: one of the kind its last request asked for.
pub open spec fn upsert_guild_config_accepts<E>(s: UpsertGuildConfigState, reply: StoreReplyView<E>) -> bool {
    match s.phase {
        UpsertGuildConfigPhaseView::UpsertingGuild(m) => upsert_guild_accepts(m, reply),
        UpsertGuildConfigPhaseView::FindingConfig(_) => reply is GuildConfig,
        UpsertGuildConfigPhaseView::Updating(m) => update_guild_config_accepts(m, reply),
        UpsertGuildConfigPhaseView::InsertingConfig => reply is GuildConfig,
        UpsertGuildConfigPhaseView::Finished => false,
    }
}

/// One step of `upsert_guild_config`. While `upsert_guild` runs, its requests
/// are passed on; its failure is the result, and the guild row it gives leads
/// to the lookup of that row's configuration. A found configuration leads to
/// `update_guild_config` with the requested value, whose result is the result;
/// a lookup that found no row leads to the insert of the configuration for
/// that guild row, whose reply is the result; any other failure is the result.
pub open spec fn upsert_guild_config_next<E>(s: UpsertGuildConfigState, reply: StoreReplyView<E>) -> (UpsertGuildConfigState, StepView<GuildConfigRow, E>) {
    let finished = UpsertGuildConfigState { config: s.config, phase: UpsertGuildConfigPhaseView::Finished };
    match s.phase {
        UpsertGuildConfigPhaseView::UpsertingGuild(m) => {
            let (m2, step) = upsert_guild_next(m, reply);
            match step {
                StepView::Request(request) => (
                    UpsertGuildConfigState { config: s.config, phase: UpsertGuildConfigPhaseView::UpsertingGuild(m2) },
                    StepView::Request(request),
                ),
                StepView::Done(Ok(g)) => (
                    UpsertGuildConfigState { config: s.config, phase: UpsertGuildConfigPhaseView::FindingConfig(g.id) },
                    StepView::Request(StoreRequestView::FindGuildConfig(g.id)),
                ),
                StepView::Done(Err(e)) => (finished, StepView::Done(Err(e))),
            }
        },
        UpsertGuildConfigPhaseView::FindingConfig(guild_row) => match reply {
            StoreReplyView::GuildConfig(Ok(_)) => {
                let (m, request) = update_guild_config_start(s.config);
                (
                    UpsertGuildConfigState { config: s.config, phase: UpsertGuildConfigPhaseView::Updating(m) },
                    StepView::Request(request),
                )
            },
            StoreReplyView::GuildConfig(Err(DbError::RowNotFound)) => (
                UpsertGuildConfigState { config: s.config, phase: UpsertGuildConfigPhaseView::InsertingConfig },
                StepView::Request(StoreRequestView::InsertGuildConfig(guild_row, s.config)),
            ),
            StoreReplyView::GuildConfig(Err(e)) => (finished, StepView::Done(Err(e))),
            StoreReplyView::Guild(_) => (finished, StepView::Done(Err(DbError::RowNotFound))),
        },
        UpsertGuildConfigPhaseView::Updating(m) => {
            let (m2, step) = update_guild_config_next(m, reply);
            match step {
                StepView::Request(request) => (
                    UpsertGuildConfigState { config: s.config, phase: UpsertGuildConfigPhaseView::Updating(m2) },
                    StepView::Request(request),
                ),
                StepView::Done(r) => (finished, StepView::Done(r)),
            }
        },
        _ => match reply {
            StoreReplyView::GuildConfig(r) => (finished, StepView::Done(r)),
            StoreReplyView::Guild(_) => (finished, StepView::Done(Err(DbError::RowNotFound))),
        },
    }
}

/// How many replies `upsert_guild_config` can still take, at most.
pub open spec fn upsert_guild_config_pending(s: UpsertGuildConfigState) -> nat {
    match s.phase {
        UpsertGuildConfigPhaseView::UpsertingGuild(m) => upsert_guild_pending(m) + 4,
        UpsertGuildConfigPhaseView::FindingConfig(_) => 4,
        UpsertGuildConfigPhaseView::Updating(m) => update_guild_config_pending(m),
        UpsertGuildConfigPhaseView::InsertingConfig => 1,
        UpsertGuildConfigPhaseView::Finished => 0,
    }
}

impl UpsertGuildConfig {
    /// Begins `upsert_guild_config`.
    pub fn start(config: GuildConfigInsertValue) -> (r: (UpsertGuildConfig, StoreRequest))
        ensures
            (r.0@, r.1@) == upsert_guild_config_start(config@),
    {
        let (inner, request) = UpsertGuild::start(config.guild_id.clone());
        (UpsertGuildConfig { config, phase: UpsertGuildConfigPhase::UpsertingGuild(inner) }, request)
    }

    /// Takes the reply to the last request.
    pub fn resume<E>(self, reply: StoreReply<E>) -> (r: (UpsertGuildConfig, Step<GuildConfigStruct, E>))
        requires
            upsert_guild_config_accepts(self@, reply@),
        ensures
            (r.0@, r.1@) == upsert_guild_config_next(self@, reply@),
    {
        let UpsertGuildConfig { config, phase } = self;
        match phase {
            UpsertGuildConfigPhase::UpsertingGuild(m) => {
                let (m2, step) = m.resume(reply);
                match step {
                    Step::Request(request) => (
                        UpsertGuildConfig { config, phase: UpsertGuildConfigPhase::UpsertingGuild(m2) },
                        Step::Request(request),
                    ),
                    Step::Done(Ok(g)) => (
                        UpsertGuildConfig { config, phase: UpsertGuildConfigPhase::FindingConfig(g.id) },
                        Step::Request(StoreRequest::FindGuildConfig(g.id)),
                    ),
                    Step::Done(Err(e)) => (UpsertGuildConfig { config, phase: UpsertGuildConfigPhase::Finished }, Step::Done(Err(e))),
                }
            },
            UpsertGuildConfigPhase::FindingConfig(guild_row) => match reply {
                StoreReply::GuildConfig(Ok(_)) => {
                    let (m, request) = UpdateGuildConfig::start(config.duplicate());
                    (UpsertGuildConfig { config, phase: UpsertGuildConfigPhase::Updating(m) }, Step::Request(request))
                },
                StoreReply::GuildConfig(Err(DbError::RowNotFound)) => {
                    let request = StoreRequest::InsertGuildConfig(guild_row, config.duplicate());
                    (UpsertGuildConfig { config, phase: UpsertGuildConfigPhase::InsertingConfig }, Step::Request(request))
                },
                StoreReply::GuildConfig(Err(e)) => (UpsertGuildConfig { config, phase: UpsertGuildConfigPhase::Finished }, Step::Done(Err(e))),
                StoreReply::Guild(_) => (UpsertGuildConfig { config, phase: UpsertGuildConfigPhase::Finished }, Step::Done(Err(DbError::RowNotFound))),
            },
            UpsertGuildConfigPhase::Updating(m) => {
                let (m2, step) = m.resume(reply);
                match step {
                    Step::Request(request) => (
                        UpsertGuildConfig { config, phase: UpsertGuildConfigPhase::Updating(m2) },
                        Step::Request(request),
                    ),
                    Step::Done(r) => (UpsertGuildConfig { config, phase: UpsertGuildConfigPhase::Finished }, Step::Done(r)),
                }
            },
            _ => match reply {
                StoreReply::GuildConfig(r) => (UpsertGuildConfig { config, phase: UpsertGuildConfigPhase::Finished }, Step::Done(r)),
                StoreReply::Guild(_) => (UpsertGuildConfig { config, phase: UpsertGuildConfigPhase::Finished }, Step::Done(Err(DbError::RowNotFound))),
            },
        }
    }
}

// ---------------------------------------------------------------------------
// Laws

/// `upsert_guild` returns a guild that the lookup found as it is, and then
/// makes no further request: an existing guild is never inserted again.
pub proof fn law_upsert_guild_keeps_existing<E>(s: UpsertGuildState, g: GuildRow)
    requires
        s.phase == UpsertGuildPhase::FindingGuild,
    ensures
        upsert_guild_next(s, StoreReplyView::<E>::Guild(Ok(g)))
            == (UpsertGuildState { guild_id: s.guild_id, phase: UpsertGuildPhase::Finished }, StepView::<GuildRow, E>::Done(Ok(g))),
{
}

/// `upsert_guild` asks to insert a guild only right after its lookup found no
/// row, and then inserts the Discord id it was started with; a lookup that
/// failed in any other way ends it with that failure.
pub proof fn law_upsert_guild_inserts_only_missing<E>(s: UpsertGuildState, reply: StoreReplyView<E>)
    requires
        upsert_guild_accepts(s, reply),
    ensures
        ({
            let (s2, step) = upsert_guild_next(s, reply);
            &&& (step is Request) <==> (s.phase == UpsertGuildPhase::FindingGuild && reply == StoreReplyView::<E>::Guild(Err(DbError::RowNotFound)))
            &&& step is Request ==> step == StepView::<GuildRow, E>::Request(StoreRequestView::InsertGuild(s.guild_id))
            &&& reply matches StoreReplyView::Guild(Err(DbError::Other(e)))
                ==> (s.phase == UpsertGuildPhase::FindingGuild ==> step == StepView::<GuildRow, E>::Done(Err(DbError::Other(e))))
        }),
{
}

/// `upsert_guild` makes at most two round trips: each reply either ends it or
/// leaves fewer replies to come, and it then takes exactly the kind of reply
/// that answers its new request.
pub proof fn law_upsert_guild_progress<E>(s: UpsertGuildState, reply: StoreReplyView<E>, next_reply: StoreReplyView<E>)
    requires
        upsert_guild_accepts(s, reply),
    ensures
        upsert_guild_pending(upsert_guild_start(s.guild_id).0) == 2,
        upsert_guild_accepts(upsert_guild_start(s.guild_id).0, next_reply) <==> answers(upsert_guild_start(s.guild_id).1, next_reply),
        1 <= upsert_guild_pending(s),
        ({
            let (s2, step) = upsert_guild_next(s, reply);
            &&& step is Done ==> s2.phase == UpsertGuildPhase::Finished
            &&& step matches StepView::Request(r) ==> {
                &&& 1 <= upsert_guild_pending(s2) < upsert_guild_pending(s)
                &&& (upsert_guild_accepts(s2, next_reply) <==> answers(r, next_reply))
            }
        }),
{
}

/// `update_guild_config` makes at most three round trips, in the same sense.
pub proof fn law_update_guild_config_progress<E>(s: UpdateGuildConfigState, reply: StoreReplyView<E>, next_reply: StoreReplyView<E>)
    requires
        update_guild_config_accepts(s, reply),
    ensures
        update_guild_config_pending(update_guild_config_start(s.config).0) == 3,
        update_guild_config_accepts(update_guild_config_start(s.config).0, next_reply)
            <==> answers(update_guild_config_start(s.config).1, next_reply),
        1 <= update_guild_config_pending(s),
        ({
            let (s2, step) = update_guild_config_next(s, reply);
            &&& step is Done ==> s2.phase == UpdateGuildConfigPhase::Finished
            &&& step matches StepView::Request(r) ==> {
                &&& 1 <= update_guild_config_pending(s2) < update_guild_config_pending(s)
                &&& (update_guild_config_accepts(s2, next_reply) <==> answers(r, next_reply))
                &&& s2.config == s.config
            }
        }),
{
}

/// `update_guild_config` updates the configuration row that its lookup found,
/// with the requested channel, and looks that row up by the uuid of the guild
/// row found for the requested guild.
pub proof fn law_update_guild_config_targets<E>(s: UpdateGuildConfigState, reply: StoreReplyView<E>)
    requires
        update_guild_config_accepts(s, reply),
    ensures
        ({
            let (s2, step) = update_guild_config_next(s, reply);
            &&& update_guild_config_start(s.config).1 == StoreRequestView::FindGuild(s.config.guild_id)
            &&& reply matches StoreReplyView::Guild(Ok(g))
                ==> step == StepView::<GuildConfigRow, E>::Request(StoreRequestView::FindGuildConfig(g.id))
            &&& reply matches StoreReplyView::GuildConfig(Ok(c))
                ==> (s.phase == UpdateGuildConfigPhase::FindingConfig
                    ==> step == StepView::<GuildConfigRow, E>::Request(StoreRequestView::UpdateGuildConfig(c.id, s.config.default_channel_id)))
        }),
{
}

/// The machines nested in `upsert_guild_config` work for the guild and the
/// value it was started with.
pub open spec fn upsert_guild_config_wf(s: UpsertGuildConfigState) -> bool {
    match s.phase {
        UpsertGuildConfigPhaseView::UpsertingGuild(m) => m.guild_id == s.config.guild_id,
        UpsertGuildConfigPhaseView::Updating(m) => m.config == s.config,
        _ => true,
    }
}

/// `upsert_guild_config` makes at most six round trips: each reply either
/// ends it or leaves fewer replies to come, and it then takes exactly the kind
/// of reply that answers its new request. Its nested machines keep working
/// for the value it was started with.
pub proof fn law_upsert_guild_config_progress<E>(s: UpsertGuildConfigState, reply: StoreReplyView<E>, next_reply: StoreReplyView<E>)
    requires
        upsert_guild_config_wf(s),
        upsert_guild_config_accepts(s, reply),
    ensures
        upsert_guild_config_wf(upsert_guild_config_start(s.config).0),
        upsert_guild_config_pending(upsert_guild_config_start(s.config).0) == 6,
        upsert_guild_config_accepts(upsert_guild_config_start(s.config).0, next_reply)
            <==> answers(upsert_guild_config_start(s.config).1, next_reply),
        1 <= upsert_guild_config_pending(s),
        ({
            let (s2, step) = upsert_guild_config_next(s, reply);
            &&& s2.config == s.config
            &&& upsert_guild_config_wf(s2)
            &&& step is Done ==> s2.phase is Finished
            &&& step matches StepView::Request(r) ==> {
                &&& 1 <= upsert_guild_config_pending(s2) < upsert_guild_config_pending(s)
                &&& (upsert_guild_config_accepts(s2, next_reply) <==> answers(r, next_reply))
            }
        }),
{
    let (s2, step) = upsert_guild_config_next(s, reply);
    match s.phase {
        UpsertGuildConfigPhaseView::UpsertingGuild(m) => {
            law_upsert_guild_progress(m, reply, next_reply);
        },
        UpsertGuildConfigPhaseView::FindingConfig(_) => {
            law_update_guild_config_progress(
                update_guild_config_start(s.config).0,
                StoreReplyView::<E>::Guild(Err(DbError::RowNotFound)),
                next_reply,
            );
        },
        UpsertGuildConfigPhaseView::Updating(m) => {
            law_update_guild_config_progress(m, reply, next_reply);
        },
        _ => {},
    }
}

/// Every request of `upsert_guild_config` concerns the guild and the channel
/// it was asked to store: guild lookups and inserts carry the requested
/// Discord guild id, every update sets the requested channel, and a
/// configuration is inserted only right after the lookup of the configuration
/// of the upserted guild row found no row, for that guild row and with the
/// requested value. A configuration that exists is updated, never inserted a
/// second time.
pub proof fn law_upsert_guild_config_requests<E>(s: UpsertGuildConfigState, reply: StoreReplyView<E>)
    requires
        upsert_guild_config_wf(s),
        upsert_guild_config_accepts(s, reply),
    ensures
        upsert_guild_config_start(s.config).1 == StoreRequestView::FindGuild(s.config.guild_id),
        ({
            let (s2, step) = upsert_guild_config_next(s, reply);
            &&& step matches StepView::Request(StoreRequestView::FindGuild(g)) ==> g == s.config.guild_id
            &&& step matches StepView::Request(StoreRequestView::InsertGuild(g)) ==> g == s.config.guild_id
            &&& step matches StepView::Request(StoreRequestView::UpdateGuildConfig(_, ch)) ==> ch == s.config.default_channel_id
            &&& step matches StepView::Request(StoreRequestView::InsertGuildConfig(id, c)) ==> {
                &&& s.phase == UpsertGuildConfigPhaseView::FindingConfig(id)
                &&& reply == StoreReplyView::<E>::GuildConfig(Err(DbError::RowNotFound))
                &&& c == s.config
            }
            &&& reply matches StoreReplyView::GuildConfig(Ok(_))
                ==> (s.phase is FindingConfig
                    ==> step == StepView::<GuildConfigRow, E>::Request(StoreRequestView::FindGuild(s.config.guild_id)))
        }),
{
}

/// The result of `upsert_guild` is the database's reply, unchanged: the guild
/// row the lookup or the insert returned, or the error it gave.
pub proof fn law_upsert_guild_result_is_reply<E>(s: UpsertGuildState, reply: StoreReplyView<E>)
    requires
        upsert_guild_accepts(s, reply),
    ensures
        upsert_guild_next(s, reply).1 matches StepView::Done(res) ==> reply == StoreReplyView::<E>::Guild(res),
{
}

/// The result of `update_guild_config` is the database's reply, unchanged: a
/// configuration row only as the update returned it, an error as the lookup
/// or the update gave it.
pub proof fn law_update_guild_config_result_is_reply<E>(s: UpdateGuildConfigState, reply: StoreReplyView<E>)
    requires
        update_guild_config_accepts(s, reply),
    ensures
        upsert_result_is_reply(update_guild_config_next(s, reply).1, reply),
        update_guild_config_next(s, reply).1 matches StepView::Done(Ok(_)) ==> s.phase == UpdateGuildConfigPhase::Updating,
{
}

/// A result that is the database's reply unchanged: a configuration row or
/// error from a configuration reply, or an error from a guild reply.
pub open spec fn upsert_result_is_reply<E>(step: StepView<GuildConfigRow, E>, reply: StoreReplyView<E>) -> bool {
    step matches StepView::Done(res) ==> match res {
        Ok(c) => reply == StoreReplyView::<E>::GuildConfig(Ok(c)),
        Err(e) => reply == StoreReplyView::<E>::GuildConfig(Err(e)) || reply == StoreReplyView::<E>::Guild(Err(e)),
    }
}

/// The result of `upsert_guild_config` is the database's reply, unchanged: the
/// configuration row exactly as the insert or the update of the configuration
/// returned it, or the error a lookup or a write gave. It ends with a row only
/// on the reply to that insert or update.
pub proof fn law_upsert_guild_config_result_is_reply<E>(s: UpsertGuildConfigState, reply: StoreReplyView<E>)
    requires
        upsert_guild_config_accepts(s, reply),
    ensures
        upsert_result_is_reply(upsert_guild_config_next(s, reply).1, reply),
        upsert_guild_config_next(s, reply).1 matches StepView::Done(Ok(_)) ==> (s.phase is InsertingConfig
            || (s.phase matches UpsertGuildConfigPhaseView::Updating(m) && m.phase == UpdateGuildConfigPhase::Updating)),
{
    match s.phase {
        UpsertGuildConfigPhaseView::UpsertingGuild(m) => {
            law_upsert_guild_result_is_reply(m, reply);
        },
        UpsertGuildConfigPhaseView::Updating(m) => {
            law_update_guild_config_result_is_reply(m, reply);
        },
        _ => {},
    }
}

} // verus!
