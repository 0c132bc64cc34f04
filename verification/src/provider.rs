//! The provider: one session's settings and its way to Copilot.

use crate::acp_client::DiscoveredModels;
use crate::catalog::{CatalogSource, CatalogView, ModelCatalog, PersistedCatalog};
use crate::error::CopilotError;
use crate::identity::{get_or_create_machine_id, hex_digit, new_uuid, stored_id, uuid_form};
use crate::initiator::begun_by_user;
use crate::json::{json_views, Json, JsonView};
use crate::message::{
    message_views, str_option, text_option, tool_names, Message, ToolDefinition,
};
use crate::model::{
    context_limit_for_model_with_provider, copilot_context_limit,
    copilot_model_supports_reasoning_effort, copilot_model_uses_responses_api, effort_names,
    is_supported_effort, max_token_parameter, on_responses_api, own_model_name,
    strip_own_model_prefix, supported_efforts, DEFAULT_CONTEXT_WINDOW,
};
use crate::process::CopilotOfficialCliProcess;
use crate::prompt::{
    build_official_prompt, build_stale_fresh_prompt, context_option, holds_history, official_prompt,
    parse_official_session_id, refusal_without_context, upstream_session_id, ProviderTurnContext,
};
use crate::request::{
    add_text, chat_body, chat_payload, law_chat_body_fields, responses_body, responses_payload,
    with_text,
};
use crate::runtime::OfficialTurn;
use crate::text::{
    ascii_lower, blank, contains, contains_text, copy_texts, is_blank, lowercase, texts, trim,
    trimmed, unicode_lower,
};
use crate::tool_policy::{policy_for, CopilotOfficialToolPolicy};
use crate::transport::{
    env_premium_mode, premium_mode_named, selected_transport, transport_named,
    CopilotEnvironment, CopilotTransport, PremiumMode, SessionSettings,
};
use std::sync::Arc;
use vstd::prelude::*;
use vstd::string::*;

verus! {

/// A way to Copilot, with what it needs.
pub enum CopilotBackend {
    Native { github_token: String, session_id: String, machine_id: String },
    OfficialCli { process: CopilotOfficialCliProcess },
}

impl CopilotBackend {
    /// Which way it is.
    pub open spec fn kind(self) -> CopilotTransport {
        match self {
            CopilotBackend::Native { .. } => CopilotTransport::Native,
            CopilotBackend::OfficialCli { .. } => CopilotTransport::OfficialCli,
        }
    }

    /// Which way it is.
    pub fn transport(&self) -> (r: CopilotTransport)
        ensures
            r == self.kind(),
    {
        match self {
            CopilotBackend::Native { .. } => CopilotTransport::Native,
            CopilotBackend::OfficialCli { .. } => CopilotTransport::OfficialCli,
        }
    }
}

/// `Arc::clone`: another pointer to the same value.
#[verifier::external_body]
fn share(backend: &Arc<CopilotBackend>) -> (r: Arc<CopilotBackend>)
    ensures
        r == *backend,
{
    Arc::clone(backend)
}

/// One session's settings and its way to Copilot.
pub struct CopilotApiProvider {
    /// The way to Copilot, which all sessions of a provider share.
    pub backend: Arc<CopilotBackend>,
    pub model: String,
    pub premium_mode: PremiumMode,
    /// The turns of the user so far.
    pub user_turn_count: u64,
    pub reasoning_effort: Option<String>,
    /// The one model whose requests take a reasoning effort.
    pub effort_model: String,
}

/// What a session's settings hold.
pub struct ProviderView {
    pub backend: CopilotBackend,
    pub model: Seq<char>,
    pub premium_mode: PremiumMode,
    pub user_turn_count: u64,
    pub reasoning_effort: Option<Seq<char>>,
    pub effort_model: Seq<char>,
}

impl View for CopilotApiProvider {
    type V = ProviderView;

    open spec fn view(&self) -> ProviderView {
        ProviderView {
            backend: *self.backend,
            model: self.model@,
            premium_mode: self.premium_mode,
            user_turn_count: self.user_turn_count,
            reasoning_effort: text_option(self.reasoning_effort),
            effort_model: self.effort_model@,
        }
    }
}

/// The models that stand in where nothing is known: the one that is chosen
/// where the environment names none, and the one whose requests take a
/// reasoning effort.
#[derive(Debug)]
pub struct KnownModels {
    pub default_model: String,
    pub effort_model: String,
}

/// A session's settings at its beginning.
pub open spec fn initial_provider(
    backend: CopilotBackend,
    settings: SessionSettings,
    known: KnownModels,
) -> ProviderView {
    ProviderView {
        backend,
        model: match text_option(settings.model) {
            Some(model) => model,
            None => known.default_model@,
        },
        premium_mode: premium_mode_named(text_option(settings.premium)),
        user_turn_count: 0,
        reasoning_effort: None,
        effort_model: known.effort_model@,
    }
}

/// Whether a machine's identifier is the one that was stored, or a new one.
pub open spec fn machine_id_for(stored: Option<Seq<char>>, id: Seq<char>) -> bool {
    match stored_id(stored) {
        Some(known) => id == known,
        None => id.len() == 32 && forall|i: int| 0 <= i < 32 ==> hex_digit(#[trigger] id[i]),
    }
}

/// A model that Copilot serves.
#[derive(Debug)]
pub struct CopilotModel {
    pub id: String,
    pub model_picker_enabled: bool,
}

/// The names of models.
pub open spec fn model_ids(models: Seq<CopilotModel>) -> Seq<Seq<char>> {
    models.map_values(|model: CopilotModel| model.id@)
}

/// The names of the models that are offered for choice.
pub open spec fn picker_ids(models: Seq<CopilotModel>) -> Seq<Seq<char>>
    decreases models.len(),
{
    if models.len() == 0 {
        Seq::empty()
    } else if models.last().model_picker_enabled {
        picker_ids(models.drop_last()).push(models.last().id@)
    } else {
        picker_ids(models.drop_last())
    }
}

/// The models that are shown: those that are offered for choice, or all where
/// none is.
pub open spec fn display_ids(models: Seq<CopilotModel>) -> Seq<Seq<char>> {
    if picker_ids(models).len() == 0 {
        model_ids(models)
    } else {
        picker_ids(models)
    }
}

/// The models that are shown: those that are offered for choice, or all where
/// none is.
fn display_models(models: &Vec<CopilotModel>) -> (r: Vec<String>)
    ensures
        texts(r@) == display_ids(models@),
{
    let mut picked: Vec<String> = Vec::new();
    let mut all: Vec<String> = Vec::new();
    let mut i: usize = 0;
    proof {
        assert(models@.take(0) =~= Seq::empty());
        assert(texts(picked@) =~= Seq::empty());
        assert(texts(all@) =~= model_ids(models@.take(0)));
    }
    while i < models.len()
        invariant
            i <= models.len(),
            texts(picked@) == picker_ids(models@.take(i as int)),
            texts(all@) == model_ids(models@.take(i as int)),
        decreases models.len() - i,
    {
        let ghost picked_before = picked@;
        let ghost all_before = all@;
        proof {
            assert(models@.take(i + 1).drop_last() =~= models@.take(i as int));
            assert(models@.take(i + 1).last() == models@[i as int]);
        }
        if models[i].model_picker_enabled {
            picked.push(models[i].id.clone());
            assert(texts(picked@) =~= texts(picked_before).push(models@[i as int].id@));
        }
        all.push(models[i].id.clone());
        proof {
            assert(texts(all@) =~= texts(all_before).push(models@[i as int].id@));
            assert(texts(all@) =~= model_ids(models@.take(i + 1)));
        }
        i += 1;
    }
    assert(models@.take(i as int) =~= models@);
    assert(texts(picked@).len() == picked@.len());
    if picked.len() == 0 {
        all
    } else {
        picked
    }
}

/// What is done to find out which models there are.
#[derive(Clone, Copy, Debug, PartialEq, Eq, Structural)]
pub enum TierAction {
    /// The official CLI is asked whether it is there.
    ProbeOfficialCli,
    /// Nothing: the environment names the model.
    KeepModel,
    /// The service is asked.
    FetchModels,
}

/// What has come of it.
#[derive(Debug)]
pub enum TierOutcome {
    /// The official CLI was asked.
    Probed,
    /// The environment names the model.
    Kept,
    /// There was no token.
    NoToken,
    /// The service did not answer.
    NotFetched,
    /// The service has named its models, of which one is the best.
    Fetched { models: Vec<CopilotModel>, best: String },
}

/// What is done about the list of models before it is needed.
#[derive(Clone, Copy, Debug, PartialEq, Eq, Structural)]
pub enum PrefetchAction {
    /// The official CLI is asked for its models.
    Discover,
    /// Nothing: the provider has only just begun.
    Skip,
    /// The service is asked for its models.
    Detect,
}

/// What a turn on the official CLI needs.
#[derive(Debug)]
pub struct OfficialTurnPlan {
    pub tool_policy: CopilotOfficialToolPolicy,
    pub selected_model: String,
    pub resume_session_id: Option<String>,
    pub prompt: String,
    pub fresh_prompt: String,
}

impl OfficialTurnPlan {
    /// The turn, under the number that the worker has given it.
    pub fn into_turn(self, generation: u64) -> (turn: OfficialTurn)
        ensures
            turn.generation == generation,
            turn.selected_model == self.selected_model,
            turn.resume_session_id == self.resume_session_id,
            turn.prompt == self.prompt,
            turn.fresh_prompt == self.fresh_prompt,
    {
        OfficialTurn {
            generation,
            selected_model: self.selected_model,
            resume_session_id: self.resume_session_id,
            prompt: self.prompt,
            fresh_prompt: self.fresh_prompt,
        }
    }
}

/// What a turn on the native transport is begun with.
#[derive(Debug)]
pub struct NativeTurn {
    pub is_user_initiated: bool,
    pub model: String,
    pub uses_responses_api: bool,
}

/// A bearer token that was fetched earlier.
#[derive(Debug)]
pub struct CachedToken {
    pub token: String,
    pub expired: bool,
}

/// The token that was fetched earlier, where it is still good.
pub open spec fn usable(cached: Option<&CachedToken>) -> Option<Seq<char>> {
    match cached {
        Some(cached) if !cached.expired => Some(cached.token@),
        _ => None,
    }
}

/// The token that was fetched earlier, where it is still good.
pub fn usable_token(cached: Option<&CachedToken>) -> (r: Option<String>)
    ensures
        text_option(r) == usable(cached),
{
    match cached {
        Some(cached) => if cached.expired {
            None
        } else {
            Some(cached.token.clone())
        },
        None => None,
    }
}

impl ProviderView {
    /// Whether the session's turns are run by the official CLI.
    pub open spec fn official(self) -> bool {
        self.backend.kind() == CopilotTransport::OfficialCli
    }

    /// Whether a turn counts as one of the user.
    pub open spec fn counts_as_user(self, raw: bool) -> bool {
        raw && match self.premium_mode {
            PremiumMode::Normal => true,
            PremiumMode::OnePerSession => self.user_turn_count == 0,
            PremiumMode::Zero => false,
        }
    }

    /// The settings with another model.
    pub open spec fn with_model(self, model: Seq<char>) -> ProviderView {
        ProviderView { model, ..self }
    }

    /// The effort that requests for `model` ask for.
    pub open spec fn effort_for(self, model: Seq<char>) -> Option<Seq<char>> {
        if model == self.effort_model {
            self.reasoning_effort
        } else {
            None
        }
    }

    /// The settings of a session that is split off.
    pub open spec fn forked(self) -> ProviderView {
        ProviderView { user_turn_count: 0, ..self }
    }

    /// What comes of choosing a model: its name without the provider's own
    /// prefix, unless that is empty or names a long-context model.
    pub open spec fn model_chosen(
        self,
        after: ProviderView,
        model: Seq<char>,
        r: Result<(), CopilotError>,
    ) -> bool {
        let name = own_model_name(model, "copilot:"@);
        if name.len() == 0 {
            after == self && r == Err::<(), CopilotError>(CopilotError::EmptyModel)
        } else if contains_text(name, "[1m]"@) {
            after == self && r == Err::<(), CopilotError>(CopilotError::LongContextModel)
        } else {
            after == self.with_model(name) && r is Ok
        }
    }

    /// What comes of choosing a reasoning effort, `normalized` being its name
    /// without space around it and in lower case.
    pub open spec fn effort_chosen(
        self,
        after: ProviderView,
        effort: Seq<char>,
        normalized: Seq<char>,
        r: Result<(), CopilotError>,
    ) -> bool {
        if self.official() {
            after == self && r == Err::<(), CopilotError>(CopilotError::EffortTransport)
        } else if self.model != self.effort_model {
            after == self && (r matches Err(
                CopilotError::EffortModel { model, effort_model },
            ) && model@ == self.model && effort_model@ == self.effort_model)
        } else if !effort_names().contains(normalized) {
            after == self && (r matches Err(
                CopilotError::EffortUnknown { effort: unknown, effort_model },
            ) && unknown@ == effort && effort_model@ == self.effort_model)
        } else {
            after == (ProviderView { reasoning_effort: Some(normalized), ..self }) && r is Ok
        }
    }
}

/// What changes a session's settings.
pub enum SessionChange {
    /// A model is chosen by its name.
    Model { name: Seq<char> },
    /// A reasoning effort is chosen by its name, without space around it and in
    /// lower case.
    Effort { normalized: Seq<char> },
    /// The premium mode is set.
    Premium { mode: PremiumMode },
    /// A turn is begun on the native transport, by the user or not.
    Turn { raw: bool },
}

impl ProviderView {
    /// The settings after a change, which may be refused.
    pub open spec fn changed(self, change: SessionChange) -> ProviderView {
        match change {
            SessionChange::Model { name } => {
                let own = own_model_name(name, "copilot:"@);
                if own.len() == 0 || contains_text(own, "[1m]"@) {
                    self
                } else {
                    self.with_model(own)
                }
            },
            SessionChange::Effort { normalized } => if !self.official() && self.model
                == self.effort_model && effort_names().contains(normalized) {
                ProviderView { reasoning_effort: Some(normalized), ..self }
            } else {
                self
            },
            SessionChange::Premium { mode } => ProviderView { premium_mode: mode, ..self },
            SessionChange::Turn { raw } => ProviderView {
                user_turn_count: if !self.counts_as_user(raw) {
                    self.user_turn_count
                } else if self.user_turn_count == u64::MAX {
                    0
                } else {
                    (self.user_turn_count + 1) as u64
                },
                ..self
            },
        }
    }
}

/// What happens among the sessions of a provider.
pub enum SessionEvent {
    /// A session is split off from another.
    Fork { from: int },
    /// The settings of a session are changed.
    Change { session: int, change: SessionChange },
}

/// The sessions after something has happened among them: a session that is
/// split off comes last.
pub open spec fn sessions_after_event(
    sessions: Seq<ProviderView>,
    event: SessionEvent,
) -> Seq<ProviderView> {
    match event {
        SessionEvent::Fork { from } => sessions.push(sessions[from].forked()),
        SessionEvent::Change { session, change } => sessions.update(
            session,
            sessions[session].changed(change),
        ),
    }
}

/// The sessions after all that has happened among them.
pub open spec fn sessions_after(
    sessions: Seq<ProviderView>,
    events: Seq<SessionEvent>,
) -> Seq<ProviderView>
    decreases events.len(),
{
    if events.len() == 0 {
        sessions
    } else {
        sessions_after_event(sessions_after(sessions, events.drop_last()), events.last())
    }
}

/// Whether all that happens is about sessions that are there.
pub open spec fn about_sessions(sessions: Seq<ProviderView>, events: Seq<SessionEvent>) -> bool
    decreases events.len(),
{
    events.len() > 0 ==> about_sessions(sessions, events.drop_last()) && ({
        let count = sessions_after(sessions, events.drop_last()).len();
        match events.last() {
            SessionEvent::Fork { from } => 0 <= from < count,
            SessionEvent::Change { session, .. } => 0 <= session < count,
        }
    })
}

/// A session's settings after those of the changes that are its own.
pub open spec fn after_own_changes(
    provider: ProviderView,
    events: Seq<SessionEvent>,
    k: int,
) -> ProviderView
    decreases events.len(),
{
    if events.len() == 0 {
        provider
    } else {
        let before = after_own_changes(provider, events.drop_last(), k);
        match events.last() {
            SessionEvent::Change { session, change } if session == k => before.changed(change),
            _ => before,
        }
    }
}

impl CopilotApiProvider {
    /// A session's settings at its beginning.
    fn common(backend: CopilotBackend, settings: &SessionSettings, known: &KnownModels) -> (provider:
        Self)
        ensures
            provider@ == initial_provider(backend, *settings, *known),
    {
        let model = match &settings.model {
            Some(model) => model.clone(),
            None => known.default_model.clone(),
        };
        CopilotApiProvider {
            backend: Arc::new(backend),
            model,
            premium_mode: env_premium_mode(settings),
            user_turn_count: 0,
            reasoning_effort: None,
            effort_model: known.effort_model.clone(),
        }
    }

    /// A session on the transport that the environment selects. The native one
    /// needs a GitHub token, the official one the place of the CLI.
    pub fn new(
        env: CopilotEnvironment,
        known: &KnownModels,
        github_token: Result<String, String>,
        stored_machine_id: Option<&str>,
    ) -> (r: Result<Self, CopilotError>)
        ensures
            match env.selected() {
                Some(CopilotTransport::Native) => match github_token {
                    Ok(token) => r matches Ok(provider) && provider@.backend matches
                        CopilotBackend::Native { github_token, session_id, machine_id }
                        && github_token@ == token@ && uuid_form(session_id@) && machine_id_for(
                        str_option(stored_machine_id),
                        machine_id@,
                    ) && provider@ == initial_provider(provider@.backend, env.settings, *known),
                    Err(text) => r matches Err(CopilotError::Reported { message }) && message@
                        == text@,
                },
                Some(CopilotTransport::OfficialCli) => match env.cli_path {
                    Ok(path) => r matches Ok(provider) && provider@.backend matches
                        CopilotBackend::OfficialCli { process } && process.command == path
                        && process.has_base_arguments() && provider@ == initial_provider(
                        provider@.backend,
                        env.settings,
                        *known,
                    ),
                    Err(text) => r matches Err(CopilotError::Reported { message }) && message@
                        == text@,
                },
                None => r matches Err(CopilotError::UnknownTransport { words }) && words@
                    == env.unknown_transport@,
            },
    {
        match selected_transport(&env) {
            Ok(CopilotTransport::Native) => match github_token {
                Ok(token) => Ok(
                    Self::new_with_token(token, &env.settings, known, stored_machine_id),
                ),
                Err(message) => Err(CopilotError::Reported { message }),
            },
            Ok(CopilotTransport::OfficialCli) => match CopilotOfficialCliProcess::from_env(
                env.cli_path,
            ) {
                Ok(process) => Ok(Self::with_official_process(process, &env.settings, known)),
                Err(error) => Err(error),
            },
            Err(error) => Err(error),
        }
    }

    /// A session on the native transport.
    pub fn new_with_token(
        github_token: String,
        settings: &SessionSettings,
        known: &KnownModels,
        stored_machine_id: Option<&str>,
    ) -> (provider: Self)
        ensures
            provider@.backend matches CopilotBackend::Native {
                github_token: token,
                session_id,
                machine_id,
            } && token == github_token && uuid_form(session_id@) && machine_id_for(
                str_option(stored_machine_id),
                machine_id@,
            ),
            provider@ == initial_provider(provider@.backend, *settings, *known),
    {
        let session_id = new_uuid();
        let machine_id = get_or_create_machine_id(stored_machine_id).id;
        Self::common(
            CopilotBackend::Native { github_token, session_id, machine_id },
            settings,
            known,
        )
    }

    /// A session on the official transport.
    pub fn with_official_process(
        process: CopilotOfficialCliProcess,
        settings: &SessionSettings,
        known: &KnownModels,
    ) -> (provider: Self)
        ensures
            provider@ == initial_provider(
                CopilotBackend::OfficialCli { process },
                *settings,
                *known,
            ),
    {
        Self::common(CopilotBackend::OfficialCli { process }, settings, known)
    }

    /// Whether there is a way to Copilot over the selected transport, as far as
    /// that is known without trying it.
    pub fn has_credentials(env: &CopilotEnvironment) -> (r: bool)
        ensures
            r == (match env.selected() {
                Some(CopilotTransport::OfficialCli) => true,
                Some(CopilotTransport::Native) => env.has_github_token,
                None => false,
            }),
    {
        match selected_transport(env) {
            Ok(CopilotTransport::OfficialCli) => true,
            Ok(CopilotTransport::Native) => env.has_github_token,
            Err(_) => false,
        }
    }

    /// Whether the user has begun the turn, by its messages alone.
    pub fn is_user_initiated_raw(messages: &Vec<Message>) -> (r: bool)
        ensures
            r == begun_by_user(message_views(messages@)),
    {
        crate::initiator::is_user_initiated_raw(messages)
    }

    /// Whether the turn counts as one of the user.
    pub fn is_user_initiated(&self, messages: &Vec<Message>) -> (r: bool)
        ensures
            r == self@.counts_as_user(begun_by_user(message_views(messages@))),
    {
        if !Self::is_user_initiated_raw(messages) {
            return false;
        }
        match self.premium_mode {
            PremiumMode::Zero => false,
            PremiumMode::OnePerSession => self.user_turn_count == 0,
            PremiumMode::Normal => true,
        }
    }

    /// Sets how much the session may use of what is paid for by the request.
    pub fn set_premium_mode(&mut self, mode: PremiumMode)
        ensures
            final(self)@ == old(self)@.changed(SessionChange::Premium { mode }),
    {
        self.premium_mode = mode;
    }

    /// How much the session may use of what is paid for by the request.
    pub fn get_premium_mode(&self) -> (mode: PremiumMode)
        ensures
            mode == self@.premium_mode,
    {
        self.premium_mode
    }

    /// Splits off a session: it begins with the settings of this one and has
    /// had no turns, and its settings are its own from then on.
    pub fn fork(&self) -> (forked: Self)
        ensures
            forked@ == self@.forked(),
    {
        let reasoning_effort = self.current_reasoning_effort();
        CopilotApiProvider {
            backend: share(&self.backend),
            model: self.model.clone(),
            premium_mode: self.premium_mode,
            user_turn_count: 0,
            reasoning_effort,
            effort_model: self.effort_model.clone(),
        }
    }

    /// The reasoning effort that was chosen, whether or not it is used.
    fn current_reasoning_effort(&self) -> (r: Option<String>)
        ensures
            text_option(r) == self@.reasoning_effort,
    {
        match &self.reasoning_effort {
            Some(effort) => Some(effort.clone()),
            None => None,
        }
    }

    /// The provider's name.
    pub fn name(&self) -> (r: &'static str)
        ensures
            r@ == "copilot"@,
    {
        "copilot"
    }

    /// The session's model.
    pub fn model(&self) -> (r: String)
        ensures
            r@ == self@.model,
    {
        self.model.clone()
    }

    /// Chooses the session's model.
    pub fn set_model(&mut self, model: &str) -> (r: Result<(), CopilotError>)
        ensures
            old(self)@.model_chosen(final(self)@, model@, r),
            final(self)@ == old(self)@.changed(SessionChange::Model { name: model@ }),
    {
        let name = strip_own_model_prefix(model, "copilot:");
        if name.unicode_len() == 0 {
            return Err(CopilotError::EmptyModel);
        }
        if contains(name, "[1m]") {
            return Err(CopilotError::LongContextModel);
        }
        self.model = name.to_owned();
        Ok(())
    }

    /// The reasoning effort of the session's requests, where its model takes
    /// one.
    pub fn reasoning_effort(&self) -> (r: Option<String>)
        ensures
            text_option(r) == (if self@.official() {
                None
            } else {
                self@.effort_for(self@.model)
            }),
    {
        if self.handles_tools_internally() {
            return None;
        }
        if !copilot_model_supports_reasoning_effort(
            self.model.as_str(),
            self.effort_model.as_str(),
        ) {
            return None;
        }
        self.current_reasoning_effort()
    }

    /// Chooses the reasoning effort by its name, whatever the case of its
    /// letters and the space around it.
    pub fn set_reasoning_effort(&mut self, effort: &str) -> (r: Result<(), CopilotError>)
        ensures
            old(self)@.effort_chosen(final(self)@, effort@, unicode_lower(trimmed(effort@)), r),
            vstd::utf8::is_ascii_chars(trimmed(effort@)) ==> old(self)@.effort_chosen(
                final(self)@,
                effort@,
                ascii_lower(trimmed(effort@)),
                r,
            ),
            final(self)@ == old(self)@.changed(
                SessionChange::Effort { normalized: unicode_lower(trimmed(effort@)) },
            ),
    {
        let normalized = lowercase(trim(effort));
        self.choose_effort(effort, normalized.as_str())
    }

    /// Chooses the reasoning effort `normalized`, which was given as `effort`.
    pub fn choose_effort(&mut self, effort: &str, normalized: &str) -> (r: Result<
        (),
        CopilotError,
    >)
        ensures
            old(self)@.effort_chosen(final(self)@, effort@, normalized@, r),
            final(self)@ == old(self)@.changed(SessionChange::Effort { normalized: normalized@ }),
    {
        if self.handles_tools_internally() {
            return Err(CopilotError::EffortTransport);
        }
        if !copilot_model_supports_reasoning_effort(
            self.model.as_str(),
            self.effort_model.as_str(),
        ) {
            return Err(
                CopilotError::EffortModel {
                    model: self.model.clone(),
                    effort_model: self.effort_model.clone(),
                },
            );
        }
        if !is_supported_effort(normalized) {
            return Err(
                CopilotError::EffortUnknown {
                    effort: effort.to_owned(),
                    effort_model: self.effort_model.clone(),
                },
            );
        }
        self.reasoning_effort = Some(normalized.to_owned());
        Ok(())
    }

    /// The reasoning efforts that can be chosen.
    pub fn available_efforts(&self) -> (r: Vec<&'static str>)
        ensures
            r@.map_values(|effort: &'static str| effort@) == (if !self@.official() && self@.model
                == self@.effort_model {
                effort_names()
            } else {
                Seq::empty()
            }),
    {
        if !self.handles_tools_internally() && copilot_model_supports_reasoning_effort(
            self.model.as_str(),
            self.effort_model.as_str(),
        ) {
            return supported_efforts();
        }
        let none: Vec<&'static str> = Vec::new();
        assert(none@.map_values(|effort: &'static str| effort@) =~= Seq::empty());
        none
    }

    /// Adds the reasoning effort to the body of a request for `model`, where
    /// one was chosen and the model takes one.
    pub fn add_reasoning_effort_parameter(&self, body: &mut Json, model: &str)
        requires
            old(body)@ is Object,
        ensures
            final(body)@ == with_text(
                old(body)@,
                "reasoning_effort"@,
                self@.effort_for(model@),
            ),
    {
        match self.request_effort(model) {
            Some(effort) => add_text(body, "reasoning_effort", Some(effort.as_str())),
            None => {},
        }
    }

    /// The reasoning effort that requests for `model` ask for.
    pub fn request_effort(&self, model: &str) -> (r: Option<String>)
        ensures
            text_option(r) == self@.effort_for(model@),
    {
        if !copilot_model_supports_reasoning_effort(model, self.effort_model.as_str()) {
            return None;
        }
        self.current_reasoning_effort()
    }

    /// The name of the parameter that limits the tokens of a response.
    pub fn max_token_parameter_for_model(model: &str) -> (r: &'static str)
        ensures
            r@ == max_token_parameter(model@),
    {
        crate::model::max_token_parameter_for_model(model)
    }

    /// The context window of the session's model: its `limit`, where one is
    /// known.
    pub fn context_window(&self, limit: Option<usize>) -> (r: usize)
        ensures
            r == (match limit {
                Some(limit) => limit,
                None => 128_000,
            }),
    {
        match limit {
            Some(limit) => limit,
            None => DEFAULT_CONTEXT_WINDOW,
        }
    }

    /// The context window of the session's model, by the limits of the models
    /// that Copilot serves.
    pub fn model_context_window(&self) -> (r: usize)
        ensures
            r == copilot_context_limit(self@.model),
    {
        self.context_window(
            context_limit_for_model_with_provider(self.model.as_str(), Some(self.name())),
        )
    }

    /// The models that stand in where none is known.
    pub fn available_models(&self, fallback: &Vec<String>) -> (models: Vec<String>)
        ensures
            texts(models@) == texts(fallback@),
    {
        copy_texts(fallback)
    }

    /// The models that can be chosen.
    pub fn available_models_display(&self, catalog: &ModelCatalog, fallback: &Vec<String>) -> (models:
        Vec<String>)
        ensures
            texts(models@) == (if catalog@.fetched_models.len() > 0 {
                catalog@.fetched_models
            } else {
                texts(fallback@)
            }),
    {
        catalog.available_models_display(fallback)
    }

    /// The models that the session can switch to: those that can be chosen.
    pub fn available_models_for_switching(
        &self,
        catalog: &ModelCatalog,
        fallback: &Vec<String>,
    ) -> (models: Vec<String>)
        ensures
            texts(models@) == (if catalog@.fetched_models.len() > 0 {
                catalog@.fetched_models
            } else {
                texts(fallback@)
            }),
    {
        self.available_models_display(catalog, fallback)
    }

    /// What is done to find out which models there are.
    pub fn tier_action(&self, model_overridden: bool) -> (action: TierAction)
        ensures
            action == (if self@.official() {
                TierAction::ProbeOfficialCli
            } else if model_overridden {
                TierAction::KeepModel
            } else {
                TierAction::FetchModels
            }),
    {
        if self.handles_tools_internally() {
            TierAction::ProbeOfficialCli
        } else if model_overridden {
            TierAction::KeepModel
        } else {
            TierAction::FetchModels
        }
    }

    /// Takes what has come of finding out which models there are: the best one
    /// becomes the session's, and the list is shared and kept. However it has
    /// come out, the provider is then set up.
    pub fn detect_tier_and_set_default(
        &mut self,
        catalog: &mut ModelCatalog,
        outcome: TierOutcome,
    ) -> (kept: Option<PersistedCatalog>)
        ensures
            match outcome {
                TierOutcome::Fetched { models, best } => {
                    &&& final(self)@ == old(self)@.with_model(best@)
                    &&& final(catalog)@ == (CatalogView {
                        fetched_models: display_ids(models@),
                        catalog_source: CatalogSource::Live,
                        init_done: true,
                    })
                    &&& crate::catalog::keeps(kept, display_ids(models@))
                },
                _ => {
                    &&& final(self)@ == old(self)@
                    &&& final(catalog)@ == (CatalogView { init_done: true, ..old(catalog)@ })
                    &&& kept is None
                },
            },
    {
        let kept = match outcome {
            TierOutcome::Fetched { models, best } => {
                self.model = best;
                let shown = display_models(&models);
                let kept = crate::catalog::persist_catalog(&shown);
                catalog.set_live(shown);
                kept
            },
            _ => None,
        };
        catalog.mark_init_done();
        kept
    }

    /// The official CLI that is to be asked whether it is there, or which
    /// models it has.
    pub fn probe_official_cli(&self) -> (r: Result<&CopilotOfficialCliProcess, CopilotError>)
        ensures
            match self@.backend {
                CopilotBackend::OfficialCli { process } => r == Ok::<_, CopilotError>(&process),
                CopilotBackend::Native { .. } => r == Err::<&CopilotOfficialCliProcess, _>(
                    CopilotError::NotOfficialCli,
                ),
            },
    {
        match &*self.backend {
            CopilotBackend::OfficialCli { process } => Ok(process),
            CopilotBackend::Native { .. } => Err(CopilotError::NotOfficialCli),
        }
    }

    /// Takes the models that the official CLI has shown: its list, where it
    /// has any, and its own model, where the environment names none.
    pub fn update_official_models(
        &mut self,
        catalog: &mut ModelCatalog,
        discovered: DiscoveredModels,
        model_overridden: bool,
    )
        ensures
            final(catalog)@ == (if discovered.available@.len() > 0 {
                CatalogView {
                    fetched_models: texts(discovered.available@),
                    catalog_source: CatalogSource::Live,
                    ..old(catalog)@
                }
            } else {
                old(catalog)@
            }),
            final(self)@ == (match discovered.current {
                Some(current) if !model_overridden && !blank(current@) => old(self)@.with_model(
                    current@,
                ),
                _ => old(self)@,
            }),
    {
        if discovered.available.len() > 0 {
            catalog.set_live(discovered.available);
        }
        match discovered.current {
            Some(current) => {
                if !model_overridden && !is_blank(current.as_str()) {
                    self.model = current;
                }
            },
            None => {},
        }
    }

    /// Notes that the provider is set up, though nobody has asked which models
    /// there are.
    pub fn complete_init_without_tier_detection(catalog: &mut ModelCatalog)
        ensures
            final(catalog)@ == (CatalogView { init_done: true, ..old(catalog)@ }),
    {
        catalog.mark_init_done();
    }

    /// What is done about the list of models before it is needed, `elapsed_ms`
    /// after the provider has begun.
    pub fn prefetch_models(&self, elapsed_ms: u128, grace_ms: u64) -> (action: PrefetchAction)
        ensures
            action == (if self@.official() {
                PrefetchAction::Discover
            } else if elapsed_ms < grace_ms {
                PrefetchAction::Skip
            } else {
                PrefetchAction::Detect
            }),
    {
        if self.handles_tools_internally() {
            PrefetchAction::Discover
        } else if elapsed_ms < grace_ms as u128 {
            PrefetchAction::Skip
        } else {
            PrefetchAction::Detect
        }
    }

    /// What is said of the list of models.
    pub fn model_catalog_detail(&self, catalog: &ModelCatalog) -> (r: &'static str)
        ensures
            r@ == crate::catalog::source_detail(catalog@.catalog_source),
    {
        catalog.model_catalog_detail()
    }

    /// The bearer token of the native transport: the one that was fetched
    /// earlier, or none where it is to be fetched.
    pub fn get_bearer_token(&self, cached: Option<&CachedToken>) -> (r: Result<
        Option<String>,
        CopilotError,
    >)
        ensures
            if self@.official() {
                r == Err::<Option<String>, _>(CopilotError::NoBearerToken)
            } else {
                r matches Ok(token) && text_option(token) == usable(cached)
            },
    {
        if self.handles_tools_internally() {
            return Err(CopilotError::NoBearerToken);
        }
        Ok(usable_token(cached))
    }

    /// Begins a turn on the native transport, which may count as one of the
    /// user. Where there is no token for it, no turn is begun and none counts.
    pub fn begin_native_turn(&mut self, has_token: bool, messages: &Vec<Message>) -> (r: Option<
        NativeTurn,
    >)
        ensures
            ({
                let counts = old(self)@.counts_as_user(begun_by_user(message_views(messages@)));
                match r {
                    Some(turn) => has_token && turn.is_user_initiated == counts && turn.model@
                        == old(self)@.model && turn.uses_responses_api == on_responses_api(
                        old(self)@.model,
                    ),
                    None => !has_token,
                }
            }),
            final(self)@ == (if has_token {
                old(self)@.changed(
                    SessionChange::Turn { raw: begun_by_user(message_views(messages@)) },
                )
            } else {
                old(self)@
            }),
    {
        if !has_token {
            return None;
        }
        let is_user_initiated = self.is_user_initiated(messages);
        if is_user_initiated {
            self.user_turn_count = if self.user_turn_count == u64::MAX {
                0
            } else {
                self.user_turn_count + 1
            };
        }
        Some(
            NativeTurn {
                is_user_initiated,
                model: self.model.clone(),
                uses_responses_api: copilot_model_uses_responses_api(self.model.as_str()),
            },
        )
    }

    /// The body of a native turn's request, of what its API takes the
    /// conversation to be made of: the items of the Responses API, or messages,
    /// which are asked for with the model's reasoning effort.
    pub fn native_body(
        &self,
        turn: &NativeTurn,
        items: Vec<Json>,
        tools: Vec<Json>,
        system: &str,
    ) -> (body: Json)
        ensures
            body@ == (if turn.uses_responses_api {
                responses_body(turn.model@, json_views(items@), json_views(tools@), system@)
            } else {
                chat_body(
                    turn.model@,
                    json_views(items@),
                    json_views(tools@),
                    self@.effort_for(turn.model@),
                )
            }),
    {
        if turn.uses_responses_api {
            return responses_payload(turn.model.as_str(), items, tools, system);
        }
        match self.request_effort(turn.model.as_str()) {
            Some(effort) => chat_payload(turn.model.as_str(), items, tools, Some(effort.as_str())),
            None => chat_payload(turn.model.as_str(), items, tools, None),
        }
    }

    /// The identifiers under which requests of the native transport are made.
    pub fn native_identity(&self) -> (r: Result<(&String, &String), CopilotError>)
        ensures
            match self@.backend {
                CopilotBackend::Native { session_id, machine_id, .. } => r == Ok::<
                    _,
                    CopilotError,
                >((&session_id, &machine_id)),
                CopilotBackend::OfficialCli { .. } => r == Err::<(&String, &String), _>(
                    CopilotError::NotNative,
                ),
            },
    {
        match &*self.backend {
            CopilotBackend::Native { session_id, machine_id, .. } => Ok((session_id, machine_id)),
            CopilotBackend::OfficialCli { .. } => Err(CopilotError::NotNative),
        }
    }

    /// Whether a conversation is answered whose request says neither where it
    /// runs nor what the user says in it: over the native transport it is; the
    /// official CLI is never given one.
    pub fn complete(&self, messages: &Vec<Message>, resume_session_id: Option<&str>) -> (r: Result<
        (),
        CopilotError,
    >)
        ensures
            r == (if !self@.official() {
                Ok::<(), CopilotError>(())
            } else if resume_session_id is None && holds_history(message_views(messages@)) {
                Err(CopilotError::DisconnectedHistory)
            } else {
                Err(CopilotError::MissingPrompt)
            }),
    {
        if self.handles_tools_internally() {
            return Err(refusal_without_context(messages, resume_session_id));
        }
        Ok(())
    }

    /// What a turn on the official CLI needs.
    pub fn complete_official(
        &self,
        tools: &Vec<ToolDefinition>,
        system_static: &str,
        system_dynamic: &str,
        resume_session_id: Option<&str>,
        current_turn: Option<&ProviderTurnContext>,
    ) -> (r: Result<OfficialTurnPlan, CopilotError>)
        ensures
            ({
                let turn = context_option(current_turn);
                let resumed = resume_session_id is Some;
                let prompt = official_prompt(system_static@, system_dynamic@, resumed, turn);
                let fresh = official_prompt(system_static@, system_dynamic@, false, turn);
                if !self@.official() {
                    r == Err::<OfficialTurnPlan, _>(CopilotError::NotOfficialCli)
                } else if prompt is Err {
                    r == Err::<OfficialTurnPlan, _>(prompt->Err_0)
                } else {
                    r matches Ok(plan) && plan.prompt@ == prompt->Ok_0 && plan.fresh_prompt@
                        == fresh->Ok_0 && plan.selected_model@ == self@.model && plan.tool_policy
                        == policy_for(tool_names(tools@)) && text_option(plan.resume_session_id)
                        == (match str_option(resume_session_id) {
                        Some(id) => Some(upstream_session_id(id)),
                        None => None,
                    })
                }
            }),
    {
        if !self.handles_tools_internally() {
            return Err(CopilotError::NotOfficialCli);
        }
        let resume_session_id = match resume_session_id {
            Some(id) => Some(parse_official_session_id(id)),
            None => None,
        };
        let resumed = resume_session_id.is_some();
        let prompt = match build_official_prompt(
            system_static,
            system_dynamic,
            resumed,
            current_turn,
        ) {
            Ok(prompt) => prompt,
            Err(error) => {
                return Err(error);
            },
        };
        let fresh_prompt = if resumed {
            match build_stale_fresh_prompt(system_static, system_dynamic, current_turn) {
                Ok(prompt) => prompt,
                Err(error) => {
                    return Err(error);
                },
            }
        } else {
            prompt.clone()
        };
        Ok(
            OfficialTurnPlan {
                tool_policy: CopilotOfficialToolPolicy::from_jcode_tools(tools),
                selected_model: self.model.clone(),
                resume_session_id,
                prompt,
                fresh_prompt,
            },
        )
    }

    /// What a turn needs whose request says where it runs and what the user
    /// says in it: on the official CLI a plan, which takes a working
    /// directory; on the native transport nothing.
    pub fn complete_split_with_context(
        &self,
        tools: &Vec<ToolDefinition>,
        system_static: &str,
        system_dynamic: &str,
        resume_session_id: Option<&str>,
        has_working_dir: bool,
        current_turn: Option<&ProviderTurnContext>,
    ) -> (r: Result<Option<OfficialTurnPlan>, CopilotError>)
        ensures
            ({
                let turn = context_option(current_turn);
                let resumed = resume_session_id is Some;
                let prompt = official_prompt(system_static@, system_dynamic@, resumed, turn);
                let fresh = official_prompt(system_static@, system_dynamic@, false, turn);
                if !self@.official() {
                    r == Ok::<Option<OfficialTurnPlan>, CopilotError>(None)
                } else if !has_working_dir {
                    r == Err::<Option<OfficialTurnPlan>, _>(CopilotError::MissingWorkingDirectory)
                } else if prompt is Err {
                    r == Err::<Option<OfficialTurnPlan>, _>(prompt->Err_0)
                } else {
                    r matches Ok(Some(plan)) && plan.prompt@ == prompt->Ok_0
                        && plan.fresh_prompt@ == fresh->Ok_0 && plan.selected_model@ == self@.model
                        && plan.tool_policy == policy_for(tool_names(tools@)) && text_option(
                        plan.resume_session_id,
                    ) == (match str_option(resume_session_id) {
                        Some(id) => Some(upstream_session_id(id)),
                        None => None,
                    })
                }
            }),
    {
        if !self.handles_tools_internally() {
            return Ok(None);
        }
        if !has_working_dir {
            return Err(CopilotError::MissingWorkingDirectory);
        }
        match self.complete_official(
            tools,
            system_static,
            system_dynamic,
            resume_session_id,
            current_turn,
        ) {
            Ok(plan) => Ok(Some(plan)),
            Err(error) => Err(error),
        }
    }

    /// The key under which a switch of models keeps the session, where it is
    /// kept by the official CLI.
    pub fn model_switch_session_key(&self) -> (r: Option<&'static str>)
        ensures
            str_option(r) == (if self@.official() {
                Some("copilot:official-cli"@)
            } else {
                None
            }),
    {
        if self.handles_tools_internally() {
            Some("copilot:official-cli")
        } else {
            None
        }
    }

    /// Whether the conversation can be taken back: the official CLI keeps it
    /// itself.
    pub fn supports_conversation_rewind(&self) -> (r: bool)
        ensures
            r == !self@.official(),
    {
        !self.handles_tools_internally()
    }

    /// Whether the conversation can be shortened: the official CLI keeps it
    /// itself.
    pub fn supports_compaction(&self) -> (r: bool)
        ensures
            r == !self@.official(),
    {
        !self.handles_tools_internally()
    }

    /// Whether tools are run by the other side.
    pub fn handles_tools_internally(&self) -> (r: bool)
        ensures
            r == self@.official(),
    {
        match self.backend.transport() {
            CopilotTransport::OfficialCli => true,
            CopilotTransport::Native => false,
        }
    }

    /// How the session is signed in.
    pub fn active_auth_method_label(&self) -> (r: &'static str)
        ensures
            r@ == (if self@.official() {
                "Official Copilot CLI"@
            } else {
                "GitHub OAuth token exchange"@
            }),
    {
        match self.backend.transport() {
            CopilotTransport::Native => "GitHub OAuth token exchange",
            CopilotTransport::OfficialCli => "Official Copilot CLI",
        }
    }

    /// The name of the session's transport.
    pub fn transport(&self) -> (r: &'static str)
        ensures
            r@ == self@.backend.kind().text(),
    {
        self.backend.transport().as_str()
    }

    /// Asks for a transport by its name: it is fixed, so that only the present
    /// one can be had. `unknown` is what is said of a name that no transport
    /// has.
    pub fn set_transport(&self, transport: &str, unknown: &str) -> (r: Result<(), CopilotError>)
        ensures
            match transport_named(Some(transport@)) {
                Some(requested) => if requested == self@.backend.kind() {
                    r is Ok
                } else {
                    r matches Err(
                        CopilotError::TransportFixed { current, requested: other },
                    ) && current@ == self@.backend.kind().text() && other@ == requested.text()
                },
                None => r matches Err(CopilotError::UnknownTransport { words }) && words@
                    == unknown@,
            },
    {
        let requested = match CopilotTransport::parse(Some(transport), unknown) {
            Ok(requested) => requested,
            Err(error) => {
                return Err(error);
            },
        };
        let current = self.backend.transport();
        if requested == current {
            return Ok(());
        }
        Err(
            CopilotError::TransportFixed {
                current: current.as_str(),
                requested: requested.as_str(),
            },
        )
    }

    /// The names of the transports.
    pub fn available_transports(&self) -> (r: Vec<&'static str>)
        ensures
            r@.map_values(|name: &'static str| name@) == seq!["native"@, "official-cli"@],
    {
        let mut names: Vec<&'static str> = Vec::new();
        names.push("native");
        names.push("official-cli");
        assert(names@.map_values(|name: &'static str| name@) =~= seq![
            "native"@,
            "official-cli"@,
        ]);
        names
    }
}

/// A session that is split off begins with the settings of the other and with
/// its own first turn.
pub proof fn law_fork_begins_anew(provider: ProviderView)
    ensures
        provider.forked().backend == provider.backend,
        provider.forked().model == provider.model,
        provider.forked().premium_mode == provider.premium_mode,
        provider.forked().reasoning_effort == provider.reasoning_effort,
        provider.premium_mode != PremiumMode::Zero ==> provider.forked().counts_as_user(true),
{
}

/// The settings of a session are its own: whatever happens to the session it
/// was split off from, to those that are split off from it, or to any other,
/// only its own changes reach it. One that is split off begins with the other's
/// settings of that time.
pub proof fn law_sessions_are_their_own(
    sessions: Seq<ProviderView>,
    events: Seq<SessionEvent>,
    k: int,
    from: int,
)
    requires
        0 <= k < sessions.len(),
        about_sessions(sessions, events),
    ensures
        sessions_after(sessions, events).len() >= sessions.len(),
        sessions_after(sessions, events)[k] == after_own_changes(sessions[k], events, k),
        (forall|i: int|
            0 <= i < events.len() ==> !(#[trigger] events[i] matches SessionEvent::Change {
                session,
                ..
            } && session == k)) ==> sessions_after(sessions, events)[k] == sessions[k],
        0 <= from < sessions_after(sessions, events).len() ==> ({
            let before = sessions_after(sessions, events);
            let after = sessions_after_event(before, SessionEvent::Fork { from });
            &&& after.len() == before.len() + 1
            &&& after.last() == before[from].forked()
            &&& after.drop_last() == before
        }),
    decreases events.len(),
{
    if events.len() > 0 {
        let rest = events.drop_last();
        law_sessions_are_their_own(sessions, rest, k, from);
        assert(events.last() == events[events.len() - 1]);
        assert forall|i: int| 0 <= i < rest.len() implies rest[i] == events[i] by {}
    }
    let before = sessions_after(sessions, events);
    if 0 <= from < before.len() {
        assert(before.push(before[from].forked()).drop_last() =~= before);
    }
}

/// Where one turn of a session counts, the first that the user begins does and
/// none after it; where none counts, none does.
pub proof fn law_premium_turns(provider: ProviderView, raw: bool)
    requires
        provider.user_turn_count < u64::MAX,
    ensures
        provider.premium_mode == PremiumMode::OnePerSession && provider.counts_as_user(raw)
            ==> !(ProviderView {
            user_turn_count: (provider.user_turn_count + 1) as u64,
            ..provider
        }).counts_as_user(true),
        provider.premium_mode == PremiumMode::Zero ==> !provider.counts_as_user(raw),
        !provider.counts_as_user(false),
{
}

/// A setting that is refused changes nothing.
pub proof fn law_refused_settings_change_nothing(
    provider: ProviderView,
    after: ProviderView,
    text: Seq<char>,
    normalized: Seq<char>,
    r: Result<(), CopilotError>,
)
    requires
        r is Err,
        provider.model_chosen(after, text, r) || provider.effort_chosen(
            after,
            text,
            normalized,
            r,
        ),
    ensures
        after == provider,
{
}

/// A reasoning effort stays with the one model that takes it: no request for
/// another model asks for one, and it is asked for again once that model is
/// chosen again.
pub proof fn law_effort_stays_with_its_model(
    provider: ProviderView,
    model: Seq<char>,
    messages: Seq<JsonView>,
    tools: Seq<JsonView>,
)
    ensures
        model != provider.effort_model ==> chat_body(
            model,
            messages,
            tools,
            provider.with_model(model).effort_for(model),
        ).field("reasoning_effort"@) is None,
        chat_body(
            provider.effort_model,
            messages,
            tools,
            provider.with_model(model).with_model(provider.effort_model).effort_for(
                provider.effort_model,
            ),
        ).text_at("reasoning_effort"@) == provider.reasoning_effort,
{
    law_chat_body_fields(
        model,
        messages,
        tools,
        provider.with_model(model).effort_for(model),
    );
    law_chat_body_fields(
        provider.effort_model,
        messages,
        tools,
        provider.reasoning_effort,
    );
}

/// A turn that the user has begun counts as theirs always, once in a session or
/// never, by the premium mode; a turn of the agent never does.
pub proof fn law_turns_that_count(provider: ProviderView, raw: bool)
    ensures
        provider.counts_as_user(raw) <==> raw && (provider.premium_mode == PremiumMode::Normal || (
        provider.premium_mode == PremiumMode::OnePerSession && provider.user_turn_count == 0)),
{
}

/// What each change does to a session, and that it does nothing else to it.
pub proof fn law_changes_do_what_they_say(
    provider: ProviderView,
    name: Seq<char>,
    effort: Seq<char>,
    mode: PremiumMode,
    raw: bool,
)
    ensures
        ({
            let own = if "copilot:"@.is_prefix_of(trimmed(name)) {
                trimmed(trimmed(name).skip(8))
            } else {
                trimmed(name)
            };
            let after = provider.changed(SessionChange::Model { name });
            if own.len() == 0 || contains_text(own, "[1m]"@) {
                after == provider
            } else {
                after == (ProviderView { model: own, ..provider })
            }
        }),
        ({
            let after = provider.changed(SessionChange::Effort { normalized: effort });
            if provider.backend is Native && provider.model == provider.effort_model && (effort
                == "low"@ || effort == "medium"@ || effort == "high"@ || effort == "xhigh"@
                || effort == "max"@) {
                after == (ProviderView { reasoning_effort: Some(effort), ..provider })
            } else {
                after == provider
            }
        }),
        provider.changed(SessionChange::Premium { mode }) == (ProviderView {
            premium_mode: mode,
            ..provider
        }),
        ({
            let after = provider.changed(SessionChange::Turn { raw });
            let counts = raw && (provider.premium_mode == PremiumMode::Normal || (
            provider.premium_mode == PremiumMode::OnePerSession && provider.user_turn_count == 0));
            &&& !counts ==> after == provider
            &&& counts && provider.user_turn_count < u64::MAX ==> after == (ProviderView {
                user_turn_count: (provider.user_turn_count + 1) as u64,
                ..provider
            })
        }),
{
    reveal_strlit("copilot:");
    assert("copilot:"@.len() == 8);
    crate::model::law_efforts(effort);
}

/// What is said where a model or a reasoning effort is refused, and that all
/// else is accepted.
pub proof fn law_settings_are_refused_for_a_reason(
    provider: ProviderView,
    after: ProviderView,
    name: Seq<char>,
    normalized: Seq<char>,
    r: Result<(), CopilotError>,
)
    ensures
        provider.model_chosen(after, name, r) ==> {
            let own = if "copilot:"@.is_prefix_of(trimmed(name)) {
                trimmed(trimmed(name).skip(8))
            } else {
                trimmed(name)
            };
            &&& own.len() == 0 ==> r == Err::<(), CopilotError>(CopilotError::EmptyModel)
            &&& own.len() > 0 && contains_text(own, "[1m]"@) ==> r == Err::<(), CopilotError>(
                CopilotError::LongContextModel,
            )
            &&& own.len() > 0 && !contains_text(own, "[1m]"@) ==> r is Ok && after.model == own
        },
        provider.effort_chosen(after, name, normalized, r) ==> {
            let known = normalized == "low"@ || normalized == "medium"@ || normalized == "high"@
                || normalized == "xhigh"@ || normalized == "max"@;
            &&& provider.backend is OfficialCli ==> r == Err::<(), CopilotError>(
                CopilotError::EffortTransport,
            )
            &&& provider.backend is Native && provider.model != provider.effort_model ==> (
            r matches Err(CopilotError::EffortModel { model, .. }) && model@ == provider.model)
            &&& provider.backend is Native && provider.model == provider.effort_model && !known
                ==> (r matches Err(CopilotError::EffortUnknown { effort, .. }) && effort@ == name)
            &&& provider.backend is Native && provider.model == provider.effort_model && known
                ==> r is Ok && after.reasoning_effort == Some(normalized)
        },
{
    reveal_strlit("copilot:");
    assert("copilot:"@.len() == 8);
    crate::model::law_efforts(normalized);
}

/// A session begins with the model and the premium mode that the environment
/// asks for, or else with the known default and all turns counting; it has had
/// no turn and asks for no effort.
pub proof fn law_sessions_begin_as_asked(
    backend: CopilotBackend,
    settings: SessionSettings,
    known: KnownModels,
)
    ensures
        ({
            let begun = initial_provider(backend, settings, known);
            &&& begun.backend == backend
            &&& settings.model matches Some(model) ==> begun.model == model@
            &&& settings.model is None ==> begun.model == known.default_model@
            &&& begun.effort_model == known.effort_model@
            &&& settings.premium is None ==> begun.premium_mode == PremiumMode::Normal
            &&& settings.premium matches Some(mode) ==> {
                &&& mode@ == "0"@ ==> begun.premium_mode == PremiumMode::Zero
                &&& mode@ == "1"@ ==> begun.premium_mode == PremiumMode::OnePerSession
                &&& mode@ != "0"@ && mode@ != "1"@ ==> begun.premium_mode == PremiumMode::Normal
            }
            &&& begun.user_turn_count == 0
            &&& begun.reasoning_effort is None
        }),
{
    match settings.premium {
        Some(mode) => crate::transport::law_premium_modes(mode@),
        None => crate::transport::law_premium_modes(Seq::empty()),
    }
}

/// A session that is split off has all settings of the other, and none of its
/// turns.
pub proof fn law_forks_keep_the_settings(provider: ProviderView)
    ensures
        provider.forked() == (ProviderView { user_turn_count: 0, ..provider }),
        provider.forked().forked() == provider.forked(),
{
}

/// The models that are shown are those that are offered for choice, in their
/// order and each as often as it is listed; where none is, they are all.
pub proof fn law_offered_models_are_shown(
    models: Seq<CopilotModel>,
    more: Seq<CopilotModel>,
    model: CopilotModel,
    i: int,
)
    ensures
        picker_ids(models + more) == picker_ids(models) + picker_ids(more),
        picker_ids(seq![model]) == (if model.model_picker_enabled {
            seq![model.id@]
        } else {
            Seq::empty()
        }),
        (forall|k: int| 0 <= k < models.len() ==> !(#[trigger] models[k]).model_picker_enabled)
            ==> display_ids(models).len() == models.len() && (0 <= i < models.len() ==> display_ids(
            models,
        )[i] == models[i].id@),
        0 <= i < models.len() && models[i].model_picker_enabled ==> display_ids(models)
            == picker_ids(models) && display_ids(models).contains(models[i].id@),
    decreases models.len() + more.len(),
{
    reveal_with_fuel(picker_ids, 2);
    let one = seq![model];
    assert(one.drop_last() =~= Seq::empty());
    assert(picker_ids(one) =~= if model.model_picker_enabled {
        seq![model.id@]
    } else {
        Seq::empty()
    });
    if more.len() == 0 {
        assert(models + more =~= models);
        assert(picker_ids(models) + picker_ids(more) =~= picker_ids(models));
    } else {
        let all = models + more;
        assert(all.drop_last() =~= models + more.drop_last());
        assert(all.last() == more.last());
        law_offered_models_are_shown(models, more.drop_last(), model, i);
        assert(picker_ids(all) =~= picker_ids(models) + picker_ids(more));
    }
    lemma_picked(models, i);
}

/// A model that is offered for choice is among those that are, and where none
/// is, none is.
proof fn lemma_picked(models: Seq<CopilotModel>, i: int)
    ensures
        (forall|k: int| 0 <= k < models.len() ==> !(#[trigger] models[k]).model_picker_enabled)
            ==> picker_ids(models).len() == 0,
        0 <= i < models.len() && models[i].model_picker_enabled ==> picker_ids(models).contains(
            models[i].id@,
        ),
    decreases models.len(),
{
    if models.len() > 0 {
        let rest = models.drop_last();
        lemma_picked(rest, i);
        assert(models.last() == models[models.len() - 1]);
        assert forall|k: int| 0 <= k < rest.len() implies rest[k] == models[k] by {}
        if 0 <= i < models.len() && models[i].model_picker_enabled {
            if i < models.len() - 1 {
                let k = choose|k: int|
                    0 <= k < picker_ids(rest).len() && picker_ids(rest)[k] == models[i].id@;
                assert(picker_ids(models)[k] == models[i].id@);
            } else {
                assert(picker_ids(models).last() == models[i].id@);
            }
        }
    }
}

/// A token that was fetched earlier is used, as it is, until it has expired.
pub proof fn law_tokens_are_used_until_they_expire(cached: CachedToken)
    ensures
        !cached.expired ==> usable(Some(&cached)) == Some(cached.token@),
        cached.expired ==> usable(Some(&cached)) is None,
        usable(None) is None,
{
}

/// A machine keeps the identifier that it has.
pub proof fn law_machines_keep_their_id(stored: Seq<char>, id: Seq<char>)
    requires
        exists|i: int| 0 <= i < stored.len() && !crate::text::white_space(#[trigger] stored[i]),
    ensures
        machine_id_for(Some(stored), id) <==> id == trimmed(stored),
{
    crate::identity::law_stored_ids_count(stored);
}

/// A session shows all of its settings, as they are.
pub proof fn law_sessions_show_their_settings(provider: CopilotApiProvider)
    ensures
        provider@.backend == *provider.backend,
        provider@.model == provider.model@,
        provider@.premium_mode == provider.premium_mode,
        provider@.user_turn_count == provider.user_turn_count,
        provider.reasoning_effort matches Some(effort) ==> provider@.reasoning_effort == Some(
            effort@,
        ),
        provider.reasoning_effort is None ==> provider@.reasoning_effort is None,
        provider@.effort_model == provider.effort_model@,
        provider@.official() <==> provider@.backend is OfficialCli,
{
}

/// A request asks for the effort that was chosen where it is for the one model
/// that takes one, and for none where it is for another.
pub proof fn law_efforts_are_asked_for(provider: ProviderView, model: Seq<char>)
    ensures
        model == provider.effort_model ==> provider.effort_for(model) == provider.reasoning_effort,
        model != provider.effort_model ==> provider.effort_for(model) is None,
{
}

} // verus!
