//! Which of the providers a request goes to.

use crate::transport::{unavailable_message, unavailable_reason, CopilotEnvironment};
use vstd::prelude::*;
use vstd::string::*;

verus! {

/// How the instructions of a request are given: as one text, or as a part that
/// stays and a part that changes.
#[derive(Clone, Copy, Debug)]
pub enum CompletionMode<'a> {
    Unified { system: &'a str },
    Split { system_static: &'a str, system_dynamic: &'a str },
}

impl<'a> CompletionMode<'a> {
    /// The bytes of the instructions.
    pub open spec fn system_bytes(self) -> nat {
        match self {
            CompletionMode::Unified { system } => system.spec_bytes().len(),
            CompletionMode::Split { system_static, system_dynamic } => (
            system_static.spec_bytes().len() + system_dynamic.spec_bytes().len()) as nat,
        }
    }

    /// What stands behind a message in the log.
    pub fn log_suffix(self) -> (r: &'static str)
        ensures
            r@ == (if self is Unified {
                ""@
            } else {
                " (split)"@
            }),
    {
        match self {
            CompletionMode::Unified { .. } => "",
            CompletionMode::Split { .. } => " (split)",
        }
    }

    /// What stands before a message in the log that another provider is used.
    pub fn switch_log_prefix(self) -> (r: &'static str)
        ensures
            r@ == (if self is Unified {
                "Auto-fallback"@
            } else {
                "Auto-fallback (split)"@
            }),
    {
        match self {
            CompletionMode::Unified { .. } => "Auto-fallback",
            CompletionMode::Split { .. } => "Auto-fallback (split)",
        }
    }
}

/// The provider that is chosen.
#[derive(Clone, Copy, Debug, PartialEq, Eq, Structural)]
pub enum ActiveProvider {
    Anthropic,
    OpenAI,
    Copilot,
    Antigravity,
    Gemini,
    Cursor,
    Bedrock,
    OpenRouter,
}

/// The provider that a request goes to. Two serve the models of Anthropic: its
/// API, and its CLI.
#[derive(Clone, Copy, Debug, PartialEq, Eq, Structural)]
pub enum ProviderSlot {
    AnthropicApi,
    AnthropicCli,
    OpenAI,
    Copilot,
    Antigravity,
    Gemini,
    Cursor,
    Bedrock,
    OpenRouter,
}

/// How a request with split instructions is handed to a provider.
#[derive(Clone, Copy, Debug, PartialEq, Eq, Structural)]
pub enum SplitCall {
    /// With where it runs and what the user says in it.
    WithContext,
    /// Without.
    Plain,
}

/// What is said where a provider is not there, as far as it is not said here.
#[derive(Debug)]
pub struct UnavailableWords {
    pub anthropic: String,
    pub copilot: String,
}

impl UnavailableWords {
    /// The words where Copilot is reached as the environment says.
    pub fn in_environment(anthropic: String, env: &CopilotEnvironment) -> (words: Self)
        ensures
            words.anthropic == anthropic,
            words.copilot@ == unavailable_reason(*env),
    {
        UnavailableWords { anthropic, copilot: unavailable_message(env) }
    }
}

/// Which providers are there.
#[derive(Clone, Copy, Debug)]
pub struct MultiProvider {
    pub anthropic_api: bool,
    pub anthropic_cli: bool,
    pub openai: bool,
    pub copilot: bool,
    pub antigravity: bool,
    pub gemini: bool,
    pub cursor: bool,
    pub bedrock: bool,
    pub openrouter: bool,
}

/// What is said where a provider is not there.
pub open spec fn unavailable_text(provider: ActiveProvider, words: UnavailableWords) -> Seq<char> {
    match provider {
        ActiveProvider::Anthropic => words.anthropic@,
        ActiveProvider::OpenAI =>
            "OpenAI credentials not available. Run `jcode login --provider openai` to log in."@,
        ActiveProvider::Copilot => words.copilot@,
        ActiveProvider::Antigravity =>
            "Antigravity is not available. Run `jcode login --provider antigravity`."@,
        ActiveProvider::Gemini =>
            "Gemini is not available. Run `jcode login --provider gemini`."@,
        ActiveProvider::Cursor =>
            "Cursor is not available. Run `jcode login --provider cursor`."@,
        ActiveProvider::Bedrock =>
            "AWS Bedrock is not available. Configure AWS credentials and region, or set AWS_PROFILE/AWS_REGION."@,
        ActiveProvider::OpenRouter =>
            "OpenRouter credentials not available. Set OPENROUTER_API_KEY environment variable."@,
    }
}

/// What is said where a provider is not there.
fn unavailable(provider: ActiveProvider, words: &UnavailableWords) -> (r: String)
    ensures
        r@ == unavailable_text(provider, *words),
{
    match provider {
        ActiveProvider::Anthropic => words.anthropic.clone(),
        ActiveProvider::OpenAI =>
            "OpenAI credentials not available. Run `jcode login --provider openai` to log in.".to_owned(),
        ActiveProvider::Copilot => words.copilot.clone(),
        ActiveProvider::Antigravity =>
            "Antigravity is not available. Run `jcode login --provider antigravity`.".to_owned(),
        ActiveProvider::Gemini =>
            "Gemini is not available. Run `jcode login --provider gemini`.".to_owned(),
        ActiveProvider::Cursor =>
            "Cursor is not available. Run `jcode login --provider cursor`.".to_owned(),
        ActiveProvider::Bedrock =>
            "AWS Bedrock is not available. Configure AWS credentials and region, or set AWS_PROFILE/AWS_REGION.".to_owned(),
        ActiveProvider::OpenRouter =>
            "OpenRouter credentials not available. Set OPENROUTER_API_KEY environment variable.".to_owned(),
    }
}

impl MultiProvider {
    /// Where a request to the chosen provider goes, if that is there.
    pub open spec fn slot(self, provider: ActiveProvider) -> Option<ProviderSlot> {
        match provider {
            ActiveProvider::Anthropic => if self.anthropic_api {
                Some(ProviderSlot::AnthropicApi)
            } else if self.anthropic_cli {
                Some(ProviderSlot::AnthropicCli)
            } else {
                None
            },
            ActiveProvider::OpenAI => if self.openai {
                Some(ProviderSlot::OpenAI)
            } else {
                None
            },
            ActiveProvider::Copilot => if self.copilot {
                Some(ProviderSlot::Copilot)
            } else {
                None
            },
            ActiveProvider::Antigravity => if self.antigravity {
                Some(ProviderSlot::Antigravity)
            } else {
                None
            },
            ActiveProvider::Gemini => if self.gemini {
                Some(ProviderSlot::Gemini)
            } else {
                None
            },
            ActiveProvider::Cursor => if self.cursor {
                Some(ProviderSlot::Cursor)
            } else {
                None
            },
            ActiveProvider::Bedrock => if self.bedrock {
                Some(ProviderSlot::Bedrock)
            } else {
                None
            },
            ActiveProvider::OpenRouter => if self.openrouter {
                Some(ProviderSlot::OpenRouter)
            } else {
                None
            },
        }
    }

    /// Where a request to the chosen provider goes, if that is there.
    fn slot_of(&self, provider: ActiveProvider) -> (r: Option<ProviderSlot>)
        ensures
            r == self.slot(provider),
    {
        let (there, slot) = match provider {
            ActiveProvider::Anthropic => {
                if self.anthropic_api {
                    (true, ProviderSlot::AnthropicApi)
                } else {
                    (self.anthropic_cli, ProviderSlot::AnthropicCli)
                }
            },
            ActiveProvider::OpenAI => (self.openai, ProviderSlot::OpenAI),
            ActiveProvider::Copilot => (self.copilot, ProviderSlot::Copilot),
            ActiveProvider::Antigravity => (self.antigravity, ProviderSlot::Antigravity),
            ActiveProvider::Gemini => (self.gemini, ProviderSlot::Gemini),
            ActiveProvider::Cursor => (self.cursor, ProviderSlot::Cursor),
            ActiveProvider::Bedrock => (self.bedrock, ProviderSlot::Bedrock),
            ActiveProvider::OpenRouter => (self.openrouter, ProviderSlot::OpenRouter),
        };
        if there {
            Some(slot)
        } else {
            None
        }
    }

    /// The size of a request, in bytes and in tokens, where a token is taken
    /// for four bytes. `messages_len` and `tools_len` are the bytes of its
    /// messages and tools as JSON.
    pub fn estimate_request_input(
        messages_len: usize,
        tools_len: usize,
        mode: CompletionMode<'_>,
    ) -> (r: (usize, usize))
        requires
            messages_len + tools_len + mode.system_bytes() <= usize::MAX,
        ensures
            r.0 == messages_len + tools_len + mode.system_bytes(),
            r.1 == (messages_len + tools_len + mode.system_bytes()) / 4,
    {
        let system: usize = match mode {
            CompletionMode::Unified { system } => system.len(),
            CompletionMode::Split { system_static, system_dynamic } => system_static.len()
                + system_dynamic.len(),
        };
        let chars: usize = messages_len + tools_len + system;
        (chars, chars / 4)
    }

    /// Where a request goes, or what is said where its provider is not there.
    pub fn complete_on_provider(&self, provider: ActiveProvider, words: &UnavailableWords) -> (r:
        Result<ProviderSlot, String>)
        ensures
            match self.slot(provider) {
                Some(slot) => r == Ok::<ProviderSlot, String>(slot),
                None => r matches Err(text) && text@ == unavailable_text(provider, *words),
            },
    {
        match self.slot_of(provider) {
            Some(slot) => Ok(slot),
            None => Err(unavailable(provider, words)),
        }
    }

    /// Where a request with split instructions goes and how it is handed over,
    /// or what is said where its provider is not there.
    pub fn complete_split_on_provider(
        &self,
        provider: ActiveProvider,
        has_context: bool,
        words: &UnavailableWords,
    ) -> (r: Result<(ProviderSlot, SplitCall), String>)
        ensures
            match self.slot(provider) {
                Some(slot) => r == Ok::<(ProviderSlot, SplitCall), String>(
                    (
                        slot,
                        if has_context {
                            SplitCall::WithContext
                        } else {
                            SplitCall::Plain
                        },
                    ),
                ),
                None => r matches Err(text) && text@ == unavailable_text(provider, *words),
            },
    {
        match self.slot_of(provider) {
            Some(slot) => Ok((slot, complete_split_for_request(has_context))),
            None => Err(unavailable(provider, words)),
        }
    }
}

/// How a request with split instructions is handed to a provider.
pub fn complete_split_for_request(has_context: bool) -> (call: SplitCall)
    ensures
        call == (if has_context {
            SplitCall::WithContext
        } else {
            SplitCall::Plain
        }),
{
    if has_context {
        SplitCall::WithContext
    } else {
        SplitCall::Plain
    }
}

/// A request goes to the provider that was chosen and to no other: the slots of
/// two providers differ.
pub proof fn law_requests_go_where_chosen(
    providers: MultiProvider,
    chosen: ActiveProvider,
    other: ActiveProvider,
)
    requires
        chosen != other,
        providers.slot(chosen) is Some,
    ensures
        providers.slot(chosen) != providers.slot(other),
{
}

/// A provider that is not there is not replaced by another: whether a request
/// finds it depends on it alone, whichever others are there.
pub proof fn law_absent_providers_are_not_replaced(
    providers: MultiProvider,
    others: MultiProvider,
    chosen: ActiveProvider,
)
    requires
        match chosen {
            ActiveProvider::Anthropic => providers.anthropic_api == others.anthropic_api
                && providers.anthropic_cli == others.anthropic_cli,
            ActiveProvider::OpenAI => providers.openai == others.openai,
            ActiveProvider::Copilot => providers.copilot == others.copilot,
            ActiveProvider::Antigravity => providers.antigravity == others.antigravity,
            ActiveProvider::Gemini => providers.gemini == others.gemini,
            ActiveProvider::Cursor => providers.cursor == others.cursor,
            ActiveProvider::Bedrock => providers.bedrock == others.bedrock,
            ActiveProvider::OpenRouter => providers.openrouter == others.openrouter,
        },
    ensures
        providers.slot(chosen) == others.slot(chosen),
{
}

/// A request finds the provider that was chosen where that is there, and only
/// there. Two providers serve the models of Anthropic: its API where that is
/// there, and its CLI where only that is.
pub proof fn law_chosen_providers_are_found(providers: MultiProvider)
    ensures
        providers.anthropic_api ==> providers.slot(ActiveProvider::Anthropic) == Some(
            ProviderSlot::AnthropicApi,
        ),
        !providers.anthropic_api && providers.anthropic_cli ==> providers.slot(
            ActiveProvider::Anthropic,
        ) == Some(ProviderSlot::AnthropicCli),
        providers.slot(ActiveProvider::Anthropic) is None <==> !providers.anthropic_api
            && !providers.anthropic_cli,
        providers.slot(ActiveProvider::OpenAI) == (if providers.openai {
            Some(ProviderSlot::OpenAI)
        } else {
            None
        }),
        providers.slot(ActiveProvider::Copilot) == (if providers.copilot {
            Some(ProviderSlot::Copilot)
        } else {
            None
        }),
        providers.slot(ActiveProvider::Antigravity) == (if providers.antigravity {
            Some(ProviderSlot::Antigravity)
        } else {
            None
        }),
        providers.slot(ActiveProvider::Gemini) == (if providers.gemini {
            Some(ProviderSlot::Gemini)
        } else {
            None
        }),
        providers.slot(ActiveProvider::Cursor) == (if providers.cursor {
            Some(ProviderSlot::Cursor)
        } else {
            None
        }),
        providers.slot(ActiveProvider::Bedrock) == (if providers.bedrock {
            Some(ProviderSlot::Bedrock)
        } else {
            None
        }),
        providers.slot(ActiveProvider::OpenRouter) == (if providers.openrouter {
            Some(ProviderSlot::OpenRouter)
        } else {
            None
        }),
{
}

/// A provider that is not there says what can be done about it.
pub proof fn law_absent_providers_say_what_to_do(words: UnavailableWords)
    ensures
        unavailable_text(ActiveProvider::Anthropic, words) == words.anthropic@,
        unavailable_text(ActiveProvider::Copilot, words) == words.copilot@,
        unavailable_text(ActiveProvider::OpenAI, words)
            == "OpenAI credentials not available. Run `jcode login --provider openai` to log in."@,
        unavailable_text(ActiveProvider::Antigravity, words)
            == "Antigravity is not available. Run `jcode login --provider antigravity`."@,
        unavailable_text(ActiveProvider::Gemini, words)
            == "Gemini is not available. Run `jcode login --provider gemini`."@,
        unavailable_text(ActiveProvider::Cursor, words)
            == "Cursor is not available. Run `jcode login --provider cursor`."@,
        unavailable_text(ActiveProvider::Bedrock, words)
            == "AWS Bedrock is not available. Configure AWS credentials and region, or set AWS_PROFILE/AWS_REGION."@,
        unavailable_text(ActiveProvider::OpenRouter, words)
            == "OpenRouter credentials not available. Set OPENROUTER_API_KEY environment variable."@,
{
}

/// The size of a request's instructions is that of all of them.
pub proof fn law_instructions_are_counted(system_static: &str, system_dynamic: &str)
    ensures
        (CompletionMode::Unified { system: system_static }).system_bytes()
            == system_static.spec_bytes().len(),
        (CompletionMode::Split { system_static, system_dynamic }).system_bytes()
            == system_static.spec_bytes().len() + system_dynamic.spec_bytes().len(),
{
}

} // verus!
