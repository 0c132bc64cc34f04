//! What can go wrong, and how it is said to the user.

use crate::text::{concat3, decimal, decimal_text};
use vstd::prelude::*;

verus! {

/// The seconds that the official CLI has to answer a request.
pub const ACP_REQUEST_TIMEOUT_SECS: u64 = 30;

/// The seconds that the official CLI has to answer a prompt.
pub const ACP_PROMPT_TIMEOUT_SECS: u64 = 3600;

/// A request to the official CLI.
#[derive(Clone, Copy, Debug, PartialEq, Eq, Structural)]
pub enum AcpRequest {
    Initialize,
    NewSession,
    LoadSession,
    SetModel,
    Prompt,
}

impl AcpRequest {
    /// The request's name in the protocol.
    pub open spec fn name_text(self) -> Seq<char> {
        match self {
            AcpRequest::Initialize => "initialize"@,
            AcpRequest::NewSession => "session/new"@,
            AcpRequest::LoadSession => "session/load"@,
            AcpRequest::SetModel => "session/set_model"@,
            AcpRequest::Prompt => "session/prompt"@,
        }
    }

    /// The seconds that the official CLI has to answer the request.
    pub open spec fn limit(self) -> u64 {
        if self == AcpRequest::Prompt {
            ACP_PROMPT_TIMEOUT_SECS
        } else {
            ACP_REQUEST_TIMEOUT_SECS
        }
    }

    /// The request's name in the protocol.
    pub fn name(&self) -> (r: &'static str)
        ensures
            r@ == self.name_text(),
    {
        match self {
            AcpRequest::Initialize => "initialize",
            AcpRequest::NewSession => "session/new",
            AcpRequest::LoadSession => "session/load",
            AcpRequest::SetModel => "session/set_model",
            AcpRequest::Prompt => "session/prompt",
        }
    }

    /// The seconds that the official CLI has to answer the request.
    pub fn timeout_secs(&self) -> (r: u64)
        ensures
            r == self.limit(),
    {
        match self {
            AcpRequest::Prompt => ACP_PROMPT_TIMEOUT_SECS,
            _ => ACP_REQUEST_TIMEOUT_SECS,
        }
    }
}

/// Why a turn of the official CLI ended without an answer.
#[derive(Debug)]
pub enum RuntimeError {
    /// The worker no longer took the turn.
    ConnectionClosed,
    /// The connection ended while a request was open.
    ClosedDuring(AcpRequest),
    /// The official CLI answered a request with an error.
    Refused(AcpRequest, String),
    /// The official CLI did not answer a request in time.
    TimedOut(AcpRequest),
    /// The turn resumes a session and the official CLI cannot load one.
    LoadUnsupported,
}

/// What a turn's end without an answer holds.
pub enum RuntimeErrorView {
    ConnectionClosed,
    ClosedDuring(AcpRequest),
    Refused(AcpRequest, Seq<char>),
    TimedOut(AcpRequest),
    LoadUnsupported,
}

impl View for RuntimeError {
    type V = RuntimeErrorView;

    open spec fn view(&self) -> RuntimeErrorView {
        match self {
            RuntimeError::ConnectionClosed => RuntimeErrorView::ConnectionClosed,
            RuntimeError::ClosedDuring(request) => RuntimeErrorView::ClosedDuring(*request),
            RuntimeError::Refused(request, message) => RuntimeErrorView::Refused(
                *request,
                message@,
            ),
            RuntimeError::TimedOut(request) => RuntimeErrorView::TimedOut(*request),
            RuntimeError::LoadUnsupported => RuntimeErrorView::LoadUnsupported,
        }
    }
}

/// What is said of a turn that can be tried again on another worker.
pub open spec fn retryable_text() -> Seq<char> {
    "Official Copilot CLI connection closed before the turn could complete; retry the request"@
}

/// What stands before the reason where a prompt has failed.
pub open spec fn prompt_context(request: AcpRequest) -> Seq<char> {
    if request == AcpRequest::Prompt {
        "official Copilot CLI request failed: "@
    } else {
        Seq::empty()
    }
}

impl RuntimeErrorView {
    /// The error in words, what was being done before what went wrong.
    pub open spec fn text(self) -> Seq<char> {
        match self {
            RuntimeErrorView::ConnectionClosed => retryable_text(),
            RuntimeErrorView::ClosedDuring(AcpRequest::Prompt) => prompt_context(AcpRequest::Prompt)
                + retryable_text(),
            RuntimeErrorView::ClosedDuring(request) => "during "@ + request.name_text() + ": "@
                + retryable_text(),
            RuntimeErrorView::Refused(request, message) => prompt_context(request)
                + "Official Copilot CLI ACP "@ + request.name_text() + " failed: "@ + message,
            RuntimeErrorView::TimedOut(request) => prompt_context(request)
                + "Official Copilot CLI ACP "@ + request.name_text() + " timed out after "@
                + decimal_text(request.limit() as nat) + "s"@,
            RuntimeErrorView::LoadUnsupported =>
                "Official Copilot CLI does not advertise ACP session/load support"@,
        }
    }
}

/// What is said of a turn that can be tried again on another worker.
pub fn official_runtime_retryable_error() -> (r: &'static str)
    ensures
        r@ == retryable_text(),
{
    "Official Copilot CLI connection closed before the turn could complete; retry the request"
}

/// What stands before the reason where a prompt has failed.
fn context_of(request: &AcpRequest) -> (r: &'static str)
    ensures
        r@ == prompt_context(*request),
{
    match request {
        AcpRequest::Prompt => "official Copilot CLI request failed: ",
        _ => {
            proof {
                reveal_strlit("");
            }
            assert(""@ =~= Seq::<char>::empty());
            ""
        },
    }
}

impl RuntimeError {
    /// The error in words, what was being done before what went wrong.
    pub fn message(&self) -> (r: String)
        ensures
            r@ == self@.text(),
    {
        match self {
            RuntimeError::ConnectionClosed => official_runtime_retryable_error().to_owned(),
            RuntimeError::ClosedDuring(request) => match request {
                AcpRequest::Prompt => {
                    let mut text = context_of(request).to_owned();
                    text.append(official_runtime_retryable_error());
                    text
                },
                _ => {
                    let mut text = concat3("during ", request.name(), ": ");
                    text.append(official_runtime_retryable_error());
                    text
                },
            },
            RuntimeError::Refused(request, message) => {
                let mut text = concat3(
                    context_of(request),
                    "Official Copilot CLI ACP ",
                    request.name(),
                );
                text.append(" failed: ");
                text.append(message.as_str());
                text
            },
            RuntimeError::TimedOut(request) => {
                let mut text = concat3(
                    context_of(request),
                    "Official Copilot CLI ACP ",
                    request.name(),
                );
                text.append(" timed out after ");
                text.append(decimal(request.timeout_secs()).as_str());
                text.append("s");
                text
            },
            RuntimeError::LoadUnsupported =>
                "Official Copilot CLI does not advertise ACP session/load support".to_owned(),
        }
    }
}

/// What is wrong with a request or a setting, or with the way to the official
/// CLI.
#[derive(Debug)]
pub enum CopilotError {
    /// A request of the official CLI has no text of the user.
    MissingPrompt,
    /// A request of the official CLI holds earlier answers, and names no
    /// session in which they were given.
    DisconnectedHistory,
    /// A request of the official CLI holds an image.
    ImageInput,
    /// A request of the official CLI holds something else that it cannot take.
    UnsupportedContent,
    /// A request of the official CLI names no working directory.
    MissingWorkingDirectory,
    /// The official CLI is asked for on the native transport.
    NotOfficialCli,
    /// A bearer token is asked for on the transport that has none.
    NoBearerToken,
    /// A native request is made on the official transport.
    NotNative,
    /// The model's name is empty.
    EmptyModel,
    /// The model is a long-context one, which Copilot does not serve.
    LongContextModel,
    /// A request is using the model.
    ModelInUse,
    /// The official transport takes no reasoning effort.
    EffortTransport,
    /// The model takes no reasoning effort; one other model does.
    EffortModel { model: String, effort_model: String },
    /// The reasoning effort is not one of those that can be asked for.
    EffortUnknown { effort: String, effort_model: String },
    /// No transport has the name that was asked for, which the look-up says in
    /// these words.
    UnknownTransport { words: String },
    /// The transport is another one, and cannot be changed.
    TransportFixed { current: &'static str, requested: &'static str },
    /// The official CLI speaks another version of the protocol.
    UnsupportedProtocol { version: String },
    /// The official CLI answered a request with an error.
    RequestFailed { request: AcpRequest, message: String },
    /// The official CLI did not answer a request in time.
    RequestTimedOut { request: AcpRequest },
    /// The worker did not come up in time.
    StartTimedOut,
    /// Something else that was reported in words.
    Reported { message: String },
    /// The worker no longer takes turns.
    ConnectionClosed,
}

impl CopilotError {
    /// The error in words.
    pub open spec fn text(self) -> Seq<char> {
        match self {
            CopilotError::MissingPrompt =>
                "An explicit current user prompt is required for official Copilot CLI requests"@,
            CopilotError::DisconnectedHistory =>
                "The official-cli ACP transport cannot replay disconnected history"@,
            CopilotError::ImageInput =>
                "Image input is not supported by the official-cli ACP transport"@,
            CopilotError::UnsupportedContent =>
                "Unsupported current user content for the official-cli ACP transport"@,
            CopilotError::MissingWorkingDirectory =>
                "Official Copilot CLI requests require a session working directory"@,
            CopilotError::NotOfficialCli => "Copilot transport is not official-cli"@,
            CopilotError::NoBearerToken =>
                "Native Copilot bearer tokens are unavailable on official-cli transport"@,
            CopilotError::NotNative => "Native Copilot request attempted on official-cli transport"@,
            CopilotError::EmptyModel => "Copilot model cannot be empty"@,
            CopilotError::LongContextModel =>
                "1M context window models are not supported via Copilot. Use the Anthropic API directly."@,
            CopilotError::ModelInUse => "Cannot change model while a request is in progress"@,
            CopilotError::EffortTransport =>
                "Reasoning effort selection is not supported by the official-cli ACP transport"@,
            CopilotError::EffortModel { model, effort_model } =>
                "Reasoning effort is not supported for Copilot model '"@ + model@ + "' (only "@
                + effort_model@ + ")"@,
            CopilotError::EffortUnknown { effort, effort_model } =>
                "Unsupported reasoning effort '"@ + effort@ + "' for Copilot "@ + effort_model@
                + ". Supported: low, medium, high, xhigh, max"@,
            CopilotError::UnknownTransport { words } => words@,
            CopilotError::TransportFixed { current, requested } =>
                "Copilot transport is fixed at construction ("@ + current@
                + "); set JCODE_COPILOT_TRANSPORT="@ + requested@ + " and restart jcode"@,
            CopilotError::UnsupportedProtocol { version } =>
                "Official Copilot CLI negotiated unsupported ACP protocol version "@ + version@,
            CopilotError::RequestFailed { request, message } => "Official Copilot CLI ACP "@
                + request.name_text() + " failed: "@ + message@,
            CopilotError::RequestTimedOut { request } => "Official Copilot CLI ACP "@
                + request.name_text() + " timed out after "@ + decimal_text(30) + "s"@,
            CopilotError::StartTimedOut =>
                "Official Copilot CLI ACP runtime did not initialize within "@ + decimal_text(30)
                + "s"@,
            CopilotError::Reported { message } => message@,
            CopilotError::ConnectionClosed => retryable_text(),
        }
    }

    /// The error in words.
    pub fn message(&self) -> (r: String)
        ensures
            r@ == self.text(),
    {
        match self {
            CopilotError::EffortModel { model, effort_model } => {
                let mut text = concat3(
                    "Reasoning effort is not supported for Copilot model '",
                    model.as_str(),
                    "' (only ",
                );
                text.append(effort_model.as_str());
                text.append(")");
                text
            },
            CopilotError::EffortUnknown { effort, effort_model } => {
                let mut text = concat3(
                    "Unsupported reasoning effort '",
                    effort.as_str(),
                    "' for Copilot ",
                );
                text.append(effort_model.as_str());
                text.append(". Supported: low, medium, high, xhigh, max");
                text
            },
            CopilotError::UnknownTransport { words } => words.clone(),
            CopilotError::TransportFixed { current, requested } => {
                let mut text = concat3(
                    "Copilot transport is fixed at construction (",
                    current,
                    "); set JCODE_COPILOT_TRANSPORT=",
                );
                text.append(requested);
                text.append(" and restart jcode");
                text
            },
            CopilotError::UnsupportedProtocol { version } => {
                let mut text =
                    "Official Copilot CLI negotiated unsupported ACP protocol version ".to_owned();
                text.append(version.as_str());
                text
            },
            CopilotError::RequestFailed { request, message } => {
                let mut text = concat3(
                    "Official Copilot CLI ACP ",
                    request.name(),
                    " failed: ",
                );
                text.append(message.as_str());
                text
            },
            CopilotError::RequestTimedOut { request } => {
                let mut text = concat3(
                    "Official Copilot CLI ACP ",
                    request.name(),
                    " timed out after ",
                );
                text.append(decimal(ACP_REQUEST_TIMEOUT_SECS).as_str());
                text.append("s");
                text
            },
            CopilotError::StartTimedOut => concat3(
                "Official Copilot CLI ACP runtime did not initialize within ",
                decimal(ACP_REQUEST_TIMEOUT_SECS).as_str(),
                "s",
            ),
            CopilotError::Reported { message } => message.clone(),
            _ => self.fixed_message().to_owned(),
        }
    }

    /// The words of an error that holds nothing.
    fn fixed_message(&self) -> (r: &'static str)
        requires
            !(self is EffortModel || self is EffortUnknown || self is UnknownTransport
                || self is TransportFixed || self is UnsupportedProtocol || self is RequestFailed
                || self is RequestTimedOut || self is StartTimedOut || self is Reported),
        ensures
            r@ == self.text(),
    {
        match self {
            CopilotError::MissingPrompt =>
                "An explicit current user prompt is required for official Copilot CLI requests",
            CopilotError::DisconnectedHistory =>
                "The official-cli ACP transport cannot replay disconnected history",
            CopilotError::ImageInput =>
                "Image input is not supported by the official-cli ACP transport",
            CopilotError::UnsupportedContent =>
                "Unsupported current user content for the official-cli ACP transport",
            CopilotError::MissingWorkingDirectory =>
                "Official Copilot CLI requests require a session working directory",
            CopilotError::NotOfficialCli => "Copilot transport is not official-cli",
            CopilotError::NoBearerToken =>
                "Native Copilot bearer tokens are unavailable on official-cli transport",
            CopilotError::NotNative => "Native Copilot request attempted on official-cli transport",
            CopilotError::EmptyModel => "Copilot model cannot be empty",
            CopilotError::LongContextModel =>
                "1M context window models are not supported via Copilot. Use the Anthropic API directly.",
            CopilotError::ModelInUse => "Cannot change model while a request is in progress",
            CopilotError::EffortTransport =>
                "Reasoning effort selection is not supported by the official-cli ACP transport",
            _ => official_runtime_retryable_error(),
        }
    }
}

/// The requests of the protocol have these names, and an answer is waited for
/// for half a minute, to a prompt for an hour.
pub proof fn law_requests_have_names_and_limits(request: AcpRequest)
    ensures
        AcpRequest::Initialize.name_text() == "initialize"@,
        AcpRequest::NewSession.name_text() == "session/new"@,
        AcpRequest::LoadSession.name_text() == "session/load"@,
        AcpRequest::SetModel.name_text() == "session/set_model"@,
        AcpRequest::Prompt.name_text() == "session/prompt"@,
        AcpRequest::Prompt.limit() == 3600,
        request != AcpRequest::Prompt ==> request.limit() == 30,
{
}

/// What went wrong with a turn is told with the request it went wrong in and,
/// where it was refused, in the official CLI's own words; a prompt that has
/// failed is said to be one.
pub proof fn law_turn_errors_in_words(request: AcpRequest, message: Seq<char>)
    ensures
        RuntimeErrorView::ConnectionClosed.text()
            == "Official Copilot CLI connection closed before the turn could complete; retry the request"@,
        RuntimeErrorView::LoadUnsupported.text()
            == "Official Copilot CLI does not advertise ACP session/load support"@,
        request != AcpRequest::Prompt ==> {
            &&& RuntimeErrorView::Refused(request, message).text() == "Official Copilot CLI ACP "@
                + request.name_text() + " failed: "@ + message
            &&& RuntimeErrorView::TimedOut(request).text() == "Official Copilot CLI ACP "@
                + request.name_text() + " timed out after "@ + "30"@ + "s"@
            &&& RuntimeErrorView::ClosedDuring(request).text() == "during "@ + request.name_text()
                + ": "@ + RuntimeErrorView::ConnectionClosed.text()
        },
        RuntimeErrorView::Refused(AcpRequest::Prompt, message).text()
            == "official Copilot CLI request failed: "@ + "Official Copilot CLI ACP "@
            + "session/prompt"@ + " failed: "@ + message,
        RuntimeErrorView::TimedOut(AcpRequest::Prompt).text()
            == "official Copilot CLI request failed: "@ + "Official Copilot CLI ACP "@
            + "session/prompt"@ + " timed out after "@ + "3600"@ + "s"@,
        RuntimeErrorView::ClosedDuring(AcpRequest::Prompt).text()
            == "official Copilot CLI request failed: "@ + RuntimeErrorView::ConnectionClosed.text(),
{
    crate::text::law_decimal_numbers(0, 0);
    if request != AcpRequest::Prompt {
        let none = Seq::<char>::empty();
        assert(none + "Official Copilot CLI ACP "@ =~= "Official Copilot CLI ACP "@);
    }
}

/// What is wrong with a request or a setting is told in these words.
pub proof fn law_errors_in_words(text: String, other: String, request: AcpRequest)
    ensures
        CopilotError::MissingPrompt.text()
            == "An explicit current user prompt is required for official Copilot CLI requests"@,
        CopilotError::DisconnectedHistory.text()
            == "The official-cli ACP transport cannot replay disconnected history"@,
        CopilotError::ImageInput.text()
            == "Image input is not supported by the official-cli ACP transport"@,
        CopilotError::UnsupportedContent.text()
            == "Unsupported current user content for the official-cli ACP transport"@,
        CopilotError::MissingWorkingDirectory.text()
            == "Official Copilot CLI requests require a session working directory"@,
        CopilotError::NotOfficialCli.text() == "Copilot transport is not official-cli"@,
        CopilotError::NoBearerToken.text()
            == "Native Copilot bearer tokens are unavailable on official-cli transport"@,
        CopilotError::NotNative.text()
            == "Native Copilot request attempted on official-cli transport"@,
        CopilotError::EmptyModel.text() == "Copilot model cannot be empty"@,
        CopilotError::LongContextModel.text()
            == "1M context window models are not supported via Copilot. Use the Anthropic API directly."@,
        CopilotError::ModelInUse.text() == "Cannot change model while a request is in progress"@,
        CopilotError::EffortTransport.text()
            == "Reasoning effort selection is not supported by the official-cli ACP transport"@,
        (CopilotError::EffortModel { model: text, effort_model: other }).text()
            == "Reasoning effort is not supported for Copilot model '"@ + text@ + "' (only "@
            + other@ + ")"@,
        (CopilotError::EffortUnknown { effort: text, effort_model: other }).text()
            == "Unsupported reasoning effort '"@ + text@ + "' for Copilot "@ + other@
            + ". Supported: low, medium, high, xhigh, max"@,
        (CopilotError::UnknownTransport { words: text }).text() == text@,
        (CopilotError::UnsupportedProtocol { version: text }).text()
            == "Official Copilot CLI negotiated unsupported ACP protocol version "@ + text@,
        (CopilotError::RequestFailed { request, message: text }).text()
            == "Official Copilot CLI ACP "@ + request.name_text() + " failed: "@ + text@,
        (CopilotError::RequestTimedOut { request }).text() == "Official Copilot CLI ACP "@
            + request.name_text() + " timed out after "@ + "30"@ + "s"@,
        CopilotError::StartTimedOut.text()
            == "Official Copilot CLI ACP runtime did not initialize within "@ + "30"@ + "s"@,
        (CopilotError::Reported { message: text }).text() == text@,
        CopilotError::ConnectionClosed.text()
            == "Official Copilot CLI connection closed before the turn could complete; retry the request"@,
{
    crate::text::law_decimal_numbers(0, 0);
}

/// A transport that cannot be changed is told with the one that is used and the
/// one that was asked for, and how to get it.
pub proof fn law_fixed_transports_in_words(current: &'static str, requested: &'static str)
    ensures
        (CopilotError::TransportFixed { current, requested }).text()
            == "Copilot transport is fixed at construction ("@ + current@
            + "); set JCODE_COPILOT_TRANSPORT="@ + requested@ + " and restart jcode"@,
{
}

} // verus!
