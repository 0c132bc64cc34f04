//! How a request of the native transport is tried: which failures are tried
//! again, how often, and what the stream is told.

use crate::message::{event_views, StreamEvent, StreamEventView};
use crate::text::{
    ascii_lower, concat, concat3, contains, contains_text, decimal_text, lowercase, occurs_at,
    unicode_lower,
};
use vstd::prelude::*;
use vstd::string::*;

verus! {

/// How often a request is tried.
pub const MAX_RETRIES: u32 = 3;

/// The milliseconds from which the pause before a further try grows.
pub const RETRY_BASE_DELAY_MS: u64 = 1000;

/// The standard reason for an HTTP status, or what stands in its place.
pub uninterp spec fn canonical_reason(code: u16) -> Seq<char>;

/// `reqwest::StatusCode::from_u16` and the `Display` of what it gives: the
/// status as a number, a space, and its standard reason. The reason is named
/// and not written out, but for the statuses that the retry rules speak of.
#[verifier::external_body]
pub(crate) fn status_text(code: u16) -> (r: String)
    requires
        100 <= code <= 999,
    ensures
        r@ == decimal_text(code as nat) + " "@ + canonical_reason(code),
        code == 401 ==> r@ == "401 Unauthorized"@,
        code == 403 ==> r@ == "403 Forbidden"@,
        code == 429 ==> r@ == "429 Too Many Requests"@,
        code == 500 ==> r@ == "500 Internal Server Error"@,
        code == 502 ==> r@ == "502 Bad Gateway"@,
        code == 503 ==> r@ == "503 Service Unavailable"@,
        code == 504 ==> r@ == "504 Gateway Timeout"@,
{
    match reqwest::StatusCode::from_u16(code) {
        Ok(status) => status.to_string(),
        Err(_) => String::new(),
    }
}

/// An HTTP status in words.
pub open spec fn status_words(code: u16) -> Seq<char> {
    decimal_text(code as nat) + " "@ + canonical_reason(code)
}

/// Whether the status says that the token is not or no longer good.
pub fn is_auth_error(status: u16) -> (r: bool)
    ensures
        r == (status == 401 || status == 403),
{
    status == 401 || status == 403
}

/// Whether an error is worth a further try, by its text in lower case:
/// `transient` says whether it is a passing fault of the connection.
pub open spec fn retryable(text: Seq<char>, transient: bool) -> bool {
    ||| transient
    ||| contains_text(text, "500 internal server error"@)
    ||| contains_text(text, "502 bad gateway"@)
    ||| contains_text(text, "503 service unavailable"@)
    ||| contains_text(text, "504 gateway timeout"@)
    ||| contains_text(text, "overloaded"@)
    ||| contains_text(text, "429 too many requests"@)
    ||| contains_text(text, "rate limit"@)
    ||| contains_text(text, "rate_limit"@)
    ||| contains_text(text, "stream error"@)
    ||| contains_text(text, "stream read timeout"@)
}

/// Whether an error is worth a further try, by its text in lower case:
/// `transient` says whether it is a passing fault of the connection.
pub fn is_retryable_error(error_str: &str, transient: bool) -> (r: bool)
    ensures
        r == retryable(error_str@, transient),
{
    transient || contains(error_str, "500 internal server error") || contains(
        error_str,
        "502 bad gateway",
    ) || contains(error_str, "503 service unavailable") || contains(
        error_str,
        "504 gateway timeout",
    ) || contains(error_str, "overloaded") || contains(error_str, "429 too many requests")
        || contains(error_str, "rate limit") || contains(error_str, "rate_limit") || contains(
        error_str,
        "stream error",
    ) || contains(error_str, "stream read timeout")
}

/// The text by which an error is judged: all of it, in lower case.
pub fn judged_text(error: &str) -> (r: String)
    ensures
        r@ == unicode_lower(error@),
        error.is_ascii() ==> r@ == ascii_lower(error@),
        forall|n: int|
            0 <= n <= error@.len() && vstd::utf8::is_ascii_chars(#[trigger] error@.take(n)) ==> n
                <= r@.len() && r@.take(n) == ascii_lower(error@.take(n)),
{
    lowercase(error)
}

/// How what is said of a response that is an error begins.
pub open spec fn http_error_head(status: Seq<char>) -> Seq<char> {
    "Copilot API error (HTTP "@ + status
}

/// What is said of a response that is an error.
pub open spec fn http_error_words(status: Seq<char>, body: Seq<char>) -> Seq<char> {
    http_error_head(status) + "): "@ + body
}

/// What is said of a response that is an error, with the status in words.
pub fn http_error_text(status: &str, body: &str) -> (r: String)
    ensures
        r@ == http_error_words(status@, body@),
{
    let mut text = concat3("Copilot API error (HTTP ", status, "): ");
    text.append(body);
    text
}

/// What is said of a response that is an error.
pub fn http_error_message(status: u16, body: &str) -> (r: String)
    requires
        100 <= status <= 999,
    ensures
        r@ == http_error_words(status_words(status), body@),
        server_fault(status) ==> r@ == http_error_words(server_fault_words(status), body@),
        status == 401 ==> r@ == http_error_words("401 Unauthorized"@, body@),
        status == 403 ==> r@ == http_error_words("403 Forbidden"@, body@),
{
    http_error_text(status_text(status).as_str(), body)
}

/// Whether the status says that the service is at fault or has too much to do.
pub open spec fn server_fault(status: u16) -> bool {
    status == 429 || status == 500 || status == 502 || status == 503 || status == 504
}

/// The words for such a status.
pub open spec fn server_fault_words(status: u16) -> Seq<char> {
    if status == 429 {
        "429 Too Many Requests"@
    } else if status == 500 {
        "500 Internal Server Error"@
    } else if status == 502 {
        "502 Bad Gateway"@
    } else if status == 503 {
        "503 Service Unavailable"@
    } else {
        "504 Gateway Timeout"@
    }
}

/// A response that says that the service is at fault or has too much to do is
/// worth a further try, whatever its text: the text by which it is judged
/// begins with the status in lower case, and what follows does not matter.
pub proof fn law_server_faults_are_retried(status: u16, judged: Seq<char>, transient: bool)
    requires
        server_fault(status),
        ascii_lower(http_error_head(server_fault_words(status))).is_prefix_of(judged),
    ensures
        retryable(judged, transient),
{
    reveal_strlit("Copilot API error (HTTP ");
    reveal_strlit("429 Too Many Requests");
    reveal_strlit("500 Internal Server Error");
    reveal_strlit("502 Bad Gateway");
    reveal_strlit("503 Service Unavailable");
    reveal_strlit("504 Gateway Timeout");
    reveal_strlit("429 too many requests");
    reveal_strlit("500 internal server error");
    reveal_strlit("502 bad gateway");
    reveal_strlit("503 service unavailable");
    reveal_strlit("504 gateway timeout");
    let words = server_fault_words(status);
    let head = ascii_lower(http_error_head(words));
    let needle = ascii_lower(words);
    assert(judged.subrange(24, 24 + words.len() as int) =~= needle) by {
        assert forall|i: int| 0 <= i < words.len() implies judged[24 + i] == needle[i] by {
            assert(judged.take(head.len() as int)[24 + i] == head[24 + i]);
        }
    }
    assert(occurs_at(judged, needle, 24));
    if status == 429 {
        assert(needle =~= "429 too many requests"@);
    } else if status == 500 {
        assert(needle =~= "500 internal server error"@);
    } else if status == 502 {
        assert(needle =~= "502 bad gateway"@);
    } else if status == 503 {
        assert(needle =~= "503 service unavailable"@);
    } else {
        assert(needle =~= "504 gateway timeout"@);
    }
}

/// Whether a response that is an error is worth a further try. One that says
/// that the service is at fault or has too much to do is.
pub fn is_retryable_http_error(status: u16, body: &str, transient: bool) -> (r: bool)
    requires
        100 <= status <= 999,
    ensures
        r == retryable(
            unicode_lower(http_error_words(status_words(status), body@)),
            transient,
        ),
        server_fault(status) ==> r,
{
    let words = status_text(status);
    let message = http_error_text(words.as_str(), body);
    let lowered = judged_text(message.as_str());
    proof {
        if server_fault(status) {
            let head = http_error_head(server_fault_words(status));
            let n = head.len() as int;
            reveal_strlit("Copilot API error (HTTP ");
            reveal_strlit("429 Too Many Requests");
            reveal_strlit("500 Internal Server Error");
            reveal_strlit("502 Bad Gateway");
            reveal_strlit("503 Service Unavailable");
            reveal_strlit("504 Gateway Timeout");
            assert(message@.take(n) =~= head);
            assert(lowered@.take(n) == ascii_lower(head));
            assert(ascii_lower(head).is_prefix_of(lowered@));
            law_server_faults_are_retried(status, lowered@, transient);
        }
    }
    is_retryable_error(lowered.as_str(), transient)
}

/// What a failed try is about.
#[derive(Debug)]
pub struct Failure {
    /// The error, with all that led to it: what the retry rules read.
    pub chain: String,
    /// The error as it is said to the user.
    pub message: String,
    /// Whether the error is a passing fault of the connection.
    pub transient: bool,
}

/// What a failed try holds.
pub struct FailureView {
    pub chain: Seq<char>,
    pub message: Seq<char>,
    pub transient: bool,
}

impl View for Failure {
    type V = FailureView;

    open spec fn view(&self) -> FailureView {
        FailureView {
            chain: self.chain@,
            message: self.message@,
            transient: self.transient,
        }
    }
}

impl FailureView {
    /// Whether the failure is worth a further try.
    pub open spec fn retryable(self) -> bool {
        retryable(unicode_lower(self.chain), self.transient)
    }
}

impl Failure {
    /// Whether the failure is worth a further try.
    fn is_retryable(&self) -> (r: bool)
        ensures
            r == self@.retryable(),
    {
        let lowered = judged_text(self.chain.as_str());
        is_retryable_error(lowered.as_str(), self.transient)
    }
}

/// What a try waits for.
#[derive(Clone, Copy, Debug, PartialEq, Eq, Structural)]
pub enum TryPhase {
    /// A token.
    Token,
    /// A response.
    Response,
    /// The text of a response that is an error.
    Body { status: u16 },
    /// The end of the stream.
    Stream,
    /// Nothing: the request is over.
    Over,
}

/// What has happened in a try.
#[derive(Debug)]
pub enum TryEvent {
    /// There is a token.
    TokenReady,
    /// There is no token.
    TokenFailed { message: String },
    /// The request could not be sent.
    SendFailed(Failure),
    /// A response has come, with this status.
    Responded { status: u16 },
    /// The text of a response that is an error: `transient` says whether the
    /// whole error is a passing fault of the connection.
    BodyRead { body: String, transient: bool },
    /// The stream has ended.
    StreamEnded,
    /// The stream broke off, after output was seen or before.
    StreamFailed { failure: Failure, saw_output: bool },
}

/// What is in that which has happened in a try.
pub enum TryEventView {
    TokenReady,
    TokenFailed { message: Seq<char> },
    SendFailed(FailureView),
    Responded { status: u16 },
    BodyRead { body: Seq<char>, transient: bool },
    StreamEnded,
    StreamFailed { failure: FailureView, saw_output: bool },
}

impl View for TryEvent {
    type V = TryEventView;

    open spec fn view(&self) -> TryEventView {
        match self {
            TryEvent::TokenReady => TryEventView::TokenReady,
            TryEvent::TokenFailed { message } => TryEventView::TokenFailed { message: message@ },
            TryEvent::SendFailed(failure) => TryEventView::SendFailed(failure@),
            TryEvent::Responded { status } => TryEventView::Responded { status: *status },
            TryEvent::BodyRead { body, transient } => TryEventView::BodyRead {
                body: body@,
                transient: *transient,
            },
            TryEvent::StreamEnded => TryEventView::StreamEnded,
            TryEvent::StreamFailed { failure, saw_output } => TryEventView::StreamFailed {
                failure: failure@,
                saw_output: *saw_output,
            },
        }
    }
}

/// What is to be done next.
#[derive(Debug)]
pub enum TryAction {
    /// Send the request: the first one over the shared client, a further one
    /// over a client of its own, whose connection no earlier fault has touched.
    Send { fresh_client: bool },
    /// Read the text of the response.
    ReadBody,
    /// Read the stream.
    ReadStream,
    /// Try again after a pause.
    Retry { attempt: u32 },
    /// Say that the request has failed.
    Fail { message: String },
    /// Nothing: the request is over.
    Finish,
}

/// What is in that which is to be done next.
pub enum TryActionView {
    Send { fresh_client: bool },
    ReadBody,
    ReadStream,
    Retry { attempt: u32 },
    Fail { message: Seq<char> },
    Finish,
}

impl View for TryAction {
    type V = TryActionView;

    open spec fn view(&self) -> TryActionView {
        match self {
            TryAction::Send { fresh_client } => TryActionView::Send { fresh_client: *fresh_client },
            TryAction::ReadBody => TryActionView::ReadBody,
            TryAction::ReadStream => TryActionView::ReadStream,
            TryAction::Retry { attempt } => TryActionView::Retry { attempt: *attempt },
            TryAction::Fail { message } => TryActionView::Fail { message: message@ },
            TryAction::Finish => TryActionView::Finish,
        }
    }
}

/// What is to be done next, after the events are sent and, where need be, the
/// token is forgotten.
#[derive(Debug)]
pub struct TryStep {
    pub drop_token: bool,
    pub events: Vec<StreamEvent>,
    pub action: TryAction,
}

/// What is in a step.
pub struct TryStepView {
    pub drop_token: bool,
    pub events: Seq<StreamEventView>,
    pub action: TryActionView,
}

impl View for TryStep {
    type V = TryStepView;

    open spec fn view(&self) -> TryStepView {
        TryStepView {
            drop_token: self.drop_token,
            events: event_views(self.events@),
            action: self.action@,
        }
    }
}

/// A request on its way.
#[derive(Clone, Copy, Debug)]
pub struct NativeRequest {
    /// The number of the try, from 0.
    pub attempt: u32,
    /// Whether a new token was asked for because the old one was refused.
    pub attempted_auth_refresh: bool,
    pub phase: TryPhase,
}

/// A request and what is to be done, after a step.
pub struct Tried {
    pub request: NativeRequest,
    pub step: TryStepView,
}

/// What is said when a request is tried again: where output was seen, that it
/// is void; then which try it is.
pub open spec fn retry_events(attempt: u32, rollback: bool) -> Seq<StreamEventView> {
    let retrying = StreamEventView::Retrying { attempt: (attempt + 1) as u32, max: MAX_RETRIES };
    if rollback {
        seq![
            StreamEventView::RetryRollback { attempt: (attempt + 1) as u32, max: MAX_RETRIES },
            retrying,
        ]
    } else {
        seq![retrying]
    }
}

/// What is said when the last try was refused for its token.
pub open spec fn exhausted_words(status: u16) -> Seq<char> {
    "Copilot: failed after 3 retries: Copilot auth error (HTTP "@ + status_words(status) + ")"@
}

impl NativeRequest {
    /// A request is tried at most so often.
    pub open spec fn wf(self) -> bool {
        &&& self.attempt < MAX_RETRIES
        &&& self.phase matches TryPhase::Body { status } ==> 100 <= status <= 999
    }

    /// Whether the event can come in the request's phase.
    pub open spec fn expects(self, event: TryEventView) -> bool {
        match self.phase {
            TryPhase::Token => event is TokenReady || event is TokenFailed,
            TryPhase::Response => event is SendFailed || (event matches TryEventView::Responded {
                status,
            } && 100 <= status <= 999),
            TryPhase::Body { .. } => event is BodyRead,
            TryPhase::Stream => event is StreamEnded || event is StreamFailed,
            TryPhase::Over => false,
        }
    }

    /// The request goes on.
    pub open spec fn go(
        self,
        phase: TryPhase,
        events: Seq<StreamEventView>,
        action: TryActionView,
    ) -> Tried {
        Tried {
            request: NativeRequest { phase, ..self },
            step: TryStepView { drop_token: false, events, action },
        }
    }

    /// The request has failed.
    pub open spec fn fail(self, message: Seq<char>) -> Tried {
        self.go(TryPhase::Over, Seq::empty(), TryActionView::Fail { message })
    }

    /// The request is tried again.
    pub open spec fn again(self, rollback: bool) -> Tried {
        let attempt = (self.attempt + 1) as u32;
        Tried {
            request: NativeRequest { attempt, phase: TryPhase::Token, ..self },
            step: TryStepView {
                drop_token: false,
                events: retry_events(attempt, rollback),
                action: TryActionView::Retry { attempt },
            },
        }
    }

    /// The request is tried again where the failure is worth it and there is a
    /// try left.
    pub open spec fn again_or_fail(
        self,
        worth: bool,
        rollback: bool,
        message: Seq<char>,
    ) -> Tried {
        if worth && self.attempt + 1 < MAX_RETRIES {
            self.again(rollback)
        } else {
            self.fail(message)
        }
    }

    /// A response has come. A token that is refused is replaced, once, which
    /// takes one try.
    pub open spec fn responded(self, model: Seq<char>, status: u16) -> Tried {
        let refreshed = NativeRequest { attempted_auth_refresh: true, ..self };
        if (status == 401 || status == 403) && !self.attempted_auth_refresh {
            let tried = if self.attempt + 1 < MAX_RETRIES {
                refreshed.again(false)
            } else {
                refreshed.fail(exhausted_words(status))
            };
            Tried { step: TryStepView { drop_token: true, ..tried.step }, ..tried }
        } else if 200 <= status < 300 {
            self.go(
                TryPhase::Stream,
                seq![
                    StreamEventView::ConnectionType {
                        connection: "copilot-api ("@ + model + ")"@,
                    },
                ],
                TryActionView::ReadStream,
            )
        } else {
            self.go(TryPhase::Body { status }, Seq::empty(), TryActionView::ReadBody)
        }
    }

    /// What a step does to a request for `model`.
    pub open spec fn tried(self, model: Seq<char>, event: TryEventView) -> Tried {
        match event {
            TryEventView::TokenReady => self.go(
                TryPhase::Response,
                Seq::empty(),
                TryActionView::Send { fresh_client: self.attempt > 0 },
            ),
            TryEventView::TokenFailed { message } => self.fail(message),
            TryEventView::SendFailed(failure) => self.again_or_fail(
                failure.retryable(),
                false,
                "Copilot API request failed: "@ + failure.message,
            ),
            TryEventView::Responded { status } => self.responded(model, status),
            TryEventView::BodyRead { body, transient } => {
                let status = self.phase->status;
                let words = http_error_words(status_words(status), body);
                if server_fault(status) {
                    self.again_or_fail(true, false, words)
                } else {
                    self.again_or_fail(retryable(unicode_lower(words), transient), false, words)
                }
            },
            TryEventView::StreamEnded => self.go(
                TryPhase::Over,
                Seq::empty(),
                TryActionView::Finish,
            ),
            TryEventView::StreamFailed { failure, saw_output } => self.again_or_fail(
                failure.retryable(),
                saw_output,
                failure.message,
            ),
        }
    }

    /// A request that has not been tried yet. A token is wanted first.
    pub fn new() -> (request: Self)
        ensures
            request.wf(),
            request == (NativeRequest {
                attempt: 0,
                attempted_auth_refresh: false,
                phase: TryPhase::Token,
            }),
    {
        NativeRequest { attempt: 0, attempted_auth_refresh: false, phase: TryPhase::Token }
    }

    /// Whether the event can come in the request's phase.
    pub fn accepts(&self, event: &TryEvent) -> (r: bool)
        ensures
            r == self.expects(event@),
    {
        match (self.phase, event) {
            (TryPhase::Token, TryEvent::TokenReady) => true,
            (TryPhase::Token, TryEvent::TokenFailed { .. }) => true,
            (TryPhase::Response, TryEvent::SendFailed(_)) => true,
            (TryPhase::Response, TryEvent::Responded { status }) => 100 <= *status && *status
                <= 999,
            (TryPhase::Body { .. }, TryEvent::BodyRead { .. }) => true,
            (TryPhase::Stream, TryEvent::StreamEnded) => true,
            (TryPhase::Stream, TryEvent::StreamFailed { .. }) => true,
            _ => false,
        }
    }

    /// The request goes on.
    fn proceed(&mut self, phase: TryPhase, action: TryAction) -> (step: TryStep)
        ensures
            (Tried { request: *final(self), step: step@ }) == old(self).go(
                phase,
                Seq::empty(),
                action@,
            ),
    {
        self.phase = phase;
        let events: Vec<StreamEvent> = Vec::new();
        assert(event_views(events@) =~= Seq::<StreamEventView>::empty());
        TryStep { drop_token: false, events, action }
    }

    /// The request is tried again.
    fn retry(&mut self, rollback: bool) -> (step: TryStep)
        requires
            old(self).attempt + 1 < MAX_RETRIES,
        ensures
            (Tried { request: *final(self), step: step@ }) == old(self).again(rollback),
    {
        self.attempt = self.attempt + 1;
        self.phase = TryPhase::Token;
        let attempt = self.attempt;
        let mut events: Vec<StreamEvent> = Vec::new();
        if rollback {
            events.push(StreamEvent::RetryRollback { attempt: attempt + 1, max: MAX_RETRIES });
        }
        events.push(StreamEvent::Retrying { attempt: attempt + 1, max: MAX_RETRIES });
        assert(event_views(events@) =~= retry_events(attempt, rollback));
        TryStep { drop_token: false, events, action: TryAction::Retry { attempt } }
    }

    /// The request is tried again where the failure is worth it and there is a
    /// try left.
    fn retry_or_fail(&mut self, worth: bool, rollback: bool, message: String) -> (step: TryStep)
        requires
            old(self).wf(),
        ensures
            (Tried { request: *final(self), step: step@ }) == old(self).again_or_fail(
                worth,
                rollback,
                message@,
            ),
    {
        if worth && self.attempt + 1 < MAX_RETRIES {
            self.retry(rollback)
        } else {
            self.proceed(TryPhase::Over, TryAction::Fail { message })
        }
    }

    /// A response has come.
    fn respond(&mut self, model: &str, status: u16) -> (step: TryStep)
        requires
            old(self).wf(),
            100 <= status <= 999,
        ensures
            (Tried { request: *final(self), step: step@ }) == old(self).responded(model@, status),
    {
        if is_auth_error(status) && !self.attempted_auth_refresh {
            self.attempted_auth_refresh = true;
            let step = if self.attempt + 1 < MAX_RETRIES {
                self.retry(false)
            } else {
                let message = concat3(
                    "Copilot: failed after 3 retries: Copilot auth error (HTTP ",
                    status_text(status).as_str(),
                    ")",
                );
                self.proceed(TryPhase::Over, TryAction::Fail { message })
            };
            return TryStep { drop_token: true, events: step.events, action: step.action };
        }
        if 200 <= status && status < 300 {
            self.phase = TryPhase::Stream;
            let mut events: Vec<StreamEvent> = Vec::new();
            let connection = concat3("copilot-api (", model, ")");
            events.push(StreamEvent::ConnectionType { connection });
            assert(event_views(events@) =~= seq![
                StreamEventView::ConnectionType { connection: "copilot-api ("@ + model@ + ")"@ },
            ]);
            return TryStep { drop_token: false, events, action: TryAction::ReadStream };
        }
        self.proceed(TryPhase::Body { status }, TryAction::ReadBody)
    }

    /// Takes what has happened to a request for `model` and says what is to be
    /// done next.
    pub fn step(&mut self, model: &str, event: TryEvent) -> (step: TryStep)
        requires
            old(self).wf(),
            old(self).expects(event@),
        ensures
            (Tried { request: *final(self), step: step@ }) == old(self).tried(model@, event@),
            final(self).wf(),
            old(self).phase matches TryPhase::Body { status } && (status == 429 || status == 500
                || status == 502 || status == 503 || status == 504) && old(self).attempt < 2
                ==> step@.action == (TryActionView::Retry {
                attempt: (old(self).attempt + 1) as u32,
            }) && final(self).phase is Token,
    {
        match event {
            TryEvent::TokenReady => {
                let fresh_client = self.attempt > 0;
                self.proceed(TryPhase::Response, TryAction::Send { fresh_client })
            },
            TryEvent::TokenFailed { message } => self.proceed(
                TryPhase::Over,
                TryAction::Fail { message },
            ),
            TryEvent::SendFailed(failure) => {
                let worth = failure.is_retryable();
                let message = concat("Copilot API request failed: ", failure.message.as_str());
                self.retry_or_fail(worth, false, message)
            },
            TryEvent::Responded { status } => self.respond(model, status),
            TryEvent::BodyRead { body, transient } => {
                let status: u16 = match self.phase {
                    TryPhase::Body { status } => status,
                    _ => 100,
                };
                let message = http_error_message(status, body.as_str());
                let worth = is_retryable_http_error(status, body.as_str(), transient);
                self.retry_or_fail(worth, false, message)
            },
            TryEvent::StreamEnded => self.proceed(TryPhase::Over, TryAction::Finish),
            TryEvent::StreamFailed { failure, saw_output } => {
                let worth = failure.is_retryable();
                self.retry_or_fail(worth, saw_output, failure.message)
            },
        }
    }
}

/// A request for `model` after all that has happened to it.
pub open spec fn after_events(
    request: NativeRequest,
    model: Seq<char>,
    events: Seq<TryEventView>,
) -> NativeRequest
    decreases events.len(),
{
    if events.len() == 0 {
        request
    } else {
        after_events(request, model, events.drop_last()).tried(model, events.last()).request
    }
}

/// Whether every event can come where it does.
pub open spec fn possible_events(
    request: NativeRequest,
    model: Seq<char>,
    events: Seq<TryEventView>,
) -> bool
    decreases events.len(),
{
    events.len() > 0 ==> {
        &&& possible_events(request, model, events.drop_last())
        &&& after_events(request, model, events.drop_last()).expects(events.last())
    }
}

/// How often a request is sent.
pub open spec fn times_sent(
    request: NativeRequest,
    model: Seq<char>,
    events: Seq<TryEventView>,
) -> nat
    decreases events.len(),
{
    if events.len() == 0 {
        0
    } else {
        let step = after_events(request, model, events.drop_last()).tried(
            model,
            events.last(),
        ).step;
        times_sent(request, model, events.drop_last()) + (if step.action is Send {
            1nat
        } else {
            0nat
        })
    }
}

/// How often the token of a request is forgotten.
pub open spec fn tokens_dropped(
    request: NativeRequest,
    model: Seq<char>,
    events: Seq<TryEventView>,
) -> nat
    decreases events.len(),
{
    if events.len() == 0 {
        0
    } else {
        let step = after_events(request, model, events.drop_last()).tried(
            model,
            events.last(),
        ).step;
        tokens_dropped(request, model, events.drop_last()) + (if step.drop_token {
            1nat
        } else {
            0nat
        })
    }
}

/// What the number of the try and the phase say of what was done so far.
proof fn lemma_counts(request: NativeRequest, model: Seq<char>, events: Seq<TryEventView>)
    requires
        request == (NativeRequest {
            attempt: 0,
            attempted_auth_refresh: false,
            phase: TryPhase::Token,
        }),
        possible_events(request, model, events),
    ensures
        ({
            let after = after_events(request, model, events);
            &&& after.wf()
            &&& times_sent(request, model, events) <= after.attempt + (if after.phase is Token {
                0int
            } else {
                1int
            })
            &&& tokens_dropped(request, model, events) <= (if after.attempted_auth_refresh {
                1int
            } else {
                0int
            })
        }),
    decreases events.len(),
{
    if events.len() > 0 {
        lemma_counts(request, model, events.drop_last());
    }
}

/// Whatever happens, a request is sent at most three times, and its token is
/// replaced at most once.
pub proof fn law_tries_are_bounded(
    request: NativeRequest,
    model: Seq<char>,
    events: Seq<TryEventView>,
)
    requires
        request == (NativeRequest {
            attempt: 0,
            attempted_auth_refresh: false,
            phase: TryPhase::Token,
        }),
        possible_events(request, model, events),
    ensures
        times_sent(request, model, events) <= MAX_RETRIES,
        tokens_dropped(request, model, events) <= 1,
{
    lemma_counts(request, model, events);
}

/// A stream that broke off after output was seen and is tried again is first
/// declared void; one without output is not.
pub proof fn law_partial_output_is_rolled_back(
    request: NativeRequest,
    model: Seq<char>,
    failure: FailureView,
    saw_output: bool,
)
    requires
        request.wf(),
        request.phase is Stream,
        request.attempt + 1 < MAX_RETRIES,
        failure.retryable(),
    ensures
        ({
            let step = request.tried(
                model,
                TryEventView::StreamFailed { failure, saw_output },
            ).step;
            &&& step.action is Retry
            &&& step.events.len() > 0
            &&& step.events[0] is RetryRollback <==> saw_output
        }),
{
}

/// A text is worth a further try where one of the words for a passing fault
/// stands anywhere in it, or where the fault is known to pass; and in no other
/// case.
pub proof fn law_words_of_passing_faults(text: Seq<char>, transient: bool, i: int, needle: Seq<char>)
    ensures
        retryable(text, true),
        (needle == "500 internal server error"@ || needle == "502 bad gateway"@ || needle
            == "503 service unavailable"@ || needle == "504 gateway timeout"@ || needle
            == "overloaded"@ || needle == "429 too many requests"@ || needle == "rate limit"@
            || needle == "rate_limit"@ || needle == "stream error"@ || needle
            == "stream read timeout"@) && 0 <= i <= text.len() - needle.len() && text.subrange(
            i,
            i + needle.len(),
        ) == needle ==> retryable(text, transient),
        retryable(text, false) ==> exists|k: int, n: int|
            0 <= k <= n <= text.len() && {
                let part = #[trigger] text.subrange(k, n);
                part == "500 internal server error"@ || part == "502 bad gateway"@ || part
                    == "503 service unavailable"@ || part == "504 gateway timeout"@ || part
                    == "overloaded"@ || part == "429 too many requests"@ || part == "rate limit"@
                    || part == "rate_limit"@ || part == "stream error"@ || part
                    == "stream read timeout"@
            },
{
    if 0 <= i <= text.len() - needle.len() && text.subrange(i, i + needle.len()) == needle {
        assert(occurs_at(text, needle, i));
        assert(contains_text(text, needle));
    }
    if retryable(text, false) {
        let found = if contains_text(text, "500 internal server error"@) {
            "500 internal server error"@
        } else if contains_text(text, "502 bad gateway"@) {
            "502 bad gateway"@
        } else if contains_text(text, "503 service unavailable"@) {
            "503 service unavailable"@
        } else if contains_text(text, "504 gateway timeout"@) {
            "504 gateway timeout"@
        } else if contains_text(text, "overloaded"@) {
            "overloaded"@
        } else if contains_text(text, "429 too many requests"@) {
            "429 too many requests"@
        } else if contains_text(text, "rate limit"@) {
            "rate limit"@
        } else if contains_text(text, "rate_limit"@) {
            "rate_limit"@
        } else if contains_text(text, "stream error"@) {
            "stream error"@
        } else {
            "stream read timeout"@
        };
        let k = choose|k: int| #[trigger] occurs_at(text, found, k);
        assert(text.subrange(k, k + found.len()) == found);
    }
}

/// A request that is answered with 429, 500, 502, 503 or 504 is tried again
/// while a try is left, whatever the answer's text: it goes back to its token
/// with the next number, and the stream is told which try of three it is. With
/// no try left, the answer is reported.
pub proof fn law_server_faults_are_tried_again(
    request: NativeRequest,
    model: Seq<char>,
    status: u16,
    body: Seq<char>,
    transient: bool,
)
    requires
        request.attempt < 3,
        request.phase == (TryPhase::Body { status }),
        status == 429 || status == 500 || status == 502 || status == 503 || status == 504,
    ensures
        ({
            let after = request.tried(model, TryEventView::BodyRead { body, transient });
            let next = (request.attempt + 1) as u32;
            if request.attempt < 2 {
                &&& after.step.action == (TryActionView::Retry { attempt: next })
                &&& after.step.events == seq![
                    StreamEventView::Retrying { attempt: (next + 1) as u32, max: 3 },
                ]
                &&& !after.step.drop_token
                &&& after.request == (NativeRequest {
                    attempt: next,
                    phase: TryPhase::Token,
                    ..request
                })
            } else {
                &&& after.step.action == (TryActionView::Fail {
                    message: "Copilot API error (HTTP "@ + status_words(status) + "): "@ + body,
                })
                &&& after.step.events.len() == 0
                &&& after.request.phase is Over
            }
        }),
{
}

/// Any other answer that is an error is tried again while a try is left where
/// its words in lower case are those of a passing fault, and reported where
/// they are not.
pub proof fn law_other_answers_are_judged_by_their_words(
    request: NativeRequest,
    model: Seq<char>,
    status: u16,
    body: Seq<char>,
    transient: bool,
)
    requires
        request.attempt < 3,
        request.phase == (TryPhase::Body { status }),
        status != 429 && status != 500 && status != 502 && status != 503 && status != 504,
    ensures
        ({
            let words = "Copilot API error (HTTP "@ + status_words(status) + "): "@ + body;
            let after = request.tried(model, TryEventView::BodyRead { body, transient });
            if request.attempt < 2 && retryable(unicode_lower(words), transient) {
                &&& after.step.action == (TryActionView::Retry {
                    attempt: (request.attempt + 1) as u32,
                })
                &&& after.request.phase is Token
                &&& after.request.attempt == request.attempt + 1
            } else {
                &&& after.step.action == (TryActionView::Fail { message: words })
                &&& after.step.events.len() == 0
                &&& after.request.phase is Over
            }
        }),
{
}

/// A request that could not be sent, or whose stream broke off, is tried again
/// while a try is left where the fault's words in lower case are those of a
/// passing one, and is else reported in its own words. Where output of the
/// stream was seen, it is declared void before the next try is told of.
pub proof fn law_broken_tries_are_tried_again(
    request: NativeRequest,
    model: Seq<char>,
    failure: FailureView,
    saw_output: bool,
)
    requires
        request.attempt < 3,
    ensures
        ({
            let unsent = request.tried(model, TryEventView::SendFailed(failure));
            let broken = request.tried(
                model,
                TryEventView::StreamFailed { failure, saw_output },
            );
            let next = (request.attempt + 1) as u32;
            let retrying = StreamEventView::Retrying { attempt: (next + 1) as u32, max: 3 };
            let void = StreamEventView::RetryRollback { attempt: (next + 1) as u32, max: 3 };
            if request.attempt < 2 && retryable(unicode_lower(failure.chain), failure.transient) {
                &&& unsent.step.action == (TryActionView::Retry { attempt: next })
                &&& unsent.step.events == seq![retrying]
                &&& !unsent.step.drop_token
                &&& unsent.request == (NativeRequest {
                    attempt: next,
                    phase: TryPhase::Token,
                    ..request
                })
                &&& broken.step.action == (TryActionView::Retry { attempt: next })
                &&& broken.step.events == (if saw_output {
                    seq![void, retrying]
                } else {
                    seq![retrying]
                })
                &&& !broken.step.drop_token
                &&& broken.request == unsent.request
            } else {
                &&& unsent.step.action == (TryActionView::Fail {
                    message: "Copilot API request failed: "@ + failure.message,
                })
                &&& unsent.step.events.len() == 0
                &&& unsent.request.phase is Over
                &&& broken.step.action == (TryActionView::Fail { message: failure.message })
                &&& broken.step.events.len() == 0
                &&& broken.request.phase is Over
            }
        }),
{
}

/// What an answer leads to is decided by its status. One that refuses the token
/// has it forgotten and the request tried with a new one, the first time; any
/// success is streamed under the model's name; anything else is an error whose
/// text is read.
pub proof fn law_answers_are_told_apart(request: NativeRequest, model: Seq<char>, status: u16)
    requires
        request.attempt < 3,
    ensures
        ({
            let after = request.tried(model, TryEventView::Responded { status });
            let refused = status == 401 || status == 403;
            &&& after.step.drop_token <==> refused && !request.attempted_auth_refresh
            &&& refused && !request.attempted_auth_refresh ==> {
                &&& after.request.attempted_auth_refresh
                &&& request.attempt < 2 ==> {
                    &&& after.step.action == (TryActionView::Retry {
                        attempt: (request.attempt + 1) as u32,
                    })
                    &&& after.step.events == seq![
                        StreamEventView::Retrying {
                            attempt: (request.attempt + 2) as u32,
                            max: 3,
                        },
                    ]
                    &&& after.request.phase is Token
                    &&& after.request.attempt == request.attempt + 1
                }
                &&& request.attempt == 2 ==> {
                    &&& after.request.phase is Over
                    &&& after.step.action == (TryActionView::Fail {
                        message: "Copilot: failed after 3 retries: Copilot auth error (HTTP "@
                            + status_words(status) + ")"@,
                    })
                }
            }
            &&& !(refused && !request.attempted_auth_refresh) ==> {
                &&& after.request.attempt == request.attempt
                &&& after.request.attempted_auth_refresh == request.attempted_auth_refresh
                &&& if 200 <= status <= 299 {
                    &&& after.step.action is ReadStream
                    &&& after.step.events == seq![
                        StreamEventView::ConnectionType {
                            connection: "copilot-api ("@ + model + ")"@,
                        },
                    ]
                    &&& after.request.phase is Stream
                } else {
                    &&& after.step.action is ReadBody
                    &&& after.step.events.len() == 0
                    &&& after.request.phase == (TryPhase::Body { status })
                }
            }
        }),
{
}

/// A try is made once there is a token, over a connection of its own unless it
/// is the first; without a token the request is over, as it is once its stream
/// has ended.
pub proof fn law_tries_begin_and_end(request: NativeRequest, model: Seq<char>, message: Seq<char>)
    ensures
        ({
            let ready = request.tried(model, TryEventView::TokenReady);
            let missing = request.tried(model, TryEventView::TokenFailed { message });
            let ended = request.tried(model, TryEventView::StreamEnded);
            &&& ready.step.action == (TryActionView::Send { fresh_client: request.attempt != 0 })
            &&& ready.request == (NativeRequest { phase: TryPhase::Response, ..request })
            &&& ready.step.events.len() == 0 && !ready.step.drop_token
            &&& missing.step.action == (TryActionView::Fail { message })
            &&& missing.request.phase is Over
            &&& missing.step.events.len() == 0 && !missing.step.drop_token
            &&& ended.step.action is Finish
            &&& ended.request.phase is Over
            &&& ended.step.events.len() == 0 && !ended.step.drop_token
        }),
{
}

/// What can happen to a request in each of its phases: there is a token or none,
/// the request fails or is answered with a status of HTTP, the text of an error
/// is read, and a stream ends or breaks off.
pub proof fn law_request_listens(request: NativeRequest, event: TryEventView)
    ensures
        request.phase is Token ==> (request.expects(event) <==> event is TokenReady || event
            is TokenFailed),
        request.phase is Response ==> (request.expects(event) <==> event is SendFailed || (
        event matches TryEventView::Responded { status } && 100 <= status <= 999)),
        request.phase is Body ==> (request.expects(event) <==> event is BodyRead),
        request.phase is Stream ==> (request.expects(event) <==> event is StreamEnded || event
            is StreamFailed),
        request.phase is Over ==> !request.expects(event),
{
}

/// What happens to a request and what is done about it show all that they hold,
/// as it is.
pub proof fn law_tries_show_what_they_hold(
    failure: Failure,
    text: String,
    flag: bool,
    status: u16,
    attempt: u32,
    step: TryStep,
)
    ensures
        failure@.chain == failure.chain@,
        failure@.message == failure.message@,
        failure@.transient == failure.transient,
        TryEvent::TokenReady@ is TokenReady && TryEvent::StreamEnded@ is StreamEnded,
        (TryEvent::TokenFailed { message: text })@ == (TryEventView::TokenFailed { message: text@ }),
        TryEvent::SendFailed(failure)@ == TryEventView::SendFailed(failure@),
        (TryEvent::Responded { status })@ == (TryEventView::Responded { status }),
        (TryEvent::BodyRead { body: text, transient: flag })@ == (TryEventView::BodyRead {
            body: text@,
            transient: flag,
        }),
        (TryEvent::StreamFailed { failure, saw_output: flag })@ == (TryEventView::StreamFailed {
            failure: failure@,
            saw_output: flag,
        }),
        (TryAction::Send { fresh_client: flag })@ == (TryActionView::Send { fresh_client: flag }),
        (TryAction::Retry { attempt })@ == (TryActionView::Retry { attempt }),
        (TryAction::Fail { message: text })@ == (TryActionView::Fail { message: text@ }),
        TryAction::ReadBody@ is ReadBody && TryAction::ReadStream@ is ReadStream
            && TryAction::Finish@ is Finish,
        step@.drop_token == step.drop_token,
        step@.action == step.action@,
        step@.events == event_views(step.events@),
{
}

/// The statuses of passing faults have these words, and an error is told with
/// its status and its text.
pub proof fn law_errors_are_told_with_their_status(status: Seq<char>, body: Seq<char>, code: u16)
    ensures
        http_error_words(status, body) == "Copilot API error (HTTP "@ + status + "): "@ + body,
        server_fault(code) <==> code == 429 || code == 500 || code == 502 || code == 503 || code
            == 504,
        server_fault_words(429) == "429 Too Many Requests"@,
        server_fault_words(500) == "500 Internal Server Error"@,
        server_fault_words(502) == "502 Bad Gateway"@,
        server_fault_words(503) == "503 Service Unavailable"@,
        server_fault_words(504) == "504 Gateway Timeout"@,
        status_words(code) == decimal_text(code as nat) + " "@ + canonical_reason(code),
{
}

} // verus!
