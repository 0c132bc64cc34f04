//! The conversation as the provider sees it: the messages and tools that go
//! into a request, and the events that come out of its stream.

use vstd::prelude::*;

verus! {

/// Who a message of the conversation is from.
#[derive(Clone, Copy, Debug, PartialEq, Eq, Structural)]
pub enum Role {
    User,
    Assistant,
}

/// One block of a message, with what the provider reads of it.
#[derive(Debug)]
pub enum ContentBlock {
    Text { text: String },
    ToolUse { id: String, name: String },
    ToolResult { tool_use_id: String, content: String },
    Image,
    Other,
}

/// The text that a content block holds.
pub enum ContentBlockView {
    Text { text: Seq<char> },
    ToolUse { id: Seq<char>, name: Seq<char> },
    ToolResult { tool_use_id: Seq<char>, content: Seq<char> },
    Image,
    Other,
}

impl View for ContentBlock {
    type V = ContentBlockView;

    open spec fn view(&self) -> ContentBlockView {
        match self {
            ContentBlock::Text { text } => ContentBlockView::Text { text: text@ },
            ContentBlock::ToolUse { id, name } => ContentBlockView::ToolUse {
                id: id@,
                name: name@,
            },
            ContentBlock::ToolResult { tool_use_id, content } => ContentBlockView::ToolResult {
                tool_use_id: tool_use_id@,
                content: content@,
            },
            ContentBlock::Image => ContentBlockView::Image,
            ContentBlock::Other => ContentBlockView::Other,
        }
    }
}

/// What a list of content blocks holds.
pub open spec fn block_views(blocks: Seq<ContentBlock>) -> Seq<ContentBlockView> {
    blocks.map_values(|block: ContentBlock| block@)
}

/// One message of the conversation.
#[derive(Debug)]
pub struct Message {
    pub role: Role,
    pub content: Vec<ContentBlock>,
}

/// What a message holds.
pub struct MessageView {
    pub role: Role,
    pub content: Seq<ContentBlockView>,
}

impl View for Message {
    type V = MessageView;

    open spec fn view(&self) -> MessageView {
        MessageView { role: self.role, content: block_views(self.content@) }
    }
}

/// What a conversation holds.
pub open spec fn message_views(messages: Seq<Message>) -> Seq<MessageView> {
    messages.map_values(|message: Message| message@)
}

impl Message {
    /// A user message of one text block.
    pub fn user(text: &str) -> (message: Message)
        ensures
            message@.role == Role::User,
            message@.content == seq![ContentBlockView::Text { text: text@ }],
    {
        Message { role: Role::User, content: text_content(text) }
    }

    /// An assistant message of one text block.
    pub fn assistant_text(text: &str) -> (message: Message)
        ensures
            message@.role == Role::Assistant,
            message@.content == seq![ContentBlockView::Text { text: text@ }],
    {
        Message { role: Role::Assistant, content: text_content(text) }
    }
}

/// The content of a message that is one text block.
fn text_content(text: &str) -> (content: Vec<ContentBlock>)
    ensures
        block_views(content@) == seq![ContentBlockView::Text { text: text@ }],
{
    let mut content: Vec<ContentBlock> = Vec::new();
    content.push(ContentBlock::Text { text: text.to_owned() });
    assert(block_views(content@) =~= seq![ContentBlockView::Text { text: text@ }]);
    content
}

/// A tool that the caller offers, by its name.
#[derive(Debug)]
pub struct ToolDefinition {
    pub name: String,
}

/// The names of the offered tools.
pub open spec fn tool_names(tools: Seq<ToolDefinition>) -> Seq<Seq<char>> {
    tools.map_values(|tool: ToolDefinition| tool.name@)
}

/// The kind of work that a provider-side tool does.
#[derive(Clone, Copy, Debug, PartialEq, Eq, Structural)]
pub enum ProviderToolKind {
    Read,
    Search,
    Edit,
    Delete,
    Move,
    Execute,
    Fetch,
    Think,
    SwitchMode,
    Other,
}

/// How far a provider-side tool call has come.
#[derive(Clone, Copy, Debug, PartialEq, Eq, Structural)]
pub enum ProviderToolStatus {
    Pending,
    InProgress,
    Completed,
    Failed,
    Other,
}

/// One event of a response stream.
#[derive(Debug)]
pub enum StreamEvent {
    TextDelta(String),
    ThinkingDelta(String),
    ToolUseStart { id: String, name: String },
    ToolInputDelta(String),
    ToolUseEnd,
    MessageEnd { stop_reason: Option<String> },
    TokenUsage {
        input_tokens: Option<u64>,
        output_tokens: Option<u64>,
        cache_read_input_tokens: Option<u64>,
        cache_creation_input_tokens: Option<u64>,
    },
    ConnectionType { connection: String },
    Retrying { attempt: u32, max: u32 },
    RetryRollback { attempt: u32, max: u32 },
    StatusDetail { detail: String },
    SessionId(String),
    ProviderToolUpdate {
        id: String,
        kind: Option<ProviderToolKind>,
        status: Option<ProviderToolStatus>,
        title: Option<String>,
    },
}

/// What an event of a response stream holds.
pub enum StreamEventView {
    TextDelta(Seq<char>),
    ThinkingDelta(Seq<char>),
    ToolUseStart { id: Seq<char>, name: Seq<char> },
    ToolInputDelta(Seq<char>),
    ToolUseEnd,
    MessageEnd { stop_reason: Option<Seq<char>> },
    TokenUsage {
        input_tokens: Option<u64>,
        output_tokens: Option<u64>,
        cache_read_input_tokens: Option<u64>,
        cache_creation_input_tokens: Option<u64>,
    },
    ConnectionType { connection: Seq<char> },
    Retrying { attempt: u32, max: u32 },
    RetryRollback { attempt: u32, max: u32 },
    StatusDetail { detail: Seq<char> },
    SessionId(Seq<char>),
    ProviderToolUpdate {
        id: Seq<char>,
        kind: Option<ProviderToolKind>,
        status: Option<ProviderToolStatus>,
        title: Option<Seq<char>>,
    },
}

/// The text of an optional string.
pub open spec fn text_option(text: Option<String>) -> Option<Seq<char>> {
    match text {
        Some(text) => Some(text@),
        None => None,
    }
}

/// The text of an optional borrowed string.
pub open spec fn str_option(text: Option<&str>) -> Option<Seq<char>> {
    match text {
        Some(text) => Some(text@),
        None => None,
    }
}

impl View for StreamEvent {
    type V = StreamEventView;

    open spec fn view(&self) -> StreamEventView {
        match self {
            StreamEvent::TextDelta(text) => StreamEventView::TextDelta(text@),
            StreamEvent::ThinkingDelta(text) => StreamEventView::ThinkingDelta(text@),
            StreamEvent::ToolUseStart { id, name } => StreamEventView::ToolUseStart {
                id: id@,
                name: name@,
            },
            StreamEvent::ToolInputDelta(text) => StreamEventView::ToolInputDelta(text@),
            StreamEvent::ToolUseEnd => StreamEventView::ToolUseEnd,
            StreamEvent::MessageEnd { stop_reason } => StreamEventView::MessageEnd {
                stop_reason: text_option(*stop_reason),
            },
            StreamEvent::TokenUsage {
                input_tokens,
                output_tokens,
                cache_read_input_tokens,
                cache_creation_input_tokens,
            } => StreamEventView::TokenUsage {
                input_tokens: *input_tokens,
                output_tokens: *output_tokens,
                cache_read_input_tokens: *cache_read_input_tokens,
                cache_creation_input_tokens: *cache_creation_input_tokens,
            },
            StreamEvent::ConnectionType { connection } => StreamEventView::ConnectionType {
                connection: connection@,
            },
            StreamEvent::Retrying { attempt, max } => StreamEventView::Retrying {
                attempt: *attempt,
                max: *max,
            },
            StreamEvent::RetryRollback { attempt, max } => StreamEventView::RetryRollback {
                attempt: *attempt,
                max: *max,
            },
            StreamEvent::StatusDetail { detail } => StreamEventView::StatusDetail {
                detail: detail@,
            },
            StreamEvent::SessionId(id) => StreamEventView::SessionId(id@),
            StreamEvent::ProviderToolUpdate { id, kind, status, title } => {
                StreamEventView::ProviderToolUpdate {
                    id: id@,
                    kind: *kind,
                    status: *status,
                    title: text_option(*title),
                }
            },
        }
    }
}

/// What a list of events holds.
pub open spec fn event_views(events: Seq<StreamEvent>) -> Seq<StreamEventView> {
    events.map_values(|event: StreamEvent| event@)
}

/// One more event at the end of a list adds what it holds at the end.
pub(crate) proof fn lemma_event_views_push(events: Seq<StreamEvent>, event: StreamEvent)
    ensures
        event_views(events.push(event)) == event_views(events).push(event@),
{
    assert(event_views(events.push(event)) =~= event_views(events).push(event@));
}

/// An event shows all that it holds, as it is.
pub proof fn law_events_show_what_they_hold(
    text: String,
    other: String,
    numbers: (Option<u64>, Option<u64>, Option<u64>, Option<u64>),
    attempt: u32,
    max: u32,
)
    ensures
        StreamEvent::TextDelta(text)@ == StreamEventView::TextDelta(text@),
        StreamEvent::ThinkingDelta(text)@ == StreamEventView::ThinkingDelta(text@),
        (StreamEvent::ToolUseStart { id: text, name: other })@ == (StreamEventView::ToolUseStart {
            id: text@,
            name: other@,
        }),
        StreamEvent::ToolInputDelta(text)@ == StreamEventView::ToolInputDelta(text@),
        StreamEvent::ToolUseEnd@ == StreamEventView::ToolUseEnd,
        (StreamEvent::MessageEnd { stop_reason: Some(text) })@ == (StreamEventView::MessageEnd {
            stop_reason: Some(text@),
        }),
        (StreamEvent::MessageEnd { stop_reason: None })@ == (StreamEventView::MessageEnd {
            stop_reason: None,
        }),
        (StreamEvent::TokenUsage {
            input_tokens: numbers.0,
            output_tokens: numbers.1,
            cache_read_input_tokens: numbers.2,
            cache_creation_input_tokens: numbers.3,
        })@ == (StreamEventView::TokenUsage {
            input_tokens: numbers.0,
            output_tokens: numbers.1,
            cache_read_input_tokens: numbers.2,
            cache_creation_input_tokens: numbers.3,
        }),
        (StreamEvent::ConnectionType { connection: text })@ == (StreamEventView::ConnectionType {
            connection: text@,
        }),
        (StreamEvent::Retrying { attempt, max })@ == (StreamEventView::Retrying { attempt, max }),
        (StreamEvent::RetryRollback { attempt, max })@ == (StreamEventView::RetryRollback {
            attempt,
            max,
        }),
        (StreamEvent::StatusDetail { detail: text })@ == (StreamEventView::StatusDetail {
            detail: text@,
        }),
        StreamEvent::SessionId(text)@ == StreamEventView::SessionId(text@),
{
}

/// Lists show each of their items, in their order.
pub proof fn law_lists_show_their_items(
    events: Seq<StreamEvent>,
    blocks: Seq<ContentBlock>,
    messages: Seq<Message>,
    tools: Seq<ToolDefinition>,
    i: int,
)
    ensures
        event_views(events).len() == events.len(),
        0 <= i < events.len() ==> event_views(events)[i] == events[i]@,
        block_views(blocks).len() == blocks.len(),
        0 <= i < blocks.len() ==> block_views(blocks)[i] == blocks[i]@,
        message_views(messages).len() == messages.len(),
        0 <= i < messages.len() ==> message_views(messages)[i].role == messages[i].role
            && message_views(messages)[i].content == block_views(messages[i].content@),
        tool_names(tools).len() == tools.len(),
        0 <= i < tools.len() ==> tool_names(tools)[i] == tools[i].name@,
{
}

/// A block shows all that it holds, as it is.
pub proof fn law_blocks_show_what_they_hold(text: String, other: String)
    ensures
        (ContentBlock::Text { text })@ == (ContentBlockView::Text { text: text@ }),
        (ContentBlock::ToolUse { id: text, name: other })@ == (ContentBlockView::ToolUse {
            id: text@,
            name: other@,
        }),
        (ContentBlock::ToolResult { tool_use_id: text, content: other })@ == (
        ContentBlockView::ToolResult { tool_use_id: text@, content: other@ }),
        ContentBlock::Image@ == ContentBlockView::Image,
        ContentBlock::Other@ == ContentBlockView::Other,
{
}

/// An optional text shows the text, where there is one.
pub proof fn law_optional_texts(text: String, part: &str)
    ensures
        text_option(Some(text)) == Some(text@),
        text_option(None) is None,
        str_option(Some(part)) == Some(part@),
        str_option(None) is None,
{
}

} // verus!
