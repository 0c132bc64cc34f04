//! The response stream of the native transport: server-sent events whose data
//! lines hold JSON chunks, turned into the events of a stream.

use crate::json::{json_of_text, json_views, parse_json, Json, JsonView};
use crate::message::{
    event_views, lemma_event_views_push, StreamEvent, StreamEventView,
};
use crate::text::{
    concat, concat3, decimal, decimal_text, find_char, lossy_text, str_eq, strip_prefix,
    text_lossy, trim, trimmed,
};
use vstd::prelude::*;
use vstd::string::*;

verus! {

/// What of a stream is remembered from one line to the next.
#[derive(Debug)]
pub struct SseState {
    /// The tool call that is open, or an empty text.
    pub tool_id: String,
    pub input_tokens: u64,
    pub output_tokens: u64,
    /// Whether the stream has said that it is over.
    pub done: bool,
}

/// What the memory of a stream holds.
pub struct SseStateView {
    pub tool_id: Seq<char>,
    pub input_tokens: u64,
    pub output_tokens: u64,
    pub done: bool,
}

impl View for SseState {
    type V = SseStateView;

    open spec fn view(&self) -> SseStateView {
        SseStateView {
            tool_id: self.tool_id@,
            input_tokens: self.input_tokens,
            output_tokens: self.output_tokens,
            done: self.done,
        }
    }
}

/// What is remembered after a part of the stream, and the events it gives.
pub struct SseRead {
    pub state: SseStateView,
    pub events: Seq<StreamEventView>,
}

/// The event that ends an open tool call.
pub open spec fn flush_events(tool_id: Seq<char>) -> Seq<StreamEventView> {
    if tool_id.len() > 0 {
        seq![StreamEventView::ToolUseEnd]
    } else {
        Seq::empty()
    }
}

/// The function that a tool call is about.
pub open spec fn function_text(call: JsonView, key: Seq<char>) -> Option<Seq<char>> {
    match call.field("function"@) {
        Some(function) => function.text_at(key),
        None => None,
    }
}

/// One part of a tool call: one with an identifier begins a call, and ends the
/// one that is open; arguments belong to the open call.
pub open spec fn read_tool_call(state: SseStateView, call: JsonView) -> SseRead {
    let begun = match call.text_at("id"@) {
        Some(id) => SseRead {
            state: SseStateView { tool_id: id, ..state },
            events: flush_events(state.tool_id).push(
                StreamEventView::ToolUseStart {
                    id,
                    name: match function_text(call, "name"@) {
                        Some(name) => name,
                        None => Seq::empty(),
                    },
                },
            ),
        },
        None => SseRead { state, events: Seq::empty() },
    };
    match function_text(call, "arguments"@) {
        Some(arguments) => SseRead {
            events: begun.events.push(StreamEventView::ToolInputDelta(arguments)),
            ..begun
        },
        None => begun,
    }
}

/// The parts of tool calls, one after the other.
pub open spec fn read_tool_calls(state: SseStateView, calls: Seq<JsonView>) -> SseRead
    decreases calls.len(),
{
    if calls.len() == 0 {
        SseRead { state, events: Seq::empty() }
    } else {
        let before = read_tool_calls(state, calls.drop_last());
        let read = read_tool_call(before.state, calls.last());
        SseRead { state: read.state, events: before.events + read.events }
    }
}

/// The name of a stop reason in the stream.
pub open spec fn stop_reason_of(finish: Seq<char>) -> Seq<char> {
    if finish == "stop"@ {
        "end_turn"@
    } else if finish == "tool_calls"@ {
        "tool_use"@
    } else if finish == "length"@ {
        "max_tokens"@
    } else {
        finish
    }
}

/// The end of a message, which ends an open tool call.
pub open spec fn read_finish(state: SseStateView, finish: Seq<char>) -> SseRead {
    SseRead {
        state: SseStateView { tool_id: Seq::empty(), ..state },
        events: flush_events(state.tool_id).push(
            StreamEventView::MessageEnd { stop_reason: Some(stop_reason_of(finish)) },
        ),
    }
}

/// The text that a choice adds.
pub open spec fn content_events(delta: JsonView) -> Seq<StreamEventView> {
    match delta.text_at("content"@) {
        Some(content) if content.len() > 0 => seq![StreamEventView::TextDelta(content)],
        _ => Seq::empty(),
    }
}

/// One choice of a chunk: its text, its tool calls and its end. A choice
/// without a delta says nothing.
pub open spec fn read_choice(state: SseStateView, choice: JsonView) -> SseRead {
    match choice.field("delta"@) {
        None => SseRead { state, events: Seq::empty() },
        Some(delta) => {
            let calls = match delta.items_at("tool_calls"@) {
                Some(calls) => read_tool_calls(state, calls),
                None => SseRead { state, events: Seq::empty() },
            };
            let end = match choice.text_at("finish_reason"@) {
                Some(finish) => read_finish(calls.state, finish),
                None => SseRead { state: calls.state, events: Seq::empty() },
            };
            SseRead {
                state: end.state,
                events: content_events(delta) + calls.events + end.events,
            }
        },
    }
}

/// The choices of a chunk, one after the other.
pub open spec fn read_choices(state: SseStateView, choices: Seq<JsonView>) -> SseRead
    decreases choices.len(),
{
    if choices.len() == 0 {
        SseRead { state, events: Seq::empty() }
    } else {
        let before = read_choices(state, choices.drop_last());
        let read = read_choice(before.state, choices.last());
        SseRead { state: read.state, events: before.events + read.events }
    }
}

/// The tokens that a chunk speaks of: one that says anything of them says all.
pub open spec fn with_usage(state: SseStateView, chunk: JsonView) -> SseStateView {
    match chunk.field("usage"@) {
        Some(usage) => SseStateView {
            input_tokens: match usage.unsigned_at("prompt_tokens"@) {
                Some(tokens) => tokens,
                None => 0,
            },
            output_tokens: match usage.unsigned_at("completion_tokens"@) {
                Some(tokens) => tokens,
                None => 0,
            },
            ..state
        },
        None => state,
    }
}

/// One chunk of a response.
pub open spec fn read_chunk(state: SseStateView, chunk: JsonView) -> SseRead {
    match chunk.items_at("choices"@) {
        Some(choices) => read_choices(with_usage(state, chunk), choices),
        None => SseRead { state: with_usage(state, chunk), events: Seq::empty() },
    }
}

/// The end of a stream: the tokens, where there are any, and the end of the
/// message.
pub open spec fn read_done(state: SseStateView) -> SseRead {
    let usage = StreamEventView::TokenUsage {
        input_tokens: Some(state.input_tokens),
        output_tokens: Some(state.output_tokens),
        cache_read_input_tokens: None,
        cache_creation_input_tokens: None,
    };
    let end = StreamEventView::MessageEnd { stop_reason: None };
    SseRead {
        state: SseStateView { done: true, ..state },
        events: if state.input_tokens > 0 || state.output_tokens > 0 {
            seq![usage, end]
        } else {
            seq![end]
        },
    }
}

/// The data of a line, where it is a data line: what follows the field's name
/// and at most one space.
pub open spec fn data_of_line(line: Seq<char>) -> Option<Seq<char>> {
    if "data:"@.is_prefix_of(line) {
        let data = line.skip(5);
        if data.len() > 0 && data[0] == ' ' {
            Some(data.skip(1))
        } else {
            Some(data)
        }
    } else {
        None
    }
}

/// The data of a data line. What is not JSON says nothing.
pub open spec fn read_data(state: SseStateView, data: Seq<char>) -> SseRead {
    if trimmed(data) == "[DONE]"@ {
        read_done(state)
    } else {
        match json_of_text(data) {
            Some(chunk) => read_chunk(state, chunk),
            None => SseRead { state, events: Seq::empty() },
        }
    }
}

/// One line of a stream. Comments, and lines that are no data lines, say
/// nothing.
pub open spec fn read_line(state: SseStateView, line: Seq<char>) -> SseRead {
    match data_of_line(line) {
        Some(data) => read_data(state, data),
        None => SseRead { state, events: Seq::empty() },
    }
}

/// A line without the carriage returns at its end.
pub open spec fn without_returns(line: Seq<char>) -> Seq<char>
    decreases line.len(),
{
    if line.len() > 0 && line.last() == '\r' {
        without_returns(line.drop_last())
    } else {
        line
    }
}

/// A stream as far as it was read: the line that is not over yet, and what is
/// remembered of the lines before it.
pub struct SseParserView {
    pub line: Seq<char>,
    pub state: SseStateView,
}

/// A stream after a part of it was read, and the events that part gives.
pub struct SseFed {
    pub parser: SseParserView,
    pub events: Seq<StreamEventView>,
}

/// One more character of a stream: a line feed ends the line. Once the stream
/// has said that it is over, nothing more is read.
pub open spec fn read_char(parser: SseParserView, c: char) -> SseFed {
    if parser.state.done {
        SseFed { parser, events: Seq::empty() }
    } else if c == '\n' {
        let read = read_line(parser.state, without_returns(parser.line));
        SseFed {
            parser: SseParserView { line: Seq::empty(), state: read.state },
            events: read.events,
        }
    } else {
        SseFed {
            parser: SseParserView { line: parser.line.push(c), ..parser },
            events: Seq::empty(),
        }
    }
}

/// More text of a stream.
pub open spec fn read_text(parser: SseParserView, text: Seq<char>) -> SseFed
    decreases text.len(),
{
    if text.len() == 0 {
        SseFed { parser, events: Seq::empty() }
    } else {
        let before = read_text(parser, text.drop_last());
        let read = read_char(before.parser, text.last());
        SseFed { parser: read.parser, events: before.events + read.events }
    }
}

/// How the text of a stream is cut into pieces does not matter: one piece
/// after the other gives the same events as both at once, and leaves the
/// stream in the same state.
pub proof fn law_pieces_do_not_matter(parser: SseParserView, first: Seq<char>, second: Seq<char>)
    ensures
        ({
            let one = read_text(parser, first);
            let two = read_text(one.parser, second);
            read_text(parser, first + second) == (SseFed {
                parser: two.parser,
                events: one.events + two.events,
            })
        }),
    decreases second.len(),
{
    let one = read_text(parser, first);
    if second.len() == 0 {
        assert(first + second =~= first);
        assert(one.events + Seq::<StreamEventView>::empty() =~= one.events);
    } else {
        assert((first + second).drop_last() =~= first + second.drop_last());
        assert((first + second).last() == second.last());
        law_pieces_do_not_matter(parser, first, second.drop_last());
        let before = read_text(one.parser, second.drop_last());
        let read = read_char(before.parser, second.last());
        assert((one.events + before.events) + read.events =~= one.events + (before.events
            + read.events));
    }
}

/// Once a stream has said that it is over, no more text gives any event.
pub proof fn law_nothing_follows_done(parser: SseParserView, text: Seq<char>)
    requires
        parser.state.done,
    ensures
        read_text(parser, text) == (SseFed { parser, events: Seq::<StreamEventView>::empty() }),
    decreases text.len(),
{
    if text.len() > 0 {
        law_nothing_follows_done(parser, text.drop_last());
        assert(Seq::<StreamEventView>::empty() + Seq::<StreamEventView>::empty() =~= Seq::<
            StreamEventView,
        >::empty());
    }
}

/// Text without a line feed makes the line longer.
proof fn lemma_within_line(parser: SseParserView, text: Seq<char>)
    requires
        !parser.state.done,
        !text.contains('\n'),
    ensures
        read_text(parser, text) == (SseFed {
            parser: SseParserView { line: parser.line + text, ..parser },
            events: Seq::<StreamEventView>::empty(),
        }),
    decreases text.len(),
{
    if text.len() == 0 {
        assert(parser.line + text =~= parser.line);
    } else {
        assert(!text.drop_last().contains('\n')) by {
            if text.drop_last().contains('\n') {
                let k = choose|k: int|
                    0 <= k < text.drop_last().len() && text.drop_last()[k] == '\n';
                assert(text[k] == '\n');
            }
        }
        assert(text.last() != '\n');
        lemma_within_line(parser, text.drop_last());
        assert((parser.line + text.drop_last()).push(text.last()) =~= parser.line + text);
        assert(Seq::<StreamEventView>::empty() + Seq::<StreamEventView>::empty() =~= Seq::<
            StreamEventView,
        >::empty());
    }
}

/// Text up to and with a line feed ends the line.
proof fn lemma_whole_line(parser: SseParserView, text: Seq<char>)
    requires
        !parser.state.done,
        !text.contains('\n'),
    ensures
        read_text(parser, text.push('\n')) == read_char(
            SseParserView { line: parser.line + text, ..parser },
            '\n',
        ),
{
    lemma_within_line(parser, text);
    assert(text.push('\n').drop_last() =~= text);
    let read = read_char(SseParserView { line: parser.line + text, ..parser }, '\n');
    assert(Seq::<StreamEventView>::empty() + read.events =~= read.events);
}

impl SseState {
    /// Ends an open tool call.
    fn flush(&self, events: &mut Vec<StreamEvent>)
        ensures
            event_views(final(events)@) == event_views(old(events)@) + flush_events(
                self@.tool_id,
            ),
    {
        if self.tool_id.as_str().unicode_len() > 0 {
            proof {
                lemma_event_views_push(events@, StreamEvent::ToolUseEnd);
            }
            events.push(StreamEvent::ToolUseEnd);
        }
        assert(event_views(events@) =~= event_views(old(events)@) + flush_events(self@.tool_id));
    }

    /// Reads one part of a tool call.
    fn tool_call(&mut self, call: &Json, events: &mut Vec<StreamEvent>)
        ensures
            final(self)@ == read_tool_call(old(self)@, call@).state,
            event_views(final(events)@) == event_views(old(events)@) + read_tool_call(
                old(self)@,
                call@,
            ).events,
    {
        let ghost base = event_views(events@);
        let ghost whole = read_tool_call(self@, call@);
        let function = call.get("function");
        match call.str_at("id") {
            Some(id) => {
                self.flush(events);
                let name = match function {
                    Some(function) => match function.str_at("name") {
                        Some(name) => name.to_owned(),
                        None => String::new(),
                    },
                    None => String::new(),
                };
                let start = StreamEvent::ToolUseStart { id: id.to_owned(), name };
                proof {
                    lemma_event_views_push(events@, start);
                }
                self.tool_id = id.to_owned();
                events.push(start);
            },
            None => {},
        }
        let arguments = match function {
            Some(function) => function.str_at("arguments"),
            None => None,
        };
        match arguments {
            Some(arguments) => {
                let delta = StreamEvent::ToolInputDelta(arguments.to_owned());
                proof {
                    lemma_event_views_push(events@, delta);
                }
                events.push(delta);
            },
            None => {},
        }
        assert(event_views(events@) =~= base + whole.events);
    }

    /// Reads the parts of tool calls.
    fn tool_calls(&mut self, calls: &Vec<Json>, events: &mut Vec<StreamEvent>)
        ensures
            final(self)@ == read_tool_calls(old(self)@, json_views(calls@)).state,
            event_views(final(events)@) == event_views(old(events)@) + read_tool_calls(
                old(self)@,
                json_views(calls@),
            ).events,
    {
        let ghost start = self@;
        let ghost base = event_views(events@);
        let ghost views = json_views(calls@);
        let mut i: usize = 0;
        assert(views.take(0) =~= Seq::empty());
        assert(base + Seq::<StreamEventView>::empty() =~= base);
        while i < calls.len()
            invariant
                i <= calls.len(),
                views == json_views(calls@),
                self@ == read_tool_calls(start, views.take(i as int)).state,
                event_views(events@) == base + read_tool_calls(start, views.take(i as int)).events,
            decreases calls.len() - i,
        {
            let ghost before = read_tool_calls(start, views.take(i as int));
            proof {
                assert(views.take(i + 1).drop_last() =~= views.take(i as int));
                assert(views.take(i + 1).last() == calls@[i as int]@);
            }
            self.tool_call(&calls[i], events);
            proof {
                let read = read_tool_call(before.state, calls@[i as int]@);
                assert((base + before.events) + read.events =~= base + (before.events
                    + read.events));
            }
            i += 1;
        }
        assert(views.take(i as int) =~= views);
    }

    /// Reads the end of a message.
    fn finish(&mut self, finish: &str, events: &mut Vec<StreamEvent>)
        ensures
            final(self)@ == read_finish(old(self)@, finish@).state,
            event_views(final(events)@) == event_views(old(events)@) + read_finish(
                old(self)@,
                finish@,
            ).events,
    {
        let ghost base = event_views(events@);
        let ghost whole = read_finish(self@, finish@);
        self.flush(events);
        self.tool_id = String::new();
        let end = StreamEvent::MessageEnd { stop_reason: Some(stop_reason(finish).to_owned()) };
        proof {
            lemma_event_views_push(events@, end);
        }
        events.push(end);
        assert(event_views(events@) =~= base + whole.events);
        assert(self@.tool_id =~= Seq::empty());
    }

    /// Reads one choice of a chunk.
    fn choice(&mut self, choice: &Json, events: &mut Vec<StreamEvent>)
        ensures
            final(self)@ == read_choice(old(self)@, choice@).state,
            event_views(final(events)@) == event_views(old(events)@) + read_choice(
                old(self)@,
                choice@,
            ).events,
    {
        let ghost base = event_views(events@);
        let ghost start = self@;
        let ghost whole = read_choice(start, choice@);
        let delta = match choice.get("delta") {
            Some(delta) => delta,
            None => {
                assert(event_views(events@) =~= base + whole.events);
                return;
            },
        };
        match delta.str_at("content") {
            Some(content) => if content.unicode_len() > 0 {
                let text = StreamEvent::TextDelta(content.to_owned());
                proof {
                    lemma_event_views_push(events@, text);
                }
                events.push(text);
            },
            None => {},
        }
        assert(event_views(events@) =~= base + content_events(delta@));
        let ghost calls_read = match delta@.items_at("tool_calls"@) {
            Some(calls) => read_tool_calls(start, calls),
            None => SseRead { state: start, events: Seq::empty() },
        };
        match delta.array_at("tool_calls") {
            Some(calls) => self.tool_calls(calls, events),
            None => {},
        }
        assert(event_views(events@) =~= base + content_events(delta@) + calls_read.events);
        match choice.str_at("finish_reason") {
            Some(finish) => self.finish(finish, events),
            None => {},
        }
        assert(event_views(events@) =~= base + whole.events);
    }

    /// Reads the choices of a chunk.
    fn choices(&mut self, choices: &Vec<Json>, events: &mut Vec<StreamEvent>)
        ensures
            final(self)@ == read_choices(old(self)@, json_views(choices@)).state,
            event_views(final(events)@) == event_views(old(events)@) + read_choices(
                old(self)@,
                json_views(choices@),
            ).events,
    {
        let ghost start = self@;
        let ghost base = event_views(events@);
        let ghost views = json_views(choices@);
        let mut i: usize = 0;
        assert(views.take(0) =~= Seq::empty());
        assert(base + Seq::<StreamEventView>::empty() =~= base);
        while i < choices.len()
            invariant
                i <= choices.len(),
                views == json_views(choices@),
                self@ == read_choices(start, views.take(i as int)).state,
                event_views(events@) == base + read_choices(start, views.take(i as int)).events,
            decreases choices.len() - i,
        {
            let ghost before = read_choices(start, views.take(i as int));
            proof {
                assert(views.take(i + 1).drop_last() =~= views.take(i as int));
                assert(views.take(i + 1).last() == choices@[i as int]@);
            }
            self.choice(&choices[i], events);
            proof {
                let read = read_choice(before.state, choices@[i as int]@);
                assert((base + before.events) + read.events =~= base + (before.events
                    + read.events));
            }
            i += 1;
        }
        assert(views.take(i as int) =~= views);
    }

    /// Reads one chunk of a response.
    pub fn chunk(&mut self, chunk: &Json, events: &mut Vec<StreamEvent>)
        ensures
            final(self)@ == read_chunk(old(self)@, chunk@).state,
            event_views(final(events)@) == event_views(old(events)@) + read_chunk(
                old(self)@,
                chunk@,
            ).events,
    {
        match chunk.get("usage") {
            Some(usage) => {
                self.input_tokens = match usage.u64_at("prompt_tokens") {
                    Some(tokens) => tokens,
                    None => 0,
                };
                self.output_tokens = match usage.u64_at("completion_tokens") {
                    Some(tokens) => tokens,
                    None => 0,
                };
            },
            None => {},
        }
        match chunk.array_at("choices") {
            Some(choices) => self.choices(choices, events),
            None => {
                assert(event_views(events@) + Seq::<StreamEventView>::empty() =~= event_views(
                    events@,
                ));
            },
        }
    }

    /// Reads the end of a stream.
    fn end(&mut self, events: &mut Vec<StreamEvent>)
        ensures
            final(self)@ == read_done(old(self)@).state,
            event_views(final(events)@) == event_views(old(events)@) + read_done(
                old(self)@,
            ).events,
    {
        let ghost base = event_views(events@);
        if self.input_tokens > 0 || self.output_tokens > 0 {
            let usage = StreamEvent::TokenUsage {
                input_tokens: Some(self.input_tokens),
                output_tokens: Some(self.output_tokens),
                cache_read_input_tokens: None,
                cache_creation_input_tokens: None,
            };
            proof {
                lemma_event_views_push(events@, usage);
            }
            events.push(usage);
        }
        let end = StreamEvent::MessageEnd { stop_reason: None };
        proof {
            lemma_event_views_push(events@, end);
        }
        events.push(end);
        assert(event_views(events@) =~= base + read_done(self@).events);
        self.done = true;
    }

    /// Reads one line of a stream.
    pub fn line(&mut self, line: &str, events: &mut Vec<StreamEvent>)
        ensures
            final(self)@ == read_line(old(self)@, line@).state,
            event_views(final(events)@) == event_views(old(events)@) + read_line(
                old(self)@,
                line@,
            ).events,
    {
        assert(event_views(events@) + Seq::<StreamEventView>::empty() =~= event_views(events@));
        let data = match sse_data_line(line) {
            Some(data) => data,
            None => {
                return;
            },
        };
        if str_eq(trim(data), "[DONE]") {
            self.end(events);
            return;
        }
        match parse_json(data) {
            Some(chunk) => self.chunk(&chunk, events),
            None => {},
        }
    }
}

/// The name of a stop reason in the stream.
pub fn stop_reason(finish: &str) -> (r: &str)
    ensures
        r@ == stop_reason_of(finish@),
{
    if str_eq(finish, "stop") {
        "end_turn"
    } else if str_eq(finish, "tool_calls") {
        "tool_use"
    } else if str_eq(finish, "length") {
        "max_tokens"
    } else {
        finish
    }
}

/// The data of a line, where it is a data line: what follows the field's name
/// and at most one space.
pub fn sse_data_line(line: &str) -> (r: Option<&str>)
    ensures
        data_of_line(line@) == (match r {
            Some(data) => Some(data@),
            None => None,
        }),
{
    proof {
        reveal_strlit("data:");
        reveal_strlit(" ");
    }
    match strip_prefix(line, "data:") {
        Some(data) => {
            assert(line@.skip(5) =~= data@);
            assert("data:"@.is_prefix_of(line@));
            match strip_prefix(data, " ") {
                Some(rest) => {
                    assert(data@[0] == ' ');
                    assert(data@.skip(1) =~= rest@);
                    Some(rest)
                },
                None => {
                    assert(!(data@.len() > 0 && data@[0] == ' ')) by {
                        if data@.len() > 0 && data@[0] == ' ' {
                            assert(" "@ =~= data@.subrange(0, 1));
                        }
                    }
                    Some(data)
                },
            }
        },
        None => None,
    }
}

/// A line without the carriage returns at its end.
fn trim_returns(line: &str) -> (r: &str)
    ensures
        r@ == without_returns(line@),
{
    let mut n: usize = line.unicode_len();
    assert(line@.take(n as int) =~= line@);
    while n > 0 && line.get_char(n - 1) == '\r'
        invariant
            n <= line@.len(),
            without_returns(line@.take(n as int)) == without_returns(line@),
        decreases n,
    {
        assert(line@.take(n as int).drop_last() =~= line@.take(n - 1));
        n = n - 1;
    }
    assert(line@.take(n as int) =~= line@.subrange(0, n as int));
    line.substring_char(0, n)
}

/// A stream as far as it was read.
#[derive(Debug)]
pub struct SseParser {
    /// The line that is not over yet.
    pub line: String,
    pub state: SseState,
}

impl View for SseParser {
    type V = SseParserView;

    open spec fn view(&self) -> SseParserView {
        SseParserView { line: self.line@, state: self.state@ }
    }
}

impl SseParser {
    /// A stream of which nothing was read yet.
    pub fn new() -> (parser: Self)
        ensures
            parser@ == (SseParserView {
                line: Seq::empty(),
                state: SseStateView {
                    tool_id: Seq::empty(),
                    input_tokens: 0,
                    output_tokens: 0,
                    done: false,
                },
            }),
    {
        let parser = SseParser {
            line: String::new(),
            state: SseState {
                tool_id: String::new(),
                input_tokens: 0,
                output_tokens: 0,
                done: false,
            },
        };
        assert(parser.line@ =~= Seq::empty());
        assert(parser.state.tool_id@ =~= Seq::empty());
        parser
    }

    /// Reads more text of the stream, and gives the events it holds.
    pub fn feed_text(&mut self, text: &str) -> (events: Vec<StreamEvent>)
        ensures
            (SseFed { parser: final(self)@, events: event_views(events@) }) == read_text(
                old(self)@,
                text@,
            ),
    {
        let ghost start = self@;
        let mut events: Vec<StreamEvent> = Vec::new();
        let mut from: usize = 0;
        let n = text.unicode_len();
        proof {
            assert(text@.take(0) =~= Seq::<char>::empty());
            assert(event_views(events@) =~= Seq::<StreamEventView>::empty());
        }
        while from < n
            invariant
                from <= n,
                n == text@.len(),
                start == old(self)@,
                (SseFed { parser: self@, events: event_views(events@) }) == read_text(
                    start,
                    text@.take(from as int),
                ),
            decreases n - from,
        {
            let ghost done_part = text@.take(from as int);
            if self.state.done {
                proof {
                    law_pieces_do_not_matter(start, done_part, text@.skip(from as int));
                    law_nothing_follows_done(self@, text@.skip(from as int));
                    assert(done_part + text@.skip(from as int) =~= text@);
                    assert(event_views(events@) + Seq::<StreamEventView>::empty() =~= event_views(
                        events@,
                    ));
                }
                return events;
            }
            let rest = text.substring_char(from, n);
            match find_char(rest, '\n') {
                Some(i) => {
                    let ghost piece = rest@.take(i as int);
                    let ghost before = self@;
                    let ghost before_events = event_views(events@);
                    let head = rest.substring_char(0, i);
                    proof {
                        assert(head@ =~= piece);
                        law_pieces_do_not_matter(start, done_part, piece.push('\n'));
                        lemma_whole_line(before, piece);
                        assert(done_part + piece.push('\n') =~= text@.take(from + i + 1));
                    }
                    self.line.append(head);
                    let line = self.line.clone();
                    self.line = String::new();
                    self.state.line(trim_returns(line.as_str()), &mut events);
                    assert(self.line@ =~= Seq::empty());
                    from = from + i + 1;
                },
                None => {
                    proof {
                        law_pieces_do_not_matter(start, done_part, rest@);
                        lemma_within_line(self@, rest@);
                        assert(done_part + rest@ =~= text@);
                        assert(event_views(events@) + Seq::<StreamEventView>::empty()
                            =~= event_views(events@));
                    }
                    self.line.append(rest);
                    return events;
                },
            }
        }
        assert(text@.take(from as int) =~= text@);
        events
    }

    /// Reads the next bytes of the stream, and gives the events they hold: where
    /// the bytes are whole characters, those of their text.
    pub fn feed(&mut self, chunk: &[u8]) -> (events: Vec<StreamEvent>)
        ensures
            (SseFed { parser: final(self)@, events: event_views(events@) }) == read_text(
                old(self)@,
                lossy_text(chunk@),
            ),
            vstd::utf8::valid_utf8(chunk@) ==> (SseFed {
                parser: final(self)@,
                events: event_views(events@),
            }) == read_text(old(self)@, vstd::utf8::decode_utf8(chunk@)),
    {
        let text = text_lossy(chunk);
        self.feed_text(text.as_str())
    }

    /// What is said when the connection ends: where the stream has not said so
    /// itself, that the message is over.
    pub fn finish(&self) -> (events: Vec<StreamEvent>)
        ensures
            event_views(events@) == (if self@.state.done {
                Seq::empty()
            } else {
                seq![StreamEventView::MessageEnd { stop_reason: None }]
            }),
    {
        let mut events: Vec<StreamEvent> = Vec::new();
        if !self.state.done {
            events.push(StreamEvent::MessageEnd { stop_reason: None });
        }
        assert(event_views(events@) =~= if self@.state.done {
            Seq::empty()
        } else {
            seq![StreamEventView::MessageEnd { stop_reason: None }]
        });
        events
    }

    /// The tokens that go on record: those of a stream that has said that it
    /// is over.
    pub fn recorded_usage(&self) -> (usage: Option<(u64, u64)>)
        ensures
            usage == (if self@.state.done {
                Some((self@.state.input_tokens, self@.state.output_tokens))
            } else {
                None
            }),
    {
        if self.state.done {
            Some((self.state.input_tokens, self.state.output_tokens))
        } else {
            None
        }
    }
}

/// What is said when the connection breaks off.
pub fn stream_error_text(error: &str) -> (r: String)
    ensures
        r@ == "Stream error: "@ + error@,
{
    concat("Stream error: ", error)
}

/// What is said when nothing has come for too long.
pub fn stream_timeout_text(seconds: u64) -> (r: String)
    ensures
        r@ == "Stream read timeout: no data received for "@ + decimal_text(seconds as nat)
            + " seconds"@,
{
    concat3("Stream read timeout: no data received for ", decimal(seconds).as_str(), " seconds")
}

/// The tokens that a stream of the Responses API has spoken of last.
#[derive(Clone, Copy, Debug, PartialEq, Eq, Structural)]
pub struct ResponsesUsage {
    pub input_tokens: u64,
    pub output_tokens: u64,
}

/// The tokens after one more event: one that speaks of tokens says all.
pub open spec fn usage_after(usage: ResponsesUsage, event: StreamEventView) -> ResponsesUsage {
    match event {
        StreamEventView::TokenUsage { input_tokens, output_tokens, .. } => ResponsesUsage {
            input_tokens: match input_tokens {
                Some(tokens) => tokens,
                None => 0,
            },
            output_tokens: match output_tokens {
                Some(tokens) => tokens,
                None => 0,
            },
        },
        _ => usage,
    }
}

impl ResponsesUsage {
    /// No tokens.
    pub fn new() -> (usage: Self)
        ensures
            usage.input_tokens == 0,
            usage.output_tokens == 0,
    {
        ResponsesUsage { input_tokens: 0, output_tokens: 0 }
    }

    /// Takes note of what an event says of tokens.
    pub fn note(&mut self, event: &StreamEvent)
        ensures
            *final(self) == usage_after(*old(self), event@),
    {
        match event {
            StreamEvent::TokenUsage { input_tokens, output_tokens, .. } => {
                self.input_tokens = match input_tokens {
                    Some(tokens) => *tokens,
                    None => 0,
                };
                self.output_tokens = match output_tokens {
                    Some(tokens) => *tokens,
                    None => 0,
                };
            },
            _ => {},
        }
    }
}

/// The data of a line is all that follows `data:`, but for one space right
/// behind it; a line that begins otherwise has none.
pub proof fn law_data_lines(data: Seq<char>, line: Seq<char>)
    ensures
        data_of_line("data: "@ + data) == Some(data),
        !(data.len() > 0 && data[0] == ' ') ==> data_of_line("data:"@ + data) == Some(data),
        line.len() < 5 || line.take(5) != "data:"@ ==> data_of_line(line) is None,
{
    reveal_strlit("data:");
    reveal_strlit("data: ");
    let spaced = "data: "@ + data;
    assert("data:"@.is_prefix_of(spaced)) by {
        assert("data:"@ =~= spaced.subrange(0, 5));
    }
    assert(spaced.skip(5).skip(1) =~= data);
    assert(spaced.skip(5)[0] == ' ');
    let plain = "data:"@ + data;
    assert("data:"@.is_prefix_of(plain)) by {
        assert("data:"@ =~= plain.subrange(0, 5));
    }
    assert(plain.skip(5) =~= data);
    if "data:"@.is_prefix_of(line) {
        assert(line.take(5) =~= line.subrange(0, 5));
    }
}

/// Of a line only the carriage returns at its very end are taken away.
pub proof fn law_carriage_returns(line: Seq<char>)
    ensures
        without_returns(line.push('\r')) == without_returns(line),
        line.len() == 0 || line.last() != '\r' ==> without_returns(line) == line,
{
    assert(line.push('\r').drop_last() =~= line);
}

/// Why a message has ended is said under the stream's own names: these three
/// have another name, and every other reason keeps its own.
pub proof fn law_stop_reasons(finish: Seq<char>)
    ensures
        stop_reason_of("stop"@) == "end_turn"@,
        stop_reason_of("tool_calls"@) == "tool_use"@,
        stop_reason_of("length"@) == "max_tokens"@,
        finish != "stop"@ && finish != "tool_calls"@ && finish != "length"@ ==> stop_reason_of(
            finish,
        ) == finish,
{
    reveal_strlit("stop");
    reveal_strlit("tool_calls");
    reveal_strlit("length");
    assert("stop"@.len() == 4 && "tool_calls"@.len() == 10 && "length"@.len() == 6);
}

/// The tokens of a stream are those that its last chunk with any word of them
/// names, where what is not named or is no number is none; every other line
/// leaves them as they were. At its end the stream tells them, unless there
/// are none, and then that the message is over.
pub proof fn law_tokens_are_the_last_named(state: SseStateView, data: Seq<char>)
    ensures
        ({
            let after = read_data(state, data).state;
            let kept = after.input_tokens == state.input_tokens && after.output_tokens
                == state.output_tokens;
            if trimmed(data) == "[DONE]"@ {
                let events = read_data(state, data).events;
                let end = StreamEventView::MessageEnd { stop_reason: None };
                &&& kept
                &&& after.done
                &&& if state.input_tokens == 0 && state.output_tokens == 0 {
                    events == seq![end]
                } else {
                    events == seq![
                        StreamEventView::TokenUsage {
                            input_tokens: Some(state.input_tokens),
                            output_tokens: Some(state.output_tokens),
                            cache_read_input_tokens: None,
                            cache_creation_input_tokens: None,
                        },
                        end,
                    ]
                }
            } else {
                &&& after.done == state.done
                &&& match json_of_text(data) {
                    None => kept,
                    Some(chunk) => match chunk.field("usage"@) {
                        None => kept,
                        Some(usage) => {
                            &&& usage.unsigned_at("prompt_tokens"@) matches Some(n)
                                ==> after.input_tokens == n
                            &&& usage.unsigned_at("prompt_tokens"@) is None
                                ==> after.input_tokens == 0
                            &&& usage.unsigned_at("completion_tokens"@) matches Some(n)
                                ==> after.output_tokens == n
                            &&& usage.unsigned_at("completion_tokens"@) is None
                                ==> after.output_tokens == 0
                        },
                    },
                }
            }
        }),
{
    if trimmed(data) != "[DONE]"@ {
        match json_of_text(data) {
            Some(chunk) => match chunk.items_at("choices"@) {
                Some(choices) => lemma_choices_keep_tokens(with_usage(state, chunk), choices),
                None => {},
            },
            None => {},
        }
    }
}

/// Tool calls say nothing of tokens.
proof fn lemma_calls_keep_tokens(state: SseStateView, calls: Seq<JsonView>)
    ensures
        ({
            let after = read_tool_calls(state, calls).state;
            after.input_tokens == state.input_tokens && after.output_tokens == state.output_tokens
                && after.done == state.done
        }),
    decreases calls.len(),
{
    if calls.len() > 0 {
        lemma_calls_keep_tokens(state, calls.drop_last());
    }
}

/// Choices say nothing of tokens.
proof fn lemma_choices_keep_tokens(state: SseStateView, choices: Seq<JsonView>)
    ensures
        ({
            let after = read_choices(state, choices).state;
            after.input_tokens == state.input_tokens && after.output_tokens == state.output_tokens
                && after.done == state.done
        }),
    decreases choices.len(),
{
    if choices.len() > 0 {
        let before = read_choices(state, choices.drop_last());
        lemma_choices_keep_tokens(state, choices.drop_last());
        match choices.last().field("delta"@) {
            Some(delta) => match delta.items_at("tool_calls"@) {
                Some(calls) => lemma_calls_keep_tokens(before.state, calls),
                None => {},
            },
            None => {},
        }
    }
}

/// The tokens of a stream of the Responses API are those that its last event
/// with any word of them names, where what is not named is none.
pub proof fn law_last_usage_counts(
    usage: ResponsesUsage,
    event: StreamEventView,
    input: Option<u64>,
    output: Option<u64>,
    read: Option<u64>,
    written: Option<u64>,
)
    ensures
        !(event is TokenUsage) ==> usage_after(usage, event) == usage,
        ({
            let after = usage_after(
                usage,
                StreamEventView::TokenUsage {
                    input_tokens: input,
                    output_tokens: output,
                    cache_read_input_tokens: read,
                    cache_creation_input_tokens: written,
                },
            );
            &&& input matches Some(n) ==> after.input_tokens == n
            &&& input is None ==> after.input_tokens == 0
            &&& output matches Some(n) ==> after.output_tokens == n
            &&& output is None ==> after.output_tokens == 0
        }),
{
}

/// A parser shows the open line and all that is remembered, as it is.
pub proof fn law_parsers_show_what_they_hold(parser: SseParser)
    ensures
        parser@.line == parser.line@,
        parser@.state.tool_id == parser.state.tool_id@,
        parser@.state.input_tokens == parser.state.input_tokens,
        parser@.state.output_tokens == parser.state.output_tokens,
        parser@.state.done == parser.state.done,
{
}

} // verus!
