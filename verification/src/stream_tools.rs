//! What a response stream says of tool calls and of the ends of messages: the
//! same, in the same order, as its data lines.

use crate::json::JsonView;
use crate::message::StreamEventView;
use crate::sse::{
    content_events, flush_events, read_char, read_choice, read_choices, read_done, read_finish,
    read_line, read_text, read_tool_call, read_tool_calls, stop_reason_of, with_usage,
    without_returns, SseParserView, SseRead, SseStateView,
};
use crate::stream_text::{
    all_bytes, chunk_of_line, complete_lines, cut_at_characters, ends_stream,
    law_chunks_are_read_as_text, law_stream_carries_its_text, open_line,
    over_after, read_chunks,
};
use vstd::prelude::*;
use vstd::utf8::decode_utf8;

verus! {

/// What is said of tool calls and of the end of a message.
pub enum Mark {
    /// A tool call begins.
    Call { id: Seq<char>, name: Seq<char> },
    /// A piece of a tool's input, as it is.
    Input(Seq<char>),
    /// A message ends, for a reason.
    End { reason: Seq<char> },
}

/// What events say of tool calls and of the ends of messages.
pub open spec fn marks_of(events: Seq<StreamEventView>) -> Seq<Mark>
    decreases events.len(),
{
    if events.len() == 0 {
        Seq::empty()
    } else {
        let before = marks_of(events.drop_last());
        match events.last() {
            StreamEventView::ToolUseStart { id, name } => before.push(Mark::Call { id, name }),
            StreamEventView::ToolInputDelta(input) => before.push(Mark::Input(input)),
            StreamEventView::MessageEnd { stop_reason: Some(reason) } => before.push(
                Mark::End { reason },
            ),
            _ => before,
        }
    }
}

/// What one part of a tool call says: its identifier begins a call under the
/// name of its function, and its arguments are a piece of the call's input.
pub open spec fn part_marks(part: JsonView) -> Seq<Mark> {
    let name = match part.field("function"@) {
        Some(function) => match function.text_at("name"@) {
            Some(name) => name,
            None => Seq::empty(),
        },
        None => Seq::empty(),
    };
    let call = match part.text_at("id"@) {
        Some(id) => seq![Mark::Call { id, name }],
        None => Seq::empty(),
    };
    let input = match part.field("function"@) {
        Some(function) => match function.text_at("arguments"@) {
            Some(arguments) => seq![Mark::Input(arguments)],
            None => Seq::empty(),
        },
        None => Seq::empty(),
    };
    call + input
}

/// What parts of tool calls say, one after the other.
pub open spec fn parts_marks(parts: Seq<JsonView>) -> Seq<Mark>
    decreases parts.len(),
{
    if parts.len() == 0 {
        Seq::empty()
    } else {
        parts_marks(parts.drop_last()) + part_marks(parts.last())
    }
}

/// What a choice of a chunk says: the parts of tool calls in its delta, and why
/// the message has ended.
pub open spec fn choice_marks(choice: JsonView) -> Seq<Mark> {
    match choice.field("delta"@) {
        None => Seq::empty(),
        Some(delta) => {
            let parts = match delta.items_at("tool_calls"@) {
                Some(parts) => parts_marks(parts),
                None => Seq::empty(),
            };
            let end = match choice.text_at("finish_reason"@) {
                Some(finish) => seq![Mark::End { reason: stop_reason_of(finish) }],
                None => Seq::empty(),
            };
            parts + end
        },
    }
}

/// What the choices of a chunk say, one after the other.
pub open spec fn choices_marks(choices: Seq<JsonView>) -> Seq<Mark>
    decreases choices.len(),
{
    if choices.len() == 0 {
        Seq::empty()
    } else {
        choices_marks(choices.drop_last()) + choice_marks(choices.last())
    }
}

/// What a line says: what the choices of its chunk say.
pub open spec fn line_marks(line: Seq<char>) -> Seq<Mark> {
    match chunk_of_line(line) {
        Some(chunk) => match chunk.items_at("choices"@) {
            Some(choices) => choices_marks(choices),
            None => Seq::empty(),
        },
        None => Seq::empty(),
    }
}

/// What the lines say before the one that says that the stream is over, one
/// after the other.
pub open spec fn lines_marks(lines: Seq<Seq<char>>) -> Seq<Mark>
    decreases lines.len(),
{
    if lines.len() == 0 {
        Seq::empty()
    } else if over_after(lines.drop_last()) {
        lines_marks(lines.drop_last())
    } else {
        lines_marks(lines.drop_last()) + line_marks(lines.last())
    }
}

/// The input that pieces make up.
pub open spec fn input_of(marks: Seq<Mark>) -> Seq<char>
    decreases marks.len(),
{
    if marks.len() == 0 {
        Seq::empty()
    } else {
        match marks.last() {
            Mark::Input(input) => input_of(marks.drop_last()) + input,
            _ => input_of(marks.drop_last()),
        }
    }
}

/// The tool call that is open after events, where one was open before them or
/// none (an empty text): a call begins only where none is open, and ends where
/// one is, and a message ends for a reason only where none is.
pub open spec fn open_after(open: Seq<char>, events: Seq<StreamEventView>) -> Option<Seq<char>>
    decreases events.len(),
{
    if events.len() == 0 {
        Some(open)
    } else {
        match open_after(open, events.drop_last()) {
            None => None,
            Some(before) => match events.last() {
                StreamEventView::ToolUseStart { id, .. } => if before.len() == 0 {
                    Some(id)
                } else {
                    None
                },
                StreamEventView::ToolUseEnd => if before.len() > 0 {
                    Some(Seq::empty())
                } else {
                    None
                },
                StreamEventView::MessageEnd { stop_reason: Some(_) } => if before.len() == 0 {
                    Some(before)
                } else {
                    None
                },
                _ => Some(before),
            },
        }
    }
}

/// What events that follow each other say follows each other.
proof fn lemma_marks_concat(first: Seq<StreamEventView>, second: Seq<StreamEventView>)
    ensures
        marks_of(first + second) == marks_of(first) + marks_of(second),
    decreases second.len(),
{
    if second.len() == 0 {
        assert(first + second =~= first);
        assert(marks_of(first) + marks_of(second) =~= marks_of(first));
    } else {
        assert((first + second).drop_last() =~= first + second.drop_last());
        assert((first + second).last() == second.last());
        lemma_marks_concat(first, second.drop_last());
        assert(marks_of(first + second) =~= marks_of(first) + marks_of(second));
    }
}

/// The call that is open after events that follow each other.
proof fn lemma_open_concat(
    open: Seq<char>,
    first: Seq<StreamEventView>,
    second: Seq<StreamEventView>,
)
    ensures
        open_after(open, first + second) == (match open_after(open, first) {
            Some(between) => open_after(between, second),
            None => None,
        }),
    decreases second.len(),
{
    if second.len() == 0 {
        assert(first + second =~= first);
    } else {
        assert((first + second).drop_last() =~= first + second.drop_last());
        assert((first + second).last() == second.last());
        lemma_open_concat(open, first, second.drop_last());
    }
}

/// The event that ends an open call says nothing more, and leaves none open.
proof fn lemma_flush(tool_id: Seq<char>)
    ensures
        marks_of(flush_events(tool_id)) == Seq::<Mark>::empty(),
        open_after(tool_id, flush_events(tool_id)) matches Some(open) && open.len() == 0,
{
    reveal_with_fuel(marks_of, 2);
    reveal_with_fuel(open_after, 2);
    let events = flush_events(tool_id);
    if tool_id.len() > 0 {
        assert(events.drop_last() =~= Seq::empty());
    }
}

/// A part of a tool call is told as it is.
proof fn lemma_part(state: SseStateView, part: JsonView)
    ensures
        ({
            let read = read_tool_call(state, part);
            &&& marks_of(read.events) == part_marks(part)
            &&& open_after(state.tool_id, read.events) == Some(read.state.tool_id)
            &&& part.text_at("id"@) matches Some(id) ==> read.state.tool_id == id
            &&& part.text_at("id"@) is None ==> read.state.tool_id == state.tool_id
        }),
{
    let read = read_tool_call(state, part);
    let flush = flush_events(state.tool_id);
    lemma_flush(state.tool_id);
    reveal_with_fuel(marks_of, 3);
    reveal_with_fuel(open_after, 3);
    match part.text_at("id"@) {
        Some(id) => {
            let name = match part.field("function"@) {
                Some(function) => match function.text_at("name"@) {
                    Some(name) => name,
                    None => Seq::empty(),
                },
                None => Seq::empty(),
            };
            let begun = flush.push(StreamEventView::ToolUseStart { id, name });
            assert(begun.drop_last() =~= flush);
            assert(marks_of(begun) =~= seq![Mark::Call { id, name }]);
            assert(open_after(state.tool_id, begun) == Some(id));
            if read.events.len() > begun.len() {
                assert(read.events.drop_last() =~= begun);
            }
        },
        None => {
            if read.events.len() > 0 {
                assert(read.events.drop_last() =~= Seq::empty());
            }
        },
    }
    assert(marks_of(read.events) =~= part_marks(part));
}

/// Parts of tool calls are told as they are.
proof fn lemma_parts(state: SseStateView, parts: Seq<JsonView>)
    ensures
        marks_of(read_tool_calls(state, parts).events) == parts_marks(parts),
        open_after(state.tool_id, read_tool_calls(state, parts).events) == Some(
            read_tool_calls(state, parts).state.tool_id,
        ),
    decreases parts.len(),
{
    if parts.len() > 0 {
        lemma_parts(state, parts.drop_last());
        let before = read_tool_calls(state, parts.drop_last());
        let read = read_tool_call(before.state, parts.last());
        lemma_part(before.state, parts.last());
        lemma_marks_concat(before.events, read.events);
        lemma_open_concat(state.tool_id, before.events, read.events);
    }
}

/// What a choice says is told as it is.
proof fn lemma_choice(state: SseStateView, choice: JsonView)
    ensures
        marks_of(read_choice(state, choice).events) == choice_marks(choice),
        open_after(state.tool_id, read_choice(state, choice).events) == Some(
            read_choice(state, choice).state.tool_id,
        ),
{
    reveal_with_fuel(marks_of, 2);
    reveal_with_fuel(open_after, 2);
    match choice.field("delta"@) {
        None => {},
        Some(delta) => {
            let calls = match delta.items_at("tool_calls"@) {
                Some(parts) => read_tool_calls(state, parts),
                None => SseRead { state, events: Seq::empty() },
            };
            match delta.items_at("tool_calls"@) {
                Some(parts) => lemma_parts(state, parts),
                None => {},
            }
            let end = match choice.text_at("finish_reason"@) {
                Some(finish) => read_finish(calls.state, finish),
                None => SseRead { state: calls.state, events: Seq::empty() },
            };
            match choice.text_at("finish_reason"@) {
                Some(finish) => {
                    lemma_flush(calls.state.tool_id);
                    assert(end.events.drop_last() =~= flush_events(calls.state.tool_id));
                    assert(marks_of(end.events) =~= seq![
                        Mark::End { reason: stop_reason_of(finish) },
                    ]);
                    let flushed = open_after(
                        calls.state.tool_id,
                        flush_events(calls.state.tool_id),
                    );
                    assert(flushed->0 =~= Seq::empty());
                },
                None => {},
            }
            let content = content_events(delta);
            if content.len() > 0 {
                assert(content.drop_last() =~= Seq::empty());
            }
            assert(marks_of(content) =~= Seq::empty());
            assert(open_after(state.tool_id, content) == Some(state.tool_id));
            lemma_marks_concat(content, calls.events);
            lemma_marks_concat(content + calls.events, end.events);
            lemma_open_concat(state.tool_id, content, calls.events);
            lemma_open_concat(state.tool_id, content + calls.events, end.events);
            assert(marks_of(read_choice(state, choice).events) =~= choice_marks(choice));
        },
    }
}

/// What choices say is told as it is.
proof fn lemma_choices(state: SseStateView, choices: Seq<JsonView>)
    ensures
        marks_of(read_choices(state, choices).events) == choices_marks(choices),
        open_after(state.tool_id, read_choices(state, choices).events) == Some(
            read_choices(state, choices).state.tool_id,
        ),
    decreases choices.len(),
{
    if choices.len() > 0 {
        lemma_choices(state, choices.drop_last());
        let before = read_choices(state, choices.drop_last());
        let read = read_choice(before.state, choices.last());
        lemma_choice(before.state, choices.last());
        lemma_marks_concat(before.events, read.events);
        lemma_open_concat(state.tool_id, before.events, read.events);
    }
}

/// A line tells of tool calls and of the ends of messages what stands in it,
/// whatever was read before.
pub proof fn law_line_tells_its_calls(state: SseStateView, line: Seq<char>)
    ensures
        marks_of(read_line(state, line).events) == line_marks(line),
        open_after(state.tool_id, read_line(state, line).events) == Some(
            read_line(state, line).state.tool_id,
        ),
{
    match chunk_of_line(line) {
        Some(chunk) => match chunk.items_at("choices"@) {
            Some(choices) => lemma_choices(with_usage(state, chunk), choices),
            None => {},
        },
        None => {
            reveal_with_fuel(marks_of, 3);
            reveal_with_fuel(open_after, 3);
            if ends_stream(line) {
                let events = read_done(state).events;
                assert(events.drop_last().drop_last() =~= Seq::empty() || events.drop_last()
                    =~= Seq::empty());
            }
        },
    }
}

/// The tool calls of a stream's events, their input piece by piece and
/// character for character, and the ends of messages are those in the complete
/// data lines before the one that says that the stream is over, in their order.
/// A call begins once the one before it has ended, and has ended where a message
/// ends.
pub proof fn law_stream_tells_its_calls(state: SseStateView, text: Seq<char>)
    requires
        !state.done,
    ensures
        ({
            let fed = read_text(SseParserView { line: Seq::empty(), state }, text);
            &&& marks_of(fed.events) == lines_marks(complete_lines(text))
            &&& input_of(marks_of(fed.events)) == input_of(lines_marks(complete_lines(text)))
            &&& open_after(state.tool_id, fed.events) == Some(fed.parser.state.tool_id)
        }),
    decreases text.len(),
{
    let parser = SseParserView { line: Seq::empty(), state };
    if text.len() > 0 {
        law_stream_tells_its_calls(state, text.drop_last());
        law_stream_carries_its_text(state, text.drop_last());
        let before = read_text(parser, text.drop_last());
        let read = read_char(before.parser, text.last());
        let lines = complete_lines(text.drop_last());
        lemma_marks_concat(before.events, read.events);
        lemma_open_concat(state.tool_id, before.events, read.events);
        if text.last() == '\n' {
            let line = without_returns(open_line(text.drop_last()));
            assert(complete_lines(text).drop_last() =~= lines);
            assert(complete_lines(text).last() == line);
            if before.parser.state.done {
                assert(marks_of(before.events) + marks_of(read.events) =~= marks_of(before.events));
            } else {
                law_line_tells_its_calls(before.parser.state, line);
            }
        } else {
            assert(marks_of(before.events) + marks_of(read.events) =~= marks_of(before.events));
        }
    }
}

/// The same of a stream's bytes, wherever between two characters they are cut
/// into chunks.
pub proof fn law_chunks_tell_their_calls(state: SseStateView, chunks: Seq<Seq<u8>>)
    requires
        !state.done,
        cut_at_characters(chunks),
    ensures
        marks_of(
            read_chunks(SseParserView { line: Seq::empty(), state }, chunks).events,
        ) == lines_marks(complete_lines(decode_utf8(all_bytes(chunks)))),
{
    law_chunks_are_read_as_text(SseParserView { line: Seq::empty(), state }, chunks);
    law_stream_tells_its_calls(state, decode_utf8(all_bytes(chunks)));
}

/// A choice's text comes before its tool calls, and the end of its message
/// comes last.
pub proof fn law_choices_are_told_in_order(
    state: SseStateView,
    choice: JsonView,
    delta: JsonView,
    i: int,
)
    requires
        choice.field("delta"@) == Some(delta),
        0 <= i < read_choice(state, choice).events.len(),
    ensures
        ({
            let events = read_choice(state, choice).events;
            &&& events[i] is TextDelta <==> i == 0 && (delta.text_at("content"@) matches Some(content)
                && content.len() > 0)
            &&& events[i] is TextDelta ==> Some(events[i]->TextDelta_0) == delta.text_at("content"@)
            &&& events[i] is MessageEnd <==> i == events.len() - 1 && choice.text_at(
                "finish_reason"@,
            ) is Some
        }),
{
    let events = read_choice(state, choice).events;
    let content = content_events(delta);
    let calls = match delta.items_at("tool_calls"@) {
        Some(parts) => read_tool_calls(state, parts),
        None => SseRead { state, events: Seq::empty() },
    };
    match delta.items_at("tool_calls"@) {
        Some(parts) => lemma_calls_are_calls(state, parts),
        None => {},
    }
    let end = match choice.text_at("finish_reason"@) {
        Some(finish) => read_finish(calls.state, finish),
        None => SseRead { state: calls.state, events: Seq::empty() },
    };
    if i < content.len() {
        assert(events[i] == content[i]);
    } else if i < content.len() + calls.events.len() {
        assert(events[i] == calls.events[i - content.len()]);
    } else {
        assert(events[i] == end.events[i - content.len() - calls.events.len()]);
    }
}

/// Tool calls give no other events.
proof fn lemma_calls_are_calls(state: SseStateView, parts: Seq<JsonView>)
    ensures
        forall|i: int|
            0 <= i < read_tool_calls(state, parts).events.len() ==> {
                let event = #[trigger] read_tool_calls(state, parts).events[i];
                !(event is TextDelta) && !(event is MessageEnd)
            },
    decreases parts.len(),
{
    if parts.len() > 0 {
        lemma_calls_are_calls(state, parts.drop_last());
        let before = read_tool_calls(state, parts.drop_last());
        let read = read_tool_call(before.state, parts.last());
        let events = read_tool_calls(state, parts).events;
        assert forall|i: int| 0 <= i < events.len() implies !((#[trigger] events[i]) is TextDelta)
            && !(events[i] is MessageEnd) by {
            if i < before.events.len() {
                assert(events[i] == before.events[i]);
            } else {
                assert(events[i] == read.events[i - before.events.len()]);
            }
        }
    }
}

} // verus!
