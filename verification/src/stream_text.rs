//! What a response stream says as a whole: the text that it carries, and that
//! neither the cuts between its chunks nor the lines without data matter.

use crate::json::{json_of_text, JsonView};
use crate::message::StreamEventView;
use crate::sse::{
    content_events, data_of_line, law_pieces_do_not_matter, read_char, read_choice, read_choices,
    read_done, read_finish, read_line, read_text, read_tool_call, read_tool_calls, with_usage,
    without_returns, SseFed, SseParserView, SseRead, SseStateView,
};
use crate::text::trimmed;
use vstd::prelude::*;
use vstd::utf8::{decode_utf8, pop_first_scalar, valid_utf8, valid_utf8_concat};

verus! {

/// The bytes that chunks hold together.
pub open spec fn all_bytes(chunks: Seq<Seq<u8>>) -> Seq<u8>
    decreases chunks.len(),
{
    if chunks.len() == 0 {
        Seq::empty()
    } else {
        all_bytes(chunks.drop_last()) + chunks.last()
    }
}

/// Whether each chunk is cut where characters begin and end.
pub open spec fn cut_at_characters(chunks: Seq<Seq<u8>>) -> bool {
    forall|i: int| 0 <= i < chunks.len() ==> valid_utf8(#[trigger] chunks[i])
}

/// A stream after some more chunks of it were read, and the events they give.
pub open spec fn read_chunks(parser: SseParserView, chunks: Seq<Seq<u8>>) -> SseFed
    decreases chunks.len(),
{
    if chunks.len() == 0 {
        SseFed { parser, events: Seq::empty() }
    } else {
        let before = read_chunks(parser, chunks.drop_last());
        let read = read_text(before.parser, decode_utf8(chunks.last()));
        SseFed { parser: read.parser, events: before.events + read.events }
    }
}

/// The characters of bytes that follow each other follow each other.
proof fn lemma_decode_concat(first: Seq<u8>, second: Seq<u8>)
    requires
        valid_utf8(first),
        valid_utf8(second),
    ensures
        valid_utf8(first + second),
        decode_utf8(first + second) == decode_utf8(first) + decode_utf8(second),
    decreases first.len(),
{
    valid_utf8_concat(first, second);
    if first.len() == 0 {
        assert(first + second =~= second);
        assert(decode_utf8(first) + decode_utf8(second) =~= decode_utf8(second));
    } else {
        let rest = pop_first_scalar(first);
        assert(pop_first_scalar(first + second) =~= rest + second);
        lemma_decode_concat(rest, second);
        assert(decode_utf8(first + second) =~= decode_utf8(first) + decode_utf8(second));
    }
}

/// Chunks that are cut where characters begin and end are read like the
/// characters of all their bytes.
pub proof fn law_chunks_are_read_as_text(parser: SseParserView, chunks: Seq<Seq<u8>>)
    requires
        cut_at_characters(chunks),
    ensures
        valid_utf8(all_bytes(chunks)),
        read_chunks(parser, chunks) == read_text(parser, decode_utf8(all_bytes(chunks))),
    decreases chunks.len(),
{
    if chunks.len() > 0 {
        let rest = chunks.drop_last();
        assert forall|i: int| 0 <= i < rest.len() implies valid_utf8(#[trigger] rest[i]) by {
            assert(rest[i] == chunks[i]);
        }
        law_chunks_are_read_as_text(parser, rest);
        assert(chunks.last() == chunks[chunks.len() - 1]);
        lemma_decode_concat(all_bytes(rest), chunks.last());
        law_pieces_do_not_matter(
            parser,
            decode_utf8(all_bytes(rest)),
            decode_utf8(chunks.last()),
        );
    } else {
        assert(decode_utf8(all_bytes(chunks)) =~= Seq::empty());
    }
}

/// The same bytes give the same events, and leave the stream in the same
/// state, wherever between two characters they are cut into chunks.
pub proof fn law_cuts_do_not_matter(
    parser: SseParserView,
    chunks: Seq<Seq<u8>>,
    others: Seq<Seq<u8>>,
)
    requires
        cut_at_characters(chunks),
        cut_at_characters(others),
        all_bytes(chunks) == all_bytes(others),
    ensures
        read_chunks(parser, chunks) == read_chunks(parser, others),
{
    law_chunks_are_read_as_text(parser, chunks);
    law_chunks_are_read_as_text(parser, others);
}

/// The text that events carry.
pub open spec fn text_of(events: Seq<StreamEventView>) -> Seq<char>
    decreases events.len(),
{
    if events.len() == 0 {
        Seq::empty()
    } else {
        match events.last() {
            StreamEventView::TextDelta(text) => text_of(events.drop_last()) + text,
            _ => text_of(events.drop_last()),
        }
    }
}

/// The text in a choice of a chunk: its delta's content, where that is a text.
pub open spec fn choice_text(choice: JsonView) -> Seq<char> {
    match choice.field("delta"@) {
        Some(delta) => match delta.text_at("content"@) {
            Some(content) => content,
            None => Seq::empty(),
        },
        None => Seq::empty(),
    }
}

/// The texts in choices, one after the other.
pub open spec fn choices_text(choices: Seq<JsonView>) -> Seq<char>
    decreases choices.len(),
{
    if choices.len() == 0 {
        Seq::empty()
    } else {
        choices_text(choices.drop_last()) + choice_text(choices.last())
    }
}

/// Whether a line says that the stream is over.
pub open spec fn ends_stream(line: Seq<char>) -> bool {
    data_of_line(line) matches Some(data) && trimmed(data) == "[DONE]"@
}

/// The chunk in a line, where it is a data line that holds one.
pub open spec fn chunk_of_line(line: Seq<char>) -> Option<JsonView> {
    match data_of_line(line) {
        Some(data) if trimmed(data) != "[DONE]"@ => json_of_text(data),
        _ => None,
    }
}

/// The text in a line: those of the choices of its chunk.
pub open spec fn line_text(line: Seq<char>) -> Seq<char> {
    match chunk_of_line(line) {
        Some(chunk) => match chunk.items_at("choices"@) {
            Some(choices) => choices_text(choices),
            None => Seq::empty(),
        },
        None => Seq::empty(),
    }
}

/// Whether one of the lines says that the stream is over.
pub open spec fn over_after(lines: Seq<Seq<char>>) -> bool
    decreases lines.len(),
{
    lines.len() > 0 && (over_after(lines.drop_last()) || ends_stream(lines.last()))
}

/// The texts in the lines before the one that says that the stream is over, one
/// after the other.
pub open spec fn lines_text(lines: Seq<Seq<char>>) -> Seq<char>
    decreases lines.len(),
{
    if lines.len() == 0 {
        Seq::empty()
    } else if over_after(lines.drop_last()) {
        lines_text(lines.drop_last())
    } else {
        lines_text(lines.drop_last()) + line_text(lines.last())
    }
}

/// What follows the last line feed of a text.
pub open spec fn open_line(text: Seq<char>) -> Seq<char>
    decreases text.len(),
{
    if text.len() == 0 || text.last() == '\n' {
        Seq::empty()
    } else {
        open_line(text.drop_last()).push(text.last())
    }
}

/// The lines of a text that a line feed ends, without the carriage returns at
/// their ends.
pub open spec fn complete_lines(text: Seq<char>) -> Seq<Seq<char>>
    decreases text.len(),
{
    if text.len() == 0 {
        Seq::empty()
    } else if text.last() == '\n' {
        complete_lines(text.drop_last()).push(without_returns(open_line(text.drop_last())))
    } else {
        complete_lines(text.drop_last())
    }
}

/// The text of events that follow each other.
proof fn lemma_text_concat(first: Seq<StreamEventView>, second: Seq<StreamEventView>)
    ensures
        text_of(first + second) == text_of(first) + text_of(second),
    decreases second.len(),
{
    if second.len() == 0 {
        assert(first + second =~= first);
        assert(text_of(first) + text_of(second) =~= text_of(first));
    } else {
        assert((first + second).drop_last() =~= first + second.drop_last());
        assert((first + second).last() == second.last());
        lemma_text_concat(first, second.drop_last());
        assert(text_of(first + second) =~= text_of(first) + text_of(second));
    }
}

/// Events of which none is a text carry none.
proof fn lemma_no_text(events: Seq<StreamEventView>)
    requires
        forall|i: int| 0 <= i < events.len() ==> !((#[trigger] events[i]) is TextDelta),
    ensures
        text_of(events) =~= Seq::<char>::empty(),
    decreases events.len(),
{
    if events.len() > 0 {
        let rest = events.drop_last();
        assert forall|i: int| 0 <= i < rest.len() implies !((#[trigger] rest[i]) is TextDelta) by {
            assert(rest[i] == events[i]);
        }
        lemma_no_text(rest);
        assert(events.last() == events[events.len() - 1]);
    }
}

/// Tool calls carry no text and do not end the stream.
proof fn lemma_tool_calls_say_no_text(state: SseStateView, calls: Seq<JsonView>)
    ensures
        text_of(read_tool_calls(state, calls).events) == Seq::<char>::empty(),
        read_tool_calls(state, calls).state.done == state.done,
    decreases calls.len(),
{
    if calls.len() > 0 {
        lemma_tool_calls_say_no_text(state, calls.drop_last());
        let before = read_tool_calls(state, calls.drop_last());
        let read = read_tool_call(before.state, calls.last());
        lemma_no_text(read.events);
        lemma_text_concat(before.events, read.events);
    }
}

/// A choice carries its text and does not end the stream.
proof fn lemma_choice_text(state: SseStateView, choice: JsonView)
    ensures
        text_of(read_choice(state, choice).events) == choice_text(choice),
        read_choice(state, choice).state.done == state.done,
{
    match choice.field("delta"@) {
        None => {},
        Some(delta) => {
            let none = SseRead { state, events: Seq::empty() };
            let calls = match delta.items_at("tool_calls"@) {
                Some(calls) => read_tool_calls(state, calls),
                None => none,
            };
            match delta.items_at("tool_calls"@) {
                Some(items) => lemma_tool_calls_say_no_text(state, items),
                None => {},
            }
            let end = match choice.text_at("finish_reason"@) {
                Some(finish) => read_finish(calls.state, finish),
                None => SseRead { state: calls.state, events: Seq::empty() },
            };
            lemma_no_text(end.events);
            let content = content_events(delta);
            lemma_text_concat(content, calls.events);
            lemma_text_concat(content + calls.events, end.events);
            assert(text_of(content) =~= choice_text(choice)) by {
                if content.len() > 0 {
                    assert(content.drop_last() =~= Seq::empty());
                    assert(text_of(content.drop_last()) =~= Seq::empty());
                }
            }
            assert(text_of(calls.events) =~= Seq::empty());
            assert(text_of(read_choice(state, choice).events) =~= choice_text(choice));
        },
    }
}

/// Choices carry their texts and do not end the stream.
proof fn lemma_choices_text(state: SseStateView, choices: Seq<JsonView>)
    ensures
        text_of(read_choices(state, choices).events) == choices_text(choices),
        read_choices(state, choices).state.done == state.done,
    decreases choices.len(),
{
    if choices.len() > 0 {
        lemma_choices_text(state, choices.drop_last());
        let before = read_choices(state, choices.drop_last());
        lemma_choice_text(before.state, choices.last());
        lemma_text_concat(before.events, read_choice(before.state, choices.last()).events);
    }
}

/// A line carries the text in it whatever was read before, and ends the stream
/// where it says so.
pub proof fn law_line_carries_its_text(state: SseStateView, line: Seq<char>)
    ensures
        text_of(read_line(state, line).events) == line_text(line),
        read_line(state, line).state.done == (state.done || ends_stream(line)),
{
    match data_of_line(line) {
        None => {},
        Some(data) => if trimmed(data) == "[DONE]"@ {
            lemma_no_text(read_done(state).events);
        } else {
            match json_of_text(data) {
                None => {},
                Some(chunk) => match chunk.items_at("choices"@) {
                    Some(choices) => lemma_choices_text(with_usage(state, chunk), choices),
                    None => {},
                },
            }
        },
    }
}

/// The texts of a stream's events make up all texts in the complete data lines
/// before the one that says that the stream is over, in their order. It is
/// over once that line has come; until then, what follows the last line feed
/// waits for its end.
pub proof fn law_stream_carries_its_text(state: SseStateView, text: Seq<char>)
    requires
        !state.done,
    ensures
        ({
            let fed = read_text(SseParserView { line: Seq::empty(), state }, text);
            &&& text_of(fed.events) == lines_text(complete_lines(text))
            &&& fed.parser.state.done == over_after(complete_lines(text))
            &&& !fed.parser.state.done ==> fed.parser.line == open_line(text)
        }),
    decreases text.len(),
{
    let parser = SseParserView { line: Seq::empty(), state };
    if text.len() > 0 {
        law_stream_carries_its_text(state, text.drop_last());
        let before = read_text(parser, text.drop_last());
        let read = read_char(before.parser, text.last());
        let lines = complete_lines(text.drop_last());
        lemma_text_concat(before.events, read.events);
        if text.last() == '\n' {
            let line = without_returns(open_line(text.drop_last()));
            assert(complete_lines(text).drop_last() =~= lines);
            assert(complete_lines(text).last() == line);
            if before.parser.state.done {
                assert(text_of(before.events) + text_of(read.events) =~= text_of(before.events));
            } else {
                law_line_carries_its_text(before.parser.state, line);
            }
        } else {
            assert(text_of(before.events) + text_of(read.events) =~= text_of(before.events));
        }
    }
}

/// The same of a stream's bytes, wherever between two characters they are cut
/// into chunks.
pub proof fn law_chunks_carry_their_text(state: SseStateView, chunks: Seq<Seq<u8>>)
    requires
        !state.done,
        cut_at_characters(chunks),
    ensures
        text_of(
            read_chunks(SseParserView { line: Seq::empty(), state }, chunks).events,
        ) == lines_text(complete_lines(decode_utf8(all_bytes(chunks)))),
{
    law_chunks_are_read_as_text(SseParserView { line: Seq::empty(), state }, chunks);
    law_stream_carries_its_text(state, decode_utf8(all_bytes(chunks)));
}

/// Blank lines, comments, and data lines that hold neither a chunk nor the end
/// of the stream give no event and change nothing.
pub proof fn law_other_lines_say_nothing(state: SseStateView, line: Seq<char>, data: Seq<char>)
    ensures
        read_line(state, Seq::empty()) == (SseRead { state, events: Seq::empty() }),
        line.len() > 0 && line[0] == ':' ==> read_line(state, line) == (SseRead {
            state,
            events: Seq::empty(),
        }),
        data_of_line(line) == Some(data) && trimmed(data) != "[DONE]"@ && json_of_text(
            data,
        ) is None ==> read_line(state, line) == (SseRead { state, events: Seq::empty() }),
{
    reveal_strlit("data:");
    assert(!"data:"@.is_prefix_of(Seq::<char>::empty()));
    if line.len() > 0 && line[0] == ':' {
        assert("data:"@[0] == 'd');
        assert(!"data:"@.is_prefix_of(line)) by {
            if "data:"@.is_prefix_of(line) {
                assert(line.take(5)[0] == 'd');
            }
        }
    }
}

} // verus!
