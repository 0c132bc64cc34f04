//! Who has begun a turn: the user, or the agent that goes on with its work.

use crate::message::{
    message_views, block_views, ContentBlock, ContentBlockView, Message, MessageView, Role,
};
use crate::text::{contains, contains_text};
use vstd::prelude::*;

verus! {

/// Whether a message holds a tool's result.
pub open spec fn has_tool_result(message: MessageView) -> bool {
    exists|i: int| 0 <= i < message.content.len() && (#[trigger] message.content[i]) is ToolResult
}

/// Whether a message is made of texts alone, and of at least one.
pub open spec fn is_text_only(message: MessageView) -> bool {
    &&& message.content.len() > 0
    &&& forall|i: int|
        0 <= i < message.content.len() ==> (#[trigger] message.content[i]) is Text
}

/// Whether a text of a message holds what the system reminds the model of.
pub open spec fn has_reminder(message: MessageView) -> bool {
    exists|i: int|
        0 <= i < message.content.len() && (#[trigger] message.content[i] matches
            ContentBlockView::Text { text } && contains_text(text, "<system-reminder>"@))
}

/// Whether a message of the user only reminds the model of something: it says
/// nothing of who has begun the turn.
pub open spec fn is_reminder(message: MessageView) -> bool {
    message.role == Role::User && is_text_only(message) && has_reminder(message)
}

/// Whether a message hands the result of a tool to the model.
pub open spec fn is_tool_answer(message: MessageView) -> bool {
    message.role == Role::User && has_tool_result(message)
}

/// Whether the user has begun the turn: the last message that is no reminder
/// does not hand the result of a tool to the model.
pub open spec fn begun_by_user(messages: Seq<MessageView>) -> bool
    decreases messages.len(),
{
    if messages.len() == 0 {
        true
    } else if is_reminder(messages.last()) {
        begun_by_user(messages.drop_last())
    } else {
        !is_tool_answer(messages.last())
    }
}

/// Whether there is a tool's result among the blocks.
fn any_tool_result(content: &Vec<ContentBlock>) -> (r: bool)
    ensures
        r == exists|i: int|
            0 <= i < content@.len() && (#[trigger] block_views(content@)[i]) is ToolResult,
{
    let ghost views = block_views(content@);
    let mut i: usize = 0;
    while i < content.len()
        invariant
            i <= content.len(),
            views == block_views(content@),
            forall|j: int| 0 <= j < i ==> !((#[trigger] views[j]) is ToolResult),
        decreases content.len() - i,
    {
        match &content[i] {
            ContentBlock::ToolResult { .. } => {
                assert(views[i as int] is ToolResult);
                return true;
            },
            _ => {},
        }
        i += 1;
    }
    false
}

/// Whether the blocks are texts alone.
fn all_text(content: &Vec<ContentBlock>) -> (r: bool)
    ensures
        r == forall|i: int|
            0 <= i < content@.len() ==> (#[trigger] block_views(content@)[i]) is Text,
{
    let ghost views = block_views(content@);
    let mut i: usize = 0;
    while i < content.len()
        invariant
            i <= content.len(),
            views == block_views(content@),
            forall|j: int| 0 <= j < i ==> (#[trigger] views[j]) is Text,
        decreases content.len() - i,
    {
        match &content[i] {
            ContentBlock::Text { .. } => {},
            _ => {
                assert(!(views[i as int] is Text));
                return false;
            },
        }
        i += 1;
    }
    true
}

/// Whether a text among the blocks holds what the system reminds the model of.
fn any_reminder(message: &Message) -> (r: bool)
    ensures
        r == has_reminder(message@),
{
    let content = &message.content;
    let ghost views = message@.content;
    let mut i: usize = 0;
    while i < content.len()
        invariant
            i <= content.len(),
            content == &message.content,
            views == message@.content,
            views == block_views(content@),
            forall|j: int|
                0 <= j < i ==> !(#[trigger] views[j] matches ContentBlockView::Text { text }
                    && contains_text(text, "<system-reminder>"@)),
        decreases content.len() - i,
    {
        match &content[i] {
            ContentBlock::Text { text } => {
                if contains(text.as_str(), "<system-reminder>") {
                    assert(views[i as int] matches ContentBlockView::Text { text: found }
                        && contains_text(found, "<system-reminder>"@));
                    return true;
                }
            },
            _ => {},
        }
        i += 1;
    }
    false
}

/// Whether the user has begun the turn: the last message that is no reminder
/// does not hand the result of a tool to the model.
pub fn is_user_initiated_raw(messages: &Vec<Message>) -> (r: bool)
    ensures
        r == begun_by_user(message_views(messages@)),
{
    let ghost views = message_views(messages@);
    let mut n: usize = messages.len();
    assert(views.take(n as int) =~= views);
    while n > 0
        invariant
            n <= messages.len(),
            views == message_views(messages@),
            begun_by_user(views.take(n as int)) == begun_by_user(views),
        decreases n,
    {
        let message = &messages[n - 1];
        proof {
            assert(views.take(n as int).last() == message@);
            assert(views.take(n as int).drop_last() =~= views.take(n - 1));
        }
        match message.role {
            Role::User => {},
            _ => {
                return true;
            },
        }
        if any_tool_result(&message.content) {
            assert(has_tool_result(message@));
            assert(!is_text_only(message@));
            return false;
        }
        if !all_text(&message.content) || message.content.len() == 0 {
            return true;
        }
        if !any_reminder(message) {
            return true;
        }
        n = n - 1;
    }
    assert(views.take(0) =~= Seq::empty());
    true
}

/// The agent goes on with its work exactly where the result of a tool was
/// handed to the model and nothing but reminders has followed.
pub proof fn law_agent_goes_on_after_tool_results(messages: Seq<MessageView>)
    ensures
        !begun_by_user(messages) <==> exists|i: int|
            0 <= i < messages.len() && is_tool_answer(#[trigger] messages[i]) && forall|j: int|
                i < j < messages.len() ==> is_reminder(#[trigger] messages[j]),
    decreases messages.len(),
{
    if messages.len() > 0 {
        let last = messages.len() - 1;
        let before = messages.drop_last();
        if is_reminder(messages.last()) {
            law_agent_goes_on_after_tool_results(before);
            lemma_reminder_is_no_answer(messages.last());
            if !begun_by_user(before) {
                let i = choose|i: int|
                    0 <= i < before.len() && is_tool_answer(#[trigger] before[i]) && forall|j: int|
                        i < j < before.len() ==> is_reminder(#[trigger] before[j]);
                assert(messages[i] == before[i]);
                assert forall|j: int| i < j < messages.len() implies is_reminder(
                    #[trigger] messages[j],
                ) by {
                    if j < last {
                        assert(messages[j] == before[j]);
                    }
                }
            }
            if exists|i: int|
                0 <= i < messages.len() && is_tool_answer(#[trigger] messages[i]) && forall|j: int|
                    i < j < messages.len() ==> is_reminder(#[trigger] messages[j]) {
                let i = choose|i: int|
                    0 <= i < messages.len() && is_tool_answer(#[trigger] messages[i])
                        && forall|j: int|
                        i < j < messages.len() ==> is_reminder(#[trigger] messages[j]);
                assert(i < last);
                assert(before[i] == messages[i]);
                assert forall|j: int| i < j < before.len() implies is_reminder(
                    #[trigger] before[j],
                ) by {
                    assert(before[j] == messages[j]);
                }
            }
        } else {
            if is_tool_answer(messages.last()) {
                assert(messages[last] == messages.last());
            }
            if exists|i: int|
                0 <= i < messages.len() && is_tool_answer(#[trigger] messages[i]) && forall|j: int|
                    i < j < messages.len() ==> is_reminder(#[trigger] messages[j]) {
                let i = choose|i: int|
                    0 <= i < messages.len() && is_tool_answer(#[trigger] messages[i])
                        && forall|j: int|
                        i < j < messages.len() ==> is_reminder(#[trigger] messages[j]);
                if i < last {
                    assert(is_reminder(messages[last]));
                }
            }
        }
    }
}

/// A reminder is made of texts, so that it hands no result to the model.
proof fn lemma_reminder_is_no_answer(message: MessageView)
    requires
        is_reminder(message),
    ensures
        !is_tool_answer(message),
{
    if has_tool_result(message) {
        let i = choose|i: int|
            0 <= i < message.content.len() && (#[trigger] message.content[i]) is ToolResult;
        assert(message.content[i] is Text);
    }
}

/// What one more message says of who has begun the turn. After what is not of
/// the user, or has no content, the user has; a tool's result goes on with the
/// agent's work; a message of texts alone, one of which holds a system reminder,
/// leaves open what was before it; any other message of the user begins a turn.
pub proof fn law_last_message_decides(messages: Seq<MessageView>, message: MessageView, i: int)
    ensures
        begun_by_user(Seq::empty()),
        message.role != Role::User ==> begun_by_user(messages.push(message)),
        message.content.len() == 0 ==> begun_by_user(messages.push(message)),
        message.role == Role::User && 0 <= i < message.content.len() && message.content[i]
            is ToolResult ==> !begun_by_user(messages.push(message)),
        message.role == Role::User && (forall|k: int|
            0 <= k < message.content.len() ==> (#[trigger] message.content[k]) is Text) && 0 <= i
            < message.content.len() && (message.content[i] matches ContentBlockView::Text { text }
            && contains_text(text, "<system-reminder>"@)) ==> begun_by_user(messages.push(message))
            == begun_by_user(messages),
        message.role == Role::User && (forall|k: int|
            0 <= k < message.content.len() ==> !((#[trigger] message.content[k]) is ToolResult) && !(
            message.content[k] matches ContentBlockView::Text { text } && contains_text(
                text,
                "<system-reminder>"@,
            ))) ==> begun_by_user(messages.push(message)),
        message.role == Role::User && 0 <= i < message.content.len() && !(message.content[i]
            is Text) && (forall|k: int|
            0 <= k < message.content.len() ==> !((#[trigger] message.content[k]) is ToolResult))
            ==> begun_by_user(messages.push(message)),
{
    let all = messages.push(message);
    assert(all.last() == message);
    assert(all.drop_last() =~= messages);
    if message.role == Role::User && 0 <= i < message.content.len() {
        if message.content[i] is ToolResult {
            assert(has_tool_result(message));
        }
        if message.content[i] matches ContentBlockView::Text { text } && contains_text(
            text,
            "<system-reminder>"@,
        ) {
            assert(has_reminder(message));
        }
    }
}

} // verus!
