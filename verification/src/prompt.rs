//! What a turn says to the official CLI: the prompt, and the session it
//! resumes.

use crate::error::CopilotError;
use crate::message::{
    block_views, message_views, text_option, ContentBlock, ContentBlockView, Message, MessageView,
    Role,
};
use crate::text::{
    blank, concat3, contains_text, find_char, is_blank, join, joined, law_blank_is_all_white_space,
    law_joined_texts_are_kept, law_joined_texts_are_there, strip_prefix, texts, trim, trimmed,
    white_space,
};
use vstd::prelude::*;
use vstd::string::*;

verus! {

/// What the user says in a turn, and what is recalled for it.
#[derive(Debug)]
pub struct ProviderTurnContext {
    pub user_content: Vec<ContentBlock>,
    pub memory_context: Option<String>,
}

/// What a turn's context holds.
pub struct TurnContextView {
    pub user_content: Seq<ContentBlockView>,
    pub memory_context: Option<Seq<char>>,
}

impl View for ProviderTurnContext {
    type V = TurnContextView;

    open spec fn view(&self) -> TurnContextView {
        TurnContextView {
            user_content: block_views(self.user_content@),
            memory_context: text_option(self.memory_context),
        }
    }
}

/// What an optional context holds.
pub open spec fn context_option(turn: Option<&ProviderTurnContext>) -> Option<TurnContextView> {
    match turn {
        Some(turn) => Some(turn@),
        None => None,
    }
}

/// The instructions of a turn: those that stay and those that change, each
/// without space around it, where it is not blank.
pub open spec fn system_text(system_static: Seq<char>, system_dynamic: Seq<char>) -> Seq<char> {
    let kept = trimmed(system_static);
    let changing = trimmed(system_dynamic);
    if changing.len() == 0 {
        kept
    } else if kept.len() == 0 {
        changing
    } else {
        kept + "\n\n"@ + changing
    }
}

/// The instructions of a turn: those that stay and those that change, each
/// without space around it, where it is not blank.
pub fn effective_official_system(system_static: &str, system_dynamic: &str) -> (r: String)
    ensures
        r@ == system_text(system_static@, system_dynamic@),
{
    let kept = trim(system_static);
    let changing = trim(system_dynamic);
    if changing.unicode_len() == 0 {
        kept.to_owned()
    } else if kept.unicode_len() == 0 {
        changing.to_owned()
    } else {
        concat3(kept, "\n\n", changing)
    }
}

/// The texts among the blocks that are not blank, in their order. The first
/// block that is neither a text nor a tool's result is an error.
pub open spec fn block_sections(blocks: Seq<ContentBlockView>) -> Result<
    Seq<Seq<char>>,
    CopilotError,
>
    decreases blocks.len(),
{
    if blocks.len() == 0 {
        Ok(Seq::empty())
    } else {
        match block_sections(blocks.drop_last()) {
            Err(error) => Err(error),
            Ok(sections) => match blocks.last() {
                ContentBlockView::Text { text } => Ok(with_section(sections, text)),
                ContentBlockView::ToolResult { content, .. } => Ok(
                    with_section(sections, content),
                ),
                ContentBlockView::Image => Err(CopilotError::ImageInput),
                _ => Err(CopilotError::UnsupportedContent),
            },
        }
    }
}

/// The sections with one more, where it is not blank.
pub open spec fn with_section(sections: Seq<Seq<char>>, text: Seq<char>) -> Seq<Seq<char>> {
    if blank(text) {
        sections
    } else {
        sections.push(text)
    }
}

/// What the user says in a turn. A turn in which nothing is said is an error.
pub open spec fn turn_sections(turn: Option<TurnContextView>) -> Result<
    Seq<Seq<char>>,
    CopilotError,
> {
    match turn {
        None => Err(CopilotError::MissingPrompt),
        Some(turn) => match block_sections(turn.user_content) {
            Ok(sections) if sections.len() == 0 => Err(CopilotError::MissingPrompt),
            sections => sections,
        },
    }
}

/// What the user says in a turn. A turn in which nothing is said is an error.
pub fn official_turn_sections(current_turn: Option<&ProviderTurnContext>) -> (r: Result<
    Vec<String>,
    CopilotError,
>)
    ensures
        turn_sections(context_option(current_turn)) == (match r {
            Ok(sections) => Ok(texts(sections@)),
            Err(error) => Err(error),
        }),
{
    let turn = match current_turn {
        Some(turn) => turn,
        None => {
            return Err(CopilotError::MissingPrompt);
        },
    };
    let blocks = &turn.user_content;
    let ghost views = block_views(blocks@);
    let mut sections: Vec<String> = Vec::new();
    let mut i: usize = 0;
    proof {
        assert(views.take(0) =~= Seq::empty());
        assert(texts(sections@) =~= Seq::empty());
    }
    while i < blocks.len()
        invariant
            i <= blocks.len(),
            views == block_views(blocks@),
            context_option(current_turn) == Some(turn@),
            views == turn@.user_content,
            block_sections(views.take(i as int)) == Ok::<_, CopilotError>(texts(sections@)),
        decreases blocks.len() - i,
    {
        let ghost before = sections@;
        proof {
            assert(views.take(i + 1).drop_last() =~= views.take(i as int));
            assert(views.take(i + 1).last() == blocks@[i as int]@);
        }
        match &blocks[i] {
            ContentBlock::Text { text } => {
                if !is_blank(text.as_str()) {
                    sections.push(text.clone());
                    assert(texts(sections@) =~= texts(before).push(text@));
                }
            },
            ContentBlock::ToolResult { content, .. } => {
                if !is_blank(content.as_str()) {
                    sections.push(content.clone());
                    assert(texts(sections@) =~= texts(before).push(content@));
                }
            },
            ContentBlock::Image => {
                proof {
                    lemma_first_error_stays(views, i + 1);
                }
                return Err(CopilotError::ImageInput);
            },
            _ => {
                proof {
                    lemma_first_error_stays(views, i + 1);
                }
                return Err(CopilotError::UnsupportedContent);
            },
        }
        i += 1;
    }
    assert(views.take(i as int) =~= views);
    if sections.len() == 0 {
        return Err(CopilotError::MissingPrompt);
    }
    Ok(sections)
}

/// An error among the first blocks is the error of all of them.
proof fn lemma_first_error_stays(blocks: Seq<ContentBlockView>, n: int)
    requires
        0 <= n <= blocks.len(),
        block_sections(blocks.take(n)) is Err,
    ensures
        block_sections(blocks) == block_sections(blocks.take(n)),
    decreases blocks.len(),
{
    if n == blocks.len() {
        assert(blocks.take(n) =~= blocks);
    } else {
        assert(blocks.drop_last().take(n) =~= blocks.take(n));
        lemma_first_error_stays(blocks.drop_last(), n);
    }
}

/// Whether a conversation holds what was answered in it earlier.
pub open spec fn holds_history(messages: Seq<MessageView>) -> bool {
    exists|i: int| 0 <= i < messages.len() && (#[trigger] messages[i]).role == Role::Assistant
}

/// Why the official CLI is not given a conversation whose request does not say
/// what the user says in the turn. Earlier answers can be continued only in
/// the session in which they were given.
pub fn refusal_without_context(
    messages: &Vec<Message>,
    resume_session_id: Option<&str>,
) -> (error: CopilotError)
    ensures
        error == (if resume_session_id is None && holds_history(message_views(messages@)) {
            CopilotError::DisconnectedHistory
        } else {
            CopilotError::MissingPrompt
        }),
{
    if resume_session_id.is_some() {
        return CopilotError::MissingPrompt;
    }
    let ghost views = message_views(messages@);
    let mut i: usize = 0;
    while i < messages.len()
        invariant
            i <= messages.len(),
            views == message_views(messages@),
            resume_session_id is None,
            forall|k: int| 0 <= k < i ==> (#[trigger] views[k]).role != Role::Assistant,
        decreases messages.len() - i,
    {
        assert(views[i as int] == messages@[i as int]@);
        match messages[i].role {
            Role::Assistant => {
                return CopilotError::DisconnectedHistory;
            },
            _ => {},
        }
        i += 1;
    }
    CopilotError::MissingPrompt
}

/// The section that holds the instructions, where there are any.
pub open spec fn system_section(system: Seq<char>) -> Seq<Seq<char>> {
    if system.len() == 0 {
        Seq::empty()
    } else {
        seq!["<system>\n"@ + system + "\n</system>"@]
    }
}

/// The section that holds what is recalled for a turn, where there is any.
pub open spec fn memory_section(turn: Option<TurnContextView>) -> Seq<Seq<char>> {
    match turn {
        Some(turn) => match turn.memory_context {
            Some(memory) if !blank(memory) => seq![memory],
            _ => Seq::empty(),
        },
        None => Seq::empty(),
    }
}

/// The section that reminds a resumed session of the instructions that change.
pub open spec fn reminder_section(system_dynamic: Seq<char>) -> Seq<Seq<char>> {
    if blank(system_dynamic) {
        Seq::empty()
    } else {
        seq!["<system-reminder>\n"@ + trimmed(system_dynamic) + "\n</system-reminder>"@]
    }
}

/// The prompt of a turn. A new session is given all instructions before what
/// the user says; a resumed one has them, and is reminded after it of those
/// that change.
pub open spec fn official_prompt(
    system_static: Seq<char>,
    system_dynamic: Seq<char>,
    resumed: bool,
    turn: Option<TurnContextView>,
) -> Result<Seq<char>, CopilotError> {
    match turn_sections(turn) {
        Err(error) => Err(error),
        Ok(sections) => Ok(
            joined(
                if resumed {
                    sections + reminder_section(system_dynamic) + memory_section(turn)
                } else {
                    system_section(system_text(system_static, system_dynamic)) + sections
                        + memory_section(turn)
                },
                "\n\n"@,
            ),
        ),
    }
}

/// Adds the instructions to the sections, where there are any.
fn push_system(sections: &mut Vec<String>, system: &str)
    ensures
        texts(final(sections)@) == texts(old(sections)@) + system_section(system@),
{
    let ghost before = sections@;
    if system.unicode_len() > 0 {
        sections.push(concat3("<system>\n", system, "\n</system>"));
    }
    assert(texts(sections@) =~= texts(before) + system_section(system@));
}

/// Adds what is recalled for a turn to the sections, where there is any.
fn push_memory(sections: &mut Vec<String>, turn: Option<&ProviderTurnContext>)
    ensures
        texts(final(sections)@) == texts(old(sections)@) + memory_section(context_option(turn)),
{
    let ghost before = sections@;
    match turn {
        Some(context) => match &context.memory_context {
            Some(memory) => {
                if !is_blank(memory.as_str()) {
                    sections.push(memory.clone());
                }
            },
            None => {},
        },
        None => {},
    }
    assert(texts(sections@) =~= texts(before) + memory_section(context_option(turn)));
}

/// Adds texts to the sections.
fn push_all(sections: &mut Vec<String>, more: Vec<String>)
    ensures
        texts(final(sections)@) == texts(old(sections)@) + texts(more@),
{
    let ghost before = sections@;
    let mut i: usize = 0;
    assert(texts(before) + texts(more@).take(0) =~= texts(before));
    while i < more.len()
        invariant
            i <= more.len(),
            texts(sections@) == texts(before) + texts(more@).take(i as int),
        decreases more.len() - i,
    {
        let ghost current = sections@;
        sections.push(more[i].clone());
        proof {
            assert(texts(sections@) =~= texts(current).push(more@[i as int]@));
            assert(texts(sections@) =~= texts(before) + texts(more@).take(i + 1));
        }
        i += 1;
    }
    assert(texts(more@).take(i as int) =~= texts(more@));
}

/// The prompt of a turn.
pub fn build_official_prompt(
    system_static: &str,
    system_dynamic: &str,
    resumed: bool,
    current_turn: Option<&ProviderTurnContext>,
) -> (r: Result<String, CopilotError>)
    ensures
        official_prompt(
            system_static@,
            system_dynamic@,
            resumed,
            context_option(current_turn),
        ) == (match r {
            Ok(prompt) => Ok(prompt@),
            Err(error) => Err(error),
        }),
{
    let said = match official_turn_sections(current_turn) {
        Ok(said) => said,
        Err(error) => {
            return Err(error);
        },
    };
    let ghost said_texts = texts(said@);
    let mut sections: Vec<String> = Vec::new();
    assert(texts(sections@) =~= Seq::empty());
    if !resumed {
        let system = effective_official_system(system_static, system_dynamic);
        push_system(&mut sections, system.as_str());
        assert(texts(sections@) =~= system_section(
            system_text(system_static@, system_dynamic@),
        ));
    }
    let ghost before = texts(sections@);
    push_all(&mut sections, said);
    assert(resumed ==> texts(sections@) =~= said_texts);
    let reminder = trim(system_dynamic);
    if resumed && reminder.unicode_len() > 0 {
        let ghost current = sections@;
        sections.push(concat3("<system-reminder>\n", reminder, "\n</system-reminder>"));
        assert(texts(sections@) =~= texts(current) + reminder_section(system_dynamic@));
    }
    assert(resumed ==> texts(sections@) =~= said_texts + reminder_section(system_dynamic@));
    push_memory(&mut sections, current_turn);
    Ok(join(&sections, "\n\n"))
}

/// The prompt of a turn whose session was gone: what a new session is given.
pub fn build_stale_fresh_prompt(
    system_static: &str,
    system_dynamic: &str,
    current_turn: Option<&ProviderTurnContext>,
) -> (r: Result<String, CopilotError>)
    ensures
        official_prompt(
            system_static@,
            system_dynamic@,
            false,
            context_option(current_turn),
        ) == (match r {
            Ok(prompt) => Ok(prompt@),
            Err(error) => Err(error),
        }),
{
    build_official_prompt(system_static, system_dynamic, false, current_turn)
}

/// What follows the first colon.
pub open spec fn after_colon(s: Seq<char>) -> Option<Seq<char>>
    decreases s.len(),
{
    if s.len() == 0 {
        None
    } else if s[0] == ':' {
        Some(s.skip(1))
    } else {
        after_colon(s.skip(1))
    }
}

/// What marks a session identifier in its old form.
pub open spec fn legacy_prefix() -> Seq<char> {
    "jcode-copilot-acp-v1:"@
}

/// The session that `value` names. In its old form, a marker and a colon stand
/// before the identifier.
pub open spec fn upstream_session_id(value: Seq<char>) -> Seq<char> {
    if legacy_prefix().is_prefix_of(value) {
        match after_colon(value.skip(legacy_prefix().len() as int)) {
            Some(id) => id,
            None => value,
        }
    } else {
        value
    }
}

/// What follows the first colon, by its place.
proof fn lemma_after_colon(s: Seq<char>, i: int)
    requires
        0 <= i < s.len(),
        s[i] == ':',
        !s.take(i).contains(':'),
    ensures
        after_colon(s) == Some(s.skip(i + 1)),
    decreases i,
{
    if i > 0 {
        assert(s[0] != ':') by {
            assert(s.take(i)[0] == s[0]);
        }
        let rest = s.skip(1);
        assert(!rest.take(i - 1).contains(':')) by {
            let front = rest.take(i - 1);
            if front.contains(':') {
                let k = choose|k: int| 0 <= k < front.len() && front[k] == ':';
                assert(s.take(i)[k + 1] == ':');
            }
        }
        lemma_after_colon(rest, i - 1);
        assert(rest.skip(i) =~= s.skip(i + 1));
    }
}

/// Without a colon, nothing follows it.
proof fn lemma_no_colon(s: Seq<char>)
    requires
        !s.contains(':'),
    ensures
        after_colon(s) is None,
    decreases s.len(),
{
    if s.len() > 0 {
        assert(s[0] != ':');
        assert(!s.skip(1).contains(':')) by {
            if s.skip(1).contains(':') {
                let k = choose|k: int| 0 <= k < s.skip(1).len() && s.skip(1)[k] == ':';
                assert(s[k + 1] == ':');
            }
        }
        lemma_no_colon(s.skip(1));
    }
}

/// The session that `value` names. In its old form, a marker and a colon stand
/// before the identifier.
pub fn parse_official_session_id(value: &str) -> (r: String)
    ensures
        r@ == upstream_session_id(value@),
{
    match strip_prefix(value, "jcode-copilot-acp-v1:") {
        Some(encoded) => {
            assert(value@.skip(legacy_prefix().len() as int) =~= encoded@);
            assert(legacy_prefix().is_prefix_of(value@));
            let n = encoded.unicode_len();
            match find_char(encoded, ':') {
                Some(i) => {
                    proof {
                        lemma_after_colon(encoded@, i as int);
                        assert(encoded@.subrange(i + 1, encoded@.len() as int) =~= encoded@.skip(
                            i + 1,
                        ));
                    }
                    encoded.substring_char(i + 1, n).to_owned()
                },
                None => {
                    proof {
                        lemma_no_colon(encoded@);
                    }
                    value.to_owned()
                },
            }
        },
        None => value.to_owned(),
    }
}

/// An identifier in its old form names what stands behind its marker; one that
/// is not in its old form names itself.
pub proof fn law_session_ids(marker: Seq<char>, id: Seq<char>)
    ensures
        !marker.contains(':') ==> upstream_session_id(
            legacy_prefix() + marker + ":"@ + id,
        ) == id,
        !legacy_prefix().is_prefix_of(id) ==> upstream_session_id(id) == id,
{
    reveal_strlit(":");
    if !marker.contains(':') {
        let value = legacy_prefix() + marker + ":"@ + id;
        let rest = value.skip(legacy_prefix().len() as int);
        assert(legacy_prefix().is_prefix_of(value));
        assert(rest =~= marker + ":"@ + id);
        assert(rest.take(marker.len() as int) =~= marker);
        lemma_after_colon(rest, marker.len() as int);
        assert(rest.skip(marker.len() as int + 1) =~= id);
    }
}

/// Whether a turn has a prompt depends on what the user says in it alone: not
/// on the instructions, nor on whether it resumes a session.
pub proof fn law_prompt_needs_the_turn_alone(
    system_static: Seq<char>,
    system_dynamic: Seq<char>,
    resumed: bool,
    turn: Option<TurnContextView>,
)
    ensures
        official_prompt(system_static, system_dynamic, resumed, turn) is Ok <==> turn_sections(
            turn,
        ) is Ok,
        official_prompt(system_static, system_dynamic, resumed, turn) matches Err(error)
            ==> turn_sections(turn) == Err::<Seq<Seq<char>>, CopilotError>(error),
{
}

/// What the user says is never guessed: a turn without its content has no
/// prompt, and neither has one in whose content is anything but texts and the
/// results of tools.
pub proof fn law_content_is_not_guessed(
    system_static: Seq<char>,
    system_dynamic: Seq<char>,
    resumed: bool,
    turn: TurnContextView,
    i: int,
)
    requires
        0 <= i < turn.user_content.len(),
        !(turn.user_content[i] is Text),
        !(turn.user_content[i] is ToolResult),
    ensures
        official_prompt(system_static, system_dynamic, resumed, None) == Err::<Seq<char>, _>(
            CopilotError::MissingPrompt,
        ),
        official_prompt(system_static, system_dynamic, resumed, Some(turn)) is Err,
{
    lemma_only_texts(turn.user_content, i);
}

/// Blocks of which one is neither a text nor a tool's result are an error.
proof fn lemma_only_texts(blocks: Seq<ContentBlockView>, i: int)
    requires
        0 <= i < blocks.len(),
        !(blocks[i] is Text),
        !(blocks[i] is ToolResult),
    ensures
        block_sections(blocks) is Err,
    decreases blocks.len(),
{
    if i < blocks.len() - 1 {
        assert(blocks.drop_last()[i] == blocks[i]);
        lemma_only_texts(blocks.drop_last(), i);
    }
}

/// A resumed session is not told again the instructions that stay: whatever
/// they are, the prompt is the same.
pub proof fn law_resumed_prompt_omits_instructions(
    system_static: Seq<char>,
    other_static: Seq<char>,
    system_dynamic: Seq<char>,
    turn: Option<TurnContextView>,
)
    ensures
        official_prompt(system_static, system_dynamic, true, turn) == official_prompt(
            other_static,
            system_dynamic,
            true,
            turn,
        ),
{
}

/// What each block says: a text itself, a tool's result what the tool has given.
pub open spec fn block_texts(blocks: Seq<ContentBlockView>) -> Seq<Seq<char>> {
    blocks.map_values(
        |block: ContentBlockView|
            match block {
                ContentBlockView::Text { text } => text,
                ContentBlockView::ToolResult { content, .. } => content,
                _ => Seq::empty(),
            },
    )
}

/// Whether a text has anything but white space in it.
pub open spec fn says_something(text: Seq<char>) -> bool {
    exists|i: int| 0 <= i < text.len() && !white_space(#[trigger] text[i])
}

/// Whether blocks are texts and the results of tools alone.
pub open spec fn all_said(blocks: Seq<ContentBlockView>) -> bool {
    forall|i: int|
        0 <= i < blocks.len() ==> (#[trigger] blocks[i]) is Text || blocks[i] is ToolResult
}

/// What is said in blocks is, block by block, in their order and each once, what
/// they say, without those that say nothing.
pub proof fn law_all_that_is_said_is_told(blocks: Seq<ContentBlockView>)
    requires
        all_said(blocks),
    ensures
        block_sections(blocks) == Ok::<_, CopilotError>(
            block_texts(blocks).filter(|text: Seq<char>| says_something(text)),
        ),
    decreases blocks.len(),
{
    reveal(Seq::filter);
    let spoken = |text: Seq<char>| says_something(text);
    if blocks.len() == 0 {
        assert(block_texts(blocks).filter(spoken) =~= Seq::empty());
    } else {
        let rest = blocks.drop_last();
        assert forall|i: int| 0 <= i < rest.len() implies (#[trigger] rest[i]) is Text || rest[i]
            is ToolResult by {
            assert(rest[i] == blocks[i]);
        }
        law_all_that_is_said_is_told(rest);
        assert(blocks.last() == blocks[blocks.len() - 1]);
        let all = block_texts(blocks);
        assert(all.drop_last() =~= block_texts(rest));
        lemma_says_something(all.last());
    }
}

/// A text says something where it is not blank.
proof fn lemma_says_something(text: Seq<char>)
    ensures
        says_something(text) <==> !blank(text),
{
    law_blank_is_all_white_space(text);
}

/// Each text that is not dropped is there.
proof fn lemma_kept_by_filter(all: Seq<Seq<char>>, i: int)
    requires
        0 <= i < all.len(),
        says_something(all[i]),
    ensures
        all.filter(|text: Seq<char>| says_something(text)).contains(all[i]),
    decreases all.len(),
{
    reveal(Seq::filter);
    let spoken = |text: Seq<char>| says_something(text);
    let rest = all.drop_last();
    if i < all.len() - 1 {
        assert(rest[i] == all[i]);
        lemma_kept_by_filter(rest, i);
        let k = choose|k: int| 0 <= k < rest.filter(spoken).len() && rest.filter(spoken)[k]
            == all[i];
        assert(all.filter(spoken)[k] == all[i]);
    } else {
        assert(all.filter(spoken).last() == all[i]);
    }
}

/// Whatever the user says in a turn stands in its prompt, as it is, be the
/// session new or resumed.
pub proof fn law_what_is_said_is_in_the_prompt(
    system_static: Seq<char>,
    system_dynamic: Seq<char>,
    resumed: bool,
    turn: TurnContextView,
    i: int,
)
    requires
        all_said(turn.user_content),
        0 <= i < turn.user_content.len(),
        says_something(block_texts(turn.user_content)[i]),
    ensures
        official_prompt(system_static, system_dynamic, resumed, Some(turn)) matches Ok(prompt)
            && contains_text(prompt, block_texts(turn.user_content)[i]),
{
    law_all_that_is_said_is_told(turn.user_content);
    let all = block_texts(turn.user_content);
    lemma_kept_by_filter(all, i);
    let sections = block_sections(turn.user_content)->Ok_0;
    let k = choose|k: int| 0 <= k < sections.len() && sections[k] == all[i];
    let parts = if resumed {
        sections + reminder_section(system_dynamic) + memory_section(Some(turn))
    } else {
        system_section(system_text(system_static, system_dynamic)) + sections + memory_section(
            Some(turn),
        )
    };
    let at = if resumed {
        k
    } else {
        k + system_section(system_text(system_static, system_dynamic)).len()
    };
    assert(parts[at] == all[i]);
    law_joined_texts_are_there(parts, "\n\n"@, at);
}

/// How a turn's prompt is made. What the user says comes as it is, its parts
/// with a blank line between them. Before it a new session is given the
/// instructions, those that stay before those that change; after it a resumed
/// one is reminded of those that change. What is recalled comes last. What is
/// blank is left out.
pub proof fn law_prompt_is_made_of_its_parts(
    system_static: Seq<char>,
    system_dynamic: Seq<char>,
    turn: TurnContextView,
)
    requires
        all_said(turn.user_content),
        exists|i: int|
            0 <= i < turn.user_content.len() && says_something(
                #[trigger] block_texts(turn.user_content)[i],
            ),
    ensures
        ({
            let said = joined(
                block_texts(turn.user_content).filter(|text: Seq<char>| says_something(text)),
                "\n\n"@,
            );
            let stays = trimmed(system_static);
            let changes = trimmed(system_dynamic);
            let instructions = if stays.len() == 0 && changes.len() == 0 {
                Seq::empty()
            } else if changes.len() == 0 {
                "<system>\n"@ + stays + "\n</system>"@ + "\n\n"@
            } else if stays.len() == 0 {
                "<system>\n"@ + changes + "\n</system>"@ + "\n\n"@
            } else {
                "<system>\n"@ + (stays + "\n\n"@ + changes) + "\n</system>"@ + "\n\n"@
            };
            let reminder = if changes.len() == 0 {
                Seq::empty()
            } else {
                "\n\n"@ + ("<system-reminder>\n"@ + changes + "\n</system-reminder>"@)
            };
            let recalled = match turn.memory_context {
                Some(memory) if says_something(memory) => "\n\n"@ + memory,
                _ => Seq::empty(),
            };
            &&& official_prompt(system_static, system_dynamic, false, Some(turn)) == Ok::<
                _,
                CopilotError,
            >(instructions + said + recalled)
            &&& official_prompt(system_static, system_dynamic, true, Some(turn)) == Ok::<
                _,
                CopilotError,
            >(said + reminder + recalled)
        }),
{
    let blank_line = "\n\n"@;
    law_all_that_is_said_is_told(turn.user_content);
    let all = block_texts(turn.user_content);
    let i = choose|i: int|
        0 <= i < turn.user_content.len() && says_something(
            #[trigger] block_texts(turn.user_content)[i],
        );
    lemma_kept_by_filter(all, i);
    let sections = all.filter(|text: Seq<char>| says_something(text));
    assert(sections.len() > 0);
    let said = joined(sections, blank_line);
    let memory = memory_section(Some(turn));
    match turn.memory_context {
        Some(text) => lemma_says_something(text),
        None => {},
    }
    let system = system_section(system_text(system_static, system_dynamic));
    let reminder = reminder_section(system_dynamic);
    if memory.len() > 0 {
        law_joined_texts_are_kept(sections, memory, blank_line, memory[0]);
        law_joined_texts_are_kept(system + sections, memory, blank_line, memory[0]);
        law_joined_texts_are_kept(sections + reminder, memory, blank_line, memory[0]);
        assert(memory =~= seq![memory[0]]);
    } else {
        assert(system + sections + memory =~= system + sections);
        assert(sections + reminder + memory =~= sections + reminder);
    }
    if system.len() > 0 {
        law_joined_texts_are_kept(system, sections, blank_line, system[0]);
        assert(system =~= seq![system[0]]);
    } else {
        assert(system + sections =~= sections);
    }
    if reminder.len() > 0 {
        law_joined_texts_are_kept(sections, reminder, blank_line, reminder[0]);
        assert(reminder =~= seq![reminder[0]]);
    } else {
        assert(sections + reminder =~= sections);
    }
    let stays = trimmed(system_static);
    let changes = trimmed(system_dynamic);
    let instructions = if stays.len() == 0 && changes.len() == 0 {
        Seq::empty()
    } else if changes.len() == 0 {
        "<system>\n"@ + stays + "\n</system>"@ + "\n\n"@
    } else if stays.len() == 0 {
        "<system>\n"@ + changes + "\n</system>"@ + "\n\n"@
    } else {
        "<system>\n"@ + (stays + "\n\n"@ + changes) + "\n</system>"@ + "\n\n"@
    };
    let reminded = if changes.len() == 0 {
        Seq::empty()
    } else {
        "\n\n"@ + ("<system-reminder>\n"@ + changes + "\n</system-reminder>"@)
    };
    let recalled = match turn.memory_context {
        Some(memory) if says_something(memory) => "\n\n"@ + memory,
        _ => Seq::empty(),
    };
    assert(joined(system + sections, blank_line) =~= instructions + said);
    assert(joined(sections + reminder, blank_line) =~= said + reminded);
    assert(joined(system + sections + memory, blank_line) =~= instructions + said + recalled);
    assert(joined(sections + reminder + memory, blank_line) =~= said + reminded + recalled);
}

/// Where a turn has no prompt, the reason is the first block that cannot be
/// told, an image or something else; or that nothing is said.
pub proof fn law_refused_content_is_named(
    system_static: Seq<char>,
    system_dynamic: Seq<char>,
    resumed: bool,
    said: Seq<ContentBlockView>,
    block: ContentBlockView,
    rest: Seq<ContentBlockView>,
    memory_context: Option<Seq<char>>,
)
    requires
        all_said(said),
    ensures
        ({
            let with_block = TurnContextView {
                user_content: said.push(block) + rest,
                memory_context,
            };
            let without = TurnContextView { user_content: said, memory_context };
            let prompt = official_prompt(system_static, system_dynamic, resumed, Some(with_block));
            &&& block is Image ==> prompt == Err::<Seq<char>, _>(CopilotError::ImageInput)
            &&& !(block is Image) && !(block is Text) && !(block is ToolResult) ==> prompt == Err::<
                Seq<char>,
                _,
            >(CopilotError::UnsupportedContent)
            &&& (forall|i: int|
                0 <= i < said.len() ==> !says_something(#[trigger] block_texts(said)[i]))
                ==> official_prompt(system_static, system_dynamic, resumed, Some(without)) == Err::<
                Seq<char>,
                _,
            >(CopilotError::MissingPrompt)
        }),
{
    law_all_that_is_said_is_told(said);
    let blocks = said.push(block) + rest;
    let n = said.len() + 1;
    assert(blocks.take(n as int) =~= said.push(block));
    assert(said.push(block).drop_last() =~= said);
    if !(block is Text) && !(block is ToolResult) {
        lemma_first_error_stays(blocks, n as int);
    }
    if forall|i: int| 0 <= i < said.len() ==> !says_something(#[trigger] block_texts(said)[i]) {
        lemma_nothing_kept(block_texts(said));
    }
}

/// Where nothing is said, nothing is kept.
proof fn lemma_nothing_kept(all: Seq<Seq<char>>)
    requires
        forall|i: int| 0 <= i < all.len() ==> !says_something(#[trigger] all[i]),
    ensures
        all.filter(|text: Seq<char>| says_something(text)).len() == 0,
    decreases all.len(),
{
    reveal(Seq::filter);
    if all.len() > 0 {
        let rest = all.drop_last();
        assert forall|i: int| 0 <= i < rest.len() implies !says_something(#[trigger] rest[i]) by {
            assert(rest[i] == all[i]);
        }
        lemma_nothing_kept(rest);
        assert(all.last() == all[all.len() - 1]);
    }
}

/// A conversation holds earlier answers wherever one of its messages is the
/// assistant's, and not where all are of others.
pub proof fn law_history_is_what_was_answered(
    before: Seq<MessageView>,
    message: MessageView,
    after: Seq<MessageView>,
)
    ensures
        message.role == Role::Assistant ==> holds_history(before.push(message) + after),
        (forall|i: int| 0 <= i < before.len() ==> (#[trigger] before[i]).role != Role::Assistant)
            ==> !holds_history(before),
{
    let all = before.push(message) + after;
    assert(all[before.len() as int] == message);
}

/// An identifier that is marked as one in its old form names what stands behind
/// the first colon after the mark; without such a colon, or without the mark,
/// it names itself.
pub proof fn law_marked_session_ids(rest: Seq<char>, id: Seq<char>)
    ensures
        !rest.contains(':') ==> upstream_session_id(
            "jcode-copilot-acp-v1:"@ + rest + seq![':'] + id,
        ) == id,
        !rest.contains(':') ==> upstream_session_id("jcode-copilot-acp-v1:"@ + rest)
            == "jcode-copilot-acp-v1:"@ + rest,
        !"jcode-copilot-acp-v1:"@.is_prefix_of(id) ==> upstream_session_id(id) == id,
{
    let mark = "jcode-copilot-acp-v1:"@;
    if !rest.contains(':') {
        reveal_strlit(":");
        assert(":"@ =~= seq![':']);
        law_session_ids(rest, id);
        let bare = mark + rest;
        assert(bare.skip(mark.len() as int) =~= rest);
        lemma_no_colon(rest);
    }
}

} // verus!
