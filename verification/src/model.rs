//! Rules on model names: which API a model is served by, which parameters its
//! requests take, and how much context it has.

use crate::text::{
    ascii_lower, contains, replace_char, replaced, starts_with, str_eq, strip_prefix, trim,
    trim_end_of, trim_start_of, trimmed, white_space,
};
use vstd::prelude::*;
use vstd::string::*;

verus! {

/// The context window of a model with no known limit.
pub const DEFAULT_CONTEXT_WINDOW: usize = 128_000;

/// The most tokens that a response may have.
pub const MAX_RESPONSE_TOKENS: u32 = 32_768;

/// The reasoning efforts that can be asked for, from the least to the most.
pub open spec fn effort_names() -> Seq<Seq<char>> {
    seq!["low"@, "medium"@, "high"@, "xhigh"@, "max"@]
}

/// Whether the model is of the family that the Responses API serves.
pub open spec fn on_responses_api(model: Seq<char>) -> bool {
    "gpt-5.6"@.is_prefix_of(ascii_lower(trimmed(model)))
}

/// The name of the parameter that limits the tokens of a response.
pub open spec fn max_token_parameter(model: Seq<char>) -> Seq<char> {
    if "gpt-5"@.is_prefix_of(ascii_lower(trimmed(model))) {
        "max_completion_tokens"@
    } else {
        "max_tokens"@
    }
}

/// The model that `model` names, without space around it and without the
/// provider's own prefix.
pub open spec fn own_model_name(model: Seq<char>, prefix: Seq<char>) -> Seq<char> {
    let name = trimmed(model);
    if prefix.is_prefix_of(name) {
        trimmed(name.skip(prefix.len() as int))
    } else {
        name
    }
}

/// The context limit of a model that Copilot serves, where dots and dashes in
/// the name count alike.
pub open spec fn copilot_context_limit(model: Seq<char>) -> usize {
    let name = replaced(model, '.', '-');
    if crate::text::contains_text(name, "opus-4-6"@) {
        200_000
    } else if "gemini-"@.is_prefix_of(name) {
        1_000_000
    } else {
        128_000
    }
}

/// Whether requests of the model take a reasoning effort: those of
/// `effort_model` alone do.
pub fn copilot_model_supports_reasoning_effort(model: &str, effort_model: &str) -> (r: bool)
    ensures
        r == (model@ == effort_model@),
{
    str_eq(model, effort_model)
}

/// Whether the model is of the family that the Responses API serves, whatever
/// the case of its letters and the space around it.
pub fn copilot_model_uses_responses_api(model: &str) -> (r: bool)
    ensures
        r == on_responses_api(model@),
{
    starts_with(trim(model).to_ascii_lowercase().as_str(), "gpt-5.6")
}

/// The path of the API below the service's base address.
pub fn copilot_api_path(uses_responses_api: bool) -> (r: &'static str)
    ensures
        r@ == (if uses_responses_api {
            "responses"@
        } else {
            "chat/completions"@
        }),
{
    if uses_responses_api {
        "responses"
    } else {
        "chat/completions"
    }
}

/// The name of the parameter that limits the tokens of a response.
pub fn max_token_parameter_for_model(model: &str) -> (r: &'static str)
    ensures
        r@ == max_token_parameter(model@),
{
    if starts_with(trim(model).to_ascii_lowercase().as_str(), "gpt-5") {
        "max_completion_tokens"
    } else {
        "max_tokens"
    }
}

/// The model that `model` names, without space around it and without the
/// provider's own prefix.
pub fn strip_own_model_prefix<'a>(model: &'a str, prefix: &str) -> (r: &'a str)
    ensures
        r@ == own_model_name(model@, prefix@),
{
    let name = trim(model);
    match strip_prefix(name, prefix) {
        Some(rest) => {
            assert(name@.skip(prefix@.len() as int) =~= rest@);
            assert(prefix@.is_prefix_of(name@));
            trim(rest)
        },
        None => name,
    }
}

/// The context limit of a model under a provider, of which only Copilot is
/// asked for here.
pub fn context_limit_for_model_with_provider(model: &str, provider: Option<&str>) -> (r: Option<
    usize,
>)
    requires
        provider matches Some(provider) && provider@ == "copilot"@,
    ensures
        r == Some(copilot_context_limit(model@)),
{
    proof {
        reveal_strlit("-");
    }
    let name = replace_char(model, '.', "-");
    if contains(name.as_str(), "opus-4-6") {
        Some(200_000)
    } else if starts_with(name.as_str(), "gemini-") {
        Some(1_000_000)
    } else {
        Some(128_000)
    }
}

/// The reasoning efforts that can be asked for, from the least to the most.
pub fn supported_efforts() -> (r: Vec<&'static str>)
    ensures
        r@.map_values(|effort: &'static str| effort@) == effort_names(),
{
    let mut efforts: Vec<&'static str> = Vec::new();
    efforts.push("low");
    efforts.push("medium");
    efforts.push("high");
    efforts.push("xhigh");
    efforts.push("max");
    assert(efforts@.map_values(|effort: &'static str| effort@) =~= effort_names());
    efforts
}

/// Whether `effort` is one of the reasoning efforts that can be asked for.
pub fn is_supported_effort(effort: &str) -> (r: bool)
    ensures
        r == effort_names().contains(effort@),
{
    let r = str_eq(effort, "low") || str_eq(effort, "medium") || str_eq(effort, "high") || str_eq(
        effort,
        "xhigh",
    ) || str_eq(effort, "max");
    proof {
        let names = effort_names();
        assert(names[0] == "low"@ && names[1] == "medium"@ && names[2] == "high"@ && names[3]
            == "xhigh"@ && names[4] == "max"@);
    }
    r
}

/// Space at the end of the second of two texts is space at the end of both.
proof fn lemma_trim_end_add(a: Seq<char>, b: Seq<char>)
    requires
        a.len() > 0,
        !white_space(a.last()),
    ensures
        trim_end_of(a + b) == a + trim_end_of(b),
    decreases b.len(),
{
    if b.len() == 0 {
        assert(a + b =~= a);
        assert(a + trim_end_of(b) =~= a);
    } else {
        assert((a + b).last() == b.last());
        if white_space(b.last()) {
            assert((a + b).drop_last() =~= a + b.drop_last());
            lemma_trim_end_add(a, b.drop_last());
        }
    }
}

/// Without space at its end, a text has none to lose there.
proof fn lemma_trim_end_twice(s: Seq<char>)
    ensures
        trim_end_of(trim_end_of(s)) == trim_end_of(s),
    decreases s.len(),
{
    if s.len() > 0 && white_space(s.last()) {
        lemma_trim_end_twice(s.drop_last());
    }
}

/// Space at the end of a text is the same with its first character and
/// without, unless all of it is space.
proof fn lemma_trim_end_first(s: Seq<char>)
    requires
        s.len() > 0,
    ensures
        trim_end_of(s.skip(1)).len() > 0 ==> trim_end_of(s) == seq![s[0]] + trim_end_of(s.skip(1)),
        trim_end_of(s.skip(1)).len() == 0 && white_space(s[0]) ==> trim_end_of(s).len() == 0,
        !white_space(s[0]) ==> trim_end_of(s).len() > 0 && trim_end_of(s)[0] == s[0],
    decreases s.len(),
{
    reveal_with_fuel(trim_end_of, 2);
    if s.len() == 1 {
        assert(s.skip(1) =~= Seq::empty());
        assert(s.drop_last() =~= Seq::empty());
    } else {
        let rest = s.skip(1);
        assert(rest.last() == s.last());
        if white_space(s.last()) {
            assert(s.drop_last().skip(1) =~= rest.drop_last());
            lemma_trim_end_first(s.drop_last());
        } else {
            assert(seq![s[0]] + rest =~= s);
        }
    }
}

/// It does not matter at which end space is taken away first.
proof fn lemma_trim_either_end_first(s: Seq<char>)
    ensures
        trim_start_of(trim_end_of(s)) == trim_end_of(trim_start_of(s)),
    decreases s.len(),
{
    if s.len() > 0 {
        lemma_trim_end_first(s);
        if white_space(s[0]) {
            lemma_trim_either_end_first(s.skip(1));
            assert(trim_start_of(s) == trim_start_of(s.skip(1)));
            if trim_end_of(s.skip(1)).len() > 0 {
                let whole = seq![s[0]] + trim_end_of(s.skip(1));
                assert(whole.skip(1) =~= trim_end_of(s.skip(1)));
                assert(trim_start_of(whole) == trim_start_of(whole.skip(1)));
            } else {
                assert(trim_end_of(s) =~= Seq::empty());
                assert(trim_end_of(s.skip(1)) =~= Seq::empty());
            }
        }
    }
}

/// A model may be named with the provider's own prefix or without: both name
/// the same model.
pub proof fn law_own_prefix_makes_no_difference(model: Seq<char>)
    requires
        !"copilot:"@.is_prefix_of(trimmed(model)),
    ensures
        own_model_name("copilot:"@ + model, "copilot:"@) == own_model_name(model, "copilot:"@),
{
    reveal_strlit("copilot:");
    let prefix = "copilot:"@;
    let whole = prefix + model;
    assert(whole[0] == 'c');
    assert(prefix.last() == ':');
    lemma_trim_end_add(prefix, model);
    let name = prefix + trim_end_of(model);
    assert(trimmed(whole) == name);
    assert(prefix.is_prefix_of(name));
    assert(name.skip(prefix.len() as int) =~= trim_end_of(model));
    lemma_trim_either_end_first(model);
    lemma_trim_end_twice(trim_start_of(model));
}

/// Which API serves a model, and how its tokens are limited, is decided by how
/// its name begins, whatever the case of its letters and the space around it.
pub proof fn law_model_families(model: Seq<char>)
    ensures
        on_responses_api(model) <==> "gpt-5.6"@.is_prefix_of(ascii_lower(trimmed(model))),
        max_token_parameter(model) == "max_completion_tokens"@ <==> "gpt-5"@.is_prefix_of(
            ascii_lower(trimmed(model)),
        ),
        max_token_parameter(model) == "max_tokens"@ <==> !"gpt-5"@.is_prefix_of(
            ascii_lower(trimmed(model)),
        ),
        on_responses_api(model) ==> max_token_parameter(model) == "max_completion_tokens"@,
{
    reveal_strlit("max_completion_tokens");
    reveal_strlit("max_tokens");
    reveal_strlit("gpt-5");
    reveal_strlit("gpt-5.6");
    assert("max_completion_tokens"@.len() != "max_tokens"@.len());
    let name = ascii_lower(trimmed(model));
    if "gpt-5.6"@.is_prefix_of(name) {
        assert("gpt-5"@ =~= name.subrange(0, 5)) by {
            assert("gpt-5.6"@ =~= name.subrange(0, 7));
            assert forall|i: int| 0 <= i < 5 implies "gpt-5"@[i] == name[i] by {
                assert(name.subrange(0, 7)[i] == name[i]);
            }
        }
    }
}

/// The efforts that can be asked for are these five.
pub proof fn law_efforts(effort: Seq<char>)
    ensures
        effort_names().contains(effort) <==> effort == "low"@ || effort == "medium"@ || effort
            == "high"@ || effort == "xhigh"@ || effort == "max"@,
        effort_names().len() == 5,
{
    let names = effort_names();
    assert(names[0] == "low"@ && names[1] == "medium"@ && names[2] == "high"@ && names[3]
        == "xhigh"@ && names[4] == "max"@);
}

/// Without the prefix, a model's name is what it is given as, without the space
/// around it; with the prefix, it is what follows it, without the space around
/// that.
pub proof fn law_model_names(model: Seq<char>, prefix: Seq<char>)
    ensures
        !prefix.is_prefix_of(trimmed(model)) ==> own_model_name(model, prefix) == trimmed(model),
        prefix.is_prefix_of(trimmed(model)) ==> own_model_name(model, prefix) == trimmed(
            trimmed(model).skip(prefix.len() as int),
        ),
{
}

/// The context limits of the models that Copilot serves go by the name, in which
/// a dot counts like a dash.
pub proof fn law_context_limits(model: Seq<char>)
    ensures
        copilot_context_limit(model) == copilot_context_limit(replaced(model, '.', '-')),
        crate::text::contains_text(replaced(model, '.', '-'), "opus-4-6"@) ==> copilot_context_limit(
            model,
        ) == 200_000,
        !crate::text::contains_text(replaced(model, '.', '-'), "opus-4-6"@) ==> (
        copilot_context_limit(model) == 1_000_000 <==> "gemini-"@.is_prefix_of(
            replaced(model, '.', '-'),
        )),
        copilot_context_limit(model) == 200_000 || copilot_context_limit(model) == 1_000_000
            || copilot_context_limit(model) == 128_000,
{
    let once = replaced(model, '.', '-');
    assert(replaced(once, '.', '-') =~= once);
}

} // verus!
