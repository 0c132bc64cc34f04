//! What a request of the native transport is made of: its address, its headers
//! and its body.

use crate::json::{
    entry_views, json_views, law_set_is_found, lemma_array_view, lemma_object_view, Json, JsonView,
};
use crate::message::str_option;
use crate::model::{
    copilot_api_path, max_token_parameter, max_token_parameter_for_model, MAX_RESPONSE_TOKENS,
};
use crate::text::{ascii_lower, concat, concat3, decimal_text, law_decimal_numbers, trimmed};
use vstd::prelude::*;
use vstd::string::*;

verus! {

/// A number in JSON.
pub open spec fn number_json(n: nat) -> JsonView {
    JsonView::Number { text: decimal_text(n), unsigned: Some(n as u64) }
}

/// The body with a limit for the tokens of the response.
pub open spec fn with_max_tokens(body: JsonView, model: Seq<char>, max_tokens: u32) -> JsonView {
    body.set(max_token_parameter(model), number_json(max_tokens as nat))
}

/// The body with the tools, where there are any.
pub open spec fn with_tools(body: JsonView, tools: Seq<JsonView>) -> JsonView {
    if tools.len() == 0 {
        body
    } else {
        body.set("tools"@, JsonView::Array(tools))
    }
}

/// The body with a text at a key, where there is one.
pub open spec fn with_text(body: JsonView, key: Seq<char>, text: Option<Seq<char>>) -> JsonView {
    match text {
        Some(text) => body.set(key, JsonView::Text(text)),
        None => body,
    }
}

/// The body of a request that is made of messages.
pub open spec fn chat_body(
    model: Seq<char>,
    messages: Seq<JsonView>,
    tools: Seq<JsonView>,
    effort: Option<Seq<char>>,
) -> JsonView {
    let body = JsonView::Object(
        seq![
            ("model"@, JsonView::Text(model)),
            ("messages"@, JsonView::Array(messages)),
            ("stream"@, JsonView::Bool(true)),
        ],
    );
    with_tools(
        with_text(with_max_tokens(body, model, 32768), "reasoning_effort"@, effort),
        tools,
    )
}

/// The body of a request of the Responses API.
pub open spec fn responses_body(
    model: Seq<char>,
    input: Seq<JsonView>,
    tools: Seq<JsonView>,
    system: Seq<char>,
) -> JsonView {
    let body = JsonView::Object(
        seq![
            ("model"@, JsonView::Text(model)),
            ("input"@, JsonView::Array(input)),
            ("stream"@, JsonView::Bool(true)),
            ("max_output_tokens"@, number_json(32768)),
        ],
    );
    let instructions = if system.len() == 0 {
        None
    } else {
        Some(system)
    };
    with_tools(with_text(body, "instructions"@, instructions), tools)
}

/// Limits the tokens of the response, under the name that the model's API has
/// for it.
pub fn add_max_token_parameter(body: &mut Json, model: &str, max_tokens: u32)
    requires
        old(body)@ is Object,
    ensures
        final(body)@ == with_max_tokens(old(body)@, model@, max_tokens),
        final(body)@ is Object,
{
    body.set(max_token_parameter_for_model(model), Json::number(max_tokens as u64));
}

/// Adds the tools, where there are any.
fn add_tools(body: &mut Json, tools: Vec<Json>)
    requires
        old(body)@ is Object,
    ensures
        final(body)@ == with_tools(old(body)@, json_views(tools@)),
{
    assert(json_views(tools@).len() == tools@.len());
    if tools.len() > 0 {
        proof {
            lemma_array_view(tools);
        }
        body.set("tools", Json::Array(tools));
    }
}

/// Adds a text at a key, where there is one.
pub(crate) fn add_text(body: &mut Json, key: &str, text: Option<&str>)
    requires
        old(body)@ is Object,
    ensures
        final(body)@ == with_text(old(body)@, key@, str_option(text)),
        final(body)@ is Object,
{
    match text {
        Some(text) => {
            body.set(key, Json::text(text));
        },
        None => {},
    }
}

/// An array.
fn array(items: Vec<Json>) -> (value: Json)
    ensures
        value@ == JsonView::Array(json_views(items@)),
{
    proof {
        lemma_array_view(items);
    }
    Json::Array(items)
}

/// The body of a request that is made of messages.
pub fn chat_payload(
    model: &str,
    messages: Vec<Json>,
    tools: Vec<Json>,
    effort: Option<&str>,
) -> (body: Json)
    ensures
        body@ == chat_body(
            model@,
            json_views(messages@),
            json_views(tools@),
            str_option(effort),
        ),
{
    let ghost message_views = json_views(messages@);
    let mut entries: Vec<(String, Json)> = Vec::new();
    entries.push(("model".to_owned(), Json::text(model)));
    entries.push(("messages".to_owned(), array(messages)));
    entries.push(("stream".to_owned(), Json::Bool(true)));
    proof {
        lemma_object_view(entries);
        assert(entry_views(entries@) =~= seq![
            ("model"@, JsonView::Text(model@)),
            ("messages"@, JsonView::Array(message_views)),
            ("stream"@, JsonView::Bool(true)),
        ]);
    }
    let mut body = Json::Object(entries);
    add_max_token_parameter(&mut body, model, MAX_RESPONSE_TOKENS);
    add_text(&mut body, "reasoning_effort", effort);
    add_tools(&mut body, tools);
    body
}

/// The body of a request of the Responses API.
pub fn responses_payload(
    model: &str,
    input: Vec<Json>,
    tools: Vec<Json>,
    system: &str,
) -> (body: Json)
    ensures
        body@ == responses_body(model@, json_views(input@), json_views(tools@), system@),
{
    let ghost input_views = json_views(input@);
    let mut entries: Vec<(String, Json)> = Vec::new();
    entries.push(("model".to_owned(), Json::text(model)));
    entries.push(("input".to_owned(), array(input)));
    entries.push(("stream".to_owned(), Json::Bool(true)));
    entries.push(("max_output_tokens".to_owned(), Json::number(MAX_RESPONSE_TOKENS as u64)));
    proof {
        lemma_object_view(entries);
        assert(entry_views(entries@) =~= seq![
            ("model"@, JsonView::Text(model@)),
            ("input"@, JsonView::Array(input_views)),
            ("stream"@, JsonView::Bool(true)),
            ("max_output_tokens"@, number_json(32768)),
        ]);
    }
    let mut body = Json::Object(entries);
    if system.unicode_len() > 0 {
        add_text(&mut body, "instructions", Some(system));
    }
    add_tools(&mut body, tools);
    body
}

/// A request that is made of messages asks for the reasoning effort that it is
/// given, and for none where it is given none; and it is limited to the tokens
/// that a response may have, under the name that the model's API has for it.
pub proof fn law_chat_body_fields(
    model: Seq<char>,
    messages: Seq<JsonView>,
    tools: Seq<JsonView>,
    effort: Option<Seq<char>>,
)
    ensures
        ({
            let body = chat_body(model, messages, tools, effort);
            &&& body.text_at("reasoning_effort"@) == effort
            &&& effort is None ==> body.field("reasoning_effort"@) is None
            &&& body.field(max_token_parameter(model)) == Some(number_json(32768))
            &&& body.field("model"@) == Some(JsonView::Text(model))
            &&& body.field("messages"@) == Some(JsonView::Array(messages))
            &&& body.field("stream"@) == Some(JsonView::Bool(true))
            &&& body.items_at("tools"@) == (if tools.len() == 0 {
                None
            } else {
                Some(tools)
            })
        }),
{
    reveal_strlit("model");
    reveal_strlit("messages");
    reveal_strlit("stream");
    reveal_strlit("max_tokens");
    reveal_strlit("max_completion_tokens");
    reveal_strlit("reasoning_effort");
    reveal_strlit("tools");
    reveal_with_fuel(crate::json::entry_of, 4);
    let start = JsonView::Object(
        seq![
            ("model"@, JsonView::Text(model)),
            ("messages"@, JsonView::Array(messages)),
            ("stream"@, JsonView::Bool(true)),
        ],
    );
    let entries = start->Object_0;
    assert(entries.skip(1) =~= seq![entries[1], entries[2]]);
    assert(entries.skip(1).skip(1) =~= seq![entries[2]]);
    assert(entries.skip(1).skip(1).skip(1) =~= Seq::empty());
    assert("model"@ != "messages"@ && "model"@ != "stream"@ && "messages"@ != "stream"@) by {
        assert("model"@.len() == 5 && "messages"@.len() == 8 && "stream"@.len() == 6);
    }
    let limit = max_token_parameter(model);
    assert(limit.len() == 10 || limit.len() == 21);
    assert("reasoning_effort"@.len() == 16 && "tools"@.len() == 5);
    assert("tools"@[0] == 't' && "model"@[0] == 'm');
    let limited = with_max_tokens(start, model, 32768);
    let keys = seq!["model"@, "messages"@, "stream"@, limit, "reasoning_effort"@, "tools"@];
    assert forall|i: int| 0 <= i < 6 implies (#[trigger] keys[i] == limit || limited.field(keys[i])
        == start.field(keys[i])) && limited.field(limit) == Some(number_json(32768)) by {
        law_set_is_found(start, limit, number_json(32768), keys[i]);
    }
    let asked = with_text(limited, "reasoning_effort"@, effort);
    assert forall|i: int| 0 <= i < 6 implies (#[trigger] keys[i] == "reasoning_effort"@
        || asked.field(keys[i]) == limited.field(keys[i])) && (effort matches Some(text)
        ==> asked.field("reasoning_effort"@) == Some(JsonView::Text(text))) by {
        if effort is Some {
            law_set_is_found(
                limited,
                "reasoning_effort"@,
                JsonView::Text(effort->0),
                keys[i],
            );
        }
    }
    let body = with_tools(asked, tools);
    assert forall|i: int| 0 <= i < 6 implies (#[trigger] keys[i] == "tools"@ || body.field(keys[i])
        == asked.field(keys[i])) && (tools.len() > 0 ==> body.field("tools"@) == Some(
        JsonView::Array(tools),
    )) by {
        if tools.len() > 0 {
            law_set_is_found(asked, "tools"@, JsonView::Array(tools), keys[i]);
        }
    }
    assert(keys[0] == "model"@ && keys[1] == "messages"@ && keys[2] == "stream"@ && keys[3] == limit
        && keys[4] == "reasoning_effort"@ && keys[5] == "tools"@);
}

/// The texts by which the service knows who is asking.
#[derive(Debug)]
pub struct CopilotService {
    pub api_base: String,
    pub editor_version: String,
    pub editor_plugin_version: String,
    pub integration_id: String,
    pub api_version: String,
}

/// Who has begun a turn, as the service is told.
pub fn initiator(is_user_initiated: bool) -> (r: &'static str)
    ensures
        r@ == initiator_name(is_user_initiated),
{
    if is_user_initiated {
        "user"
    } else {
        "agent"
    }
}

/// Who has begun a turn, as the service is told.
pub open spec fn initiator_name(is_user_initiated: bool) -> Seq<char> {
    if is_user_initiated {
        "user"@
    } else {
        "agent"@
    }
}

/// The address of a request.
pub fn request_url(service: &CopilotService, uses_responses_api: bool) -> (r: String)
    ensures
        r@ == service.api_base@ + "/"@ + (if uses_responses_api {
            "responses"@
        } else {
            "chat/completions"@
        }),
{
    concat3(service.api_base.as_str(), "/", copilot_api_path(uses_responses_api))
}

/// A header, as a name and a value.
pub open spec fn header_views(headers: Seq<(&'static str, String)>) -> Seq<
    (Seq<char>, Seq<char>),
> {
    headers.map_values(|header: (&'static str, String)| (header.0@, header.1@))
}

/// The headers of a request.
pub open spec fn header_list(
    service: CopilotService,
    token: Seq<char>,
    is_user_initiated: bool,
    request_id: Seq<char>,
    session_id: Seq<char>,
    machine_id: Seq<char>,
) -> Seq<(Seq<char>, Seq<char>)> {
    seq![
        ("Authorization"@, "Bearer "@ + token),
        ("Editor-Version"@, service.editor_version@),
        ("Editor-Plugin-Version"@, service.editor_plugin_version@),
        ("Copilot-Integration-Id"@, service.integration_id@),
        ("Content-Type"@, "application/json"@),
        ("X-Initiator"@, initiator_name(is_user_initiated)),
        ("X-Request-Id"@, request_id),
        ("Openai-Intent"@, "conversation-panel"@),
        ("Openai-Organization"@, "github-copilot"@),
        ("X-GitHub-Api-Version"@, service.api_version@),
        ("Vscode-Sessionid"@, session_id),
        ("Vscode-Machineid"@, machine_id),
    ]
}

/// The headers of a request.
pub fn request_headers(
    service: &CopilotService,
    token: &str,
    is_user_initiated: bool,
    request_id: &str,
    session_id: &str,
    machine_id: &str,
) -> (headers: Vec<(&'static str, String)>)
    ensures
        header_views(headers@) == header_list(
            *service,
            token@,
            is_user_initiated,
            request_id@,
            session_id@,
            machine_id@,
        ),
{
    let mut headers: Vec<(&'static str, String)> = Vec::new();
    headers.push(("Authorization", concat("Bearer ", token)));
    headers.push(("Editor-Version", service.editor_version.clone()));
    headers.push(("Editor-Plugin-Version", service.editor_plugin_version.clone()));
    headers.push(("Copilot-Integration-Id", service.integration_id.clone()));
    headers.push(("Content-Type", "application/json".to_owned()));
    headers.push(("X-Initiator", initiator(is_user_initiated).to_owned()));
    headers.push(("X-Request-Id", request_id.to_owned()));
    headers.push(("Openai-Intent", "conversation-panel".to_owned()));
    headers.push(("Openai-Organization", "github-copilot".to_owned()));
    headers.push(("X-GitHub-Api-Version", service.api_version.clone()));
    headers.push(("Vscode-Sessionid", session_id.to_owned()));
    headers.push(("Vscode-Machineid", machine_id.to_owned()));
    assert(header_views(headers@) =~= header_list(
        *service,
        token@,
        is_user_initiated,
        request_id@,
        session_id@,
        machine_id@,
    ));
    headers
}

/// A request of the Responses API holds the model, the conversation and a limit
/// of 32768 tokens, asks for a stream, and has instructions and tools exactly
/// where there are any.
pub proof fn law_responses_body_fields(
    model: Seq<char>,
    input: Seq<JsonView>,
    tools: Seq<JsonView>,
    system: Seq<char>,
)
    ensures
        ({
            let body = responses_body(model, input, tools, system);
            &&& body.field("model"@) == Some(JsonView::Text(model))
            &&& body.field("input"@) == Some(JsonView::Array(input))
            &&& body.field("stream"@) == Some(JsonView::Bool(true))
            &&& body.field("max_output_tokens"@) == Some(
                JsonView::Number { text: "32768"@, unsigned: Some(32768) },
            )
            &&& system.len() > 0 ==> body.field("instructions"@) == Some(JsonView::Text(system))
            &&& system.len() == 0 ==> body.field("instructions"@) is None
            &&& tools.len() > 0 ==> body.field("tools"@) == Some(JsonView::Array(tools))
            &&& tools.len() == 0 ==> body.field("tools"@) is None
        }),
{
    reveal_strlit("model");
    reveal_strlit("input");
    reveal_strlit("stream");
    reveal_strlit("max_output_tokens");
    reveal_strlit("instructions");
    reveal_strlit("tools");
    reveal_with_fuel(crate::json::entry_of, 5);
    law_decimal_numbers(0, 0);
    let start = JsonView::Object(
        seq![
            ("model"@, JsonView::Text(model)),
            ("input"@, JsonView::Array(input)),
            ("stream"@, JsonView::Bool(true)),
            ("max_output_tokens"@, number_json(32768)),
        ],
    );
    let entries = start->Object_0;
    assert(entries.skip(1) =~= seq![entries[1], entries[2], entries[3]]);
    assert(entries.skip(1).skip(1) =~= seq![entries[2], entries[3]]);
    assert(entries.skip(1).skip(1).skip(1) =~= seq![entries[3]]);
    assert(entries.skip(1).skip(1).skip(1).skip(1) =~= Seq::empty());
    assert("model"@.len() == 5 && "model"@[0] == 'm');
    assert("input"@.len() == 5 && "input"@[0] == 'i');
    assert("tools"@.len() == 5 && "tools"@[0] == 't');
    assert("stream"@.len() == 6 && "max_output_tokens"@.len() == 17 && "instructions"@.len() == 12);
    let keys = seq![
        "model"@,
        "input"@,
        "stream"@,
        "max_output_tokens"@,
        "instructions"@,
        "tools"@,
    ];
    let told = with_text(
        start,
        "instructions"@,
        if system.len() == 0 {
            None
        } else {
            Some(system)
        },
    );
    assert forall|i: int| 0 <= i < 6 implies (#[trigger] keys[i] == "instructions"@ || told.field(
        keys[i],
    ) == start.field(keys[i])) && (system.len() > 0 ==> told.field("instructions"@) == Some(
        JsonView::Text(system),
    )) by {
        if system.len() > 0 {
            law_set_is_found(start, "instructions"@, JsonView::Text(system), keys[i]);
        }
    }
    let body = with_tools(told, tools);
    assert forall|i: int| 0 <= i < 6 implies (#[trigger] keys[i] == "tools"@ || body.field(keys[i])
        == told.field(keys[i])) && (tools.len() > 0 ==> body.field("tools"@) == Some(
        JsonView::Array(tools),
    )) by {
        if tools.len() > 0 {
            law_set_is_found(told, "tools"@, JsonView::Array(tools), keys[i]);
        }
    }
    assert(keys[0] == "model"@ && keys[1] == "input"@ && keys[2] == "stream"@ && keys[3]
        == "max_output_tokens"@ && keys[4] == "instructions"@ && keys[5] == "tools"@);
}

/// A request that is made of messages is limited to 32768 tokens: under the
/// newer name for a model whose name begins with `gpt-5`, whatever its case and
/// the space around it, and under the older one for every other.
pub proof fn law_chat_tokens_are_limited(
    model: Seq<char>,
    messages: Seq<JsonView>,
    tools: Seq<JsonView>,
    effort: Option<Seq<char>>,
)
    ensures
        ({
            let body = chat_body(model, messages, tools, effort);
            let limit = JsonView::Number { text: "32768"@, unsigned: Some(32768) };
            if "gpt-5"@.is_prefix_of(ascii_lower(trimmed(model))) {
                body.field("max_completion_tokens"@) == Some(limit)
            } else {
                body.field("max_tokens"@) == Some(limit)
            }
        }),
{
    law_chat_body_fields(model, messages, tools, effort);
    law_decimal_numbers(0, 0);
}

/// The headers that a request has: each of these once, with this value. The
/// token, the one who has begun the turn, and the identifiers of the request,
/// the session and the machine are those that it is given.
pub proof fn law_headers_say_who_asks(
    service: CopilotService,
    token: Seq<char>,
    is_user_initiated: bool,
    request_id: Seq<char>,
    session_id: Seq<char>,
    machine_id: Seq<char>,
)
    ensures
        ({
            let headers = header_list(
                service,
                token,
                is_user_initiated,
                request_id,
                session_id,
                machine_id,
            );
            &&& headers.len() == 12
            &&& headers.contains(("Authorization"@, "Bearer "@ + token))
            &&& headers.contains(("Editor-Version"@, service.editor_version@))
            &&& headers.contains(("Editor-Plugin-Version"@, service.editor_plugin_version@))
            &&& headers.contains(("Copilot-Integration-Id"@, service.integration_id@))
            &&& headers.contains(("Content-Type"@, "application/json"@))
            &&& is_user_initiated ==> headers.contains(("X-Initiator"@, "user"@))
            &&& !is_user_initiated ==> headers.contains(("X-Initiator"@, "agent"@))
            &&& headers.contains(("X-Request-Id"@, request_id))
            &&& headers.contains(("Openai-Intent"@, "conversation-panel"@))
            &&& headers.contains(("Openai-Organization"@, "github-copilot"@))
            &&& headers.contains(("X-GitHub-Api-Version"@, service.api_version@))
            &&& headers.contains(("Vscode-Sessionid"@, session_id))
            &&& headers.contains(("Vscode-Machineid"@, machine_id))
        }),
{
    let headers = header_list(
        service,
        token,
        is_user_initiated,
        request_id,
        session_id,
        machine_id,
    );
    assert(headers[0] == ("Authorization"@, "Bearer "@ + token));
    assert(headers[1] == ("Editor-Version"@, service.editor_version@));
    assert(headers[2] == ("Editor-Plugin-Version"@, service.editor_plugin_version@));
    assert(headers[3] == ("Copilot-Integration-Id"@, service.integration_id@));
    assert(headers[4] == ("Content-Type"@, "application/json"@));
    assert(headers[5].0 == "X-Initiator"@);
    assert(headers[6] == ("X-Request-Id"@, request_id));
    assert(headers[7] == ("Openai-Intent"@, "conversation-panel"@));
    assert(headers[8] == ("Openai-Organization"@, "github-copilot"@));
    assert(headers[9] == ("X-GitHub-Api-Version"@, service.api_version@));
    assert(headers[10] == ("Vscode-Sessionid"@, session_id));
    assert(headers[11] == ("Vscode-Machineid"@, machine_id));
    if is_user_initiated {
        assert(headers[5] == ("X-Initiator"@, "user"@));
    } else {
        assert(headers[5] == ("X-Initiator"@, "agent"@));
    }
}

/// A text that is added to a body is found at its key, and all else of the body
/// stays; where there is none, nothing changes.
pub proof fn law_added_texts_are_found(
    body: JsonView,
    key: Seq<char>,
    text: Seq<char>,
    other: Seq<char>,
)
    requires
        body is Object,
    ensures
        with_text(body, key, Some(text)).field(key) == Some(JsonView::Text(text)),
        other != key ==> with_text(body, key, Some(text)).field(other) == body.field(other),
        with_text(body, key, None) == body,
{
    law_set_is_found(body, key, JsonView::Text(text), other);
}

/// A limit for tokens is found under the name that the model's API has for it,
/// and all else of the body stays.
pub proof fn law_added_limits_are_found(
    body: JsonView,
    model: Seq<char>,
    max_tokens: u32,
    other: Seq<char>,
)
    requires
        body is Object,
    ensures
        ({
            let after = with_max_tokens(body, model, max_tokens);
            let name = if "gpt-5"@.is_prefix_of(ascii_lower(trimmed(model))) {
                "max_completion_tokens"@
            } else {
                "max_tokens"@
            };
            &&& after.field(name) == Some(
                JsonView::Number {
                    text: decimal_text(max_tokens as nat),
                    unsigned: Some(max_tokens as u64),
                },
            )
            &&& other != name ==> after.field(other) == body.field(other)
        }),
{
    law_set_is_found(body, max_token_parameter(model), number_json(max_tokens as nat), other);
}

} // verus!
