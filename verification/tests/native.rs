use copilot_runtime::json::{json_from_value, parse_json, Json};
use copilot_runtime::message::StreamEvent;
use copilot_runtime::request::{
    add_max_token_parameter, chat_payload, initiator, request_headers, request_url,
    responses_payload, CopilotService,
};
use copilot_runtime::retry::{
    http_error_message, is_auth_error, is_retryable_error, is_retryable_http_error, Failure,
    NativeRequest, TryAction, TryEvent,
};
use copilot_runtime::sse::{
    sse_data_line, stop_reason, stream_error_text, stream_timeout_text, ResponsesUsage, SseParser,
};

fn shown(events: &[StreamEvent]) -> Vec<String> {
    events.iter().map(|event| format!("{event:?}")).collect()
}

fn failure(text: &str) -> Failure {
    Failure {
        chain: text.to_string(),
        message: text.to_string(),
        transient: false,
    }
}

#[test]
fn text_chunks_become_deltas() {
    let mut parser = SseParser::new();
    let events = parser.feed(
        b"data: {\"choices\":[{\"delta\":{\"content\":\"Hel\"}}]}\r\n\r\n: ping\n\ndata:{\"choices\":[{\"delta\":{\"content\":\"lo\"}}]}\n",
    );
    assert_eq!(
        shown(&events),
        vec!["TextDelta(\"Hel\")", "TextDelta(\"lo\")"]
    );
    let events = parser.feed(b"data: {\"choices\":[{\"delta\":{},\"finish_reason\":\"stop\"}]}\n");
    assert_eq!(
        shown(&events),
        vec!["MessageEnd { stop_reason: Some(\"end_turn\") }"]
    );
    let events = parser.feed(
        b"data: {\"choices\":[],\"usage\":{\"prompt_tokens\":12,\"completion_tokens\":3}}\n\ndata: [DONE]\nleft over\n",
    );
    assert_eq!(
        shown(&events),
        vec![
            "TokenUsage { input_tokens: Some(12), output_tokens: Some(3), cache_read_input_tokens: None, cache_creation_input_tokens: None }",
            "MessageEnd { stop_reason: None }",
        ]
    );
    assert_eq!(parser.recorded_usage(), Some((12, 3)));
    assert!(parser.feed(b"data: {\"choices\":[{\"delta\":{\"content\":\"x\"}}]}\n").is_empty());
    assert!(parser.finish().is_empty());
}

#[test]
fn tool_calls_open_and_close() {
    let mut parser = SseParser::new();
    let events = parser.feed_text(
        "data: {\"choices\":[{\"delta\":{\"tool_calls\":[{\"id\":\"c1\",\"function\":{\"name\":\"bash\",\"arguments\":\"\"}}]}}]}\n",
    );
    assert_eq!(
        shown(&events),
        vec![
            "ToolUseStart { id: \"c1\", name: \"bash\" }",
            "ToolInputDelta(\"\")",
        ]
    );
    let events = parser.feed_text(
        "data: {\"choices\":[{\"delta\":{\"tool_calls\":[{\"function\":{\"arguments\":\"{}\"}},{\"id\":\"c2\"}]}}]}\n",
    );
    assert_eq!(
        shown(&events),
        vec![
            "ToolInputDelta(\"{}\")",
            "ToolUseEnd",
            "ToolUseStart { id: \"c2\", name: \"\" }",
        ]
    );
    let events = parser.feed_text(
        "data: {\"choices\":[{\"delta\":{\"content\":\"\"},\"finish_reason\":\"tool_calls\"}]}\n",
    );
    assert_eq!(
        shown(&events),
        vec![
            "ToolUseEnd",
            "MessageEnd { stop_reason: Some(\"tool_use\") }",
        ]
    );
}

#[test]
fn what_says_nothing_is_passed_over() {
    let mut parser = SseParser::new();
    assert!(parser
        .feed_text("event: x\ndata: not json\ndata: {\"choices\":[{\"finish_reason\":\"stop\"}]}\ndata: []\n")
        .is_empty());
    assert_eq!(parser.recorded_usage(), None);
    assert_eq!(
        shown(&parser.finish()),
        vec!["MessageEnd { stop_reason: None }"]
    );
}

#[test]
fn usage_that_is_null_is_zero() {
    let mut parser = SseParser::new();
    let _ = parser.feed_text(
        "data: {\"usage\":{\"prompt_tokens\":5,\"completion_tokens\":-1}}\n",
    );
    assert_eq!(parser.state.input_tokens, 5);
    assert_eq!(parser.state.output_tokens, 0);
    let _ = parser.feed_text("data: {\"usage\":null}\n");
    assert_eq!(parser.state.input_tokens, 0);
    assert_eq!(
        shown(&parser.feed_text("data:  [DONE] \n")),
        vec!["MessageEnd { stop_reason: None }"]
    );
    assert_eq!(parser.recorded_usage(), Some((0, 0)));
}

#[test]
fn pieces_of_a_stream_do_not_matter() {
    let text = "data: {\"choices\":[{\"delta\":{\"content\":\"\u{e9}1\"}}]}\r\n\ndata: {\"choices\":[{\"delta\":{\"content\":\"b\"},\"finish_reason\":\"length\"}]}\ndata: [DONE]\nrest";
    let whole = shown(&SseParser::new().feed_text(text));
    assert_eq!(whole.len(), 4);
    let chars: Vec<char> = text.chars().collect();
    for cut in 0..=chars.len() {
        let first: String = chars[..cut].iter().collect();
        let second: String = chars[cut..].iter().collect();
        let mut parser = SseParser::new();
        let mut events = parser.feed_text(&first);
        events.extend(parser.feed_text(&second));
        assert_eq!(shown(&events), whole);
    }
}

#[test]
fn bytes_that_are_no_text_are_replaced() {
    let mut parser = SseParser::new();
    let events = parser.feed(b"data: {\"choices\":[{\"delta\":{\"content\":\"a\xff\"}}]}\n");
    assert_eq!(shown(&events), vec!["TextDelta(\"a\u{fffd}\")"]);
}

#[test]
fn data_lines_lose_one_space() {
    assert_eq!(sse_data_line("data: x"), Some("x"));
    assert_eq!(sse_data_line("data:  x"), Some(" x"));
    assert_eq!(sse_data_line("data:x"), Some("x"));
    assert_eq!(sse_data_line("data:"), Some(""));
    assert_eq!(sse_data_line("id: 1"), None);
}

#[test]
fn finish_reasons_are_named_alike() {
    assert_eq!(stop_reason("stop"), "end_turn");
    assert_eq!(stop_reason("tool_calls"), "tool_use");
    assert_eq!(stop_reason("length"), "max_tokens");
    assert_eq!(stop_reason("content_filter"), "content_filter");
    assert_eq!(stream_error_text("reset"), "Stream error: reset");
    assert_eq!(
        stream_timeout_text(300),
        "Stream read timeout: no data received for 300 seconds"
    );
}

#[test]
fn responses_usage_is_the_last_one() {
    let mut usage = ResponsesUsage::new();
    usage.note(&StreamEvent::TokenUsage {
        input_tokens: Some(4),
        output_tokens: Some(5),
        cache_read_input_tokens: None,
        cache_creation_input_tokens: None,
    });
    usage.note(&StreamEvent::ToolUseEnd);
    assert_eq!(
        usage,
        ResponsesUsage {
            input_tokens: 4,
            output_tokens: 5
        }
    );
    usage.note(&StreamEvent::TokenUsage {
        input_tokens: Some(1),
        output_tokens: None,
        cache_read_input_tokens: None,
        cache_creation_input_tokens: None,
    });
    assert_eq!(
        usage,
        ResponsesUsage {
            input_tokens: 1,
            output_tokens: 0
        }
    );
}

fn respond(request: &mut NativeRequest, status: u16) -> (bool, TryAction) {
    let event = TryEvent::Responded { status };
    assert!(request.accepts(&event));
    let step = request.step("m", event);
    (step.drop_token, step.action)
}

#[test]
fn a_request_that_succeeds_is_streamed() {
    let mut request = NativeRequest::new();
    assert!(matches!(
        request.step("gpt-5.4", TryEvent::TokenReady).action,
        TryAction::Send {
            fresh_client: false
        }
    ));
    let step = request.step("gpt-5.4", TryEvent::Responded { status: 200 });
    assert_eq!(
        shown(&step.events),
        vec!["ConnectionType { connection: \"copilot-api (gpt-5.4)\" }"]
    );
    assert!(matches!(step.action, TryAction::ReadStream));
    assert!(matches!(
        request.step("gpt-5.4", TryEvent::StreamEnded).action,
        TryAction::Finish
    ));
    assert!(!request.accepts(&TryEvent::TokenReady));
}

#[test]
fn server_faults_are_tried_three_times() {
    let mut request = NativeRequest::new();
    for attempt in 0..3u32 {
        assert!(matches!(
            request.step("m", TryEvent::TokenReady).action,
            TryAction::Send { fresh_client } if fresh_client == (attempt > 0)
        ));
        assert!(matches!(respond(&mut request, 503), (false, TryAction::ReadBody)));
        let step = request.step(
            "m",
            TryEvent::BodyRead {
                body: "busy".to_string(),
                transient: false,
            },
        );
        if attempt < 2 {
            assert_eq!(
                shown(&step.events),
                vec![format!("Retrying {{ attempt: {}, max: 3 }}", attempt + 2)]
            );
            assert!(matches!(step.action, TryAction::Retry { attempt: next } if next == attempt + 1));
        } else {
            assert!(matches!(
                step.action,
                TryAction::Fail { message }
                    if message == "Copilot API error (HTTP 503 Service Unavailable): busy"
            ));
        }
    }
}

#[test]
fn other_errors_are_not_tried_again() {
    let mut request = NativeRequest::new();
    let _ = request.step("m", TryEvent::TokenReady);
    let _ = respond(&mut request, 404);
    let step = request.step(
        "m",
        TryEvent::BodyRead {
            body: "nope".to_string(),
            transient: false,
        },
    );
    assert!(matches!(
        step.action,
        TryAction::Fail { message } if message == "Copilot API error (HTTP 404 Not Found): nope"
    ));
    let mut request = NativeRequest::new();
    let step = request.step(
        "m",
        TryEvent::TokenFailed {
            message: "no token".to_string(),
        },
    );
    assert!(matches!(step.action, TryAction::Fail { message } if message == "no token"));
}

#[test]
fn a_refused_token_is_replaced_once() {
    let mut request = NativeRequest::new();
    let _ = request.step("m", TryEvent::TokenReady);
    assert!(matches!(
        respond(&mut request, 401),
        (true, TryAction::Retry { attempt: 1 })
    ));
    let _ = request.step("m", TryEvent::TokenReady);
    assert!(matches!(respond(&mut request, 403), (false, TryAction::ReadBody)));
    let step = request.step(
        "m",
        TryEvent::BodyRead {
            body: String::new(),
            transient: false,
        },
    );
    assert!(matches!(
        step.action,
        TryAction::Fail { message } if message == "Copilot API error (HTTP 403 Forbidden): "
    ));
}

#[test]
fn a_token_refused_at_the_last_try_ends_the_request() {
    let mut request = NativeRequest::new();
    for _ in 0..2 {
        let _ = request.step("m", TryEvent::TokenReady);
        let step = request.step("m", TryEvent::SendFailed(failure("Rate Limit reached")));
        assert!(matches!(step.action, TryAction::Retry { .. }));
    }
    let _ = request.step("m", TryEvent::TokenReady);
    let (dropped, action) = respond(&mut request, 401);
    assert!(dropped);
    assert!(matches!(
        action,
        TryAction::Fail { message }
            if message == "Copilot: failed after 3 retries: Copilot auth error (HTTP 401 Unauthorized)"
    ));
}

#[test]
fn requests_that_cannot_be_sent_say_so() {
    let mut request = NativeRequest::new();
    let _ = request.step("m", TryEvent::TokenReady);
    let step = request.step("m", TryEvent::SendFailed(failure("bad certificate")));
    assert!(matches!(
        step.action,
        TryAction::Fail { message } if message == "Copilot API request failed: bad certificate"
    ));
    let mut request = NativeRequest::new();
    let _ = request.step("m", TryEvent::TokenReady);
    let step = request.step(
        "m",
        TryEvent::SendFailed(Failure {
            chain: "reset".to_string(),
            message: "reset".to_string(),
            transient: true,
        }),
    );
    assert!(matches!(step.action, TryAction::Retry { attempt: 1 }));
}

#[test]
fn partial_output_is_rolled_back() {
    for saw_output in [false, true] {
        let mut request = NativeRequest::new();
        let _ = request.step("m", TryEvent::TokenReady);
        let _ = respond(&mut request, 200);
        let step = request.step(
            "m",
            TryEvent::StreamFailed {
                failure: failure("Stream read timeout: no data received for 9 seconds"),
                saw_output,
            },
        );
        let mut expected = vec!["Retrying { attempt: 2, max: 3 }".to_string()];
        if saw_output {
            expected.insert(0, "RetryRollback { attempt: 2, max: 3 }".to_string());
        }
        assert_eq!(shown(&step.events), expected);
        assert!(matches!(step.action, TryAction::Retry { attempt: 1 }));
    }
    let mut request = NativeRequest::new();
    let _ = request.step("m", TryEvent::TokenReady);
    let _ = respond(&mut request, 200);
    let step = request.step(
        "m",
        TryEvent::StreamFailed {
            failure: failure("Stream receiver dropped"),
            saw_output: true,
        },
    );
    assert!(matches!(
        step.action,
        TryAction::Fail { message } if message == "Stream receiver dropped"
    ));
}

#[test]
fn retryable_errors_are_known_by_their_text() {
    for text in [
        "500 internal server error",
        "502 bad gateway",
        "503 service unavailable",
        "504 gateway timeout",
        "overloaded",
        "429 too many requests",
        "rate limit",
        "rate_limit",
        "stream error",
        "stream read timeout",
    ] {
        assert!(is_retryable_error(&format!("x {text} y"), false), "{text}");
    }
    assert!(!is_retryable_error("400 bad request", false));
    assert!(is_retryable_error("400 bad request", true));
    for status in [429, 500, 502, 503, 504] {
        assert!(is_retryable_http_error(status, "", false), "{status}");
    }
    assert!(!is_retryable_http_error(400, "", false));
    assert!(is_retryable_http_error(400, "Model OVERLOADED", false));
    assert!(is_auth_error(401));
    assert!(is_auth_error(403));
    assert!(!is_auth_error(400));
    assert_eq!(
        http_error_message(500, "x"),
        "Copilot API error (HTTP 500 Internal Server Error): x"
    );
    assert_eq!(
        http_error_message(799, "x"),
        "Copilot API error (HTTP 799 <unknown status code>): x"
    );
}

#[test]
fn json_is_read() {
    let value = parse_json("{\"a\":[1,\"x\",null,true,2.5],\"b\":{\"c\":18446744073709551615}}").unwrap();
    let items = value.array_at("a").unwrap();
    assert_eq!(items.len(), 5);
    assert_eq!(items[0].as_u64(), Some(1));
    assert_eq!(items[1].as_str(), Some("x"));
    assert!(matches!(items[2], Json::Null));
    assert!(matches!(items[3], Json::Bool(true)));
    assert!(matches!(&items[4], Json::Number { text, unsigned: None } if text == "2.5"));
    assert_eq!(value.get("b").unwrap().u64_at("c"), Some(u64::MAX));
    assert!(value.get("z").is_none());
    assert!(value.str_at("a").is_none());
    assert!(items[0].get("a").is_none());
    assert!(parse_json("{").is_none());
}

#[test]
fn json_that_is_set_is_found() {
    let mut value = Json::Object(vec![("a".to_string(), Json::Null)]);
    value.set("b", Json::text("x"));
    value.set("a", Json::number(7));
    assert_eq!(value.u64_at("a"), Some(7));
    assert_eq!(value.str_at("b"), Some("x"));
    assert!(matches!(&value, Json::Object(entries) if entries.len() == 2));
    assert!(matches!(value.get("a"), Some(Json::Number { text, .. }) if text == "7"));
}

#[test]
fn chat_requests_are_complete() {
    let body = chat_payload(
        "gpt-5.4",
        vec![Json::text("m")],
        vec![Json::text("t")],
        Some("high"),
    );
    assert_eq!(body.str_at("model"), Some("gpt-5.4"));
    assert_eq!(body.array_at("messages").unwrap().len(), 1);
    assert!(matches!(body.get("stream"), Some(Json::Bool(true))));
    assert_eq!(body.u64_at("max_completion_tokens"), Some(32_768));
    assert!(body.get("max_tokens").is_none());
    assert_eq!(body.str_at("reasoning_effort"), Some("high"));
    assert_eq!(body.array_at("tools").unwrap().len(), 1);

    let body = chat_payload("sonnet-4.6", Vec::new(), Vec::new(), None);
    assert_eq!(body.u64_at("max_tokens"), Some(32_768));
    assert!(body.get("reasoning_effort").is_none());
    assert!(body.get("tools").is_none());

    let mut body = Json::Object(Vec::new());
    add_max_token_parameter(&mut body, "gpt-5", 9);
    assert_eq!(body.u64_at("max_completion_tokens"), Some(9));
}

#[test]
fn responses_requests_are_complete() {
    let body = responses_payload("gpt-5.6-sol", vec![Json::Null], Vec::new(), "be brief");
    assert_eq!(body.str_at("model"), Some("gpt-5.6-sol"));
    assert_eq!(body.array_at("input").unwrap().len(), 1);
    assert_eq!(body.u64_at("max_output_tokens"), Some(32_768));
    assert_eq!(body.str_at("instructions"), Some("be brief"));
    assert!(body.get("tools").is_none());
    let body = responses_payload("gpt-5.6-sol", Vec::new(), vec![Json::Null], "");
    assert!(body.get("instructions").is_none());
    assert_eq!(body.array_at("tools").unwrap().len(), 1);
}

#[test]
fn requests_say_who_is_asking() {
    let service = CopilotService {
        api_base: "https://api.example".to_string(),
        editor_version: "editor/1".to_string(),
        editor_plugin_version: "plugin/2".to_string(),
        integration_id: "chat".to_string(),
        api_version: "2026-01-01".to_string(),
    };
    assert_eq!(
        request_url(&service, true),
        "https://api.example/responses"
    );
    assert_eq!(
        request_url(&service, false),
        "https://api.example/chat/completions"
    );
    assert_eq!(initiator(true), "user");
    assert_eq!(initiator(false), "agent");
    let headers = request_headers(&service, "tok", false, "r1", "s1", "m1");
    let shown: Vec<String> = headers
        .iter()
        .map(|(name, value)| format!("{name}: {value}"))
        .collect();
    assert_eq!(
        shown,
        vec![
            "Authorization: Bearer tok",
            "Editor-Version: editor/1",
            "Editor-Plugin-Version: plugin/2",
            "Copilot-Integration-Id: chat",
            "Content-Type: application/json",
            "X-Initiator: agent",
            "X-Request-Id: r1",
            "Openai-Intent: conversation-panel",
            "Openai-Organization: github-copilot",
            "X-GitHub-Api-Version: 2026-01-01",
            "Vscode-Sessionid: s1",
            "Vscode-Machineid: m1",
        ]
    );
}

#[test]
fn cuts_between_characters_do_not_matter() {
    let text = "data: {\"choices\":[{\"delta\":{\"content\":\"\u{e9}\u{1f600}\"}}]}\r\n\r\n: ping\ndata: no json\ndata: {\"choices\":[{\"delta\":{\"content\":7}},{\"delta\":{\"content\":\"b\"}}]}\ndata: [DONE]\ndata: {\"choices\":[{\"delta\":{\"content\":\"late\"}}]}\n";
    let whole = SseParser::new().feed(text.as_bytes());
    assert_eq!(
        shown(&whole),
        vec![
            "TextDelta(\"\u{e9}\u{1f600}\")",
            "TextDelta(\"b\")",
            "MessageEnd { stop_reason: None }",
        ]
    );
    let ends: Vec<usize> = text
        .char_indices()
        .map(|(start, _)| start)
        .chain([text.len()])
        .collect();
    for first in &ends {
        for second in ends.iter().filter(|end| *end >= first).step_by(7) {
            let mut parser = SseParser::new();
            let mut events = parser.feed(&text.as_bytes()[..*first]);
            events.extend(parser.feed(&text.as_bytes()[*first..*second]));
            events.extend(parser.feed(&text.as_bytes()[*second..]));
            assert_eq!(shown(&events), shown(&whole));
        }
    }
}

#[test]
fn text_deltas_make_up_the_contents() {
    let contents = ["Hel", "", "lo", " \u{fc}ber"];
    let mut parser = SseParser::new();
    let mut text = String::new();
    for content in contents {
        let line =
            format!("data: {{\"choices\":[{{\"delta\":{{\"content\":\"{content}\"}}}}]}}\n\n");
        for event in parser.feed(line.as_bytes()) {
            if let StreamEvent::TextDelta(delta) = event {
                text.push_str(&delta);
            }
        }
    }
    for event in parser.feed(b"data: {\"choices\":[{\"delta\":{\"content\":\"no line feed\"}}]}") {
        panic!("an open line gave {event:?}");
    }
    assert_eq!(text, contents.concat());
}

#[test]
fn values_are_held_as_they_are() {
    let text = "{\"a\":[1,-2,null,true,\"x\"],\"b\":{}}";
    let value: serde_json::Value = serde_json::from_str(text).unwrap();
    let json = json_from_value(&value);
    assert_eq!(format!("{json:?}"), format!("{:?}", parse_json(text).unwrap()));
    let items = json.array_at("a").unwrap();
    assert_eq!(items.len(), 5);
    assert!(matches!(&items[0], Json::Number { text, unsigned: Some(1) } if text == "1"));
    assert!(matches!(&items[1], Json::Number { text, unsigned: None } if text == "-2"));
    assert!(matches!(&items[2], Json::Null));
    assert!(matches!(&items[3], Json::Bool(true)));
    assert!(matches!(&items[4], Json::Text(text) if text == "x"));
    assert!(matches!(json.get("b"), Some(Json::Object(entries)) if entries.is_empty()));
}

#[test]
fn server_faults_are_retried_whatever_their_text() {
    for body in ["", "plain", "\u{dc}BERLASTET \u{3a3}", "\u{1f600}"] {
        for (status, words) in [
            (429, "429 Too Many Requests"),
            (500, "500 Internal Server Error"),
            (502, "502 Bad Gateway"),
            (503, "503 Service Unavailable"),
            (504, "504 Gateway Timeout"),
        ] {
            assert!(is_retryable_http_error(status, body, false));
            assert_eq!(
                http_error_message(status, body),
                format!("Copilot API error (HTTP {words}): {body}")
            );
        }
    }
    assert!(!is_retryable_http_error(404, "\u{dc}berall", false));
    assert_eq!(
        http_error_message(401, "no"),
        "Copilot API error (HTTP 401 Unauthorized): no"
    );
    assert_eq!(
        http_error_message(403, "no"),
        "Copilot API error (HTTP 403 Forbidden): no"
    );
}
