//! Requests to the providers, and what their replies mean.

use acty::anthropic::{
    anthropic_assistant_message, anthropic_messages, anthropic_tool_message, anthropic_tools,
    generate_anthropic, parse_anthropic_response, AnthropicContentBlock, AnthropicResponse,
};
use acty::config::{AuthConfig, LlmConfig, LlmProtocol, Temperature};
use acty::json::{self, array, field, object, set_field, Json};
use acty::llm::{
    describe_failure, finish_anthropic, finish_openai, report_response, LlmActor, LlmStep,
    TransportFailure, TransportStage,
};
use acty::messages::{AgentMsg, LlmMsg};
use acty::openai::{
    generate_openai, openai_assistant_message, openai_messages, openai_tools, openai_visible_text,
    parse_openai_response, parse_openai_tool_call, read_openai_response, read_openai_tool_call,
    OpenAiChoice, OpenAiError, OpenAiFunctionCall, OpenAiMessage, OpenAiResponse, OpenAiToolCall,
};
use acty::protocol::{
    AssistantTurn, ConversationItem, LlmRequest, LlmResponse, ToolCall, ToolCallId, ToolOutput,
    ToolSchema, ToolTurn,
};
use acty::provider::{
    apply_temperature, format_error_chain, join_url, message_of, with_auth, Auth, AuthStep,
    ProviderHeader, RequestAuth,
};

fn render(json: &Json) -> String {
    match json {
        Json::Bool(value) => value.to_string(),
        Json::Number(value) => value.to_string(),
        Json::Text(text) => format!("{text:?}"),
        Json::Array(items) => {
            let items: Vec<String> = items.iter().map(render).collect();
            format!("[{}]", items.join(","))
        }
        Json::Object(fields) => {
            let fields: Vec<String> =
                fields.iter().map(|(name, value)| format!("{name:?}:{}", render(value))).collect();
            format!("{{{}}}", fields.join(","))
        }
        Json::Document(value) => value.to_string(),
    }
}

fn document(text: &str) -> serde_json::Value {
    serde_json::from_str(text).unwrap()
}

fn parsed(text: &str) -> Result<serde_json::Value, String> {
    serde_json::from_str(text).map_err(|error: serde_json::Error| error.to_string())
}

fn config(protocol: LlmProtocol, temperature: Temperature) -> LlmConfig {
    LlmConfig {
        provider_label: "Local".to_string(),
        protocol,
        base_url: "https://host/v1//".to_string(),
        auth: AuthConfig::NoAuth,
        model: "m-1".to_string(),
        max_tokens: 512,
        temperature,
    }
}

fn call(id: &str) -> ToolCall {
    ToolCall {
        id: ToolCallId(id.to_string()),
        name: "Read".to_string(),
        arguments: document("{ \"path\": \"a\" }"),
    }
}

fn tool_turn(id: &str, output: ToolOutput) -> ToolTurn {
    ToolTurn { call_id: ToolCallId(id.to_string()), output }
}

fn request() -> LlmRequest {
    LlmRequest {
        system_prompt: "sys".to_string(),
        conversation: vec![
            ConversationItem::User("hi".to_string()),
            ConversationItem::Assistant(AssistantTurn {
                text: "ok".to_string(),
                tool_calls: vec![call("c1")],
            }),
            ConversationItem::Tool(tool_turn("c1", ToolOutput::Error("gone".to_string()))),
        ],
        tools: vec![ToolSchema {
            name: "Read".to_string(),
            description: "Reads.".to_string(),
            parameters: object(vec![field("type", json::text("object"))]),
        }],
    }
}

fn rendered(items: &Vec<Json>) -> Vec<String> {
    items.iter().map(render).collect()
}

#[test]
fn urls_are_joined_whatever_the_slashes() {
    assert_eq!(join_url("https://host/v1", "messages"), "https://host/v1/messages");
    assert_eq!(join_url("https://host/v1/", "messages"), "https://host/v1/messages");
    assert_eq!(join_url("https://host/v1///", "messages"), "https://host/v1/messages");
    assert_eq!(join_url("//", "messages"), "/messages");
    assert_eq!(join_url("", "messages"), "/messages");
    assert_eq!(join_url("http://h/v1", "/messages"), "http://h/v1/messages");
    assert_eq!(join_url("http://h/v1//", "//chat/completions"), "http://h/v1/chat/completions");
    assert_eq!(join_url("http://h/v1", "chat/"), "http://h/v1/chat/");
    assert_eq!(join_url("http://h", "/"), "http://h/");
}

#[test]
fn going_without_credentials_is_a_choice() {
    assert!(matches!(Auth::from_config(&AuthConfig::NoAuth), AuthStep::Ready(Auth::NoAuth)));
}

#[test]
fn key_is_read_from_its_variable() {
    let config = AuthConfig::ApiKeyEnv { name: "MY_KEY".to_string() };
    let pending = match Auth::from_config(&config) {
        AuthStep::ReadVariable(pending) => pending,
        other => panic!("{other:?}"),
    };
    assert_eq!(pending.name, "MY_KEY");
    match pending.resume(Ok("word".to_string())) {
        Ok(Auth::ApiKey(key)) => assert_eq!(key, "word"),
        other => panic!("{other:?}"),
    }
}

#[test]
fn missing_key_names_its_variable() {
    let config = AuthConfig::ApiKeyEnv { name: "MY_KEY".to_string() };
    let pending = match Auth::from_config(&config) {
        AuthStep::ReadVariable(pending) => pending,
        other => panic!("{other:?}"),
    };
    let error = pending.resume(Err("environment variable not found".to_string())).unwrap_err();
    assert_eq!(
        error.chain(),
        vec!["reading API key env var MY_KEY", "environment variable not found"]
    );
}

#[test]
fn keys_travel_the_way_of_the_provider() {
    let key = Auth::ApiKey("word".to_string());
    assert!(matches!(with_auth(&Auth::NoAuth, ProviderHeader::OpenAi), RequestAuth::Anonymous));
    assert!(matches!(with_auth(&Auth::NoAuth, ProviderHeader::Anthropic), RequestAuth::Anonymous));
    match with_auth(&key, ProviderHeader::OpenAi) {
        RequestAuth::Bearer(token) => assert_eq!(token, "word"),
        other => panic!("{other:?}"),
    }
    match with_auth(&key, ProviderHeader::Anthropic) {
        RequestAuth::Header { name, value } => {
            assert_eq!(name, "x-api-key");
            assert_eq!(value, "word");
        }
        other => panic!("{other:?}"),
    }
}

#[test]
fn temperature_is_added_only_where_it_is_fixed() {
    let mut body = vec![field("model", json::text("m"))];
    apply_temperature(&mut body, &Temperature::ProviderDefault);
    assert_eq!(body.len(), 1);
    apply_temperature(&mut body, &Temperature::Fixed { value: document("0.5") });
    assert_eq!(render(&object(body)), "{\"model\":\"m\",\"temperature\":0.5}");
}

#[test]
fn setting_a_field_replaces_an_old_value() {
    let mut fields = vec![field("a", Json::Number(1)), field("b", Json::Bool(true))];
    set_field(&mut fields, "a", Json::Number(2));
    set_field(&mut fields, "c", json::text("x"));
    assert_eq!(render(&object(fields)), "{\"a\":2,\"b\":true,\"c\":\"x\"}");
}

#[test]
fn copied_documents_are_the_same() {
    let json = array(vec![
        message_of("user", Json::Document(document("[1, null]"))),
        Json::Bool(false),
        Json::Number(7),
    ]);
    assert_eq!(render(&json.clone()), render(&json));
    assert_eq!(render(&json), "[{\"role\":\"user\",\"content\":[1,null]},false,7]");
}

#[test]
fn openai_messages_start_with_the_system_prompt() {
    assert_eq!(
        rendered(&openai_messages(&request())),
        vec![
            "{\"role\":\"system\",\"content\":\"sys\"}",
            "{\"role\":\"user\",\"content\":\"hi\"}",
            "{\"role\":\"assistant\",\"content\":\"ok\",\"tool_calls\":[{\"id\":\"c1\",\
             \"type\":\"function\",\"function\":{\"name\":\"Read\",\
             \"arguments\":\"{\\\"path\\\":\\\"a\\\"}\"}}]}",
            "{\"role\":\"tool\",\"tool_call_id\":\"c1\",\"content\":\"Error: gone\"}"
        ]
    );
}

#[test]
fn openai_answer_without_calls_has_no_call_field() {
    let turn = AssistantTurn { text: "hello".to_string(), tool_calls: vec![] };
    assert_eq!(
        render(&openai_assistant_message(&turn)),
        "{\"role\":\"assistant\",\"content\":\"hello\"}"
    );
}

#[test]
fn openai_tools_are_functions() {
    assert_eq!(
        rendered(&openai_tools(&request().tools)),
        vec![
            "{\"type\":\"function\",\"function\":{\"name\":\"Read\",\"description\":\"Reads.\",\
             \"parameters\":{\"type\":\"object\"}}}"
        ]
    );
}

#[test]
fn openai_request_is_a_chat_completion() {
    let config = config(LlmProtocol::Openai, Temperature::Fixed { value: document("0.25") });
    let mut asked = request();
    asked.conversation.truncate(1);
    let http = generate_openai(&config, &Auth::ApiKey("word".to_string()), &asked);
    assert_eq!(http.url, "https://host/v1/chat/completions");
    assert!(matches!(http.auth, RequestAuth::Bearer(_)));
    assert!(http.headers.is_empty());
    assert_eq!(
        render(&http.body),
        "{\"model\":\"m-1\",\"max_tokens\":512,\"messages\":[{\"role\":\"system\",\
         \"content\":\"sys\"},{\"role\":\"user\",\"content\":\"hi\"}],\"tools\":[{\"type\":\
         \"function\",\"function\":{\"name\":\"Read\",\"description\":\"Reads.\",\"parameters\":\
         {\"type\":\"object\"}}}],\"tool_choice\":\"auto\",\"temperature\":0.25}"
    );
}

#[test]
fn anthropic_messages_are_blocks() {
    assert_eq!(
        rendered(&anthropic_messages(&request().conversation)),
        vec![
            "{\"role\":\"user\",\"content\":[{\"type\":\"text\",\"text\":\"hi\"}]}",
            "{\"role\":\"assistant\",\"content\":[{\"type\":\"text\",\"text\":\"ok\"},\
             {\"type\":\"tool_use\",\"id\":\"c1\",\"name\":\"Read\",\"input\":{\"path\":\"a\"}}]}",
            "{\"role\":\"user\",\"content\":[{\"type\":\"tool_result\",\"tool_use_id\":\"c1\",\
             \"content\":\"Error: gone\",\"is_error\":true}]}"
        ]
    );
}

#[test]
fn anthropic_answer_without_text_has_no_text_block() {
    let turn = AssistantTurn { text: String::new(), tool_calls: vec![call("c1"), call("c2")] };
    assert_eq!(
        render(&anthropic_assistant_message(&turn)),
        "{\"role\":\"assistant\",\"content\":[{\"type\":\"tool_use\",\"id\":\"c1\",\"name\":\
         \"Read\",\"input\":{\"path\":\"a\"}},{\"type\":\"tool_use\",\"id\":\"c2\",\"name\":\
         \"Read\",\"input\":{\"path\":\"a\"}}]}"
    );
    let silent = AssistantTurn { text: String::new(), tool_calls: vec![] };
    assert_eq!(
        render(&anthropic_assistant_message(&silent)),
        "{\"role\":\"assistant\",\"content\":[]}"
    );
}

#[test]
fn anthropic_result_says_whether_it_failed() {
    assert_eq!(
        render(&anthropic_tool_message(&tool_turn("c1", ToolOutput::Text("fine".to_string())))),
        "{\"role\":\"user\",\"content\":[{\"type\":\"tool_result\",\"tool_use_id\":\"c1\",\
         \"content\":\"fine\",\"is_error\":false}]}"
    );
}

#[test]
fn anthropic_tools_have_an_input_schema() {
    assert_eq!(
        rendered(&anthropic_tools(&request().tools)),
        vec![
            "{\"name\":\"Read\",\"description\":\"Reads.\",\"input_schema\":{\"type\":\"object\"}}"
        ]
    );
}

#[test]
fn anthropic_request_is_a_message() {
    let config = config(LlmProtocol::Anthropic, Temperature::ProviderDefault);
    let mut asked = request();
    asked.conversation.truncate(1);
    let http = generate_anthropic(&config, &Auth::ApiKey("word".to_string()), &asked);
    assert_eq!(http.url, "https://host/v1/messages");
    assert!(matches!(http.auth, RequestAuth::Header { .. }));
    assert_eq!(
        http.headers,
        vec![("anthropic-version".to_string(), "2023-06-01".to_string())]
    );
    assert_eq!(
        render(&http.body),
        "{\"model\":\"m-1\",\"max_tokens\":512,\"system\":\"sys\",\"messages\":[{\"role\":\
         \"user\",\"content\":[{\"type\":\"text\",\"text\":\"hi\"}]}],\"tools\":[{\"name\":\
         \"Read\",\"description\":\"Reads.\",\"input_schema\":{\"type\":\"object\"}}]}"
    );
}

#[test]
fn anthropic_temperature_comes_last() {
    let config =
        config(LlmProtocol::Anthropic, Temperature::Fixed { value: document("1") });
    let http = generate_anthropic(&config, &Auth::NoAuth, &request());
    assert!(render(&http.body).ends_with(",\"temperature\":1}"));
    assert!(matches!(http.auth, RequestAuth::Anonymous));
}

#[test]
fn actor_follows_the_configured_protocol() {
    let openai = LlmActor {
        config: config(LlmProtocol::Openai, Temperature::ProviderDefault),
        auth: Auth::NoAuth,
    };
    let anthropic = LlmActor {
        config: config(LlmProtocol::Anthropic, Temperature::ProviderDefault),
        auth: Auth::NoAuth,
    };
    match openai.handle(LlmMsg::Generate { request: request() }) {
        LlmStep::PostOpenAi(http) => assert_eq!(http.url, "https://host/v1/chat/completions"),
        other => panic!("{other:?}"),
    }
    match anthropic.handle(LlmMsg::Generate { request: request() }) {
        LlmStep::PostAnthropic(http) => assert_eq!(http.url, "https://host/v1/messages"),
        other => panic!("{other:?}"),
    }
    assert!(matches!(openai.handle(LlmMsg::Shutdown), LlmStep::Stop));
}

fn openai_call(id: &str, name: &str, arguments: &str) -> OpenAiToolCall {
    OpenAiToolCall {
        id: id.to_string(),
        function: OpenAiFunctionCall { name: name.to_string(), arguments: arguments.to_string() },
    }
}

fn openai_response(
    content: Option<&str>,
    tool_calls: Option<Vec<OpenAiToolCall>>,
    finish_reason: Option<&str>,
) -> OpenAiResponse {
    OpenAiResponse {
        choices: vec![OpenAiChoice {
            message: OpenAiMessage { content: content.map(str::to_string), tool_calls },
            finish_reason: finish_reason.map(str::to_string),
        }],
    }
}

fn told(message: AgentMsg) -> Result<LlmResponse, String> {
    match message {
        AgentMsg::LlmFinished(result) => result,
        other => panic!("{other:?}"),
    }
}

#[test]
fn openai_calls_carry_parsed_arguments() {
    let call = parse_openai_tool_call(openai_call("c1", "Read", "{ \"path\": [1, 2] }")).unwrap();
    assert_eq!(call.id.0, "c1");
    assert_eq!(call.name, "Read");
    assert_eq!(call.arguments, document("{\"path\":[1,2]}"));
    assert_eq!(call.arguments.to_string(), "{\"path\":[1,2]}");
}

#[test]
fn openai_calls_with_bad_arguments_are_refused() {
    let error = parse_openai_tool_call(openai_call("c1", "Read", "{")).unwrap_err();
    let cause = serde_json::from_str::<serde_json::Value>("{").unwrap_err().to_string();
    assert_eq!(
        error.chain(),
        vec!["decoding arguments for OpenAI tool call Read".to_string(), cause]
    );
}

#[test]
fn openai_call_is_read_from_its_parsed_arguments() {
    let read = |name, outcome| read_openai_tool_call(openai_call("c1", name, "ignored"), outcome);
    assert_eq!(read("Read", parsed("{\"n\":1}")).unwrap().arguments, document("{\"n\":1}"));
    match read("Edit", Err("nonsense".to_string())) {
        Err(OpenAiError::Arguments { name, cause }) => {
            assert_eq!(name, "Edit");
            assert_eq!(cause, "nonsense");
        }
        other => panic!("{other:?}"),
    }
}

#[test]
fn openai_response_without_choices_is_refused() {
    let error = parse_openai_response(OpenAiResponse { choices: vec![] }).unwrap_err();
    assert_eq!(error.chain(), vec!["provider returned no choices"]);
}

#[test]
fn openai_response_is_its_first_choice() {
    let mut response = openai_response(
        Some("hello"),
        Some(vec![openai_call("c1", "Read", "{}"), openai_call("c2", "Bash", "[]")]),
        Some("tool_calls"),
    );
    response.choices.push(openai_response(Some("other"), None, None).choices.remove(0));
    let parsed = parse_openai_response(response).unwrap();
    assert_eq!(parsed.text, "hello");
    let ids: Vec<&str> = parsed.tool_calls.iter().map(|call| call.id.0.as_str()).collect();
    assert_eq!(ids, vec!["c1", "c2"]);
    assert_eq!(parsed.finish_reason.as_label(), "tool_calls");
}

#[test]
fn openai_response_may_lack_everything() {
    let parsed = parse_openai_response(openai_response(None, None, None)).unwrap();
    assert_eq!(parsed.text, "");
    assert!(parsed.tool_calls.is_empty());
    assert_eq!(parsed.finish_reason.as_label(), "missing");
    assert_eq!(openai_visible_text(None), "");
    assert_eq!(openai_visible_text(Some("x".to_string())), "x");
}

#[test]
fn first_bad_call_fails_the_response() {
    let calls = vec![
        openai_call("c1", "Read", "{}"),
        openai_call("c2", "Write", "bad"),
        openai_call("c3", "Edit", "worse"),
    ];
    match parse_openai_response(openai_response(None, Some(calls), None)) {
        Err(OpenAiError::Arguments { name, .. }) => assert_eq!(name, "Write"),
        other => panic!("{other:?}"),
    }
}

#[test]
fn response_is_read_from_its_parsed_arguments() {
    let response = openai_response(Some("x"), Some(vec![openai_call("c1", "Read", "?")]), None);
    let read = read_openai_response(response, vec![parsed("true")]).unwrap();
    assert_eq!(read.tool_calls[0].arguments, document("true"));
    let response = openai_response(Some("x"), Some(vec![openai_call("c1", "Read", "{}")]), None);
    assert!(read_openai_response(response, vec![parsed("tru")]).is_err());
}

#[test]
fn decoded_call_is_sent_back_as_it_came() {
    let call = parse_openai_tool_call(openai_call("c7", "Bash", "{\"command\":\"ls\"}")).unwrap();
    let turn = AssistantTurn { text: String::new(), tool_calls: vec![call] };
    assert_eq!(
        render(&openai_assistant_message(&turn)),
        "{\"role\":\"assistant\",\"content\":\"\",\"tool_calls\":[{\"id\":\"c7\",\"type\":\
         \"function\",\"function\":{\"name\":\"Bash\",\"arguments\":\
         \"{\\\"command\\\":\\\"ls\\\"}\"}}]}"
    );
}

fn text_block(text: &str) -> AnthropicContentBlock {
    AnthropicContentBlock::Text { text: text.to_string() }
}

fn tool_use(id: &str) -> AnthropicContentBlock {
    AnthropicContentBlock::ToolUse {
        id: id.to_string(),
        name: "Read".to_string(),
        input: document("{\"path\":\"a\"}"),
    }
}

#[test]
fn anthropic_blocks_are_gathered_in_order() {
    let parsed = parse_anthropic_response(AnthropicResponse {
        content: vec![
            text_block("one "),
            tool_use("c1"),
            AnthropicContentBlock::Other,
            text_block("two"),
            tool_use("c2"),
        ],
        stop_reason: Some("tool_use".to_string()),
    });
    assert_eq!(parsed.text, "one two");
    let ids: Vec<&str> = parsed.tool_calls.iter().map(|call| call.id.0.as_str()).collect();
    assert_eq!(ids, vec!["c1", "c2"]);
    assert_eq!(parsed.tool_calls[0].name, "Read");
    assert_eq!(parsed.tool_calls[0].arguments, document("{\"path\":\"a\"}"));
    assert_eq!(parsed.finish_reason.as_label(), "tool_use");
}

#[test]
fn anthropic_answers_add_up() {
    let read = |content| {
        parse_anthropic_response(AnthropicResponse { content, stop_reason: None })
    };
    let first = read(vec![text_block("a"), tool_use("c1")]);
    let second = read(vec![tool_use("c2"), text_block("b")]);
    let both = read(vec![text_block("a"), tool_use("c1"), tool_use("c2"), text_block("b")]);
    assert_eq!(both.text, first.text + &second.text);
    assert_eq!(both.tool_calls.len(), first.tool_calls.len() + second.tool_calls.len());
    assert_eq!(both.tool_calls[1].id, second.tool_calls[0].id);
}

#[test]
fn anthropic_response_may_be_empty() {
    let parsed = parse_anthropic_response(AnthropicResponse {
        content: vec![AnthropicContentBlock::Other],
        stop_reason: None,
    });
    assert_eq!(parsed.text, "");
    assert!(parsed.tool_calls.is_empty());
    assert_eq!(parsed.finish_reason.as_label(), "missing");
}

fn failure(stage: TransportStage) -> TransportFailure {
    TransportFailure { stage, causes: vec!["outer".to_string(), "inner".to_string()] }
}

#[test]
fn failures_are_named_after_their_stage() {
    let described = |protocol, stage| describe_failure(protocol, failure(stage));
    assert_eq!(
        described(LlmProtocol::Openai, TransportStage::Sending),
        "sending OpenAI-compatible request: outer: inner"
    );
    assert_eq!(
        described(LlmProtocol::Openai, TransportStage::Status),
        "OpenAI-compatible provider returned an error: outer: inner"
    );
    assert_eq!(
        described(LlmProtocol::Openai, TransportStage::Decoding),
        "decoding OpenAI-compatible response: outer: inner"
    );
    assert_eq!(
        described(LlmProtocol::Anthropic, TransportStage::Sending),
        "sending Anthropic request: outer: inner"
    );
    assert_eq!(
        described(LlmProtocol::Anthropic, TransportStage::Status),
        "Anthropic provider returned an error: outer: inner"
    );
    assert_eq!(
        described(LlmProtocol::Anthropic, TransportStage::Decoding),
        "decoding Anthropic response: outer: inner"
    );
}

#[test]
fn error_chain_is_joined_with_colons() {
    assert_eq!(
        format_error_chain(&vec!["a".to_string(), "b".to_string(), "c".to_string()]),
        "a: b: c"
    );
}

#[test]
fn agent_is_told_what_the_openai_provider_replied() {
    let reply = Ok(openai_response(Some("hi"), None, None));
    assert_eq!(told(finish_openai(reply)).unwrap().text, "hi");
    let empty = Ok(OpenAiResponse { choices: vec![] });
    assert_eq!(told(finish_openai(empty)).unwrap_err(), "provider returned no choices");
    let bad = openai_response(None, Some(vec![openai_call("c1", "Read", "")]), None);
    let cause = serde_json::from_str::<serde_json::Value>("").unwrap_err().to_string();
    assert_eq!(
        told(finish_openai(Ok(bad))).unwrap_err(),
        format!("decoding arguments for OpenAI tool call Read: {cause}")
    );
    assert_eq!(
        told(finish_openai(Err(failure(TransportStage::Sending)))).unwrap_err(),
        "sending OpenAI-compatible request: outer: inner"
    );
}

#[test]
fn agent_is_told_what_the_anthropic_provider_replied() {
    let reply = Ok(AnthropicResponse { content: vec![text_block("hi")], stop_reason: None });
    assert_eq!(told(finish_anthropic(reply)).unwrap().text, "hi");
    assert_eq!(
        told(finish_anthropic(Err(failure(TransportStage::Decoding)))).unwrap_err(),
        "decoding Anthropic response: outer: inner"
    );
}

#[test]
fn outcomes_are_reported_to_the_agent() {
    assert_eq!(
        told(report_response(Err(OpenAiError::NoChoices))).unwrap_err(),
        "provider returned no choices"
    );
}
