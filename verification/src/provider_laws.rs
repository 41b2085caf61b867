//! What goes over the wire, and what comes back: requests and replies in full.
//!
//! Every statement here is in terms of the configuration, the conversation and the reply, and of
//! the JSON document that stands for them.

use crate::anthropic::{self, AnthropicContentBlock, AnthropicResponse};
use crate::config::{LlmConfig, LlmProtocol, Temperature};
use crate::json::{self, JsonView};
use crate::llm::{self, LlmStepView, TransportStage};
use crate::messages::AgentMsgView;
use crate::openai::{self, OpenAiErrorView, OpenAiResponse};
use crate::protocol::{
    AssistantTurnView, ConversationItemView, LlmRequestView, LlmResponseView, ToolCallView,
    ToolOutputView, ToolSchemaView, ToolTurnView,
};
use crate::provider::{self, ProviderHeader, RequestAuthView};
use crate::text;
use vstd::prelude::*;
use vstd::string::*;

verus! {

/// A run of slashes.
pub open spec fn slashes(count: nat) -> Seq<char> {
    Seq::new(count, |i: int| '/')
}

/// Slashes at the end of a base are dropped, all of them and nothing else.
proof fn lemma_trailing_slashes(base: Seq<char>, count: nat)
    requires
        base.len() == 0 || base.last() != '/',
    ensures
        provider::without_trailing_slashes(base + slashes(count)) == base,
    decreases count,
{
    let whole = base + slashes(count);
    if count == 0 {
        assert(whole =~= base);
    } else {
        assert(whole.drop_last() =~= base + slashes((count - 1) as nat));
        lemma_trailing_slashes(base, (count - 1) as nat);
    }
}

/// Slashes at the start of an endpoint are dropped, all of them and nothing else.
proof fn lemma_leading_slashes(endpoint: Seq<char>, count: nat)
    requires
        endpoint.len() == 0 || endpoint[0] != '/',
    ensures
        provider::without_leading_slashes(slashes(count) + endpoint) == endpoint,
    decreases count,
{
    let whole = slashes(count) + endpoint;
    if count == 0 {
        assert(whole =~= endpoint);
    } else {
        assert(whole.drop_first() =~= slashes((count - 1) as nat) + endpoint);
        lemma_leading_slashes(endpoint, (count - 1) as nat);
    }
}

/// Whatever slashes stand between a base and an endpoint, the URL has one there, and otherwise
/// the base and the endpoint as they are.
pub proof fn lemma_one_slash_joins_base_and_endpoint(
    base: Seq<char>,
    endpoint: Seq<char>,
    after: nat,
    before: nat,
)
    requires
        base.len() == 0 || base.last() != '/',
        endpoint.len() == 0 || endpoint[0] != '/',
    ensures
        provider::endpoint_url(base + slashes(after), slashes(before) + endpoint) == base.push('/')
            + endpoint,
{
    reveal_strlit("/");
    lemma_trailing_slashes(base, after);
    lemma_leading_slashes(endpoint, before);
    assert(base + "/"@ + endpoint =~= base.push('/') + endpoint);
}

/// A key travels as a bearer token to an OpenAI-compatible provider and in a header of its own to
/// Anthropic, unchanged; without a key nothing travels.
pub proof fn lemma_keys_travel_unchanged(key: Seq<char>, header: ProviderHeader)
    ensures
        provider::carried(None, header) is Anonymous,
        provider::carried(Some(key), ProviderHeader::OpenAi) == RequestAuthView::Bearer(key),
        provider::carried(Some(key), ProviderHeader::Anthropic) == (RequestAuthView::Header {
            name: "x-api-key"@,
            value: key,
        }),
{
}

/// A key that cannot be read is reported with the variable that should hold it, then the cause.
pub proof fn lemma_missing_key_is_named(name: Seq<char>, cause: Seq<char>)
    ensures
        provider::auth_error_chain(name, cause).len() == 2,
        provider::auth_error_chain(name, cause)[0] == "reading API key env var "@ + name,
        provider::auth_error_chain(name, cause)[1] == cause,
{
}

/// Setting a field leaves every other field as it is and where it is; the field itself keeps its
/// place where it was there, and comes last where it was not.
pub proof fn lemma_setting_a_field_spares_the_others(
    fields: Seq<(Seq<char>, JsonView)>,
    name: Seq<char>,
    value: JsonView,
    at: int,
)
    requires
        0 <= at <= fields.len(),
        at < fields.len() ==> fields[at].0 == name,
        forall|i: int| 0 <= i < at ==> (#[trigger] fields[i]).0 != name,
    ensures
        at == fields.len() ==> json::with_field(fields, name, value) == fields.push((name, value)),
        at < fields.len() ==> json::with_field(fields, name, value) == fields.update(
            at,
            (name, value),
        ),
    decreases fields.len(),
{
    if fields.len() == 0 {
        assert(json::with_field(fields, name, value) =~= fields.push((name, value)));
    } else if at == 0 {
        assert(json::with_field(fields, name, value) =~= fields.update(0, (name, value)));
    } else {
        assert(fields[0].0 != name);
        let rest = fields.drop_first();
        assert forall|i: int| 0 <= i < at - 1 implies (#[trigger] rest[i]).0 != name by {
            assert(fields[i + 1].0 != name);
        }
        lemma_setting_a_field_spares_the_others(rest, name, value, at - 1);
        let set = json::with_field(fields, name, value);
        if at == fields.len() {
            assert(set =~= fields.push((name, value)));
        } else {
            assert(set =~= fields.update(at, (name, value)));
        }
    }
}

/// An OpenAI-compatible request asks the configured model at the chat completions endpoint. Its
/// messages are the system prompt and after it one message for every item of the conversation, in
/// order; its tools are all tools of the request, in order; the temperature is there exactly where
/// it is fixed.
pub proof fn lemma_openai_request_in_full(
    config: LlmConfig,
    key: Option<Seq<char>>,
    request: LlmRequestView,
)
    ensures
        ({
            let http = openai::openai_request(config, key, request);
            let fields = http.body->Object_0;
            let messages = fields[2].1->Array_0;
            let tools = fields[3].1->Array_0;
            &&& http.url == provider::endpoint_url(config.base_url@, "chat/completions"@)
            &&& http.headers.len() == 0
            &&& key is None ==> http.auth is Anonymous
            &&& key matches Some(word) ==> http.auth == RequestAuthView::Bearer(word)
            &&& http.body is Object
            &&& fields[0] == ("model"@, JsonView::Text(config.model@))
            &&& fields[1] == ("max_tokens"@, JsonView::Number(config.max_tokens as nat))
            &&& fields[2].0 == "messages"@ && fields[2].1 is Array
            &&& messages.len() == request.conversation.len() + 1
            &&& messages[0] == JsonView::Object(
                seq![
                    ("role"@, JsonView::Text("system"@)),
                    ("content"@, JsonView::Text(request.system_prompt)),
                ],
            )
            &&& forall|i: int|
                0 <= i < request.conversation.len() ==> #[trigger] messages[i + 1]
                    == openai::openai_message(request.conversation[i])
            &&& fields[3].0 == "tools"@ && fields[3].1 is Array
            &&& tools.len() == request.tools.len()
            &&& forall|i: int|
                0 <= i < request.tools.len() ==> #[trigger] tools[i] == openai::openai_tool(
                    request.tools[i],
                )
            &&& fields[4] == ("tool_choice"@, JsonView::Text("auto"@))
            &&& match config.temperature {
                Temperature::ProviderDefault => fields.len() == 5,
                Temperature::Fixed { value } => fields.len() == 6 && fields[5] == (
                    "temperature"@,
                    JsonView::Document(value),
                ),
            }
        }),
{
    openai::lemma_openai_temperature(config, key, request);
    let http = openai::openai_request(config, key, request);
    let messages = http.body->Object_0[2].1->Array_0;
    assert(messages[0] == provider::message("system"@, JsonView::Text(request.system_prompt)));
}

/// What the user wrote is sent as it is, in the role of the user.
pub proof fn lemma_openai_user_message(text: Seq<char>)
    ensures
        openai::openai_message(ConversationItemView::User(text)) == JsonView::Object(
            seq![("role"@, JsonView::Text("user"@)), ("content"@, JsonView::Text(text))],
        ),
{
}

/// What the model answered is sent as it is, in the role of the assistant: its text, and, where it
/// asked for calls, each of them in order with its identifier, its name and its arguments as text.
pub proof fn lemma_openai_assistant_message(turn: AssistantTurnView)
    ensures
        ({
            let sent = openai::openai_message(ConversationItemView::Assistant(turn));
            let fields = sent->Object_0;
            let calls = fields[2].1->Array_0;
            &&& sent is Object
            &&& fields[0] == ("role"@, JsonView::Text("assistant"@))
            &&& fields[1] == ("content"@, JsonView::Text(turn.text))
            &&& fields.len() == if turn.tool_calls.len() == 0 {
                2int
            } else {
                3int
            }
            &&& turn.tool_calls.len() > 0 ==> {
                &&& fields[2].0 == "tool_calls"@ && fields[2].1 is Array
                &&& calls.len() == turn.tool_calls.len()
                &&& forall|k: int|
                    0 <= k < calls.len() ==> #[trigger] calls[k] == JsonView::Object(
                        seq![
                            ("id"@, JsonView::Text(turn.tool_calls[k].id)),
                            ("type"@, JsonView::Text("function"@)),
                            (
                                "function"@,
                                JsonView::Object(
                                    seq![
                                        ("name"@, JsonView::Text(turn.tool_calls[k].name)),
                                        (
                                            "arguments"@,
                                            JsonView::Text(
                                                json::document_text(turn.tool_calls[k].arguments),
                                            ),
                                        ),
                                    ],
                                ),
                            ),
                        ],
                    )
            }
        }),
{
}

/// A tool result is sent in the role of the tool, under the identifier of its call: the text
/// itself where the call succeeded, and the message after a prefix only where it failed.
pub proof fn lemma_openai_tool_result(turn: ToolTurnView)
    ensures
        ({
            let sent = openai::openai_message(ConversationItemView::Tool(turn));
            let fields = sent->Object_0;
            &&& sent is Object
            &&& fields.len() == 3
            &&& fields[0] == ("role"@, JsonView::Text("tool"@))
            &&& fields[1] == ("tool_call_id"@, JsonView::Text(turn.call_id))
            &&& turn.output matches ToolOutputView::Text(said) ==> fields[2] == (
                "content"@,
                JsonView::Text(said),
            )
            &&& turn.output matches ToolOutputView::Error(said) ==> fields[2] == (
                "content"@,
                JsonView::Text("Error: "@ + said),
            )
        }),
{
}

/// In the messages of a request, the result at place `i` of the conversation is sent at place
/// `i + 1`, unchanged where it is a success.
pub proof fn lemma_openai_results_in_place(request: LlmRequestView, i: int)
    requires
        0 <= i < request.conversation.len(),
        request.conversation[i] is Tool,
    ensures
        ({
            let output = request.conversation[i]->Tool_0.output;
            let content = openai::openai_transcript(request)[i + 1]->Object_0[2];
            &&& output matches ToolOutputView::Text(said) ==> content == (
                "content"@,
                JsonView::Text(said),
            )
            &&& output matches ToolOutputView::Error(said) ==> content == (
                "content"@,
                JsonView::Text("Error: "@ + said),
            )
        }),
{
    assert(openai::openai_transcript(request)[i + 1] == openai::openai_message(
        request.conversation[i],
    ));
    lemma_openai_tool_result(request.conversation[i]->Tool_0);
}

/// A tool is declared with its name, its description and the schema of its arguments.
pub proof fn lemma_tools_are_declared_in_full(tool: ToolSchemaView)
    ensures
        openai::openai_tool(tool) == JsonView::Object(
            seq![
                ("type"@, JsonView::Text("function"@)),
                (
                    "function"@,
                    JsonView::Object(
                        seq![
                            ("name"@, JsonView::Text(tool.name)),
                            ("description"@, JsonView::Text(tool.description)),
                            ("parameters"@, tool.parameters),
                        ],
                    ),
                ),
            ],
        ),
        anthropic::anthropic_tool(tool) == JsonView::Object(
            seq![
                ("name"@, JsonView::Text(tool.name)),
                ("description"@, JsonView::Text(tool.description)),
                ("input_schema"@, tool.parameters),
            ],
        ),
{
}

/// An Anthropic request asks the configured model at the messages endpoint, with the system prompt
/// in a field of its own. Its messages are one for every item of the conversation, in order; its
/// tools are all tools of the request, in order; the temperature is there exactly where it is
/// fixed; and the version of the protocol is named.
pub proof fn lemma_anthropic_request_in_full(
    config: LlmConfig,
    key: Option<Seq<char>>,
    request: LlmRequestView,
)
    ensures
        ({
            let http = anthropic::anthropic_request(config, key, request);
            let fields = http.body->Object_0;
            let messages = fields[3].1->Array_0;
            let tools = fields[4].1->Array_0;
            &&& http.url == provider::endpoint_url(config.base_url@, "messages"@)
            &&& http.headers.len() == 1
            &&& http.headers[0] == ("anthropic-version"@, "2023-06-01"@)
            &&& key is None ==> http.auth is Anonymous
            &&& key matches Some(word) ==> http.auth == (RequestAuthView::Header {
                name: "x-api-key"@,
                value: word,
            })
            &&& http.body is Object
            &&& fields[0] == ("model"@, JsonView::Text(config.model@))
            &&& fields[1] == ("max_tokens"@, JsonView::Number(config.max_tokens as nat))
            &&& fields[2] == ("system"@, JsonView::Text(request.system_prompt))
            &&& fields[3].0 == "messages"@ && fields[3].1 is Array
            &&& messages.len() == request.conversation.len()
            &&& forall|i: int|
                0 <= i < request.conversation.len() ==> #[trigger] messages[i]
                    == anthropic::anthropic_message(request.conversation[i])
            &&& fields[4].0 == "tools"@ && fields[4].1 is Array
            &&& tools.len() == request.tools.len()
            &&& forall|i: int|
                0 <= i < request.tools.len() ==> #[trigger] tools[i] == anthropic::anthropic_tool(
                    request.tools[i],
                )
            &&& match config.temperature {
                Temperature::ProviderDefault => fields.len() == 5,
                Temperature::Fixed { value } => fields.len() == 6 && fields[5] == (
                    "temperature"@,
                    JsonView::Document(value),
                ),
            }
        }),
{
    anthropic::lemma_anthropic_temperature(config, key, request);
}

/// A conversation that goes on only adds messages: those of the items so far stay as they are and
/// where they are, in the words of either provider.
pub proof fn lemma_longer_conversations_only_add_messages(
    config: LlmConfig,
    key: Option<Seq<char>>,
    request: LlmRequestView,
    more: Seq<ConversationItemView>,
)
    ensures
        ({
            let longer = LlmRequestView { conversation: request.conversation + more, ..request };
            let sent = openai::openai_request(config, key, request).body->Object_0;
            let later = openai::openai_request(config, key, longer).body->Object_0;
            &&& sent[2].1->Array_0.is_prefix_of(later[2].1->Array_0)
            &&& later[2].1->Array_0.len() == sent[2].1->Array_0.len() + more.len()
            &&& sent[3] == later[3]
        }),
        ({
            let longer = LlmRequestView { conversation: request.conversation + more, ..request };
            let sent = anthropic::anthropic_request(config, key, request).body->Object_0;
            let later = anthropic::anthropic_request(config, key, longer).body->Object_0;
            &&& sent[3].1->Array_0.is_prefix_of(later[3].1->Array_0)
            &&& later[3].1->Array_0.len() == sent[3].1->Array_0.len() + more.len()
            &&& sent[4] == later[4]
        }),
{
    let longer = LlmRequestView { conversation: request.conversation + more, ..request };
    openai::lemma_openai_temperature(config, key, request);
    openai::lemma_openai_temperature(config, key, longer);
    anthropic::lemma_anthropic_temperature(config, key, request);
    anthropic::lemma_anthropic_temperature(config, key, longer);
    let sent = openai::openai_request(config, key, request).body->Object_0[2].1->Array_0;
    let later = openai::openai_request(config, key, longer).body->Object_0[2].1->Array_0;
    assert(sent =~= later.take(sent.len() as int));
    let first = anthropic::anthropic_request(config, key, request).body->Object_0[3].1->Array_0;
    let second = anthropic::anthropic_request(config, key, longer).body->Object_0[3].1->Array_0;
    assert(first =~= second.take(first.len() as int));
}

/// What the user wrote is sent as one block of text, in the role of the user.
pub proof fn lemma_anthropic_user_message(text: Seq<char>)
    ensures
        anthropic::anthropic_message(ConversationItemView::User(text)) == JsonView::Object(
            seq![
                ("role"@, JsonView::Text("user"@)),
                (
                    "content"@,
                    JsonView::Array(
                        seq![
                            JsonView::Object(
                                seq![
                                    ("type"@, JsonView::Text("text"@)),
                                    ("text"@, JsonView::Text(text)),
                                ],
                            ),
                        ],
                    ),
                ),
            ],
        ),
{
}

/// What the model answered is sent in the role of the assistant: its text as one block, unless it
/// is empty, and after it a block for each call, in order, with its identifier, its name and its
/// arguments.
pub proof fn lemma_anthropic_assistant_message(turn: AssistantTurnView)
    ensures
        ({
            let sent = anthropic::anthropic_message(ConversationItemView::Assistant(turn));
            let fields = sent->Object_0;
            let blocks = fields[1].1->Array_0;
            let first = if turn.text.len() == 0 {
                0int
            } else {
                1int
            };
            &&& sent is Object
            &&& fields.len() == 2
            &&& fields[0] == ("role"@, JsonView::Text("assistant"@))
            &&& fields[1].0 == "content"@ && fields[1].1 is Array
            &&& blocks.len() == first + turn.tool_calls.len()
            &&& turn.text.len() > 0 ==> blocks[0] == JsonView::Object(
                seq![
                    ("type"@, JsonView::Text("text"@)),
                    ("text"@, JsonView::Text(turn.text)),
                ],
            )
            &&& forall|k: int|
                0 <= k < turn.tool_calls.len() ==> blocks[first + k] == JsonView::Object(
                    seq![
                        ("type"@, JsonView::Text("tool_use"@)),
                        ("id"@, JsonView::Text((#[trigger] turn.tool_calls[k]).id)),
                        ("name"@, JsonView::Text(turn.tool_calls[k].name)),
                        ("input"@, JsonView::Document(turn.tool_calls[k].arguments)),
                    ],
                )
        }),
{
}

/// A tool result is sent as one block in the role of the user, under the identifier of its call:
/// the text itself where the call succeeded, and the message after a prefix, marked as an error,
/// only where it failed.
pub proof fn lemma_anthropic_tool_result(turn: ToolTurnView)
    ensures
        ({
            let sent = anthropic::anthropic_message(ConversationItemView::Tool(turn));
            let fields = sent->Object_0;
            let blocks = fields[1].1->Array_0;
            let result = blocks[0]->Object_0;
            &&& sent is Object
            &&& fields.len() == 2
            &&& fields[0] == ("role"@, JsonView::Text("user"@))
            &&& fields[1].0 == "content"@ && fields[1].1 is Array
            &&& blocks.len() == 1 && blocks[0] is Object
            &&& result.len() == 4
            &&& result[0] == ("type"@, JsonView::Text("tool_result"@))
            &&& result[1] == ("tool_use_id"@, JsonView::Text(turn.call_id))
            &&& turn.output matches ToolOutputView::Text(said) ==> result[2] == (
                "content"@,
                JsonView::Text(said),
            ) && result[3] == ("is_error"@, JsonView::Bool(false))
            &&& turn.output matches ToolOutputView::Error(said) ==> result[2] == (
                "content"@,
                JsonView::Text("Error: "@ + said),
            ) && result[3] == ("is_error"@, JsonView::Bool(true))
        }),
{
}

/// The provider actor posts to the provider of the configured protocol, and posts that provider's
/// request.
pub proof fn lemma_requests_go_to_the_configured_provider(
    config: LlmConfig,
    key: Option<Seq<char>>,
    request: LlmRequestView,
)
    ensures
        config.protocol is Openai ==> llm::posted(config, key, request) == LlmStepView::PostOpenAi(
            openai::openai_request(config, key, request),
        ),
        config.protocol is Anthropic ==> llm::posted(config, key, request)
            == LlmStepView::PostAnthropic(anthropic::anthropic_request(config, key, request)),
{
}

/// A usable response is read as its first answer: the text, empty where there is none, every tool
/// call in order with its identifier, its name and the document that its arguments were parsed
/// into, and the finish reason where one was given.
pub proof fn lemma_openai_response_in_full(
    response: OpenAiResponse,
    parsed: Seq<Result<serde_json::Value, Seq<char>>>,
)
    requires
        response.choices@.len() > 0,
        parsed.len() == openai::response_calls(response).len(),
        forall|i: int| 0 <= i < parsed.len() ==> #[trigger] parsed[i] is Ok,
    ensures
        ({
            let choice = response.choices@[0];
            let read = openai::read_response(response, parsed);
            &&& read matches Ok(said)
            &&& choice.message.content is None ==> said.text.len() == 0
            &&& choice.message.content matches Some(content) ==> said.text == content@
            &&& choice.finish_reason is None ==> said.finish_reason is None
            &&& choice.finish_reason matches Some(word) ==> said.finish_reason == Some(word@)
            &&& choice.message.tool_calls is None ==> said.tool_calls.len() == 0
            &&& choice.message.tool_calls matches Some(calls) ==> {
                &&& said.tool_calls.len() == calls@.len()
                &&& forall|i: int|
                    0 <= i < calls@.len() ==> {
                        &&& (#[trigger] said.tool_calls[i]).id == calls@[i].id@
                        &&& said.tool_calls[i].name == calls@[i].function.name@
                        &&& parsed[i] == Ok::<serde_json::Value, Seq<char>>(
                            said.tool_calls[i].arguments,
                        )
                    }
            }
        }),
{
    let calls = openai::response_calls(response);
    let outcomes = openai::read_calls(calls, parsed);
    assert forall|i: int| 0 <= i < outcomes.len() implies outcomes[i] is Ok by {
        assert(parsed[i] is Ok);
    }
    openai::lemma_first_error_wins(outcomes, outcomes.len() as int);
    let said = openai::read_response(response, parsed)->Ok_0;
    assert forall|i: int| 0 <= i < calls.len() implies (#[trigger] said.tool_calls[i]).id
        == calls[i].id@ && said.tool_calls[i].name == calls[i].function.name@ && parsed[i] == Ok::<
        serde_json::Value,
        Seq<char>,
    >(said.tool_calls[i].arguments) by {
        assert(parsed[i] is Ok);
        assert(outcomes[i] is Ok);
    }
}

/// A response without an answer is refused as such. One whose call at place `bad` has arguments
/// that do not parse, the first such call, is refused with the name of that call and the cause.
pub proof fn lemma_openai_refusals(
    response: OpenAiResponse,
    parsed: Seq<Result<serde_json::Value, Seq<char>>>,
    bad: int,
)
    ensures
        response.choices@.len() == 0 ==> openai::read_response(response, parsed) == Err::<
            LlmResponseView,
            OpenAiErrorView,
        >(OpenAiErrorView::NoChoices),
        response.choices@.len() > 0 && 0 <= bad < openai::response_calls(response).len()
            && parsed.len() == openai::response_calls(response).len() && parsed[bad] is Err && (
        forall|i: int| 0 <= i < bad ==> #[trigger] parsed[i] is Ok) ==> openai::read_response(
            response,
            parsed,
        ) == Err::<LlmResponseView, OpenAiErrorView>(
            (OpenAiErrorView::Arguments {
                name: openai::response_calls(response)[bad].function.name@,
                cause: parsed[bad]->Err_0,
            }),
        ),
{
    let calls = openai::response_calls(response);
    if response.choices@.len() > 0 && 0 <= bad < calls.len() && parsed.len() == calls.len()
        && parsed[bad] is Err && (forall|i: int| 0 <= i < bad ==> #[trigger] parsed[i] is Ok) {
        let outcomes = openai::read_calls(calls, parsed);
        assert forall|i: int| 0 <= i < bad implies outcomes[i] is Ok by {
            assert(parsed[i] is Ok);
        }
        assert(outcomes[bad] is Err);
        openai::lemma_first_error_wins(outcomes, bad);
    }
}

/// The calls of a response are those of its first answer, and the text that is parsed for each is
/// the text of its arguments.
pub proof fn lemma_arguments_are_parsed_call_by_call(response: OpenAiResponse)
    ensures
        response.choices@.len() == 0 ==> openai::response_calls(response).len() == 0,
        response.choices@.len() > 0 ==> match response.choices@[0].message.tool_calls {
            None => openai::response_calls(response).len() == 0,
            Some(calls) => openai::response_calls(response) == calls@,
        },
        openai::parsed_arguments(openai::response_calls(response)).len() == openai::response_calls(
            response,
        ).len(),
        forall|i: int|
            0 <= i < openai::response_calls(response).len() ==> #[trigger] openai::parsed_arguments(
                openai::response_calls(response),
            )[i] == json::parsed_document(
                openai::response_calls(response)[i].function.arguments@,
            ),
{
}

/// One call is read with the identifier and the name that it came with, or refused by its name.
pub proof fn lemma_one_call_is_read(
    call: openai::OpenAiToolCall,
    arguments: serde_json::Value,
    cause: Seq<char>,
)
    ensures
        openai::read_call(call, Ok(arguments)) == Ok::<ToolCallView, OpenAiErrorView>(
            (ToolCallView { id: call.id@, name: call.function.name@, arguments }),
        ),
        openai::read_call(call, Err(cause)) == Err::<ToolCallView, OpenAiErrorView>(
            (OpenAiErrorView::Arguments { name: call.function.name@, cause }),
        ),
{
}

/// What the user reads of a response that makes no sense, and what the agent is told of one that
/// does.
pub proof fn lemma_outcomes_are_told(
    response: LlmResponseView,
    name: Seq<char>,
    cause: Seq<char>,
)
    ensures
        llm::told(Ok(response)) == AgentMsgView::LlmFinished(Ok(response)),
        llm::told(Err(OpenAiErrorView::NoChoices)) == AgentMsgView::LlmFinished(
            Err("provider returned no choices"@),
        ),
        llm::told(Err(OpenAiErrorView::Arguments { name, cause })) == AgentMsgView::LlmFinished(
            Err("decoding arguments for OpenAI tool call "@ + name + ": "@ + cause),
        ),
{
    reveal_with_fuel(text::joined, 3);
    let chain = OpenAiErrorView::Arguments { name, cause }.chain();
    assert(chain.drop_last() =~= seq!["decoding arguments for OpenAI tool call "@ + name]);
    assert(OpenAiErrorView::NoChoices.chain()[0] == "provider returned no choices"@);
}

/// What the user reads of a request that brought no response: what was being done with which
/// provider, and after it every cause, outermost first.
pub proof fn lemma_failures_are_described(
    protocol: LlmProtocol,
    stage: TransportStage,
    causes: Seq<Seq<char>>,
    cause: Seq<char>,
)
    ensures
        ({
            let doing = match protocol {
                LlmProtocol::Openai => match stage {
                    TransportStage::Sending => "sending OpenAI-compatible request"@,
                    TransportStage::Status => "OpenAI-compatible provider returned an error"@,
                    TransportStage::Decoding => "decoding OpenAI-compatible response"@,
                },
                LlmProtocol::Anthropic => match stage {
                    TransportStage::Sending => "sending Anthropic request"@,
                    TransportStage::Status => "Anthropic provider returned an error"@,
                    TransportStage::Decoding => "decoding Anthropic response"@,
                },
            };
            llm::failure_text(protocol, stage, Seq::empty()) == doing
        }),
        llm::failure_text(protocol, stage, causes.push(cause)) == llm::failure_text(
            protocol,
            stage,
            causes,
        ) + ": "@ + cause,
{
    let context = seq![llm::failure_context(protocol, stage)];
    assert((context + Seq::<Seq<char>>::empty()) =~= context);
    let all = context + causes.push(cause);
    assert(all.drop_last() =~= context + causes);
    assert(all.last() == cause);
}

/// One block of an Anthropic answer adds its text, or its call, or nothing.
pub proof fn lemma_anthropic_blocks_one_by_one(
    blocks: Seq<AnthropicContentBlock>,
    block: AnthropicContentBlock,
)
    ensures
        anthropic::visible_text(Seq::empty()).len() == 0,
        anthropic::requested_calls(Seq::empty()).len() == 0,
        match block {
            AnthropicContentBlock::Text { text } => {
                &&& anthropic::visible_text(blocks.push(block)) == anthropic::visible_text(blocks)
                    + text@
                &&& anthropic::requested_calls(blocks.push(block)) == anthropic::requested_calls(
                    blocks,
                )
            },
            AnthropicContentBlock::ToolUse { id, name, input } => {
                &&& anthropic::visible_text(blocks.push(block)) == anthropic::visible_text(blocks)
                &&& anthropic::requested_calls(blocks.push(block)) == anthropic::requested_calls(
                    blocks,
                ).push(ToolCallView { id: id@, name: name@, arguments: input })
            },
            AnthropicContentBlock::Other => {
                &&& anthropic::visible_text(blocks.push(block)) == anthropic::visible_text(blocks)
                &&& anthropic::requested_calls(blocks.push(block)) == anthropic::requested_calls(
                    blocks,
                )
            },
        },
{
    assert(blocks.push(block).drop_last() =~= blocks);
    assert(anthropic::visible_text(blocks) + Seq::<char>::empty() =~= anthropic::visible_text(
        blocks,
    ));
}

/// An Anthropic response is read as its text, its calls, and its stop reason where one was given.
pub proof fn lemma_anthropic_response_in_full(response: AnthropicResponse)
    ensures
        ({
            let read = anthropic::read_response(response);
            &&& read.text == anthropic::visible_text(response.content@)
            &&& read.tool_calls == anthropic::requested_calls(response.content@)
            &&& response.stop_reason is None ==> read.finish_reason is None
            &&& response.stop_reason matches Some(word) ==> read.finish_reason == Some(word@)
        }),
{
}

/// An Anthropic answer of one text and then calls goes back to the provider block for block.
pub proof fn lemma_anthropic_answer_comes_back(
    words: String,
    uses: Seq<AnthropicContentBlock>,
    k: int,
)
    requires
        words@.len() > 0,
        forall|i: int| 0 <= i < uses.len() ==> #[trigger] uses[i] is ToolUse,
        0 <= k < uses.len(),
    ensures
        ({
            let blocks = seq![AnthropicContentBlock::Text { text: words }] + uses;
            let turn = AssistantTurnView {
                text: anthropic::visible_text(blocks),
                tool_calls: anthropic::requested_calls(blocks),
            };
            let sent = anthropic::assistant_blocks(turn);
            &&& sent.len() == blocks.len()
            &&& sent[0]->Object_0[1] == ("text"@, JsonView::Text(words@))
            &&& sent[k + 1]->Object_0[1] == ("id"@, JsonView::Text(uses[k]->id@))
            &&& sent[k + 1]->Object_0[2] == ("name"@, JsonView::Text(uses[k]->name@))
            &&& sent[k + 1]->Object_0[3] == ("input"@, JsonView::Document(uses[k]->input))
        }),
{
    let said = AnthropicContentBlock::Text { text: words };
    let blocks = seq![said] + uses;
    lemma_tool_uses_are_calls(uses);
    anthropic::lemma_answers_add_up(seq![said], uses);
    lemma_anthropic_blocks_one_by_one(Seq::empty(), said);
    assert(Seq::<AnthropicContentBlock>::empty().push(said) =~= seq![said]);
    assert(anthropic::visible_text(Seq::<AnthropicContentBlock>::empty()) + words@ =~= words@);
    assert(anthropic::visible_text(blocks) =~= words@);
    assert(anthropic::requested_calls(blocks) =~= anthropic::requested_calls(uses));
    assert(uses[k] is ToolUse);
}

/// Blocks that all ask for calls ask for one call each and hold no text.
proof fn lemma_tool_uses_are_calls(uses: Seq<AnthropicContentBlock>)
    requires
        forall|i: int| 0 <= i < uses.len() ==> #[trigger] uses[i] is ToolUse,
    ensures
        anthropic::visible_text(uses).len() == 0,
        anthropic::requested_calls(uses).len() == uses.len(),
        forall|i: int|
            0 <= i < uses.len() ==> #[trigger] anthropic::requested_calls(uses)[i] == (
            ToolCallView { id: uses[i]->id@, name: uses[i]->name@, arguments: uses[i]->input }),
    decreases uses.len(),
{
    if uses.len() > 0 {
        let front = uses.drop_last();
        assert forall|i: int| 0 <= i < front.len() implies #[trigger] front[i] is ToolUse by {
            assert(uses[i] is ToolUse);
        }
        lemma_tool_uses_are_calls(front);
        assert(uses[uses.len() - 1] is ToolUse);
    }
}

} // verus!
