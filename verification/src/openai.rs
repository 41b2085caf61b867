//! Acty's protocol in the words of OpenAI-compatible Chat Completions, and back.

use crate::config::{LlmConfig, Temperature};
use crate::json::{self, array, field, object, parse_document, render_document, Json, JsonView};
use crate::protocol::{
    AssistantTurn, AssistantTurnView, ConversationItem, ConversationItemView, FinishReason,
    LlmRequest, LlmRequestView, LlmResponse, LlmResponseView, ToolCall, ToolCallId, ToolCallView,
    ToolSchema, ToolSchemaView, ToolTurn,
};
use crate::provider::{
    self, apply_temperature, join_url, message_of, with_auth, Auth, HttpRequest, HttpRequestView,
    ProviderHeader,
};
use crate::text;
use crate::views;
use vstd::prelude::*;
use vstd::string::*;

verus! {

/// A tool call in an OpenAI assistant message.
pub open spec fn openai_call(call: ToolCallView) -> JsonView {
    JsonView::Object(
        seq![
            ("id"@, JsonView::Text(call.id)),
            ("type"@, JsonView::Text("function"@)),
            (
                "function"@,
                JsonView::Object(
                    seq![
                        ("name"@, JsonView::Text(call.name)),
                        ("arguments"@, JsonView::Text(json::document_text(call.arguments))),
                    ],
                ),
            ),
        ],
    )
}

/// An assistant turn as an OpenAI message: the calls are a field only where there are some.
pub open spec fn openai_assistant(turn: AssistantTurnView) -> JsonView {
    if turn.tool_calls.len() == 0 {
        provider::message("assistant"@, JsonView::Text(turn.text))
    } else {
        JsonView::Object(
            seq![
                ("role"@, JsonView::Text("assistant"@)),
                ("content"@, JsonView::Text(turn.text)),
                (
                    "tool_calls"@,
                    JsonView::Array(
                        turn.tool_calls.map_values(|call: ToolCallView| openai_call(call)),
                    ),
                ),
            ],
        )
    }
}

/// A transcript entry as an OpenAI message.
pub open spec fn openai_message(item: ConversationItemView) -> JsonView {
    match item {
        ConversationItemView::User(text) => provider::message("user"@, JsonView::Text(text)),
        ConversationItemView::Assistant(turn) => openai_assistant(turn),
        ConversationItemView::Tool(turn) => JsonView::Object(
            seq![
                ("role"@, JsonView::Text("tool"@)),
                ("tool_call_id"@, JsonView::Text(turn.call_id)),
                ("content"@, JsonView::Text(turn.output.rendered())),
            ],
        ),
    }
}

/// The OpenAI messages of a request: the system prompt, then the transcript in order.
pub open spec fn openai_transcript(request: LlmRequestView) -> Seq<JsonView> {
    seq![provider::message("system"@, JsonView::Text(request.system_prompt))]
        + request.conversation.map_values(|item: ConversationItemView| openai_message(item))
}

/// A tool schema as an OpenAI function tool declaration.
pub open spec fn openai_tool(tool: ToolSchemaView) -> JsonView {
    JsonView::Object(
        seq![
            ("type"@, JsonView::Text("function"@)),
            (
                "function"@,
                JsonView::Object(
                    seq![
                        ("name"@, JsonView::Text(tool.name)),
                        ("description"@, JsonView::Text(tool.description)),
                        ("parameters"@, tool.parameters),
                    ],
                ),
            ),
        ],
    )
}

/// Converts one tool call into its OpenAI form.
fn openai_call_of(call: &ToolCall) -> (json: Json)
    ensures
        json@ == openai_call(call@),
{
    let function = vec![
        field("name", json::text(call.name.as_str())),
        field("arguments", Json::Text(render_document(&call.arguments))),
    ];
    let ghost expected = openai_call(call@)->Object_0;
    assert(json::field_views(function@) =~= expected[2].1->Object_0);
    let fields = vec![
        field("id", json::text(call.id.0.as_str())),
        field("type", json::text("function")),
        field("function", object(function)),
    ];
    assert(json::field_views(fields@) =~= expected);
    object(fields)
}

/// Converts one assistant turn into an OpenAI assistant message.
pub fn openai_assistant_message(turn: &AssistantTurn) -> (json: Json)
    ensures
        json@ == openai_assistant(turn@),
{
    let mut calls: Vec<Json> = Vec::new();
    let mut i: usize = 0;
    while i < turn.tool_calls.len()
        invariant
            i <= turn.tool_calls@.len(),
            i == calls@.len(),
            forall|j: int|
                0 <= j < i ==> (#[trigger] calls@[j])@ == openai_call(turn.tool_calls@[j]@),
        decreases turn.tool_calls@.len() - i,
    {
        calls.push(openai_call_of(&turn.tool_calls[i]));
        i += 1;
    }
    if calls.len() == 0 {
        return message_of("assistant", json::text(turn.text.as_str()));
    }
    assert(json::json_views(calls@) =~= turn@.tool_calls.map_values(
        |call: ToolCallView| openai_call(call),
    ));
    let fields = vec![
        field("role", json::text("assistant")),
        field("content", json::text(turn.text.as_str())),
        field("tool_calls", array(calls)),
    ];
    assert(json::field_views(fields@) =~= openai_assistant(turn@)->Object_0);
    object(fields)
}

/// Converts one tool result into an OpenAI tool message.
fn openai_tool_message(turn: &ToolTurn) -> (json: Json)
    ensures
        json@ == openai_message(ConversationItemView::Tool(turn@)),
{
    let fields = vec![
        field("role", json::text("tool")),
        field("tool_call_id", json::text(turn.call_id.0.as_str())),
        field("content", Json::Text(turn.output.as_text())),
    ];
    assert(json::field_views(fields@) =~= openai_message(
        ConversationItemView::Tool(turn@),
    )->Object_0);
    object(fields)
}

/// Converts Acty's request into OpenAI chat messages.
pub fn openai_messages(request: &LlmRequest) -> (messages: Vec<Json>)
    ensures
        json::json_views(messages@) == openai_transcript(request@),
{
    let mut messages = vec![message_of("system", json::text(request.system_prompt.as_str()))];
    let mut i: usize = 0;
    while i < request.conversation.len()
        invariant
            i <= request.conversation@.len(),
            messages@.len() == i + 1,
            messages@[0]@ == provider::message("system"@, JsonView::Text(request.system_prompt@)),
            forall|j: int|
                1 <= j <= i ==> (#[trigger] messages@[j])@ == openai_message(
                    request.conversation@[j - 1]@,
                ),
        decreases request.conversation@.len() - i,
    {
        let next = match &request.conversation[i] {
            ConversationItem::User(text) => message_of("user", json::text(text.as_str())),
            ConversationItem::Assistant(turn) => openai_assistant_message(turn),
            ConversationItem::Tool(turn) => openai_tool_message(turn),
        };
        messages.push(next);
        i += 1;
    }
    assert(json::json_views(messages@) =~= openai_transcript(request@));
    messages
}

/// Converts Acty's tool schemas into OpenAI function tool declarations.
pub fn openai_tools(tools: &Vec<ToolSchema>) -> (declarations: Vec<Json>)
    ensures
        json::json_views(declarations@) == views::views(tools@).map_values(
            |tool: ToolSchemaView| openai_tool(tool),
        ),
{
    let mut declarations: Vec<Json> = Vec::new();
    let mut i: usize = 0;
    while i < tools.len()
        invariant
            i <= tools@.len(),
            i == declarations@.len(),
            forall|j: int| 0 <= j < i ==> (#[trigger] declarations@[j])@ == openai_tool(tools@[j]@),
        decreases tools@.len() - i,
    {
        let tool = &tools[i];
        let ghost expected = openai_tool(tool@)->Object_0;
        let function = vec![
            field("name", json::text(tool.name.as_str())),
            field("description", json::text(tool.description.as_str())),
            field("parameters", tool.parameters.clone()),
        ];
        assert(json::field_views(function@) =~= expected[1].1->Object_0);
        let fields = vec![
            field("type", json::text("function")),
            field("function", object(function)),
        ];
        assert(json::field_views(fields@) =~= expected);
        declarations.push(object(fields));
        i += 1;
    }
    assert(json::json_views(declarations@) =~= views::views(tools@).map_values(
        |tool: ToolSchemaView| openai_tool(tool),
    ));
    declarations
}

/// The fields that every request body has.
pub open spec fn openai_fields(config: LlmConfig, request: LlmRequestView) -> Seq<
    (Seq<char>, JsonView),
> {
    seq![
        ("model"@, JsonView::Text(config.model@)),
        ("max_tokens"@, JsonView::Number(config.max_tokens as nat)),
        ("messages"@, JsonView::Array(openai_transcript(request))),
        (
            "tools"@,
            JsonView::Array(request.tools.map_values(|tool: ToolSchemaView| openai_tool(tool))),
        ),
        ("tool_choice"@, JsonView::Text("auto"@)),
    ]
}

/// The chat completion request for a request of Acty's.
pub open spec fn openai_request(
    config: LlmConfig,
    key: Option<Seq<char>>,
    request: LlmRequestView,
) -> HttpRequestView {
    HttpRequestView {
        url: provider::endpoint_url(config.base_url@, "chat/completions"@),
        auth: provider::carried(key, ProviderHeader::OpenAi),
        headers: Seq::empty(),
        body: JsonView::Object(
            provider::tempered(openai_fields(config, request), config.temperature),
        ),
    }
}

/// Builds one chat completion request.
///
/// Conversation items become chat messages, preserving tool call IDs so tool
/// results can be associated with assistant requests.
pub fn generate_openai(config: &LlmConfig, auth: &Auth, request: &LlmRequest) -> (http: HttpRequest)
    ensures
        http@ == openai_request(*config, auth@, request@),
{
    let mut body = vec![
        field("model", json::text(config.model.as_str())),
        field("max_tokens", Json::Number(config.max_tokens as u64)),
        field("messages", array(openai_messages(request))),
        field("tools", array(openai_tools(&request.tools))),
        field("tool_choice", json::text("auto")),
    ];
    assert(json::field_views(body@) =~= openai_fields(*config, request@));
    apply_temperature(&mut body, &config.temperature);
    let http = HttpRequest {
        url: join_url(config.base_url.as_str(), "chat/completions"),
        auth: with_auth(auth, ProviderHeader::OpenAi),
        headers: Vec::new(),
        body: object(body),
    };
    assert(http@.headers =~= Seq::empty());
    http
}

/// A request body names a temperature exactly where the configuration fixes one, and then
/// that one, after everything else.
pub proof fn lemma_openai_temperature(
    config: LlmConfig,
    key: Option<Seq<char>>,
    request: LlmRequestView,
)
    ensures
        openai_request(config, key, request).body == JsonView::Object(
            match config.temperature {
                Temperature::ProviderDefault => openai_fields(config, request),
                Temperature::Fixed { value } => openai_fields(config, request).push(
                    ("temperature"@, JsonView::Document(value)),
                ),
            },
        ),
        forall|i: int|
            0 <= i < openai_fields(config, request).len() ==> (#[trigger] openai_fields(
                config,
                request,
            )[i]).0 != "temperature"@,
{
    reveal_strlit("temperature");
    reveal_strlit("model");
    reveal_strlit("max_tokens");
    reveal_strlit("messages");
    reveal_strlit("tools");
    reveal_strlit("tool_choice");
    let fields = openai_fields(config, request);
    assert forall|i: int| 0 <= i < fields.len() implies (#[trigger] fields[i]).0
        != "temperature"@ by {
        assert("temperature"@.len() == 11 && "model"@.len() == 5 && "max_tokens"@.len() == 10);
        assert("messages"@.len() == 8 && "tools"@.len() == 5);
        assert("tool_choice"@[1] == 'o' && "temperature"@[1] == 'e');
        assert(fields[0].0 == "model"@);
        assert(fields[1].0 == "max_tokens"@);
        assert(fields[2].0 == "messages"@);
        assert(fields[3].0 == "tools"@);
        assert(fields[4].0 == "tool_choice"@);
    }
    provider::lemma_temperature_comes_last(openai_fields(config, request), config.temperature);
}

/// The messages are the system prompt and one message for every item of the transcript.
pub proof fn lemma_openai_message_order(request: LlmRequestView)
    ensures
        openai_transcript(request).len() == request.conversation.len() + 1,
        openai_transcript(request)[0] == provider::message(
            "system"@,
            JsonView::Text(request.system_prompt),
        ),
        forall|i: int|
            0 <= i < request.conversation.len() ==> #[trigger] openai_transcript(request)[i + 1]
                == openai_message(request.conversation[i]),
{
}

/// A tool call keeps its identifier and its place on the way to the provider.
pub proof fn lemma_openai_keeps_call_ids(request: LlmRequestView, i: int, k: int)
    requires
        0 <= i < request.conversation.len(),
        request.conversation[i] is Assistant,
        0 <= k < request.conversation[i]->Assistant_0.tool_calls.len(),
    ensures
        ({
            let turn = request.conversation[i]->Assistant_0;
            let calls = openai_transcript(request)[i + 1]->Object_0[2];
            &&& calls.0 == "tool_calls"@
            &&& calls.1->Array_0.len() == turn.tool_calls.len()
            &&& calls.1->Array_0[k]->Object_0[0] == (
                "id"@,
                JsonView::Text(turn.tool_calls[k].id),
            )
        }),
{
}

/// A tool result names the call that it answers.
pub proof fn lemma_openai_keeps_result_ids(request: LlmRequestView, i: int)
    requires
        0 <= i < request.conversation.len(),
        request.conversation[i] is Tool,
    ensures
        openai_transcript(request)[i + 1]->Object_0[1] == (
            "tool_call_id"@,
            JsonView::Text(request.conversation[i]->Tool_0.call_id),
        ),
{
}

/// A response of a provider.
#[derive(Debug)]
pub struct OpenAiResponse {
    /// The answers that it offers.
    pub choices: Vec<OpenAiChoice>,
}

/// One answer that a provider offers.
#[derive(Debug)]
pub struct OpenAiChoice {
    /// The answer.
    pub message: OpenAiMessage,
    /// Why the model stopped.
    pub finish_reason: Option<String>,
}

/// One answer.
#[derive(Debug)]
pub struct OpenAiMessage {
    /// The visible text.
    pub content: Option<String>,
    /// The tool calls that the model asks for.
    pub tool_calls: Option<Vec<OpenAiToolCall>>,
}

/// One tool call as a provider writes it.
#[derive(Debug)]
pub struct OpenAiToolCall {
    /// The identifier of the call.
    pub id: String,
    /// The function to call.
    pub function: OpenAiFunctionCall,
}

/// The function of a tool call.
#[derive(Debug)]
pub struct OpenAiFunctionCall {
    /// The name of the tool.
    pub name: String,
    /// The arguments: the text of a JSON document.
    pub arguments: String,
}

/// Why a response makes no sense.
#[derive(Debug)]
pub enum OpenAiError {
    /// It offers no answer.
    NoChoices,
    /// The arguments of a tool call are not JSON.
    Arguments {
        /// The name of the tool.
        name: String,
        /// What is wrong with the text.
        cause: String,
    },
}

/// The model of an [`OpenAiError`].
pub enum OpenAiErrorView {
    /// It offers no answer.
    NoChoices,
    /// The arguments of a tool call are not JSON.
    Arguments {
        /// The name of the tool.
        name: Seq<char>,
        /// What is wrong with the text.
        cause: Seq<char>,
    },
}

impl View for OpenAiError {
    type V = OpenAiErrorView;

    open spec fn view(&self) -> OpenAiErrorView {
        match self {
            OpenAiError::NoChoices => OpenAiErrorView::NoChoices,
            OpenAiError::Arguments { name, cause } => OpenAiErrorView::Arguments {
                name: name@,
                cause: cause@,
            },
        }
    }
}

impl OpenAiErrorView {
    /// What happened, then why.
    pub open spec fn chain(self) -> Seq<Seq<char>> {
        match self {
            OpenAiErrorView::NoChoices => seq!["provider returned no choices"@],
            OpenAiErrorView::Arguments { name, cause } => seq![
                "decoding arguments for OpenAI tool call "@ + name,
                cause,
            ],
        }
    }
}

impl OpenAiError {
    /// Says what happened, then why.
    pub fn chain(&self) -> (messages: Vec<String>)
        ensures
            text::texts(messages@) == self@.chain(),
    {
        match self {
            OpenAiError::NoChoices => {
                let messages = vec!["provider returned no choices".to_string()];
                assert(text::texts(messages@) =~= self@.chain());
                messages
            },
            OpenAiError::Arguments { name, cause } => {
                let mut message = "decoding arguments for OpenAI tool call ".to_string();
                message.append(name.as_str());
                let messages = vec![message, cause.clone()];
                assert(text::texts(messages@) =~= self@.chain());
                messages
            },
        }
    }
}

/// Converts optional assistant content into visible assistant text.
///
/// Providers may omit the content when the assistant only emits tool calls; the
/// visible text is then empty.
pub fn openai_visible_text(content: Option<String>) -> (text: String)
    ensures
        text@ == visible_text(text::optional(content)),
{
    match content {
        Some(text) => text,
        None => String::new(),
    }
}

/// The visible text of optional content.
pub open spec fn visible_text(content: Option<Seq<char>>) -> Seq<char> {
    match content {
        Some(text) => text,
        None => Seq::empty(),
    }
}

/// What a tool call stands for, given what became of its arguments.
pub open spec fn read_call(
    call: OpenAiToolCall,
    parsed: Result<serde_json::Value, Seq<char>>,
) -> Result<ToolCallView, OpenAiErrorView> {
    match parsed {
        Ok(arguments) => Ok(
            ToolCallView { id: call.id@, name: call.function.name@, arguments },
        ),
        Err(cause) => Err(OpenAiErrorView::Arguments { name: call.function.name@, cause }),
    }
}

/// Decodes one function tool call whose arguments have been parsed.
pub fn read_openai_tool_call(
    call: OpenAiToolCall,
    parsed: Result<serde_json::Value, String>,
) -> (outcome: Result<ToolCall, OpenAiError>)
    ensures
        views::outcome(outcome) == read_call(call, json::parse_view(parsed)),
{
    match parsed {
        Ok(arguments) => Ok(
            ToolCall { id: ToolCallId(call.id), name: call.function.name, arguments },
        ),
        Err(cause) => Err(OpenAiError::Arguments { name: call.function.name, cause }),
    }
}

/// Decodes one function tool call.
pub fn parse_openai_tool_call(call: OpenAiToolCall) -> (outcome: Result<ToolCall, OpenAiError>)
    ensures
        views::outcome(outcome) == read_call(call, json::parsed_document(call.function.arguments@)),
{
    let parsed = parse_document(call.function.arguments.as_str());
    read_openai_tool_call(call, parsed)
}

/// A call that was decoded is sent back under the identifier and the name that it came with.
pub proof fn lemma_openai_call_comes_back(
    call: OpenAiToolCall,
    parsed: Result<serde_json::Value, Seq<char>>,
)
    requires
        parsed is Ok,
    ensures
        read_call(call, parsed) is Ok,
        ({
            let sent = openai_call(read_call(call, parsed)->Ok_0)->Object_0;
            let function = sent[2].1->Object_0;
            &&& sent[0] == ("id"@, JsonView::Text(call.id@))
            &&& function[0] == ("name"@, JsonView::Text(call.function.name@))
            &&& function[1] == (
                "arguments"@,
                JsonView::Text(json::document_text(parsed->Ok_0)),
            )
        }),
{
}

/// The tool calls of a message: none where the field is absent.
pub open spec fn message_calls(message: OpenAiMessage) -> Seq<OpenAiToolCall> {
    match message.tool_calls {
        Some(calls) => calls@,
        None => Seq::empty(),
    }
}

/// What the arguments of each call were parsed into.
pub open spec fn parsed_arguments(calls: Seq<OpenAiToolCall>) -> Seq<
    Result<serde_json::Value, Seq<char>>,
> {
    calls.map_values(|call: OpenAiToolCall| json::parsed_document(call.function.arguments@))
}

/// What each call stands for, given what became of its arguments.
pub open spec fn read_calls(
    calls: Seq<OpenAiToolCall>,
    parsed: Seq<Result<serde_json::Value, Seq<char>>>,
) -> Seq<Result<ToolCallView, OpenAiErrorView>> {
    Seq::new(calls.len(), |i: int| read_call(calls[i], parsed[i]))
}

/// All values of a list of outcomes, or the first error among them.
pub open spec fn collected(
    outcomes: Seq<Result<ToolCallView, OpenAiErrorView>>,
) -> Result<Seq<ToolCallView>, OpenAiErrorView>
    decreases outcomes.len(),
{
    if outcomes.len() == 0 {
        Ok(Seq::empty())
    } else {
        match collected(outcomes.drop_last()) {
            Err(error) => Err(error),
            Ok(calls) => match outcomes.last() {
                Ok(call) => Ok(calls.push(call)),
                Err(error) => Err(error),
            },
        }
    }
}

/// What a response stands for, given what became of the arguments of its calls.
///
/// The first answer counts, and its first undecodable call fails the response.
pub open spec fn read_response(
    response: OpenAiResponse,
    parsed: Seq<Result<serde_json::Value, Seq<char>>>,
) -> Result<LlmResponseView, OpenAiErrorView> {
    if response.choices@.len() == 0 {
        Err(OpenAiErrorView::NoChoices)
    } else {
        let choice = response.choices@[0];
        match collected(read_calls(message_calls(choice.message), parsed)) {
            Err(error) => Err(error),
            Ok(calls) => Ok(
                LlmResponseView {
                    text: visible_text(text::optional(choice.message.content)),
                    tool_calls: calls,
                    finish_reason: text::optional(choice.finish_reason),
                },
            ),
        }
    }
}

/// The calls that a response asks for: those of its first answer.
pub open spec fn response_calls(response: OpenAiResponse) -> Seq<OpenAiToolCall> {
    if response.choices@.len() == 0 {
        Seq::empty()
    } else {
        message_calls(response.choices@[0].message)
    }
}

/// An error among the first outcomes is the error of all of them.
proof fn lemma_error_is_final(
    outcomes: Seq<Result<ToolCallView, OpenAiErrorView>>,
    count: int,
)
    requires
        0 <= count <= outcomes.len(),
        collected(outcomes.take(count)) is Err,
    ensures
        collected(outcomes) == collected(outcomes.take(count)),
    decreases outcomes.len() - count,
{
    if count == outcomes.len() {
        assert(outcomes.take(count) =~= outcomes);
    } else {
        assert(outcomes.take(count + 1).drop_last() =~= outcomes.take(count));
        lemma_error_is_final(outcomes, count + 1);
    }
}

/// Collecting gives every value where there is no error, and the first error otherwise.
pub proof fn lemma_first_error_wins(
    outcomes: Seq<Result<ToolCallView, OpenAiErrorView>>,
    first: int,
)
    requires
        0 <= first <= outcomes.len(),
        forall|i: int| 0 <= i < first ==> outcomes[i] is Ok,
    ensures
        first == outcomes.len() ==> collected(outcomes) == Ok::<_, OpenAiErrorView>(
            outcomes.map_values(|outcome: Result<ToolCallView, OpenAiErrorView>| outcome->Ok_0),
        ),
        first < outcomes.len() && outcomes[first] is Err ==> collected(outcomes) == Err::<
            Seq<ToolCallView>,
            _,
        >(outcomes[first]->Err_0),
    decreases first,
{
    let value = |outcome: Result<ToolCallView, OpenAiErrorView>| outcome->Ok_0;
    let done = outcomes.take(first);
    if first == 0 {
        assert(done.map_values(value) =~= Seq::empty());
    } else {
        let before = done.drop_last();
        lemma_first_error_wins(before, first - 1);
        assert(done.map_values(value) =~= before.map_values(value).push(done.last()->Ok_0));
    }
    assert(collected(done) == Ok::<_, OpenAiErrorView>(done.map_values(value)));
    if first == outcomes.len() {
        assert(done =~= outcomes);
    } else if outcomes[first] is Err {
        assert(outcomes.take(first + 1).drop_last() =~= done);
        lemma_error_is_final(outcomes, first + 1);
    }
}

/// Decodes the tool calls of an answer whose arguments have been parsed.
fn read_openai_tool_calls(
    calls: Vec<OpenAiToolCall>,
    parsed: Vec<Result<serde_json::Value, String>>,
) -> (outcome: Result<Vec<ToolCall>, OpenAiError>)
    requires
        parsed@.len() == calls@.len(),
    ensures
        match outcome {
            Ok(values) => collected(read_calls(calls@, json::parse_views(parsed@))) == Ok::<
                _,
                OpenAiErrorView,
            >(views::views(values@)),
            Err(error) => collected(read_calls(calls@, json::parse_views(parsed@))) == Err::<
                Seq<ToolCallView>,
                _,
            >(error@),
        },
{
    let ghost outcomes = read_calls(calls@, json::parse_views(parsed@));
    let ghost mut done: int = 0;
    let mut calls_left = calls;
    let mut parsed_left = parsed;
    let mut values: Vec<ToolCall> = Vec::new();
    assert(views::views(values@) =~= Seq::empty());
    while calls_left.len() > 0 && parsed_left.len() > 0
        invariant
            0 <= done <= calls@.len(),
            calls@.len() == parsed@.len(),
            calls_left@ == calls@.skip(done),
            parsed_left@ == parsed@.skip(done),
            outcomes == read_calls(calls@, json::parse_views(parsed@)),
            collected(outcomes.take(done)) == Ok::<_, OpenAiErrorView>(views::views(values@)),
        decreases calls_left@.len(),
    {
        let call = calls_left.remove(0);
        let result = parsed_left.remove(0);
        assert(outcomes.take(done + 1).drop_last() =~= outcomes.take(done));
        match read_openai_tool_call(call, result) {
            Ok(value) => {
                proof {
                    views::lemma_views_push(values@, value);
                }
                values.push(value);
            },
            Err(error) => {
                proof {
                    lemma_error_is_final(outcomes, done + 1);
                }
                return Err(error);
            },
        }
        proof {
            done = done + 1;
        }
        assert(calls_left@ =~= calls@.skip(done));
        assert(parsed_left@ =~= parsed@.skip(done));
    }
    assert(outcomes.take(done) =~= outcomes);
    Ok(values)
}

/// Normalizes a response whose tool arguments have been parsed.
pub fn read_openai_response(
    response: OpenAiResponse,
    parsed: Vec<Result<serde_json::Value, String>>,
) -> (outcome: Result<LlmResponse, OpenAiError>)
    requires
        parsed@.len() == response_calls(response).len(),
    ensures
        views::outcome(outcome) == read_response(response, json::parse_views(parsed@)),
{
    let mut choices = response.choices;
    if choices.len() == 0 {
        return Err(OpenAiError::NoChoices);
    }
    let choice = choices.remove(0);
    let calls = match choice.message.tool_calls {
        Some(calls) => calls,
        None => Vec::new(),
    };
    match read_openai_tool_calls(calls, parsed) {
        Err(error) => Err(error),
        Ok(tool_calls) => Ok(
            LlmResponse {
                text: openai_visible_text(choice.message.content),
                tool_calls,
                finish_reason: FinishReason::from_provider(choice.finish_reason),
            },
        ),
    }
}

/// Parses the arguments of every call of an answer.
fn parse_arguments(calls: &Vec<OpenAiToolCall>) -> (parsed: Vec<
    Result<serde_json::Value, String>,
>)
    ensures
        json::parse_views(parsed@) == parsed_arguments(calls@),
{
    let mut parsed: Vec<Result<serde_json::Value, String>> = Vec::new();
    let mut i: usize = 0;
    while i < calls.len()
        invariant
            i <= calls@.len(),
            i == parsed@.len(),
            forall|j: int|
                0 <= j < i ==> json::parse_view(#[trigger] parsed@[j]) == json::parsed_document(
                    calls@[j].function.arguments@,
                ),
        decreases calls@.len() - i,
    {
        parsed.push(parse_document(calls[i].function.arguments.as_str()));
        i += 1;
    }
    assert(json::parse_views(parsed@) =~= parsed_arguments(calls@));
    parsed
}

/// Normalizes an OpenAI-compatible response into Acty's LLM response.
pub fn parse_openai_response(response: OpenAiResponse) -> (outcome: Result<
    LlmResponse,
    OpenAiError,
>)
    ensures
        views::outcome(outcome) == read_response(
            response,
            parsed_arguments(response_calls(response)),
        ),
{
    if response.choices.len() == 0 {
        return Err(OpenAiError::NoChoices);
    }
    let parsed = match &response.choices[0].message.tool_calls {
        Some(calls) => parse_arguments(calls),
        None => Vec::new(),
    };
    assert(json::parse_views(parsed@) =~= parsed_arguments(response_calls(response)));
    read_openai_response(response, parsed)
}

} // verus!
