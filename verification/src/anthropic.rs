//! Acty's protocol in the words of the Anthropic Messages API, and back.

use crate::config::{LlmConfig, Temperature};
use crate::json::{self, array, field, object, Json, JsonView};
use crate::protocol::{
    AssistantTurn, AssistantTurnView, ConversationItem, ConversationItemView, FinishReason,
    LlmRequest, LlmRequestView, LlmResponse, LlmResponseView, ToolCall, ToolCallId, ToolCallView,
    ToolSchema, ToolSchemaView, ToolTurn, ToolTurnView,
};
use crate::provider::{
    self, apply_temperature, join_url, message_of, with_auth, Auth, HttpRequest, HttpRequestView,
    ProviderHeader,
};
use crate::text;
use crate::views;
use vstd::prelude::*;
use vstd::string::*;

verus! {

/// A block of text.
pub open spec fn text_block(text: Seq<char>) -> JsonView {
    JsonView::Object(seq![("type"@, JsonView::Text("text"@)), ("text"@, JsonView::Text(text))])
}

/// A block that asks for a tool call.
pub open spec fn tool_use_block(call: ToolCallView) -> JsonView {
    JsonView::Object(
        seq![
            ("type"@, JsonView::Text("tool_use"@)),
            ("id"@, JsonView::Text(call.id)),
            ("name"@, JsonView::Text(call.name)),
            ("input"@, JsonView::Document(call.arguments)),
        ],
    )
}

/// A block that holds a tool result.
pub open spec fn tool_result_block(turn: ToolTurnView) -> JsonView {
    JsonView::Object(
        seq![
            ("type"@, JsonView::Text("tool_result"@)),
            ("tool_use_id"@, JsonView::Text(turn.call_id)),
            ("content"@, JsonView::Text(turn.output.rendered())),
            ("is_error"@, JsonView::Bool(turn.output.failed())),
        ],
    )
}

/// The blocks of an assistant turn: its text, unless that is empty, then its calls in order.
pub open spec fn assistant_blocks(turn: AssistantTurnView) -> Seq<JsonView> {
    let calls = turn.tool_calls.map_values(|call: ToolCallView| tool_use_block(call));
    if turn.text.len() == 0 {
        calls
    } else {
        seq![text_block(turn.text)] + calls
    }
}

/// A transcript entry as a message.
pub open spec fn anthropic_message(item: ConversationItemView) -> JsonView {
    match item {
        ConversationItemView::User(text) => provider::message(
            "user"@,
            JsonView::Array(seq![text_block(text)]),
        ),
        ConversationItemView::Assistant(turn) => provider::message(
            "assistant"@,
            JsonView::Array(assistant_blocks(turn)),
        ),
        ConversationItemView::Tool(turn) => provider::message(
            "user"@,
            JsonView::Array(seq![tool_result_block(turn)]),
        ),
    }
}

/// A tool schema as a tool declaration.
pub open spec fn anthropic_tool(tool: ToolSchemaView) -> JsonView {
    JsonView::Object(
        seq![
            ("name"@, JsonView::Text(tool.name)),
            ("description"@, JsonView::Text(tool.description)),
            ("input_schema"@, tool.parameters),
        ],
    )
}

/// The fields that every request body has.
pub open spec fn anthropic_fields(config: LlmConfig, request: LlmRequestView) -> Seq<
    (Seq<char>, JsonView),
> {
    seq![
        ("model"@, JsonView::Text(config.model@)),
        ("max_tokens"@, JsonView::Number(config.max_tokens as nat)),
        ("system"@, JsonView::Text(request.system_prompt)),
        (
            "messages"@,
            JsonView::Array(
                request.conversation.map_values(
                    |item: ConversationItemView| anthropic_message(item),
                ),
            ),
        ),
        (
            "tools"@,
            JsonView::Array(request.tools.map_values(|tool: ToolSchemaView| anthropic_tool(tool))),
        ),
    ]
}

/// The Messages API request for a request of Acty's.
pub open spec fn anthropic_request(
    config: LlmConfig,
    key: Option<Seq<char>>,
    request: LlmRequestView,
) -> HttpRequestView {
    HttpRequestView {
        url: provider::endpoint_url(config.base_url@, "messages"@),
        auth: provider::carried(key, ProviderHeader::Anthropic),
        headers: seq![("anthropic-version"@, "2023-06-01"@)],
        body: JsonView::Object(
            provider::tempered(anthropic_fields(config, request), config.temperature),
        ),
    }
}

/// Builds a block of text.
fn text_block_of(text: &str) -> (json: Json)
    ensures
        json@ == text_block(text@),
{
    let fields = vec![field("type", json::text("text")), field("text", json::text(text))];
    assert(json::field_views(fields@) =~= text_block(text@)->Object_0);
    object(fields)
}

/// Converts one user message.
fn anthropic_user_message(text: &str) -> (json: Json)
    ensures
        json@ == anthropic_message(ConversationItemView::User(text@)),
{
    let content = vec![text_block_of(text)];
    assert(json::json_views(content@) =~= seq![text_block(text@)]);
    message_of("user", array(content))
}

/// Converts one assistant turn into text and tool-use blocks.
pub fn anthropic_assistant_message(turn: &AssistantTurn) -> (json: Json)
    ensures
        json@ == anthropic_message(ConversationItemView::Assistant(turn@)),
{
    let mut content: Vec<Json> = Vec::new();
    if !turn.text.as_str().is_empty() {
        content.push(text_block_of(turn.text.as_str()));
    }
    let ghost before = content@;
    let mut i: usize = 0;
    while i < turn.tool_calls.len()
        invariant
            i <= turn.tool_calls@.len(),
            content@.len() == before.len() + i,
            forall|j: int| 0 <= j < before.len() ==> content@[j] == before[j],
            forall|j: int|
                0 <= j < i ==> (#[trigger] content@[before.len() + j])@ == tool_use_block(
                    turn.tool_calls@[j]@,
                ),
        decreases turn.tool_calls@.len() - i,
    {
        let call = &turn.tool_calls[i];
        let fields = vec![
            field("type", json::text("tool_use")),
            field("id", json::text(call.id.0.as_str())),
            field("name", json::text(call.name.as_str())),
            field("input", Json::Document(call.arguments.clone())),
        ];
        assert(json::field_views(fields@) =~= tool_use_block(call@)->Object_0);
        content.push(object(fields));
        i += 1;
    }
    let ghost expected = assistant_blocks(turn@);
    assert forall|j: int| 0 <= j < content@.len() implies (#[trigger] content@[j])@
        == expected[j] by {
        if j < before.len() {
            assert(content@[j] == before[j]);
        } else {
            let k = j - before.len();
            assert(content@[before.len() + k]@ == tool_use_block(turn.tool_calls@[k]@));
            assert(expected[j] == tool_use_block(turn@.tool_calls[k]));
        }
    }
    assert(json::json_views(content@) =~= expected);
    message_of("assistant", array(content))
}

/// Converts one tool result into a user-side tool result message.
pub fn anthropic_tool_message(turn: &ToolTurn) -> (json: Json)
    ensures
        json@ == anthropic_message(ConversationItemView::Tool(turn@)),
{
    let fields = vec![
        field("type", json::text("tool_result")),
        field("tool_use_id", json::text(turn.call_id.0.as_str())),
        field("content", Json::Text(turn.output.as_text())),
        field("is_error", Json::Bool(turn.output.is_error())),
    ];
    assert(json::field_views(fields@) =~= tool_result_block(turn@)->Object_0);
    let content = vec![object(fields)];
    assert(json::json_views(content@) =~= seq![tool_result_block(turn@)]);
    message_of("user", array(content))
}

/// Converts Acty's transcript into messages.
pub fn anthropic_messages(conversation: &Vec<ConversationItem>) -> (messages: Vec<Json>)
    ensures
        json::json_views(messages@) == views::views(conversation@).map_values(
            |item: ConversationItemView| anthropic_message(item),
        ),
{
    let mut messages: Vec<Json> = Vec::new();
    let mut i: usize = 0;
    while i < conversation.len()
        invariant
            i <= conversation@.len(),
            i == messages@.len(),
            forall|j: int|
                0 <= j < i ==> (#[trigger] messages@[j])@ == anthropic_message(conversation@[j]@),
        decreases conversation@.len() - i,
    {
        let next = match &conversation[i] {
            ConversationItem::User(text) => anthropic_user_message(text.as_str()),
            ConversationItem::Assistant(turn) => anthropic_assistant_message(turn),
            ConversationItem::Tool(turn) => anthropic_tool_message(turn),
        };
        messages.push(next);
        i += 1;
    }
    assert(json::json_views(messages@) =~= views::views(conversation@).map_values(
        |item: ConversationItemView| anthropic_message(item),
    ));
    messages
}

/// Converts Acty's tool schemas into tool declarations.
pub fn anthropic_tools(tools: &Vec<ToolSchema>) -> (declarations: Vec<Json>)
    ensures
        json::json_views(declarations@) == views::views(tools@).map_values(
            |tool: ToolSchemaView| anthropic_tool(tool),
        ),
{
    let mut declarations: Vec<Json> = Vec::new();
    let mut i: usize = 0;
    while i < tools.len()
        invariant
            i <= tools@.len(),
            i == declarations@.len(),
            forall|j: int|
                0 <= j < i ==> (#[trigger] declarations@[j])@ == anthropic_tool(tools@[j]@),
        decreases tools@.len() - i,
    {
        let tool = &tools[i];
        let fields = vec![
            field("name", json::text(tool.name.as_str())),
            field("description", json::text(tool.description.as_str())),
            field("input_schema", tool.parameters.clone()),
        ];
        assert(json::field_views(fields@) =~= anthropic_tool(tool@)->Object_0);
        declarations.push(object(fields));
        i += 1;
    }
    assert(json::json_views(declarations@) =~= views::views(tools@).map_values(
        |tool: ToolSchemaView| anthropic_tool(tool),
    ));
    declarations
}

/// Builds one Messages API request.
///
/// Tool calls and tool results become `tool_use` and `tool_result` content
/// blocks; the transcript stays as it is.
pub fn generate_anthropic(config: &LlmConfig, auth: &Auth, request: &LlmRequest) -> (http:
    HttpRequest)
    ensures
        http@ == anthropic_request(*config, auth@, request@),
{
    let mut body = vec![
        field("model", json::text(config.model.as_str())),
        field("max_tokens", Json::Number(config.max_tokens as u64)),
        field("system", json::text(request.system_prompt.as_str())),
        field("messages", array(anthropic_messages(&request.conversation))),
        field("tools", array(anthropic_tools(&request.tools))),
    ];
    assert(json::field_views(body@) =~= anthropic_fields(*config, request@));
    apply_temperature(&mut body, &config.temperature);
    let http = HttpRequest {
        url: join_url(config.base_url.as_str(), "messages"),
        auth: with_auth(auth, ProviderHeader::Anthropic),
        headers: vec![("anthropic-version".to_string(), "2023-06-01".to_string())],
        body: object(body),
    };
    assert(http@.headers =~= seq![("anthropic-version"@, "2023-06-01"@)]);
    http
}

/// A request body names a temperature exactly where the configuration fixes one, and then
/// that one, after everything else.
pub proof fn lemma_anthropic_temperature(
    config: LlmConfig,
    key: Option<Seq<char>>,
    request: LlmRequestView,
)
    ensures
        anthropic_request(config, key, request).body == JsonView::Object(
            match config.temperature {
                Temperature::ProviderDefault => anthropic_fields(config, request),
                Temperature::Fixed { value } => anthropic_fields(config, request).push(
                    ("temperature"@, JsonView::Document(value)),
                ),
            },
        ),
        forall|i: int|
            0 <= i < anthropic_fields(config, request).len() ==> (#[trigger] anthropic_fields(
                config,
                request,
            )[i]).0 != "temperature"@,
{
    reveal_strlit("temperature");
    reveal_strlit("model");
    reveal_strlit("max_tokens");
    reveal_strlit("system");
    reveal_strlit("messages");
    reveal_strlit("tools");
    let fields = anthropic_fields(config, request);
    assert forall|i: int| 0 <= i < fields.len() implies (#[trigger] fields[i]).0
        != "temperature"@ by {
        assert("temperature"@.len() == 11 && "model"@.len() == 5 && "max_tokens"@.len() == 10);
        assert("system"@.len() == 6 && "messages"@.len() == 8 && "tools"@.len() == 5);
        assert(fields[0].0 == "model"@);
        assert(fields[1].0 == "max_tokens"@);
        assert(fields[2].0 == "system"@);
        assert(fields[3].0 == "messages"@);
        assert(fields[4].0 == "tools"@);
    }
    provider::lemma_temperature_comes_last(fields, config.temperature);
}

/// A tool call keeps its identifier and its place on the way to the provider: it comes after
/// the visible text, where there is some.
pub proof fn lemma_anthropic_keeps_call_ids(turn: AssistantTurnView, k: int)
    requires
        0 <= k < turn.tool_calls.len(),
    ensures
        ({
            let first = if turn.text.len() == 0 {
                0int
            } else {
                1int
            };
            let blocks = assistant_blocks(turn);
            &&& blocks.len() == first + turn.tool_calls.len()
            &&& blocks[first + k]->Object_0[1] == ("id"@, JsonView::Text(turn.tool_calls[k].id))
        }),
{
}

/// A tool result names the call that it answers, and says whether that failed.
pub proof fn lemma_anthropic_keeps_result_ids(turn: ToolTurnView)
    ensures
        ({
            let content = anthropic_message(ConversationItemView::Tool(turn))->Object_0[1];
            let result = content.1->Array_0[0]->Object_0;
            &&& content.0 == "content"@
            &&& content.1->Array_0.len() == 1
            &&& result[1] == ("tool_use_id"@, JsonView::Text(turn.call_id))
            &&& result[3] == ("is_error"@, JsonView::Bool(turn.output is Error))
        }),
{
}

/// A response of the provider.
#[derive(Debug)]
pub struct AnthropicResponse {
    /// The answer, block by block.
    pub content: Vec<AnthropicContentBlock>,
    /// Why the model stopped.
    pub stop_reason: Option<String>,
}

/// One block of an answer.
#[derive(Debug)]
pub enum AnthropicContentBlock {
    /// Visible text.
    Text {
        /// The text.
        text: String,
    },
    /// A tool call.
    ToolUse {
        /// The identifier of the call.
        id: String,
        /// The name of the tool.
        name: String,
        /// The arguments.
        input: serde_json::Value,
    },
    /// Something else.
    Other,
}

impl AnthropicContentBlock {
    /// The visible text of a block.
    pub open spec fn visible(self) -> Seq<char> {
        match self {
            AnthropicContentBlock::Text { text } => text@,
            _ => Seq::empty(),
        }
    }

    /// The tool call that a block asks for, where it does.
    pub open spec fn requested(self) -> Option<ToolCallView> {
        match self {
            AnthropicContentBlock::ToolUse { id, name, input } => Some(
                ToolCallView { id: id@, name: name@, arguments: input },
            ),
            _ => None,
        }
    }
}

/// The visible text of an answer: that of its blocks, one after the other.
pub open spec fn visible_text(blocks: Seq<AnthropicContentBlock>) -> Seq<char>
    decreases blocks.len(),
{
    if blocks.len() == 0 {
        Seq::empty()
    } else {
        visible_text(blocks.drop_last()) + blocks.last().visible()
    }
}

/// The tool calls that an answer asks for, in order.
pub open spec fn requested_calls(blocks: Seq<AnthropicContentBlock>) -> Seq<ToolCallView>
    decreases blocks.len(),
{
    if blocks.len() == 0 {
        Seq::empty()
    } else {
        let before = requested_calls(blocks.drop_last());
        match blocks.last().requested() {
            Some(call) => before.push(call),
            None => before,
        }
    }
}

/// What a response stands for.
pub open spec fn read_response(response: AnthropicResponse) -> LlmResponseView {
    LlmResponseView {
        text: visible_text(response.content@),
        tool_calls: requested_calls(response.content@),
        finish_reason: text::optional(response.stop_reason),
    }
}

/// Normalizes an Anthropic response into Acty's LLM response.
pub fn parse_anthropic_response(response: AnthropicResponse) -> (parsed: LlmResponse)
    ensures
        parsed@ == read_response(response),
{
    let mut text = String::new();
    let mut tool_calls: Vec<ToolCall> = Vec::new();
    let ghost blocks = response.content@;
    assert(views::views(tool_calls@) =~= requested_calls(blocks.take(0)));
    for block in iter: response.content
        invariant
            iter.seq() == blocks,
            text@ == visible_text(blocks.take(iter.index())),
            views::views(tool_calls@) == requested_calls(blocks.take(iter.index())),
    {
        assert(blocks.take(iter.index() + 1).drop_last() =~= blocks.take(iter.index()));
        match block {
            AnthropicContentBlock::Text { text: block_text } => {
                text.append(block_text.as_str());
            },
            AnthropicContentBlock::ToolUse { id, name, input } => {
                let call = ToolCall { id: ToolCallId(id), name, arguments: input };
                proof {
                    views::lemma_views_push(tool_calls@, call);
                }
                tool_calls.push(call);
            },
            AnthropicContentBlock::Other => {},
        }
    }
    assert(blocks.take(blocks.len() as int) =~= blocks);
    LlmResponse { text, tool_calls, finish_reason: FinishReason::from_provider(response.stop_reason) }
}

/// The visible text and the calls of two answers, one after the other, are those of the first
/// followed by those of the second.
pub proof fn lemma_answers_add_up(
    first: Seq<AnthropicContentBlock>,
    second: Seq<AnthropicContentBlock>,
)
    ensures
        visible_text(first + second) == visible_text(first) + visible_text(second),
        requested_calls(first + second) == requested_calls(first) + requested_calls(second),
    decreases second.len(),
{
    if second.len() == 0 {
        assert(first + second =~= first);
        assert(visible_text(first) + visible_text(second) =~= visible_text(first));
        assert(requested_calls(first) + requested_calls(second) =~= requested_calls(first));
    } else {
        lemma_answers_add_up(first, second.drop_last());
        assert((first + second).drop_last() =~= first + second.drop_last());
        assert(visible_text(first + second) =~= visible_text(first) + visible_text(second));
        assert(requested_calls(first + second) =~= requested_calls(first) + requested_calls(
            second,
        ));
    }
}

/// A tool call of an answer is asked for under the identifier, the name and the arguments of
/// its block, after the calls of the blocks before it and before those of the blocks after it.
pub proof fn lemma_every_tool_use_is_requested(blocks: Seq<AnthropicContentBlock>, i: int)
    requires
        0 <= i < blocks.len(),
        blocks[i] is ToolUse,
    ensures
        requested_calls(blocks) == requested_calls(blocks.take(i)) + seq![
            ToolCallView {
                id: blocks[i]->id@,
                name: blocks[i]->name@,
                arguments: blocks[i]->input,
            },
        ] + requested_calls(blocks.skip(i + 1)),
{
    let upto = blocks.take(i + 1);
    assert(blocks =~= upto + blocks.skip(i + 1));
    assert(upto.drop_last() =~= blocks.take(i));
    lemma_answers_add_up(upto, blocks.skip(i + 1));
    assert(requested_calls(upto) =~= requested_calls(blocks.take(i)) + seq![
        blocks[i].requested()->Some_0,
    ]);
}

/// Blocks that are neither text nor a tool call change nothing.
pub proof fn lemma_other_blocks_are_dropped(blocks: Seq<AnthropicContentBlock>, i: int)
    requires
        0 <= i < blocks.len(),
        blocks[i] is Other,
    ensures
        visible_text(blocks.remove(i)) == visible_text(blocks),
        requested_calls(blocks.remove(i)) == requested_calls(blocks),
{
    let before = blocks.take(i);
    let after = blocks.skip(i + 1);
    let upto = blocks.take(i + 1);
    assert(blocks.remove(i) =~= before + after);
    assert(blocks =~= upto + after);
    assert(upto.drop_last() =~= before);
    lemma_answers_add_up(before, after);
    lemma_answers_add_up(upto, after);
    assert(visible_text(upto) =~= visible_text(before));
}

} // verus!
