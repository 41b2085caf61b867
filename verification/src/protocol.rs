//! Defines the small internal protocol shared by the agent, LLM, and tools.
//!
//! Provider-specific JSON quirks stay in `openai` and `anthropic`; these types describe Acty's own
//! conversation and tool-call vocabulary.

use crate::json::{Json, JsonView};
use crate::views;
use vstd::prelude::*;
use vstd::string::*;

verus! {

/// One entry of the transcript.
#[derive(Debug)]
pub enum ConversationItem {
    /// What the user wrote.
    User(String),
    /// What the model answered.
    Assistant(AssistantTurn),
    /// What a tool gave back.
    Tool(ToolTurn),
}

/// One answer of the model.
#[derive(Debug)]
pub struct AssistantTurn {
    /// The visible text.
    pub text: String,
    /// The tool calls that the model asks for, in its order.
    pub tool_calls: Vec<ToolCall>,
}

/// One tool result.
#[derive(Debug)]
pub struct ToolTurn {
    /// The call that the result answers.
    pub call_id: ToolCallId,
    /// The result.
    pub output: ToolOutput,
}

/// The identifier that ties a tool result to its call.
#[derive(Debug, PartialEq, Eq, Hash)]
pub struct ToolCallId(pub String);

/// One tool call.
#[derive(Debug)]
pub struct ToolCall {
    /// The identifier of the call.
    pub id: ToolCallId,
    /// The name of the tool.
    pub name: String,
    /// The arguments, as the model wrote them.
    pub arguments: serde_json::Value,
}

/// The model-facing description of a tool.
#[derive(Debug, Clone)]
pub struct ToolSchema {
    /// The name of the tool.
    pub name: String,
    /// What the tool does.
    pub description: String,
    /// The JSON schema of its arguments.
    pub parameters: Json,
}

/// What a tool gives back.
#[derive(Debug)]
pub enum ToolOutput {
    /// The call succeeded.
    Text(String),
    /// The call failed.
    Error(String),
}

/// Why the model stopped.
#[derive(Debug, Clone)]
pub enum FinishReason {
    /// The reason that the provider gave.
    Known(String),
    /// The provider gave none.
    Missing,
}

/// One request to a model.
#[derive(Debug, Clone)]
pub struct LlmRequest {
    /// The system prompt.
    pub system_prompt: String,
    /// The transcript so far.
    pub conversation: Vec<ConversationItem>,
    /// The tools that the model may call.
    pub tools: Vec<ToolSchema>,
}

/// One response of a model.
#[derive(Debug, Clone)]
pub struct LlmResponse {
    /// The visible text.
    pub text: String,
    /// The tool calls that the model asks for, in its order.
    pub tool_calls: Vec<ToolCall>,
    /// Why the model stopped.
    pub finish_reason: FinishReason,
}

/// The model of a [`ConversationItem`].
pub enum ConversationItemView {
    /// What the user wrote.
    User(Seq<char>),
    /// What the model answered.
    Assistant(AssistantTurnView),
    /// What a tool gave back.
    Tool(ToolTurnView),
}

/// The model of an [`AssistantTurn`].
pub struct AssistantTurnView {
    /// The visible text.
    pub text: Seq<char>,
    /// The tool calls.
    pub tool_calls: Seq<ToolCallView>,
}

/// The model of a [`ToolTurn`].
pub struct ToolTurnView {
    /// The call that the result answers.
    pub call_id: Seq<char>,
    /// The result.
    pub output: ToolOutputView,
}

/// The model of a [`ToolCall`].
pub struct ToolCallView {
    /// The identifier of the call.
    pub id: Seq<char>,
    /// The name of the tool.
    pub name: Seq<char>,
    /// The arguments.
    pub arguments: serde_json::Value,
}

/// The model of a [`ToolSchema`].
pub struct ToolSchemaView {
    /// The name of the tool.
    pub name: Seq<char>,
    /// What the tool does.
    pub description: Seq<char>,
    /// The JSON schema of its arguments.
    pub parameters: JsonView,
}

/// The model of a [`ToolOutput`].
pub enum ToolOutputView {
    /// The call succeeded.
    Text(Seq<char>),
    /// The call failed.
    Error(Seq<char>),
}

/// The model of an [`LlmRequest`].
pub struct LlmRequestView {
    /// The system prompt.
    pub system_prompt: Seq<char>,
    /// The transcript.
    pub conversation: Seq<ConversationItemView>,
    /// The tools.
    pub tools: Seq<ToolSchemaView>,
}

/// The model of an [`LlmResponse`].
pub struct LlmResponseView {
    /// The visible text.
    pub text: Seq<char>,
    /// The tool calls.
    pub tool_calls: Seq<ToolCallView>,
    /// Why the model stopped, where the provider said so.
    pub finish_reason: Option<Seq<char>>,
}

impl View for ConversationItem {
    type V = ConversationItemView;

    open spec fn view(&self) -> ConversationItemView {
        match self {
            ConversationItem::User(text) => ConversationItemView::User(text@),
            ConversationItem::Assistant(turn) => ConversationItemView::Assistant(turn@),
            ConversationItem::Tool(turn) => ConversationItemView::Tool(turn@),
        }
    }
}

impl View for AssistantTurn {
    type V = AssistantTurnView;

    open spec fn view(&self) -> AssistantTurnView {
        AssistantTurnView {
            text: self.text@,
            tool_calls: views::views(self.tool_calls@),
        }
    }
}

impl View for ToolTurn {
    type V = ToolTurnView;

    open spec fn view(&self) -> ToolTurnView {
        ToolTurnView { call_id: self.call_id@, output: self.output@ }
    }
}

impl View for ToolCallId {
    type V = Seq<char>;

    open spec fn view(&self) -> Seq<char> {
        self.0@
    }
}

impl View for ToolCall {
    type V = ToolCallView;

    open spec fn view(&self) -> ToolCallView {
        ToolCallView { id: self.id@, name: self.name@, arguments: self.arguments }
    }
}

impl View for ToolSchema {
    type V = ToolSchemaView;

    open spec fn view(&self) -> ToolSchemaView {
        ToolSchemaView {
            name: self.name@,
            description: self.description@,
            parameters: self.parameters@,
        }
    }
}

impl View for ToolOutput {
    type V = ToolOutputView;

    open spec fn view(&self) -> ToolOutputView {
        match self {
            ToolOutput::Text(text) => ToolOutputView::Text(text@),
            ToolOutput::Error(message) => ToolOutputView::Error(message@),
        }
    }
}

impl View for FinishReason {
    type V = Option<Seq<char>>;

    open spec fn view(&self) -> Option<Seq<char>> {
        match self {
            FinishReason::Known(reason) => Some(reason@),
            FinishReason::Missing => None,
        }
    }
}

impl View for LlmRequest {
    type V = LlmRequestView;

    open spec fn view(&self) -> LlmRequestView {
        LlmRequestView {
            system_prompt: self.system_prompt@,
            conversation: views::views(self.conversation@),
            tools: views::views(self.tools@),
        }
    }
}

impl View for LlmResponse {
    type V = LlmResponseView;

    open spec fn view(&self) -> LlmResponseView {
        LlmResponseView {
            text: self.text@,
            tool_calls: views::views(self.tool_calls@),
            finish_reason: self.finish_reason@,
        }
    }
}

impl Clone for ToolCallId {
    fn clone(&self) -> (copy: ToolCallId)
        ensures
            copy@ == self@,
    {
        ToolCallId(self.0.clone())
    }
}

impl Clone for ToolCall {
    fn clone(&self) -> (copy: ToolCall)
        ensures
            copy@ == self@,
    {
        ToolCall {
            id: self.id.clone(),
            name: self.name.clone(),
            arguments: self.arguments.clone(),
        }
    }
}

impl Clone for ToolOutput {
    fn clone(&self) -> (copy: ToolOutput)
        ensures
            copy@ == self@,
    {
        match self {
            ToolOutput::Text(text) => ToolOutput::Text(text.clone()),
            ToolOutput::Error(message) => ToolOutput::Error(message.clone()),
        }
    }
}

impl Clone for ToolTurn {
    fn clone(&self) -> (copy: ToolTurn)
        ensures
            copy@ == self@,
    {
        ToolTurn { call_id: self.call_id.clone(), output: self.output.clone() }
    }
}

impl Clone for AssistantTurn {
    fn clone(&self) -> (copy: AssistantTurn)
        ensures
            copy@ == self@,
    {
        AssistantTurn { text: self.text.clone(), tool_calls: copy_calls(&self.tool_calls) }
    }
}

impl Clone for ConversationItem {
    fn clone(&self) -> (copy: ConversationItem)
        ensures
            copy@ == self@,
    {
        match self {
            ConversationItem::User(text) => ConversationItem::User(text.clone()),
            ConversationItem::Assistant(turn) => ConversationItem::Assistant(turn.clone()),
            ConversationItem::Tool(turn) => ConversationItem::Tool(turn.clone()),
        }
    }
}

/// Copies a list of tool calls.
pub fn copy_calls(calls: &Vec<ToolCall>) -> (copies: Vec<ToolCall>)
    ensures
        views::views(copies@) == views::views(calls@),
{
    let copies = calls.clone();
    assert(views::views(copies@) =~= views::views(calls@));
    copies
}

/// Copies a transcript.
pub fn copy_conversation(items: &Vec<ConversationItem>) -> (copies: Vec<ConversationItem>)
    ensures
        views::views(copies@) == views::views(items@),
{
    let copies = items.clone();
    assert(views::views(copies@) =~= views::views(items@));
    copies
}

impl ToolOutputView {
    /// The text of a tool output for the model and the terminal.
    pub open spec fn rendered(self) -> Seq<char> {
        match self {
            ToolOutputView::Text(text) => text,
            ToolOutputView::Error(message) => "Error: "@ + message,
        }
    }

    /// Whether the output stands for a failed call.
    pub open spec fn failed(self) -> bool {
        self is Error
    }
}

impl ToolOutput {
    /// Renders tool output for model feedback and terminal display.
    ///
    /// Text results pass through unchanged, while errors get a visible prefix.
    pub fn as_text(&self) -> (text: String)
        ensures
            text@ == self@.rendered(),
    {
        match self {
            ToolOutput::Text(text) => text.clone(),
            ToolOutput::Error(message) => {
                let mut text = "Error: ".to_string();
                text.append(message.as_str());
                text
            },
        }
    }

    /// Reports whether this output represents a failed tool call.
    pub fn is_error(&self) -> (failed: bool)
        ensures
            failed == self@.failed(),
    {
        match self {
            ToolOutput::Text(_) => false,
            ToolOutput::Error(_) => true,
        }
    }
}

/// The label of a finish reason: the provider's word, or `missing`.
pub open spec fn finish_label(reason: Option<Seq<char>>) -> Seq<char> {
    match reason {
        Some(word) => word,
        None => "missing"@,
    }
}

impl FinishReason {
    /// Builds a typed finish reason from an optional provider field.
    ///
    /// An absent field stays absent: no default word is made up.
    pub fn from_provider(value: Option<String>) -> (reason: FinishReason)
        ensures
            match value {
                Some(word) => reason == FinishReason::Known(word),
                None => reason == FinishReason::Missing,
            },
    {
        match value {
            Some(reason) => FinishReason::Known(reason),
            None => FinishReason::Missing,
        }
    }

    /// Renders the finish reason for terminal output.
    pub fn as_label(&self) -> (label: &str)
        ensures
            label@ == finish_label(self@),
    {
        match self {
            FinishReason::Known(reason) => reason.as_str(),
            FinishReason::Missing => "missing",
        }
    }
}

} // verus!
