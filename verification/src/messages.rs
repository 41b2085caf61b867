//! Defines the messages exchanged by Acty's system, LLM, tool, agent, and UI
//! actors.
//!
//! Each message enum is consumed by exactly one actor. The address that a reply
//! goes to travels beside a message, not in it.

use crate::protocol::{
    LlmRequest, LlmResponse, LlmResponseView, ToolCall, ToolCallId, ToolOutput, ToolOutputView,
};
use vstd::prelude::*;
use vstd::string::*;

verus! {

/// What the supervisor is told.
#[derive(Debug)]
pub enum SystemMsg {
    /// The user wrote something.
    UserMessage {
        /// What the user wrote.
        text: String,
    },
    /// The runtime ends.
    Shutdown,
}

/// What the provider actor is told.
#[derive(Debug)]
pub enum LlmMsg {
    /// Ask the model.
    Generate {
        /// The request.
        request: LlmRequest,
    },
    /// The runtime ends.
    Shutdown,
}

/// What the tool registry is told.
#[derive(Debug)]
pub enum ToolRegistryMsg {
    /// Run a batch of tool calls.
    DispatchBatch {
        /// The calls, in the model's order.
        calls: Vec<ToolCall>,
    },
    /// The runtime ends.
    Shutdown,
}

/// What the agent is told.
#[derive(Debug)]
pub enum AgentMsg {
    /// The user wrote something.
    UserMessage {
        /// What the user wrote.
        text: String,
    },
    /// The runtime ends.
    Shutdown,
    /// The model answered, or the request failed.
    LlmFinished(Result<LlmResponse, String>),
    /// A tool call ended.
    ToolFinished {
        /// The call.
        call_id: ToolCallId,
        /// The name of the tool.
        name: String,
        /// What the tool gave back.
        output: ToolOutput,
    },
}

/// What the frontend is told.
#[derive(Debug, Clone)]
pub enum UiEvent {
    /// The agent took up a user message.
    UserMessage(String),
    /// A model turn starts.
    TurnStart(u32),
    /// The model answered.
    AssistantMessage {
        /// The visible text.
        text: String,
        /// How many tool calls the model asks for.
        tool_calls: usize,
        /// The label of the finish reason.
        finish_reason: String,
    },
    /// A tool call starts.
    ToolStart {
        /// The name of the tool.
        name: String,
        /// The arguments as text.
        arguments: String,
    },
    /// A tool call ended.
    ToolEnd {
        /// The name of the tool.
        name: String,
        /// Whether the call succeeded.
        ok: bool,
        /// The output as text.
        output: String,
    },
    /// The prompt has been dealt with.
    PromptDone,
    /// Something went wrong.
    Error(String),
}

/// The model of a [`UiEvent`].
pub enum UiEventView {
    /// The agent took up a user message.
    UserMessage(Seq<char>),
    /// A model turn starts.
    TurnStart(nat),
    /// The model answered.
    AssistantMessage {
        /// The visible text.
        text: Seq<char>,
        /// How many tool calls the model asks for.
        tool_calls: nat,
        /// The label of the finish reason.
        finish_reason: Seq<char>,
    },
    /// A tool call starts.
    ToolStart {
        /// The name of the tool.
        name: Seq<char>,
        /// The arguments as text.
        arguments: Seq<char>,
    },
    /// A tool call ended.
    ToolEnd {
        /// The name of the tool.
        name: Seq<char>,
        /// Whether the call succeeded.
        ok: bool,
        /// The output as text.
        output: Seq<char>,
    },
    /// The prompt has been dealt with.
    PromptDone,
    /// Something went wrong.
    Error(Seq<char>),
}

/// The model of an [`AgentMsg`].
pub enum AgentMsgView {
    /// The user wrote something.
    UserMessage {
        /// What the user wrote.
        text: Seq<char>,
    },
    /// The runtime ends.
    Shutdown,
    /// The model answered, or the request failed.
    LlmFinished(Result<LlmResponseView, Seq<char>>),
    /// A tool call ended.
    ToolFinished {
        /// The call.
        call_id: Seq<char>,
        /// The name of the tool.
        name: Seq<char>,
        /// What the tool gave back.
        output: ToolOutputView,
    },
}

impl View for UiEvent {
    type V = UiEventView;

    open spec fn view(&self) -> UiEventView {
        match self {
            UiEvent::UserMessage(text) => UiEventView::UserMessage(text@),
            UiEvent::TurnStart(turn) => UiEventView::TurnStart(*turn as nat),
            UiEvent::AssistantMessage { text, tool_calls, finish_reason } => {
                UiEventView::AssistantMessage {
                    text: text@,
                    tool_calls: *tool_calls as nat,
                    finish_reason: finish_reason@,
                }
            },
            UiEvent::ToolStart { name, arguments } => UiEventView::ToolStart {
                name: name@,
                arguments: arguments@,
            },
            UiEvent::ToolEnd { name, ok, output } => UiEventView::ToolEnd {
                name: name@,
                ok: *ok,
                output: output@,
            },
            UiEvent::PromptDone => UiEventView::PromptDone,
            UiEvent::Error(message) => UiEventView::Error(message@),
        }
    }
}

impl View for AgentMsg {
    type V = AgentMsgView;

    open spec fn view(&self) -> AgentMsgView {
        match self {
            AgentMsg::UserMessage { text } => AgentMsgView::UserMessage { text: text@ },
            AgentMsg::Shutdown => AgentMsgView::Shutdown,
            AgentMsg::LlmFinished(Ok(response)) => AgentMsgView::LlmFinished(Ok(response@)),
            AgentMsg::LlmFinished(Err(message)) => AgentMsgView::LlmFinished(Err(message@)),
            AgentMsg::ToolFinished { call_id, name, output } => AgentMsgView::ToolFinished {
                call_id: call_id@,
                name: name@,
                output: output@,
            },
        }
    }
}

impl UiEvent {
    /// Reports whether the current user prompt has reached a terminal event.
    pub fn is_prompt_done(&self) -> (done: bool)
        ensures
            done == (self@ is PromptDone),
    {
        match self {
            UiEvent::PromptDone => true,
            _ => false,
        }
    }
}

} // verus!
