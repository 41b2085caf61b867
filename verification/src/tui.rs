//! Acty's minimal terminal chat interface.
//!
//! The frontend is line-oriented. This module decides what a line or a runtime
//! event leads to and how an event reads; the terminal itself is elsewhere.

use crate::messages::{SystemMsg, UiEvent, UiEventView};
use crate::text::{self, decimal_text, same_text, trim_text};
use vstd::prelude::*;
use vstd::string::*;

verus! {

/// What an event looks like on the terminal.
pub open spec fn shown(event: UiEventView) -> Seq<char> {
    match event {
        UiEventView::UserMessage(text) => "user: "@ + text + "\n"@,
        UiEventView::TurnStart(turn) => "\n[turn "@ + text::decimal(turn) + "]\n"@,
        UiEventView::AssistantMessage { text, tool_calls, finish_reason } => {
            (if text.len() == 0 {
                Seq::empty()
            } else {
                "assistant: "@ + text + "\n"@
            }) + (if tool_calls == 0 {
                Seq::empty()
            } else {
                "[assistant requested "@ + text::decimal(tool_calls) + " tool call(s)]\n"@
            }) + ("[finish_reason="@ + finish_reason + "]\n"@)
        },
        UiEventView::ToolStart { name, arguments } => {
            "[tool start] "@ + name + " "@ + arguments + "\n"@
        },
        UiEventView::ToolEnd { name, ok, output } => {
            "[tool end] "@ + name + (if ok {
                " ok\n"@
            } else {
                " error\n"@
            }) + output + "\n"@
        },
        UiEventView::PromptDone => "[done]\n"@,
        UiEventView::Error(message) => "[error] "@ + message + "\n"@,
    }
}

/// Joins three texts.
fn three(first: &str, second: &str, third: &str) -> (text: String)
    ensures
        text@ == first@ + second@ + third@,
{
    let mut text = first.to_string();
    text.append(second);
    text.append(third);
    text
}

/// Renders what the model answered.
fn render_assistant_message(text: &str, tool_calls: usize, finish_reason: &str) -> (lines: String)
    ensures
        lines@ == shown(
            UiEventView::AssistantMessage {
                text: text@,
                tool_calls: tool_calls as nat,
                finish_reason: finish_reason@,
            },
        ),
{
    let mut lines = if text.is_empty() {
        String::new()
    } else {
        three("assistant: ", text, "\n")
    };
    let ghost said = lines@;
    let mut requested = String::new();
    if tool_calls > 0 {
        requested = three(
            "[assistant requested ",
            decimal_text(tool_calls as u128).as_str(),
            " tool call(s)]\n",
        );
    }
    lines.append(requested.as_str());
    let finished = three("[finish_reason=", finish_reason, "]\n");
    lines.append(finished.as_str());
    assert(lines@ =~= said + requested@ + finished@);
    lines
}

/// Renders one runtime event in a compact teaching-friendly format.
pub fn render_event(event: &UiEvent) -> (lines: String)
    ensures
        lines@ == shown(event@),
{
    match event {
        UiEvent::UserMessage(text) => three("user: ", text.as_str(), "\n"),
        UiEvent::TurnStart(turn) => three(
            "\n[turn ",
            decimal_text(*turn as u128).as_str(),
            "]\n",
        ),
        UiEvent::AssistantMessage { text, tool_calls, finish_reason } => render_assistant_message(
            text.as_str(),
            *tool_calls,
            finish_reason.as_str(),
        ),
        UiEvent::ToolStart { name, arguments } => {
            let mut lines = three("[tool start] ", name.as_str(), " ");
            lines.append(arguments.as_str());
            lines.append("\n");
            lines
        },
        UiEvent::ToolEnd { name, ok, output } => {
            let status = if *ok {
                " ok\n"
            } else {
                " error\n"
            };
            let mut lines = three("[tool end] ", name.as_str(), status);
            lines.append(output.as_str());
            lines.append("\n");
            lines
        },
        UiEvent::PromptDone => "[done]\n".to_string(),
        UiEvent::Error(message) => three("[error] ", message.as_str(), "\n"),
    }
}

/// What the chat starts with.
pub fn greeting() -> (text: String)
    ensures
        text@ == "acty teaching chat. Type a prompt, or /quit.\n> "@,
{
    "acty teaching chat. Type a prompt, or /quit.\n> ".to_string()
}

/// What the chat writes where it waits for a line.
pub fn prompt_mark() -> (text: String)
    ensures
        text@ == "> "@,
{
    "> ".to_string()
}

/// What the chat waits for.
#[derive(Debug)]
pub enum ChatInput {
    /// The user wrote a line.
    Line(String),
    /// There will be no more lines.
    EndOfInput,
    /// The runtime has something to show.
    Event(UiEvent),
    /// The runtime will show nothing more.
    RuntimeEnded,
}

/// What the chat does next.
#[derive(Debug)]
pub enum ChatStep {
    /// It waits for more.
    Wait,
    /// It hands a message to the runtime, which has to take it.
    Send(SystemMsg),
    /// It prints a text, and the prompt mark after it.
    Print(String),
    /// It tells the runtime to shut down, whether or not that still listens, and leaves.
    Quit,
    /// It leaves.
    Leave,
}

/// Decides what an input to the chat leads to.
///
/// A blank line is ignored. Every other line but the command to quit goes to the
/// runtime as it was typed.
pub fn chat(input: ChatInput) -> (step: ChatStep)
    ensures
        match input {
            ChatInput::Line(line) => if text::trimmed(line@) == "/quit"@ {
                step == ChatStep::Quit
            } else if text::trimmed(line@).len() == 0 {
                step == ChatStep::Wait
            } else {
                step == ChatStep::Send(SystemMsg::UserMessage { text: line })
            },
            ChatInput::EndOfInput => step == ChatStep::Leave,
            ChatInput::Event(event) => step matches ChatStep::Print(lines) && lines@ == shown(
                event@,
            ),
            ChatInput::RuntimeEnded => step == ChatStep::Leave,
        },
{
    match input {
        ChatInput::Line(line) => {
            let trimmed = trim_text(line.as_str());
            if same_text(trimmed, "/quit") {
                ChatStep::Quit
            } else if trimmed.is_empty() {
                ChatStep::Wait
            } else {
                ChatStep::Send(SystemMsg::UserMessage { text: line })
            }
        },
        ChatInput::EndOfInput => ChatStep::Leave,
        ChatInput::Event(event) => ChatStep::Print(render_event(&event)),
        ChatInput::RuntimeEnded => ChatStep::Leave,
    }
}

/// What a single prompt does with an event.
#[derive(Debug)]
pub struct PromptStep {
    /// What it prints.
    pub lines: String,
    /// Whether the prompt has been dealt with, so that the runtime is told to shut down.
    pub complete: bool,
}

/// Decides what a runtime event leads to while one prompt is being dealt with.
pub fn one_prompt(event: UiEvent) -> (step: PromptStep)
    ensures
        step.lines@ == shown(event@),
        step.complete == (event@ is PromptDone),
{
    let complete = event.is_prompt_done();
    PromptStep { lines: render_event(&event), complete }
}

} // verus!
