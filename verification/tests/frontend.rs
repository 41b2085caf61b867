//! The vocabulary, the supervisor and the terminal frontend.

use acty::actor::MailboxClosed;
use acty::agent::RuntimeIdentity;
use acty::config::{AuthConfig, LlmConfig, LlmProtocol, Temperature, ToolsConfig};
use acty::messages::{AgentMsg, LlmMsg, SystemMsg, ToolRegistryMsg, UiEvent};
use acty::protocol::{
    copy_calls, copy_conversation, ConversationItem, FinishReason, ToolCall, ToolCallId,
    ToolOutput, ToolTurn,
};
use acty::system::{shutdown_children, supervise, ChildMsg};
use acty::tui::{chat, greeting, one_prompt, prompt_mark, render_event, ChatInput, ChatStep};

fn line(text: &str) -> ChatStep {
    chat(ChatInput::Line(text.to_string()))
}

#[test]
fn protocols_have_labels() {
    assert_eq!(LlmProtocol::Openai.label(), "OpenAI-compatible Chat Completions");
    assert_eq!(LlmProtocol::Anthropic.label(), "Anthropic Messages API");
}

#[test]
fn allow_list_is_exact() {
    let config = ToolsConfig {
        allowed: vec!["Read".to_string()],
        bash_timeout_secs: 1,
        output_byte_limit: 1,
    };
    assert!(config.is_allowed("Read"));
    assert!(!config.is_allowed("read"));
    assert!(!config.is_allowed("Rea"));
    assert!(!config.is_allowed(""));
}

#[test]
fn identity_is_appended_to_the_prompt() {
    let identity = RuntimeIdentity::from_llm_config(&LlmConfig {
        provider_label: "Acme".to_string(),
        protocol: LlmProtocol::Openai,
        base_url: "http://elsewhere".to_string(),
        auth: AuthConfig::NoAuth,
        model: "big".to_string(),
        max_tokens: 1,
        temperature: Temperature::ProviderDefault,
    });
    assert_eq!(
        identity.clone().append_to_system_prompt("You code."),
        "You code.\n\nRuntime identity:\n- Provider: Acme\n- Protocol: OpenAI-compatible Chat \
         Completions\n- Model: big\n\nIf the user asks what model or provider you are using, \
         answer from these runtime identity facts."
    );
}

#[test]
fn tool_output_marks_errors() {
    let text = ToolOutput::Text("fine".to_string());
    let error = ToolOutput::Error("bad".to_string());
    assert_eq!(text.as_text(), "fine");
    assert!(!text.is_error());
    assert_eq!(error.as_text(), "Error: bad");
    assert!(error.is_error());
}

#[test]
fn finish_reason_is_never_made_up() {
    assert_eq!(FinishReason::from_provider(Some("stop".to_string())).as_label(), "stop");
    assert!(matches!(FinishReason::from_provider(None), FinishReason::Missing));
    assert_eq!(FinishReason::Missing.as_label(), "missing");
}

#[test]
fn copies_are_the_same() {
    let call = ToolCall {
        id: ToolCallId("c1".to_string()),
        name: "Read".to_string(),
        arguments: serde_json::from_str("[null]").unwrap(),
    };
    let copies = copy_calls(&vec![call]);
    assert_eq!(copies[0].id, ToolCallId("c1".to_string()));
    assert_eq!(copies[0].arguments.to_string(), "[null]");
    let items = vec![ConversationItem::Tool(ToolTurn {
        call_id: ToolCallId("c1".to_string()),
        output: ToolOutput::Text("x".to_string()),
    })];
    assert_eq!(format!("{:?}", copy_conversation(&items)), format!("{items:?}"));
}

#[test]
fn closed_mailbox_says_so() {
    assert_eq!(MailboxClosed.message(), "actor mailbox is closed");
}

#[test]
fn user_messages_go_to_the_agent() {
    let supervision = supervise(SystemMsg::UserMessage { text: "hi".to_string() });
    assert!(!supervision.stop);
    match supervision.sends.as_slice() {
        [ChildMsg::Agent(AgentMsg::UserMessage { text })] => assert_eq!(text, "hi"),
        other => panic!("{other:?}"),
    }
}

#[test]
fn shutdown_reaches_every_child() {
    let supervision = supervise(SystemMsg::Shutdown);
    assert!(supervision.stop);
    for sends in [supervision.sends, shutdown_children()] {
        assert!(matches!(
            sends.as_slice(),
            [
                ChildMsg::Agent(AgentMsg::Shutdown),
                ChildMsg::Llm(LlmMsg::Shutdown),
                ChildMsg::Tools(ToolRegistryMsg::Shutdown)
            ]
        ));
    }
}

#[test]
fn chat_greets() {
    assert_eq!(greeting(), "acty teaching chat. Type a prompt, or /quit.\n> ");
    assert_eq!(prompt_mark(), "> ");
    assert!(greeting().ends_with(&prompt_mark()));
}

#[test]
fn chat_quits_on_command() {
    assert!(matches!(line("/quit"), ChatStep::Quit));
    assert!(matches!(line("  /quit\t"), ChatStep::Quit));
}

#[test]
fn chat_ignores_blank_lines() {
    assert!(matches!(line(""), ChatStep::Wait));
    assert!(matches!(line(" \u{3000}"), ChatStep::Wait));
}

#[test]
fn chat_sends_lines_as_typed() {
    for typed in [" hello ", "/quit now", "/Quit"] {
        match line(typed) {
            ChatStep::Send(SystemMsg::UserMessage { text }) => assert_eq!(text, typed),
            other => panic!("{other:?}"),
        }
    }
}

#[test]
fn chat_leaves_when_either_side_ends() {
    assert!(matches!(chat(ChatInput::EndOfInput), ChatStep::Leave));
    assert!(matches!(chat(ChatInput::RuntimeEnded), ChatStep::Leave));
}

#[test]
fn chat_prints_events() {
    match chat(ChatInput::Event(UiEvent::PromptDone)) {
        ChatStep::Print(lines) => assert_eq!(lines, "[done]\n"),
        other => panic!("{other:?}"),
    }
}

#[test]
fn single_prompt_ends_with_the_prompt() {
    let step = one_prompt(UiEvent::PromptDone);
    assert_eq!(step.lines, "[done]\n");
    assert!(step.complete);
    let step = one_prompt(UiEvent::Error("x".to_string()));
    assert_eq!(step.lines, "[error] x\n");
    assert!(!step.complete);
    assert!(UiEvent::PromptDone.is_prompt_done());
    assert!(!UiEvent::TurnStart(1).is_prompt_done());
}

#[test]
fn events_are_rendered_line_by_line() {
    assert_eq!(render_event(&UiEvent::UserMessage("hi".to_string())), "user: hi\n");
    assert_eq!(render_event(&UiEvent::TurnStart(12)), "\n[turn 12]\n");
    assert_eq!(
        render_event(&UiEvent::ToolStart {
            name: "Read".to_string(),
            arguments: "{}".to_string()
        }),
        "[tool start] Read {}\n"
    );
    assert_eq!(
        render_event(&UiEvent::ToolEnd {
            name: "Read".to_string(),
            ok: true,
            output: "text".to_string()
        }),
        "[tool end] Read ok\ntext\n"
    );
    assert_eq!(
        render_event(&UiEvent::ToolEnd {
            name: "Bash".to_string(),
            ok: false,
            output: "Error: x".to_string()
        }),
        "[tool end] Bash error\nError: x\n"
    );
}

#[test]
fn assistant_lines_depend_on_the_answer() {
    let event = |text: &str, tool_calls| UiEvent::AssistantMessage {
        text: text.to_string(),
        tool_calls,
        finish_reason: "stop".to_string(),
    };
    assert_eq!(render_event(&event("hi", 0)), "assistant: hi\n[finish_reason=stop]\n");
    assert_eq!(
        render_event(&event("", 2)),
        "[assistant requested 2 tool call(s)]\n[finish_reason=stop]\n"
    );
    assert_eq!(
        render_event(&event("hi", 1)),
        "assistant: hi\n[assistant requested 1 tool call(s)]\n[finish_reason=stop]\n"
    );
    assert_eq!(render_event(&event("", 0)), "[finish_reason=stop]\n");
}
