//! The coding loop, from prompt to answer.

use acty::agent::{ends_agent, AgentAction, AgentActor, AgentPhase, RuntimeIdentity};
use acty::config::{
    AgentConfig, AuthConfig, LlmConfig, LlmProtocol, Temperature, ToolsConfig,
};
use acty::messages::{AgentMsg, UiEvent};
use acty::pending::PendingCalls;
use acty::protocol::{
    ConversationItem, FinishReason, LlmResponse, ToolCall, ToolCallId, ToolOutput,
};
use acty::tools::{ToolBatch, ToolError};

fn llm_config() -> LlmConfig {
    LlmConfig {
        provider_label: "Local".to_string(),
        protocol: LlmProtocol::Anthropic,
        base_url: "http://localhost".to_string(),
        auth: AuthConfig::NoAuth,
        model: "m-1".to_string(),
        max_tokens: 100,
        temperature: Temperature::ProviderDefault,
    }
}

fn agent(max_turns: u32) -> AgentActor {
    AgentActor::new(
        AgentConfig { max_turns, system_prompt: "Be brief.".to_string() },
        RuntimeIdentity::from_llm_config(&llm_config()),
        ToolsConfig {
            allowed: vec!["Read".to_string(), "Bash".to_string()],
            bash_timeout_secs: 1,
            output_byte_limit: 100,
        },
    )
}

fn call(id: &str, name: &str) -> ToolCall {
    ToolCall {
        id: ToolCallId(id.to_string()),
        name: name.to_string(),
        arguments: serde_json::from_str("{ \"path\" : \"a\" }").unwrap(),
    }
}

fn user(text: &str) -> AgentMsg {
    AgentMsg::UserMessage { text: text.to_string() }
}

fn answer(text: &str, tool_calls: Vec<ToolCall>) -> AgentMsg {
    AgentMsg::LlmFinished(Ok(LlmResponse {
        text: text.to_string(),
        tool_calls,
        finish_reason: FinishReason::Missing,
    }))
}

fn finished(id: &str, name: &str, output: ToolOutput) -> AgentMsg {
    AgentMsg::ToolFinished { call_id: ToolCallId(id.to_string()), name: name.to_string(), output }
}

fn done(text: &str) -> ToolOutput {
    ToolOutput::Text(text.to_string())
}

fn describe(action: &AgentAction) -> String {
    match action {
        AgentAction::Show(UiEvent::UserMessage(text)) => format!("user {text}"),
        AgentAction::Show(UiEvent::TurnStart(turn)) => format!("turn {turn}"),
        AgentAction::Show(UiEvent::AssistantMessage { text, tool_calls, finish_reason }) => {
            format!("assistant {text} {tool_calls} {finish_reason}")
        }
        AgentAction::Show(UiEvent::ToolStart { name, arguments }) => {
            format!("start {name} {arguments}")
        }
        AgentAction::Show(UiEvent::ToolEnd { name, ok, output }) => {
            format!("end {name} {ok} {output}")
        }
        AgentAction::Show(UiEvent::PromptDone) => "done".to_string(),
        AgentAction::Show(UiEvent::Error(message)) => format!("error {message}"),
        AgentAction::Generate(request) => format!("generate {}", request.conversation.len()),
        AgentAction::Dispatch(calls) => {
            let ids: Vec<&str> = calls.iter().map(|call| call.id.0.as_str()).collect();
            format!("dispatch {}", ids.join(","))
        }
    }
}

/// Handles a message with every delivery succeeding.
fn tell(agent: &mut AgentActor, message: AgentMsg) -> Vec<String> {
    let mut actions = Vec::new();
    let mut next = agent.handle(message);
    while let Some(action) = next {
        actions.push(describe(&action));
        assert!(!agent.next_turn_overflows());
        next = agent.resume(Ok(()));
    }
    actions
}

/// Handles a message with the delivery at `failing`, and every later one, failing.
fn tell_failing(agent: &mut AgentActor, message: AgentMsg, failing: usize) -> Vec<String> {
    let mut actions = Vec::new();
    let mut next = agent.handle(message);
    while let Some(action) = next {
        let sent = if actions.len() >= failing { Err("channel closed".to_string()) } else { Ok(()) };
        actions.push(describe(&action));
        next = agent.resume(sent);
    }
    actions
}

fn roles(agent: &AgentActor) -> Vec<String> {
    agent
        .conversation()
        .iter()
        .map(|item| match item {
            ConversationItem::User(text) => format!("user {text}"),
            ConversationItem::Assistant(turn) => {
                format!("assistant {} {}", turn.text, turn.tool_calls.len())
            }
            ConversationItem::Tool(turn) => {
                format!("tool {} {}", turn.call_id.0, turn.output.as_text())
            }
        })
        .collect()
}

#[test]
fn user_message_starts_the_first_turn() {
    let mut agent = agent(3);
    assert!(matches!(agent.phase(), AgentPhase::Idle));
    assert_eq!(tell(&mut agent, user("hi")), vec!["user hi", "turn 1", "generate 1"]);
    assert!(matches!(agent.phase(), AgentPhase::WaitingForLlm));
    assert_eq!(roles(&agent), vec!["user hi"]);
    assert_eq!(agent.turn(), 1);
}

#[test]
fn parts_of_the_loop_can_be_driven_one_by_one() {
    let mut agent = agent(3);
    assert_eq!(describe(&agent.handle_user_message("hi".to_string())), "user hi");
    while agent.resume(Ok(())).is_some() {}
    let response = LlmResponse {
        text: "ok".to_string(),
        tool_calls: vec![call("c1", "Read")],
        finish_reason: FinishReason::Missing,
    };
    assert_eq!(describe(&agent.handle_llm_finished(Ok(response))), "assistant ok 1 missing");
    while agent.resume(Ok(())).is_some() {}
    let id = ToolCallId("c1".to_string());
    let shown = agent.handle_tool_finished(id, "Read".to_string(), done("r"));
    assert_eq!(describe(&shown), "end Read true r");
    while agent.resume(Ok(())).is_some() {}
    assert_eq!(agent.turn(), 2);
    assert_eq!(describe(&agent.start_llm_turn()), "turn 3");
    assert_eq!(describe(&agent.resume(Ok(())).unwrap()), "generate 3");
}

#[test]
fn request_carries_prompt_transcript_and_tools() {
    let mut agent = agent(3);
    agent.handle(user("hi"));
    agent.resume(Ok(()));
    let request = match agent.resume(Ok(())) {
        Some(AgentAction::Generate(request)) => request,
        other => panic!("{other:?}"),
    };
    assert_eq!(
        request.system_prompt,
        "Be brief.\n\nRuntime identity:\n- Provider: Local\n- Protocol: Anthropic Messages API\n\
         - Model: m-1\n\nIf the user asks what model or provider you are using, answer from these \
         runtime identity facts."
    );
    let names: Vec<&str> = request.tools.iter().map(|tool| tool.name.as_str()).collect();
    assert_eq!(names, vec!["Read", "Bash"]);
    assert_eq!(request.conversation.len(), 1);
}

#[test]
fn plain_answer_ends_the_prompt() {
    let mut agent = agent(3);
    tell(&mut agent, user("hi"));
    assert_eq!(tell(&mut agent, answer("hello", vec![])), vec!["assistant hello 0 missing", "done"]);
    assert!(matches!(agent.phase(), AgentPhase::Idle));
    assert_eq!(roles(&agent), vec!["user hi", "assistant hello 0"]);
}

#[test]
fn failed_request_ends_the_prompt() {
    let mut agent = agent(3);
    tell(&mut agent, user("hi"));
    let failed = AgentMsg::LlmFinished(Err("no network".to_string()));
    assert_eq!(tell(&mut agent, failed), vec!["error no network", "done"]);
    assert!(matches!(agent.phase(), AgentPhase::Idle));
    assert_eq!(roles(&agent), vec!["user hi"]);
}

#[test]
fn tool_calls_are_dispatched_in_order() {
    let mut agent = agent(3);
    tell(&mut agent, user("go"));
    let calls = vec![call("c1", "Read"), call("c2", "Bash")];
    assert_eq!(
        tell(&mut agent, answer("", calls)),
        vec![
            "assistant  2 missing",
            "start Read {\"path\":\"a\"}",
            "start Bash {\"path\":\"a\"}",
            "dispatch c1,c2"
        ]
    );
    assert!(matches!(agent.phase(), AgentPhase::WaitingForTools { .. }));
}

#[test]
fn results_in_any_order_start_the_next_turn() {
    let mut agent = agent(3);
    tell(&mut agent, user("go"));
    tell(&mut agent, answer("ok", vec![call("c1", "Read"), call("c2", "Bash")]));
    assert_eq!(tell(&mut agent, finished("c2", "Bash", done("b"))), vec!["end Bash true b"]);
    assert_eq!(
        tell(&mut agent, finished("c1", "Read", ToolOutput::Error("x".to_string()))),
        vec!["end Read false Error: x", "turn 2", "generate 4"]
    );
    assert_eq!(
        roles(&agent),
        vec!["user go", "assistant ok 2", "tool c2 b", "tool c1 Error: x"]
    );
}

#[test]
fn executed_batch_starts_the_next_turn() {
    let mut agent = agent(3);
    tell(&mut agent, user("go"));
    let calls = vec![call("c1", "Read"), call("c2", "Deploy")];
    tell(&mut agent, answer("", calls.clone()));
    let mut batch = ToolBatch::new(calls);
    let first = batch.finish(Ok(done("r")));
    assert_eq!(tell(&mut agent, first), vec!["end Read true r"]);
    let second = batch.finish(Err(ToolError::NotAllowed));
    assert_eq!(
        tell(&mut agent, second),
        vec![
            "end Deploy false Error: tool 'Deploy' failed: tool is not allowed by config",
            "turn 2",
            "generate 4"
        ]
    );
    assert!(batch.current().is_none());
}

#[test]
fn turn_cap_ends_the_prompt() {
    let mut agent = agent(1);
    tell(&mut agent, user("go"));
    tell(&mut agent, answer("", vec![call("c1", "Read")]));
    assert_eq!(
        tell(&mut agent, finished("c1", "Read", done("r"))),
        vec!["end Read true r", "turn 2", "error turn cap reached at 1", "done"]
    );
    assert!(matches!(agent.phase(), AgentPhase::Idle));
}

#[test]
fn zero_turns_never_ask_the_model() {
    let mut agent = agent(0);
    assert_eq!(
        tell(&mut agent, user("go")),
        vec!["user go", "turn 1", "error turn cap reached at 0", "done"]
    );
}

#[test]
fn every_prompt_counts_its_own_turns() {
    let mut agent = agent(1);
    tell(&mut agent, user("one"));
    tell(&mut agent, answer("a", vec![]));
    assert_eq!(tell(&mut agent, user("two")), vec!["user two", "turn 1", "generate 3"]);
}

#[test]
fn stale_result_is_recorded_and_reported() {
    let mut agent = agent(3);
    assert_eq!(
        tell(&mut agent, finished("c9", "Read", done("r"))),
        vec!["end Read true r", "error received stale tool result for Read"]
    );
    assert_eq!(roles(&agent), vec!["tool c9 r"]);
    assert!(matches!(agent.phase(), AgentPhase::Idle));
}

#[test]
fn repeated_identifiers_wait_for_one_result() {
    let mut agent = agent(3);
    tell(&mut agent, user("go"));
    tell(&mut agent, answer("", vec![call("c1", "Read"), call("c1", "Read")]));
    assert_eq!(
        tell(&mut agent, finished("c1", "Read", done("r"))),
        vec!["end Read true r", "turn 2", "generate 3"]
    );
    assert_eq!(
        tell(&mut agent, finished("c1", "Read", done("r"))),
        vec!["end Read true r", "error received stale tool result for Read"]
    );
}

#[test]
fn prompt_asks_no_more_often_than_the_cap() {
    let mut agent = agent(3);
    let mut actions = tell(&mut agent, user("go"));
    for round in 0..6 {
        let id = format!("c{round}");
        actions.extend(tell(&mut agent, answer("", vec![call(&id, "Read")])));
        actions.extend(tell(&mut agent, finished(&id, "Read", done("r"))));
    }
    let mut asked = 0;
    for (i, action) in actions.iter().enumerate() {
        if action.starts_with("generate") {
            asked += 1;
            assert_eq!(actions[i - 1], format!("turn {asked}"));
        }
    }
    assert_eq!(asked, 3);
}

#[test]
fn only_shutdown_ends_the_agent() {
    assert!(ends_agent(&AgentMsg::Shutdown));
    assert!(!ends_agent(&user("hi")));
    assert!(!ends_agent(&AgentMsg::LlmFinished(Err("x".to_string()))));
}

#[test]
fn shutdown_asks_for_nothing() {
    let mut agent = agent(3);
    assert!(agent.handle(AgentMsg::Shutdown).is_none());
}

#[test]
fn failed_delivery_ends_the_prompt() {
    let mut agent = agent(3);
    assert_eq!(
        tell_failing(&mut agent, user("go"), 2),
        vec!["user go", "turn 1", "generate 1", "error channel closed", "done"]
    );
    assert!(matches!(agent.phase(), AgentPhase::Idle));
    assert_eq!(roles(&agent), vec!["user go"]);
}

#[test]
fn undelivered_user_message_is_not_recorded() {
    let mut agent = agent(3);
    assert_eq!(
        tell_failing(&mut agent, user("go"), 0),
        vec!["user go", "error channel closed", "done"]
    );
    assert!(roles(&agent).is_empty());
}

#[test]
fn transcript_only_grows() {
    let mut agent = agent(2);
    let messages = vec![
        user("a"),
        answer("b", vec![call("c1", "Read")]),
        finished("c1", "Read", done("r")),
        AgentMsg::LlmFinished(Err("x".to_string())),
        user("d"),
    ];
    let mut before = roles(&agent);
    for message in messages {
        tell(&mut agent, message);
        let after = roles(&agent);
        assert!(after.starts_with(&before));
        before = after;
    }
}

#[test]
fn pending_calls_are_a_map_of_identifiers() {
    let mut pending =
        PendingCalls::of_batch(&vec![call("a", "Read"), call("b", "Bash"), call("a", "Edit")]);
    assert!(!pending.is_empty());
    pending.remove(&ToolCallId("zzz".to_string()));
    pending.remove(&ToolCallId("a".to_string()));
    assert!(!pending.is_empty());
    assert!(pending.is_settled_by(&ToolCallId("b".to_string())));
    assert!(!pending.is_settled_by(&ToolCallId("a".to_string())));
    pending.remove(&ToolCallId("b".to_string()));
    assert!(pending.is_empty());
    assert!(pending.is_settled_by(&ToolCallId("b".to_string())));
    assert!(PendingCalls::of_batch(&vec![]).is_empty());
}
