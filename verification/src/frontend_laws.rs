//! What the terminal frontend, the supervisor and the registry give for every input.
//!
//! A statement about `call_ensures` is one about every result that the function may give.

use crate::agent::ends_agent;
use crate::messages::{AgentMsg, LlmMsg, SystemMsg, ToolRegistryMsg, UiEvent, UiEventView};
use crate::system::{shutdown_children, supervise, ChildMsg, Supervision};
use crate::text;
use crate::tools::{take_up, RegistryStep};
use crate::tui::{
    self, chat, greeting, one_prompt, prompt_mark, render_event, ChatInput, ChatStep, PromptStep,
};
use vstd::prelude::*;
use vstd::string::*;

verus! {

/// What every event looks like on the terminal.
pub proof fn lemma_events_are_shown_in_full(event: UiEventView)
    ensures
        match event {
            UiEventView::UserMessage(said) => tui::shown(event) == "user: "@ + said + "\n"@,
            UiEventView::TurnStart(number) => tui::shown(event) == "\n[turn "@ + text::decimal(
                number,
            ) + "]\n"@,
            UiEventView::AssistantMessage { text: said, tool_calls, finish_reason } => {
                let end = "[finish_reason="@ + finish_reason + "]\n"@;
                let asked = "[assistant requested "@ + text::decimal(tool_calls)
                    + " tool call(s)]\n"@;
                let words = "assistant: "@ + said + "\n"@;
                &&& said.len() == 0 && tool_calls == 0 ==> tui::shown(event) == end
                &&& said.len() > 0 && tool_calls == 0 ==> tui::shown(event) == words + end
                &&& said.len() == 0 && tool_calls > 0 ==> tui::shown(event) == asked + end
                &&& said.len() > 0 && tool_calls > 0 ==> tui::shown(event) == words + asked + end
            },
            UiEventView::ToolStart { name, arguments } => tui::shown(event) == "[tool start] "@
                + name + " "@ + arguments + "\n"@,
            UiEventView::ToolEnd { name, ok, output } => {
                &&& ok ==> tui::shown(event) == "[tool end] "@ + name + " ok\n"@ + output + "\n"@
                &&& !ok ==> tui::shown(event) == "[tool end] "@ + name + " error\n"@ + output
                    + "\n"@
            },
            UiEventView::PromptDone => tui::shown(event) == "[done]\n"@,
            UiEventView::Error(problem) => tui::shown(event) == "[error] "@ + problem + "\n"@,
        },
{
    if let UiEventView::AssistantMessage { text: said, tool_calls, finish_reason } = event {
        let end = "[finish_reason="@ + finish_reason + "]\n"@;
        let asked = "[assistant requested "@ + text::decimal(tool_calls) + " tool call(s)]\n"@;
        let words = "assistant: "@ + said + "\n"@;
        let none = Seq::<char>::empty();
        assert(none + none + end =~= end);
        assert(words + none + end =~= words + end);
        assert(none + asked + end =~= asked + end);
    }
}

/// The model of an event says what the event says.
pub proof fn lemma_event_models_are_faithful(event: UiEvent)
    ensures
        match event {
            UiEvent::UserMessage(said) => event@ == UiEventView::UserMessage(said@),
            UiEvent::TurnStart(number) => event@ == UiEventView::TurnStart(number as nat),
            UiEvent::AssistantMessage { text: said, tool_calls, finish_reason } => event@ == (
            UiEventView::AssistantMessage {
                text: said@,
                tool_calls: tool_calls as nat,
                finish_reason: finish_reason@,
            }),
            UiEvent::ToolStart { name, arguments } => event@ == (UiEventView::ToolStart {
                name: name@,
                arguments: arguments@,
            }),
            UiEvent::ToolEnd { name, ok, output } => event@ == (UiEventView::ToolEnd {
                name: name@,
                ok,
                output: output@,
            }),
            UiEvent::PromptDone => event@ is PromptDone,
            UiEvent::Error(problem) => event@ == UiEventView::Error(problem@),
        },
{
}

/// An event is printed as what it looks like, in the chat and for a single prompt; a single
/// prompt is complete exactly with the event that ends it.
pub proof fn lemma_events_are_printed(
    event: UiEvent,
    lines: String,
    step: ChatStep,
    single: PromptStep,
)
    requires
        call_ensures(render_event, (&event,), lines),
        call_ensures(chat, (ChatInput::Event(event),), step),
        call_ensures(one_prompt, (event,), single),
    ensures
        lines@ == tui::shown(event@),
        step matches ChatStep::Print(printed) && printed@ == tui::shown(event@),
        single.lines@ == tui::shown(event@),
        single.complete <==> event is PromptDone,
{
}

/// A line goes to the runtime as it was typed, white space and all, unless it is blank, which is
/// ignored, or is the command to quit with nothing but white space around it.
pub proof fn lemma_lines_go_to_the_runtime_as_typed(line: String, step: ChatStep)
    requires
        call_ensures(chat, (ChatInput::Line(line),), step),
    ensures
        text::trimmed(line@) == "/quit"@ ==> step is Quit,
        text::trimmed(line@).len() == 0 ==> step is Wait,
        text::trimmed(line@) != "/quit"@ && text::trimmed(line@).len() > 0 ==> (
        step matches ChatStep::Send(SystemMsg::UserMessage { text: sent }) && sent@ == line@),
{
    reveal_strlit("/quit");
}

/// The chat is left when there will be no more lines, or no more events.
pub proof fn lemma_chat_ends_with_either_side(
    input: ChatInput,
    step: ChatStep,
    hello: String,
    mark: String,
)
    requires
        call_ensures(chat, (input,), step),
        call_ensures(greeting, (), hello),
        call_ensures(prompt_mark, (), mark),
    ensures
        input is EndOfInput || input is RuntimeEnded ==> step is Leave,
        hello@ == "acty teaching chat. Type a prompt, or /quit.\n> "@,
        mark@ == "> "@,
{
}

/// A user message is routed to the agent, as it is and alone; a shutdown is sent to the agent,
/// then the provider actor, then the tool registry, and stops the supervisor.
pub proof fn lemma_supervisor_routes_messages(
    message: SystemMsg,
    supervision: Supervision,
    sends: Vec<ChildMsg>,
)
    requires
        call_ensures(supervise, (message,), supervision),
        call_ensures(shutdown_children, (), sends),
    ensures
        message matches SystemMsg::UserMessage { text: said } ==> {
            &&& !supervision.stop
            &&& supervision.sends@.len() == 1
            &&& supervision.sends@[0] == ChildMsg::Agent(AgentMsg::UserMessage { text: said })
        },
        message is Shutdown ==> {
            &&& supervision.stop
            &&& supervision.sends@ == sends@
        },
        sends@.len() == 3,
        sends@[0] == ChildMsg::Agent(AgentMsg::Shutdown),
        sends@[1] == ChildMsg::Llm(LlmMsg::Shutdown),
        sends@[2] == ChildMsg::Tools(ToolRegistryMsg::Shutdown),
{
}

/// The agent and the registry stop at a shutdown and at nothing else, and the registry takes up
/// every call of a batch, in order.
pub proof fn lemma_shutdown_stops_agent_and_registry(
    message: AgentMsg,
    stop: bool,
    order: ToolRegistryMsg,
    step: RegistryStep,
)
    requires
        call_ensures(ends_agent, (&message,), stop),
        call_ensures(take_up, (order,), step),
    ensures
        stop <==> message is Shutdown,
        step is Stop <==> order is Shutdown,
        order matches ToolRegistryMsg::DispatchBatch { calls } ==> (
        step matches RegistryStep::Execute(batch) && batch@.len() == calls@.len() && forall|i: int|
            0 <= i < calls@.len() ==> #[trigger] batch@[i] == calls@[i]@),
{
}

} // verus!
