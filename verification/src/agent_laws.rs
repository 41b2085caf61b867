//! What the agent promises over whole messages, prompts and failures.

use crate::agent::{self, AgentActionView, AgentMove, AgentPhaseView, AgentStepView, AgentView};
use crate::identity;
use crate::messages::{AgentMsgView, UiEventView};
use crate::pending;
use crate::protocol::{
    AssistantTurnView, ConversationItemView, LlmRequestView, LlmResponseView, ToolCallView,
    ToolOutputView, ToolTurnView,
};
use crate::text;
use crate::tools::{self, ToolErrorView};
use vstd::prelude::*;

verus! {

/// How many deliveries the handling of a message takes at most from a step on.
pub open spec fn deliveries_left(step: AgentStepView) -> nat {
    match step {
        AgentStepView::Ready => 0,
        AgentStepView::FailureDone => 1,
        AgentStepView::FailureShown => 2,
        AgentStepView::Generating | AgentStepView::Dispatching | AgentStepView::StaleShown
        | AgentStepView::DoneShown => 3,
        AgentStepView::ErrorShown => 4,
        AgentStepView::TurnShown => 5,
        AgentStepView::UserShown { .. } | AgentStepView::ToolEndShown { .. } => 6,
        AgentStepView::ToolShown { calls, started } => if started < calls.len() {
            (4 + calls.len() - started) as nat
        } else {
            4
        },
        AgentStepView::AssistantShown { calls } => 5 + calls.len(),
    }
}

/// Every delivery, failed or not, brings the handling of a message nearer to its end, and the
/// agent asks for a further action exactly where the end is not reached.
pub proof fn lemma_handling_comes_to_an_end(s: AgentView, sent: Result<(), Seq<char>>)
    requires
        !(s.step is Ready),
    ensures
        deliveries_left(agent::resumed(s, sent).0.step) < deliveries_left(s.step),
        agent::resumed(s, sent).1 is None <==> agent::resumed(s, sent).0.step is Ready,
{
}

/// Where the agent stands, and what it has asked for, once every delivery has succeeded.
pub open spec fn completed(m: AgentMove) -> (AgentView, Seq<AgentActionView>)
    decreases deliveries_left(m.0.step),
    via completed_decreases
{
    match m.1 {
        None => (m.0, Seq::empty()),
        Some(action) => if m.0.step is Ready {
            (m.0, seq![action])
        } else {
            let rest = completed(agent::resumed(m.0, Ok(())));
            (rest.0, seq![action] + rest.1)
        },
    }
}

#[via_fn]
proof fn completed_decreases(m: AgentMove) {
    if m.1 is Some && !(m.0.step is Ready) {
        lemma_handling_comes_to_an_end(m.0, Ok(()));
    }
}

/// The event as an action.
pub open spec fn shows(event: UiEventView) -> AgentActionView {
    AgentActionView::Show(event)
}

/// What the agent asks for when it starts the turn after `s`, and where it stands then.
pub open spec fn turn(s: AgentView) -> (AgentView, Seq<AgentActionView>) {
    let taken = AgentView { turn: s.turn + 1, ..s };
    if taken.turn <= taken.max_turns {
        (
            AgentView { phase: AgentPhaseView::WaitingForLlm, step: AgentStepView::Ready, ..taken },
            seq![
                shows(UiEventView::TurnStart(taken.turn)),
                AgentActionView::Generate(
                    LlmRequestView {
                        system_prompt: identity::identified_prompt(s.identity, s.system_prompt),
                        conversation: s.conversation,
                        tools: tools::offered_schemas(s.tools_config),
                    },
                ),
            ],
        )
    } else {
        (
            AgentView { phase: AgentPhaseView::Idle, step: AgentStepView::Ready, ..taken },
            seq![
                shows(UiEventView::TurnStart(taken.turn)),
                shows(
                    UiEventView::Error("turn cap reached at "@ + text::decimal(taken.max_turns)),
                ),
                shows(UiEventView::PromptDone),
            ],
        )
    }
}

/// A turn that is started asks the model within the cap, and ends the prompt beyond it.
pub proof fn lemma_turn_completes(s: AgentView)
    ensures
        completed(agent::turn_started(s)) == turn(s),
{
    reveal_with_fuel(completed, 5);
    assert(completed(agent::turn_started(s)).1 =~= turn(s).1);
}

/// A user message is shown and recorded, and its first turn starts.
pub proof fn lemma_user_message_starts_the_first_turn(s: AgentView, text: Seq<char>)
    requires
        s.step is Ready,
    ensures
        completed(agent::handled(s, AgentMsgView::UserMessage { text })) == ({
            let asked = turn(
                AgentView {
                    turn: 0,
                    conversation: s.conversation.push(ConversationItemView::User(text)),
                    ..s
                },
            );
            (asked.0, seq![shows(UiEventView::UserMessage(text))] + asked.1)
        }),
{
    let told = AgentView {
        turn: 0,
        step: AgentStepView::UserShown { text },
        conversation: s.conversation.push(ConversationItemView::User(text)),
        ..s
    };
    lemma_turn_completes(told);
    reveal_with_fuel(completed, 2);
}

/// A failed request is shown and ends the prompt; the transcript stays as it is.
pub proof fn lemma_failed_request_ends_the_prompt(s: AgentView, problem: Seq<char>)
    requires
        s.step is Ready,
    ensures
        completed(agent::handled(s, AgentMsgView::LlmFinished(Err(problem)))) == (
            AgentView { phase: AgentPhaseView::Idle, ..s },
            seq![shows(UiEventView::Error(problem)), shows(UiEventView::PromptDone)],
        ),
{
    reveal_with_fuel(completed, 4);
    assert(completed(agent::handled(s, AgentMsgView::LlmFinished(Err(problem)))).1 =~= seq![
        shows(UiEventView::Error(problem)),
        shows(UiEventView::PromptDone),
    ]);
}

/// The agent with an answer of the model in its transcript.
pub open spec fn answered(s: AgentView, response: LlmResponseView) -> AgentView {
    AgentView {
        conversation: s.conversation.push(
            ConversationItemView::Assistant(
                AssistantTurnView { text: response.text, tool_calls: response.tool_calls },
            ),
        ),
        ..s
    }
}

/// The event that shows an answer of the model.
pub open spec fn answer_event(response: LlmResponseView) -> UiEventView {
    UiEventView::AssistantMessage {
        text: response.text,
        tool_calls: response.tool_calls.len(),
        finish_reason: match response.finish_reason {
            Some(word) => word,
            None => "missing"@,
        },
    }
}

/// An answer without tool calls is recorded and ends the prompt.
pub proof fn lemma_plain_answer_ends_the_prompt(s: AgentView, response: LlmResponseView)
    requires
        s.step is Ready,
        response.tool_calls.len() == 0,
    ensures
        completed(agent::handled(s, AgentMsgView::LlmFinished(Ok(response)))) == (
            AgentView { phase: AgentPhaseView::Idle, ..answered(s, response) },
            seq![shows(answer_event(response)), shows(UiEventView::PromptDone)],
        ),
{
    reveal_with_fuel(completed, 4);
    assert(completed(agent::handled(s, AgentMsgView::LlmFinished(Ok(response)))).1 =~= seq![
        shows(answer_event(response)),
        shows(UiEventView::PromptDone),
    ]);
}

/// The event that shows the start of a call.
pub open spec fn start_event(call: ToolCallView) -> UiEventView {
    UiEventView::ToolStart {
        name: call.name,
        arguments: crate::json::document_text(call.arguments),
    }
}

/// The actions that show the starts of a list of calls.
pub open spec fn start_actions(calls: Seq<ToolCallView>) -> Seq<AgentActionView> {
    calls.map_values(|call: ToolCallView| shows(start_event(call)))
}

/// The starts that are left are shown in order, then the batch goes out.
proof fn lemma_batch_completes(s: AgentView, calls: Seq<ToolCallView>, started: nat)
    requires
        started <= calls.len(),
    ensures
        completed(agent::batch_shown(s, calls, started)) == (
            AgentView {
                phase: AgentPhaseView::WaitingForTools { remaining: pending::batch(calls) },
                step: AgentStepView::Ready,
                ..s
            },
            start_actions(calls.skip(started as int)).push(AgentActionView::Dispatch(calls)),
        ),
    decreases calls.len() - started,
{
    let expected = start_actions(calls.skip(started as int)).push(AgentActionView::Dispatch(calls));
    if started < calls.len() {
        let next = AgentView {
            step: AgentStepView::ToolShown { calls, started: started + 1 },
            ..s
        };
        lemma_batch_completes(next, calls, started + 1);
        assert(expected =~= seq![shows(start_event(calls[started as int]))] + start_actions(
            calls.skip((started + 1) as int),
        ).push(AgentActionView::Dispatch(calls)));
    } else {
        reveal_with_fuel(completed, 3);
        assert(completed(agent::batch_shown(s, calls, started)).1 =~= expected);
    }
}

/// An answer with tool calls is recorded, the starts of the calls are shown in the model's order,
/// the batch goes out whole, and the agent waits for exactly the identifiers of the batch.
pub proof fn lemma_tool_calls_are_dispatched(s: AgentView, response: LlmResponseView)
    requires
        s.step is Ready,
        response.tool_calls.len() > 0,
    ensures
        completed(agent::handled(s, AgentMsgView::LlmFinished(Ok(response)))) == (
            AgentView {
                phase: AgentPhaseView::WaitingForTools {
                    remaining: pending::batch(response.tool_calls),
                },
                ..answered(s, response)
            },
            seq![shows(answer_event(response))] + start_actions(response.tool_calls).push(
                AgentActionView::Dispatch(response.tool_calls),
            ),
        ),
{
    let told = AgentView {
        step: AgentStepView::AssistantShown { calls: response.tool_calls },
        ..answered(s, response)
    };
    lemma_batch_completes(told, response.tool_calls, 0);
    assert(response.tool_calls.skip(0) =~= response.tool_calls);
    reveal_with_fuel(completed, 2);
}

/// The event that shows the end of a call.
pub open spec fn end_event(name: Seq<char>, output: ToolOutputView) -> UiEventView {
    UiEventView::ToolEnd {
        name,
        ok: output is Text,
        output: match output {
            ToolOutputView::Text(text) => text,
            ToolOutputView::Error(message) => "Error: "@ + message,
        },
    }
}

/// The agent with a tool result in its transcript.
pub open spec fn with_result(
    s: AgentView,
    call_id: Seq<char>,
    output: ToolOutputView,
) -> AgentView {
    AgentView {
        conversation: s.conversation.push(
            ConversationItemView::Tool(ToolTurnView { call_id, output }),
        ),
        ..s
    }
}

/// A result that leaves other calls open is shown and recorded, and the agent waits on.
pub proof fn lemma_early_result_waits_for_the_rest(
    s: AgentView,
    remaining: Map<Seq<char>, Seq<char>>,
    call_id: Seq<char>,
    name: Seq<char>,
    output: ToolOutputView,
)
    requires
        s.step is Ready,
        s.phase == (AgentPhaseView::WaitingForTools { remaining }),
        remaining.remove(call_id) != Map::<Seq<char>, Seq<char>>::empty(),
    ensures
        completed(agent::handled(s, AgentMsgView::ToolFinished { call_id, name, output })) == (
            AgentView {
                phase: AgentPhaseView::WaitingForTools { remaining: remaining.remove(call_id) },
                ..with_result(s, call_id, output)
            },
            seq![shows(end_event(name, output))],
        ),
{
    reveal_with_fuel(completed, 3);
    assert(completed(
        agent::handled(s, AgentMsgView::ToolFinished { call_id, name, output }),
    ).1 =~= seq![shows(end_event(name, output))]);
}

/// The result of the last open call is shown and recorded, and the next turn starts.
pub proof fn lemma_last_result_starts_the_next_turn(
    s: AgentView,
    remaining: Map<Seq<char>, Seq<char>>,
    call_id: Seq<char>,
    name: Seq<char>,
    output: ToolOutputView,
)
    requires
        s.step is Ready,
        s.phase == (AgentPhaseView::WaitingForTools { remaining }),
        remaining.remove(call_id) == Map::<Seq<char>, Seq<char>>::empty(),
    ensures
        completed(agent::handled(s, AgentMsgView::ToolFinished { call_id, name, output })) == ({
            let asked = turn(with_result(s, call_id, output));
            (asked.0, seq![shows(end_event(name, output))] + asked.1)
        }),
{
    let told = AgentView {
        phase: AgentPhaseView::WaitingForTools { remaining: remaining.remove(call_id) },
        step: AgentStepView::Ready,
        ..with_result(s, call_id, output)
    };
    lemma_turn_completes(told);
    reveal_with_fuel(completed, 2);
}

/// A result that nobody waits for is shown, recorded and reported, and changes nothing else.
pub proof fn lemma_stale_result_is_reported(
    s: AgentView,
    call_id: Seq<char>,
    name: Seq<char>,
    output: ToolOutputView,
)
    requires
        s.step is Ready,
        !(s.phase is WaitingForTools),
    ensures
        completed(agent::handled(s, AgentMsgView::ToolFinished { call_id, name, output })) == (
            with_result(s, call_id, output),
            seq![
                shows(end_event(name, output)),
                shows(UiEventView::Error("received stale tool result for "@ + name)),
            ],
        ),
{
    reveal_with_fuel(completed, 4);
    assert(completed(
        agent::handled(s, AgentMsgView::ToolFinished { call_id, name, output }),
    ).1 =~= seq![
        shows(end_event(name, output)),
        shows(UiEventView::Error("received stale tool result for "@ + name)),
    ]);
}

/// A delivery that fails is shown, the prompt is declared done, and the agent is idle again with
/// the transcript it had, whatever becomes of those two events.
pub proof fn lemma_failed_delivery_ends_the_prompt(
    s: AgentView,
    problem: Seq<char>,
    error_sent: Result<(), Seq<char>>,
    done_sent: Result<(), Seq<char>>,
)
    requires
        !(s.step is Ready),
        !(s.step is FailureShown),
        !(s.step is FailureDone),
    ensures
        ({
            let first = agent::resumed(s, Err(problem));
            let second = agent::resumed(first.0, error_sent);
            let third = agent::resumed(second.0, done_sent);
            &&& first.1 == Some(shows(UiEventView::Error(problem)))
            &&& second.1 == Some(shows(UiEventView::PromptDone))
            &&& third.1 is None
            &&& third.0 == AgentView {
                phase: AgentPhaseView::Idle,
                step: AgentStepView::Ready,
                ..s
            }
        }),
{
}

/// The transcript only grows, and the settings never change.
pub proof fn lemma_transcript_only_grows(
    s: AgentView,
    message: AgentMsgView,
    sent: Result<(), Seq<char>>,
)
    ensures
        ({
            let told = agent::handled(s, message).0;
            &&& s.conversation.is_prefix_of(told.conversation)
            &&& told.max_turns == s.max_turns && told.system_prompt == s.system_prompt
            &&& told.identity == s.identity && told.tools_config == s.tools_config
        }),
        ({
            let next = agent::resumed(s, sent).0;
            &&& s.conversation.is_prefix_of(next.conversation)
            &&& next.max_turns == s.max_turns && next.system_prompt == s.system_prompt
            &&& next.identity == s.identity && next.tools_config == s.tools_config
        }),
{
}

/// The agent asks the model within the turn cap only, with its whole transcript, and has recorded
/// by then that it waits for the answer.
pub proof fn lemma_requests_respect_the_cap(
    s: AgentView,
    message: AgentMsgView,
    sent: Result<(), Seq<char>>,
)
    ensures
        !(agent::handled(s, message).1 matches Some(AgentActionView::Generate(_))),
        agent::resumed(s, sent).1 matches Some(AgentActionView::Generate(request)) ==> ({
            let next = agent::resumed(s, sent).0;
            &&& next.turn <= next.max_turns
            &&& next.phase is WaitingForLlm
            &&& request.conversation == next.conversation
        }),
{
}

/// The agent dispatches calls only after it has recorded that it waits for them, and never an
/// empty batch, where it keeps its invariant.
pub proof fn lemma_dispatch_is_awaited(s: AgentView, sent: Result<(), Seq<char>>)
    requires
        waits_soundly(s),
    ensures
        agent::resumed(s, sent).1 matches Some(AgentActionView::Dispatch(calls)) ==> ({
            let next = agent::resumed(s, sent).0;
            &&& calls.len() > 0
            &&& next.phase == (AgentPhaseView::WaitingForTools {
                remaining: pending::batch(calls),
            })
        }),
{
}

/// The agent waits for tools only while a call is open, unless it is about to leave that phase;
/// and a batch that is being shown is not empty.
pub open spec fn waits_soundly(s: AgentView) -> bool {
    &&& s.phase matches AgentPhaseView::WaitingForTools { remaining } ==> {
        ||| remaining != Map::<Seq<char>, Seq<char>>::empty()
        ||| s.step is TurnShown
        ||| s.step is ErrorShown
        ||| s.step is DoneShown
        ||| s.step is FailureShown
        ||| s.step is FailureDone
    }
    &&& s.step matches AgentStepView::ToolShown { calls, started } ==> calls.len() > 0
}

/// Every step from a state that keeps the invariant leads to a state that keeps it; and between
/// two messages the agent waits for tools only while a call is open.
pub proof fn lemma_invariant_is_kept(
    s: AgentView,
    message: AgentMsgView,
    sent: Result<(), Seq<char>>,
)
    requires
        waits_soundly(s),
    ensures
        s.step is Ready ==> waits_soundly(agent::handled(s, message).0),
        waits_soundly(agent::resumed(s, sent).0),
        s.step is Ready ==> (s.phase matches AgentPhaseView::WaitingForTools { remaining }
            ==> remaining != Map::<Seq<char>, Seq<char>>::empty()),
{
    match s.step {
        AgentStepView::AssistantShown { calls } => {
            pending::lemma_batch_holds_its_calls(calls, Seq::empty());
        },
        AgentStepView::ToolShown { calls, started } => {
            pending::lemma_batch_holds_its_calls(calls, Seq::empty());
        },
        _ => {},
    }
}

/// A fresh agent keeps the invariant.
pub proof fn lemma_fresh_agent_keeps_the_invariant(
    config: crate::config::AgentConfig,
    identity: crate::identity::RuntimeIdentityView,
    tools_config: crate::config::ToolsConfig,
)
    ensures
        waits_soundly(agent::fresh(config, identity, tools_config)),
{
}

/// Where the agent stands, and what it has asked for, once it has handled a list of messages and
/// every delivery has succeeded.
pub open spec fn conversed(s: AgentView, messages: Seq<AgentMsgView>) -> (
    AgentView,
    Seq<AgentActionView>,
)
    decreases messages.len(),
{
    if messages.len() == 0 {
        (s, Seq::empty())
    } else {
        let before = conversed(s, messages.drop_last());
        let last = completed(agent::handled(before.0, messages.last()));
        (last.0, before.1 + last.1)
    }
}

/// How many of a list of actions ask the model.
pub open spec fn requests(actions: Seq<AgentActionView>) -> nat
    decreases actions.len(),
{
    if actions.len() == 0 {
        0
    } else {
        requests(actions.drop_last()) + if actions.last() is Generate {
            1nat
        } else {
            0nat
        }
    }
}

/// Actions one after the other ask the model as often as both together.
proof fn lemma_requests_add_up(first: Seq<AgentActionView>, second: Seq<AgentActionView>)
    ensures
        requests(first + second) == requests(first) + requests(second),
    decreases second.len(),
{
    if second.len() == 0 {
        assert(first + second =~= first);
    } else {
        assert((first + second).drop_last() =~= first + second.drop_last());
        lemma_requests_add_up(first, second.drop_last());
    }
}

/// Actions none of which asks the model count nothing.
proof fn lemma_no_requests(actions: Seq<AgentActionView>)
    requires
        forall|i: int| 0 <= i < actions.len() ==> !(#[trigger] actions[i] is Generate),
    ensures
        requests(actions) == 0,
    decreases actions.len(),
{
    if actions.len() > 0 {
        let front = actions.drop_last();
        assert forall|i: int| 0 <= i < front.len() implies !(#[trigger] front[i] is Generate) by {
            assert(!(actions[i] is Generate));
        }
        lemma_no_requests(front);
        assert(!(actions[actions.len() - 1] is Generate));
    }
}

/// A tool result: the call, the name of the tool, and what it gave back.
pub type ToolResultView = (Seq<char>, Seq<char>, ToolOutputView);

/// The messages that bring a list of tool results.
pub open spec fn result_messages(results: Seq<ToolResultView>) -> Seq<AgentMsgView> {
    results.map_values(
        |result: ToolResultView|
            AgentMsgView::ToolFinished { call_id: result.0, name: result.1, output: result.2 },
    )
}

/// The transcript entries of a list of tool results.
pub open spec fn result_entries(results: Seq<ToolResultView>) -> Seq<ConversationItemView> {
    results.map_values(
        |result: ToolResultView|
            ConversationItemView::Tool(ToolTurnView { call_id: result.0, output: result.2 }),
    )
}

/// The actions that show the ends of a list of tool calls.
pub open spec fn end_actions(results: Seq<ToolResultView>) -> Seq<AgentActionView> {
    results.map_values(|result: ToolResultView| shows(end_event(result.1, result.2)))
}

/// Whether a list of results holds one of a call.
pub open spec fn answers(results: Seq<ToolResultView>, id: Seq<char>) -> bool {
    exists|i: int| 0 <= i < results.len() && (#[trigger] results[i]).0 == id
}

/// The agent with a list of tool results in its transcript.
pub open spec fn with_results(s: AgentView, results: Seq<ToolResultView>) -> AgentView {
    AgentView { conversation: s.conversation + result_entries(results), ..s }
}

/// One result more is one message, one entry and one event more.
proof fn lemma_one_more_result(results: Seq<ToolResultView>)
    requires
        results.len() > 0,
    ensures
        result_messages(results).drop_last() == result_messages(results.drop_last()),
        result_messages(results).last() == (AgentMsgView::ToolFinished {
            call_id: results.last().0,
            name: results.last().1,
            output: results.last().2,
        }),
        result_entries(results) == result_entries(results.drop_last()).push(
            ConversationItemView::Tool(
                ToolTurnView { call_id: results.last().0, output: results.last().2 },
            ),
        ),
        end_actions(results) == end_actions(results.drop_last()).push(
            shows(end_event(results.last().1, results.last().2)),
        ),
{
    let front = results.drop_last();
    assert(result_messages(results).drop_last() =~= result_messages(front));
    assert(result_entries(results) =~= result_entries(front).push(
        ConversationItemView::Tool(
            ToolTurnView { call_id: results.last().0, output: results.last().2 },
        ),
    ));
    assert(end_actions(results) =~= end_actions(front).push(
        shows(end_event(results.last().1, results.last().2)),
    ));
}

/// Results may come in any order: while one call of the batch has no result, the agent waits for
/// exactly the calls without one, has recorded the results in the order in which they came, and
/// has done nothing but show them.
pub proof fn lemma_results_may_come_in_any_order(
    s: AgentView,
    remaining: Map<Seq<char>, Seq<char>>,
    results: Seq<ToolResultView>,
    open: Seq<char>,
)
    requires
        s.step is Ready,
        s.phase == (AgentPhaseView::WaitingForTools { remaining }),
        remaining.dom().contains(open),
        !answers(results, open),
    ensures
        ({
            let (next, actions) = conversed(s, result_messages(results));
            &&& actions == end_actions(results)
            &&& next == AgentView { phase: next.phase, ..with_results(s, results) }
            &&& next.phase matches AgentPhaseView::WaitingForTools { remaining: left }
            &&& forall|id: Seq<char>| #[trigger]
                left.dom().contains(id) <==> remaining.dom().contains(id) && !answers(results, id)
        }),
    decreases results.len(),
{
    if results.len() == 0 {
        assert(end_actions(results) =~= Seq::empty());
        assert(with_results(s, results).conversation =~= s.conversation);
    } else {
        let front = results.drop_last();
        let (call_id, name, output) = results.last();
        assert(!answers(front, open)) by {
            if answers(front, open) {
                let i = choose|i: int| 0 <= i < front.len() && (#[trigger] front[i]).0 == open;
                assert(results[i].0 == open);
            }
        }
        lemma_results_may_come_in_any_order(s, remaining, front, open);
        lemma_one_more_result(results);
        let before = conversed(s, result_messages(front)).0;
        let waiting = before.phase->remaining;
        assert(call_id != open) by {
            assert(results[results.len() - 1].0 == call_id);
        }
        assert(waiting.dom().contains(open));
        assert(waiting.remove(call_id).dom().contains(open));
        lemma_early_result_waits_for_the_rest(before, waiting, call_id, name, output);
        let left = waiting.remove(call_id);
        assert forall|id: Seq<char>| #[trigger] left.dom().contains(id) <==> remaining.dom().contains(
            id,
        ) && !answers(results, id) by {
            assert(waiting.dom().contains(id) <==> remaining.dom().contains(id) && !answers(
                front,
                id,
            ));
            if answers(front, id) {
                let i = choose|i: int| 0 <= i < front.len() && (#[trigger] front[i]).0 == id;
                assert(results[i].0 == id);
            }
            if answers(results, id) {
                let i = choose|i: int| 0 <= i < results.len() && (#[trigger] results[i]).0 == id;
                if i < front.len() {
                    assert(front[i].0 == id);
                }
            }
            if id == call_id {
                assert(results[results.len() - 1].0 == id);
            }
        }
        let (next, actions) = conversed(s, result_messages(results));
        assert(actions =~= end_actions(results));
        assert(next.conversation =~= with_results(s, results).conversation);
    }
}

/// The next turn starts with the result that leaves no call open, whatever the order of the
/// results: the ends of the calls are shown, then comes what a turn asks for, and the transcript
/// holds every result by then.
pub proof fn lemma_complete_batch_starts_the_next_turn(
    s: AgentView,
    remaining: Map<Seq<char>, Seq<char>>,
    results: Seq<ToolResultView>,
)
    requires
        s.step is Ready,
        s.phase == (AgentPhaseView::WaitingForTools { remaining }),
        results.len() > 0,
        forall|id: Seq<char>| #[trigger] remaining.dom().contains(id) ==> answers(results, id),
        remaining.dom().contains(results.last().0),
        !answers(results.drop_last(), results.last().0),
    ensures
        conversed(s, result_messages(results)) == ({
            let asked = turn(with_results(s, results));
            (asked.0, end_actions(results) + asked.1)
        }),
{
    let front = results.drop_last();
    let (call_id, name, output) = results.last();
    lemma_results_may_come_in_any_order(s, remaining, front, call_id);
    lemma_one_more_result(results);
    let (before, shown) = conversed(s, result_messages(front));
    let waiting = before.phase->remaining;
    assert(waiting.remove(call_id) =~= Map::<Seq<char>, Seq<char>>::empty()) by {
        assert forall|id: Seq<char>| !waiting.remove(call_id).dom().contains(id) by {
            if waiting.remove(call_id).dom().contains(id) {
                assert(waiting.dom().contains(id));
                assert(remaining.dom().contains(id));
                let i = choose|i: int| 0 <= i < results.len() && (#[trigger] results[i]).0 == id;
                if i < front.len() {
                    assert(front[i].0 == id);
                }
            }
        }
    }
    lemma_last_result_starts_the_next_turn(before, waiting, call_id, name, output);
    let told = with_result(before, call_id, output);
    assert(told.conversation =~= with_results(s, results).conversation);
    assert(turn(told) == turn(with_results(s, results)));
    assert(shown + (seq![shows(end_event(name, output))] + turn(told).1) =~= end_actions(results)
        + turn(told).1);
}

/// Each call that the agent waits for gets its result once, in any order. Then no request goes
/// out before the last result, and the agent waits for tools until then; with the last result
/// exactly one request goes out, with all results in the transcript in the order in which they
/// came, and the agent waits for the model.
pub proof fn lemma_batch_asks_the_model_once(
    s: AgentView,
    remaining: Map<Seq<char>, Seq<char>>,
    results: Seq<ToolResultView>,
)
    requires
        s.step is Ready,
        s.phase == (AgentPhaseView::WaitingForTools { remaining }),
        s.turn < s.max_turns,
        results.len() > 0,
        forall|id: Seq<char>| #[trigger] remaining.dom().contains(id) <==> answers(results, id),
        forall|i: int, j: int|
            0 <= i < j < results.len() ==> (#[trigger] results[i]).0 != (#[trigger] results[j]).0,
    ensures
        forall|count: int|
            0 <= count < results.len() ==> {
                let early = #[trigger] conversed(s, result_messages(results).take(count));
                requests(early.1) == 0 && early.0.phase is WaitingForTools
            },
        ({
            let (next, actions) = conversed(s, result_messages(results));
            &&& requests(actions) == 1
            &&& actions.last() matches AgentActionView::Generate(request)
            &&& request.conversation == next.conversation
            &&& next.conversation == s.conversation + result_entries(results)
            &&& next.phase is WaitingForLlm
            &&& next.turn == s.turn + 1
        }),
{
    let last = results.len() - 1;
    assert forall|count: int| 0 <= count < results.len() implies {
        let early = #[trigger] conversed(s, result_messages(results).take(count));
        requests(early.1) == 0 && early.0.phase is WaitingForTools
    } by {
        let some = results.take(count);
        let open = results[count].0;
        assert(answers(results, open));
        assert(!answers(some, open)) by {
            if answers(some, open) {
                let i = choose|i: int| 0 <= i < some.len() && (#[trigger] some[i]).0 == open;
                assert(results[i].0 == results[count].0);
            }
        }
        assert(result_messages(results).take(count) =~= result_messages(some));
        lemma_results_may_come_in_any_order(s, remaining, some, open);
        lemma_no_requests(end_actions(some));
    }
    assert(results[last].0 == results.last().0);
    assert(answers(results, results.last().0));
    let front = results.drop_last();
    assert(!answers(front, results.last().0)) by {
        if answers(front, results.last().0) {
            let i = choose|i: int|
                0 <= i < front.len() && (#[trigger] front[i]).0 == results.last().0;
            assert(results[i].0 == results[last].0);
        }
    }
    lemma_complete_batch_starts_the_next_turn(s, remaining, results);
    let asked = turn(with_results(s, results));
    lemma_no_requests(end_actions(results));
    lemma_requests_add_up(end_actions(results), asked.1);
    assert(asked.1.drop_last().drop_last() =~= Seq::empty());
    reveal_with_fuel(requests, 3);
}

/// The results of an executed batch, as the agent is told them.
pub open spec fn batch_results(
    calls: Seq<ToolCallView>,
    outcomes: Seq<Result<ToolOutputView, ToolErrorView>>,
) -> Seq<ToolResultView> {
    Seq::new(
        calls.len(),
        |i: int| (calls[i].id, calls[i].name, tools::given(calls[i], outcomes[i])),
    )
}

/// Once the registry has executed a batch whose calls have different identifiers, the next turn
/// starts, whether the calls succeeded or not, and the model sees a result for each of them.
pub proof fn lemma_executed_batch_starts_the_next_turn(
    s: AgentView,
    response: LlmResponseView,
    outcomes: Seq<Result<ToolOutputView, ToolErrorView>>,
)
    requires
        s.step is Ready,
        response.tool_calls.len() > 0,
        outcomes.len() == response.tool_calls.len(),
        forall|i: int, j: int|
            0 <= i < j < response.tool_calls.len() ==> (#[trigger] response.tool_calls[i]).id != (
            #[trigger] response.tool_calls[j]).id,
    ensures
        ({
            let dispatched = completed(
                agent::handled(s, AgentMsgView::LlmFinished(Ok(response))),
            ).0;
            let results = batch_results(response.tool_calls, outcomes);
            let asked = turn(with_results(dispatched, results));
            &&& conversed(dispatched, tools::batch_reports(response.tool_calls, outcomes)) == (
                asked.0,
                end_actions(results) + asked.1,
            )
            &&& asked.0.conversation == answered(s, response).conversation + result_entries(results)
            &&& asked.0.turn == s.turn + 1
        }),
{
    let calls = response.tool_calls;
    let results = batch_results(calls, outcomes);
    let remaining = pending::batch(calls);
    tools::lemma_every_call_is_answered(calls, outcomes);
    assert(tools::batch_reports(calls, outcomes) =~= result_messages(results));
    assert forall|id: Seq<char>| #[trigger] remaining.dom().contains(id) implies answers(
        results,
        id,
    ) by {
        pending::lemma_batch_holds_its_calls(calls, id);
        let k = choose|k: int| 0 <= k < calls.len() && (#[trigger] calls[k]).id == id;
        assert(results[k].0 == id);
    }
    let last = calls.len() - 1;
    assert(calls[last].id == results.last().0);
    pending::lemma_batch_holds_its_calls(calls, results.last().0);
    assert(!answers(results.drop_last(), results.last().0)) by {
        let front = results.drop_last();
        if answers(front, results.last().0) {
            let i = choose|i: int|
                0 <= i < front.len() && (#[trigger] front[i]).0 == results.last().0;
            assert(calls[i].id == calls[last].id);
        }
    }
    lemma_tool_calls_are_dispatched(s, response);
    let dispatched = completed(agent::handled(s, AgentMsgView::LlmFinished(Ok(response)))).0;
    lemma_complete_batch_starts_the_next_turn(dispatched, remaining, results);
}

/// Whether an action comes right after the start of the turn whose number is the number of
/// requests up to it.
pub open spec fn follows_its_turn(actions: Seq<AgentActionView>, i: int) -> bool {
    i > 0 && actions[i - 1] == shows(UiEventView::TurnStart(requests(actions.take(i + 1))))
}

/// Whether every request among the actions of a prompt comes right after the start of its turn:
/// the first after the start of turn one, the second after that of turn two, and so on.
pub open spec fn requests_follow_turns(actions: Seq<AgentActionView>) -> bool {
    forall|i: int|
        0 <= i < actions.len() && actions[i] is Generate ==> #[trigger] follows_its_turn(actions, i)
}

/// A message that is no user message takes no turn, or one that it ends with.
proof fn lemma_message_takes_one_turn_at_most(s: AgentView, message: AgentMsgView)
    requires
        s.step is Ready,
        !(message is UserMessage),
    ensures
        ({
            let (next, actions) = completed(agent::handled(s, message));
            &&& next.step is Ready
            &&& next.max_turns == s.max_turns
            &&& {
                ||| next.turn == s.turn && forall|i: int|
                    0 <= i < actions.len() ==> !(#[trigger] actions[i] is Generate)
                ||| next.turn == s.turn + 1 && s.turn >= s.max_turns && forall|i: int|
                    0 <= i < actions.len() ==> !(#[trigger] actions[i] is Generate)
                ||| next.turn == s.turn + 1 && s.turn < s.max_turns && actions.len() >= 2
                    && actions.last() is Generate && actions[actions.len() - 2] == shows(
                    UiEventView::TurnStart(s.turn + 1),
                ) && forall|i: int|
                    0 <= i < actions.len() - 1 ==> !(#[trigger] actions[i] is Generate)
            }
        }),
{
    match message {
        AgentMsgView::UserMessage { .. } => {},
        AgentMsgView::Shutdown => {
            reveal_with_fuel(completed, 1);
        },
        AgentMsgView::LlmFinished(Err(problem)) => {
            lemma_failed_request_ends_the_prompt(s, problem);
        },
        AgentMsgView::LlmFinished(Ok(response)) => {
            if response.tool_calls.len() == 0 {
                lemma_plain_answer_ends_the_prompt(s, response);
            } else {
                lemma_tool_calls_are_dispatched(s, response);
            }
        },
        AgentMsgView::ToolFinished { call_id, name, output } => {
            match s.phase {
                AgentPhaseView::WaitingForTools { remaining } => {
                    if remaining.remove(call_id) == Map::<Seq<char>, Seq<char>>::empty() {
                        lemma_last_result_starts_the_next_turn(s, remaining, call_id, name, output);
                    } else {
                        lemma_early_result_waits_for_the_rest(s, remaining, call_id, name, output);
                    }
                },
                _ => {
                    lemma_stale_result_is_reported(s, call_id, name, output);
                },
            }
        },
    }
}

/// Requests that follow their turns keep doing so when actions without one come after them, or
/// such actions and then the next turn and its request.
proof fn lemma_turns_go_on(before: Seq<AgentActionView>, more: Seq<AgentActionView>)
    requires
        requests_follow_turns(before),
        forall|i: int| 0 <= i < more.len() - 1 ==> !(#[trigger] more[i] is Generate),
        more.len() > 0 && more.last() is Generate ==> more.len() >= 2 && more[more.len() - 2]
            == shows(UiEventView::TurnStart(requests(before) + 1)),
    ensures
        requests_follow_turns(before + more),
        requests(before + more) == requests(before) + if more.len() > 0
            && more.last() is Generate {
            1nat
        } else {
            0nat
        },
{
    let all = before + more;
    lemma_requests_add_up(before, more);
    if more.len() > 0 {
        let front = more.drop_last();
        assert forall|i: int| 0 <= i < front.len() implies !(#[trigger] front[i] is Generate) by {
            assert(!(more[i] is Generate));
        }
        lemma_no_requests(front);
    }
    assert forall|i: int|
        0 <= i < all.len() && all[i] is Generate implies #[trigger] follows_its_turn(all, i) by {
        if i < before.len() {
            assert(before[i] is Generate);
            assert(follows_its_turn(before, i));
            assert(all.take(i + 1) =~= before.take(i + 1));
        } else {
            assert(more[i - before.len()] is Generate);
            assert(i == all.len() - 1);
            assert(all.take(i + 1) =~= all);
        }
    }
}

/// One prompt asks the model as often as the cap allows at most: after a user message, and any
/// messages but another one, every request came right after the start of its turn, and there are
/// no more of them than the cap.
pub proof fn lemma_prompt_respects_the_cap(
    s: AgentView,
    text: Seq<char>,
    messages: Seq<AgentMsgView>,
)
    requires
        s.step is Ready,
        forall|i: int| 0 <= i < messages.len() ==> !(#[trigger] messages[i] is UserMessage),
    ensures
        ({
            let all = seq![AgentMsgView::UserMessage { text }] + messages;
            let (next, actions) = conversed(s, all);
            &&& requests(actions) <= s.max_turns
            &&& requests(actions) == if next.turn <= s.max_turns {
                next.turn
            } else {
                s.max_turns
            }
            &&& requests_follow_turns(actions)
            &&& next.step is Ready
            &&& next.max_turns == s.max_turns
        }),
    decreases messages.len(),
{
    let prompt = AgentMsgView::UserMessage { text };
    let all = seq![prompt] + messages;
    if messages.len() == 0 {
        assert(all.drop_last() =~= Seq::empty());
        assert(all.last() == prompt);
        lemma_user_message_starts_the_first_turn(s, text);
        let told = completed(agent::handled(s, prompt)).1;
        assert(conversed(s, all.drop_last()) == (s, Seq::<AgentActionView>::empty()));
        assert(Seq::<AgentActionView>::empty() + told =~= told);
        lemma_turns_go_on(Seq::empty(), told);
    } else {
        let front = messages.drop_last();
        assert(all.drop_last() =~= seq![prompt] + front);
        assert(all.last() == messages[messages.len() - 1]);
        assert forall|i: int| 0 <= i < front.len() implies !(
        #[trigger] front[i] is UserMessage) by {
            assert(!(messages[i] is UserMessage));
        }
        lemma_prompt_respects_the_cap(s, text, front);
        let (before, asked) = conversed(s, all.drop_last());
        lemma_message_takes_one_turn_at_most(before, all.last());
        lemma_turns_go_on(asked, completed(agent::handled(before, all.last())).1);
    }
}

/// What the agent is given from outside: a message, or a report on a delivery.
pub enum AgentInput {
    /// A message.
    Message(AgentMsgView),
    /// What became of the last delivery.
    Delivery(Result<(), Seq<char>>),
}

/// What the agent does with an input. A message waits while a delivery is under way.
pub open spec fn fed(s: AgentView, input: AgentInput) -> AgentMove {
    match input {
        AgentInput::Message(message) => if s.step is Ready {
            agent::handled(s, message)
        } else {
            (s, None)
        },
        AgentInput::Delivery(sent) => agent::resumed(s, sent),
    }
}

/// Where the agent stands, and what it has asked for, after a list of inputs.
pub open spec fn fed_all(s: AgentView, inputs: Seq<AgentInput>) -> (
    AgentView,
    Seq<AgentActionView>,
)
    decreases inputs.len(),
{
    if inputs.len() == 0 {
        (s, Seq::empty())
    } else {
        let before = fed_all(s, inputs.drop_last());
        let last = fed(before.0, inputs.last());
        (
            last.0,
            match last.1 {
                Some(action) => before.1.push(action),
                None => before.1,
            },
        )
    }
}

/// How many turns of a prompt have had their chance to ask the model.
spec fn turns_used(s: AgentView) -> int {
    if s.step is UserShown {
        0
    } else if s.step is TurnShown {
        s.turn - 1
    } else {
        s.turn as int
    }
}

/// The cap holds whatever becomes of the deliveries: from a user message on, and until another
/// one, the agent asks the model no more often than the cap allows.
pub proof fn lemma_failures_cannot_exceed_the_cap(
    s: AgentView,
    text: Seq<char>,
    inputs: Seq<AgentInput>,
)
    requires
        s.step is Ready,
        forall|i: int|
            0 <= i < inputs.len() ==> !(#[trigger] inputs[i] matches AgentInput::Message(
                AgentMsgView::UserMessage { .. },
            )),
    ensures
        requests(
            fed_all(agent::handled(s, AgentMsgView::UserMessage { text }).0, inputs).1,
        ) <= s.max_turns,
{
    lemma_requests_stay_within_turns(
        agent::handled(s, AgentMsgView::UserMessage { text }).0,
        inputs,
    );
}

/// The requests since a user message number no more than the turns, nor than the cap.
proof fn lemma_requests_stay_within_turns(s: AgentView, inputs: Seq<AgentInput>)
    requires
        s.step is UserShown,
        forall|i: int|
            0 <= i < inputs.len() ==> !(#[trigger] inputs[i] matches AgentInput::Message(
                AgentMsgView::UserMessage { .. },
            )),
    ensures
        ({
            let (next, actions) = fed_all(s, inputs);
            &&& requests(actions) <= s.max_turns
            &&& requests(actions) <= turns_used(next)
            &&& next.step is UserShown ==> requests(actions) == 0
            &&& next.step is TurnShown ==> next.turn > 0
            &&& next.max_turns == s.max_turns
        }),
    decreases inputs.len(),
{
    if inputs.len() > 0 {
        let front = inputs.drop_last();
        assert forall|i: int| 0 <= i < front.len() implies !(
        #[trigger] front[i] matches AgentInput::Message(AgentMsgView::UserMessage { .. })) by {
            assert(inputs[i] == front[i]);
        }
        lemma_requests_stay_within_turns(s, front);
        let (before, asked) = fed_all(s, front);
        let last = fed(before, inputs.last());
        assert(inputs[inputs.len() - 1] == inputs.last());
        if let Some(action) = last.1 {
            assert(asked.push(action).drop_last() =~= asked);
        }
    }
}

} // verus!
