//! What one message does to the agent, in full: what is shown, sent and recorded.
//!
//! Every statement here is in terms of the message, the state before it and the state after it.

use crate::agent::{
    self, AgentAction, AgentActionView, AgentActor, AgentPhase, AgentPhaseView, AgentView,
};
use crate::agent_laws;
use crate::config::{AgentConfig, LlmConfig, LlmProtocol, ToolsConfig};
use crate::identity::{self, RuntimeIdentityView};
use crate::json;
use crate::messages::{AgentMsg, AgentMsgView, UiEvent, UiEventView};
use crate::pending::{self, PendingCalls};
use crate::protocol::{
    AssistantTurnView, ConversationItemView, LlmResponseView, ToolCall, ToolCallId, ToolCallView,
    ToolOutput, ToolOutputView, ToolTurnView,
};
use crate::text;
use crate::tools::{self, ToolBatch, ToolError};
use crate::views;
use vstd::prelude::*;

verus! {

/// Every request, in whatever turn, carries the whole transcript, the configured system prompt
/// with the facts about the runtime, and the descriptions of all enabled tools.
pub proof fn lemma_every_request_is_complete(s: AgentView, sent: Result<(), Seq<char>>)
    ensures
        agent::resumed(s, sent).1 matches Some(AgentActionView::Generate(request)) ==> {
            &&& request.tools == tools::offered_schemas(s.tools_config)
            &&& request.system_prompt == identity::identified_prompt(s.identity, s.system_prompt)
            &&& request.conversation == s.conversation
        },
{
}

/// Requests of one agent differ in the transcript alone: the system prompt and the tools of any
/// two of them are the same, however many turns lie between them.
pub proof fn lemma_requests_differ_in_the_transcript_alone(
    s: AgentView,
    t: AgentView,
    first: Result<(), Seq<char>>,
    second: Result<(), Seq<char>>,
)
    requires
        s.tools_config == t.tools_config,
        s.identity == t.identity,
        s.system_prompt == t.system_prompt,
        agent::resumed(s, first).1 matches Some(AgentActionView::Generate(_)),
        agent::resumed(t, second).1 matches Some(AgentActionView::Generate(_)),
    ensures
        ({
            let one = agent::resumed(s, first).1->Some_0->Generate_0;
            let other = agent::resumed(t, second).1->Some_0->Generate_0;
            &&& one.tools == other.tools
            &&& one.system_prompt == other.system_prompt
        }),
{
}

/// A user message is recorded as it is. Within the cap the agent then shows it, shows turn one
/// and asks the model with the message at the end of the transcript; with a cap of zero it shows
/// that the turns are used up and ends the prompt.
pub proof fn lemma_user_message_in_full(s: AgentView, text: Seq<char>)
    requires
        s.step is Ready,
    ensures
        ({
            let (next, actions) = agent_laws::completed(
                agent::handled(s, AgentMsgView::UserMessage { text }),
            );
            &&& next.conversation == s.conversation.push(ConversationItemView::User(text))
            &&& next.turn == 1
            &&& next.step is Ready
            &&& next.tools_config == s.tools_config && next.identity == s.identity
            &&& next.system_prompt == s.system_prompt && next.max_turns == s.max_turns
            &&& actions[0] == AgentActionView::Show(UiEventView::UserMessage(text))
            &&& actions[1] == AgentActionView::Show(UiEventView::TurnStart(1))
            &&& s.max_turns > 0 ==> {
                &&& actions.len() == 3
                &&& next.phase is WaitingForLlm
                &&& actions[2] matches AgentActionView::Generate(request)
                &&& request.conversation == next.conversation
                &&& request.tools == tools::offered_schemas(s.tools_config)
                &&& request.system_prompt == identity::identified_prompt(
                    s.identity,
                    s.system_prompt,
                )
            }
            &&& s.max_turns == 0 ==> {
                &&& actions.len() == 4
                &&& next.phase is Idle
                &&& actions[2] == AgentActionView::Show(
                    UiEventView::Error("turn cap reached at "@ + text::decimal(0)),
                )
                &&& actions[3] == AgentActionView::Show(UiEventView::PromptDone)
            }
        }),
{
    agent_laws::lemma_user_message_starts_the_first_turn(s, text);
}

/// An answer of the model is recorded whole and shown with the number of its calls and its finish
/// reason. Without calls it ends the prompt. With calls the start of each is shown, in order and
/// with its own name and arguments, then all of them are dispatched, and the agent waits for
/// exactly their identifiers. No turn is taken either way.
pub proof fn lemma_answer_in_full(s: AgentView, response: LlmResponseView, id: Seq<char>)
    requires
        s.step is Ready,
    ensures
        ({
            let (next, actions) = agent_laws::completed(
                agent::handled(s, AgentMsgView::LlmFinished(Ok(response))),
            );
            let calls = response.tool_calls;
            &&& next.conversation.len() == s.conversation.len() + 1
            &&& next.conversation.drop_last() == s.conversation
            &&& next.conversation.last() == ConversationItemView::Assistant(
                AssistantTurnView { text: response.text, tool_calls: calls },
            )
            &&& next.turn == s.turn
            &&& next.step is Ready
            &&& next.tools_config == s.tools_config && next.identity == s.identity
            &&& next.system_prompt == s.system_prompt && next.max_turns == s.max_turns
            &&& actions[0] matches AgentActionView::Show(UiEventView::AssistantMessage {
                text,
                tool_calls,
                finish_reason,
            })
            &&& text == response.text
            &&& tool_calls == calls.len()
            &&& response.finish_reason is None ==> finish_reason == "missing"@
            &&& response.finish_reason matches Some(word) ==> finish_reason == word
            &&& calls.len() == 0 ==> {
                &&& actions.len() == 2
                &&& actions[1] == AgentActionView::Show(UiEventView::PromptDone)
                &&& next.phase is Idle
            }
            &&& calls.len() > 0 ==> {
                &&& actions.len() == calls.len() + 2
                &&& forall|i: int|
                    0 <= i < calls.len() ==> #[trigger] actions[i + 1] == AgentActionView::Show(
                        UiEventView::ToolStart {
                            name: calls[i].name,
                            arguments: json::document_text(calls[i].arguments),
                        },
                    )
                &&& actions.last() == AgentActionView::Dispatch(calls)
                &&& next.phase matches AgentPhaseView::WaitingForTools { remaining }
                &&& remaining.dom().contains(id) <==> exists|k: int|
                    0 <= k < calls.len() && (#[trigger] calls[k]).id == id
            }
        }),
{
    if response.tool_calls.len() == 0 {
        agent_laws::lemma_plain_answer_ends_the_prompt(s, response);
    } else {
        agent_laws::lemma_tool_calls_are_dispatched(s, response);
        pending::lemma_batch_holds_its_calls(response.tool_calls, id);
        let actions = agent_laws::completed(
            agent::handled(s, AgentMsgView::LlmFinished(Ok(response))),
        ).1;
        assert(actions.last() == AgentActionView::Dispatch(response.tool_calls));
    }
    let next = agent_laws::completed(agent::handled(s, AgentMsgView::LlmFinished(Ok(response)))).0;
    assert(next.conversation.drop_last() =~= s.conversation);
}

/// A failed request is shown as it came and ends the prompt, and nothing is recorded.
pub proof fn lemma_failed_request_in_full(s: AgentView, problem: Seq<char>)
    requires
        s.step is Ready,
    ensures
        ({
            let (next, actions) = agent_laws::completed(
                agent::handled(s, AgentMsgView::LlmFinished(Err(problem))),
            );
            &&& next.conversation == s.conversation
            &&& next.turn == s.turn
            &&& next.phase is Idle
            &&& next.step is Ready
            &&& actions == seq![
                AgentActionView::Show(UiEventView::Error(problem)),
                AgentActionView::Show(UiEventView::PromptDone),
            ]
        }),
{
    agent_laws::lemma_failed_request_ends_the_prompt(s, problem);
}

/// A tool result is recorded under the identifier that it came with, and shown under its name: as
/// a success with its text, or as a failure with its message after a prefix. It ends the wait for
/// its own call and for no other.
pub proof fn lemma_tool_result_in_full(
    s: AgentView,
    call_id: Seq<char>,
    name: Seq<char>,
    output: ToolOutputView,
)
    requires
        s.step is Ready,
    ensures
        ({
            let (next, actions) = agent_laws::completed(
                agent::handled(s, AgentMsgView::ToolFinished { call_id, name, output }),
            );
            &&& next.conversation == s.conversation.push(
                ConversationItemView::Tool(ToolTurnView { call_id, output }),
            )
            &&& next.step is Ready
            &&& next.tools_config == s.tools_config && next.identity == s.identity
            &&& next.system_prompt == s.system_prompt && next.max_turns == s.max_turns
            &&& output matches ToolOutputView::Text(said) ==> actions[0] == AgentActionView::Show(
                UiEventView::ToolEnd { name, ok: true, output: said },
            )
            &&& output matches ToolOutputView::Error(said) ==> actions[0] == AgentActionView::Show(
                UiEventView::ToolEnd { name, ok: false, output: "Error: "@ + said },
            )
            &&& !(s.phase is WaitingForTools) ==> {
                &&& next.phase == s.phase
                &&& next.turn == s.turn
                &&& actions.len() == 2
                &&& actions[1] == AgentActionView::Show(
                    UiEventView::Error("received stale tool result for "@ + name),
                )
            }
            &&& s.phase matches AgentPhaseView::WaitingForTools { remaining } ==> if exists|
                other: Seq<char>,
            | #[trigger] remaining.dom().contains(other) && other != call_id {
                &&& actions.len() == 1
                &&& next.turn == s.turn
                &&& next.phase matches AgentPhaseView::WaitingForTools { remaining: left }
                &&& forall|other: Seq<char>| #[trigger]
                    left.dom().contains(other) <==> remaining.dom().contains(other) && other
                        != call_id
            } else {
                &&& next.turn == s.turn + 1
                &&& actions[1] == AgentActionView::Show(UiEventView::TurnStart(s.turn + 1))
                &&& s.turn < s.max_turns ==> {
                    &&& next.phase is WaitingForLlm
                    &&& actions.len() == 3
                    &&& actions[2] matches AgentActionView::Generate(request)
                    &&& request.conversation == next.conversation
                    &&& request.tools == tools::offered_schemas(s.tools_config)
                    &&& request.system_prompt == identity::identified_prompt(
                        s.identity,
                        s.system_prompt,
                    )
                }
                &&& s.turn >= s.max_turns ==> {
                    &&& next.phase is Idle
                    &&& actions.len() == 4
                    &&& actions[2] == AgentActionView::Show(
                        UiEventView::Error("turn cap reached at "@ + text::decimal(s.max_turns)),
                    )
                    &&& actions[3] == AgentActionView::Show(UiEventView::PromptDone)
                }
            }
        }),
{
    match s.phase {
        AgentPhaseView::WaitingForTools { remaining } => {
            if exists|other: Seq<char>| #[trigger]
                remaining.dom().contains(other) && other != call_id {
                let other = choose|other: Seq<char>| #[trigger]
                    remaining.dom().contains(other) && other != call_id;
                assert(remaining.remove(call_id).dom().contains(other));
                agent_laws::lemma_early_result_waits_for_the_rest(
                    s,
                    remaining,
                    call_id,
                    name,
                    output,
                );
            } else {
                assert(remaining.remove(call_id) =~= Map::<Seq<char>, Seq<char>>::empty());
                agent_laws::lemma_last_result_starts_the_next_turn(
                    s,
                    remaining,
                    call_id,
                    name,
                    output,
                );
            }
        },
        _ => {
            agent_laws::lemma_stale_result_is_reported(s, call_id, name, output);
        },
    }
}

/// A shutdown changes nothing and asks for nothing.
pub proof fn lemma_shutdown_changes_nothing(s: AgentView)
    ensures
        agent::handled(s, AgentMsgView::Shutdown).0 == s,
        agent::handled(s, AgentMsgView::Shutdown).1 is None,
{
}

/// A report on a delivery that nobody waits for changes nothing.
pub proof fn lemma_stray_reports_change_nothing(s: AgentView, sent: Result<(), Seq<char>>)
    requires
        s.step is Ready,
    ensures
        agent::resumed(s, sent).0 == s,
        agent::resumed(s, sent).1 is None,
{
}

/// The next turn can be numbered, unless all numbers of the prompt are used up.
pub proof fn lemma_turns_are_numbered_up_to_the_limit(s: AgentView)
    requires
        s.turn < u32::MAX,
    ensures
        !agent::turn_overflows(s),
{
}

/// A new agent is idle, has recorded nothing and taken no turn, and keeps the settings that it
/// was given.
pub proof fn lemma_new_agent_is_idle(
    config: AgentConfig,
    known: RuntimeIdentityView,
    tools_config: ToolsConfig,
)
    ensures
        ({
            let s = agent::fresh(config, known, tools_config);
            &&& s.phase is Idle
            &&& s.step is Ready
            &&& s.conversation.len() == 0
            &&& s.turn == 0
            &&& s.max_turns == config.max_turns
            &&& s.system_prompt == config.system_prompt@
            &&& s.identity == known
            &&& s.tools_config == tools_config
        }),
{
}

/// A batch is awaited under the identifiers of its calls, each with the name of the last call
/// that has it.
pub proof fn lemma_awaited_calls_keep_their_names(calls: Seq<ToolCallView>, k: int)
    requires
        0 <= k < calls.len(),
        forall|j: int| k < j < calls.len() ==> (#[trigger] calls[j]).id != calls[k].id,
    ensures
        pending::batch(calls).dom().contains(calls[k].id),
        pending::batch(calls)[calls[k].id] == calls[k].name,
    decreases calls.len(),
{
    if k < calls.len() - 1 {
        assert(calls[calls.len() - 1].id != calls[k].id);
        let front = calls.drop_last();
        assert forall|j: int| k < j < front.len() implies (#[trigger] front[j]).id
            != front[k].id by {
            assert(calls[j].id != calls[k].id);
        }
        lemma_awaited_calls_keep_their_names(front, k);
    }
}

/// Whether a text has another one in it.
pub open spec fn has_in_it(whole: Seq<char>, part: Seq<char>) -> bool {
    exists|at: int|
        0 <= at <= whole.len() - part.len() && #[trigger] whole.subrange(at, at + part.len())
            == part
}

/// A text between two others is in the whole.
proof fn lemma_middle_is_in_the_whole(before: Seq<char>, part: Seq<char>, after: Seq<char>)
    ensures
        has_in_it(before + part + after, part),
{
    let whole = before + part + after;
    let at = before.len() as int;
    assert(whole.subrange(at, at + part.len()) =~= part);
}

/// The model reads the configured system prompt first, as it is, and after it a text that names
/// the provider as the user does, the protocol and the model. That text depends on the
/// configuration alone, not on the prompt.
pub proof fn lemma_model_is_told_who_it_is(config: LlmConfig, prompt: Seq<char>, other: Seq<char>)
    ensures
        ({
            let known = identity::configured_identity(config);
            let told = identity::identified_prompt(known, prompt);
            let facts = told.skip(prompt.len() as int);
            let protocol = match config.protocol {
                LlmProtocol::Openai => "OpenAI-compatible Chat Completions"@,
                LlmProtocol::Anthropic => "Anthropic Messages API"@,
            };
            &&& told.len() >= prompt.len()
            &&& told.take(prompt.len() as int) == prompt
            &&& identity::identified_prompt(known, other) == other + facts
            &&& facts == "\n\nRuntime identity:\n- Provider: "@ + config.provider_label@
                + "\n- Protocol: "@ + protocol + "\n- Model: "@ + config.model@
                + "\n\nIf the user asks what model or provider you are using, answer from these runtime identity facts."@
            &&& has_in_it(facts, config.provider_label@)
            &&& has_in_it(facts, protocol)
            &&& has_in_it(facts, config.model@)
        }),
{
    let known = identity::configured_identity(config);
    let told = identity::identified_prompt(known, prompt);
    let protocol = match config.protocol {
        LlmProtocol::Openai => "OpenAI-compatible Chat Completions"@,
        LlmProtocol::Anthropic => "Anthropic Messages API"@,
    };
    let head = "\n\nRuntime identity:\n- Provider: "@;
    let second = "\n- Protocol: "@;
    let third = "\n- Model: "@;
    let tail =
        "\n\nIf the user asks what model or provider you are using, answer from these runtime identity facts."@;
    let facts = head + config.provider_label@ + second + protocol + third + config.model@ + tail;
    assert(told =~= prompt + facts);
    assert(told.skip(prompt.len() as int) =~= facts);
    assert(told.take(prompt.len() as int) =~= prompt);
    assert(identity::identified_prompt(known, other) =~= other + facts);
    let rest = second + protocol + third + config.model@ + tail;
    assert(facts =~= head + config.provider_label@ + rest);
    lemma_middle_is_in_the_whole(head, config.provider_label@, rest);
    let upto = head + config.provider_label@ + second;
    let after = third + config.model@ + tail;
    assert(facts =~= upto + protocol + after);
    lemma_middle_is_in_the_whole(upto, protocol, after);
    let most = head + config.provider_label@ + second + protocol + third;
    assert(facts =~= most + config.model@ + tail);
    lemma_middle_is_in_the_whole(most, config.model@, tail);
}

/// The models of an agent's actions, phases and delivery reports say what those are.
pub proof fn lemma_action_models_are_faithful(
    action: AgentAction,
    phase: AgentPhase,
    sent: Result<(), String>,
)
    ensures
        action matches AgentAction::Show(event) ==> action@ == AgentActionView::Show(event@),
        action matches AgentAction::Generate(request) ==> action@ == AgentActionView::Generate(
            request@,
        ),
        action matches AgentAction::Dispatch(calls) ==> (action@ matches AgentActionView::Dispatch(
            models,
        ) && models.len() == calls@.len() && forall|i: int|
            0 <= i < models.len() ==> #[trigger] models[i] == calls@[i]@),
        agent::action_view(Some(action)) == Some(action@),
        agent::action_view(None) is None,
        phase is Idle <==> phase@ is Idle,
        phase is WaitingForLlm <==> phase@ is WaitingForLlm,
        phase matches AgentPhase::WaitingForTools { remaining } ==> phase@
            == (AgentPhaseView::WaitingForTools { remaining: remaining@ }),
        sent is Ok <==> agent::delivery_view(sent) is Ok,
        sent matches Err(problem) ==> agent::delivery_view(sent) == Err::<(), Seq<char>>(problem@),
{
}

/// An agent that goes on after a delivery asks the model with its whole transcript, its system
/// prompt and all enabled tools, and hands calls to the tools only after it waits for them. A
/// delivery that failed is shown as it was reported.
pub proof fn lemma_agent_goes_on(
    agent: &mut AgentActor,
    sent: Result<(), String>,
    action: Option<AgentAction>,
)
    requires
        call_ensures(AgentActor::resume, (agent, sent), action),
    ensures
        action matches Some(AgentAction::Generate(request)) ==> {
            &&& sent is Ok
            &&& views::views(request.conversation@) == old(agent)@.conversation
            &&& views::views(request.tools@) == tools::offered_schemas(old(agent)@.tools_config)
            &&& request.system_prompt@ == identity::identified_prompt(
                old(agent)@.identity,
                old(agent)@.system_prompt,
            )
            &&& final(agent)@.phase is WaitingForLlm
            &&& final(agent)@.turn <= final(agent)@.max_turns
        },
        action matches Some(AgentAction::Dispatch(calls)) ==> {
            &&& sent is Ok
            &&& final(agent)@.phase == (AgentPhaseView::WaitingForTools {
                remaining: pending::batch(views::views(calls@)),
            })
        },
        sent matches Err(problem) ==> {
            ||| old(agent)@.step is Ready
            ||| old(agent)@.step is FailureShown
            ||| old(agent)@.step is FailureDone
            ||| action matches Some(AgentAction::Show(UiEvent::Error(shown))) && shown@ == problem@
        },
        action is None <==> final(agent)@.step is Ready,
        old(agent)@.conversation.is_prefix_of(final(agent)@.conversation),
        final(agent)@.tools_config == old(agent)@.tools_config,
        final(agent)@.identity == old(agent)@.identity,
        final(agent)@.system_prompt == old(agent)@.system_prompt,
        final(agent)@.max_turns == old(agent)@.max_turns,
{
}

/// An agent that takes up a message shows it first: what the user wrote, what the model answered,
/// or what a tool gave back, each as it came.
pub proof fn lemma_agent_shows_messages_first(
    agent: &mut AgentActor,
    message: AgentMsg,
    action: Option<AgentAction>,
)
    requires
        call_ensures(AgentActor::handle, (agent, message), action),
    ensures
        match message {
            AgentMsg::UserMessage { text: said } => action matches Some(
                AgentAction::Show(UiEvent::UserMessage(shown)),
            ) && shown@ == said@ && final(agent)@.conversation == old(agent)@.conversation,
            AgentMsg::Shutdown => action is None && final(agent)@ == old(agent)@,
            AgentMsg::LlmFinished(Err(problem)) => action matches Some(
                AgentAction::Show(UiEvent::Error(shown)),
            ) && shown@ == problem@ && final(agent)@.conversation == old(agent)@.conversation,
            AgentMsg::LlmFinished(Ok(response)) => action matches Some(
                AgentAction::Show(
                    UiEvent::AssistantMessage { text: shown, tool_calls, finish_reason },
                ),
            ) && shown@ == response.text@ && tool_calls == response.tool_calls@.len()
                && final(agent)@.conversation == old(agent)@.conversation.push(
                ConversationItemView::Assistant(
                    AssistantTurnView {
                        text: response.text@,
                        tool_calls: views::views(response.tool_calls@),
                    },
                ),
            ),
            AgentMsg::ToolFinished { call_id, name, output } => action matches Some(
                AgentAction::Show(UiEvent::ToolEnd { name: shown, ok, output: said }),
            ) && shown@ == name@ && (ok <==> output is Text) && match output {
                ToolOutput::Text(given) => said@ == given@,
                ToolOutput::Error(given) => said@ == "Error: "@ + given@,
            } && final(agent)@.conversation == old(agent)@.conversation,
        },
{
}

/// A batch starts with all of its calls, hands them out in order, and each call that ends is
/// reported and leaves the others as they are.
pub proof fn lemma_batches_are_worked_off(
    calls: Vec<ToolCall>,
    whole: ToolBatch,
    batch: &mut ToolBatch,
    result: Result<ToolOutput, ToolError>,
    report: AgentMsg,
)
    requires
        call_ensures(ToolBatch::new, (calls,), whole),
        call_ensures(ToolBatch::finish, (batch, result), report),
        old(batch)@.len() > 0,
    ensures
        whole@.len() == calls@.len(),
        forall|i: int| 0 <= i < calls@.len() ==> #[trigger] whole@[i] == calls@[i]@,
        final(batch)@.len() == old(batch)@.len() - 1,
        forall|i: int|
            0 <= i < final(batch)@.len() ==> #[trigger] final(batch)@[i] == old(batch)@[i + 1],
        report matches AgentMsg::ToolFinished { call_id, name, output } && call_id@
            == old(batch)@[0].id && name@ == old(batch)@[0].name && (result matches Ok(given)
            ==> output@ == given@) && (result is Err ==> output is Error),
{
}

/// The calls that are awaited are those of the batch, and a result ends the wait for its own call
/// and for no other.
pub proof fn lemma_awaited_calls_end_one_by_one(
    calls: Vec<ToolCall>,
    all: PendingCalls,
    left: &mut PendingCalls,
    id: ToolCallId,
    done: (),
    other: Seq<char>,
)
    requires
        call_ensures(PendingCalls::of_batch, (&calls,), all),
        call_ensures(PendingCalls::remove, (left, &id), done),
    ensures
        all@.dom().contains(other) <==> exists|i: int|
            0 <= i < calls@.len() && (#[trigger] calls@[i]).id.0@ == other,
        final(left)@.dom().contains(other) <==> old(left)@.dom().contains(other) && other != id.0@,
{
    let models = views::views(calls@);
    pending::lemma_batch_holds_its_calls(models, other);
    if all@.dom().contains(other) {
        let i = choose|i: int| 0 <= i < models.len() && (#[trigger] models[i]).id == other;
        assert(calls@[i].id.0@ == other);
    }
    if exists|i: int| 0 <= i < calls@.len() && (#[trigger] calls@[i]).id.0@ == other {
        let i = choose|i: int| 0 <= i < calls@.len() && (#[trigger] calls@[i]).id.0@ == other;
        assert(models[i].id == other);
    }
}

} // verus!
