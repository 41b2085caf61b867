//! Owns the goal-directed coding loop as one state machine.
//!
//! The agent never reaches into the LLM or tool actors. It takes one message at
//! a time and answers with one action at a time: an event to show, a request to
//! send, a batch to dispatch. Whoever performs the action reports whether it
//! was delivered, and the agent goes on from there.

use crate::config::{AgentConfig, ToolsConfig};
use crate::identity::{self, RuntimeIdentityView};
use crate::json::{self, render_document};
use crate::messages::{AgentMsg, AgentMsgView, UiEvent, UiEventView};
use crate::pending::{self, PendingCalls};
use crate::protocol::{
    self, copy_calls, copy_conversation, AssistantTurn, AssistantTurnView, ConversationItem,
    ConversationItemView, LlmRequest, LlmRequestView, LlmResponse, LlmResponseView, ToolCall,
    ToolCallId, ToolCallView, ToolOutput, ToolOutputView, ToolTurn, ToolTurnView,
};
use crate::text::{self, decimal_text};
use crate::tools::{self, schemas};
use crate::views;
use vstd::prelude::*;
use vstd::string::*;

pub use crate::identity::RuntimeIdentity;

verus! {

/// Whether a message ends the agent.
pub fn ends_agent(message: &AgentMsg) -> (stop: bool)
    ensures
        stop == (message@ is Shutdown),
{
    match message {
        AgentMsg::Shutdown => true,
        _ => false,
    }
}

/// What the agent waits for between two messages.
#[derive(Debug)]
pub enum AgentPhase {
    /// A user message.
    Idle,
    /// The answer of the model.
    WaitingForLlm,
    /// The results of tool calls.
    WaitingForTools {
        /// The calls that have not ended.
        remaining: PendingCalls,
    },
}

/// One thing that the agent wants delivered.
#[derive(Debug)]
pub enum AgentAction {
    /// An event for the frontend.
    Show(UiEvent),
    /// A request for the model.
    Generate(LlmRequest),
    /// A batch of calls for the tools.
    Dispatch(Vec<ToolCall>),
}

/// Where the agent stands in the handling of a message.
#[derive(Debug)]
pub enum AgentStep {
    /// Nothing is being handled.
    Ready,
    /// A user message was shown.
    UserShown {
        /// The message.
        text: String,
    },
    /// The start of a model turn was shown.
    TurnShown,
    /// A request was sent to the model.
    Generating,
    /// The answer of the model was shown.
    AssistantShown {
        /// The tool calls that the model asks for.
        calls: Vec<ToolCall>,
    },
    /// The start of a tool call was shown.
    ToolShown {
        /// The batch.
        calls: Vec<ToolCall>,
        /// How many starts have been shown.
        started: usize,
    },
    /// A batch was sent to the tools.
    Dispatching,
    /// The end of a tool call was shown.
    ToolEndShown {
        /// The call.
        call_id: ToolCallId,
        /// The name of the tool.
        name: String,
        /// What the tool gave back.
        output: ToolOutput,
    },
    /// A result that nobody waits for was shown.
    StaleShown,
    /// What ended the prompt was shown.
    ErrorShown,
    /// The end of the prompt was shown.
    DoneShown,
    /// A failed delivery was shown.
    FailureShown,
    /// The end of a prompt that a failed delivery cut short was shown.
    FailureDone,
}

/// The model of an [`AgentPhase`].
pub enum AgentPhaseView {
    /// A user message.
    Idle,
    /// The answer of the model.
    WaitingForLlm,
    /// The results of tool calls.
    WaitingForTools {
        /// The calls that have not ended.
        remaining: Map<Seq<char>, Seq<char>>,
    },
}

/// The model of an [`AgentAction`].
pub enum AgentActionView {
    /// An event for the frontend.
    Show(UiEventView),
    /// A request for the model.
    Generate(LlmRequestView),
    /// A batch of calls for the tools.
    Dispatch(Seq<ToolCallView>),
}

/// The model of an [`AgentStep`].
pub enum AgentStepView {
    /// Nothing is being handled.
    Ready,
    /// A user message was shown.
    UserShown {
        /// The message.
        text: Seq<char>,
    },
    /// The start of a model turn was shown.
    TurnShown,
    /// A request was sent to the model.
    Generating,
    /// The answer of the model was shown.
    AssistantShown {
        /// The tool calls that the model asks for.
        calls: Seq<ToolCallView>,
    },
    /// The start of a tool call was shown.
    ToolShown {
        /// The batch.
        calls: Seq<ToolCallView>,
        /// How many starts have been shown.
        started: nat,
    },
    /// A batch was sent to the tools.
    Dispatching,
    /// The end of a tool call was shown.
    ToolEndShown {
        /// The call.
        call_id: Seq<char>,
        /// The name of the tool.
        name: Seq<char>,
        /// What the tool gave back.
        output: ToolOutputView,
    },
    /// A result that nobody waits for was shown.
    StaleShown,
    /// What ended the prompt was shown.
    ErrorShown,
    /// The end of the prompt was shown.
    DoneShown,
    /// A failed delivery was shown.
    FailureShown,
    /// The end of a prompt that a failed delivery cut short was shown.
    FailureDone,
}

/// The agent: its settings, its transcript and where it stands.
#[derive(Debug)]
pub struct AgentActor {
    config: AgentConfig,
    runtime_identity: RuntimeIdentity,
    tools_config: ToolsConfig,
    conversation: Vec<ConversationItem>,
    phase: AgentPhase,
    turn: u32,
    step: AgentStep,
}

/// The model of an [`AgentActor`].
pub struct AgentView {
    /// How many model turns one prompt may take.
    pub max_turns: nat,
    /// The configured system prompt.
    pub system_prompt: Seq<char>,
    /// What the model is told about the runtime.
    pub identity: RuntimeIdentityView,
    /// What the tools may do.
    pub tools_config: ToolsConfig,
    /// The transcript.
    pub conversation: Seq<ConversationItemView>,
    /// What the agent waits for.
    pub phase: AgentPhaseView,
    /// The number of the current model turn.
    pub turn: nat,
    /// Where the agent stands in the handling of a message.
    pub step: AgentStepView,
}

impl View for AgentPhase {
    type V = AgentPhaseView;

    open spec fn view(&self) -> AgentPhaseView {
        match self {
            AgentPhase::Idle => AgentPhaseView::Idle,
            AgentPhase::WaitingForLlm => AgentPhaseView::WaitingForLlm,
            AgentPhase::WaitingForTools { remaining } => AgentPhaseView::WaitingForTools {
                remaining: remaining@,
            },
        }
    }
}

impl View for AgentAction {
    type V = AgentActionView;

    open spec fn view(&self) -> AgentActionView {
        match self {
            AgentAction::Show(event) => AgentActionView::Show(event@),
            AgentAction::Generate(request) => AgentActionView::Generate(request@),
            AgentAction::Dispatch(calls) => AgentActionView::Dispatch(views::views(calls@)),
        }
    }
}

impl View for AgentStep {
    type V = AgentStepView;

    open spec fn view(&self) -> AgentStepView {
        match self {
            AgentStep::Ready => AgentStepView::Ready,
            AgentStep::UserShown { text } => AgentStepView::UserShown { text: text@ },
            AgentStep::TurnShown => AgentStepView::TurnShown,
            AgentStep::Generating => AgentStepView::Generating,
            AgentStep::AssistantShown { calls } => AgentStepView::AssistantShown {
                calls: views::views(calls@),
            },
            AgentStep::ToolShown { calls, started } => AgentStepView::ToolShown {
                calls: views::views(calls@),
                started: *started as nat,
            },
            AgentStep::Dispatching => AgentStepView::Dispatching,
            AgentStep::ToolEndShown { call_id, name, output } => AgentStepView::ToolEndShown {
                call_id: call_id@,
                name: name@,
                output: output@,
            },
            AgentStep::StaleShown => AgentStepView::StaleShown,
            AgentStep::ErrorShown => AgentStepView::ErrorShown,
            AgentStep::DoneShown => AgentStepView::DoneShown,
            AgentStep::FailureShown => AgentStepView::FailureShown,
            AgentStep::FailureDone => AgentStepView::FailureDone,
        }
    }
}

impl View for AgentActor {
    type V = AgentView;

    closed spec fn view(&self) -> AgentView {
        AgentView {
            max_turns: self.config.max_turns as nat,
            system_prompt: self.config.system_prompt@,
            identity: self.runtime_identity@,
            tools_config: self.tools_config,
            conversation: views::views(self.conversation@),
            phase: self.phase@,
            turn: self.turn as nat,
            step: self.step@,
        }
    }
}

/// The model of an action that may be absent.
pub open spec fn action_view(action: Option<AgentAction>) -> Option<AgentActionView> {
    match action {
        Some(action) => Some(action@),
        None => None,
    }
}

/// The model of a delivery report.
pub open spec fn delivery_view(sent: Result<(), String>) -> Result<(), Seq<char>> {
    match sent {
        Ok(_) => Ok(()),
        Err(message) => Err(message@),
    }
}

/// The agent and the action that it asks for: what one step of the machine gives.
pub type AgentMove = (AgentView, Option<AgentActionView>);

/// Shows an event and goes on to `step` once it is delivered.
pub open spec fn show(s: AgentView, event: UiEventView, step: AgentStepView) -> AgentMove {
    (AgentView { step, ..s }, Some(AgentActionView::Show(event)))
}

/// The transcript with one more entry.
pub open spec fn record(s: AgentView, item: ConversationItemView) -> AgentView {
    AgentView { conversation: s.conversation.push(item), ..s }
}

/// The request that the agent sends to the model.
pub open spec fn next_request(s: AgentView) -> LlmRequestView {
    LlmRequestView {
        system_prompt: identity::identified_prompt(s.identity, s.system_prompt),
        conversation: s.conversation,
        tools: tools::offered_schemas(s.tools_config),
    }
}

/// Starts a model turn.
pub open spec fn turn_started(s: AgentView) -> AgentMove {
    show(
        AgentView { turn: s.turn + 1, ..s },
        UiEventView::TurnStart(s.turn + 1),
        AgentStepView::TurnShown,
    )
}

/// Asks the model, unless the turns are used up.
pub open spec fn turn_taken(s: AgentView) -> AgentMove {
    if s.turn > s.max_turns {
        show(
            s,
            UiEventView::Error("turn cap reached at "@ + text::decimal(s.max_turns)),
            AgentStepView::ErrorShown,
        )
    } else {
        (
            AgentView {
                phase: AgentPhaseView::WaitingForLlm,
                step: AgentStepView::Generating,
                ..s
            },
            Some(AgentActionView::Generate(next_request(s))),
        )
    }
}

/// Shows the start of the next call of a batch, or dispatches the batch once all are shown.
pub open spec fn batch_shown(s: AgentView, calls: Seq<ToolCallView>, started: nat) -> AgentMove {
    if started < calls.len() {
        let call = calls[started as int];
        show(
            s,
            UiEventView::ToolStart {
                name: call.name,
                arguments: json::document_text(call.arguments),
            },
            AgentStepView::ToolShown { calls, started: started + 1 },
        )
    } else {
        (
            AgentView {
                phase: AgentPhaseView::WaitingForTools { remaining: pending::batch(calls) },
                step: AgentStepView::Dispatching,
                ..s
            },
            Some(AgentActionView::Dispatch(calls)),
        )
    }
}

/// Records a tool result, and starts the next turn once no call of the batch is left.
pub open spec fn result_recorded(
    s: AgentView,
    call_id: Seq<char>,
    name: Seq<char>,
    output: ToolOutputView,
) -> AgentMove {
    let told = record(
        AgentView { step: AgentStepView::Ready, ..s },
        ConversationItemView::Tool(ToolTurnView { call_id, output }),
    );
    match s.phase {
        AgentPhaseView::WaitingForTools { remaining } => {
            let left = remaining.remove(call_id);
            let waiting = AgentView {
                phase: AgentPhaseView::WaitingForTools { remaining: left },
                ..told
            };
            if left == Map::<Seq<char>, Seq<char>>::empty() {
                turn_started(waiting)
            } else {
                (waiting, None)
            }
        },
        _ => show(
            told,
            UiEventView::Error("received stale tool result for "@ + name),
            AgentStepView::StaleShown,
        ),
    }
}

/// What the agent does with a message.
pub open spec fn handled(s: AgentView, message: AgentMsgView) -> AgentMove {
    match message {
        AgentMsgView::UserMessage { text } => show(
            s,
            UiEventView::UserMessage(text),
            AgentStepView::UserShown { text },
        ),
        AgentMsgView::Shutdown => (s, None),
        AgentMsgView::LlmFinished(Err(problem)) => show(
            s,
            UiEventView::Error(problem),
            AgentStepView::ErrorShown,
        ),
        AgentMsgView::LlmFinished(Ok(response)) => show(
            record(
                s,
                ConversationItemView::Assistant(
                    AssistantTurnView { text: response.text, tool_calls: response.tool_calls },
                ),
            ),
            UiEventView::AssistantMessage {
                text: response.text,
                tool_calls: response.tool_calls.len(),
                finish_reason: protocol::finish_label(response.finish_reason),
            },
            AgentStepView::AssistantShown { calls: response.tool_calls },
        ),
        AgentMsgView::ToolFinished { call_id, name, output } => show(
            s,
            UiEventView::ToolEnd { name, ok: !output.failed(), output: output.rendered() },
            AgentStepView::ToolEndShown { call_id, name, output },
        ),
    }
}

/// What the agent does once the action that it asked for is delivered.
pub open spec fn continued(s: AgentView) -> AgentMove {
    match s.step {
        AgentStepView::Ready => (s, None),
        AgentStepView::UserShown { text } => turn_started(
            AgentView { turn: 0, ..record(s, ConversationItemView::User(text)) },
        ),
        AgentStepView::TurnShown => turn_taken(s),
        AgentStepView::Generating => (AgentView { step: AgentStepView::Ready, ..s }, None),
        AgentStepView::AssistantShown { calls } => if calls.len() == 0 {
            show(s, UiEventView::PromptDone, AgentStepView::DoneShown)
        } else {
            batch_shown(s, calls, 0)
        },
        AgentStepView::ToolShown { calls, started } => batch_shown(s, calls, started),
        AgentStepView::Dispatching => (AgentView { step: AgentStepView::Ready, ..s }, None),
        AgentStepView::ToolEndShown { call_id, name, output } => result_recorded(
            s,
            call_id,
            name,
            output,
        ),
        AgentStepView::StaleShown => (AgentView { step: AgentStepView::Ready, ..s }, None),
        AgentStepView::ErrorShown => show(s, UiEventView::PromptDone, AgentStepView::DoneShown),
        AgentStepView::DoneShown => (
            AgentView { phase: AgentPhaseView::Idle, step: AgentStepView::Ready, ..s },
            None,
        ),
        AgentStepView::FailureShown => show(s, UiEventView::PromptDone, AgentStepView::FailureDone),
        AgentStepView::FailureDone => (
            AgentView { phase: AgentPhaseView::Idle, step: AgentStepView::Ready, ..s },
            None,
        ),
    }
}

/// Whether a failed delivery is passed over: the agent is already giving up the prompt.
pub open spec fn is_giving_up(step: AgentStepView) -> bool {
    step is Ready || step is FailureShown || step is FailureDone
}

/// What the agent does once the action that it asked for is delivered, or could not be.
pub open spec fn resumed(s: AgentView, sent: Result<(), Seq<char>>) -> AgentMove {
    match sent {
        Err(problem) if !is_giving_up(s.step) => show(
            s,
            UiEventView::Error(problem),
            AgentStepView::FailureShown,
        ),
        _ => continued(s),
    }
}

/// Whether the next turn of this prompt has no number in a `u32`.
pub open spec fn turn_overflows(s: AgentView) -> bool {
    &&& s.turn >= u32::MAX
    &&& s.step matches AgentStepView::ToolEndShown { call_id, .. }
    &&& s.phase matches AgentPhaseView::WaitingForTools { remaining }
    &&& remaining.remove(call_id) == Map::<Seq<char>, Seq<char>>::empty()
}

/// An agent that has not been told anything.
pub open spec fn fresh(
    config: AgentConfig,
    identity: RuntimeIdentityView,
    tools_config: ToolsConfig,
) -> AgentView {
    AgentView {
        max_turns: config.max_turns as nat,
        system_prompt: config.system_prompt@,
        identity,
        tools_config,
        conversation: Seq::empty(),
        phase: AgentPhaseView::Idle,
        turn: 0,
        step: AgentStepView::Ready,
    }
}

impl AgentActor {
    /// Makes an agent with an empty transcript.
    pub fn new(
        config: AgentConfig,
        runtime_identity: RuntimeIdentity,
        tools_config: ToolsConfig,
    ) -> (agent: AgentActor)
        ensures
            agent@ == fresh(config, runtime_identity@, tools_config),
    {
        let conversation: Vec<ConversationItem> = Vec::new();
        assert(views::views(conversation@) =~= Seq::<ConversationItemView>::empty());
        AgentActor {
            config,
            runtime_identity,
            tools_config,
            conversation,
            phase: AgentPhase::Idle,
            turn: 0,
            step: AgentStep::Ready,
        }
    }

    /// Takes up one message and asks for the first action.
    ///
    /// User messages start a model turn, LLM responses either finish or dispatch
    /// tools, and tool results resume the loop when the pending batch completes.
    pub fn handle(&mut self, message: AgentMsg) -> (action: Option<AgentAction>)
        requires
            old(self)@.step is Ready,
        ensures
            (final(self)@, action_view(action)) == handled(old(self)@, message@),
            action is None <==> final(self)@.step is Ready,
    {
        match message {
            AgentMsg::UserMessage { text } => Some(self.handle_user_message(text)),
            AgentMsg::Shutdown => None,
            AgentMsg::LlmFinished(result) => Some(self.handle_llm_finished(result)),
            AgentMsg::ToolFinished { call_id, name, output } => Some(
                self.handle_tool_finished(call_id, name, output),
            ),
        }
    }

    /// Takes up a user message.
    pub fn handle_user_message(&mut self, text: String) -> (action: AgentAction)
        requires
            old(self)@.step is Ready,
        ensures
            (final(self)@, Some(action@)) == handled(
                old(self)@,
                AgentMsgView::UserMessage { text: text@ },
            ),
    {
        let shown = text.clone();
        self.step = AgentStep::UserShown { text };
        AgentAction::Show(UiEvent::UserMessage(shown))
    }

    /// Takes up an LLM response and records it.
    pub fn handle_llm_finished(
        &mut self,
        result: Result<LlmResponse, String>,
    ) -> (action: AgentAction)
        requires
            old(self)@.step is Ready,
        ensures
            (final(self)@, Some(action@)) == handled(
                old(self)@,
                AgentMsg::LlmFinished(result)@,
            ),
    {
        match result {
            Err(message) => {
                self.step = AgentStep::ErrorShown;
                AgentAction::Show(UiEvent::Error(message))
            },
            Ok(response) => {
                let label = response.finish_reason.as_label().to_string();
                let tool_calls = copy_calls(&response.tool_calls);
                let text = response.text.clone();
                let item = ConversationItem::Assistant(
                    AssistantTurn { text: response.text, tool_calls: response.tool_calls },
                );
                proof {
                    views::lemma_views_push(self.conversation@, item);
                }
                self.conversation.push(item);
                let count: usize = tool_calls.len();
                self.step = AgentStep::AssistantShown { calls: tool_calls };
                AgentAction::Show(
                    UiEvent::AssistantMessage { text, tool_calls: count, finish_reason: label },
                )
            },
        }
    }

    /// Takes up a tool result.
    pub fn handle_tool_finished(
        &mut self,
        call_id: ToolCallId,
        name: String,
        output: ToolOutput,
    ) -> (action: AgentAction)
        requires
            old(self)@.step is Ready,
        ensures
            (final(self)@, Some(action@)) == handled(
                old(self)@,
                AgentMsgView::ToolFinished { call_id: call_id@, name: name@, output: output@ },
            ),
    {
        let event = UiEvent::ToolEnd {
            name: name.clone(),
            ok: !output.is_error(),
            output: output.as_text(),
        };
        self.step = AgentStep::ToolEndShown { call_id, name, output };
        AgentAction::Show(event)
    }

    /// Starts a model turn.
    pub fn start_llm_turn(&mut self) -> (action: AgentAction)
        requires
            old(self)@.step is Ready,
            old(self)@.turn < u32::MAX,
        ensures
            (final(self)@, Some(action@)) == turn_started(old(self)@),
    {
        self.turn = self.turn + 1;
        self.step = AgentStep::TurnShown;
        AgentAction::Show(UiEvent::TurnStart(self.turn))
    }

    /// Sends the current transcript to the model, unless the turns are used up.
    ///
    /// The agent records that it is waiting before it asks, so an answer always
    /// has an explicit state to return to.
    fn take_llm_turn(&mut self) -> (action: AgentAction)
        ensures
            (final(self)@, Some(action@)) == turn_taken(old(self)@),
    {
        if self.turn > self.config.max_turns {
            let mut message = "turn cap reached at ".to_string();
            let cap = decimal_text(self.config.max_turns as u128);
            message.append(cap.as_str());
            self.step = AgentStep::ErrorShown;
            return AgentAction::Show(UiEvent::Error(message));
        }
        self.phase = AgentPhase::WaitingForLlm;
        self.step = AgentStep::Generating;
        let request = LlmRequest {
            system_prompt: self.runtime_identity.append_to_system_prompt(
                self.config.system_prompt.as_str(),
            ),
            conversation: copy_conversation(&self.conversation),
            tools: schemas(&self.tools_config),
        };
        AgentAction::Generate(request)
    }

    /// Shows the start of the next tool call, or sends the batch to the tools.
    ///
    /// Pending call IDs become state of the agent until the matching results
    /// come back.
    fn dispatch_tools(&mut self, calls: Vec<ToolCall>, started: usize) -> (action: AgentAction)
        ensures
            (final(self)@, Some(action@)) == batch_shown(
                old(self)@,
                views::views(calls@),
                started as nat,
            ),
    {
        if started < calls.len() {
            let event = UiEvent::ToolStart {
                name: calls[started].name.clone(),
                arguments: render_document(&calls[started].arguments),
            };
            self.step = AgentStep::ToolShown { calls, started: started + 1 };
            return AgentAction::Show(event);
        }
        self.phase = AgentPhase::WaitingForTools { remaining: PendingCalls::of_batch(&calls) };
        self.step = AgentStep::Dispatching;
        AgentAction::Dispatch(calls)
    }

    /// Records a tool result and resumes the model after the batch completes.
    fn record_tool_result(
        &mut self,
        call_id: ToolCallId,
        name: String,
        output: ToolOutput,
    ) -> (action: Option<AgentAction>)
        requires
            old(self)@.phase matches AgentPhaseView::WaitingForTools { remaining }
                ==> remaining.remove(call_id@) == Map::<Seq<char>, Seq<char>>::empty()
                ==> old(self)@.turn < u32::MAX,
        ensures
            (final(self)@, action_view(action)) == result_recorded(
                old(self)@,
                call_id@,
                name@,
                output@,
            ),
    {
        let item = ConversationItem::Tool(ToolTurn { call_id: call_id.clone(), output });
        proof {
            views::lemma_views_push(self.conversation@, item);
        }
        self.conversation.push(item);
        self.step = AgentStep::Ready;
        let mut phase = AgentPhase::Idle;
        std::mem::swap(&mut self.phase, &mut phase);
        match phase {
            AgentPhase::WaitingForTools { remaining } => {
                let mut remaining = remaining;
                remaining.remove(&call_id);
                let complete = remaining.is_empty();
                self.phase = AgentPhase::WaitingForTools { remaining };
                if complete {
                    Some(self.start_llm_turn())
                } else {
                    None
                }
            },
            other => {
                self.phase = other;
                let mut message = "received stale tool result for ".to_string();
                message.append(name.as_str());
                self.step = AgentStep::StaleShown;
                Some(AgentAction::Show(UiEvent::Error(message)))
            },
        }
    }

    /// Whether the next turn of this prompt would have no number.
    pub fn next_turn_overflows(&self) -> (overflows: bool)
        ensures
            overflows == turn_overflows(self@),
    {
        if self.turn < u32::MAX {
            return false;
        }
        match &self.step {
            AgentStep::ToolEndShown { call_id, .. } => match &self.phase {
                AgentPhase::WaitingForTools { remaining } => remaining.is_settled_by(call_id),
                _ => false,
            },
            _ => false,
        }
    }

    /// Goes on once the action that the agent asked for is delivered, or could not be.
    ///
    /// A failed delivery is shown and ends the prompt. Deliveries that fail while
    /// that is shown are passed over.
    pub fn resume(&mut self, sent: Result<(), String>) -> (action: Option<AgentAction>)
        requires
            sent is Ok ==> !turn_overflows(old(self)@),
        ensures
            (final(self)@, action_view(action)) == resumed(old(self)@, delivery_view(sent)),
            action is None <==> final(self)@.step is Ready,
    {
        let mut step = AgentStep::Ready;
        std::mem::swap(&mut self.step, &mut step);
        match sent {
            Err(message) => match step {
                AgentStep::Ready => None,
                AgentStep::FailureShown => {
                    self.step = AgentStep::FailureDone;
                    Some(AgentAction::Show(UiEvent::PromptDone))
                },
                AgentStep::FailureDone => {
                    self.phase = AgentPhase::Idle;
                    None
                },
                _ => {
                    self.step = AgentStep::FailureShown;
                    Some(AgentAction::Show(UiEvent::Error(message)))
                },
            },
            Ok(_) => match step {
                AgentStep::Ready => None,
                AgentStep::UserShown { text } => {
                    let item = ConversationItem::User(text);
                    proof {
                        views::lemma_views_push(self.conversation@, item);
                    }
                    self.conversation.push(item);
                    self.turn = 0;
                    Some(self.start_llm_turn())
                },
                AgentStep::TurnShown => Some(self.take_llm_turn()),
                AgentStep::Generating => None,
                AgentStep::AssistantShown { calls } => {
                    if calls.len() == 0 {
                        self.step = AgentStep::DoneShown;
                        Some(AgentAction::Show(UiEvent::PromptDone))
                    } else {
                        Some(self.dispatch_tools(calls, 0))
                    }
                },
                AgentStep::ToolShown { calls, started } => Some(
                    self.dispatch_tools(calls, started),
                ),
                AgentStep::Dispatching => None,
                AgentStep::ToolEndShown { call_id, name, output } => self.record_tool_result(
                    call_id,
                    name,
                    output,
                ),
                AgentStep::StaleShown => None,
                AgentStep::ErrorShown => {
                    self.step = AgentStep::DoneShown;
                    Some(AgentAction::Show(UiEvent::PromptDone))
                },
                AgentStep::DoneShown => {
                    self.phase = AgentPhase::Idle;
                    None
                },
                AgentStep::FailureShown => {
                    self.step = AgentStep::FailureDone;
                    Some(AgentAction::Show(UiEvent::PromptDone))
                },
                AgentStep::FailureDone => {
                    self.phase = AgentPhase::Idle;
                    None
                },
            },
        }
    }

    /// What the agent waits for.
    pub fn phase(&self) -> (phase: &AgentPhase)
        ensures
            phase@ == self@.phase,
    {
        &self.phase
    }

    /// The transcript.
    pub fn conversation(&self) -> (conversation: &Vec<ConversationItem>)
        ensures
            views::views(conversation@) == self@.conversation,
    {
        &self.conversation
    }

    /// The number of the current model turn.
    pub fn turn(&self) -> (turn: u32)
        ensures
            turn == self@.turn,
    {
        self.turn
    }
}

} // verus!
