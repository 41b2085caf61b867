//! Supervises Acty's top-level runtime actors.
//!
//! The supervisor decides which child is sent what; the frontend needs no
//! access to the agent, the LLM or the tool registry.

use crate::messages::{AgentMsg, LlmMsg, SystemMsg, ToolRegistryMsg};
use vstd::prelude::*;
use vstd::string::*;

verus! {

/// A message to one of the children of the supervisor.
#[derive(Debug)]
pub enum ChildMsg {
    /// To the agent.
    Agent(AgentMsg),
    /// To the provider actor.
    Llm(LlmMsg),
    /// To the tool registry.
    Tools(ToolRegistryMsg),
}

/// What the supervisor does with a message.
#[derive(Debug)]
pub struct Supervision {
    /// What the children are sent, in order.
    pub sends: Vec<ChildMsg>,
    /// Whether the supervisor stops afterwards.
    pub stop: bool,
}

/// What ends every child.
pub open spec fn farewells() -> Seq<ChildMsg> {
    seq![
        ChildMsg::Agent(AgentMsg::Shutdown),
        ChildMsg::Llm(LlmMsg::Shutdown),
        ChildMsg::Tools(ToolRegistryMsg::Shutdown),
    ]
}

/// Takes one message from the supervisor mailbox.
///
/// User messages are routed to the agent, while shutdown is fan-out lifecycle
/// control for every child.
pub fn supervise(message: SystemMsg) -> (supervision: Supervision)
    ensures
        match message {
            SystemMsg::UserMessage { text } => {
                &&& supervision.sends@ == seq![ChildMsg::Agent(AgentMsg::UserMessage { text })]
                &&& !supervision.stop
            },
            SystemMsg::Shutdown => {
                &&& supervision.sends@ == farewells()
                &&& supervision.stop
            },
        },
{
    match message {
        SystemMsg::UserMessage { text } => Supervision {
            sends: vec![ChildMsg::Agent(AgentMsg::UserMessage { text })],
            stop: false,
        },
        SystemMsg::Shutdown => Supervision { sends: shutdown_children(), stop: true },
    }
}

/// Tells all children to shut down.
pub fn shutdown_children() -> (sends: Vec<ChildMsg>)
    ensures
        sends@ == farewells(),
{
    vec![
        ChildMsg::Agent(AgentMsg::Shutdown),
        ChildMsg::Llm(LlmMsg::Shutdown),
        ChildMsg::Tools(ToolRegistryMsg::Shutdown),
    ]
}

/// A shutdown tells every child once, and tells it nothing else.
pub proof fn lemma_shutdown_reaches_every_child()
    ensures
        farewells().filter(|sent: ChildMsg| sent is Agent) == seq![
            ChildMsg::Agent(AgentMsg::Shutdown),
        ],
        farewells().filter(|sent: ChildMsg| sent is Llm) == seq![ChildMsg::Llm(LlmMsg::Shutdown)],
        farewells().filter(|sent: ChildMsg| sent is Tools) == seq![
            ChildMsg::Tools(ToolRegistryMsg::Shutdown),
        ],
{
    reveal_with_fuel(Seq::filter, 4);
    let all = farewells();
    assert(all.drop_last() =~= seq![
        ChildMsg::Agent(AgentMsg::Shutdown),
        ChildMsg::Llm(LlmMsg::Shutdown),
    ]);
    assert(all.drop_last().drop_last() =~= seq![ChildMsg::Agent(AgentMsg::Shutdown)]);
    assert(all.drop_last().drop_last().drop_last() =~= Seq::empty());
    assert(all.filter(|sent: ChildMsg| sent is Agent) =~= seq![
        ChildMsg::Agent(AgentMsg::Shutdown),
    ]);
    assert(all.filter(|sent: ChildMsg| sent is Llm) =~= seq![ChildMsg::Llm(LlmMsg::Shutdown)]);
    assert(all.filter(|sent: ChildMsg| sent is Tools) =~= seq![
        ChildMsg::Tools(ToolRegistryMsg::Shutdown),
    ]);
}

} // verus!
