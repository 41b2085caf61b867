//! Models keep what their values hold: nothing is added, left out or mixed up on the way from a
//! value to what the other laws speak of.

use crate::calls::{
    PendingCommand, PendingDirectory, PendingRead, PendingWrite, ReadPurpose, ToolStep,
    ToolStepView,
};
use crate::edits::{EditRefusal, EditRefusalView};
use crate::json::{self, Json, JsonView};
use crate::llm::{LlmStep, LlmStepView};
use crate::messages::{AgentMsg, AgentMsgView};
use crate::openai::{OpenAiError, OpenAiErrorView};
use crate::protocol::{
    AssistantTurn, ConversationItem, ConversationItemView, FinishReason, LlmRequest, LlmResponse,
    ToolCall, ToolOutput, ToolOutputView, ToolSchema, ToolTurn,
};
use crate::provider::{Auth, HttpRequest, RequestAuth, RequestAuthView};
use crate::tools::{ToolError, ToolErrorView};
use crate::views;
use vstd::prelude::*;

verus! {

/// The models of a list are those of its items, in order, and the model of an outcome is that of
/// its value or of its error.
pub proof fn lemma_list_models<T: View, E: View>(list: Seq<T>, outcome: Result<T, E>)
    ensures
        views::views(list).len() == list.len(),
        forall|i: int| 0 <= i < list.len() ==> #[trigger] views::views(list)[i] == list[i]@,
        outcome matches Ok(value) ==> views::outcome(outcome) == Ok::<T::V, E::V>(value@),
        outcome matches Err(error) ==> views::outcome(outcome) == Err::<T::V, E::V>(error@),
{
}

/// The model of a tool call, a tool result, a turn and a tool description.
pub proof fn lemma_call_models(
    call: ToolCall,
    output: ToolOutput,
    turn: ToolTurn,
    tool: ToolSchema,
    reason: FinishReason,
)
    ensures
        call@.id == call.id.0@,
        call@.name == call.name@,
        call@.arguments == call.arguments,
        output matches ToolOutput::Text(said) ==> output@ == ToolOutputView::Text(said@),
        output matches ToolOutput::Error(said) ==> output@ == ToolOutputView::Error(said@),
        turn@.call_id == turn.call_id.0@,
        turn@.output == turn.output@,
        tool@.name == tool.name@,
        tool@.description == tool.description@,
        tool@.parameters == tool.parameters@,
        reason is Missing <==> reason@ is None,
        reason matches FinishReason::Known(word) ==> reason@ == Some(word@),
{
}

/// The model of an item of the transcript, of a request and of a response.
pub proof fn lemma_conversation_models(
    item: ConversationItem,
    turn: AssistantTurn,
    request: LlmRequest,
    response: LlmResponse,
)
    ensures
        item matches ConversationItem::User(said) ==> item@ == ConversationItemView::User(said@),
        item matches ConversationItem::Assistant(said) ==> item@ == ConversationItemView::Assistant(
            said@,
        ),
        item matches ConversationItem::Tool(result) ==> item@ == ConversationItemView::Tool(
            result@,
        ),
        turn@.text == turn.text@,
        turn@.tool_calls.len() == turn.tool_calls@.len(),
        forall|i: int|
            0 <= i < turn.tool_calls@.len() ==> #[trigger] turn@.tool_calls[i]
                == turn.tool_calls@[i]@,
        request@.system_prompt == request.system_prompt@,
        request@.conversation.len() == request.conversation@.len(),
        forall|i: int|
            0 <= i < request.conversation@.len() ==> #[trigger] request@.conversation[i]
                == request.conversation@[i]@,
        request@.tools.len() == request.tools@.len(),
        forall|i: int|
            0 <= i < request.tools@.len() ==> #[trigger] request@.tools[i] == request.tools@[i]@,
        response@.text == response.text@,
        response@.finish_reason == response.finish_reason@,
        response@.tool_calls.len() == response.tool_calls@.len(),
        forall|i: int|
            0 <= i < response.tool_calls@.len() ==> #[trigger] response@.tool_calls[i]
                == response.tool_calls@[i]@,
{
}

/// The model of a message to the agent.
pub proof fn lemma_message_models(message: AgentMsg)
    ensures
        match message {
            AgentMsg::UserMessage { text } => message@ == (AgentMsgView::UserMessage {
                text: text@,
            }),
            AgentMsg::Shutdown => message@ is Shutdown,
            AgentMsg::LlmFinished(Ok(response)) => message@ == AgentMsgView::LlmFinished(
                Ok(response@),
            ),
            AgentMsg::LlmFinished(Err(problem)) => message@ == AgentMsgView::LlmFinished(
                Err(problem@),
            ),
            AgentMsg::ToolFinished { call_id, name, output } => message@ == (
            AgentMsgView::ToolFinished { call_id: call_id.0@, name: name@, output: output@ }),
        },
{
}

/// The model of a document that the library builds: leaf by leaf, item by item, field by field.
pub proof fn lemma_document_models(document: Json)
    ensures
        match document {
            Json::Bool(value) => document@ == JsonView::Bool(value),
            Json::Number(value) => document@ == JsonView::Number(value as nat),
            Json::Text(said) => document@ == JsonView::Text(said@),
            Json::Array(items) => document@ matches JsonView::Array(models) && models.len()
                == items@.len() && forall|i: int|
                0 <= i < models.len() ==> #[trigger] models[i] == items@[i]@,
            Json::Object(fields) => document@ matches JsonView::Object(models) && models.len()
                == fields@.len() && forall|i: int|
                0 <= i < models.len() ==> #[trigger] models[i] == (fields@[i].0@, fields@[i].1@),
            Json::Document(value) => document@ == JsonView::Document(value),
        },
{
    reveal_with_fuel(<Json as View>::view, 2);
}

/// The models of lists of documents and of fields.
pub proof fn lemma_document_list_models(items: Seq<Json>, fields: Seq<(String, Json)>)
    ensures
        json::json_views(items).len() == items.len(),
        forall|i: int| 0 <= i < items.len() ==> #[trigger] json::json_views(items)[i] == items[i]@,
        json::field_views(fields).len() == fields.len(),
        forall|i: int|
            0 <= i < fields.len() ==> #[trigger] json::field_views(fields)[i] == (
                fields[i].0@,
                fields[i].1@,
            ),
{
}

/// The model of what became of a parse.
pub proof fn lemma_parse_models(
    outcome: Result<serde_json::Value, String>,
    outcomes: Seq<Result<serde_json::Value, String>>,
)
    ensures
        outcome matches Ok(document) ==> json::parse_view(outcome) == Ok::<
            serde_json::Value,
            Seq<char>,
        >(document),
        outcome matches Err(message) ==> json::parse_view(outcome) == Err::<
            serde_json::Value,
            Seq<char>,
        >(message@),
        json::parse_views(outcomes).len() == outcomes.len(),
        forall|i: int|
            0 <= i < outcomes.len() ==> #[trigger] json::parse_views(outcomes)[i]
                == json::parse_view(outcomes[i]),
{
}

/// The model of a request that is ready to be posted, and of the credentials that it carries.
pub proof fn lemma_http_models(
    http: HttpRequest,
    auth: Auth,
    carried: RequestAuth,
    step: LlmStep,
    error: OpenAiError,
)
    ensures
        http@.url == http.url@,
        http@.auth == http.auth@,
        http@.body == http.body@,
        http@.headers.len() == http.headers@.len(),
        forall|i: int|
            0 <= i < http.headers@.len() ==> #[trigger] http@.headers[i] == (
                http.headers@[i].0@,
                http.headers@[i].1@,
            ),
        auth is NoAuth <==> auth@ is None,
        auth matches Auth::ApiKey(key) ==> auth@ == Some(key@),
        carried is Anonymous <==> carried@ is Anonymous,
        carried matches RequestAuth::Bearer(token) ==> carried@ == RequestAuthView::Bearer(token@),
        carried matches RequestAuth::Header { name, value } ==> carried@
            == (RequestAuthView::Header { name: name@, value: value@ }),
        step matches LlmStep::PostOpenAi(posted) ==> step@ == LlmStepView::PostOpenAi(posted@),
        step matches LlmStep::PostAnthropic(posted) ==> step@ == LlmStepView::PostAnthropic(
            posted@,
        ),
        step is Stop <==> step@ is Stop,
        error is NoChoices <==> error@ is NoChoices,
        error matches OpenAiError::Arguments { name, cause } ==> error@
            == (OpenAiErrorView::Arguments { name: name@, cause: cause@ }),
{
}

/// The model of a step of a tool call.
pub proof fn lemma_step_models(
    step: ToolStep,
    read: PendingRead,
    directory: PendingDirectory,
    write: PendingWrite,
    command: PendingCommand,
)
    ensures
        match step {
            ToolStep::Done(Ok(output)) => step@ == ToolStepView::Done(Ok(output@)),
            ToolStep::Done(Err(error)) => step@ == ToolStepView::Done(Err(error@)),
            ToolStep::ReadFile(next) => step@ == ToolStepView::ReadFile(next@),
            ToolStep::CreateDirectory(next) => step@ == ToolStepView::CreateDirectory(next@),
            ToolStep::WriteFile(next) => step@ == ToolStepView::WriteFile(next@),
            ToolStep::RunCommand(next) => step@ == ToolStepView::RunCommand(next@),
        },
        read@.path == read.path@,
        read.purpose is Show <==> read@.edit is None,
        read.purpose matches ReadPurpose::Edit { old: old_text, new: new_text } ==> read@.edit
            == Some((old_text@, new_text@)),
        directory@.directory == directory.directory@,
        directory@.write == directory.write@,
        write@.path == write.path@,
        write@.contents == write.contents@,
        write@.kind == write.kind,
        command@.command == command.command@,
        command@.directory == command.directory@,
        command@.timeout_secs == command.timeout_secs,
{
}

/// The model of a failure of a tool.
pub proof fn lemma_failure_models(error: ToolError, refusal: EditRefusal)
    ensures
        match error {
            ToolError::NotAllowed => error@ is NotAllowed,
            ToolError::NotRegistered => error@ is NotRegistered,
            ToolError::Arguments { tool } => error@ == (ToolErrorView::Arguments { tool }),
            ToolError::Path(reason) => error@ == ToolErrorView::Path(reason),
            ToolError::Reading { path } => error@ == (ToolErrorView::Reading { path: path@ }),
            ToolError::Creating { path } => error@ == (ToolErrorView::Creating { path: path@ }),
            ToolError::Writing { path } => error@ == (ToolErrorView::Writing { path: path@ }),
            ToolError::Edit(reason) => error@ == ToolErrorView::Edit(reason@),
            ToolError::Command { message } => error@ == (ToolErrorView::Command {
                message: message@,
            }),
        },
        refusal is NotFound <==> refusal@ is NotFound,
        refusal matches EditRefusal::Ambiguous { matches } ==> refusal@
            == (EditRefusalView::Ambiguous { matches: matches as nat }),
{
}

} // verus!
