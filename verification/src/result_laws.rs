//! What the functions of the library give, from the values that they take to the values that they
//! give back.
//!
//! A statement about `call_ensures` is one about every result that the function may give.

use crate::actor::MailboxClosed;
use crate::anthropic::{
    self, generate_anthropic, parse_anthropic_response, AnthropicContentBlock, AnthropicResponse,
};
use crate::call_laws;
use crate::calls::{
    begin_selected, format_command_output, render_command_output, CallArgs, CommandOutcome,
    CommandOutput, PendingCommand, PendingDirectory, PendingRead, PendingWrite, ReadPurpose,
    ToolContext, ToolStep,
};
use crate::config::{AuthConfig, LlmConfig, LlmProtocol, ToolsConfig};
use crate::edits::{self, replace_exactly_one, EditRefusal};
use crate::identity::RuntimeIdentity;
use crate::json::{self, JsonView};
use crate::llm::{self, finish_anthropic, finish_openai, LlmActor, LlmStep, TransportFailure};
use crate::loop_laws;
use crate::messages::{AgentMsg, LlmMsg};
use crate::model_laws;
use crate::openai::{
    self, generate_openai, parse_openai_response, parse_openai_tool_call, read_openai_response,
    OpenAiError, OpenAiResponse, OpenAiToolCall,
};
use crate::output::{self, truncate_text};
use crate::paths::{self, join_path, parent_path, resolve_path, PathRefusal};
use crate::protocol::{
    ConversationItem, FinishReason, LlmRequest, LlmResponse, ToolCall, ToolOutput, ToolSchema,
};
use crate::provider::{
    self, format_error_chain, join_url, Auth, AuthError, AuthStep, HttpRequest, PendingKey,
    RequestAuth,
};
use crate::provider_laws;
use crate::text::{self, decimal_text, join_texts, signed_decimal_text, trim_text};
use crate::tools::{self, report_call, schemas, select_tool, BuiltinTool, ToolError};
use vstd::prelude::*;
use vstd::string::*;

verus! {

/// A chat completion request that was built holds, after the system prompt, one message for every
/// item of the conversation, in order and with its contents, and one declaration for every tool.
pub proof fn lemma_built_openai_request(
    config: LlmConfig,
    auth: Auth,
    request: LlmRequest,
    http: HttpRequest,
    i: int,
    k: int,
)
    requires
        call_ensures(generate_openai, (&config, &auth, &request), http),
        0 <= i < request.conversation@.len(),
        0 <= k < request.tools@.len(),
    ensures
        ({
            let fields = http.body@->Object_0;
            let messages = fields[2].1->Array_0;
            let sent = messages[i + 1]->Object_0;
            let tools = fields[3].1->Array_0;
            let function = tools[k]->Object_0[1].1->Object_0;
            &&& http.url@ == provider::endpoint_url(config.base_url@, "chat/completions"@)
            &&& http.headers@.len() == 0
            &&& auth is NoAuth ==> http.auth is Anonymous
            &&& auth matches Auth::ApiKey(key) ==> (http.auth matches RequestAuth::Bearer(token)
                && token@ == key@)
            &&& fields[0] == ("model"@, JsonView::Text(config.model@))
            &&& fields[1] == ("max_tokens"@, JsonView::Number(config.max_tokens as nat))
            &&& fields[2].0 == "messages"@
            &&& messages.len() == request.conversation@.len() + 1
            &&& messages[0]->Object_0[1] == ("content"@, JsonView::Text(request.system_prompt@))
            &&& match request.conversation@[i] {
                ConversationItem::User(said) => {
                    &&& sent[0] == ("role"@, JsonView::Text("user"@))
                    &&& sent[1] == ("content"@, JsonView::Text(said@))
                },
                ConversationItem::Assistant(turn) => {
                    &&& sent[0] == ("role"@, JsonView::Text("assistant"@))
                    &&& sent[1] == ("content"@, JsonView::Text(turn.text@))
                    &&& turn.tool_calls@.len() > 0 ==> sent[2].0 == "tool_calls"@
                        && sent[2].1->Array_0.len() == turn.tool_calls@.len()
                },
                ConversationItem::Tool(turn) => {
                    &&& sent[0] == ("role"@, JsonView::Text("tool"@))
                    &&& sent[1] == ("tool_call_id"@, JsonView::Text(turn.call_id.0@))
                    &&& turn.output matches ToolOutput::Text(said) ==> sent[2] == (
                        "content"@,
                        JsonView::Text(said@),
                    )
                    &&& turn.output matches ToolOutput::Error(said) ==> sent[2] == (
                        "content"@,
                        JsonView::Text("Error: "@ + said@),
                    )
                },
            }
            &&& fields[3].0 == "tools"@
            &&& tools.len() == request.tools@.len()
            &&& function[0] == ("name"@, JsonView::Text(request.tools@[k].name@))
            &&& function[1] == ("description"@, JsonView::Text(request.tools@[k].description@))
            &&& function[2] == ("parameters"@, request.tools@[k].parameters@)
        }),
{
    provider_laws::lemma_openai_request_in_full(config, auth@, request@);
    let item = request@.conversation[i];
    assert(http.body@->Object_0[2].1->Array_0[i + 1] == openai::openai_message(item));
    assert(request@.tools[k] == request.tools@[k]@);
}

/// A Messages API request that was built holds one message for every item of the conversation, in
/// order and with its contents, the system prompt in a field of its own, and one declaration for
/// every tool.
pub proof fn lemma_built_anthropic_request(
    config: LlmConfig,
    auth: Auth,
    request: LlmRequest,
    http: HttpRequest,
    i: int,
    k: int,
)
    requires
        call_ensures(generate_anthropic, (&config, &auth, &request), http),
        0 <= i < request.conversation@.len(),
        0 <= k < request.tools@.len(),
    ensures
        ({
            let fields = http.body@->Object_0;
            let messages = fields[3].1->Array_0;
            let sent = messages[i]->Object_0;
            let blocks = sent[1].1->Array_0;
            let tools = fields[4].1->Array_0;
            let tool = tools[k]->Object_0;
            &&& http.url@ == provider::endpoint_url(config.base_url@, "messages"@)
            &&& http.headers@.len() == 1
            &&& http.headers@[0].0@ == "anthropic-version"@
            &&& http.headers@[0].1@ == "2023-06-01"@
            &&& auth is NoAuth ==> http.auth is Anonymous
            &&& auth matches Auth::ApiKey(key) ==> (http.auth matches RequestAuth::Header {
                name,
                value,
            } && name@ == "x-api-key"@ && value@ == key@)
            &&& fields[0] == ("model"@, JsonView::Text(config.model@))
            &&& fields[1] == ("max_tokens"@, JsonView::Number(config.max_tokens as nat))
            &&& fields[2] == ("system"@, JsonView::Text(request.system_prompt@))
            &&& fields[3].0 == "messages"@
            &&& messages.len() == request.conversation@.len()
            &&& match request.conversation@[i] {
                ConversationItem::User(said) => {
                    &&& sent[0] == ("role"@, JsonView::Text("user"@))
                    &&& blocks.len() == 1
                    &&& blocks[0]->Object_0[1] == ("text"@, JsonView::Text(said@))
                },
                ConversationItem::Assistant(turn) => {
                    &&& sent[0] == ("role"@, JsonView::Text("assistant"@))
                    &&& turn.text@.len() > 0 ==> blocks.len() == turn.tool_calls@.len() + 1
                        && blocks[0]->Object_0[1] == ("text"@, JsonView::Text(turn.text@))
                    &&& turn.text@.len() == 0 ==> blocks.len() == turn.tool_calls@.len()
                },
                ConversationItem::Tool(turn) => {
                    let result = blocks[0]->Object_0;
                    &&& sent[0] == ("role"@, JsonView::Text("user"@))
                    &&& blocks.len() == 1
                    &&& result[1] == ("tool_use_id"@, JsonView::Text(turn.call_id.0@))
                    &&& turn.output matches ToolOutput::Text(said) ==> result[2] == (
                        "content"@,
                        JsonView::Text(said@),
                    ) && result[3] == ("is_error"@, JsonView::Bool(false))
                    &&& turn.output matches ToolOutput::Error(said) ==> result[2] == (
                        "content"@,
                        JsonView::Text("Error: "@ + said@),
                    ) && result[3] == ("is_error"@, JsonView::Bool(true))
                },
            }
            &&& fields[4].0 == "tools"@
            &&& tools.len() == request.tools@.len()
            &&& tool[0] == ("name"@, JsonView::Text(request.tools@[k].name@))
            &&& tool[1] == ("description"@, JsonView::Text(request.tools@[k].description@))
            &&& tool[2] == ("input_schema"@, request.tools@[k].parameters@)
        }),
{
    provider_laws::lemma_anthropic_request_in_full(config, auth@, request@);
    model_laws::lemma_http_models(
        http,
        auth,
        http.auth,
        LlmStep::Stop,
        OpenAiError::NoChoices,
    );
    assert(http@.headers[0] == (http.headers@[0].0@, http.headers@[0].1@));
    assert(request@.conversation[i] == request.conversation@[i]@);
    assert(request@.tools[k] == request.tools@[k]@);
}

/// The provider actor posts the request of the configured protocol, and stops when it is told to.
pub proof fn lemma_actor_posts_what_was_built(
    actor: LlmActor,
    request: LlmRequest,
    step: LlmStep,
    end: LlmStep,
)
    requires
        call_ensures(LlmActor::handle, (&actor, LlmMsg::Generate { request }), step),
        call_ensures(LlmActor::handle, (&actor, LlmMsg::Shutdown), end),
    ensures
        actor.config.protocol is Openai ==> (step matches LlmStep::PostOpenAi(http) && http@
            == openai::openai_request(actor.config, actor.auth@, request@)),
        actor.config.protocol is Anthropic ==> (step matches LlmStep::PostAnthropic(http) && http@
            == anthropic::anthropic_request(actor.config, actor.auth@, request@)),
        end is Stop,
{
}

/// A response whose arguments all parsed is read as its first answer, whole.
pub proof fn lemma_read_openai_answer(
    response: OpenAiResponse,
    parsed: Vec<Result<serde_json::Value, String>>,
    outcome: Result<LlmResponse, OpenAiError>,
)
    requires
        call_ensures(read_openai_response, (response, parsed), outcome),
        response.choices@.len() > 0,
        parsed@.len() == openai::response_calls(response).len(),
        forall|i: int| 0 <= i < parsed@.len() ==> #[trigger] parsed@[i] is Ok,
    ensures
        ({
            let answer = response.choices@[0].message;
            &&& outcome matches Ok(said)
            &&& answer.content matches Some(content) ==> said.text@ == content@
            &&& answer.content is None ==> said.text@.len() == 0
            &&& answer.tool_calls is None ==> said.tool_calls@.len() == 0
            &&& answer.tool_calls matches Some(calls) ==> {
                &&& said.tool_calls@.len() == calls@.len()
                &&& forall|i: int|
                    0 <= i < calls@.len() ==> {
                        &&& (#[trigger] said.tool_calls@[i]).id.0@ == calls@[i].id@
                        &&& said.tool_calls@[i].name@ == calls@[i].function.name@
                        &&& parsed@[i] matches Ok(document) && said.tool_calls@[i].arguments
                            == document
                    }
            }
            &&& response.choices@[0].finish_reason is None ==> said.finish_reason is Missing
            &&& response.choices@[0].finish_reason matches Some(word) ==> (
            said.finish_reason matches FinishReason::Known(label) && label@ == word@)
        }),
{
    let models = json::parse_views(parsed@);
    assert forall|i: int| 0 <= i < models.len() implies #[trigger] models[i] is Ok by {
        assert(parsed@[i] is Ok);
    }
    provider_laws::lemma_openai_response_in_full(response, models);
    let said = outcome->Ok_0;
    if let Some(calls) = response.choices@[0].message.tool_calls {
        assert forall|i: int| 0 <= i < calls@.len() implies {
            &&& (#[trigger] said.tool_calls@[i]).id.0@ == calls@[i].id@
            &&& said.tool_calls@[i].name@ == calls@[i].function.name@
            &&& parsed@[i] matches Ok(document) && said.tool_calls@[i].arguments == document
        } by {
            assert(said@.tool_calls[i] == said.tool_calls@[i]@);
            assert(parsed@[i] is Ok);
        }
    }
    assert(said@.tool_calls.len() == said.tool_calls@.len());
}

/// What is parsed of a tool call is the text of its own arguments, as it came, and the call is read
/// from the document that it stands for, or refused with the message of the parser.
pub proof fn lemma_arguments_are_parsed_as_they_came(
    call: OpenAiToolCall,
    outcome: Result<ToolCall, OpenAiError>,
    response: OpenAiResponse,
    whole: Result<LlmResponse, OpenAiError>,
    message: AgentMsg,
)
    requires
        call_ensures(parse_openai_tool_call, (call,), outcome),
        call_ensures(parse_openai_response, (response,), whole),
        call_ensures(finish_openai, (Ok(response),), message),
    ensures
        match json::parsed_document(call.function.arguments@) {
            Ok(document) => outcome matches Ok(read) && read.id.0@ == call.id@ && read.name@
                == call.function.name@ && read.arguments == document,
            Err(problem) => outcome matches Err(OpenAiError::Arguments { name, cause }) && name@
                == call.function.name@ && cause@ == problem,
        },
        response.choices@.len() == 0 ==> (whole matches Err(OpenAiError::NoChoices)),
        response.choices@.len() > 0 ==> (response.choices@[0].message.tool_calls matches Some(
            calls,
        ) ==> (whole matches Ok(said) ==> said.tool_calls@.len() == calls@.len() && forall|i: int|
            0 <= i < calls@.len() ==> json::parsed_document(calls@[i].function.arguments@) == Ok::<
                serde_json::Value,
                Seq<char>,
            >((#[trigger] said.tool_calls@[i]).arguments))),
        whole matches Ok(said) ==> (message matches AgentMsg::LlmFinished(Ok(told)) && told@
            == said@),
        whole matches Err(error) ==> (message matches AgentMsg::LlmFinished(Err(problem))
            && problem@ == text::joined(error@.chain(), ": "@)),
{
    if response.choices@.len() > 0 {
        if let Some(calls) = response.choices@[0].message.tool_calls {
            if let Ok(said) = whole {
                let parsed = openai::parsed_arguments(openai::response_calls(response));
                provider_laws::lemma_arguments_are_parsed_call_by_call(response);
                lemma_all_arguments_parsed(response, parsed);
                provider_laws::lemma_openai_response_in_full(response, parsed);
                assert forall|i: int| 0 <= i < calls@.len() implies json::parsed_document(
                    calls@[i].function.arguments@,
                ) == Ok::<serde_json::Value, Seq<char>>(
                    (#[trigger] said.tool_calls@[i]).arguments,
                ) by {
                    assert(said@.tool_calls[i] == said.tool_calls@[i]@);
                    assert(parsed[i] == json::parsed_document(calls@[i].function.arguments@));
                }
                assert(said@.tool_calls.len() == said.tool_calls@.len());
            }
        }
    }
}

/// Where a response is read, the arguments of all its calls have been parsed.
proof fn lemma_all_arguments_parsed(
    response: OpenAiResponse,
    parsed: Seq<Result<serde_json::Value, Seq<char>>>,
)
    requires
        openai::read_response(response, parsed) is Ok,
        parsed.len() == openai::response_calls(response).len(),
    ensures
        forall|i: int| 0 <= i < parsed.len() ==> #[trigger] parsed[i] is Ok,
{
    lemma_arguments_parsed_up_to(response, parsed, parsed.len() as int);
}

/// The same of the first calls.
proof fn lemma_arguments_parsed_up_to(
    response: OpenAiResponse,
    parsed: Seq<Result<serde_json::Value, Seq<char>>>,
    count: int,
)
    requires
        openai::read_response(response, parsed) is Ok,
        parsed.len() == openai::response_calls(response).len(),
        0 <= count <= parsed.len(),
    ensures
        forall|i: int| 0 <= i < count ==> #[trigger] parsed[i] is Ok,
    decreases count,
{
    if count > 0 {
        lemma_arguments_parsed_up_to(response, parsed, count - 1);
        provider_laws::lemma_openai_refusals(response, parsed, count - 1);
        assert(parsed[count - 1] is Ok);
    }
}

/// What errors say, outermost first.
pub proof fn lemma_errors_say_what_happened(
    missing: AuthError,
    first: Vec<String>,
    unreadable: OpenAiError,
    second: Vec<String>,
    failure: ToolError,
    third: String,
    messages: Vec<String>,
    chained: String,
    reason: FinishReason,
    label: &str,
    closed: MailboxClosed,
    fourth: String,
)
    requires
        call_ensures(AuthError::chain, (&missing,), first),
        call_ensures(OpenAiError::chain, (&unreadable,), second),
        call_ensures(ToolError::message, (&failure,), third),
        call_ensures(format_error_chain, (&messages,), chained),
        call_ensures(FinishReason::as_label, (&reason,), label),
        call_ensures(MailboxClosed::message, (&closed,), fourth),
    ensures
        text::texts(first@) == seq!["reading API key env var "@ + missing.name@, missing.cause@],
        unreadable is NoChoices ==> text::texts(second@) == seq!["provider returned no choices"@],
        unreadable matches OpenAiError::Arguments { name, cause } ==> text::texts(second@) == seq![
            "decoding arguments for OpenAI tool call "@ + name@,
            cause@,
        ],
        third@ == failure@.rendered(),
        chained@ == text::joined(text::texts(messages@), ": "@),
        reason is Missing ==> label@ == "missing"@,
        reason matches FinishReason::Known(word) ==> label@ == word@,
        fourth@ == "actor mailbox is closed"@,
{
}

/// An Anthropic response that was read says no more and no less than its blocks do: one text block
/// more adds its text, one call more adds its call, and any other block adds nothing.
pub proof fn lemma_read_anthropic_answers(
    shorter: AnthropicResponse,
    longer: AnthropicResponse,
    block: AnthropicContentBlock,
    first: LlmResponse,
    second: LlmResponse,
)
    requires
        call_ensures(parse_anthropic_response, (shorter,), first),
        call_ensures(parse_anthropic_response, (longer,), second),
        longer.content@ == shorter.content@.push(block),
    ensures
        match block {
            AnthropicContentBlock::Text { text: said } => second.text@ == first.text@ + said@
                && second@.tool_calls == first@.tool_calls,
            AnthropicContentBlock::ToolUse { id, name, input } => {
                &&& second.text@ == first.text@
                &&& second@.tool_calls.drop_last() == first@.tool_calls
                &&& second.tool_calls@.len() == first.tool_calls@.len() + 1
                &&& second.tool_calls@.last().id.0@ == id@
                &&& second.tool_calls@.last().name@ == name@
                &&& second.tool_calls@.last().arguments == input
            },
            AnthropicContentBlock::Other => second.text@ == first.text@ && second@.tool_calls
                == first@.tool_calls,
        },
        shorter.content@.len() == 0 ==> first.text@.len() == 0 && first.tool_calls@.len() == 0,
        shorter.stop_reason is None ==> first.finish_reason is Missing,
        shorter.stop_reason matches Some(word) ==> (
        first.finish_reason matches FinishReason::Known(label) && label@ == word@),
{
    provider_laws::lemma_anthropic_blocks_one_by_one(shorter.content@, block);
    assert(first@.tool_calls.len() == first.tool_calls@.len());
    assert(second@.tool_calls.len() == second.tool_calls@.len());
    if block is ToolUse {
        assert(second@.tool_calls.drop_last() =~= first@.tool_calls);
        let last = second.tool_calls@.len() - 1;
        assert(second@.tool_calls[last] == second.tool_calls@[last]@);
    }
    if shorter.content@.len() == 0 {
        assert(shorter.content@ =~= Seq::empty());
    }
}

/// The agent is told the response that was read, or what went wrong with the request.
pub proof fn lemma_agent_is_told_the_reply(
    reply: Result<AnthropicResponse, TransportFailure>,
    parsed: LlmResponse,
    message: AgentMsg,
    openai_reply: TransportFailure,
    openai_message: AgentMsg,
)
    requires
        call_ensures(finish_anthropic, (reply,), message),
        reply matches Ok(response) ==> call_ensures(parse_anthropic_response, (response,), parsed),
        call_ensures(finish_openai, (Err(openai_reply),), openai_message),
    ensures
        reply is Ok ==> (message matches AgentMsg::LlmFinished(Ok(told)) && told@ == parsed@),
        reply matches Err(failure) ==> (message matches AgentMsg::LlmFinished(Err(problem))
            && problem@ == llm::failure_text(
            LlmProtocol::Anthropic,
            failure.stage,
            text::texts(failure.causes@),
        )),
        openai_message matches AgentMsg::LlmFinished(Err(problem)) && problem@
            == llm::failure_text(
            LlmProtocol::Openai,
            openai_reply.stage,
            text::texts(openai_reply.causes@),
        ),
{
}

/// The step after a file was read for an Edit call writes the same file, with the new text in the
/// one place of the old, both exactly as the call gave them.
pub proof fn lemma_edit_step_writes_the_new_text(
    read: PendingRead,
    context: ToolContext,
    contents: String,
    step: ToolStep,
    old_text: String,
    new_text: String,
    at: int,
)
    requires
        call_ensures(PendingRead::resume, (read, &context, Some(contents)), step),
        read.purpose == (ReadPurpose::Edit { old: old_text, new: new_text }),
        edits::occurs_at(contents@, old_text@, at),
        forall|i: int| #[trigger] edits::occurs_at(contents@, old_text@, i) ==> i == at,
    ensures
        step matches ToolStep::WriteFile(write) && write.path@ == read.path@ && write.contents@
            == contents@.take(at) + new_text@ + contents@.skip(at + old_text@.len()),
{
    call_laws::lemma_edit_puts_the_new_text_in_place(contents@, old_text@, new_text@, at);
}

/// The step after a file was read for a Read call shows what was read, whole where it fits.
pub proof fn lemma_read_step_shows_the_contents(
    read: PendingRead,
    context: ToolContext,
    contents: String,
    step: ToolStep,
    failed: ToolStep,
)
    requires
        call_ensures(PendingRead::resume, (read, &context, Some(contents)), step),
        call_ensures(PendingRead::resume, (read, &context, None), failed),
        read.purpose is Show,
    ensures
        step matches ToolStep::Done(Ok(ToolOutput::Text(shown))) && shown@ == output::truncated(
            contents@,
            context.config.output_byte_limit as nat,
        ),
        failed matches ToolStep::Done(Err(ToolError::Reading { path })) && path@ == read.path@,
{
}

/// A call that starts touches exactly what its arguments name: the resolved file for the file
/// tools, with the texts that they were given, and the workspace for a command.
pub proof fn lemma_calls_start_with_what_they_name(
    context: ToolContext,
    args: CallArgs,
    name: &str,
    step: ToolStep,
)
    requires
        call_ensures(begin_selected, (&context, name, args), step),
    ensures
        step matches ToolStep::ReadFile(read) ==> match args {
            CallArgs::Read(Some(given)) => {
                &&& read.purpose is Show
                &&& paths::resolved(context.workspace@, given.path@) == Ok::<
                    Seq<char>,
                    PathRefusal,
                >(read.path@)
            },
            CallArgs::Edit(Some(given)) => {
                &&& read.purpose matches ReadPurpose::Edit { old: old_text, new: new_text }
                &&& old_text@ == given.old@ && new_text@ == given.new@
                &&& paths::resolved(context.workspace@, given.path@) == Ok::<
                    Seq<char>,
                    PathRefusal,
                >(read.path@)
            },
            _ => false,
        },
        step matches ToolStep::CreateDirectory(pending) ==> (args matches CallArgs::Write(
            Some(given),
        ) && pending.write.contents@ == given.content@ && paths::parent(pending.write.path@)
            == Some(pending.directory@) && paths::resolved(context.workspace@, given.path@) == Ok::<
            Seq<char>,
            PathRefusal,
        >(pending.write.path@)),
        step matches ToolStep::WriteFile(write) ==> (args matches CallArgs::Write(Some(given))
            && write.contents@ == given.content@ && paths::resolved(
            context.workspace@,
            given.path@,
        ) == Ok::<Seq<char>, PathRefusal>(write.path@)),
        step matches ToolStep::RunCommand(command) ==> (args matches CallArgs::Bash(Some(given))
            && command.command@ == given.command@ && command.directory@ == context.workspace@
            && command.timeout_secs == context.config.bash_timeout_secs),
{
}

/// After its directory is there, a file is written as it was going to be; after it is written, the
/// model is told which file it was.
pub proof fn lemma_files_are_written_as_announced(
    pending: PendingDirectory,
    next: ToolStep,
    write: PendingWrite,
    end: ToolStep,
)
    requires
        call_ensures(PendingDirectory::resume, (pending, true), next),
        call_ensures(PendingWrite::resume, (write, true), end),
    ensures
        next matches ToolStep::WriteFile(now) && now.path@ == pending.write.path@ && now.contents@
            == pending.write.contents@,
        write.kind is Written ==> (end matches ToolStep::Done(Ok(ToolOutput::Text(told))) && told@
            == "wrote "@ + write.path@),
        write.kind is Edited ==> (end matches ToolStep::Done(Ok(ToolOutput::Text(told))) && told@
            == "edited "@ + write.path@),
{
}

/// The output of a finished command is a success exactly where the command succeeded.
pub proof fn lemma_command_success_is_reported(
    context: ToolContext,
    stdout: String,
    stderr: String,
    code: Option<i32>,
    success: bool,
    timed_out: bool,
    shown: ToolOutput,
    command: PendingCommand,
    ended: CommandOutput,
    step: ToolStep,
    formatted: ToolOutput,
)
    requires
        call_ensures(
            render_command_output,
            (&context, stdout, stderr, code, success, timed_out),
            shown,
        ),
        call_ensures(format_command_output, (ended, &context, timed_out), formatted),
        call_ensures(
            PendingCommand::resume,
            (command, &context, CommandOutcome::Finished(ended)),
            step,
        ),
    ensures
        shown is Text <==> success,
        formatted is Text <==> ended.success,
        step matches ToolStep::Done(Ok(output)) && (output is Text <==> ended.success),
{
}

/// A finished call is reported under its own identifier and name: with its output, or with an
/// error that names the tool and says what happened.
pub proof fn lemma_reports_answer_their_calls(
    call: ToolCall,
    output: ToolOutput,
    error: ToolError,
    report: AgentMsg,
    complaint: AgentMsg,
)
    requires
        call_ensures(report_call, (call, Ok(output)), report),
        call_ensures(report_call, (call, Err(error)), complaint),
    ensures
        report matches AgentMsg::ToolFinished { call_id, name, output: given } && call_id.0@
            == call.id.0@ && name@ == call.name@ && given@ == output@,
        complaint matches AgentMsg::ToolFinished { call_id, name, output: ToolOutput::Error(said) }
            && call_id.0@ == call.id.0@ && name@ == call.name@ && said@ == "tool '"@ + call.name@
            + "' failed: "@ + error@.rendered(),
{
}

/// The tools that a configuration offers are found again under their names.
pub proof fn lemma_offered_tools_are_found(
    config: ToolsConfig,
    offered: Vec<ToolSchema>,
    name: &str,
    found: Result<BuiltinTool, ToolError>,
)
    requires
        call_ensures(schemas, (&config,), offered),
        call_ensures(select_tool, (&config, name), found),
    ensures
        found is Ok <==> exists|i: int|
            0 <= i < offered@.len() && (#[trigger] offered@[i]).name@ == name@,
{
    tools::lemma_offered_tools_are_the_callable_ones(config, name@);
    let models = tools::offered_schemas(config);
    assert(models.len() == offered@.len());
    if found is Ok {
        let i = choose|i: int| 0 <= i < models.len() && (#[trigger] models[i]).name == name@;
        assert(models[i] == offered@[i]@);
        assert(offered@[i].name@ == name@);
    }
    if exists|i: int| 0 <= i < offered@.len() && (#[trigger] offered@[i]).name@ == name@ {
        let i = choose|i: int| 0 <= i < offered@.len() && (#[trigger] offered@[i]).name@ == name@;
        assert(models[i] == offered@[i]@);
        assert(models[i].name == name@);
    }
}

/// Credentials are what the configuration says: none, or the key that its variable holds.
pub proof fn lemma_credentials_are_the_configured_ones(
    config: AuthConfig,
    step: AuthStep,
    pending: PendingKey,
    key: String,
    cause: String,
    found: Result<Auth, AuthError>,
    missing: Result<Auth, AuthError>,
)
    requires
        call_ensures(Auth::from_config, (&config,), step),
        call_ensures(PendingKey::resume, (pending, Ok(key)), found),
        call_ensures(PendingKey::resume, (pending, Err(cause)), missing),
    ensures
        config is NoAuth ==> step == AuthStep::Ready(Auth::NoAuth),
        config matches AuthConfig::ApiKeyEnv { name } ==> (step matches AuthStep::ReadVariable(
            variable,
        ) && variable.name@ == name@),
        found matches Ok(Auth::ApiKey(read)) && read@ == key@,
        missing matches Err(error) && error.name@ == pending.name@ && error.cause@ == cause@,
{
}

/// The model reads the configured system prompt first, and after it who it is.
pub proof fn lemma_prompt_comes_first(
    config: LlmConfig,
    known: RuntimeIdentity,
    prompt: &str,
    told: String,
)
    requires
        call_ensures(RuntimeIdentity::from_llm_config, (&config,), known),
        call_ensures(RuntimeIdentity::append_to_system_prompt, (&known, prompt), told),
    ensures
        told@.len() >= prompt@.len(),
        told@.take(prompt@.len() as int) == prompt@,
        loop_laws::has_in_it(told@.skip(prompt@.len() as int), config.provider_label@),
        loop_laws::has_in_it(told@.skip(prompt@.len() as int), config.model@),
{
    loop_laws::lemma_model_is_told_who_it_is(config, prompt@, prompt@);
}

/// Labels and outputs read as what they are.
pub proof fn lemma_labels_read_as_they_are(
    protocol: LlmProtocol,
    label: &'static str,
    output: ToolOutput,
    shown: String,
    failed: bool,
    given: Option<String>,
    reason: FinishReason,
    config: ToolsConfig,
    name: &str,
    allowed: bool,
)
    requires
        call_ensures(LlmProtocol::label, (protocol,), label),
        call_ensures(ToolOutput::as_text, (&output,), shown),
        call_ensures(ToolOutput::is_error, (&output,), failed),
        call_ensures(FinishReason::from_provider, (given,), reason),
        call_ensures(ToolsConfig::is_allowed, (&config, name), allowed),
    ensures
        protocol is Openai ==> label@ == "OpenAI-compatible Chat Completions"@,
        protocol is Anthropic ==> label@ == "Anthropic Messages API"@,
        output matches ToolOutput::Text(said) ==> shown@ == said@ && !failed,
        output matches ToolOutput::Error(said) ==> shown@ == "Error: "@ + said@ && failed,
        given is None <==> reason is Missing,
        given matches Some(word) ==> (reason matches FinishReason::Known(known) && known@ == word@),
        allowed <==> exists|i: int|
            0 <= i < config.allowed@.len() && (#[trigger] config.allowed@[i])@ == name@,
{
    call_laws::lemma_names_select_their_tools(config, name@);
}

/// The text functions give the texts that the laws speak of.
pub proof fn lemma_text_results(
    first: &str,
    second: &str,
    third: &str,
    whole: String,
    limit: usize,
    number: u128,
    signed: i32,
    list: Vec<String>,
    url: String,
    shown: String,
    edited: Result<String, EditRefusal>,
    numeral: String,
    signed_numeral: String,
    joined: String,
    core: &str,
)
    requires
        call_ensures(trim_text, (first,), core),
        call_ensures(join_url, (first, second), url),
        call_ensures(truncate_text, (whole, limit), shown),
        call_ensures(
            replace_exactly_one,
            (first, second, third),
            edited,
        ),
        call_ensures(decimal_text, (number,), numeral),
        call_ensures(signed_decimal_text, (signed,), signed_numeral),
        call_ensures(join_texts, (&list, first), joined),
    ensures
        core@ == text::trimmed(first@),
        url@ == provider::endpoint_url(first@, second@),
        shown@ == output::truncated(whole@, limit as nat),
        edited matches Ok(result) ==> edits::edit(first@, second@, third@) == Ok::<
            Seq<char>,
            edits::EditRefusalView,
        >(result@),
        edited is Ok <==> edits::edit(first@, second@, third@) is Ok,
        numeral@ == text::decimal(number as nat),
        signed_numeral@ == text::signed_decimal(signed as int),
        joined@ == text::joined(text::texts(list@), first@),
{
}

/// The path functions give the places that the laws speak of.
pub proof fn lemma_path_results(
    workspace: &str,
    path: &str,
    place: Result<String, PathRefusal>,
    directory: Option<String>,
    joined: String,
)
    requires
        call_ensures(resolve_path, (workspace, path), place),
        call_ensures(parent_path, (path,), directory),
        call_ensures(join_path, (workspace, path), joined),
    ensures
        place matches Ok(found) ==> paths::resolved(workspace@, path@) == Ok::<
            Seq<char>,
            PathRefusal,
        >(found@),
        place matches Err(refusal) ==> paths::resolved(workspace@, path@) == Err::<
            Seq<char>,
            PathRefusal,
        >(refusal),
        directory is None <==> paths::parent(path@) is None,
        directory matches Some(found) ==> paths::parent(path@) == Some(found@),
        joined@ == paths::based(workspace@, path@),
{
}

} // verus!
