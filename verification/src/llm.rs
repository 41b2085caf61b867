//! The provider actor: one request of Acty's in, one answer out.
//!
//! The actor decides what is posted and what a reply means. Posting itself is
//! left to whoever runs the actor.

use crate::anthropic::{self, generate_anthropic, parse_anthropic_response, AnthropicResponse};
use crate::config::{LlmConfig, LlmProtocol};
use crate::messages::{AgentMsg, AgentMsgView, LlmMsg};
use crate::openai::{
    self, generate_openai, parse_openai_response, OpenAiError, OpenAiErrorView, OpenAiResponse,
};
use crate::protocol::{LlmRequest, LlmRequestView, LlmResponse, LlmResponseView};
use crate::provider::{format_error_chain, Auth, HttpRequest, HttpRequestView};
use crate::text;
use crate::views;
use vstd::prelude::*;
use vstd::string::*;

verus! {

/// The provider actor.
#[derive(Debug)]
pub struct LlmActor {
    /// Which model answers.
    pub config: LlmConfig,
    /// The credentials.
    pub auth: Auth,
}

/// What the provider actor does with a message.
#[derive(Debug)]
pub enum LlmStep {
    /// It posts a request and decodes the reply as an [`OpenAiResponse`].
    PostOpenAi(HttpRequest),
    /// It posts a request and decodes the reply as an [`AnthropicResponse`].
    PostAnthropic(HttpRequest),
    /// It stops.
    Stop,
}

/// The model of an [`LlmStep`].
pub enum LlmStepView {
    /// It posts a request and decodes the reply as an [`OpenAiResponse`].
    PostOpenAi(HttpRequestView),
    /// It posts a request and decodes the reply as an [`AnthropicResponse`].
    PostAnthropic(HttpRequestView),
    /// It stops.
    Stop,
}

impl View for LlmStep {
    type V = LlmStepView;

    open spec fn view(&self) -> LlmStepView {
        match self {
            LlmStep::PostOpenAi(http) => LlmStepView::PostOpenAi(http@),
            LlmStep::PostAnthropic(http) => LlmStepView::PostAnthropic(http@),
            LlmStep::Stop => LlmStepView::Stop,
        }
    }
}

/// What is posted for a request.
pub open spec fn posted(
    config: LlmConfig,
    key: Option<Seq<char>>,
    request: LlmRequestView,
) -> LlmStepView {
    match config.protocol {
        LlmProtocol::Openai => LlmStepView::PostOpenAi(
            openai::openai_request(config, key, request),
        ),
        LlmProtocol::Anthropic => LlmStepView::PostAnthropic(
            anthropic::anthropic_request(config, key, request),
        ),
    }
}

impl LlmActor {
    /// Takes one message from the provider mailbox.
    ///
    /// Each `Generate` message is one request to the provider.
    pub fn handle(&self, message: LlmMsg) -> (step: LlmStep)
        ensures
            step@ == (match message {
                LlmMsg::Generate { request } => posted(self.config, self.auth@, request@),
                LlmMsg::Shutdown => LlmStepView::Stop,
            }),
    {
        match message {
            LlmMsg::Generate { request } => self.generate(&request),
            LlmMsg::Shutdown => LlmStep::Stop,
        }
    }

    /// Routes one generation request through the configured provider protocol.
    pub fn generate(&self, request: &LlmRequest) -> (step: LlmStep)
        ensures
            step@ == posted(self.config, self.auth@, request@),
    {
        match self.config.protocol {
            LlmProtocol::Openai => LlmStep::PostOpenAi(
                generate_openai(&self.config, &self.auth, request),
            ),
            LlmProtocol::Anthropic => LlmStep::PostAnthropic(
                generate_anthropic(&self.config, &self.auth, request),
            ),
        }
    }
}

/// How far a request got.
#[derive(Debug, Clone, Copy, PartialEq, Eq, Structural)]
pub enum TransportStage {
    /// It could not be sent.
    Sending,
    /// The provider answered with an error status.
    Status,
    /// The reply could not be decoded.
    Decoding,
}

/// A request that brought no response.
#[derive(Debug)]
pub struct TransportFailure {
    /// How far the request got.
    pub stage: TransportStage,
    /// What went wrong, and what was behind it.
    pub causes: Vec<String>,
}

/// What a failed request is called.
pub open spec fn failure_context(protocol: LlmProtocol, stage: TransportStage) -> Seq<char> {
    match (protocol, stage) {
        (LlmProtocol::Openai, TransportStage::Sending) => "sending OpenAI-compatible request"@,
        (LlmProtocol::Openai, TransportStage::Status) => {
            "OpenAI-compatible provider returned an error"@
        },
        (LlmProtocol::Openai, TransportStage::Decoding) => "decoding OpenAI-compatible response"@,
        (LlmProtocol::Anthropic, TransportStage::Sending) => "sending Anthropic request"@,
        (LlmProtocol::Anthropic, TransportStage::Status) => "Anthropic provider returned an error"@,
        (LlmProtocol::Anthropic, TransportStage::Decoding) => "decoding Anthropic response"@,
    }
}

/// What the user reads of a failed request: what it is called, then its causes.
pub open spec fn failure_text(
    protocol: LlmProtocol,
    stage: TransportStage,
    causes: Seq<Seq<char>>,
) -> Seq<char> {
    text::joined(seq![failure_context(protocol, stage)] + causes, ": "@)
}

/// Names a failed request.
fn context_of(protocol: LlmProtocol, stage: TransportStage) -> (context: &'static str)
    ensures
        context@ == failure_context(protocol, stage),
{
    match protocol {
        LlmProtocol::Openai => match stage {
            TransportStage::Sending => "sending OpenAI-compatible request",
            TransportStage::Status => "OpenAI-compatible provider returned an error",
            TransportStage::Decoding => "decoding OpenAI-compatible response",
        },
        LlmProtocol::Anthropic => match stage {
            TransportStage::Sending => "sending Anthropic request",
            TransportStage::Status => "Anthropic provider returned an error",
            TransportStage::Decoding => "decoding Anthropic response",
        },
    }
}

/// Describes a failed request for the user.
pub fn describe_failure(protocol: LlmProtocol, failure: TransportFailure) -> (text: String)
    ensures
        text@ == failure_text(protocol, failure.stage, text::texts(failure.causes@)),
{
    let mut messages = vec![context_of(protocol, failure.stage).to_string()];
    let mut causes = failure.causes;
    let ghost all = text::texts(causes@);
    messages.append(&mut causes);
    assert(text::texts(messages@) =~= seq![failure_context(protocol, failure.stage)] + all);
    format_error_chain(&messages)
}

/// What the agent is told of an outcome: the response, or the error with its causes.
pub open spec fn told(outcome: Result<LlmResponseView, OpenAiErrorView>) -> AgentMsgView {
    AgentMsgView::LlmFinished(
        match outcome {
            Ok(response) => Ok(response),
            Err(error) => Err(text::joined(error.chain(), ": "@)),
        },
    )
}

/// Reports to the agent what a response was read as.
pub fn report_response(outcome: Result<LlmResponse, OpenAiError>) -> (message: AgentMsg)
    ensures
        message@ == told(views::outcome(outcome)),
{
    match outcome {
        Ok(response) => AgentMsg::LlmFinished(Ok(response)),
        Err(error) => AgentMsg::LlmFinished(Err(format_error_chain(&error.chain()))),
    }
}

/// Reports to the agent what an OpenAI-compatible provider replied.
pub fn finish_openai(reply: Result<OpenAiResponse, TransportFailure>) -> (message: AgentMsg)
    ensures
        message@ == (match reply {
            Ok(response) => told(
                openai::read_response(
                    response,
                    openai::parsed_arguments(openai::response_calls(response)),
                ),
            ),
            Err(failure) => AgentMsgView::LlmFinished(
                Err(
                    failure_text(
                        LlmProtocol::Openai,
                        failure.stage,
                        text::texts(failure.causes@),
                    ),
                ),
            ),
        }),
{
    match reply {
        Ok(response) => report_response(parse_openai_response(response)),
        Err(failure) => AgentMsg::LlmFinished(Err(describe_failure(LlmProtocol::Openai, failure))),
    }
}

/// Reports to the agent what the Anthropic provider replied.
pub fn finish_anthropic(reply: Result<AnthropicResponse, TransportFailure>) -> (message: AgentMsg)
    ensures
        message@ == AgentMsgView::LlmFinished(
            match reply {
                Ok(response) => Ok(anthropic::read_response(response)),
                Err(failure) => Err(
                    failure_text(
                        LlmProtocol::Anthropic,
                        failure.stage,
                        text::texts(failure.causes@),
                    ),
                ),
            },
        ),
{
    match reply {
        Ok(response) => AgentMsg::LlmFinished(Ok(parse_anthropic_response(response))),
        Err(failure) => AgentMsg::LlmFinished(
            Err(describe_failure(LlmProtocol::Anthropic, failure)),
        ),
    }
}

} // verus!
