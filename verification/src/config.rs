//! Acty's typed runtime settings.
//!
//! Every user-facing value is named by the configuration; none has a default.

use crate::text::{self, same_text};
use vstd::prelude::*;
use vstd::string::*;

verus! {

/// All settings.
#[derive(Debug, Clone)]
pub struct Config {
    /// Where the tools work.
    pub workspace: WorkspaceConfig,
    /// How the runtime runs.
    pub runtime: RuntimeConfig,
    /// Which model answers.
    pub llm: LlmConfig,
    /// How the agent loop behaves.
    pub agent: AgentConfig,
    /// What the tools may do.
    pub tools: ToolsConfig,
}

/// Where the tools work.
#[derive(Debug, Clone)]
pub struct WorkspaceConfig {
    /// The path of the workspace directory.
    pub root: String,
}

/// How the runtime runs.
#[derive(Debug, Clone)]
pub struct RuntimeConfig {
    /// Which log lines are written.
    pub log_filter: String,
    /// How many messages a mailbox holds.
    pub mailbox_capacity: usize,
}

/// Which model answers.
#[derive(Debug, Clone)]
pub struct LlmConfig {
    /// What the user calls the provider.
    pub provider_label: String,
    /// The wire protocol.
    pub protocol: LlmProtocol,
    /// The URL that the endpoints lie under.
    pub base_url: String,
    /// How requests are authenticated.
    pub auth: AuthConfig,
    /// The name of the model.
    pub model: String,
    /// The longest answer, in tokens.
    pub max_tokens: u32,
    /// The sampling temperature.
    pub temperature: Temperature,
}

/// The wire protocols that Acty speaks.
#[derive(Debug, Clone, Copy, PartialEq, Eq, Structural)]
pub enum LlmProtocol {
    /// Chat Completions.
    Openai,
    /// The Messages API.
    Anthropic,
}

/// The name of a wire protocol for people.
pub open spec fn protocol_label(protocol: LlmProtocol) -> Seq<char> {
    match protocol {
        LlmProtocol::Openai => "OpenAI-compatible Chat Completions"@,
        LlmProtocol::Anthropic => "Anthropic Messages API"@,
    }
}

impl LlmProtocol {
    /// Describes the wire protocol for prompt-visible runtime identity.
    pub fn label(self) -> (label: &'static str)
        ensures
            label@ == protocol_label(self),
    {
        match self {
            LlmProtocol::Openai => "OpenAI-compatible Chat Completions",
            LlmProtocol::Anthropic => "Anthropic Messages API",
        }
    }
}

/// How requests are authenticated.
#[derive(Debug, Clone)]
pub enum AuthConfig {
    /// Not at all.
    NoAuth,
    /// With the key that an environment variable holds.
    ApiKeyEnv {
        /// The name of the variable.
        name: String,
    },
}

/// The sampling temperature.
#[derive(Debug, Clone)]
pub enum Temperature {
    /// Whatever the provider takes.
    ProviderDefault,
    /// A number of the user's.
    Fixed {
        /// The number, as a JSON document.
        value: serde_json::Value,
    },
}

/// How the agent loop behaves.
#[derive(Debug, Clone)]
pub struct AgentConfig {
    /// How many model turns one prompt may take.
    pub max_turns: u32,
    /// The system prompt.
    pub system_prompt: String,
}

/// What the tools may do.
#[derive(Debug, Clone)]
pub struct ToolsConfig {
    /// The names of the tools that are enabled.
    pub allowed: Vec<String>,
    /// How long a command may run.
    pub bash_timeout_secs: u64,
    /// How many bytes of output reach the model.
    pub output_byte_limit: usize,
}

impl ToolsConfig {
    /// Whether the allow-list holds a name.
    pub open spec fn allows(&self, name: Seq<char>) -> bool {
        text::texts(self.allowed@).contains(name)
    }

    /// Checks whether a model-requested tool is enabled in explicit config.
    pub fn is_allowed(&self, name: &str) -> (allowed: bool)
        ensures
            allowed == self.allows(name@),
    {
        let mut i: usize = 0;
        while i < self.allowed.len()
            invariant
                i <= self.allowed@.len(),
                forall|j: int| 0 <= j < i ==> (#[trigger] self.allowed@[j])@ != name@,
            decreases self.allowed@.len() - i,
        {
            if same_text(self.allowed[i].as_str(), name) {
                assert(text::texts(self.allowed@)[i as int] == name@);
                return true;
            }
            i += 1;
        }
        proof {
            let names = text::texts(self.allowed@);
            if names.contains(name@) {
                let j = choose|j: int| 0 <= j < names.len() && names[j] == name@;
                assert(self.allowed@[j]@ == name@);
            }
        }
        false
    }
}

} // verus!
