//! What the model is told about the runtime that it answers for.

use crate::config::{self, LlmConfig};
use vstd::prelude::*;
use vstd::string::*;

verus! {

/// The prompt-visible facts about the runtime.
#[derive(Debug)]
pub struct RuntimeIdentity {
    provider_label: String,
    protocol_label: String,
    model: String,
}

/// The model of a [`RuntimeIdentity`].
pub struct RuntimeIdentityView {
    /// What the user calls the provider.
    pub provider_label: Seq<char>,
    /// The name of the wire protocol.
    pub protocol_label: Seq<char>,
    /// The name of the model.
    pub model: Seq<char>,
}

impl View for RuntimeIdentity {
    type V = RuntimeIdentityView;

    closed spec fn view(&self) -> RuntimeIdentityView {
        RuntimeIdentityView {
            provider_label: self.provider_label@,
            protocol_label: self.protocol_label@,
            model: self.model@,
        }
    }
}

/// The identity that a configuration gives the runtime.
pub open spec fn configured_identity(config: LlmConfig) -> RuntimeIdentityView {
    RuntimeIdentityView {
        provider_label: config.provider_label@,
        protocol_label: config::protocol_label(config.protocol),
        model: config.model@,
    }
}

/// A system prompt followed by the facts about the runtime.
pub open spec fn identified_prompt(identity: RuntimeIdentityView, system_prompt: Seq<char>) -> Seq<
    char,
> {
    system_prompt + "\n\nRuntime identity:\n- Provider: "@ + identity.provider_label
        + "\n- Protocol: "@ + identity.protocol_label + "\n- Model: "@ + identity.model
        + "\n\nIf the user asks what model or provider you are using, answer from these runtime identity facts."@
}

impl Clone for RuntimeIdentity {
    fn clone(&self) -> (copy: RuntimeIdentity)
        ensures
            copy@ == self@,
    {
        RuntimeIdentity {
            provider_label: self.provider_label.clone(),
            protocol_label: self.protocol_label.clone(),
            model: self.model.clone(),
        }
    }
}

impl RuntimeIdentity {
    /// Builds prompt-visible runtime identity from explicit LLM configuration.
    ///
    /// The provider label is the user's own, not inferred from the endpoint.
    pub fn from_llm_config(config: &LlmConfig) -> (identity: RuntimeIdentity)
        ensures
            identity@ == configured_identity(*config),
    {
        RuntimeIdentity {
            provider_label: config.provider_label.clone(),
            protocol_label: config.protocol.label().to_string(),
            model: config.model.clone(),
        }
    }

    /// Appends runtime identity facts to the configured agent system prompt.
    pub fn append_to_system_prompt(&self, system_prompt: &str) -> (prompt: String)
        ensures
            prompt@ == identified_prompt(self@, system_prompt@),
    {
        let mut prompt = system_prompt.to_string();
        prompt.append("\n\nRuntime identity:\n- Provider: ");
        prompt.append(self.provider_label.as_str());
        prompt.append("\n- Protocol: ");
        prompt.append(self.protocol_label.as_str());
        prompt.append("\n- Model: ");
        prompt.append(self.model.as_str());
        prompt.append(
            "\n\nIf the user asks what model or provider you are using, answer from these runtime identity facts.",
        );
        prompt
    }
}

} // verus!
