//! Acty, a tiny actor-style coding agent: its rules, verified.
//!
//! An agent takes prompts from a user, asks a model, runs the tools that the
//! model calls, and asks again until the model is done. Every actor of that loop
//! is here a function from a state and a message to a next state and the things
//! to do. Doing them (talking to a provider, touching files, running commands,
//! printing) is left to the program around this library.
//!
//! - [`agent`] is the coding loop, [`agent_laws`] and [`loop_laws`] what it promises.
//! - [`llm`] is the provider actor; [`openai`] and [`anthropic`] are the protocols
//!   that it speaks and [`provider`] what they share.
//! - [`tools`] is the tool registry, [`calls`] the steps of a tool call, with
//!   [`paths`], [`edits`] and [`output`] for the rules of the file and shell tools.
//! - [`system`] is the supervisor and [`tui`] the terminal frontend.
//! - [`provider_laws`], [`call_laws`], [`path_laws`], [`text_laws`] and [`frontend_laws`] say
//!   what these parts are for, [`model_laws`] that models keep what values hold, and
//!   [`result_laws`] what the functions give back.
//! - [`config`], [`messages`], [`protocol`] and [`identity`] are the vocabulary.

pub mod actor;
pub mod agent;
pub mod agent_laws;
pub mod anthropic;
pub mod call_laws;
pub mod calls;
pub mod config;
pub mod edits;
pub mod frontend_laws;
pub mod identity;
pub mod json;
pub mod llm;
pub mod loop_laws;
pub mod messages;
pub mod model_laws;
pub mod openai;
pub mod output;
pub mod path_laws;
pub mod paths;
pub mod pending;
pub mod protocol;
pub mod provider;
pub mod provider_laws;
pub mod result_laws;
pub mod system;
pub mod text;
pub mod text_laws;
pub mod tools;
pub mod tui;
pub mod views;
