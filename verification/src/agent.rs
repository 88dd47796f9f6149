//! The validated description of one agent.

use vstd::prelude::*;
use crate::vocabulary::{Model, Tool};

verus! {

/// One agent: what it is called, what it can do and what it runs on.
#[derive(Clone, Debug, PartialEq, Eq)]
pub struct Agent {
    /// The agent's name, which also names the directory of its project.
    pub name: String,
    /// The agent's tools, in the order in which generated code lists them.
    pub tools: Vec<Tool>,
    /// The model the agent runs on.
    pub model: Model,
}

/// A validated description: every tool and the model in it are members of
/// the vocabulary, because the types admit nothing else.
#[derive(Clone, Debug, PartialEq, Eq)]
pub struct Spec {
    /// The agent that the description is about.
    pub agent: Agent,
}

/// An [`Agent`] as a mathematical value.
pub struct AgentView {
    pub name: Seq<char>,
    pub tools: Seq<Tool>,
    pub model: Model,
}

/// A [`Spec`] as a mathematical value.
pub struct SpecView {
    pub agent: AgentView,
}

impl View for Agent {
    type V = AgentView;

    open spec fn view(&self) -> AgentView {
        AgentView { name: self.name@, tools: self.tools@, model: self.model }
    }
}

impl View for Spec {
    type V = SpecView;

    open spec fn view(&self) -> SpecView {
        SpecView { agent: self.agent@ }
    }
}

} // verus!
