//! Workflows that a button starts.

use vstd::prelude::*;

verus! {

/// An input that a workflow trigger lets the user set.
#[derive(Debug, Clone, PartialEq)]
pub struct SlackWorkflowTriggerInputParameter {
    pub name: String,
    pub value: String,
}

impl SlackWorkflowTriggerInputParameter {
    /// A value with these fields; the optional ones are absent.
    pub fn new(name: String, value: String) -> (r: Self)
        ensures
            r == (SlackWorkflowTriggerInputParameter { name, value }),
    {
        SlackWorkflowTriggerInputParameter { name, value }
    }
}

/// The link trigger of a workflow.
#[derive(Debug, Clone, PartialEq)]
pub struct SlackWorkflowTrigger {
    pub url: url::Url,
    pub customizable_input_parameters: Option<Vec<SlackWorkflowTriggerInputParameter>>,
}

impl SlackWorkflowTrigger {
    /// A value with these fields; the optional ones are absent.
    pub fn new(url: url::Url) -> (r: Self)
        ensures
            r == (SlackWorkflowTrigger { url, customizable_input_parameters: None }),
    {
        SlackWorkflowTrigger { url, customizable_input_parameters: None }
    }
}

/// A workflow, by its trigger.
#[derive(Debug, Clone, PartialEq)]
pub struct SlackWorkflow {
    pub trigger: SlackWorkflowTrigger,
}

impl SlackWorkflow {
    /// A value with these fields; the optional ones are absent.
    pub fn new(trigger: SlackWorkflowTrigger) -> (r: Self)
        ensures
            r == (SlackWorkflow { trigger }),
    {
        SlackWorkflow { trigger }
    }
}

} // verus!
