//! The lifecycle tag every action carries, and the presentation records an
//! action hands out to describe itself.
use vstd::prelude::*;

verus! {

/// Where an action stands in its lifecycle.
///
/// `Planned` is the state after construction; a successful execute moves an
/// action to `Completed`, and a successful revert of a completed action moves
/// it to `Reverted`. A failed execute or revert leaves the state as it was.
#[derive(Clone, Copy, Debug, PartialEq, Eq, Structural)]
pub enum ActionState {
    Planned,
    Completed,
    Reverted,
}

/// A headline and an ordered list of explanatory lines, shown to a person
/// before the action runs.
#[derive(Clone, Debug)]
pub struct ActionDescription {
    pub description: String,
    pub explanation: Vec<String>,
}

impl View for ActionDescription {
    type V = (Seq<char>, Seq<Seq<char>>);

    open spec fn view(&self) -> Self::V {
        (self.description@, self.explanation@.map_values(|s: String| s@))
    }
}

/// The views of a list of descriptions.
pub open spec fn description_views(v: Seq<ActionDescription>) -> Seq<(Seq<char>, Seq<Seq<char>>)> {
    v.map_values(|d: ActionDescription| d@)
}

impl ActionDescription {
    pub fn new(description: String, explanation: Vec<String>) -> (r: Self)
        ensures
            r.description == description,
            r.explanation == explanation,
    {
        ActionDescription { description, explanation }
    }
}

} // verus!
