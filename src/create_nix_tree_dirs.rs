//! The action that lays out the store's directory tree.
use vstd::prelude::*;
use crate::action::{description_views, ActionDescription, ActionState};

verus! {

/// Creates the directory tree in `/nix`.
#[derive(Clone, Debug)]
pub struct CreateNixTreeDirs {
    pub action_state: ActionState,
}

/// The record of a completed directory-tree creation.
#[derive(Clone, Debug)]
pub struct CreateNixTreeDirsReceipt {}

impl CreateNixTreeDirs {
    pub fn plan(name: String, uid: usize) -> (r: Self)
        ensures
            r.action_state == ActionState::Planned,
    {
        CreateNixTreeDirs { action_state: ActionState::Planned }
    }

    /// The headline and explanation shown before the action runs.
    pub open spec fn spec_description(&self) -> Seq<(Seq<char>, Seq<Seq<char>>)> {
        seq![
            (
                "Create a directory tree in `/nix`"@,
                seq!["Nix and the Nix daemon require a Nix Store, which will be stored at `/nix`"@],
            ),
        ]
    }

    pub fn description(&self) -> (r: Vec<ActionDescription>)
        ensures
            description_views(r@) == self.spec_description(),
    {
        let mut explanation: Vec<String> = Vec::new();
        explanation.push(
            String::from_str(
                "Nix and the Nix daemon require a Nix Store, which will be stored at `/nix`",
            ),
        );
        assert(explanation@.map_values(|s: String| s@) =~= seq![
            "Nix and the Nix daemon require a Nix Store, which will be stored at `/nix`"@,
        ]);
        let mut r: Vec<ActionDescription> = Vec::new();
        r.push(
            ActionDescription::new(
                String::from_str("Create a directory tree in `/nix`"),
                explanation,
            ),
        );
        assert(description_views(r@) =~= self.spec_description());
        r
    }

    /// Marks the tree as laid out and hands back its receipt.
    pub fn execute(&mut self) -> (r: CreateNixTreeDirsReceipt)
        requires
            old(self).action_state == ActionState::Planned,
        ensures
            final(self).action_state == ActionState::Completed,
    {
        self.action_state = ActionState::Completed;
        CreateNixTreeDirsReceipt {}
    }

    /// Marks the tree as removed.
    pub fn revert(&mut self)
        requires
            old(self).action_state == ActionState::Completed,
        ensures
            final(self).action_state == ActionState::Reverted,
    {
        self.action_state = ActionState::Reverted;
    }
}

} // verus!
