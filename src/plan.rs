//! The plan: an ordered list of actions plus the configuration that produced
//! them. Install runs the actions strictly left to right, revert strictly
//! right to left; this module decides which action comes next, and the
//! caller runs it.
use vstd::prelude::*;
use crate::action::{description_views, ActionDescription, ActionState};
use crate::create_nix_tree_dirs::CreateNixTreeDirs;
use crate::create_users_and_group::CreateUsersAndGroup;
use crate::settings::InstallSettings;

verus! {

/// Every kind of action a plan can hold.
#[derive(Clone, Debug)]
pub enum Action {
    CreateNixTreeDirs(CreateNixTreeDirs),
    CreateUsersAndGroup(CreateUsersAndGroup),
}

impl Action {
    /// The lifecycle state of the action.
    pub open spec fn state(&self) -> ActionState {
        match self {
            Action::CreateNixTreeDirs(a) => a.action_state,
            Action::CreateUsersAndGroup(a) => a.action_state,
        }
    }

    /// The headline and explanation shown before the action runs.
    pub open spec fn spec_description(&self) -> Seq<(Seq<char>, Seq<Seq<char>>)> {
        match self {
            Action::CreateNixTreeDirs(a) => a.spec_description(),
            Action::CreateUsersAndGroup(a) => a.spec_description(),
        }
    }

    pub fn action_state(&self) -> (r: ActionState)
        ensures
            r == self.state(),
    {
        match self {
            Action::CreateNixTreeDirs(a) => a.action_state,
            Action::CreateUsersAndGroup(a) => a.action_state,
        }
    }

    pub fn description(&self) -> (r: Vec<ActionDescription>)
        ensures
            description_views(r@) == self.spec_description(),
    {
        match self {
            Action::CreateNixTreeDirs(a) => a.description(),
            Action::CreateUsersAndGroup(a) => a.description(),
        }
    }
}

impl From<CreateUsersAndGroup> for Action {
    fn from(v: CreateUsersAndGroup) -> (r: Action) {
        Action::CreateUsersAndGroup(v)
    }
}

impl vstd::std_specs::convert::FromSpecImpl<CreateUsersAndGroup> for Action {
    open spec fn obeys_from_spec() -> bool {
        true
    }

    open spec fn from_spec(v: CreateUsersAndGroup) -> Action {
        Action::CreateUsersAndGroup(v)
    }
}

impl From<CreateNixTreeDirs> for Action {
    fn from(v: CreateNixTreeDirs) -> (r: Action) {
        Action::CreateNixTreeDirs(v)
    }
}

impl vstd::std_specs::convert::FromSpecImpl<CreateNixTreeDirs> for Action {
    open spec fn obeys_from_spec() -> bool {
        true
    }

    open spec fn from_spec(v: CreateNixTreeDirs) -> Action {
        Action::CreateNixTreeDirs(v)
    }
}

/// The descriptions of `actions`, in order, one after another.
pub open spec fn plan_description(actions: Seq<Action>) -> Seq<(Seq<char>, Seq<Seq<char>>)>
    decreases actions.len(),
{
    if actions.len() == 0 {
        Seq::empty()
    } else {
        plan_description(actions.drop_last()) + actions.last().spec_description()
    }
}

/// An ordered list of actions and the settings that produced them.
#[derive(Clone, Debug)]
pub struct InstallPlan {
    pub settings: InstallSettings,
    pub actions: Vec<Action>,
}

impl InstallPlan {
    /// Plans the directory tree, then the build users and group.
    pub fn plan(settings: InstallSettings) -> (r: Self)
        requires
            settings.nix_build_user_id_base + settings.daemon_user_count <= usize::MAX + 1,
        ensures
            r.settings == settings,
            r.actions@.len() == 2,
            r.actions@[0] is CreateNixTreeDirs,
            r.actions@[1] is CreateUsersAndGroup,
            r.actions@[0].state() == ActionState::Planned,
            r.actions@[1].state() == ActionState::Planned,
            ({
                let c = r.actions@[1]->CreateUsersAndGroup_0;
                &&& c.wf()
                &&& c.daemon_user_count == settings.daemon_user_count
                &&& c.nix_build_group_name == settings.nix_build_group_name
                &&& c.nix_build_group_id == settings.nix_build_group_id
                &&& c.nix_build_user_prefix == settings.nix_build_user_prefix
                &&& c.nix_build_user_id_base == settings.nix_build_user_id_base
                &&& c.create_group.action_state == ActionState::Planned
                &&& c.all_users_in(ActionState::Planned)
            }),
    {
        let for_users = InstallSettings {
            daemon_user_count: settings.daemon_user_count,
            nix_build_group_name: settings.nix_build_group_name.clone(),
            nix_build_group_id: settings.nix_build_group_id,
            nix_build_user_prefix: settings.nix_build_user_prefix.clone(),
            nix_build_user_id_base: settings.nix_build_user_id_base,
        };
        let dirs = CreateNixTreeDirs::plan(
            settings.nix_build_group_name.clone(),
            settings.nix_build_group_id,
        );
        let mut actions: Vec<Action> = Vec::new();
        actions.push(Action::CreateNixTreeDirs(dirs));
        match CreateUsersAndGroup::plan(for_users) {
            Ok(users) => {
                actions.push(Action::CreateUsersAndGroup(users));
            },
            Err(_) => {},
        }
        InstallPlan { settings, actions }
    }

    /// Every action's description, in plan order.
    pub fn description(&self) -> (r: Vec<ActionDescription>)
        ensures
            description_views(r@) == plan_description(self.actions@),
    {
        let mut r: Vec<ActionDescription> = Vec::new();
        let mut i: usize = 0;
        while i < self.actions.len()
            invariant
                i <= self.actions@.len(),
                description_views(r@) == plan_description(self.actions@.take(i as int)),
            decreases self.actions@.len() - i,
        {
            let mut d = self.actions[i].description();
            let ghost prev = r@;
            let ghost added = d@;
            r.append(&mut d);
            assert(self.actions@.take(i + 1).drop_last() =~= self.actions@.take(i as int));
            assert(description_views(r@) =~= description_views(prev) + description_views(added));
            i = i + 1;
        }
        assert(self.actions@.take(self.actions@.len() as int) =~= self.actions@);
        r
    }

    /// The action that install runs next: the first one still `Planned`.
    /// Completed actions are never run again.
    pub fn next_to_install(&self) -> (r: Option<usize>)
        ensures
            r is None <==> forall|j: int|
                0 <= j < self.actions@.len() ==> (#[trigger] self.actions@[j]).state()
                    != ActionState::Planned,
            r is Some ==> {
                &&& r->Some_0 < self.actions@.len()
                &&& self.actions@[r->Some_0 as int].state() == ActionState::Planned
                &&& forall|j: int|
                    0 <= j < r->Some_0 ==> (#[trigger] self.actions@[j]).state()
                        != ActionState::Planned
            },
    {
        let mut i: usize = 0;
        while i < self.actions.len()
            invariant
                i <= self.actions@.len(),
                forall|j: int| 0 <= j < i ==> (#[trigger] self.actions@[j]).state() != ActionState::Planned,
            decreases self.actions@.len() - i,
        {
            if self.actions[i].action_state() == ActionState::Planned {
                return Some(i);
            }
            i = i + 1;
        }
        None
    }

    /// The action that revert undoes next: the last one still `Completed`.
    /// Actions never run, or already reverted, are skipped.
    pub fn next_to_revert(&self) -> (r: Option<usize>)
        ensures
            r is None <==> forall|j: int|
                0 <= j < self.actions@.len() ==> (#[trigger] self.actions@[j]).state()
                    != ActionState::Completed,
            r is Some ==> {
                &&& r->Some_0 < self.actions@.len()
                &&& self.actions@[r->Some_0 as int].state() == ActionState::Completed
                &&& forall|j: int|
                    r->Some_0 < j < self.actions@.len() ==> (#[trigger] self.actions@[j]).state()
                        != ActionState::Completed
            },
    {
        let mut i: usize = self.actions.len();
        while i > 0
            invariant
                i <= self.actions@.len(),
                forall|j: int|
                    i <= j < self.actions@.len() ==> (#[trigger] self.actions@[j]).state()
                        != ActionState::Completed,
            decreases i,
        {
            if self.actions[i - 1].action_state() == ActionState::Completed {
                return Some(i - 1);
            }
            i = i - 1;
        }
        None
    }
}

} // verus!
