//! Leaf actions: one system group, one system user. Each owns only its own
//! parameters and its lifecycle state; once completed, those parameters are
//! the receipt of exactly what was created, so revert removes precisely that.
//! The external processes themselves are run by the caller, which reports the
//! outcome back through `record_execute` / `record_revert`.
use vstd::prelude::*;
use crate::action::{ActionDescription, ActionState};
use crate::error::{command_message, CommandError};
use crate::text::{decimal, decimal_string};

verus! {

/// The views of a list of strings.
pub open spec fn views(v: Seq<String>) -> Seq<Seq<char>> {
    v.map_values(|s: String| s@)
}

/// Creates a system group with a fixed numeric id.
#[derive(Clone, Debug)]
pub struct CreateGroup {
    pub name: String,
    pub gid: usize,
    pub action_state: ActionState,
}

/// Failure of a group creation or removal.
#[derive(Clone, Debug)]
pub enum CreateGroupError {
    Command(CommandError),
}

/// The rendered message of a group failure.
pub open spec fn group_error_message(e: CreateGroupError) -> Seq<char> {
    match e {
        CreateGroupError::Command(c) => command_message(c.command@),
    }
}

impl CreateGroupError {
    pub fn message(&self) -> (r: String)
        ensures
            r@ == group_error_message(*self),
    {
        match self {
            CreateGroupError::Command(c) => c.message(),
        }
    }
}

impl CreateGroup {
    pub fn plan(name: String, gid: usize) -> (r: Self)
        ensures
            r.name == name,
            r.gid == gid,
            r.action_state == ActionState::Planned,
    {
        CreateGroup { name, gid, action_state: ActionState::Planned }
    }

    pub fn description(&self) -> (r: Vec<ActionDescription>)
        ensures
            r@.len() == 1,
            r@[0].description@ == "Create group `"@ + self.name@ + "` with GID `"@ + decimal(
                self.gid as nat,
            ) + "`"@,
            r@[0].explanation@.len() == 0,
    {
        let headline = String::from_str("Create group `").concat(self.name.as_str()).concat(
            "` with GID `",
        ).concat(decimal_string(self.gid).as_str()).concat("`");
        let mut r: Vec<ActionDescription> = Vec::new();
        r.push(ActionDescription::new(headline, Vec::new()));
        r
    }

    /// The invocation that creates the group.
    pub fn execute_command(&self) -> (r: Vec<String>)
        ensures
            views(r@) == seq!["groupadd"@, "-g"@, decimal(self.gid as nat), "--system"@, self.name@],
    {
        let mut r: Vec<String> = Vec::new();
        r.push(String::from_str("groupadd"));
        r.push(String::from_str("-g"));
        r.push(decimal_string(self.gid));
        r.push(String::from_str("--system"));
        r.push(self.name.clone());
        assert(views(r@) =~= seq!["groupadd"@, "-g"@, decimal(self.gid as nat), "--system"@, self.name@]);
        r
    }

    /// The invocation that removes the group this action created.
    pub fn revert_command(&self) -> (r: Vec<String>)
        ensures
            views(r@) == seq!["groupdel"@, self.name@],
    {
        let mut r: Vec<String> = Vec::new();
        r.push(String::from_str("groupdel"));
        r.push(self.name.clone());
        assert(views(r@) =~= seq!["groupdel"@, self.name@]);
        r
    }

    /// Records the outcome of running `execute_command`: on success the
    /// group is `Completed`; on failure nothing changes and the failure is
    /// returned as this action's error.
    pub fn record_execute(&mut self, outcome: Result<(), CommandError>) -> (r: Result<(), CreateGroupError>)
        requires
            old(self).action_state == ActionState::Planned,
        ensures
            final(self).name == old(self).name,
            final(self).gid == old(self).gid,
            outcome is Ok ==> r is Ok && final(self).action_state == ActionState::Completed,
            outcome is Err ==> r == Err::<(), CreateGroupError>(CreateGroupError::Command(outcome->Err_0))
                && final(self).action_state == old(self).action_state,
    {
        match outcome {
            Ok(()) => {
                self.action_state = ActionState::Completed;
                Ok(())
            },
            Err(e) => Err(CreateGroupError::Command(e)),
        }
    }

    /// Records the outcome of running `revert_command`: on success the group
    /// is `Reverted`; on failure nothing changes.
    pub fn record_revert(&mut self, outcome: Result<(), CommandError>) -> (r: Result<(), CreateGroupError>)
        requires
            old(self).action_state == ActionState::Completed,
        ensures
            final(self).name == old(self).name,
            final(self).gid == old(self).gid,
            outcome is Ok ==> r is Ok && final(self).action_state == ActionState::Reverted,
            outcome is Err ==> r == Err::<(), CreateGroupError>(CreateGroupError::Command(outcome->Err_0))
                && final(self).action_state == old(self).action_state,
    {
        match outcome {
            Ok(()) => {
                self.action_state = ActionState::Reverted;
                Ok(())
            },
            Err(e) => Err(CreateGroupError::Command(e)),
        }
    }
}

/// Creates a system user with a fixed numeric id, member of the group `gid`.
#[derive(Clone, Debug)]
pub struct CreateUser {
    pub name: String,
    pub uid: usize,
    pub gid: usize,
    pub action_state: ActionState,
}

/// Failure of a user creation or removal.
#[derive(Clone, Debug)]
pub enum CreateUserError {
    Command(CommandError),
}

/// The rendered message of a user failure.
pub open spec fn user_error_message(e: CreateUserError) -> Seq<char> {
    match e {
        CreateUserError::Command(c) => command_message(c.command@),
    }
}

impl CreateUserError {
    pub fn message(&self) -> (r: String)
        ensures
            r@ == user_error_message(*self),
    {
        match self {
            CreateUserError::Command(c) => c.message(),
        }
    }
}

/// The arguments of the user-creation invocation.
pub open spec fn useradd_args(name: Seq<char>, uid: nat, gid: nat) -> Seq<Seq<char>> {
    seq![
        "useradd"@,
        "--home-dir"@,
        "/var/empty"@,
        "--comment"@,
        "Nix build user"@,
        "--gid"@,
        decimal(gid),
        "--groups"@,
        decimal(gid),
        "--no-user-group"@,
        "--system"@,
        "--shell"@,
        "/sbin/nologin"@,
        "--uid"@,
        decimal(uid),
        "--password"@,
        "!"@,
        name,
    ]
}

impl CreateUser {
    pub fn plan(name: String, uid: usize, gid: usize) -> (r: Self)
        ensures
            r.name == name,
            r.uid == uid,
            r.gid == gid,
            r.action_state == ActionState::Planned,
    {
        CreateUser { name, uid, gid, action_state: ActionState::Planned }
    }

    pub fn description(&self) -> (r: Vec<ActionDescription>)
        ensures
            r@.len() == 1,
            r@[0].description@ == "Create user `"@ + self.name@ + "` with UID `"@ + decimal(
                self.uid as nat,
            ) + "` in group `"@ + decimal(self.gid as nat) + "`"@,
            r@[0].explanation@.len() == 0,
    {
        let headline = String::from_str("Create user `").concat(self.name.as_str()).concat(
            "` with UID `",
        ).concat(decimal_string(self.uid).as_str()).concat("` in group `").concat(
            decimal_string(self.gid).as_str(),
        ).concat("`");
        let mut r: Vec<ActionDescription> = Vec::new();
        r.push(ActionDescription::new(headline, Vec::new()));
        r
    }

    /// The invocation that creates the user.
    pub fn execute_command(&self) -> (r: Vec<String>)
        ensures
            views(r@) == useradd_args(self.name@, self.uid as nat, self.gid as nat),
    {
        let mut r: Vec<String> = Vec::new();
        r.push(String::from_str("useradd"));
        r.push(String::from_str("--home-dir"));
        r.push(String::from_str("/var/empty"));
        r.push(String::from_str("--comment"));
        r.push(String::from_str("Nix build user"));
        r.push(String::from_str("--gid"));
        r.push(decimal_string(self.gid));
        r.push(String::from_str("--groups"));
        r.push(decimal_string(self.gid));
        r.push(String::from_str("--no-user-group"));
        r.push(String::from_str("--system"));
        r.push(String::from_str("--shell"));
        r.push(String::from_str("/sbin/nologin"));
        r.push(String::from_str("--uid"));
        r.push(decimal_string(self.uid));
        r.push(String::from_str("--password"));
        r.push(String::from_str("!"));
        r.push(self.name.clone());
        assert(views(r@) =~= useradd_args(self.name@, self.uid as nat, self.gid as nat));
        r
    }

    /// The invocation that removes the user this action created.
    pub fn revert_command(&self) -> (r: Vec<String>)
        ensures
            views(r@) == seq!["userdel"@, self.name@],
    {
        let mut r: Vec<String> = Vec::new();
        r.push(String::from_str("userdel"));
        r.push(self.name.clone());
        assert(views(r@) =~= seq!["userdel"@, self.name@]);
        r
    }

    /// Records the outcome of running `execute_command`: on success the user
    /// is `Completed`; on failure nothing changes.
    pub fn record_execute(&mut self, outcome: Result<(), CommandError>) -> (r: Result<(), CreateUserError>)
        requires
            old(self).action_state == ActionState::Planned,
        ensures
            final(self).name == old(self).name,
            final(self).uid == old(self).uid,
            final(self).gid == old(self).gid,
            outcome is Ok ==> r is Ok && final(self).action_state == ActionState::Completed,
            outcome is Err ==> r == Err::<(), CreateUserError>(CreateUserError::Command(outcome->Err_0))
                && final(self).action_state == old(self).action_state,
    {
        match outcome {
            Ok(()) => {
                self.action_state = ActionState::Completed;
                Ok(())
            },
            Err(e) => Err(CreateUserError::Command(e)),
        }
    }

    /// Records the outcome of running `revert_command`: on success the user
    /// is `Reverted`; on failure nothing changes.
    pub fn record_revert(&mut self, outcome: Result<(), CommandError>) -> (r: Result<(), CreateUserError>)
        requires
            old(self).action_state == ActionState::Completed,
        ensures
            final(self).name == old(self).name,
            final(self).uid == old(self).uid,
            final(self).gid == old(self).gid,
            outcome is Ok ==> r is Ok && final(self).action_state == ActionState::Reverted,
            outcome is Err ==> r == Err::<(), CreateUserError>(CreateUserError::Command(outcome->Err_0))
                && final(self).action_state == old(self).action_state,
    {
        match outcome {
            Ok(()) => {
                self.action_state = ActionState::Reverted;
                Ok(())
            },
            Err(e) => Err(CreateUserError::Command(e)),
        }
    }
}

} // verus!
