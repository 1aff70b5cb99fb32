//! Action execution and rollback engine for provisioning a host: a uniform
//! plan / describe / execute / revert contract, a lifecycle state machine for
//! every action, a composite action that fans out over child actions and
//! aggregates their failures, and an ordered plan that drives the actions
//! forward on install and backward on revert.
pub mod action;
pub mod base;
pub mod create_nix_tree_dirs;
pub mod create_users_and_group;
pub mod error;
pub mod plan;
pub mod settings;
pub mod text;

pub use action::{ActionDescription, ActionState};
pub use create_nix_tree_dirs::{CreateNixTreeDirs, CreateNixTreeDirsReceipt};
pub use create_users_and_group::{
    CreateUsersAndGroup, CreateUsersAndGroupError, JoinFailure, UserTaskOutcome,
};
pub use plan::{Action, InstallPlan};
pub use settings::InstallSettings;
pub use base::{CreateGroup, CreateGroupError, CreateUser, CreateUserError};
pub use error::{check_status, CommandError};
