//! The already-validated configuration values that planning consumes.
use vstd::prelude::*;

verus! {

/// Build group name and id, build user prefix and base id, and how many
/// build users to create.
#[derive(Clone, Debug)]
pub struct InstallSettings {
    pub daemon_user_count: usize,
    pub nix_build_group_name: String,
    pub nix_build_group_id: usize,
    pub nix_build_user_prefix: String,
    pub nix_build_user_id_base: usize,
}

} // verus!
