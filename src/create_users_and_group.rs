//! The composite action that creates the build group and the build users.
//!
//! The group is created first; the users are then created concurrently by
//! the caller, one unit of work per user, and each unit reports back a
//! `UserTaskOutcome` tagged with the user's position. This module decides
//! what those outcomes mean: which children are recorded as done, and which
//! single error, aggregated error or scheduling failure is reported. Revert
//! runs the other way round: users first, the group only once every user is
//! reverted.
use vstd::prelude::*;
use crate::action::{description_views, ActionDescription, ActionState};
use crate::base::{
    group_error_message, user_error_message, CreateGroup, CreateGroupError, CreateUser,
    CreateUserError,
};
use crate::error::CommandError;
use crate::settings::InstallSettings;
use crate::text::{decimal, decimal_string, join_strings, joined};

verus! {

/// A unit of concurrent work that could not be joined (it crashed instead of
/// returning). `message` is its rendered cause.
#[derive(Clone, Debug)]
pub struct JoinFailure {
    pub message: String,
}

/// What one concurrently run user child reported.
#[derive(Clone, Debug)]
pub enum UserTaskOutcome {
    /// The child at this position succeeded.
    Succeeded(usize),
    /// A child failed with a typed error.
    Failed(CreateUserError),
    /// A unit crashed rather than returning.
    Crashed(JoinFailure),
}

/// Failure of the composite action.
#[derive(Clone, Debug)]
pub enum CreateUsersAndGroupError {
    /// Exactly one user child failed: its error, unwrapped.
    CreateUser(CreateUserError),
    /// Two or more user children failed: all their errors, in the order
    /// their outcomes arrived.
    CreateUsers(Vec<CreateUserError>),
    /// The group child failed.
    CreateGroup(CreateGroupError),
    /// A concurrent unit crashed.
    Join(JoinFailure),
}

/// The separator between the messages of an aggregated failure.
pub open spec fn separator() -> Seq<char> {
    " & "@
}

/// The rendered message of a composite failure.
pub open spec fn error_message(e: CreateUsersAndGroupError) -> Seq<char> {
    match e {
        CreateUsersAndGroupError::CreateUser(u) => user_error_message(u),
        CreateUsersAndGroupError::CreateUsers(v) => "Multiple errors: "@ + joined(
            v@.map_values(|u: CreateUserError| user_error_message(u)),
            separator(),
        ),
        CreateUsersAndGroupError::CreateGroup(g) => group_error_message(g),
        CreateUsersAndGroupError::Join(f) => f.message@,
    }
}

impl CreateUsersAndGroupError {
    pub fn message(&self) -> (r: String)
        ensures
            r@ == error_message(*self),
    {
        match self {
            CreateUsersAndGroupError::CreateUser(u) => u.message(),
            CreateUsersAndGroupError::CreateUsers(v) => {
                let ghost msgs = v@.map_values(|u: CreateUserError| user_error_message(u));
                let mut parts: Vec<String> = Vec::new();
                let mut i: usize = 0;
                while i < v.len()
                    invariant
                        i <= v@.len(),
                        msgs == v@.map_values(|u: CreateUserError| user_error_message(u)),
                        parts@.len() == i,
                        forall|k: int| 0 <= k < i ==> #[trigger] parts@[k]@ == msgs[k],
                    decreases v@.len() - i,
                {
                    let m = v[i].message();
                    assert(m@ == msgs[i as int]);
                    parts.push(m);
                    i = i + 1;
                }
                assert(parts@.map_values(|p: String| p@) =~= msgs);
                let joined_text = join_strings(&parts, " & ");
                String::from_str("Multiple errors: ").concat(joined_text.as_str())
            },
            CreateUsersAndGroupError::CreateGroup(g) => g.message(),
            CreateUsersAndGroupError::Join(f) => f.message.clone(),
        }
    }
}

/// The name of the build user at `index`.
pub open spec fn user_name(prefix: Seq<char>, index: nat) -> Seq<char> {
    prefix + decimal(index)
}

/// The errors of the failed children among `s`, in order.
pub open spec fn failures(s: Seq<UserTaskOutcome>) -> Seq<CreateUserError>
    decreases s.len(),
{
    if s.len() == 0 {
        Seq::empty()
    } else {
        match s.last() {
            UserTaskOutcome::Failed(e) => failures(s.drop_last()).push(e),
            _ => failures(s.drop_last()),
        }
    }
}

/// Some outcome among `s` reports the child at position `p` as succeeded.
pub open spec fn succeeded_in(s: Seq<UserTaskOutcome>, p: int) -> bool {
    exists|j: int| 0 <= j < s.len() && #[trigger] s[j] == UserTaskOutcome::Succeeded(p as usize)
}

/// No outcome among `s` is a crash.
pub open spec fn crash_free(s: Seq<UserTaskOutcome>) -> bool {
    forall|j: int| 0 <= j < s.len() ==> !(#[trigger] s[j] is Crashed)
}

/// Every success among `s` names a position below `n`.
pub open spec fn outcomes_in_range(s: Seq<UserTaskOutcome>, n: nat) -> bool {
    forall|j: int| 0 <= j < s.len() && (#[trigger] s[j]) is Succeeded ==> s[j]->Succeeded_0 < n
}

/// `u` with its state set to `st`.
pub open spec fn with_state(u: CreateUser, st: ActionState) -> CreateUser {
    CreateUser { name: u.name, uid: u.uid, gid: u.gid, action_state: st }
}

/// `after` is `before` with every child that succeeded in `s` moved to
/// `target`, and every other child untouched.
pub open spec fn marked(
    before: Seq<CreateUser>,
    after: Seq<CreateUser>,
    s: Seq<UserTaskOutcome>,
    target: ActionState,
) -> bool {
    &&& after.len() == before.len()
    &&& forall|p: int|
        0 <= p < before.len() ==> #[trigger] after[p] == if succeeded_in(s, p) {
            with_state(before[p], target)
        } else {
            before[p]
        }
}

/// The result that the failures `errs` of children collapse to: success for
/// none, the error itself for one, an aggregated error holding all of them
/// for more.
pub open spec fn aggregated(r: Result<(), CreateUsersAndGroupError>, errs: Seq<CreateUserError>) -> bool {
    if errs.len() == 0 {
        r is Ok
    } else if errs.len() == 1 {
        r == Err::<(), CreateUsersAndGroupError>(CreateUsersAndGroupError::CreateUser(errs[0]))
    } else {
        &&& r is Err
        &&& r->Err_0 is CreateUsers
        &&& r->Err_0->CreateUsers_0@ == errs
    }
}

/// The effect of folding the outcomes `s` into the children `before`, moving
/// the ones that succeeded to `target`: without a crash every outcome is
/// applied and the failures are aggregated; at the first crash the fold stops
/// and that crash is the result.
pub open spec fn outcomes_applied(
    before: Seq<CreateUser>,
    after: Seq<CreateUser>,
    s: Seq<UserTaskOutcome>,
    target: ActionState,
    r: Result<(), CreateUsersAndGroupError>,
) -> bool {
    if crash_free(s) {
        marked(before, after, s, target) && aggregated(r, failures(s))
    } else {
        exists|k: int|
            0 <= k < s.len() && crash_free(s.take(k)) && (#[trigger] s[k]) is Crashed && r
                == Err::<(), CreateUsersAndGroupError>(
                CreateUsersAndGroupError::Join(s[k]->Crashed_0),
            ) && marked(before, after, s.take(k), target)
    }
}

proof fn lemma_take_step(s: Seq<UserTaskOutcome>, i: int)
    requires
        0 <= i < s.len(),
    ensures
        s.take(i + 1).drop_last() == s.take(i),
        s.take(i + 1).last() == s[i],
        forall|p: int|
            succeeded_in(s.take(i + 1), p) <==> (succeeded_in(s.take(i), p) || s[i]
                == UserTaskOutcome::Succeeded(p as usize)),
{
    assert(s.take(i + 1).drop_last() =~= s.take(i));
    assert forall|p: int|
        succeeded_in(s.take(i + 1), p) <==> (succeeded_in(s.take(i), p) || s[i]
            == UserTaskOutcome::Succeeded(p as usize)) by {
        if succeeded_in(s.take(i + 1), p) {
            let j = choose|j: int|
                0 <= j < s.take(i + 1).len() && #[trigger] s.take(i + 1)[j]
                    == UserTaskOutcome::Succeeded(p as usize);
            if j < i {
                assert(s.take(i)[j] == s.take(i + 1)[j]);
            }
        }
        if succeeded_in(s.take(i), p) {
            let j = choose|j: int|
                0 <= j < s.take(i).len() && #[trigger] s.take(i)[j]
                    == UserTaskOutcome::Succeeded(p as usize);
            assert(s.take(i + 1)[j] == s.take(i)[j]);
        }
        if s[i] == UserTaskOutcome::Succeeded(p as usize) {
            assert(s.take(i + 1)[i] == s[i]);
        }
    }
}

/// Folds the outcomes of concurrently run children into `users`, keyed by
/// position, and collapses their failures into one result.
fn apply_outcomes(
    users: &mut Vec<CreateUser>,
    outcomes: Vec<UserTaskOutcome>,
    target: ActionState,
) -> (r: Result<(), CreateUsersAndGroupError>)
    requires
        outcomes_in_range(outcomes@, old(users)@.len()),
    ensures
        outcomes_applied(old(users)@, final(users)@, outcomes@, target, r),
{
    let ghost all = outcomes@;
    let ghost before = users@;
    let mut rest = outcomes;
    let mut errors: Vec<CreateUserError> = Vec::new();
    let n = rest.len();
    let ulen = users.len();
    assert(before.len() == ulen);
    let mut i: usize = 0;
    assert(all.take(0) =~= Seq::<UserTaskOutcome>::empty());
    while i < n
        invariant
            n == all.len(),
            all == outcomes@,
            before == old(users)@,
            i <= n,
            rest@ == all.skip(i as int),
            outcomes_in_range(all, before.len()),
            before.len() <= usize::MAX,
            crash_free(all.take(i as int)),
            errors@ == failures(all.take(i as int)),
            marked(before, users@, all.take(i as int), target),
        decreases n - i,
    {
        let o = rest.remove(0);
        assert(o == all[i as int]);
        proof {
            lemma_take_step(all, i as int);
        }
        let ghost prev = users@;
        match o {
            UserTaskOutcome::Succeeded(idx) => {
                assert(all[i as int] == UserTaskOutcome::Succeeded(idx));
                let mut u = users.remove(idx);
                u.action_state = target;
                let ghost gu = u;
                users.insert(idx, u);
                assert(gu == with_state(prev[idx as int], target));
                assert(marked(before, users@, all.take(i + 1), target)) by {
                    assert forall|p: int| 0 <= p < before.len() implies #[trigger] users@[p]
                        == if succeeded_in(all.take(i + 1), p) {
                        with_state(before[p], target)
                    } else {
                        before[p]
                    } by {
                        if p != idx {
                            assert(users@[p] == prev[p]);
                            assert(all[i as int] != UserTaskOutcome::Succeeded(p as usize));
                        } else {
                            assert(users@[p] == gu);
                            assert(succeeded_in(all.take(i + 1), p));
                        }
                    }
                }
            },
            UserTaskOutcome::Failed(e) => {
                errors.push(e);
            },
            UserTaskOutcome::Crashed(f) => {
                assert(all[i as int] == UserTaskOutcome::Crashed(f));
                assert(all[i as int] is Crashed);
                assert(!crash_free(all));
                assert(0 <= i < all.len() && crash_free(all.take(i as int)) && all[i as int] is Crashed
                    && marked(before, users@, all.take(i as int), target));
                let r = Err(CreateUsersAndGroupError::Join(f));
                assert(outcomes_applied(before, users@, all, target, r));
                return r;
            },
        }
        i = i + 1;
        assert(crash_free(all.take(i as int))) by {
            assert forall|j: int| 0 <= j < i implies !(#[trigger] all.take(i as int)[j] is Crashed) by {
                if j < i - 1 {
                    assert(all.take(i as int)[j] == all.take(i - 1)[j]);
                }
            }
        }
    }
    assert(all.take(n as int) =~= all);
    if errors.len() == 0 {
        Ok(())
    } else if errors.len() == 1 {
        let e = errors.remove(0);
        Err(CreateUsersAndGroupError::CreateUser(e))
    } else {
        Err(CreateUsersAndGroupError::CreateUsers(errors))
    }
}

/// Creates the build group, then `daemon_user_count` build users in it.
#[derive(Clone, Debug)]
pub struct CreateUsersAndGroup {
    pub daemon_user_count: usize,
    pub nix_build_group_name: String,
    pub nix_build_group_id: usize,
    pub nix_build_user_prefix: String,
    pub nix_build_user_id_base: usize,
    pub create_group: CreateGroup,
    pub create_users: Vec<CreateUser>,
    pub action_state: ActionState,
}

/// Positions `r` are, in increasing order, exactly the users in state `st`.
pub open spec fn positions_in_state(users: Seq<CreateUser>, st: ActionState, r: Seq<usize>) -> bool {
    &&& forall|a: int, b: int| 0 <= a < b < r.len() ==> r[a] < r[b]
    &&& forall|j: int| 0 <= j < r.len() ==> #[trigger] r[j] < users.len()
    &&& forall|j: int| 0 <= j < r.len() ==> users[#[trigger] r[j] as int].action_state == st
    &&& forall|p: int|
        0 <= p < users.len() && (#[trigger] users[p]).action_state == st ==> exists|j: int|
            0 <= j < r.len() && #[trigger] r[j] == p
}

impl CreateUsersAndGroup {
    /// The children are exactly those that planning derives from the
    /// parameters: the group, and one user per index below the count, named
    /// prefix + index, with id base + index, in the group.
    pub open spec fn wf(&self) -> bool {
        &&& self.create_group.name@ == self.nix_build_group_name@
        &&& self.create_group.gid == self.nix_build_group_id
        &&& self.create_users@.len() == self.daemon_user_count
        &&& forall|i: int|
            0 <= i < self.create_users@.len() ==> {
                &&& (#[trigger] self.create_users@[i]).name@ == user_name(
                    self.nix_build_user_prefix@,
                    i as nat,
                )
                &&& self.create_users@[i].uid == self.nix_build_user_id_base + i
                &&& self.create_users@[i].gid == self.nix_build_group_id
            }
    }

    /// The parameters of `self` and `other` agree; only states may differ.
    pub open spec fn same_parameters(&self, other: &Self) -> bool {
        &&& self.daemon_user_count == other.daemon_user_count
        &&& self.nix_build_group_name == other.nix_build_group_name
        &&& self.nix_build_group_id == other.nix_build_group_id
        &&& self.nix_build_user_prefix == other.nix_build_user_prefix
        &&& self.nix_build_user_id_base == other.nix_build_user_id_base
        &&& self.create_group.name == other.create_group.name
        &&& self.create_group.gid == other.create_group.gid
        &&& self.create_users@.len() == other.create_users@.len()
        &&& forall|i: int|
            0 <= i < self.create_users@.len() ==> {
                &&& (#[trigger] self.create_users@[i]).name == other.create_users@[i].name
                &&& self.create_users@[i].uid == other.create_users@[i].uid
                &&& self.create_users@[i].gid == other.create_users@[i].gid
            }
    }

    /// Every user child is in state `st`.
    pub open spec fn all_users_in(&self, st: ActionState) -> bool {
        forall|i: int| 0 <= i < self.create_users@.len() ==> (#[trigger] self.create_users@[i]).action_state == st
    }

    /// Plans the group and the users; no system state is read or changed.
    pub fn plan(settings: InstallSettings) -> (r: Result<Self, CreateUsersAndGroupError>)
        requires
            settings.nix_build_user_id_base + settings.daemon_user_count <= usize::MAX + 1,
        ensures
            r is Ok,
            r->Ok_0.wf(),
            r->Ok_0.daemon_user_count == settings.daemon_user_count,
            r->Ok_0.nix_build_group_name == settings.nix_build_group_name,
            r->Ok_0.nix_build_group_id == settings.nix_build_group_id,
            r->Ok_0.nix_build_user_prefix == settings.nix_build_user_prefix,
            r->Ok_0.nix_build_user_id_base == settings.nix_build_user_id_base,
            r->Ok_0.action_state == ActionState::Planned,
            r->Ok_0.create_group.action_state == ActionState::Planned,
            r->Ok_0.all_users_in(ActionState::Planned),
    {
        let create_group = CreateGroup::plan(
            settings.nix_build_group_name.clone(),
            settings.nix_build_group_id,
        );
        let mut create_users: Vec<CreateUser> = Vec::new();
        let mut count: usize = 0;
        while count < settings.daemon_user_count
            invariant
                count <= settings.daemon_user_count,
                settings.nix_build_user_id_base + settings.daemon_user_count <= usize::MAX + 1,
                create_users@.len() == count,
                forall|i: int|
                    0 <= i < count ==> {
                        &&& (#[trigger] create_users@[i]).name@ == user_name(
                            settings.nix_build_user_prefix@,
                            i as nat,
                        )
                        &&& create_users@[i].uid == settings.nix_build_user_id_base + i
                        &&& create_users@[i].gid == settings.nix_build_group_id
                        &&& create_users@[i].action_state == ActionState::Planned
                    },
            decreases settings.daemon_user_count - count,
        {
            let name = settings.nix_build_user_prefix.clone().concat(decimal_string(count).as_str());
            create_users.push(
                CreateUser::plan(
                    name,
                    settings.nix_build_user_id_base + count,
                    settings.nix_build_group_id,
                ),
            );
            count = count + 1;
        }
        Ok(CreateUsersAndGroup {
            daemon_user_count: settings.daemon_user_count,
            nix_build_group_name: settings.nix_build_group_name,
            nix_build_group_id: settings.nix_build_group_id,
            nix_build_user_prefix: settings.nix_build_user_prefix,
            nix_build_user_id_base: settings.nix_build_user_id_base,
            create_group,
            create_users,
            action_state: ActionState::Planned,
        })
    }

    /// The headline and explanation shown before the action runs.
    pub open spec fn spec_description(&self) -> Seq<(Seq<char>, Seq<Seq<char>>)> {
        seq![
            (
                "Create build users and group"@,
                seq![
                    "The nix daemon requires system users (and a group they share) which it can act as in order to build"@,
                    "Create group `"@ + self.nix_build_group_name@ + "` with uid `"@ + decimal(
                        self.nix_build_group_id as nat,
                    ) + "`"@,
                    "Create "@ + decimal(self.daemon_user_count as nat) + " users with prefix `"@
                        + self.nix_build_user_prefix@ + "` starting at uid `"@ + decimal(
                        self.nix_build_user_id_base as nat,
                    ) + "`"@,
                ],
            ),
        ]
    }

    pub fn description(&self) -> (r: Vec<ActionDescription>)
        ensures
            description_views(r@) == self.spec_description(),
    {
        let mut explanation: Vec<String> = Vec::new();
        explanation.push(
            String::from_str(
                "The nix daemon requires system users (and a group they share) which it can act as in order to build",
            ),
        );
        explanation.push(
            String::from_str("Create group `").concat(self.nix_build_group_name.as_str()).concat(
                "` with uid `",
            ).concat(decimal_string(self.nix_build_group_id).as_str()).concat("`"),
        );
        explanation.push(
            String::from_str("Create ").concat(decimal_string(self.daemon_user_count).as_str()).concat(
                " users with prefix `",
            ).concat(self.nix_build_user_prefix.as_str()).concat("` starting at uid `").concat(
                decimal_string(self.nix_build_user_id_base).as_str(),
            ).concat("`"),
        );
        let mut r: Vec<ActionDescription> = Vec::new();
        r.push(
            ActionDescription::new(String::from_str("Create build users and group"), explanation),
        );
        assert(r@[0].explanation@.map_values(|s: String| s@) =~= seq![
            "The nix daemon requires system users (and a group they share) which it can act as in order to build"@,
            "Create group `"@ + self.nix_build_group_name@ + "` with uid `"@ + decimal(
                self.nix_build_group_id as nat,
            ) + "`"@,
            "Create "@ + decimal(self.daemon_user_count as nat) + " users with prefix `"@
                + self.nix_build_user_prefix@ + "` starting at uid `"@ + decimal(
                self.nix_build_user_id_base as nat,
            ) + "`"@,
        ]);
        assert(description_views(r@) =~= self.spec_description());
        r
    }

    /// Positions of the users still to be created, in increasing order: the
    /// ones in state `Planned`.
    pub fn users_to_execute(&self) -> (r: Vec<usize>)
        ensures
            positions_in_state(self.create_users@, ActionState::Planned, r@),
    {
        self.positions(ActionState::Planned)
    }

    /// Positions of the users still to be removed, in increasing order: the
    /// ones in state `Completed`. Users already reverted are skipped.
    pub fn users_to_revert(&self) -> (r: Vec<usize>)
        ensures
            positions_in_state(self.create_users@, ActionState::Completed, r@),
    {
        self.positions(ActionState::Completed)
    }

    fn positions(&self, st: ActionState) -> (r: Vec<usize>)
        ensures
            positions_in_state(self.create_users@, st, r@),
    {
        let mut r: Vec<usize> = Vec::new();
        let mut i: usize = 0;
        while i < self.create_users.len()
            invariant
                i <= self.create_users@.len(),
                forall|a: int, b: int| 0 <= a < b < r@.len() ==> r@[a] < r@[b],
                forall|j: int| 0 <= j < r@.len() ==> #[trigger] r@[j] < i,
                forall|j: int| 0 <= j < r@.len() ==> self.create_users@[#[trigger] r@[j] as int].action_state == st,
                forall|p: int|
                    0 <= p < i && (#[trigger] self.create_users@[p]).action_state == st ==> exists|j: int|
                        0 <= j < r@.len() && #[trigger] r@[j] == p,
            decreases self.create_users@.len() - i,
        {
            if self.create_users[i].action_state == st {
                let ghost prev = r@;
                r.push(i);
                assert forall|p: int|
                    0 <= p < i + 1 && (#[trigger] self.create_users@[p]).action_state == st implies exists|j: int|
                        0 <= j < r@.len() && #[trigger] r@[j] == p by {
                    if p < i {
                        let j = choose|j: int| 0 <= j < prev.len() && #[trigger] prev[j] == p;
                        assert(r@[j] == prev[j]);
                    } else {
                        assert(r@[prev.len() as int] == i);
                    }
                }
            }
            i = i + 1;
        }
        r
    }

    /// Whether every user child is in state `st`.
    pub fn users_all_in(&self, st: ActionState) -> (r: bool)
        ensures
            r == self.all_users_in(st),
    {
        let mut i: usize = 0;
        while i < self.create_users.len()
            invariant
                i <= self.create_users@.len(),
                forall|j: int| 0 <= j < i ==> (#[trigger] self.create_users@[j]).action_state == st,
            decreases self.create_users@.len() - i,
        {
            if self.create_users[i].action_state != st {
                return false;
            }
            i = i + 1;
        }
        true
    }

    /// Records the outcome of running the group's creation command. On
    /// success the group child is `Completed`; on failure it is unchanged and
    /// the group's error is returned unwrapped. Users and the composite's own
    /// state are untouched either way.
    pub fn record_group_execute(&mut self, outcome: Result<(), CommandError>) -> (r: Result<
        (),
        CreateUsersAndGroupError,
    >)
        requires
            old(self).action_state == ActionState::Planned,
            old(self).create_group.action_state == ActionState::Planned,
        ensures
            group_executed(*old(self), *final(self), outcome, r),
    {
        match self.create_group.record_execute(outcome) {
            Ok(()) => Ok(()),
            Err(e) => Err(CreateUsersAndGroupError::CreateGroup(e)),
        }
    }

    /// Records what the concurrently run user creations reported, once all
    /// of them have finished: each user reported as succeeded becomes
    /// `Completed`, and the failures collapse into one result. The composite
    /// becomes `Completed` exactly when that result is a success.
    pub fn record_users_execute(&mut self, outcomes: Vec<UserTaskOutcome>) -> (r: Result<
        (),
        CreateUsersAndGroupError,
    >)
        requires
            old(self).action_state == ActionState::Planned,
            old(self).create_group.action_state == ActionState::Completed,
            outcomes_in_range(outcomes@, old(self).create_users@.len()),
        ensures
            users_executed(*old(self), *final(self), outcomes@, r),
    {
        let r = apply_outcomes(&mut self.create_users, outcomes, ActionState::Completed);
        if r.is_ok() {
            self.action_state = ActionState::Completed;
        }
        r
    }

    /// Records what the concurrently run user removals reported: each user
    /// reported as succeeded becomes `Reverted` (even when siblings failed),
    /// and the failures collapse into one result. The group and the
    /// composite's own state are untouched.
    pub fn record_users_revert(&mut self, outcomes: Vec<UserTaskOutcome>) -> (r: Result<
        (),
        CreateUsersAndGroupError,
    >)
        requires
            old(self).action_state == ActionState::Completed,
            outcomes_in_range(outcomes@, old(self).create_users@.len()),
        ensures
            users_reverted(*old(self), *final(self), outcomes@, r),
    {
        apply_outcomes(&mut self.create_users, outcomes, ActionState::Reverted)
    }

    /// Records the outcome of running the group's removal command, which is
    /// only done once every user is reverted. On success the group and the
    /// composite are `Reverted`; on failure nothing changes and the group's
    /// error is returned unwrapped.
    pub fn record_group_revert(&mut self, outcome: Result<(), CommandError>) -> (r: Result<
        (),
        CreateUsersAndGroupError,
    >)
        requires
            old(self).action_state == ActionState::Completed,
            old(self).create_group.action_state == ActionState::Completed,
            old(self).all_users_in(ActionState::Reverted),
        ensures
            group_reverted(*old(self), *final(self), outcome, r),
    {
        match self.create_group.record_revert(outcome) {
            Ok(()) => {
                self.action_state = ActionState::Reverted;
                Ok(())
            },
            Err(e) => Err(CreateUsersAndGroupError::CreateGroup(e)),
        }
    }
}

/// The effect of `record_group_execute`.
pub open spec fn group_executed(
    before: CreateUsersAndGroup,
    after: CreateUsersAndGroup,
    outcome: Result<(), CommandError>,
    r: Result<(), CreateUsersAndGroupError>,
) -> bool {
    &&& before.same_parameters(&after)
    &&& after.create_users == before.create_users
    &&& after.action_state == before.action_state
    &&& outcome is Ok ==> r is Ok && after.create_group.action_state == ActionState::Completed
    &&& outcome is Err ==> r == Err::<(), CreateUsersAndGroupError>(
        CreateUsersAndGroupError::CreateGroup(CreateGroupError::Command(outcome->Err_0)),
    ) && after.create_group.action_state == before.create_group.action_state
}

/// The effect of `record_users_execute`.
pub open spec fn users_executed(
    before: CreateUsersAndGroup,
    after: CreateUsersAndGroup,
    s: Seq<UserTaskOutcome>,
    r: Result<(), CreateUsersAndGroupError>,
) -> bool {
    &&& before.same_parameters(&after)
    &&& after.create_group == before.create_group
    &&& outcomes_applied(before.create_users@, after.create_users@, s, ActionState::Completed, r)
    &&& r is Ok ==> after.action_state == ActionState::Completed
    &&& r is Err ==> after.action_state == before.action_state
}

/// The effect of `record_users_revert`.
pub open spec fn users_reverted(
    before: CreateUsersAndGroup,
    after: CreateUsersAndGroup,
    s: Seq<UserTaskOutcome>,
    r: Result<(), CreateUsersAndGroupError>,
) -> bool {
    &&& before.same_parameters(&after)
    &&& after.create_group == before.create_group
    &&& outcomes_applied(before.create_users@, after.create_users@, s, ActionState::Reverted, r)
    &&& after.action_state == before.action_state
}

/// The effect of `record_group_revert`.
pub open spec fn group_reverted(
    before: CreateUsersAndGroup,
    after: CreateUsersAndGroup,
    outcome: Result<(), CommandError>,
    r: Result<(), CreateUsersAndGroupError>,
) -> bool {
    &&& before.same_parameters(&after)
    &&& after.create_users == before.create_users
    &&& outcome is Ok ==> r is Ok && after.create_group.action_state == ActionState::Reverted
        && after.action_state == ActionState::Reverted
    &&& outcome is Err ==> r == Err::<(), CreateUsersAndGroupError>(
        CreateUsersAndGroupError::CreateGroup(CreateGroupError::Command(outcome->Err_0)),
    ) && after.create_group.action_state == before.create_group.action_state
        && after.action_state == before.action_state
}

/// The outcomes among `s` that report a failed child, in order.
pub open spec fn failed_outcomes(s: Seq<UserTaskOutcome>) -> Seq<UserTaskOutcome> {
    s.filter(|o: UserTaskOutcome| o is Failed)
}

proof fn lemma_failures_of_failed(s: Seq<UserTaskOutcome>)
    ensures
        failures(s) == failed_outcomes(s).map_values(|o: UserTaskOutcome| o->Failed_0),
    decreases s.len(),
{
    reveal(Seq::filter);
    if s.len() > 0 {
        lemma_failures_of_failed(s.drop_last());
    }
    assert(failures(s) =~= failed_outcomes(s).map_values(|o: UserTaskOutcome| o->Failed_0));
}

proof fn lemma_no_failures(s: Seq<UserTaskOutcome>)
    requires
        forall|j: int| 0 <= j < s.len() ==> (#[trigger] s[j]) is Succeeded,
    ensures
        failures(s).len() == 0,
    decreases s.len(),
{
    if s.len() > 0 {
        assert(s.last() == s[s.len() - 1]);
        assert forall|j: int| 0 <= j < s.drop_last().len() implies (#[trigger] s.drop_last()[j]) is Succeeded by {
            assert(s.drop_last()[j] == s[j]);
        }
        lemma_no_failures(s.drop_last());
    }
}

/// When the group is created and then every user child reports success,
/// both steps succeed and the composite, the group and every user end
/// `Completed`.
pub proof fn lemma_execute_all_succeed(
    c0: CreateUsersAndGroup,
    c1: CreateUsersAndGroup,
    c2: CreateUsersAndGroup,
    group_outcome: Result<(), CommandError>,
    s: Seq<UserTaskOutcome>,
    r1: Result<(), CreateUsersAndGroupError>,
    r2: Result<(), CreateUsersAndGroupError>,
)
    requires
        group_executed(c0, c1, group_outcome, r1),
        group_outcome is Ok,
        users_executed(c1, c2, s, r2),
        forall|j: int| 0 <= j < s.len() ==> (#[trigger] s[j]) is Succeeded,
        forall|p: int| 0 <= p < c1.create_users@.len() ==> succeeded_in(s, p),
    ensures
        r1 is Ok,
        r2 is Ok,
        c2.action_state == ActionState::Completed,
        c2.create_group.action_state == ActionState::Completed,
        c2.all_users_in(ActionState::Completed),
{
    lemma_failures_of_failed(s);
    assert(crash_free(s));
    lemma_no_failures(s);
    assert forall|p: int| 0 <= p < c2.create_users@.len() implies (
    #[trigger] c2.create_users@[p]).action_state == ActionState::Completed by {
        assert(succeeded_in(s, p));
    }
}

/// When exactly one user child fails and none crashes, the reported error is
/// that child's own error, not an aggregate, and every user child that
/// succeeded is `Completed`.
pub proof fn lemma_execute_single_failure(
    c0: CreateUsersAndGroup,
    c1: CreateUsersAndGroup,
    s: Seq<UserTaskOutcome>,
    r: Result<(), CreateUsersAndGroupError>,
)
    requires
        users_executed(c0, c1, s, r),
        crash_free(s),
        failed_outcomes(s).len() == 1,
    ensures
        r == Err::<(), CreateUsersAndGroupError>(
            CreateUsersAndGroupError::CreateUser(failed_outcomes(s)[0]->Failed_0),
        ),
        forall|p: int|
            0 <= p < c1.create_users@.len() && succeeded_in(s, p) ==> (
            #[trigger] c1.create_users@[p]).action_state == ActionState::Completed,
        c1.action_state == c0.action_state,
{
    lemma_failures_of_failed(s);
}

/// When two or more user children fail and none crashes, the reported error
/// is the aggregate holding one error per failed child, in order, and its
/// message is each child's message joined by the separator.
pub proof fn lemma_execute_multiple_failures(
    c0: CreateUsersAndGroup,
    c1: CreateUsersAndGroup,
    s: Seq<UserTaskOutcome>,
    r: Result<(), CreateUsersAndGroupError>,
)
    requires
        users_executed(c0, c1, s, r),
        crash_free(s),
        failed_outcomes(s).len() >= 2,
    ensures
        r is Err,
        r->Err_0 is CreateUsers,
        r->Err_0->CreateUsers_0@ == failed_outcomes(s).map_values(|o: UserTaskOutcome| o->Failed_0),
        r->Err_0->CreateUsers_0@.len() == failed_outcomes(s).len(),
        error_message(r->Err_0) == "Multiple errors: "@ + joined(
            failed_outcomes(s).map_values(|o: UserTaskOutcome| user_error_message(o->Failed_0)),
            separator(),
        ),
        c1.action_state == c0.action_state,
{
    lemma_failures_of_failed(s);
    let errs = r->Err_0->CreateUsers_0@;
    assert(errs.map_values(|u: CreateUserError| user_error_message(u)) =~= failed_outcomes(
        s,
    ).map_values(|o: UserTaskOutcome| user_error_message(o->Failed_0)));
}

/// Reverting users of a completed composite where some user's removal
/// fails: the result is an error, the group and the composite stay
/// `Completed`, the users whose removal succeeded are `Reverted`, and the
/// others stay `Completed`.
pub proof fn lemma_revert_failure_keeps_group(
    c0: CreateUsersAndGroup,
    c1: CreateUsersAndGroup,
    s: Seq<UserTaskOutcome>,
    r: Result<(), CreateUsersAndGroupError>,
)
    requires
        c0.action_state == ActionState::Completed,
        c0.create_group.action_state == ActionState::Completed,
        c0.all_users_in(ActionState::Completed),
        users_reverted(c0, c1, s, r),
        crash_free(s),
        failed_outcomes(s).len() >= 1,
    ensures
        r is Err,
        c1.create_group.action_state == ActionState::Completed,
        c1.action_state == ActionState::Completed,
        forall|p: int|
            0 <= p < c1.create_users@.len() ==> (#[trigger] c1.create_users@[p]).action_state == if succeeded_in(s, p) {
                ActionState::Reverted
            } else {
                ActionState::Completed
            },
{
    lemma_failures_of_failed(s);
    assert forall|p: int| 0 <= p < c1.create_users@.len() implies (
    #[trigger] c1.create_users@[p]).action_state == if succeeded_in(s, p) {
        ActionState::Reverted
    } else {
        ActionState::Completed
    } by {
        assert(c0.create_users@[p].action_state == ActionState::Completed);
    }
}

/// The group of a composite is reported `Reverted` only once every user is
/// `Reverted`: removing the group is recorded only from a state where all
/// users are reverted, and leaves the users as they are.
pub proof fn lemma_group_reverted_after_users(
    c0: CreateUsersAndGroup,
    c1: CreateUsersAndGroup,
    outcome: Result<(), CommandError>,
    r: Result<(), CreateUsersAndGroupError>,
)
    requires
        c0.action_state == ActionState::Completed,
        c0.create_group.action_state == ActionState::Completed,
        c0.all_users_in(ActionState::Reverted),
        group_reverted(c0, c1, outcome, r),
    ensures
        c1.create_group.action_state == ActionState::Reverted ==> c1.all_users_in(ActionState::Reverted),
        c1.action_state == ActionState::Reverted ==> c1.create_group.action_state == ActionState::Reverted,
{
}

} // verus!
