//! Permission-state bookkeeping for the host page.
//!
//! The decision rules live here; showing a dialog and reading preferences
//! are outside work, so the caller passes the prompt's outcome and the
//! testing preference in as plain values.

use vstd::prelude::*;

verus! {

/// The permission names of the host's permission registry.
#[derive(Clone, Copy, Debug, PartialEq, Eq, Structural)]
pub enum PermissionName {
    Geolocation,
    Notifications,
    Push,
    Midi,
    Camera,
    Microphone,
    Speaker,
    DeviceInfo,
    BackgroundSync,
    Bluetooth,
    PersistentStorage,
}

/// The three states a permission can be in.
#[derive(Clone, Copy, Debug, PartialEq, Eq, Structural)]
pub enum PermissionState {
    Granted,
    Denied,
    Prompt,
}

/// The operations `manipulate` dispatches on.
#[derive(Clone, Copy, Debug, PartialEq, Eq, Structural)]
pub enum Operation {
    Query,
    Request,
    Revoke,
}

/// The number of permission names.
pub const PERMISSION_COUNT: usize = 11;

/// The position a permission name holds in the invocation-results store.
pub open spec fn spec_perm_index(name: PermissionName) -> int {
    match name {
        PermissionName::Geolocation => 0,
        PermissionName::Notifications => 1,
        PermissionName::Push => 2,
        PermissionName::Midi => 3,
        PermissionName::Camera => 4,
        PermissionName::Microphone => 5,
        PermissionName::Speaker => 6,
        PermissionName::DeviceInfo => 7,
        PermissionName::BackgroundSync => 8,
        PermissionName::Bluetooth => 9,
        PermissionName::PersistentStorage => 10,
    }
}

/// The position a permission name holds in the invocation-results store.
pub fn perm_index(name: PermissionName) -> (r: usize)
    ensures
        r == spec_perm_index(name),
        r < PERMISSION_COUNT,
{
    match name {
        PermissionName::Geolocation => 0,
        PermissionName::Notifications => 1,
        PermissionName::Push => 2,
        PermissionName::Midi => 3,
        PermissionName::Camera => 4,
        PermissionName::Microphone => 5,
        PermissionName::Speaker => 6,
        PermissionName::DeviceInfo => 7,
        PermissionName::BackgroundSync => 8,
        PermissionName::Bluetooth => 9,
        PermissionName::PersistentStorage => 10,
    }
}

/// Whether a permission may be used from a non-secure context.
pub open spec fn spec_allowed_in_nonsecure_contexts(name: PermissionName) -> bool {
    match name {
        PermissionName::Geolocation => true,
        PermissionName::Notifications => true,
        PermissionName::Push => false,
        PermissionName::Midi => true,
        PermissionName::Camera => false,
        PermissionName::Microphone => false,
        PermissionName::Speaker => false,
        PermissionName::DeviceInfo => false,
        PermissionName::BackgroundSync => false,
        PermissionName::Bluetooth => false,
        PermissionName::PersistentStorage => false,
    }
}

/// Whether a permission may be used from a non-secure context.
pub fn allowed_in_nonsecure_contexts(permission_name: &PermissionName) -> (r: bool)
    ensures
        r == spec_allowed_in_nonsecure_contexts(*permission_name),
{
    match *permission_name {
        PermissionName::Geolocation => true,
        PermissionName::Notifications => true,
        PermissionName::Push => false,
        PermissionName::Midi => true,
        PermissionName::Camera => false,
        PermissionName::Microphone => false,
        PermissionName::Speaker => false,
        PermissionName::DeviceInfo => false,
        PermissionName::BackgroundSync => false,
        PermissionName::Bluetooth => false,
        PermissionName::PersistentStorage => false,
    }
}

/// How a permission prompt resolves: a headless session denies without
/// asking; otherwise the user's answer decides.
pub fn prompt_user(headless: bool, answered_yes: bool) -> (r: PermissionState)
    ensures
        r == spec_prompt_user(headless, answered_yes),
{
    if headless {
        PermissionState::Denied
    } else if answered_yes {
        PermissionState::Granted
    } else {
        PermissionState::Denied
    }
}

/// The value `prompt_user` returns.
pub open spec fn spec_prompt_user(headless: bool, answered_yes: bool) -> PermissionState {
    if headless {
        PermissionState::Denied
    } else if answered_yes {
        PermissionState::Granted
    } else {
        PermissionState::Denied
    }
}

/// The permission registry: one remembered invocation result per
/// permission name.
pub struct Permissions {
    pub results: Vec<Option<PermissionState>>,
}

/// What `get_descriptor_permission_state` decides before any remembered
/// result is consulted: a permission allowed in non-secure contexts
/// prompts; otherwise the testing preference grants, or the user is asked.
pub open spec fn spec_fresh_state(
    name: PermissionName,
    testing_pref: bool,
    prompt_outcome: PermissionState,
) -> PermissionState {
    if spec_allowed_in_nonsecure_contexts(name) {
        PermissionState::Prompt
    } else if testing_pref {
        PermissionState::Granted
    } else {
        prompt_outcome
    }
}

/// The state a query decides, over a given store: the remembered result
/// where one applies, else the fresh decision. On the prompting branch
/// the remembered entry is dropped first, so it never applies there.
pub open spec fn spec_query_result(
    results: Seq<Option<PermissionState>>,
    name: PermissionName,
    testing_pref: bool,
    prompt_outcome: PermissionState,
) -> PermissionState {
    let asked = !spec_allowed_in_nonsecure_contexts(name) && !testing_pref;
    let prior = if asked {
        None
    } else {
        results[spec_perm_index(name)]
    };
    match prior {
        Some(remembered) => remembered,
        None => spec_fresh_state(name, testing_pref, prompt_outcome),
    }
}

/// The store after a query: unchanged where a remembered result applied,
/// else the fresh decision is remembered.
pub open spec fn spec_query_store(
    results: Seq<Option<PermissionState>>,
    name: PermissionName,
    testing_pref: bool,
    prompt_outcome: PermissionState,
) -> Seq<Option<PermissionState>> {
    let asked = !spec_allowed_in_nonsecure_contexts(name) && !testing_pref;
    let prior = if asked {
        None
    } else {
        results[spec_perm_index(name)]
    };
    match prior {
        Some(remembered) => results,
        None => results.update(
            spec_perm_index(name),
            Some(spec_fresh_state(name, testing_pref, prompt_outcome)),
        ),
    }
}

impl Permissions {
    /// The registry is full-sized.
    pub open spec fn wf(self) -> bool {
        self.results@.len() == PERMISSION_COUNT
    }

    /// The remembered result for a name.
    pub open spec fn spec_result(self, name: PermissionName) -> Option<PermissionState> {
        self.results@[spec_perm_index(name)]
    }

    /// An empty registry: nothing remembered yet.
    pub fn new_inherited() -> (r: Permissions)
        ensures
            r.wf(),
            forall|i: int| 0 <= i < r.results@.len() ==> r.results@[i] is None,
    {
        let mut results: Vec<Option<PermissionState>> = Vec::new();
        let mut i: usize = 0;
        while i < PERMISSION_COUNT
            invariant
                i <= PERMISSION_COUNT,
                results@.len() == i,
                forall|j: int| 0 <= j < results@.len() ==> results@[j] is None,
            decreases PERMISSION_COUNT - i,
        {
            results.push(None);
            i = i + 1;
        }
        Permissions { results }
    }

    /// Creates the registry for a global scope.
    pub fn new() -> (r: Permissions)
        ensures
            r.wf(),
            forall|i: int| 0 <= i < r.results@.len() ==> r.results@[i] is None,
    {
        Permissions::new_inherited()
    }

    /// Decides the permission state for a descriptor. A permission
    /// allowed in non-secure contexts reports `Prompt`; otherwise the
    /// testing preference grants, or the remembered entry is dropped and
    /// the prompt's outcome decides. A result remembered from an earlier
    /// invocation wins; the decision is remembered for the next call.
    pub fn get_descriptor_permission_state(
        &mut self,
        permission_name: PermissionName,
        testing_pref: bool,
        prompt_outcome: PermissionState,
    ) -> (r: PermissionState)
        requires
            old(self).wf(),
        ensures
            final(self).wf(),
            r == spec_query_result(old(self).results@, permission_name, testing_pref,
            prompt_outcome),
            final(self).results@ == spec_query_store(
                old(self).results@,
                permission_name,
                testing_pref,
                prompt_outcome,
            ),
    {
        let idx = perm_index(permission_name);
        let state: PermissionState;
        let asked: bool;
        if allowed_in_nonsecure_contexts(&permission_name) {
            state = PermissionState::Prompt;
            asked = false;
        } else if testing_pref {
            state = PermissionState::Granted;
            asked = false;
        } else {
            // the remembered entry is dropped before the user is asked
            self.results.set(idx, None);
            state = prompt_outcome;
            asked = true;
        }
        match self.results[idx] {
            Some(prev_result) if !asked => {
                return prev_result;
            },
            _ => (),
        }
        self.results.set(idx, Some(state));
        state
    }

    /// Dispatches one permissions operation. A query reports the decided
    /// state; a request that would prompt asks and remembers the outcome;
    /// a revoke forgets the remembered result and reports the state
    /// decided afresh.
    pub fn manipulate(
        &mut self,
        op: Operation,
        permission_name: PermissionName,
        testing_pref: bool,
        prompt_outcome: PermissionState,
    ) -> (r: PermissionState)
        requires
            old(self).wf(),
        ensures
            final(self).wf(),
            ({
                let idx = spec_perm_index(permission_name);
                let s0 = old(self).results@;
                match op {
                    Operation::Query => r == spec_query_result(s0, permission_name, testing_pref,
                    prompt_outcome) && final(self).results@ == spec_query_store(
                        s0,
                        permission_name,
                        testing_pref,
                        prompt_outcome,
                    ),
                    Operation::Request => ({
                        let first = spec_query_result(s0, permission_name, testing_pref,
                        prompt_outcome);
                        let s1 = spec_query_store(s0, permission_name, testing_pref,
                        prompt_outcome);
                        if first == PermissionState::Prompt {
                            r == prompt_outcome && final(self).results@ == s1.update(
                                idx,
                                Some(prompt_outcome),
                            )
                        } else {
                            r == first && final(self).results@ == s1
                        }
                    }),
                    Operation::Revoke => ({
                        let s1 = s0.update(idx, None);
                        r == spec_query_result(s1, permission_name, testing_pref, prompt_outcome)
                            && final(self).results@ == spec_query_store(
                            s1,
                            permission_name,
                            testing_pref,
                            prompt_outcome,
                        )
                    }),
                }
            }),
    {
        match op {
            Operation::Query => {
                self.get_descriptor_permission_state(permission_name, testing_pref, prompt_outcome)
            },
            Operation::Request => {
                let first = self.get_descriptor_permission_state(
                    permission_name,
                    testing_pref,
                    prompt_outcome,
                );
                match first {
                    PermissionState::Prompt => {
                        let idx = perm_index(permission_name);
                        self.results.set(idx, Some(prompt_outcome));
                        prompt_outcome
                    },
                    _ => first,
                }
            },
            Operation::Revoke => {
                let idx = perm_index(permission_name);
                self.results.set(idx, None);
                self.get_descriptor_permission_state(permission_name, testing_pref, prompt_outcome)
            },
        }
    }
}

} // verus!
