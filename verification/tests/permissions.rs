use webgl_core::permissions::{
    allowed_in_nonsecure_contexts, prompt_user, Operation, PermissionName, Permissions,
    PermissionState,
};

#[test]
fn nonsecure_context_table_matches_the_registry() {
    assert!(allowed_in_nonsecure_contexts(&PermissionName::Geolocation));
    assert!(allowed_in_nonsecure_contexts(&PermissionName::Notifications));
    assert!(allowed_in_nonsecure_contexts(&PermissionName::Midi));
    assert!(!allowed_in_nonsecure_contexts(&PermissionName::Push));
    assert!(!allowed_in_nonsecure_contexts(&PermissionName::Camera));
    assert!(!allowed_in_nonsecure_contexts(&PermissionName::Microphone));
    assert!(!allowed_in_nonsecure_contexts(&PermissionName::Speaker));
    assert!(!allowed_in_nonsecure_contexts(&PermissionName::DeviceInfo));
    assert!(!allowed_in_nonsecure_contexts(&PermissionName::BackgroundSync));
    assert!(!allowed_in_nonsecure_contexts(&PermissionName::Bluetooth));
    assert!(!allowed_in_nonsecure_contexts(&PermissionName::PersistentStorage));
}

#[test]
fn headless_sessions_deny_without_asking() {
    assert_eq!(prompt_user(true, true), PermissionState::Denied);
    assert_eq!(prompt_user(true, false), PermissionState::Denied);
    assert_eq!(prompt_user(false, true), PermissionState::Granted);
    assert_eq!(prompt_user(false, false), PermissionState::Denied);
}

#[test]
fn a_nonsecure_allowed_permission_reports_prompt() {
    let mut p = Permissions::new();
    let state = p.get_descriptor_permission_state(
        PermissionName::Geolocation,
        false,
        PermissionState::Granted,
    );
    assert_eq!(state, PermissionState::Prompt);
}

#[test]
fn the_testing_preference_grants_guarded_permissions() {
    let mut p = Permissions::new();
    let state = p.get_descriptor_permission_state(
        PermissionName::Bluetooth,
        true,
        PermissionState::Denied,
    );
    assert_eq!(state, PermissionState::Granted);
}

#[test]
fn the_prompt_outcome_decides_and_is_remembered() {
    let mut p = Permissions::new_inherited();
    let first = p.get_descriptor_permission_state(
        PermissionName::Camera,
        false,
        PermissionState::Granted,
    );
    assert_eq!(first, PermissionState::Granted);
    // a remembered result wins over a fresh decision on a later query
    // that does not prompt
    let second = p.get_descriptor_permission_state(
        PermissionName::Camera,
        true,
        PermissionState::Denied,
    );
    assert_eq!(second, PermissionState::Granted);
}

#[test]
fn revoke_forgets_the_remembered_result() {
    let mut p = Permissions::new();
    let granted = p.manipulate(
        Operation::Request,
        PermissionName::Geolocation,
        false,
        PermissionState::Granted,
    );
    assert_eq!(granted, PermissionState::Granted);
    // revoking drops the stored grant; the fresh decision prompts again
    let after = p.manipulate(
        Operation::Revoke,
        PermissionName::Geolocation,
        false,
        PermissionState::Denied,
    );
    assert_eq!(after, PermissionState::Prompt);
}

#[test]
fn a_request_on_a_prompting_permission_asks_and_remembers() {
    let mut p = Permissions::new();
    let state = p.manipulate(
        Operation::Request,
        PermissionName::Notifications,
        false,
        PermissionState::Granted,
    );
    assert_eq!(state, PermissionState::Granted);
    let queried = p.manipulate(
        Operation::Query,
        PermissionName::Notifications,
        false,
        PermissionState::Denied,
    );
    assert_eq!(queried, PermissionState::Granted);
}
