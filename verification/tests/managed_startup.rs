use userspace::command_line::{
    canonical_executable_argument, numeric_executable_id, numeric_service_id, split_command,
};
use userspace::managed_startup::ManagedToolStartOrigin;

#[test]
fn numeric_service_identity_uses_canonical_uuid_prefix_order() {
    assert_eq!(
        numeric_service_id([1, 2, 3, 4, 5, 6, 7, 8, 9, 10, 11, 12, 13, 14, 15, 16,]),
        0x0807_0605_0403_0201
    );
}

#[test]
fn executable_identity_is_stable_nonzero_and_spelling_sensitive() {
    assert_eq!(numeric_executable_id(b"cat"), numeric_executable_id(b"cat"));
    assert_ne!(numeric_executable_id(b"cat"), 0);
    assert_ne!(
        numeric_executable_id(b"cat"),
        numeric_executable_id(b"/cat")
    );
}

#[test]
fn exec_handoffs_have_a_distinct_authenticated_launch_flag() {
    assert_eq!(ManagedToolStartOrigin::Parent.launch_flags(), 0);
    assert_eq!(ManagedToolStartOrigin::Exec.launch_flags(), 1);
}

#[test]
fn managed_command_split_matches_the_legacy_loader_contract() {
    let arguments = split_command(b"  runtime-probe   managed-startup ").unwrap();
    assert_eq!(
        &arguments[..],
        &[&b"runtime-probe"[..], &b"managed-startup"[..]]
    );
    assert_eq!(split_command(b" \t\n"), None);
}

#[test]
fn relative_executable_arguments_match_kernel_canonicalization() {
    assert_eq!(
        canonical_executable_argument(b"cat", b"/tmp", 16),
        Some(b"/cat".to_vec())
    );
    assert_eq!(
        canonical_executable_argument(b"/cat", b"/tmp", 16),
        Some(b"/cat".to_vec())
    );
    assert_eq!(
        canonical_executable_argument(b"../exec-target", b"/tmp", 16),
        Some(b"/exec-target".to_vec())
    );
    assert_eq!(
        canonical_executable_argument(b"./bin/../cat", b"/System", 16),
        Some(b"/System/cat".to_vec())
    );
}
