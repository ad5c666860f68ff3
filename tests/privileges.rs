use apms::permissions::{FileOwnership, PermissionChecker, PrivilegeError};

#[test]
fn ensure_root_accepts_only_uid_zero() {
    assert_eq!(PermissionChecker::ensure_root(0), Ok(()));
    assert_eq!(PermissionChecker::ensure_root(1000), Err(PrivilegeError::NotRoot));
}

#[test]
fn write_permission_follows_the_first_matching_class() {
    let o = |uid, gid, mode| Some(FileOwnership { uid, gid, mode });
    assert!(!PermissionChecker::can_write_to_path(None, 0, 0));
    assert!(PermissionChecker::can_write_to_path(o(5, 5, 0o000), 0, 0));
    assert!(PermissionChecker::can_write_to_path(o(1000, 5, 0o644), 1000, 7));
    assert!(!PermissionChecker::can_write_to_path(o(1000, 7, 0o464), 1000, 7));
    assert!(PermissionChecker::can_write_to_path(o(1, 7, 0o464), 1000, 7));
    assert!(!PermissionChecker::can_write_to_path(o(1, 7, 0o646), 1000, 7));
    assert!(PermissionChecker::can_write_to_path(o(1, 2, 0o446), 1000, 7));
    assert!(!PermissionChecker::can_write_to_path(o(1, 2, 0o775), 1000, 7));
}

#[test]
fn privilege_messages() {
    assert_eq!(
        PrivilegeError::NotRoot.message(),
        "This operation requires root privileges. Please run with sudo."
    );
    assert_eq!(PrivilegeError::SudoRequired.message(), "Permission denied. Please run with sudo.");
    assert_eq!(PrivilegeError::SystemError("x".to_string()).message(), "System error: x");
}
