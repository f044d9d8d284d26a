use usbctl::privileges::{privilege_plan, PrivilegeError, Privileges};

#[test]
fn non_root_keeps_identity() {
    assert_eq!(privilege_plan(false, false, None, None), Ok(Privileges::Keep));
    assert_eq!(privilege_plan(false, false, Some(1000), None), Ok(Privileges::Keep));
}

#[test]
fn root_allowed_keeps_identity() {
    assert_eq!(privilege_plan(true, true, None, None), Ok(Privileges::Keep));
}

#[test]
fn root_drops_to_given_ids() {
    assert_eq!(
        privilege_plan(false, true, Some(1000), Some(100)),
        Ok(Privileges::Drop { uid: 1000, gid: 100 })
    );
}

#[test]
fn root_needs_both_ids() {
    assert_eq!(privilege_plan(false, true, Some(1000), None), Err(PrivilegeError::Incomplete));
    assert_eq!(privilege_plan(false, true, None, Some(100)), Err(PrivilegeError::Incomplete));
    assert_eq!(PrivilegeError::Incomplete.message(), "Both uid and gid must be set");
}

#[test]
fn root_without_ids_is_refused() {
    assert_eq!(privilege_plan(false, true, None, None), Err(PrivilegeError::Missing));
    assert_eq!(PrivilegeError::Missing.message(), "Running as root, but user id is not set");
}
