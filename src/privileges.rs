use vstd::prelude::*;

verus! {

/// What to do about the process's privileges before touching any device.
#[derive(Debug, Clone, Copy, PartialEq, Eq, Structural)]
pub enum Privileges {
    /// Go on with the current identity.
    Keep,
    /// Switch the effective user and group ids to these, keeping only the capability to
    /// override file permissions.
    Drop {
        /// The user id to switch to.
        uid: u32,
        /// The group id to switch to.
        gid: u32,
    },
}

/// Contradictory or incomplete identity arguments.
#[derive(Debug, Clone, Copy, PartialEq, Eq, Structural)]
pub enum PrivilegeError {
    /// Only one of the user id and the group id was given.
    Incomplete,
    /// Running as root with neither id given.
    Missing,
}

impl PrivilegeError {
    /// The message for the error.
    pub fn message(&self) -> (r: &'static str)
        ensures
            r@ == (match *self {
                PrivilegeError::Incomplete => "Both uid and gid must be set"@,
                PrivilegeError::Missing => "Running as root, but user id is not set"@,
            }),
    {
        match self {
            PrivilegeError::Incomplete => "Both uid and gid must be set",
            PrivilegeError::Missing => "Running as root, but user id is not set",
        }
    }
}

/// Decides about privileges: a process that runs as root, unless told that this is
/// fine, must drop to the given user and group, and both must be given.
pub fn privilege_plan(root_is_ok: bool, is_root: bool, uid: Option<u32>, gid: Option<u32>) -> (r:
    Result<Privileges, PrivilegeError>)
    ensures
        (root_is_ok || !is_root) ==> r == Ok::<Privileges, PrivilegeError>(Privileges::Keep),
        (!root_is_ok && is_root) ==> r == match (uid, gid) {
            (Some(u), Some(g)) => Ok(Privileges::Drop { uid: u, gid: g }),
            (None, None) => Err(PrivilegeError::Missing),
            _ => Err(PrivilegeError::Incomplete),
        },
{
    if root_is_ok || !is_root {
        return Ok(Privileges::Keep);
    }
    match (uid, gid) {
        (Some(uid), Some(gid)) => Ok(Privileges::Drop { uid, gid }),
        (None, None) => Err(PrivilegeError::Missing),
        _ => Err(PrivilegeError::Incomplete),
    }
}

} // verus!
