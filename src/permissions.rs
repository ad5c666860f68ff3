use vstd::prelude::*;
use vstd::string::*;

verus! {

/// Why an operation that needs privileges cannot go on.
#[derive(Clone, Debug, PartialEq, Eq)]
pub enum PrivilegeError {
    NotRoot,
    SudoRequired,
    SystemError(String),
}

/// The text reported for a privilege error.
pub open spec fn privilege_error_text(e: PrivilegeError) -> Seq<char> {
    match e {
        PrivilegeError::NotRoot => "This operation requires root privileges. Please run with sudo."@,
        PrivilegeError::SudoRequired => "Permission denied. Please run with sudo."@,
        PrivilegeError::SystemError(why) => "System error: "@ + why@,
    }
}

impl PrivilegeError {
    pub fn message(&self) -> (r: String)
        ensures
            r@ == privilege_error_text(*self),
    {
        match self {
            PrivilegeError::NotRoot => String::from_str(
                "This operation requires root privileges. Please run with sudo.",
            ),
            PrivilegeError::SudoRequired => String::from_str("Permission denied. Please run with sudo."),
            PrivilegeError::SystemError(why) => {
                let mut s = String::from_str("System error: ");
                s.append(why.as_str());
                s
            },
        }
    }
}

/// The owner, group and permission bits of a path.
#[derive(Clone, Copy, Debug, PartialEq, Eq)]
pub struct FileOwnership {
    pub uid: u32,
    pub gid: u32,
    pub mode: u32,
}

/// Whether a process with effective user `euid` and group `egid` may write
/// to a path with the ownership `owner`; `None` where the path's metadata
/// could not be read. Root may write anywhere; otherwise the owner's, the
/// group's or the others' write bit decides, the first class that applies.
pub open spec fn may_write(owner: Option<FileOwnership>, euid: u32, egid: u32) -> bool {
    match owner {
        None => false,
        Some(o) => if euid == 0 {
            true
        } else if o.uid == euid {
            o.mode & 0o200 != 0
        } else if o.gid == egid {
            o.mode & 0o020 != 0
        } else {
            o.mode & 0o002 != 0
        },
    }
}

/// Privilege checks, on the effective ids of the process.
pub struct PermissionChecker;

impl PermissionChecker {
    /// Succeeds exactly for the root user.
    pub fn ensure_root(euid: u32) -> (r: Result<(), PrivilegeError>)
        ensures
            euid == 0 ==> r is Ok,
            euid != 0 ==> r == Err::<(), PrivilegeError>(PrivilegeError::NotRoot),
    {
        if euid != 0 {
            return Err(PrivilegeError::NotRoot);
        }
        Ok(())
    }

    pub fn can_write_to_path(owner: Option<FileOwnership>, euid: u32, egid: u32) -> (r: bool)
        ensures
            r == may_write(owner, euid, egid),
    {
        match owner {
            None => false,
            Some(o) => {
                if euid == 0 {
                    true
                } else if o.uid == euid {
                    o.mode & 0o200 != 0
                } else if o.gid == egid {
                    o.mode & 0o020 != 0
                } else {
                    o.mode & 0o002 != 0
                }
            },
        }
    }
}

} // verus!
