use vstd::prelude::*;
use vstd::string::*;
use crate::fsplan::{FsStep, FsOp, ops};
use crate::install::{install_dir, install_dir_of, launcher_path, launcher_of};

verus! {

/// Why a package could not be deleted.
#[derive(Clone, Debug, PartialEq, Eq)]
pub enum DeleteError {
    /// The package has no install directory.
    NotInstalled(String),
    /// The launcher could not be removed.
    RemoveLink(String),
    /// The install directory could not be removed.
    RemoveDir(String),
}

/// The text reported for a delete error.
pub open spec fn delete_error_text(e: DeleteError) -> Seq<char> {
    match e {
        DeleteError::NotInstalled(name) => "Package '"@ + name@ + "' is not installed"@,
        DeleteError::RemoveLink(why) => "Failed to remove symlink: "@ + why@,
        DeleteError::RemoveDir(why) => "Failed to remove package directory: "@ + why@,
    }
}

/// The steps that delete an installed package.
pub open spec fn delete_plan_of(package_name: Seq<char>) -> Seq<FsOp> {
    seq![
        FsOp::RemoveIfPresent(launcher_of(package_name)),
        FsOp::RemoveDirAll(install_dir_of(package_name)),
    ]
}

/// The steps that delete an installed package: its launcher first, then its
/// install directory. `installed` tells whether the install directory is
/// there; where it is not, the package is not installed and there is
/// nothing to carry out.
pub fn delete(package_name: &str, installed: bool) -> (r: Result<Vec<FsStep>, DeleteError>)
    ensures
        !installed ==> (r matches Err(DeleteError::NotInstalled(n)) && n@ == package_name@),
        installed ==> (r matches Ok(plan) && ops(plan@) == delete_plan_of(package_name@)),
{
    if !installed {
        return Err(DeleteError::NotInstalled(String::from_str(package_name)));
    }
    let mut plan: Vec<FsStep> = Vec::new();
    plan.push(FsStep::RemoveIfPresent(launcher_path(package_name)));
    plan.push(FsStep::RemoveDirAll(install_dir(package_name)));
    assert(ops(plan@) =~= delete_plan_of(package_name@));
    Ok(plan)
}

impl DeleteError {
    /// The error for the failure of step `step` of the plan that `delete`
    /// gives.
    pub fn at_step(step: usize, reason: String) -> (r: DeleteError)
        requires
            step < 2,
        ensures
            step == 0 ==> r == DeleteError::RemoveLink(reason),
            step == 1 ==> r == DeleteError::RemoveDir(reason),
    {
        if step == 0 {
            DeleteError::RemoveLink(reason)
        } else {
            DeleteError::RemoveDir(reason)
        }
    }

    pub fn message(&self) -> (r: String)
        ensures
            r@ == delete_error_text(*self),
    {
        match self {
            DeleteError::NotInstalled(name) => {
                let mut s = String::from_str("Package '");
                s.append(name.as_str());
                s.append("' is not installed");
                s
            },
            DeleteError::RemoveLink(why) => {
                let mut s = String::from_str("Failed to remove symlink: ");
                s.append(why.as_str());
                s
            },
            DeleteError::RemoveDir(why) => {
                let mut s = String::from_str("Failed to remove package directory: ");
                s.append(why.as_str());
                s
            },
        }
    }
}

} // verus!
