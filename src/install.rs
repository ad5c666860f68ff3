use vstd::prelude::*;
use vstd::string::*;
use crate::download::Package;
use crate::fsplan::{FsStep, FsOp, INSTALL_ROOT, BIN_DIR, join, join_path, ops, removes, is_removal, under, left_after};

verus! {

/// The install directory of a package.
pub open spec fn install_dir_of(name: Seq<char>) -> Seq<char> {
    join(INSTALL_ROOT@, name)
}

/// The launcher of a package.
pub open spec fn launcher_of(name: Seq<char>) -> Seq<char> {
    join(BIN_DIR@, name)
}

/// The program that the launcher points to: the entry named after the
/// package inside the archive's top directory `<name>-<version>`.
pub open spec fn entry_point_of(name: Seq<char>, version: Seq<char>) -> Seq<char> {
    join(join(install_dir_of(name), name + "-"@ + version), name)
}

pub fn install_dir(name: &str) -> (r: String)
    ensures
        r@ == install_dir_of(name@),
{
    join_path(INSTALL_ROOT, name)
}

pub fn launcher_path(name: &str) -> (r: String)
    ensures
        r@ == launcher_of(name@),
{
    join_path(BIN_DIR, name)
}

/// The steps that install a staged archive.
pub open spec fn install_plan_of(archive: Seq<char>, name: Seq<char>, version: Seq<char>) -> Seq<
    FsOp,
> {
    seq![
        FsOp::CreateDirAll(install_dir_of(name)),
        FsOp::Unpack { archive: archive, into: install_dir_of(name) },
        FsOp::CreateDirAll(BIN_DIR@),
        FsOp::RemoveIfPresent(launcher_of(name)),
        FsOp::Symlink { target: entry_point_of(name, version), link: launcher_of(name) },
    ]
}

/// The steps that install the staged archive `package_file` of `package`:
/// create the install directory, extract the archive into it, make sure the
/// launcher directory exists, remove a launcher left from before, and link
/// the launcher to the package's entry point.
pub fn install_package(package_file: &str, package: &Package) -> (r: Vec<FsStep>)
    ensures
        ops(r@) == install_plan_of(package_file@, package.name@, package.version@),
{
    let name = package.name.as_str();
    let dir = install_dir(name);
    let link = launcher_path(name);
    let mut top = package.name.clone();
    top.append("-");
    top.append(package.version.as_str());
    let top_dir = join_path(dir.as_str(), top.as_str());
    let entry = join_path(top_dir.as_str(), name);
    let mut plan: Vec<FsStep> = Vec::new();
    plan.push(FsStep::CreateDirAll(dir.clone()));
    plan.push(FsStep::Unpack { archive: String::from_str(package_file), into: dir });
    plan.push(FsStep::CreateDirAll(String::from_str(BIN_DIR)));
    plan.push(FsStep::RemoveIfPresent(link.clone()));
    plan.push(FsStep::Symlink { target: entry, link });
    assert(ops(plan@) =~= install_plan_of(package_file@, package.name@, package.version@));
    plan
}

/// The steps that clean up after a failed install.
pub open spec fn cleanup_plan_of(package_file: Seq<char>, package_name: Seq<char>) -> Seq<FsOp> {
    seq![FsOp::RemoveFile(package_file), FsOp::RemoveDirAll(install_dir_of(package_name))]
}

/// The steps that clean up after a failed install of `package_name`: remove
/// the staged archive, then the package's install directory.
pub fn cleanup_failed_install(package_file: &str, package_name: &str) -> (r: Vec<FsStep>)
    ensures
        ops(r@) == cleanup_plan_of(package_file@, package_name@),
{
    let mut plan: Vec<FsStep> = Vec::new();
    plan.push(FsStep::RemoveFile(String::from_str(package_file)));
    plan.push(FsStep::RemoveDirAll(install_dir(package_name)));
    assert(ops(plan@) =~= cleanup_plan_of(package_file@, package_name@));
    plan
}

/// Once the cleanup after a failed install has been carried out, whatever
/// the failed install left on disk, neither the staged archive nor the
/// package's install directory nor anything under it is left.
pub proof fn lemma_cleanup_complete(
    fs: Set<Seq<char>>,
    package_file: Seq<char>,
    package_name: Seq<char>,
)
    ensures
        ({
            let steps = cleanup_plan_of(package_file, package_name);
            &&& forall|i: int| 0 <= i < steps.len() ==> is_removal(#[trigger] steps[i])
            &&& !left_after(fs, steps).contains(package_file)
            &&& forall|q: Seq<char>|
                under(install_dir_of(package_name), q) ==> !(#[trigger] left_after(
                    fs,
                    steps,
                ).contains(q))
        }),
{
    let steps = cleanup_plan_of(package_file, package_name);
    assert(removes(steps[0], package_file));
    assert forall|q: Seq<char>|
        under(install_dir_of(package_name), q) implies !(#[trigger] left_after(fs, steps).contains(q)) by {
        assert(removes(steps[1], q));
    }
}

/// Which step of an install failed, and why.
#[derive(Clone, Debug, PartialEq, Eq)]
pub enum InstallError {
    CreateDir(String),
    OpenArchive(String),
    Extract(String),
    CreateBinDir(String),
    RemoveStaleLink(String),
    CreateLink(String),
}

/// The text reported for an install error.
pub open spec fn install_error_text(e: InstallError) -> Seq<char> {
    match e {
        InstallError::CreateDir(why) => "Failed to create installation directory: "@ + why@,
        InstallError::OpenArchive(why) => "Failed to open package file: "@ + why@,
        InstallError::Extract(why) => "Failed to extract package: "@ + why@,
        InstallError::CreateBinDir(why) => "Failed to create /usr/local/bin: "@ + why@,
        InstallError::RemoveStaleLink(why) => "Failed to remove existing symlink: "@ + why@,
        InstallError::CreateLink(why) => "Failed to create symlink: "@ + why@,
    }
}

fn prefixed(prefix: &str, why: &String) -> (r: String)
    ensures
        r@ == prefix@ + why@,
{
    let mut s = String::from_str(prefix);
    s.append(why.as_str());
    s
}

impl InstallError {
    /// The error for the failure of step `step` of the plan that
    /// `install_package` gives; for the extraction step, `archive_opened`
    /// tells a failure to open the archive from one while extracting it.
    pub fn at_step(step: usize, archive_opened: bool, reason: String) -> (r: InstallError)
        requires
            step < 5,
        ensures
            step == 0 ==> r == InstallError::CreateDir(reason),
            step == 1 && !archive_opened ==> r == InstallError::OpenArchive(reason),
            step == 1 && archive_opened ==> r == InstallError::Extract(reason),
            step == 2 ==> r == InstallError::CreateBinDir(reason),
            step == 3 ==> r == InstallError::RemoveStaleLink(reason),
            step == 4 ==> r == InstallError::CreateLink(reason),
    {
        if step == 0 {
            InstallError::CreateDir(reason)
        } else if step == 1 {
            if archive_opened {
                InstallError::Extract(reason)
            } else {
                InstallError::OpenArchive(reason)
            }
        } else if step == 2 {
            InstallError::CreateBinDir(reason)
        } else if step == 3 {
            InstallError::RemoveStaleLink(reason)
        } else {
            InstallError::CreateLink(reason)
        }
    }

    pub fn message(&self) -> (r: String)
        ensures
            r@ == install_error_text(*self),
    {
        match self {
            InstallError::CreateDir(why) => prefixed("Failed to create installation directory: ", why),
            InstallError::OpenArchive(why) => prefixed("Failed to open package file: ", why),
            InstallError::Extract(why) => prefixed("Failed to extract package: ", why),
            InstallError::CreateBinDir(why) => prefixed("Failed to create /usr/local/bin: ", why),
            InstallError::RemoveStaleLink(why) => prefixed("Failed to remove existing symlink: ", why),
            InstallError::CreateLink(why) => prefixed("Failed to create symlink: ", why),
        }
    }
}

/// The steps that publish a launcher for each program of `programs`, given
/// as its path and its file name: make sure the launcher directory exists,
/// then for each program remove a launcher of that name left from before and
/// link a new one to the program.
pub open spec fn links_plan_of(programs: Seq<(String, String)>) -> Seq<FsOp>
    decreases programs.len(),
{
    if programs.len() == 0 {
        seq![FsOp::CreateDirAll(BIN_DIR@)]
    } else {
        let (path, file) = programs.last();
        links_plan_of(programs.drop_last()) + seq![
            FsOp::RemoveIfPresent(join(BIN_DIR@, file@)),
            FsOp::Symlink { target: path@, link: join(BIN_DIR@, file@) },
        ]
    }
}

pub fn create_symlinks(programs: &Vec<(String, String)>) -> (r: Vec<FsStep>)
    ensures
        ops(r@) == links_plan_of(programs@),
{
    let mut plan: Vec<FsStep> = Vec::new();
    plan.push(FsStep::CreateDirAll(String::from_str(BIN_DIR)));
    assert(ops(plan@) =~= links_plan_of(programs@.take(0)));
    let mut i: usize = 0;
    while i < programs.len()
        invariant
            i <= programs@.len(),
            ops(plan@) == links_plan_of(programs@.take(i as int)),
        decreases programs@.len() - i,
    {
        let link = join_path(BIN_DIR, programs[i].1.as_str());
        let ghost before = plan@;
        plan.push(FsStep::RemoveIfPresent(link.clone()));
        plan.push(FsStep::Symlink { target: programs[i].0.clone(), link });
        assert(programs@.take(i + 1).drop_last() == programs@.take(i as int));
        assert(ops(plan@) =~= ops(before) + seq![
            FsOp::RemoveIfPresent(join(BIN_DIR@, programs@[i as int].1@)),
            FsOp::Symlink { target: programs@[i as int].0@, link: join(BIN_DIR@, programs@[i as int].1@) },
        ]);
        i = i + 1;
    }
    assert(programs@.take(programs@.len() as int) == programs@);
    plan
}

} // verus!
