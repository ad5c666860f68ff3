use vstd::prelude::*;
use vstd::string::*;

verus! {

/// Where packages are installed, one directory per package.
pub const INSTALL_ROOT: &'static str = "/usr/local/lib/apms/packages";

/// Where launchers are published.
pub const BIN_DIR: &'static str = "/usr/local/bin";

/// One filesystem operation of a plan. A plan is carried out in order and
/// stops at the first operation that fails.
#[derive(Clone, Debug, PartialEq, Eq)]
pub enum FsStep {
    /// Create a directory and its parents; nothing is done if it exists.
    CreateDirAll(String),
    /// Open a gzip-compressed tar archive and extract it into a directory,
    /// keeping the archive's paths.
    Unpack { archive: String, into: String },
    /// Remove a file or link if one is there.
    RemoveIfPresent(String),
    /// Create a symbolic link at `link` that points to `target`.
    Symlink { target: String, link: String },
    /// Remove a file.
    RemoveFile(String),
    /// Remove a directory and everything under it, if it is there.
    RemoveDirAll(String),
}

/// What a step does, over paths as character sequences.
pub enum FsOp {
    CreateDirAll(Seq<char>),
    Unpack { archive: Seq<char>, into: Seq<char> },
    RemoveIfPresent(Seq<char>),
    Symlink { target: Seq<char>, link: Seq<char> },
    RemoveFile(Seq<char>),
    RemoveDirAll(Seq<char>),
}

impl View for FsStep {
    type V = FsOp;

    open spec fn view(&self) -> FsOp {
        match self {
            FsStep::CreateDirAll(p) => FsOp::CreateDirAll(p@),
            FsStep::Unpack { archive, into } => FsOp::Unpack { archive: archive@, into: into@ },
            FsStep::RemoveIfPresent(p) => FsOp::RemoveIfPresent(p@),
            FsStep::Symlink { target, link } => FsOp::Symlink { target: target@, link: link@ },
            FsStep::RemoveFile(p) => FsOp::RemoveFile(p@),
            FsStep::RemoveDirAll(p) => FsOp::RemoveDirAll(p@),
        }
    }
}

/// The operations of a plan.
pub open spec fn ops(steps: Seq<FsStep>) -> Seq<FsOp> {
    steps.map_values(|s: FsStep| s@)
}

/// Whether `q` is `p` or lies under the directory `p`.
pub open spec fn under(p: Seq<char>, q: Seq<char>) -> bool {
    q == p || (p + "/"@).is_prefix_of(q)
}

/// Whether carrying out `s` removes the path `q`, where it is there.
pub open spec fn removes(s: FsOp, q: Seq<char>) -> bool {
    match s {
        FsOp::RemoveIfPresent(p) => q == p,
        FsOp::RemoveFile(p) => q == p,
        FsOp::RemoveDirAll(p) => under(p, q),
        _ => false,
    }
}

/// Whether `s` only removes paths.
pub open spec fn is_removal(s: FsOp) -> bool {
    s is RemoveIfPresent || s is RemoveFile || s is RemoveDirAll
}

/// The paths of `fs` that are left once every step of `steps`, all of them
/// removals, has been carried out.
pub open spec fn left_after(fs: Set<Seq<char>>, steps: Seq<FsOp>) -> Set<Seq<char>> {
    fs.filter(|q: Seq<char>| forall|i: int| 0 <= i < steps.len() ==> !removes(steps[i], q))
}

/// `a` and `b` joined by a slash.
pub open spec fn join(a: Seq<char>, b: Seq<char>) -> Seq<char> {
    a + "/"@ + b
}

pub fn join_path(a: &str, b: &str) -> (r: String)
    ensures
        r@ == join(a@, b@),
{
    let mut s = String::from_str(a);
    s.append("/");
    s.append(b);
    s
}

} // verus!
