use vstd::prelude::*;
use vstd::string::*;
use crate::mirrors::{Mirror, MirrorList, ordered, copy_mirror};
use crate::fsplan::{join, join_path};

verus! {

/// Package metadata as a mirror describes it.
#[derive(Clone, Debug, PartialEq, Eq)]
pub struct Package {
    pub name: String,
    pub version: String,
    pub download_url: String,
}

/// What one mirror answered to a request.
#[derive(Clone, Debug, PartialEq, Eq)]
pub enum Reply {
    /// A success status, with the requested document or archive.
    Served,
    /// A status other than success.
    NotFound,
    /// The request did not complete; the text says why.
    Unreachable(String),
}

/// Why a fetch over the mirrors failed.
#[derive(Clone, Debug, PartialEq, Eq)]
pub enum FetchError {
    /// No mirror is enabled.
    NoMirrors,
    /// Every mirror failed; this is the reason the last one gave.
    AllFailed(String),
    /// A mirror served a metadata document that could not be read.
    BadMetadata(String),
    /// The archive could not be stored locally.
    Storage(String),
}

/// The failure reason recorded for mirror `m` after answering `r`.
pub open spec fn failure_reason(m: Mirror, r: Reply) -> Seq<char> {
    match r {
        Reply::Unreachable(e) => "Mirror "@ + m.name@ + " failed: "@ + e@,
        _ => "Package not found on mirror: "@ + m.name@,
    }
}

/// The text reported for a fetch error.
pub open spec fn fetch_error_text(e: FetchError) -> Seq<char> {
    match e {
        FetchError::NoMirrors => "No enabled mirrors found"@,
        FetchError::AllFailed(reason) => reason@,
        FetchError::BadMetadata(why) => "Failed to parse package information: "@ + why@,
        FetchError::Storage(why) => why@,
    }
}

impl FetchError {
    pub fn message(&self) -> (r: String)
        ensures
            r@ == fetch_error_text(*self),
    {
        match self {
            FetchError::NoMirrors => String::from_str("No enabled mirrors found"),
            FetchError::AllFailed(reason) => reason.clone(),
            FetchError::BadMetadata(why) => {
                let mut s = String::from_str("Failed to parse package information: ");
                s.append(why.as_str());
                s
            },
            FetchError::Storage(why) => why.clone(),
        }
    }
}

/// The state of a walk over the mirrors: which ones were tried, the reason
/// the last failure gave, and the mirror that served, if one did.
pub struct WalkState {
    pub mirrors: Seq<Mirror>,
    pub tried: nat,
    pub last_error: Seq<char>,
    pub found: Option<nat>,
}

/// A walk that has tried no mirror yet.
pub open spec fn walk_start(mirrors: Seq<Mirror>) -> WalkState {
    WalkState { mirrors: ordered(mirrors), tried: 0, last_error: Seq::empty(), found: None }
}

/// The walk after the mirror it was at answered `r`.
pub open spec fn walk_step(w: WalkState, r: Reply) -> WalkState {
    match r {
        Reply::Served => WalkState { found: Some(w.tried), ..w },
        _ => WalkState {
            tried: w.tried + 1,
            last_error: failure_reason(w.mirrors[w.tried as int], r),
            ..w
        },
    }
}

/// Whether the walk still has a mirror to try.
pub open spec fn walk_open(w: WalkState) -> bool {
    w.found is None && w.tried < w.mirrors.len()
}

/// The walk after the answers `rs`, one per attempt, for as long as it
/// still tries mirrors; answers beyond that are never asked for.
pub open spec fn walk_feed(w: WalkState, rs: Seq<Reply>) -> WalkState
    decreases rs.len(),
{
    if rs.len() == 0 || !walk_open(w) {
        w
    } else {
        walk_feed(walk_step(w, rs[0]), rs.drop_first())
    }
}

/// What a walk does next.
#[derive(Clone, Debug, PartialEq, Eq)]
pub enum Next {
    /// Request from the mirror at this position of the walk's order.
    Try(usize),
    /// The mirror at this position served: use its answer.
    Use(usize),
    /// Stop with this error.
    GiveUp(FetchError),
}

/// Fallback over the enabled mirrors, highest priority first: each is tried
/// in turn until one serves.
pub struct MirrorWalk {
    mirrors: Vec<Mirror>,
    tried: usize,
    last_error: String,
    found: Option<usize>,
}

impl View for MirrorWalk {
    type V = WalkState;

    closed spec fn view(&self) -> WalkState {
        WalkState {
            mirrors: self.mirrors@,
            tried: self.tried as nat,
            last_error: self.last_error@,
            found: match self.found {
                Some(i) => Some(i as nat),
                None => None,
            },
        }
    }
}

impl MirrorWalk {
    pub closed spec fn wf(&self) -> bool {
        &&& self.tried <= self.mirrors.len()
        &&& self.found matches Some(i) ==> i == self.tried && i < self.mirrors.len()
    }

    pub fn start(list: &MirrorList) -> (r: MirrorWalk)
        ensures
            r.wf(),
            r@ == walk_start(list.mirrors@),
    {
        MirrorWalk { mirrors: list.get_mirrors(), tried: 0, last_error: String::new(), found: None }
    }

    /// The mirror at position `i` of the walk's order.
    pub fn mirror(&self, i: usize) -> (r: Mirror)
        requires
            i < self@.mirrors.len(),
        ensures
            r == self@.mirrors[i as int],
    {
        copy_mirror(&self.mirrors[i])
    }

    pub fn next(&self) -> (r: Next)
        requires
            self.wf(),
        ensures
            r matches Next::Try(i) ==> walk_open(self@) && i == self@.tried,
            r matches Next::Use(i) ==> self@.found == Some(i as nat),
            r matches Next::GiveUp(e) ==> self@.found is None && !walk_open(self@) && (
            self@.mirrors.len() == 0 ==> e is NoMirrors) && (self@.mirrors.len() > 0 ==> e is AllFailed
                && e->AllFailed_0@ == self@.last_error),
    {
        match self.found {
            Some(i) => Next::Use(i),
            None => {
                if self.tried < self.mirrors.len() {
                    Next::Try(self.tried)
                } else if self.mirrors.len() == 0 {
                    Next::GiveUp(FetchError::NoMirrors)
                } else {
                    Next::GiveUp(FetchError::AllFailed(self.last_error.clone()))
                }
            },
        }
    }

    /// Records the answer of the mirror that `next` said to try.
    pub fn answer(&mut self, reply: Reply)
        requires
            old(self).wf(),
            walk_open(old(self)@),
        ensures
            final(self).wf(),
            final(self)@ == walk_step(old(self)@, reply),
    {
        match reply {
            Reply::Served => {
                self.found = Some(self.tried);
            },
            _ => {
                let reason = failure_text(&self.mirrors[self.tried], &reply);
                self.last_error = reason;
                self.tried = self.tried + 1;
            },
        }
    }
}

fn failure_text(m: &Mirror, r: &Reply) -> (s: String)
    ensures
        s@ == failure_reason(*m, *r),
{
    match r {
        Reply::Unreachable(e) => {
            let mut s = String::from_str("Mirror ");
            s.append(m.name.as_str());
            s.append(" failed: ");
            s.append(e.as_str());
            s
        },
        _ => {
            let mut s = String::from_str("Package not found on mirror: ");
            s.append(m.name.as_str());
            s
        },
    }
}

/// Where `first` is the position of the first mirror to serve, the walk
/// tries the mirrors before it, then that one, and no more: it ends there
/// with that mirror's answer, whatever later answers would have been.
pub proof fn lemma_first_success_wins(mirrors: Seq<Mirror>, rs: Seq<Reply>, first: int)
    requires
        0 <= first < rs.len(),
        first < ordered(mirrors).len(),
        rs[first] is Served,
        forall|i: int| 0 <= i < first ==> !(rs[i] is Served),
    ensures
        walk_feed(walk_start(mirrors), rs).found == Some(first as nat),
        walk_feed(walk_start(mirrors), rs).tried == first,
        walk_feed(walk_start(mirrors), rs) == walk_feed(walk_start(mirrors), rs.take(first + 1)),
{
    lemma_feed_until_served(walk_start(mirrors), rs, first);
}

proof fn lemma_feed_until_served(w: WalkState, rs: Seq<Reply>, k: int)
    requires
        w.found is None,
        0 <= k < rs.len(),
        w.tried + k < w.mirrors.len(),
        rs[k] is Served,
        forall|i: int| 0 <= i < k ==> !(rs[i] is Served),
    ensures
        walk_feed(w, rs).found == Some((w.tried + k) as nat),
        walk_feed(w, rs).tried == w.tried + k,
        walk_feed(w, rs) == walk_feed(w, rs.take(k + 1)),
    decreases k,
{
    let w1 = walk_step(w, rs[0]);
    let t = rs.take(k + 1);
    assert(t[0] == rs[0]);
    if k == 0 {
        assert(walk_feed(w1, rs.drop_first()) == w1);
        assert(walk_feed(w1, t.drop_first()) == w1);
    } else {
        assert(forall|i: int| 0 <= i < k - 1 ==> rs.drop_first()[i] == rs[i + 1]);
        lemma_feed_until_served(w1, rs.drop_first(), k - 1);
        assert(t.drop_first() == rs.drop_first().take(k));
    }
}

/// Where every enabled mirror fails, the walk tries them all, has none
/// left to try, and keeps the reason that the last one gave: the error it
/// then gives up with reports that reason exactly.
pub proof fn lemma_all_failed_keeps_last(mirrors: Seq<Mirror>, rs: Seq<Reply>)
    requires
        rs.len() == ordered(mirrors).len(),
        rs.len() > 0,
        forall|i: int| 0 <= i < rs.len() ==> !(rs[i] is Served),
    ensures
        walk_feed(walk_start(mirrors), rs).found is None,
        !walk_open(walk_feed(walk_start(mirrors), rs)),
        walk_feed(walk_start(mirrors), rs).tried == rs.len(),
        walk_feed(walk_start(mirrors), rs).last_error == failure_reason(
            ordered(mirrors).last(),
            rs.last(),
        ),
{
    lemma_feed_all_failed(walk_start(mirrors), rs);
}

proof fn lemma_feed_all_failed(w: WalkState, rs: Seq<Reply>)
    requires
        w.found is None,
        w.tried + rs.len() == w.mirrors.len(),
        rs.len() > 0,
        forall|i: int| 0 <= i < rs.len() ==> !(rs[i] is Served),
    ensures
        walk_feed(w, rs).found is None,
        walk_feed(w, rs).mirrors == w.mirrors,
        walk_feed(w, rs).tried == w.mirrors.len(),
        walk_feed(w, rs).last_error == failure_reason(w.mirrors.last(), rs.last()),
    decreases rs.len(),
{
    let w1 = walk_step(w, rs[0]);
    assert(!(rs[0] is Served));
    if rs.len() == 1 {
        assert(walk_feed(w1, rs.drop_first()) == w1);
    } else {
        assert(forall|i: int| 0 <= i < rs.len() - 1 ==> rs.drop_first()[i] == rs[i + 1]);
        lemma_feed_all_failed(w1, rs.drop_first());
    }
}

/// Whether `c` may stand in a URL scheme after its first letter.
pub open spec fn scheme_char(c: char) -> bool {
    ('a' <= c <= 'z') || ('A' <= c <= 'Z') || ('0' <= c <= '9') || c == '+' || c == '-' || c
        == '.'
}

/// Whether `u` begins with a scheme (`http:`, `https:`, ...): a letter, then
/// letters, digits, `+`, `-` or `.`, then a colon.
pub open spec fn has_scheme(u: Seq<char>) -> bool {
    exists|i: int|
        #![trigger u[i]]
        0 < i < u.len() && u[i] == ':' && (('a' <= u[0] <= 'z') || ('A' <= u[0] <= 'Z')) && (
        forall|j: int| 0 < j < i ==> scheme_char(#[trigger] u[j]))
}

/// The URL of a package's metadata document on a mirror.
pub open spec fn metadata_url_of(mirror_url: Seq<char>, name: Seq<char>) -> Seq<char> {
    mirror_url + "/packages/"@ + name + ".json"@
}

/// The URL of a package's archive on a mirror: the download URL as it is
/// where it is absolute, else joined to the mirror's URL.
pub open spec fn archive_url_of(mirror_url: Seq<char>, download_url: Seq<char>) -> Seq<char> {
    if has_scheme(download_url) {
        download_url
    } else {
        mirror_url + "/"@ + download_url
    }
}

pub fn metadata_url(mirror: &Mirror, package_name: &str) -> (r: String)
    ensures
        r@ == metadata_url_of(mirror.url@, package_name@),
{
    let mut s = mirror.url.clone();
    s.append("/packages/");
    s.append(package_name);
    s.append(".json");
    s
}

pub fn archive_url(mirror: &Mirror, package: &Package) -> (r: String)
    ensures
        r@ == archive_url_of(mirror.url@, package.download_url@),
{
    if starts_with_scheme(package.download_url.as_str()) {
        package.download_url.clone()
    } else {
        let mut s = mirror.url.clone();
        s.append("/");
        s.append(package.download_url.as_str());
        s
    }
}

pub fn starts_with_scheme(u: &str) -> (r: bool)
    ensures
        r == has_scheme(u@),
{
    let n = u.unicode_len();
    if n == 0 {
        return false;
    }
    let c0 = u.get_char(0);
    if !(('a' <= c0 && c0 <= 'z') || ('A' <= c0 && c0 <= 'Z')) {
        assert(!has_scheme(u@));
        return false;
    }
    let mut i: usize = 1;
    while i < n
        invariant
            n == u@.len(),
            1 <= i <= n,
            ('a' <= u@[0] <= 'z') || ('A' <= u@[0] <= 'Z'),
            forall|j: int| 0 < j < i ==> scheme_char(#[trigger] u@[j]),
        decreases n - i,
    {
        let c = u.get_char(i);
        if c == ':' {
            return true;
        }
        if !(('a' <= c && c <= 'z') || ('A' <= c && c <= 'Z') || ('0' <= c && c <= '9') || c
            == '+' || c == '-' || c == '.') {
            assert(!scheme_char(u@[i as int]));
            assert(!has_scheme(u@)) by {
                if has_scheme(u@) {
                    let k = choose|k: int|
                        #![trigger u@[k]]
                        0 < k < u@.len() && u@[k] == ':' && (('a' <= u@[0] <= 'z') || ('A'
                            <= u@[0] <= 'Z')) && (forall|j: int|
                            0 < j < k ==> scheme_char(#[trigger] u@[j]));
                    if k < i {
                        assert(scheme_char(u@[k]));
                    } else if k > i {
                        assert(scheme_char(u@[i as int]));
                    }
                }
            }
            return false;
        }
        i = i + 1;
    }
    assert(!has_scheme(u@)) by {
        if has_scheme(u@) {
            let k = choose|k: int|
                #![trigger u@[k]]
                0 < k < u@.len() && u@[k] == ':' && (('a' <= u@[0] <= 'z') || ('A' <= u@[0]
                    <= 'Z')) && (forall|j: int| 0 < j < k ==> scheme_char(#[trigger] u@[j]));
            assert(scheme_char(u@[k]));
        }
    }
    false
}

/// The file name of a staged archive.
pub open spec fn archive_name_of(name: Seq<char>, version: Seq<char>) -> Seq<char> {
    name + "-"@ + version + ".tar.gz"@
}

/// What a fetch does next.
#[derive(Clone, Debug, PartialEq, Eq)]
pub enum Fetch {
    /// Send a request to this URL, and hand the walk the answer.
    Request(String),
    /// The mirror at this position of the walk's order served.
    Done(usize),
    /// The fetch failed.
    Failed(FetchError),
}

/// Whether `f` is what a fetch does next from walk `w`, where `url` is the
/// URL that the mirror at position `i` is asked.
pub open spec fn fetch_follows(w: WalkState, f: Fetch, url: spec_fn(int) -> Seq<char>) -> bool {
    &&& f matches Fetch::Request(u) ==> walk_open(w) && u@ == url(w.tried as int)
    &&& f matches Fetch::Done(i) ==> w.found == Some(i as nat)
    &&& f matches Fetch::Failed(e) ==> w.found is None && !walk_open(w) && (w.mirrors.len() == 0
        ==> e is NoMirrors) && (w.mirrors.len() > 0 ==> e is AllFailed
        && e->AllFailed_0@ == w.last_error)
}

/// Fetches package metadata and archives over the mirrors, and stages the
/// archives under a packages directory.
pub struct PackageDownloader {
    pub packages_dir: String,
    pub mirrors: MirrorList,
}

impl PackageDownloader {
    /// Fails unless the process runs as root (`euid` 0) and a home directory
    /// is known; the packages directory is `.apms/packages` under it.
    pub fn new(euid: u32, home: Option<String>, mirrors: MirrorList) -> (r: Result<
        PackageDownloader,
        String,
    >)
        ensures
            euid != 0 ==> (r matches Err(e) && e@
                == "Root privileges required. Please run with sudo."@),
            euid == 0 && home is None ==> (r matches Err(e) && e@
                == "Could not find home directory"@),
            euid == 0 && home is Some ==> (r matches Ok(d) && d.packages_dir@ == join(
                home->Some_0@,
                ".apms/packages"@,
            ) && d.mirrors == mirrors),
    {
        if euid != 0 {
            return Err(String::from_str("Root privileges required. Please run with sudo."));
        }
        match home {
            None => Err(String::from_str("Could not find home directory")),
            Some(h) => Ok(
                PackageDownloader {
                    packages_dir: join_path(h.as_str(), ".apms/packages"),
                    mirrors,
                },
            ),
        }
    }

    /// A walk over the enabled mirrors, highest priority first.
    pub fn walk(&self) -> (r: MirrorWalk)
        ensures
            r.wf(),
            r@ == walk_start(self.mirrors.mirrors@),
    {
        MirrorWalk::start(&self.mirrors)
    }

    /// The next step of fetching the metadata of `package_name`: request
    /// `<mirror url>/packages/<name>.json` from the mirror the walk is at,
    /// use the answer of the mirror that served, or fail.
    pub fn fetch_package_info(&self, package_name: &str, walk: &MirrorWalk) -> (r: Fetch)
        requires
            walk.wf(),
        ensures
            fetch_follows(
                walk@,
                r,
                |i: int| metadata_url_of(walk@.mirrors[i].url@, package_name@),
            ),
    {
        match walk.next() {
            Next::Try(i) => Fetch::Request(metadata_url(&walk.mirror(i), package_name)),
            Next::Use(i) => Fetch::Done(i),
            Next::GiveUp(e) => Fetch::Failed(e),
        }
    }

    /// The next step of downloading the archive of `package`: request it
    /// from the mirror the walk is at, use the answer of the mirror that
    /// served, or fail.
    pub fn download_package(&self, package: &Package, walk: &MirrorWalk) -> (r: Fetch)
        requires
            walk.wf(),
        ensures
            fetch_follows(
                walk@,
                r,
                |i: int| archive_url_of(walk@.mirrors[i].url@, package.download_url@),
            ),
    {
        match walk.next() {
            Next::Try(i) => Fetch::Request(archive_url(&walk.mirror(i), package)),
            Next::Use(i) => Fetch::Done(i),
            Next::GiveUp(e) => Fetch::Failed(e),
        }
    }

    /// The directory in which the archive of `package` is staged.
    pub fn package_dir(&self, package: &Package) -> (r: String)
        ensures
            r@ == join(self.packages_dir@, package.name@),
    {
        join_path(self.packages_dir.as_str(), package.name.as_str())
    }

    /// The path at which the archive of `package` is staged:
    /// `<name>-<version>.tar.gz` in its directory.
    pub fn package_file(&self, package: &Package) -> (r: String)
        ensures
            r@ == join(
                join(self.packages_dir@, package.name@),
                archive_name_of(package.name@, package.version@),
            ),
    {
        let dir = self.package_dir(package);
        let mut file = package.name.clone();
        file.append("-");
        file.append(package.version.as_str());
        file.append(".tar.gz");
        join_path(dir.as_str(), file.as_str())
    }
}

} // verus!
