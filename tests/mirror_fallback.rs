use apms::download::{
    archive_url, metadata_url, starts_with_scheme, Fetch, FetchError, MirrorWalk, Next, Package,
    PackageDownloader, Reply,
};
use apms::mirrors::{Mirror, MirrorList};

fn mirror(name: &str, url: &str, priority: u8) -> Mirror {
    Mirror { name: name.to_string(), url: url.to_string(), priority, enabled: true }
}

fn three() -> MirrorList {
    MirrorList {
        mirrors: vec![
            mirror("C", "http://m3", 10),
            mirror("A", "http://m1", 90),
            mirror("B", "http://m2", 50),
        ],
    }
}

fn downloader(list: MirrorList) -> PackageDownloader {
    PackageDownloader::new(0, Some("/home/u".to_string()), list).unwrap()
}

fn package() -> Package {
    Package {
        name: "pkg".to_string(),
        version: "1.0".to_string(),
        download_url: "archives/pkg-1.0.tar.gz".to_string(),
    }
}

#[test]
fn first_mirror_to_serve_wins_and_no_more_are_tried() {
    let d = downloader(three());
    let mut walk = d.walk();
    let mut asked = Vec::new();
    let replies = vec![Reply::NotFound, Reply::Served, Reply::Unreachable("never".to_string())];
    let mut next_reply = replies.into_iter();
    let found = loop {
        match d.fetch_package_info("pkg", &walk) {
            Fetch::Request(url) => {
                asked.push(url);
                walk.answer(next_reply.next().unwrap());
            }
            Fetch::Done(i) => break i,
            Fetch::Failed(e) => panic!("unexpected failure: {:?}", e),
        }
    };
    assert_eq!(found, 1);
    assert_eq!(walk.mirror(found).name, "B");
    assert_eq!(asked, vec!["http://m1/packages/pkg.json", "http://m2/packages/pkg.json"]);
    assert!(next_reply.next().is_some());
}

#[test]
fn all_mirrors_failing_reports_the_last_reason() {
    let d = downloader(three());
    let mut walk = d.walk();
    let mut replies = vec![
        Reply::Unreachable("refused".to_string()),
        Reply::NotFound,
        Reply::Unreachable("timed out".to_string()),
    ]
    .into_iter();
    let mut asked = 0;
    let err = loop {
        match d.download_package(&package(), &walk) {
            Fetch::Request(_) => {
                asked += 1;
                walk.answer(replies.next().unwrap());
            }
            Fetch::Done(_) => panic!("no mirror served"),
            Fetch::Failed(e) => break e,
        }
    };
    assert_eq!(asked, 3);
    assert_eq!(err, FetchError::AllFailed("Mirror C failed: timed out".to_string()));
    assert_eq!(err.message(), "Mirror C failed: timed out");
}

#[test]
fn last_reason_for_a_status_failure_names_the_mirror() {
    let list = MirrorList { mirrors: vec![mirror("Only", "http://o", 1)] };
    let mut walk = MirrorWalk::start(&list);
    assert_eq!(walk.next(), Next::Try(0));
    walk.answer(Reply::NotFound);
    let next = walk.next();
    assert_eq!(next, Next::GiveUp(FetchError::AllFailed("Package not found on mirror: Only".to_string())));
}

#[test]
fn no_enabled_mirror_fails_at_once() {
    let mut off = mirror("A", "http://a", 1);
    off.enabled = false;
    let d = downloader(MirrorList { mirrors: vec![off] });
    let walk = d.walk();
    assert_eq!(d.fetch_package_info("pkg", &walk), Fetch::Failed(FetchError::NoMirrors));
    assert_eq!(d.download_package(&package(), &walk), Fetch::Failed(FetchError::NoMirrors));
    assert_eq!(FetchError::NoMirrors.message(), "No enabled mirrors found");
}

#[test]
fn relative_download_url_is_joined_to_the_mirror() {
    let m = mirror("m1", "http://m1", 1);
    assert_eq!(archive_url(&m, &package()), "http://m1/archives/pkg-1.0.tar.gz");
}

#[test]
fn absolute_download_url_is_used_verbatim() {
    let m = mirror("m1", "http://m1", 1);
    let mut p = package();
    p.download_url = "https://cdn.example.org/pkg-1.0.tar.gz".to_string();
    assert_eq!(archive_url(&m, &p), "https://cdn.example.org/pkg-1.0.tar.gz");
}

#[test]
fn scheme_detection() {
    assert!(starts_with_scheme("http://a"));
    assert!(starts_with_scheme("git+ssh://a"));
    assert!(starts_with_scheme("s3:bucket"));
    assert!(!starts_with_scheme(""));
    assert!(!starts_with_scheme(":x"));
    assert!(!starts_with_scheme("1http://a"));
    assert!(!starts_with_scheme("archives/pkg-1.0.tar.gz"));
    assert!(!starts_with_scheme("dir/a:b"));
    assert!(!starts_with_scheme("http"));
}

#[test]
fn metadata_url_follows_the_mirror_layout() {
    let m = mirror("m1", "http://m1", 1);
    assert_eq!(metadata_url(&m, "neofetch"), "http://m1/packages/neofetch.json");
}

#[test]
fn downloader_needs_root_and_a_home() {
    let e = PackageDownloader::new(1000, Some("/home/u".to_string()), three()).err().unwrap();
    assert_eq!(e, "Root privileges required. Please run with sudo.");
    let e = PackageDownloader::new(0, None, three()).err().unwrap();
    assert_eq!(e, "Could not find home directory");
}

#[test]
fn staged_archive_is_named_after_name_and_version() {
    let d = downloader(three());
    assert_eq!(d.packages_dir, "/home/u/.apms/packages");
    assert_eq!(d.package_dir(&package()), "/home/u/.apms/packages/pkg");
    assert_eq!(d.package_file(&package()), "/home/u/.apms/packages/pkg/pkg-1.0.tar.gz");
}

#[test]
fn bad_metadata_message() {
    let e = FetchError::BadMetadata("missing field `version`".to_string());
    assert_eq!(e.message(), "Failed to parse package information: missing field `version`");
}
