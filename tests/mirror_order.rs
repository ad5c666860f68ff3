use apms::mirrors::{ConfigSource, Mirror, MirrorList};

fn mirror(name: &str, priority: u8, enabled: bool) -> Mirror {
    Mirror {
        name: name.to_string(),
        url: format!("http://{}", name.to_lowercase()),
        priority,
        enabled,
    }
}

fn names(ms: &[Mirror]) -> Vec<String> {
    ms.iter().map(|m| m.name.clone()).collect()
}

#[test]
fn ordered_drops_disabled_and_sorts_by_priority() {
    let list = MirrorList {
        mirrors: vec![mirror("A", 50, true), mirror("B", 90, true), mirror("C", 100, false)],
    };
    assert_eq!(names(&list.get_mirrors()), vec!["B", "A"]);
}

#[test]
fn ordered_keeps_load_order_among_equal_priorities() {
    let list = MirrorList {
        mirrors: vec![
            mirror("X", 10, true),
            mirror("Y", 200, true),
            mirror("Z", 10, true),
            mirror("W", 200, true),
            mirror("V", 0, true),
            mirror("U", 255, false),
        ],
    };
    let out = list.get_mirrors();
    assert_eq!(names(&out), vec!["Y", "W", "X", "Z", "V"]);
    for pair in out.windows(2) {
        assert!(pair[0].priority >= pair[1].priority);
    }
    assert!(out.iter().all(|m| m.enabled));
}

#[test]
fn ordered_of_empty_and_all_disabled_is_empty() {
    assert!(MirrorList { mirrors: vec![] }.get_mirrors().is_empty());
    let list = MirrorList { mirrors: vec![mirror("A", 1, false), mirror("B", 2, false)] };
    assert!(list.get_mirrors().is_empty());
}

#[test]
fn duplicate_names_are_kept() {
    let list = MirrorList { mirrors: vec![mirror("A", 5, true), mirror("A", 5, true)] };
    assert_eq!(list.get_mirrors().len(), 2);
}

#[test]
fn default_list_is_one_local_mirror() {
    let list = MirrorList::default();
    assert_eq!(list.mirrors.len(), 1);
    let m = &list.mirrors[0];
    assert_eq!(m.name, "Mirror @ Local");
    assert_eq!(m.url, "http://localhost:8080");
    assert_eq!(m.priority, 100);
    assert!(m.enabled);
    assert_eq!(names(&list.get_mirrors()), vec!["Mirror @ Local"]);
}

#[test]
fn config_source_prefers_user_then_system() {
    assert_eq!(MirrorList::source(true, true), ConfigSource::User);
    assert_eq!(MirrorList::source(true, false), ConfigSource::User);
    assert_eq!(MirrorList::source(false, true), ConfigSource::System);
    assert_eq!(MirrorList::source(false, false), ConfigSource::BuiltIn);
}
