use advisory_filter::error::ErrorKind;
use advisory_filter::platform::{Os, PlatformSet};
use advisory_filter::registry::{platforms_matching, query_apple_platforms, PlatformKnowledgeBase};
use platforms::PlatformReq;
use std::collections::BTreeSet;
use std::str::FromStr;

#[test]
fn os_is_known_by_its_name() {
    let os = Os::new("linux");
    assert_eq!(os.name(), "linux");
    assert!(os.same_as(&Os::new("linux")));
    assert!(!os.same_as(&Os::new("macos")));
    assert!(os.clone().same_as(&os));
}

#[test]
fn windows_is_named_windows() {
    assert_eq!(Os::windows().name(), "windows");
    assert!(Os::windows().same_as(&Os::new("windows")));
    assert!(!Os::windows().same_as(&Os::new("Windows")));
}

#[test]
fn new_set_is_empty() {
    let set = PlatformSet::new();
    assert!(set.is_empty());
    assert_eq!(set.len(), 0);
    assert!(!set.contains(&Os::windows()));
}

#[test]
fn insert_adds_each_system_once() {
    let mut set = PlatformSet::new();
    assert!(set.insert(Os::new("macos")));
    assert!(set.insert(Os::new("ios")));
    assert!(!set.insert(Os::new("macos")));
    assert_eq!(set.len(), 2);
    assert!(!set.is_empty());
    assert!(set.contains(&Os::new("macos")));
    assert!(set.contains(&Os::new("ios")));
    assert!(!set.contains(&Os::new("linux")));
}

#[test]
fn apple_platforms_are_the_registry_matches() {
    let expected: BTreeSet<&'static str> = PlatformReq::from_str("*apple*")
        .unwrap()
        .matching_platforms()
        .map(|p| p.target_os.as_str())
        .collect();
    let apple = query_apple_platforms();
    assert_eq!(apple.len(), expected.len());
    for name in expected.iter() {
        assert!(apple.contains(&Os::new(name)));
    }
}

#[test]
fn apple_platforms_hold_macos_and_ios_but_neither_linux_nor_windows() {
    let apple = query_apple_platforms();
    assert!(apple.contains(&Os::new("macos")));
    assert!(apple.contains(&Os::new("ios")));
    assert!(!apple.contains(&Os::new("linux")));
    assert!(!apple.contains(&Os::windows()));
    assert!(!apple.contains(&Os::new("*apple*")));
}

#[test]
fn windows_pattern_matches_windows_alone() {
    let set = platforms_matching("*windows*").unwrap();
    assert_eq!(set.len(), 1);
    assert!(set.contains(&Os::windows()));
}

#[test]
fn single_platform_pattern() {
    let set = platforms_matching("x86_64-unknown-linux-gnu").unwrap();
    assert_eq!(set.len(), 1);
    assert!(set.contains(&Os::new("linux")));
}

#[test]
fn prefix_and_suffix_patterns() {
    let musl = platforms_matching("*-musl").unwrap();
    assert!(musl.contains(&Os::new("linux")));
    assert!(!musl.contains(&Os::windows()));
    let wasm = platforms_matching("wasm32-*").unwrap();
    assert!(!wasm.is_empty());
    assert!(!wasm.contains(&Os::new("macos")));
}

#[test]
fn empty_pattern_is_a_bad_parameter() {
    let e = platforms_matching("").unwrap_err();
    assert_eq!(e.kind(), ErrorKind::BadParam);
}

#[test]
fn pattern_without_a_match_is_a_bad_parameter() {
    assert_eq!(platforms_matching("derp").unwrap_err().kind(), ErrorKind::BadParam);
    assert_eq!(platforms_matching(" ").unwrap_err().kind(), ErrorKind::BadParam);
    assert_eq!(platforms_matching("***").unwrap_err().kind(), ErrorKind::BadParam);
}

#[test]
fn knowledge_base_answers_the_same_every_time() {
    let base = PlatformKnowledgeBase::new();
    let first = base.apple_platforms();
    let second = base.apple_platforms();
    assert!(std::ptr::eq(first, second));
    assert_eq!(first.len(), second.len());
    let fresh = query_apple_platforms();
    assert_eq!(first.len(), fresh.len());
    for name in ["macos", "ios", "tvos", "watchos", "linux", "windows", "freebsd"] {
        let os = Os::new(name);
        assert_eq!(first.contains(&os), second.contains(&os));
        assert_eq!(first.contains(&os), fresh.contains(&os));
    }
}

#[test]
fn two_knowledge_bases_agree() {
    let one = PlatformKnowledgeBase::new();
    let other = PlatformKnowledgeBase::new();
    assert_eq!(one.apple_platforms().len(), other.apple_platforms().len());
    assert!(one.apple_platforms().contains(&Os::new("macos")));
    assert!(other.apple_platforms().contains(&Os::new("macos")));
}

#[test]
fn set_from_names_holds_each_name_once() {
    let names = vec![String::from("macos"), String::from("ios"), String::from("macos")];
    let set = PlatformSet::from_names(names);
    assert_eq!(set.len(), 2);
    assert!(set.contains(&Os::new("macos")));
    assert!(set.contains(&Os::new("ios")));
    assert!(!set.contains(&Os::new("tvos")));
    assert!(PlatformSet::from_names(Vec::new()).is_empty());
}

#[test]
fn rejected_pattern_says_why() {
    let e = platforms_matching("derp").unwrap_err();
    assert_eq!(e.message(), "no platform matches the pattern");
    assert_eq!(e.to_string(), "bad parameter: no platform matches the pattern");
}

#[test]
fn systems_are_ordered_by_name() {
    assert!(Os::new("ios") < Os::new("macos"));
    assert!(Os::new("macos") < Os::windows());
    assert_eq!(Os::new("linux"), Os::new("linux"));
    let sorted: BTreeSet<Os> = [Os::windows(), Os::new("aix"), Os::windows()].into_iter().collect();
    assert_eq!(sorted.len(), 2);
    assert_eq!(sorted.iter().next().map(|os| os.name()), Some("aix"));
}
