use osutil::decision::{decide_plain, find_candidate, Candidate, Outcome};
use osutil::entry::{find_newest_version, find_repo, release_repo_of, RepoStatusEntry};

fn entry(repo: &str, version: &str, status: &str) -> RepoStatusEntry {
    RepoStatusEntry::new(repo, version, status)
}

#[test]
fn new_entry_holds_what_it_was_given() {
    let e = entry("opensuse_tumbleweed", "1.0", "outdated");
    assert_eq!(e.repo, "opensuse_tumbleweed");
    assert_eq!(e.version, "1.0");
    assert_eq!(e.status, "outdated");
    assert!(e.is_outdated());
    assert!(!entry("opensuse_tumbleweed", "1.0", "newest").is_outdated());
    assert!(!entry("opensuse_tumbleweed", "1.0", "Outdated").is_outdated());
}

#[test]
fn find_repo_gives_the_first_position() {
    let entries = vec![
        entry("a", "1", "newest"),
        entry("b", "2", "outdated"),
        entry("b", "3", "newest"),
    ];
    assert_eq!(find_repo(&entries, "a"), Some(0));
    assert_eq!(find_repo(&entries, "b"), Some(1));
    assert_eq!(find_repo(&entries, "c"), None);
    assert_eq!(find_repo(&vec![], "a"), None);
}

#[test]
fn newest_version_is_that_of_the_first_newest_entry() {
    let entries = vec![
        entry("a", "1", "outdated"),
        entry("b", "2", "newest"),
        entry("c", "3", "newest"),
    ];
    assert_eq!(find_newest_version(&entries), "2");
}

#[test]
fn newest_version_is_unknown_without_a_newest_entry() {
    assert_eq!(find_newest_version(&vec![entry("a", "1", "outdated")]), "?");
    assert_eq!(find_newest_version(&vec![]), "?");
}

#[test]
fn release_repo_has_underscores_for_dots() {
    assert_eq!(release_repo_of("15.4"), "opensuse_leap_15_4");
    assert_eq!(release_repo_of("15"), "opensuse_leap_15");
    assert_eq!(release_repo_of("42.3.1"), "opensuse_leap_42_3_1");
}

#[test]
fn plain_reports_an_outdated_package() {
    let entries =
        vec![entry("opensuse_tumbleweed", "1.0", "outdated"), entry("other", "1.2", "newest")];
    let outcome = decide_plain("foo", &entries, false);
    assert_eq!(
        outcome,
        Outcome::Report {
            package: "foo".to_string(),
            current: "1.0".to_string(),
            newest: "1.2".to_string()
        }
    );
    assert_eq!(outcome.line(), Some("foo: 1.0 -> 1.2".to_string()));
}

#[test]
fn plain_reports_with_unknown_newest_version() {
    let entries = vec![entry("opensuse_tumbleweed", "1.0", "outdated")];
    assert_eq!(decide_plain("foo", &entries, true).line(), Some("foo: 1.0 -> ?".to_string()));
}

#[test]
fn plain_passes_over_a_current_package() {
    let entries = vec![entry("opensuse_tumbleweed", "1.2", "newest")];
    assert_eq!(decide_plain("foo", &entries, false), Outcome::Skip);
    assert_eq!(decide_plain("foo", &entries, true), Outcome::Skip);
    assert_eq!(Outcome::Skip.line(), None);
}

#[test]
fn plain_goes_by_the_first_primary_entry() {
    let entries = vec![
        entry("opensuse_tumbleweed", "1.2", "newest"),
        entry("opensuse_tumbleweed", "1.0", "outdated"),
    ];
    assert_eq!(decide_plain("foo", &entries, false), Outcome::Skip);
}

#[test]
fn plain_notes_a_missing_package_on_request() {
    let entries = vec![entry("debian", "1.0", "outdated")];
    assert_eq!(decide_plain("bar", &entries, false), Outcome::Skip);
    let noted = decide_plain("bar", &entries, true);
    assert_eq!(noted, Outcome::NotFound { package: "bar".to_string() });
    assert_eq!(noted.line(), Some("Could not find package bar".to_string()));
    assert_eq!(decide_plain("bar", &vec![], true), Outcome::NotFound { package: "bar".to_string() });
    assert_eq!(decide_plain("bar", &vec![], false), Outcome::Skip);
}

#[test]
fn candidate_needs_the_primary_entry() {
    let entries =
        vec![entry("opensuse_leap_15_4", "2.0", "outdated"), entry("other", "2.1", "newest")];
    assert_eq!(find_candidate("baz", &entries, "15.4"), None);
}

#[test]
fn candidate_needs_the_release_entry() {
    let entries =
        vec![entry("opensuse_tumbleweed", "2.1", "newest"), entry("opensuse_leap_15_3", "2.0", "outdated")];
    assert_eq!(find_candidate("baz", &entries, "15.4"), None);
}

#[test]
fn candidate_is_none_where_the_release_is_current() {
    let entries = vec![
        entry("opensuse_tumbleweed", "2.1", "newest"),
        entry("opensuse_leap_15_4", "2.1", "outdated"),
    ];
    assert_eq!(find_candidate("baz", &entries, "15.4"), None);
}

#[test]
fn candidate_carries_the_release_version_and_the_newest() {
    let entries = vec![
        entry("opensuse_tumbleweed", "2.1", "newest"),
        entry("opensuse_leap_15_4", "2.0", "outdated"),
    ];
    let candidate = find_candidate("baz", &entries, "15.4");
    assert_eq!(
        candidate,
        Some(Candidate {
            package: "baz".to_string(),
            release: "15.4".to_string(),
            current: "2.0".to_string(),
            newest: "2.1".to_string(),
        })
    );
    assert_eq!(candidate.unwrap().report().line(), Some("baz: 2.0 -> 2.1".to_string()));
}

#[test]
fn candidate_with_unknown_newest_version() {
    let entries = vec![
        entry("opensuse_tumbleweed", "2.1", "outdated"),
        entry("opensuse_leap_15_4", "2.0", "outdated"),
    ];
    let candidate = find_candidate("baz", &entries, "15.4").unwrap();
    assert_eq!(candidate.newest, "?");
    assert_eq!(candidate.current, "2.0");
}
