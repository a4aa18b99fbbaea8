use osutil::coordinator::{Action, Coordinator, Emission};
use osutil::decision::Outcome;
use osutil::eligibility::{BranchEntry, BranchListing, BranchTarget, EligibilityTable};
use osutil::entry::RepoStatusEntry;
use osutil::error::{Failure, Fault, FaultKind};
use osutil::registry::{maintained_packages, Config, Request, SearchCollection, SearchPackage};
use osutil::unit::{Context, Settings, Step};

fn context(show_not_found: bool, release: Option<&str>) -> Context {
    Context {
        config: Config::new("user", "pass").unwrap(),
        settings: Settings { show_not_found, release: release.map(|r| r.to_string()) },
        table: EligibilityTable::standard(),
    }
}

fn maintained(names: &[&str]) -> Result<SearchCollection, Fault> {
    Ok(SearchCollection {
        matches: names.len().to_string(),
        packages: names
            .iter()
            .map(|name| SearchPackage { project: "home:user".to_string(), name: name.to_string() })
            .collect(),
    })
}

/// Runs a whole batch against services that answer from the two closures,
/// and gives what went to the report and what went to the log.
fn run(
    ctx: &Context,
    maintained: Result<SearchCollection, Fault>,
    tracker: &dyn Fn(&Request) -> Result<Vec<RepoStatusEntry>, Fault>,
    branches: &dyn Fn(&Request) -> Result<BranchListing, Fault>,
) -> Result<(Vec<String>, Vec<String>), Failure> {
    let packages = maintained_packages(maintained)?;
    let mut run = Coordinator::new(packages);
    let mut under_way: Vec<String> = Vec::new();
    let mut report = Vec::new();
    let mut log = Vec::new();
    loop {
        match run.next_action() {
            Action::Start { package } => under_way.push(package),
            Action::Wait => {
                let package = under_way.pop().unwrap();
                let result = match ctx.after_lookup(&package, tracker(&ctx.begin(&package))) {
                    Step::Done { result } => result,
                    Step::Ask { request, candidate } => {
                        ctx.after_branches(&candidate, branches(&request))
                    }
                };
                match run.record(&result) {
                    Emission::Report { line } => report.push(line),
                    Emission::Log { line } => log.push(line),
                    Emission::Nothing => {}
                }
            }
            Action::Finish => break,
        }
        assert!(run.in_flight() <= 4);
    }
    report.sort();
    log.sort();
    Ok((report, log))
}

fn no_branches(_: &Request) -> Result<BranchListing, Fault> {
    panic!("no branches are asked for without a pinned release")
}

#[test]
fn outdated_package_is_reported() {
    let tracker = |request: &Request| {
        assert_eq!(request.url, "https://repology.org/api/v1/project/foo");
        Ok(vec![
            RepoStatusEntry::new("opensuse_tumbleweed", "1.0", "outdated"),
            RepoStatusEntry::new("other", "1.2", "newest"),
        ])
    };
    let (report, log) =
        run(&context(false, None), maintained(&["foo"]), &tracker, &no_branches).unwrap();
    assert_eq!(report, vec!["foo: 1.0 -> 1.2"]);
    assert_eq!(log, Vec::<String>::new());
}

#[test]
fn missing_package_is_noted_only_on_request() {
    let tracker = |_: &Request| Ok(vec![RepoStatusEntry::new("debian_12", "1.0", "newest")]);
    let (quiet, log) =
        run(&context(false, None), maintained(&["bar"]), &tracker, &no_branches).unwrap();
    assert_eq!(quiet, Vec::<String>::new());
    assert_eq!(log, Vec::<String>::new());
    let (noted, log) =
        run(&context(true, None), maintained(&["bar"]), &tracker, &no_branches).unwrap();
    assert_eq!(noted, vec!["Could not find package bar"]);
    assert_eq!(log, Vec::<String>::new());
}

#[test]
fn backported_package_is_reported_for_the_release() {
    let tracker = |_: &Request| {
        Ok(vec![
            RepoStatusEntry::new("opensuse_tumbleweed", "2.1", "newest"),
            RepoStatusEntry::new("opensuse_leap_15_4", "2.0", "outdated"),
        ])
    };
    let branches = |request: &Request| {
        assert!(request.url.contains("dryrun=1"));
        assert!(request.url.contains("package=baz&"));
        Ok(BranchListing {
            packages: vec![BranchEntry {
                project: "openSUSE:Backports:SLE-15-SP4".to_string(),
                package: "baz".to_string(),
                target: BranchTarget {
                    project: "home:user:branches:openSUSE:Backports:SLE-15-SP4".to_string(),
                    package: "baz".to_string(),
                },
            }],
        })
    };
    let (report, log) =
        run(&context(false, Some("15.4")), maintained(&["baz"]), &tracker, &branches).unwrap();
    assert_eq!(report, vec!["baz: 2.0 -> 2.1"]);
    assert_eq!(log, Vec::<String>::new());
}

#[test]
fn prefixed_package_is_looked_up_stripped_and_reported_prefixed() {
    let tracker = |request: &Request| {
        assert_eq!(request.url, "https://repology.org/api/v1/project/requests");
        Ok(vec![
            RepoStatusEntry::new("opensuse_tumbleweed", "2.0", "outdated"),
            RepoStatusEntry::new("pypi", "2.31", "newest"),
        ])
    };
    let (report, _) =
        run(&context(false, None), maintained(&["python-requests"]), &tracker, &no_branches)
            .unwrap();
    assert_eq!(report, vec!["python-requests: 2.0 -> 2.31"]);
}

#[test]
fn unmapped_release_fails_one_package_and_spares_the_rest() {
    let tracker = |request: &Request| {
        if request.url.ends_with("/behind") {
            Ok(vec![
                RepoStatusEntry::new("opensuse_tumbleweed", "2.1", "newest"),
                RepoStatusEntry::new("opensuse_leap_15_3", "2.0", "outdated"),
            ])
        } else {
            Ok(vec![
                RepoStatusEntry::new("opensuse_tumbleweed", "2.1", "newest"),
                RepoStatusEntry::new("opensuse_leap_15_3", "2.1", "newest"),
            ])
        }
    };
    let branches = |_: &Request| Ok(BranchListing { packages: vec![] });
    let (report, log) = run(
        &context(false, Some("15.3")),
        maintained(&["current", "behind", "other"]),
        &tracker,
        &branches,
    )
    .unwrap();
    assert_eq!(report, Vec::<String>::new());
    assert_eq!(log, vec!["no update lines are known for release 15.3"]);
}

#[test]
fn failed_lookups_are_logged_beside_the_reports() {
    let tracker = |request: &Request| {
        if request.url.ends_with("/down") {
            Err(Fault { kind: FaultKind::Transport, detail: "timed out".to_string() })
        } else if request.url.ends_with("/garbled") {
            Err(Fault { kind: FaultKind::Decode, detail: "expected value".to_string() })
        } else {
            Ok(vec![RepoStatusEntry::new("opensuse_tumbleweed", "1.0", "outdated")])
        }
    };
    let (report, log) = run(
        &context(false, None),
        maintained(&["a", "down", "b", "garbled", "c", "d"]),
        &tracker,
        &no_branches,
    )
    .unwrap();
    assert_eq!(report, vec!["a: 1.0 -> ?", "b: 1.0 -> ?", "c: 1.0 -> ?", "d: 1.0 -> ?"]);
    assert_eq!(
        log,
        vec![
            "unable to deserialize json for package garbled",
            "unable to get project information from repology for package down",
        ]
    );
}

#[test]
fn run_fails_only_with_the_maintained_list() {
    let tracker = |_: &Request| -> Result<Vec<RepoStatusEntry>, Fault> {
        panic!("nothing is looked up without a list of packages")
    };
    let failed = run(
        &context(false, None),
        Err(Fault { kind: FaultKind::Transport, detail: "refused".to_string() }),
        &tracker,
        &no_branches,
    );
    assert_eq!(failed.unwrap_err().message, "unable to get maintained projects");
    let all_down = |_: &Request| -> Result<Vec<RepoStatusEntry>, Fault> {
        Err(Fault { kind: FaultKind::Transport, detail: "down".to_string() })
    };
    let (report, log) =
        run(&context(false, None), maintained(&["a", "b"]), &all_down, &no_branches).unwrap();
    assert_eq!(report, Vec::<String>::new());
    assert_eq!(log.len(), 2);
    assert_eq!(Outcome::Skip.line(), None);
}
