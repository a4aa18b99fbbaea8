use osutil::coordinator::{emit, Action, Coordinator, Emission, DEFAULT_CEILING};
use osutil::decision::Outcome;
use osutil::error::{ErrorKind, Failure};

fn names(n: usize) -> Vec<String> {
    (0..n).map(|i| format!("pkg{}", i)).collect()
}

fn skip() -> Result<Outcome, Failure> {
    Ok(Outcome::Skip)
}

#[test]
fn default_ceiling_is_four() {
    assert_eq!(DEFAULT_CEILING, 4);
    assert_eq!(Coordinator::new(names(1)).ceiling(), 4);
}

#[test]
fn ceiling_of_zero_is_refused() {
    assert!(Coordinator::with_ceiling(names(3), 0).is_none());
    assert!(Coordinator::with_ceiling(names(3), 1).is_some());
}

#[test]
fn empty_run_finishes_at_once() {
    let mut run = Coordinator::new(vec![]);
    assert_eq!(run.next_action(), Action::Finish);
    assert_eq!(run.in_flight(), 0);
}

#[test]
fn starts_in_order_up_to_the_ceiling() {
    let mut run = Coordinator::new(names(6));
    for i in 0..4 {
        assert_eq!(run.next_action(), Action::Start { package: format!("pkg{}", i) });
        assert_eq!(run.in_flight(), i + 1);
    }
    assert_eq!(run.next_action(), Action::Wait);
    assert_eq!(run.next_action(), Action::Wait);
    assert_eq!(run.in_flight(), 4);
}

#[test]
fn a_slot_is_refilled_when_a_check_ends() {
    let mut run = Coordinator::new(names(6));
    for _ in 0..4 {
        run.next_action();
    }
    assert_eq!(run.record(&skip()), Emission::Nothing);
    assert_eq!(run.in_flight(), 3);
    assert_eq!(run.next_action(), Action::Start { package: "pkg4".to_string() });
    assert_eq!(run.next_action(), Action::Wait);
    run.record(&skip());
    run.record(&skip());
    assert_eq!(run.next_action(), Action::Start { package: "pkg5".to_string() });
    assert_eq!(run.next_action(), Action::Wait);
    assert_eq!(run.in_flight(), 3);
}

#[test]
fn run_finishes_when_all_checks_ended() {
    let mut run = Coordinator::with_ceiling(names(3), 2).unwrap();
    let mut started = Vec::new();
    let mut ended = 0;
    loop {
        match run.next_action() {
            Action::Start { package } => started.push(package),
            Action::Wait => {
                run.record(&skip());
                ended += 1;
            }
            Action::Finish => break,
        }
        assert!(run.in_flight() <= 2);
    }
    assert_eq!(started, names(3));
    assert_eq!(ended, 3);
    assert_eq!(run.in_flight(), 0);
    assert_eq!(run.next_action(), Action::Finish);
}

#[test]
fn never_more_than_four_in_flight() {
    let mut run = Coordinator::new(names(25));
    let mut most = 0;
    let mut step = 0;
    loop {
        step += 1;
        match run.next_action() {
            Action::Start { .. } => {}
            Action::Wait => {
                run.record(&skip());
                if step % 3 == 0 && run.in_flight() > 0 {
                    run.record(&skip());
                }
            }
            Action::Finish => break,
        }
        most = most.max(run.in_flight());
        assert!(run.in_flight() <= 4);
    }
    assert_eq!(most, 4);
}

#[test]
fn recording_without_a_check_changes_nothing() {
    let mut run = Coordinator::new(names(1));
    assert_eq!(run.record(&skip()), Emission::Nothing);
    assert_eq!(run.in_flight(), 0);
    assert_eq!(run.next_action(), Action::Start { package: "pkg0".to_string() });
    assert_eq!(run.in_flight(), 1);
}

#[test]
fn a_failure_is_logged_and_the_run_goes_on() {
    let mut run = Coordinator::with_ceiling(names(2), 1).unwrap();
    assert_eq!(run.next_action(), Action::Start { package: "pkg0".to_string() });
    let failed = Err(Failure {
        kind: ErrorKind::UnmappedDistributionVersion,
        message: "no update lines are known for release 15.3".to_string(),
    });
    assert_eq!(
        run.record(&failed),
        Emission::Log { line: "no update lines are known for release 15.3".to_string() }
    );
    assert_eq!(run.next_action(), Action::Start { package: "pkg1".to_string() });
    let reported = Ok(Outcome::Report {
        package: "pkg1".to_string(),
        current: "1".to_string(),
        newest: "2".to_string(),
    });
    assert_eq!(run.record(&reported), Emission::Report { line: "pkg1: 1 -> 2".to_string() });
    assert_eq!(run.next_action(), Action::Finish);
}

#[test]
fn emit_sorts_lines_and_failures() {
    assert_eq!(emit(&skip()), Emission::Nothing);
    assert_eq!(
        emit(&Ok(Outcome::NotFound { package: "bar".to_string() })),
        Emission::Report { line: "Could not find package bar".to_string() }
    );
    assert_eq!(
        emit(&Err(Failure { kind: ErrorKind::Decode, message: "bad".to_string() })),
        Emission::Log { line: "bad".to_string() }
    );
}
