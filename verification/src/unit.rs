//! The check of one package, step by step: what to ask for next, and what
//! to make of what came back. The caller sends the requests.

use crate::decision::{
    decide_plain, find_candidate, line_of, plain_outcome, release_candidate, subject_of, Candidate,
    CandidateView, Outcome, OutcomeView,
};
use crate::eligibility::{
    lemma_unmapped_release_fails, of_release, unmapped_failure, verdict, BranchListing,
    EligibilityTable, ReleaseLineView,
};
use crate::entry::{
    entry_for_repo, entry_views, newest_version, release_repo, EntryView, RepoStatusEntry,
};
use crate::error::{Failure, FailureView, Fault, FaultView};
use crate::lookup::{lookup_failure, lookup_failure_of, lookup_request, lookup_request_of};
use crate::registry::{
    branch_request_of, registry_failure, registry_failure_of, Config, Request, RequestView,
};
use crate::scan::any_match;
use vstd::prelude::*;

verus! {

/// How packages are checked.
#[derive(Clone, Debug, PartialEq, Eq)]
pub struct Settings {
    /// Whether a package that the primary repository lacks is noted.
    pub show_not_found: bool,
    /// The pinned release to check against, if any.
    pub release: Option<String>,
}

pub struct SettingsView {
    pub show_not_found: bool,
    pub release: Option<Seq<char>>,
}

impl View for Settings {
    type V = SettingsView;

    open spec fn view(&self) -> SettingsView {
        SettingsView {
            show_not_found: self.show_not_found,
            release: match self.release {
                Some(release) => Some(release@),
                None => None,
            },
        }
    }
}

/// What stays the same for every package of a run.
pub struct Context {
    pub config: Config,
    pub settings: Settings,
    pub table: EligibilityTable,
}

/// How the check of a package goes on after its lookup.
pub enum Step {
    /// The branches of the candidate are needed: send the request and hand
    /// what comes back to `after_branches`.
    Ask { request: Request, candidate: Candidate },
    /// The check is over.
    Done { result: Result<Outcome, Failure> },
}

pub enum StepView {
    Ask { request: RequestView, candidate: CandidateView },
    Done { result: Result<OutcomeView, FailureView> },
}

/// The view of the result of a check.
pub open spec fn result_view(result: Result<Outcome, Failure>) -> Result<OutcomeView, FailureView> {
    match result {
        Ok(outcome) => Ok(outcome@),
        Err(failure) => Err(failure@),
    }
}

impl View for Step {
    type V = StepView;

    open spec fn view(&self) -> StepView {
        match self {
            Step::Ask { request, candidate } => StepView::Ask {
                request: request@,
                candidate: candidate@,
            },
            Step::Done { result } => StepView::Done { result: result_view(*result) },
        }
    }
}

/// How the check of `package` goes on once its `entries` are known: without
/// a pinned release it is over; with one, the branches of a candidate are
/// asked for, and a package that is no candidate is passed over.
pub open spec fn step_after_entries(
    username: Seq<char>,
    password: Seq<char>,
    settings: SettingsView,
    package: Seq<char>,
    entries: Seq<EntryView>,
) -> StepView {
    match settings.release {
        None => StepView::Done {
            result: Ok(plain_outcome(package, entries, settings.show_not_found)),
        },
        Some(release) => match release_candidate(package, entries, release) {
            Some(candidate) => StepView::Ask {
                request: branch_request_of(username, password, package),
                candidate,
            },
            None => StepView::Done { result: Ok(OutcomeView::Skip) },
        },
    }
}

/// What the check of a candidate ends with once its branches are known, or
/// are known not to be had.
pub open spec fn result_after_branches(
    table: Seq<ReleaseLineView>,
    candidate: CandidateView,
    reply: Result<Seq<Seq<char>>, FaultView>,
) -> Result<OutcomeView, FailureView> {
    match reply {
        Ok(owners) => verdict(table, candidate, owners),
        Err(fault) => Err(registry_failure(fault)),
    }
}

impl Context {
    /// The first request of the check of `package`: its lookup, under the
    /// name that the tracking service knows.
    pub fn begin(&self, package: &str) -> (request: Request)
        ensures
            request@ == lookup_request_of(package@),
    {
        lookup_request(package)
    }

    /// How the check of `package` goes on after its lookup.
    pub fn after_lookup(&self, package: &str, reply: Result<Vec<RepoStatusEntry>, Fault>) -> (step:
        Step)
        ensures
            step@ == match reply {
                Ok(entries) => step_after_entries(
                    self.config.spec_username(),
                    self.config.spec_password(),
                    self.settings@,
                    package@,
                    entry_views(entries@),
                ),
                Err(fault) => StepView::Done {
                    result: Err(lookup_failure(package@, fault@.kind)),
                },
            },
    {
        match reply {
            Ok(entries) => match &self.settings.release {
                None => Step::Done {
                    result: Ok(decide_plain(package, &entries, self.settings.show_not_found)),
                },
                Some(release) => match find_candidate(package, &entries, release.as_str()) {
                    Some(candidate) => Step::Ask {
                        request: self.config.branch_request(package),
                        candidate,
                    },
                    None => Step::Done { result: Ok(Outcome::Skip) },
                },
            },
            Err(fault) => Step::Done { result: Err(lookup_failure_of(package, &fault)) },
        }
    }

    /// What the check of `candidate` ends with, from what came back for its
    /// branches.
    pub fn after_branches(&self, candidate: &Candidate, reply: Result<BranchListing, Fault>) -> (result:
        Result<Outcome, Failure>)
        ensures
            result_view(result) == result_after_branches(
                self.table@,
                candidate@,
                match reply {
                    Ok(listing) => Ok(listing@),
                    Err(fault) => Err(fault@),
                },
            ),
    {
        match reply {
            Ok(listing) => self.table.judge(candidate, &listing),
            Err(fault) => Err(registry_failure_of(&fault)),
        }
    }
}

/// A lookup that came back never fails a check without a pinned release,
/// whatever it holds.
pub proof fn lemma_plain_check_never_fails(
    username: Seq<char>,
    password: Seq<char>,
    show_not_found: bool,
    package: Seq<char>,
    entries: Seq<EntryView>,
)
    ensures
        step_after_entries(
            username,
            password,
            SettingsView { show_not_found, release: None },
            package,
            entries,
        ) == (StepView::Done { result: Ok(plain_outcome(package, entries, show_not_found)) }),
{
}

/// With a pinned release, a package whose version there is the newest known
/// one ends without a line and without a request for its branches.
pub proof fn lemma_current_release_is_silent(
    username: Seq<char>,
    password: Seq<char>,
    show_not_found: bool,
    package: Seq<char>,
    entries: Seq<EntryView>,
    release: Seq<char>,
)
    requires
        entry_for_repo(entries, release_repo(release)) matches Some(pinned) && pinned.version
            == newest_version(entries),
    ensures
        step_after_entries(
            username,
            password,
            SettingsView { show_not_found, release: Some(release) },
            package,
            entries,
        ) == (StepView::Done { result: Ok(OutcomeView::Skip) }),
        line_of(OutcomeView::Skip) is None,
{
}

/// With a release that the table has no line for, every candidate whose
/// branches came back ends in the failure that names the release.
pub proof fn lemma_unmapped_release_fails_the_check(
    table: Seq<ReleaseLineView>,
    candidate: CandidateView,
    owners: Seq<Seq<char>>,
)
    requires
        !any_match(table, of_release(candidate.release)),
    ensures
        result_after_branches(table, candidate, Ok(owners)) == Err::<OutcomeView, FailureView>(
            unmapped_failure(candidate.release),
        ),
{
    lemma_unmapped_release_fails(table, candidate, owners);
}

/// Whatever a check says, it says of the package as it was handed in, also
/// where the lookup went under another name.
pub proof fn lemma_check_reports_under_the_given_name(
    username: Seq<char>,
    password: Seq<char>,
    settings: SettingsView,
    table: Seq<ReleaseLineView>,
    package: Seq<char>,
    entries: Seq<EntryView>,
    owners: Seq<Seq<char>>,
)
    ensures
        match step_after_entries(username, password, settings, package, entries) {
            StepView::Done { result: Ok(outcome) } => subject_of(outcome) matches Some(subject)
                ==> subject == package,
            StepView::Done { result: Err(_) } => true,
            StepView::Ask { candidate, .. } => candidate.package == package && (
            result_after_branches(table, candidate, Ok(owners)) matches Ok(outcome) ==> (
            subject_of(outcome) matches Some(subject) ==> subject == package)),
        },
{
}

} // verus!
