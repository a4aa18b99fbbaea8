//! Whether a package is reported, and with which versions, from what the
//! tracking service knows of it.

use crate::entry::{
    entry_for_repo, entry_views, find_newest_version, find_repo, in_repo, newest_version,
    release_repo, release_repo_of, EntryView, RepoStatusEntry, OUTDATED, PRIMARY_REPO,
};
use crate::scan::{any_match, is_first_match, lemma_first_match_at, lemma_first_match_none};
use vstd::prelude::*;
use vstd::string::StringExecFns;

verus! {

/// Stands between the package and its current version in a report.
pub const REPORT_COLON: &'static str = ": ";

/// Stands between the current and the newest version in a report.
pub const REPORT_ARROW: &'static str = " -> ";

/// What a notice of a package that was not found starts with.
pub const NOT_FOUND_NOTICE: &'static str = "Could not find package ";

/// What there is to say about one package.
#[derive(Clone, Debug, PartialEq, Eq)]
pub enum Outcome {
    /// The package is behind: `current` should become `newest`.
    Report { package: String, current: String, newest: String },
    /// The primary repository does not carry the package, and that is to be
    /// said.
    NotFound { package: String },
    /// Nothing.
    Skip,
}

pub enum OutcomeView {
    Report { package: Seq<char>, current: Seq<char>, newest: Seq<char> },
    NotFound { package: Seq<char> },
    Skip,
}

impl View for Outcome {
    type V = OutcomeView;

    open spec fn view(&self) -> OutcomeView {
        match self {
            Outcome::Report { package, current, newest } => OutcomeView::Report {
                package: package@,
                current: current@,
                newest: newest@,
            },
            Outcome::NotFound { package } => OutcomeView::NotFound { package: package@ },
            Outcome::Skip => OutcomeView::Skip,
        }
    }
}

/// A package that is behind in a pinned release and is reported if an update
/// can reach that release.
#[derive(Clone, Debug, PartialEq, Eq)]
pub struct Candidate {
    pub package: String,
    pub release: String,
    pub current: String,
    pub newest: String,
}

pub struct CandidateView {
    pub package: Seq<char>,
    pub release: Seq<char>,
    pub current: Seq<char>,
    pub newest: Seq<char>,
}

impl View for Candidate {
    type V = CandidateView;

    open spec fn view(&self) -> CandidateView {
        CandidateView {
            package: self.package@,
            release: self.release@,
            current: self.current@,
            newest: self.newest@,
        }
    }
}

/// The line that reports `package` as behind.
pub open spec fn report_line(package: Seq<char>, current: Seq<char>, newest: Seq<char>) -> Seq<
    char,
> {
    package + REPORT_COLON@ + current + REPORT_ARROW@ + newest
}

/// The line that says `package` was not found.
pub open spec fn not_found_line(package: Seq<char>) -> Seq<char> {
    NOT_FOUND_NOTICE@ + package
}

/// The line that `outcome` puts out, if any.
pub open spec fn line_of(outcome: OutcomeView) -> Option<Seq<char>> {
    match outcome {
        OutcomeView::Report { package, current, newest } => Some(
            report_line(package, current, newest),
        ),
        OutcomeView::NotFound { package } => Some(not_found_line(package)),
        OutcomeView::Skip => None,
    }
}

/// The package that `outcome` speaks of, if it speaks.
pub open spec fn subject_of(outcome: OutcomeView) -> Option<Seq<char>> {
    match outcome {
        OutcomeView::Report { package, .. } => Some(package),
        OutcomeView::NotFound { package } => Some(package),
        OutcomeView::Skip => None,
    }
}

/// Without a pinned release: a package whose entry in the primary
/// repository is outdated is reported with that entry's version; one
/// without such an entry is noted as not found if `show_not_found` asks for
/// it.
pub open spec fn plain_outcome(
    package: Seq<char>,
    entries: Seq<EntryView>,
    show_not_found: bool,
) -> OutcomeView {
    match entry_for_repo(entries, PRIMARY_REPO@) {
        Some(primary) => if primary.status == OUTDATED@ {
            OutcomeView::Report {
                package,
                current: primary.version,
                newest: newest_version(entries),
            }
        } else {
            OutcomeView::Skip
        },
        None => if show_not_found {
            OutcomeView::NotFound { package }
        } else {
            OutcomeView::Skip
        },
    }
}

/// With the pinned release `release`: a package is a candidate where the
/// primary repository and the release's repository both carry it and the
/// release's version is not the newest.
pub open spec fn release_candidate(
    package: Seq<char>,
    entries: Seq<EntryView>,
    release: Seq<char>,
) -> Option<CandidateView> {
    if entry_for_repo(entries, PRIMARY_REPO@) is None {
        None
    } else {
        match entry_for_repo(entries, release_repo(release)) {
            Some(pinned) => if pinned.version == newest_version(entries) {
                None
            } else {
                Some(
                    CandidateView {
                        package,
                        release,
                        current: pinned.version,
                        newest: newest_version(entries),
                    },
                )
            },
            None => None,
        }
    }
}

impl Outcome {
    /// The line to put out, if any.
    pub fn line(&self) -> (line: Option<String>)
        ensures
            line is Some == line_of(self@) is Some,
            line matches Some(text) ==> line_of(self@) == Some(text@),
    {
        match self {
            Outcome::Report { package, current, newest } => {
                let mut text = package.clone();
                text.append(REPORT_COLON);
                text.append(current.as_str());
                text.append(REPORT_ARROW);
                text.append(newest.as_str());
                Some(text)
            },
            Outcome::NotFound { package } => {
                Some(String::from_str(NOT_FOUND_NOTICE).concat(package.as_str()))
            },
            Outcome::Skip => None,
        }
    }
}

impl Candidate {
    /// The report of this candidate.
    pub fn report(&self) -> (outcome: Outcome)
        ensures
            outcome@ == (OutcomeView::Report {
                package: self@.package,
                current: self@.current,
                newest: self@.newest,
            }),
    {
        Outcome::Report {
            package: self.package.clone(),
            current: self.current.clone(),
            newest: self.newest.clone(),
        }
    }
}

/// What there is to say about `package` without a pinned release.
pub fn decide_plain(package: &str, entries: &Vec<RepoStatusEntry>, show_not_found: bool) -> (outcome:
    Outcome)
    ensures
        outcome@ == plain_outcome(package@, entry_views(entries@), show_not_found),
{
    match find_repo(entries, PRIMARY_REPO) {
        Some(i) => {
            if entries[i].is_outdated() {
                Outcome::Report {
                    package: String::from_str(package),
                    current: entries[i].version.clone(),
                    newest: find_newest_version(entries),
                }
            } else {
                Outcome::Skip
            }
        },
        None => {
            if show_not_found {
                Outcome::NotFound { package: String::from_str(package) }
            } else {
                Outcome::Skip
            }
        },
    }
}

/// Whether `package` is a candidate for a report in the pinned release
/// `release`.
pub fn find_candidate(package: &str, entries: &Vec<RepoStatusEntry>, release: &str) -> (candidate:
    Option<Candidate>)
    ensures
        candidate is Some == release_candidate(package@, entry_views(entries@), release@) is Some,
        candidate matches Some(c) ==> release_candidate(
            package@,
            entry_views(entries@),
            release@,
        ) == Some(c@),
{
    if find_repo(entries, PRIMARY_REPO).is_none() {
        return None;
    }
    let repo = release_repo_of(release);
    match find_repo(entries, repo.as_str()) {
        Some(i) => {
            let newest = find_newest_version(entries);
            if entries[i].version == newest {
                None
            } else {
                Some(
                    Candidate {
                        package: String::from_str(package),
                        release: String::from_str(release),
                        current: entries[i].version.clone(),
                        newest,
                    },
                )
            }
        },
        None => None,
    }
}

/// A package whose only entry in the primary repository is outdated is
/// reported, in one line, with that entry's version as the current one and
/// the newest known version as the one to reach.
pub proof fn lemma_outdated_is_reported(
    package: Seq<char>,
    entries: Seq<EntryView>,
    show_not_found: bool,
    i: int,
)
    requires
        0 <= i < entries.len(),
        entries[i].repo == PRIMARY_REPO@,
        entries[i].status == OUTDATED@,
        forall|j: int| 0 <= j < entries.len() && entries[j].repo == PRIMARY_REPO@ ==> j == i,
    ensures
        plain_outcome(package, entries, show_not_found) == (OutcomeView::Report {
            package,
            current: entries[i].version,
            newest: newest_version(entries),
        }),
        line_of(plain_outcome(package, entries, show_not_found)) == Some(
            package + REPORT_COLON@ + entries[i].version + REPORT_ARROW@ + newest_version(entries),
        ),
{
    assert(is_first_match(entries, in_repo(PRIMARY_REPO@), i));
    lemma_first_match_at(entries, in_repo(PRIMARY_REPO@), i);
}

/// A package that the primary repository does not carry is noted as not
/// found exactly where `show_not_found` asks for it, and is otherwise passed
/// over.
pub proof fn lemma_absent_is_noted_on_request(
    package: Seq<char>,
    entries: Seq<EntryView>,
    show_not_found: bool,
)
    requires
        !any_match(entries, in_repo(PRIMARY_REPO@)),
    ensures
        show_not_found ==> plain_outcome(package, entries, show_not_found) == (
        OutcomeView::NotFound { package }),
        !show_not_found ==> plain_outcome(package, entries, show_not_found) == OutcomeView::Skip,
        line_of(plain_outcome(package, entries, show_not_found)) == if show_not_found {
            Some(NOT_FOUND_NOTICE@ + package)
        } else {
            None
        },
{
    assert forall|j: int| 0 <= j < entries.len() implies !in_repo(PRIMARY_REPO@)(
        #[trigger] entries[j],
    ) by {}
    lemma_first_match_none(entries, in_repo(PRIMARY_REPO@));
}

/// A package whose version in the pinned release is the newest known one is
/// no candidate.
pub proof fn lemma_current_release_is_no_candidate(
    package: Seq<char>,
    entries: Seq<EntryView>,
    release: Seq<char>,
)
    requires
        entry_for_repo(entries, release_repo(release)) matches Some(pinned) && pinned.version
            == newest_version(entries),
    ensures
        release_candidate(package, entries, release) is None,
{
}

/// Whatever is said about a package is said under the name it was asked
/// about.
pub proof fn lemma_outcomes_keep_the_name(
    package: Seq<char>,
    entries: Seq<EntryView>,
    show_not_found: bool,
    release: Seq<char>,
)
    ensures
        subject_of(plain_outcome(package, entries, show_not_found)) matches Some(subject)
            ==> subject == package,
        release_candidate(package, entries, release) matches Some(candidate) ==> candidate.package
            == package,
{
}

} // verus!
