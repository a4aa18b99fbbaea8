//! Whether an update can reach a pinned release: the branches that a
//! package has, held against the update lines of the release.

use crate::decision::{Candidate, CandidateView, Outcome, OutcomeView};
use crate::error::{ErrorKind, Failure, FailureView};
use crate::scan::{
    any_match, first_match, first_match_index, lemma_first_match_at, lemma_first_match_none,
};
use crate::text::{followed_by, views_of};
use vstd::prelude::*;
use vstd::string::StringExecFns;

verus! {

/// What the project of a maintenance line starts with.
pub const MAINTENANCE_PREFIX: &'static str = "SUSE:";

/// What the project of a backports line starts with.
pub const BACKPORTS_PREFIX: &'static str = "openSUSE:Backports:";

/// What is said of a release without update lines, up to the release.
pub const UNMAPPED_NOTICE: &'static str = "no update lines are known for release ";

/// Where a branch would go.
#[derive(Clone, Debug, PartialEq, Eq)]
pub struct BranchTarget {
    pub project: String,
    pub package: String,
}

/// One branch of a package.
#[derive(Clone, Debug, PartialEq, Eq)]
pub struct BranchEntry {
    pub project: String,
    pub package: String,
    pub target: BranchTarget,
}

/// The branches of a package across the build service.
#[derive(Clone, Debug, PartialEq, Eq)]
pub struct BranchListing {
    pub packages: Vec<BranchEntry>,
}

/// The projects that own the `branches`, in order.
pub open spec fn owners_of(branches: Seq<BranchEntry>) -> Seq<Seq<char>> {
    Seq::new(branches.len(), |i: int| branches[i].project@)
}

impl View for BranchListing {
    /// The projects that own the branches: all that is read of them.
    type V = Seq<Seq<char>>;

    open spec fn view(&self) -> Seq<Seq<char>> {
        owners_of(self.packages@)
    }
}

/// The update lines of one release.
#[derive(Clone, Debug, PartialEq, Eq)]
pub struct ReleaseLine {
    /// The release, as it is asked for.
    pub release: String,
    /// The newest update line.
    pub latest: String,
    /// The update lines before it.
    pub older: Vec<String>,
}

pub struct ReleaseLineView {
    pub release: Seq<char>,
    pub latest: Seq<char>,
    pub older: Seq<Seq<char>>,
}

impl View for ReleaseLine {
    type V = ReleaseLineView;

    open spec fn view(&self) -> ReleaseLineView {
        ReleaseLineView { release: self.release@, latest: self.latest@, older: views_of(self.older@) }
    }
}

/// The update lines of the releases that can be asked for.
#[derive(Clone, Debug, PartialEq, Eq)]
pub struct EligibilityTable {
    pub lines: Vec<ReleaseLine>,
}

/// The views of `lines`, in order.
pub open spec fn line_views(lines: Seq<ReleaseLine>) -> Seq<ReleaseLineView> {
    Seq::new(lines.len(), |i: int| lines[i]@)
}

impl View for EligibilityTable {
    type V = Seq<ReleaseLineView>;

    open spec fn view(&self) -> Seq<ReleaseLineView> {
        line_views(self.lines@)
    }
}

/// The lines of release `release`.
pub open spec fn of_release(release: Seq<char>) -> spec_fn(ReleaseLineView) -> bool {
    |line: ReleaseLineView| line.release == release
}

/// The first line of `table` for `release`.
pub open spec fn line_for(table: Seq<ReleaseLineView>, release: Seq<char>) -> Option<
    ReleaseLineView,
> {
    first_match(table, of_release(release))
}

/// The project of the maintenance line `line`.
pub open spec fn maintenance_project(line: Seq<char>) -> Seq<char> {
    MAINTENANCE_PREFIX@ + line
}

/// The project of the backports line `line`.
pub open spec fn backports_project(line: Seq<char>) -> Seq<char> {
    BACKPORTS_PREFIX@ + line
}

/// A branch is owned by the newest maintenance line.
pub open spec fn already_in_latest(owners: Seq<Seq<char>>, line: ReleaseLineView) -> bool {
    owners.contains(maintenance_project(line.latest))
}

/// A branch is owned by the backports of the newest line.
pub open spec fn in_latest_backports(owners: Seq<Seq<char>>, line: ReleaseLineView) -> bool {
    owners.contains(backports_project(line.latest))
}

/// A branch is owned by the backports of an older line.
pub open spec fn in_older_backports(owners: Seq<Seq<char>>, line: ReleaseLineView) -> bool {
    exists|k: int|
        0 <= k < line.older.len() && owners.contains(backports_project(#[trigger] line.older[k]))
}

/// A package is reported where the backports of the newest line have it,
/// or where the newest line lacks it and the backports of an older line
/// have it.
pub open spec fn eligible(owners: Seq<Seq<char>>, line: ReleaseLineView) -> bool {
    in_latest_backports(owners, line) || (!already_in_latest(owners, line) && in_older_backports(
        owners,
        line,
    ))
}

/// What is said of a release without update lines.
pub open spec fn unmapped_failure(release: Seq<char>) -> FailureView {
    FailureView {
        kind: ErrorKind::UnmappedDistributionVersion,
        message: UNMAPPED_NOTICE@ + release,
    }
}

/// What there is to say of `candidate`, whose branches are owned by
/// `owners`: a failure where `table` has no line for its release, else its
/// report if it is eligible, else nothing.
pub open spec fn verdict(
    table: Seq<ReleaseLineView>,
    candidate: CandidateView,
    owners: Seq<Seq<char>>,
) -> Result<OutcomeView, FailureView> {
    match line_for(table, candidate.release) {
        Some(line) => Ok(
            if eligible(owners, line) {
                OutcomeView::Report {
                    package: candidate.package,
                    current: candidate.current,
                    newest: candidate.newest,
                }
            } else {
                OutcomeView::Skip
            },
        ),
        None => Err(unmapped_failure(candidate.release)),
    }
}

impl BranchListing {
    /// Does `project` own one of the branches?
    pub fn has_owner(&self, project: &str) -> (yes: bool)
        ensures
            yes == self@.contains(project@),
    {
        let mut i: usize = 0;
        while i < self.packages.len()
            invariant
                i <= self.packages@.len(),
                forall|j: int| 0 <= j < i ==> self@[j] != project@,
            decreases self.packages.len() - i,
        {
            if *self.packages[i].project.as_str() == *project {
                assert(self@[i as int] == project@);
                return true;
            }
            i += 1;
        }
        false
    }
}

impl ReleaseLine {
    /// The update lines of `release`: `latest`, and before it `older`.
    pub fn new(release: &str, latest: &str, older: Vec<String>) -> (line: ReleaseLine)
        ensures
            line@ == (ReleaseLineView {
                release: release@,
                latest: latest@,
                older: views_of(older@),
            }),
    {
        ReleaseLine { release: String::from_str(release), latest: String::from_str(latest), older }
    }

    /// Whether a package whose branches are listed in `listing` is reported.
    pub fn admits(&self, listing: &BranchListing) -> (yes: bool)
        ensures
            yes == eligible(listing@, self@),
    {
        let latest_backports = followed_by(BACKPORTS_PREFIX, self.latest.as_str());
        if listing.has_owner(latest_backports.as_str()) {
            return true;
        }
        let latest_maintenance = followed_by(MAINTENANCE_PREFIX, self.latest.as_str());
        if listing.has_owner(latest_maintenance.as_str()) {
            return false;
        }
        let mut k: usize = 0;
        while k < self.older.len()
            invariant
                k <= self.older@.len(),
                !in_latest_backports(listing@, self@),
                !already_in_latest(listing@, self@),
                forall|j: int|
                    0 <= j < k ==> !listing@.contains(backports_project(#[trigger] self@.older[j])),
            decreases self.older.len() - k,
        {
            let project = followed_by(BACKPORTS_PREFIX, self.older[k].as_str());
            if listing.has_owner(project.as_str()) {
                assert(listing@.contains(backports_project(self@.older[k as int])));
                return true;
            }
            k += 1;
        }
        false
    }
}

impl EligibilityTable {
    /// A table without lines.
    pub fn new() -> (table: EligibilityTable)
        ensures
            table@ == Seq::<ReleaseLineView>::empty(),
    {
        let table = EligibilityTable { lines: Vec::new() };
        assert(table@ =~= Seq::<ReleaseLineView>::empty());
        table
    }

    /// The table of the releases that are known: 15.4, whose newest line is
    /// SLE-15-SP4, after SLE-15-SP3:Update and SLE-15-SP2:Update.
    pub fn standard() -> (table: EligibilityTable)
        ensures
            table@ == seq![
                ReleaseLineView {
                    release: "15.4"@,
                    latest: "SLE-15-SP4"@,
                    older: seq!["SLE-15-SP3:Update"@, "SLE-15-SP2:Update"@],
                },
            ],
    {
        let mut older: Vec<String> = Vec::new();
        older.push(String::from_str("SLE-15-SP3:Update"));
        older.push(String::from_str("SLE-15-SP2:Update"));
        assert(views_of(older@) =~= seq!["SLE-15-SP3:Update"@, "SLE-15-SP2:Update"@]);
        let mut lines: Vec<ReleaseLine> = Vec::new();
        lines.push(ReleaseLine::new("15.4", "SLE-15-SP4", older));
        let table = EligibilityTable { lines };
        assert(table@ =~= seq![
            ReleaseLineView {
                release: "15.4"@,
                latest: "SLE-15-SP4"@,
                older: seq!["SLE-15-SP3:Update"@, "SLE-15-SP2:Update"@],
            },
        ]);
        table
    }

    /// This table with `line` after its lines: the line counts for its
    /// release unless an earlier one does.
    pub fn with_line(self, line: ReleaseLine) -> (table: EligibilityTable)
        ensures
            table@ == self@.push(line@),
    {
        let mut lines = self.lines;
        lines.push(line);
        let table = EligibilityTable { lines };
        assert(table@ =~= self@.push(line@));
        table
    }

    /// The position of the first line for `release`.
    pub fn find(&self, release: &str) -> (found: Option<usize>)
        ensures
            match found {
                Some(i) => i < self.lines@.len() && first_match_index(self@, of_release(release@))
                    == Some(i as int) && line_for(self@, release@) == Some(self.lines@[i as int]@),
                None => line_for(self@, release@) is None,
            },
    {
        let mut i: usize = 0;
        while i < self.lines.len()
            invariant
                i <= self.lines@.len(),
                forall|j: int| 0 <= j < i ==> !of_release(release@)(#[trigger] self@[j]),
            decreases self.lines.len() - i,
        {
            if *self.lines[i].release.as_str() == *release {
                proof {
                    lemma_first_match_at(self@, of_release(release@), i as int);
                }
                return Some(i);
            }
            i += 1;
        }
        proof {
            lemma_first_match_none(self@, of_release(release@));
        }
        None
    }

    /// What there is to say of `candidate`, whose branches are listed in
    /// `listing`.
    pub fn judge(&self, candidate: &Candidate, listing: &BranchListing) -> (judged: Result<
        Outcome,
        Failure,
    >)
        ensures
            match verdict(self@, candidate@, listing@) {
                Ok(outcome) => judged matches Ok(o) && o@ == outcome,
                Err(failure) => judged matches Err(f) && f@ == failure,
            },
    {
        match self.find(candidate.release.as_str()) {
            Some(i) => {
                if self.lines[i].admits(listing) {
                    Ok(candidate.report())
                } else {
                    Ok(Outcome::Skip)
                }
            },
            None => Err(
                Failure::new(
                    ErrorKind::UnmappedDistributionVersion,
                    followed_by(UNMAPPED_NOTICE, candidate.release.as_str()),
                ),
            ),
        }
    }
}

/// A release without a line in the table fails every candidate, whatever
/// its branches.
pub proof fn lemma_unmapped_release_fails(
    table: Seq<ReleaseLineView>,
    candidate: CandidateView,
    owners: Seq<Seq<char>>,
)
    requires
        !any_match(table, of_release(candidate.release)),
    ensures
        verdict(table, candidate, owners) == Err::<OutcomeView, FailureView>(
            unmapped_failure(candidate.release),
        ),
{
    assert forall|j: int| 0 <= j < table.len() implies !of_release(candidate.release)(
        #[trigger] table[j],
    ) by {}
    lemma_first_match_none(table, of_release(candidate.release));
}

} // verus!
