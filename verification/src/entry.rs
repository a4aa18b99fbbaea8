//! What the tracking service knows of one package: one entry for each
//! repository that carries it.

use crate::scan::{first_match, first_match_index, lemma_first_match_at, lemma_first_match_none};
use crate::text::{followed_by, replace_char, with_replaced};
use vstd::prelude::*;
use vstd::string::StringExecFns;

verus! {

/// The rolling-release repository that versions are held against.
pub const PRIMARY_REPO: &'static str = "opensuse_tumbleweed";

/// What the repository of a pinned release starts with.
pub const RELEASE_REPO_PREFIX: &'static str = "opensuse_leap_";

/// The status of an entry that is behind.
pub const OUTDATED: &'static str = "outdated";

/// The status of an entry that carries the newest version.
pub const NEWEST: &'static str = "newest";

/// Stands for the newest version where no entry carries it.
pub const UNKNOWN_VERSION: &'static str = "?";

/// A package's state in one repository. Only `repo`, `version` and `status`
/// are read here; the other fields are carried along.
#[derive(Clone, Debug, PartialEq, Eq)]
pub struct RepoStatusEntry {
    pub repo: String,
    pub subrepo: Option<String>,
    pub srcname: Option<String>,
    pub visiblename: String,
    pub version: String,
    pub maintainers: Option<Vec<String>>,
    pub categories: Option<Vec<String>>,
    pub status: String,
    pub origversion: Option<String>,
}

/// The part of an entry that decisions rest on.
pub struct EntryView {
    pub repo: Seq<char>,
    pub version: Seq<char>,
    pub status: Seq<char>,
}

impl View for RepoStatusEntry {
    type V = EntryView;

    open spec fn view(&self) -> EntryView {
        EntryView { repo: self.repo@, version: self.version@, status: self.status@ }
    }
}

/// The views of `entries`, in order.
pub open spec fn entry_views(entries: Seq<RepoStatusEntry>) -> Seq<EntryView> {
    Seq::new(entries.len(), |i: int| entries[i]@)
}

/// The entries of repository `repo`.
pub open spec fn in_repo(repo: Seq<char>) -> spec_fn(EntryView) -> bool {
    |e: EntryView| e.repo == repo
}

/// The entries that carry the newest version.
pub open spec fn is_newest() -> spec_fn(EntryView) -> bool {
    |e: EntryView| e.status == NEWEST@
}

/// The first entry of repository `repo`.
pub open spec fn entry_for_repo(entries: Seq<EntryView>, repo: Seq<char>) -> Option<EntryView> {
    first_match(entries, in_repo(repo))
}

/// The version of the first entry whose status is `newest`; `"?"` where
/// there is none.
pub open spec fn newest_version(entries: Seq<EntryView>) -> Seq<char> {
    match first_match(entries, is_newest()) {
        Some(e) => e.version,
        None => UNKNOWN_VERSION@,
    }
}

/// The repository of the pinned release `release`: the prefix, then the
/// release with `_` for each `.`.
pub open spec fn release_repo(release: Seq<char>) -> Seq<char> {
    RELEASE_REPO_PREFIX@ + replace_char(release, '.', '_')
}

impl RepoStatusEntry {
    /// An entry of `repo` with `version` and `status`, and nothing else.
    pub fn new(repo: &str, version: &str, status: &str) -> (entry: RepoStatusEntry)
        ensures
            entry@ == (EntryView { repo: repo@, version: version@, status: status@ }),
    {
        RepoStatusEntry {
            repo: String::from_str(repo),
            subrepo: None,
            srcname: None,
            visiblename: String::new(),
            version: String::from_str(version),
            maintainers: None,
            categories: None,
            status: String::from_str(status),
            origversion: None,
        }
    }

    /// Is this entry behind?
    pub fn is_outdated(&self) -> (yes: bool)
        ensures
            yes == (self@.status == OUTDATED@),
    {
        *self.status.as_str() == *OUTDATED
    }
}

/// The position of the first entry of repository `repo`.
pub fn find_repo(entries: &Vec<RepoStatusEntry>, repo: &str) -> (found: Option<usize>)
    ensures
        match found {
            Some(i) => first_match_index(entry_views(entries@), in_repo(repo@)) == Some(i as int)
                && i < entries@.len()
                && entry_for_repo(entry_views(entries@), repo@) == Some(entries@[i as int]@),
            None => entry_for_repo(entry_views(entries@), repo@) is None,
        },
{
    let ghost views = entry_views(entries@);
    let mut i: usize = 0;
    while i < entries.len()
        invariant
            i <= entries@.len(),
            views == entry_views(entries@),
            forall|j: int| 0 <= j < i ==> !in_repo(repo@)(#[trigger] views[j]),
        decreases entries.len() - i,
    {
        if *entries[i].repo.as_str() == *repo {
            proof {
                lemma_first_match_at(views, in_repo(repo@), i as int);
            }
            return Some(i);
        }
        i += 1;
    }
    proof {
        lemma_first_match_none(views, in_repo(repo@));
    }
    None
}

/// The newest version that `entries` know of.
pub fn find_newest_version(entries: &Vec<RepoStatusEntry>) -> (version: String)
    ensures
        version@ == newest_version(entry_views(entries@)),
{
    let ghost views = entry_views(entries@);
    let mut i: usize = 0;
    while i < entries.len()
        invariant
            i <= entries@.len(),
            views == entry_views(entries@),
            forall|j: int| 0 <= j < i ==> !is_newest()(#[trigger] views[j]),
        decreases entries.len() - i,
    {
        if *entries[i].status.as_str() == *NEWEST {
            proof {
                lemma_first_match_at(views, is_newest(), i as int);
            }
            return entries[i].version.clone();
        }
        i += 1;
    }
    proof {
        lemma_first_match_none(views, is_newest());
    }
    String::from_str(UNKNOWN_VERSION)
}

/// The repository of the pinned release `release`.
pub fn release_repo_of(release: &str) -> (repo: String)
    ensures
        repo@ == release_repo(release@),
{
    let tail = with_replaced(release, '.', '_');
    followed_by(RELEASE_REPO_PREFIX, tail.as_str())
}

} // verus!
