//! The build requirements of a spec file that name packaging macros.

use crate::error::{ErrorKind, Failure, FailureView};
use crate::text::{before_first, followed_by, contains, has_substring, join, joined, up_to_first, views_of};
use regex::Regex;
use vstd::prelude::*;
use vstd::string::StringExecFns;

verus! {

/// A line that requires something for the build, with the name required in
/// group `pkg` (inside `pkgconfig(..)` or `user(..)`) or in group `pkg2`.
pub const BUILD_REQUIRES_PATTERN: &'static str =
    "BuildRequires: *((pkgconfig|user)\\((?P<pkg>\\w+(-\\w*)*)\\)|(?P<pkg2>\\w.*(-\\w.*))) *(((>?=)|<) .* .*)?";

/// The group that holds a name given in brackets.
pub const BRACKETED_GROUP: &'static str = "pkg";

/// The group that holds a name given plainly.
pub const PLAIN_GROUP: &'static str = "pkg2";

/// A name that holds this is kept.
pub const MACRO_MARK: &'static str = "macro";

/// A name that holds this is kept too.
pub const RPM_MARK: &'static str = "rpm";

/// Stands between the names that are put out.
pub const NAME_SEPARATOR: &'static str = " ";

/// What the spec file of a package ends with.
pub const SPEC_SUFFIX: &'static str = ".spec";

/// What is said where the pattern does not compile.
pub const INVALID_PATTERN: &'static str = "invalid regex";

#[verifier::external_type_specification]
#[verifier::external_body]
pub struct ExRegex(Regex);

#[verifier::external_type_specification]
#[verifier::external_body]
pub struct ExRegexError(regex::Error);

/// The pattern that a compiled expression was made from.
pub uninterp spec fn pattern_of(re: Regex) -> Seq<char>;

/// Whether `pattern` compiles.
pub uninterp spec fn pattern_compiles(pattern: Seq<char>) -> bool;

/// Whether `pattern` matches somewhere in `haystack`.
pub uninterp spec fn pattern_matches(pattern: Seq<char>, haystack: Seq<char>) -> bool;

/// What group `group` holds in the leftmost match of `pattern` in
/// `haystack`, if it took part in the match.
pub uninterp spec fn group_text(pattern: Seq<char>, haystack: Seq<char>, group: Seq<char>) -> Option<
    Seq<char>,
>;

/// What a line that requires something for the build captured.
#[derive(Clone, Debug, PartialEq, Eq)]
pub struct Captured {
    pub bracketed: Option<String>,
    pub plain: Option<String>,
}

pub struct CapturedView {
    pub bracketed: Option<Seq<char>>,
    pub plain: Option<Seq<char>>,
}

/// The view of an optional string.
pub open spec fn text_view(text: Option<String>) -> Option<Seq<char>> {
    match text {
        Some(t) => Some(t@),
        None => None,
    }
}

impl View for Captured {
    type V = CapturedView;

    open spec fn view(&self) -> CapturedView {
        CapturedView { bracketed: text_view(self.bracketed), plain: text_view(self.plain) }
    }
}

/// What `line` captures under `pattern`, if the pattern matches in it.
pub open spec fn capture_of(pattern: Seq<char>, line: Seq<char>) -> Option<CapturedView> {
    if pattern_matches(pattern, line) {
        Some(
            CapturedView {
                bracketed: group_text(pattern, line, BRACKETED_GROUP@),
                plain: group_text(pattern, line, PLAIN_GROUP@),
            },
        )
    } else {
        None
    }
}

/// `Regex::new`: compiles `pattern`, or says why it cannot. The compiled
/// expression keeps the pattern it was made from.
#[verifier::external_body]
fn compile(pattern: &str) -> (compiled: Result<Regex, regex::Error>)
    ensures
        compiled is Ok <==> pattern_compiles(pattern@),
        compiled matches Ok(re) ==> pattern_of(re) == pattern@,
{
    Regex::new(pattern)
}

/// `Regex::captures`, then `Captures::name` for groups `first` and
/// `second`: whether the expression matches in `line`, and if so the text of
/// each of the two groups in its leftmost match.
#[verifier::external_body]
fn capture(re: &Regex, line: &str, first: &str, second: &str) -> (groups: Option<
    (Option<String>, Option<String>),
>)
    ensures
        groups is Some <==> pattern_matches(pattern_of(*re), line@),
        groups matches Some(found) ==> text_view(found.0) == group_text(
            pattern_of(*re),
            line@,
            first@,
        ) && text_view(found.1) == group_text(pattern_of(*re), line@, second@),
{
    let caps = re.captures(line)?;
    let first = caps.name(first).map(|m| m.as_str().to_owned());
    let second = caps.name(second).map(|m| m.as_str().to_owned());
    Some((first, second))
}

/// What `line` captures under the expression `re`.
fn captured_in(re: &Regex, line: &str) -> (captured: Option<Captured>)
    ensures
        captured is Some <==> capture_of(pattern_of(*re), line@) is Some,
        captured matches Some(c) ==> capture_of(pattern_of(*re), line@) == Some(c@),
{
    match capture(re, line, BRACKETED_GROUP, PLAIN_GROUP) {
        Some((bracketed, plain)) => Some(Captured { bracketed, plain }),
        None => None,
    }
}

/// `name` is that of a packaging macro: it holds `macro` or `rpm`.
pub open spec fn is_macro_name(name: Seq<char>) -> bool {
    contains(name, MACRO_MARK@) || contains(name, RPM_MARK@)
}

/// The name that a capture gives: the bracketed one, else the plain one.
pub open spec fn name_of(captured: Option<CapturedView>) -> Option<Seq<char>> {
    match captured {
        Some(c) => match c.bracketed {
            Some(name) => Some(name),
            None => c.plain,
        },
        None => None,
    }
}

/// The name that is kept of a capture: the one it gives, if that is the
/// name of a packaging macro.
pub open spec fn kept_of(captured: Option<CapturedView>) -> Option<Seq<char>> {
    match name_of(captured) {
        Some(name) => if is_macro_name(name) {
            Some(name)
        } else {
            None
        },
        None => None,
    }
}

/// The names kept of `lines` under `pattern`, in the order of the lines.
pub open spec fn macro_names(pattern: Seq<char>, lines: Seq<Seq<char>>) -> Seq<Seq<char>>
    decreases lines.len(),
{
    if lines.len() == 0 {
        Seq::empty()
    } else {
        let before = macro_names(pattern, lines.drop_last());
        match kept_of(capture_of(pattern, lines.last())) {
            Some(name) => before.push(name),
            None => before,
        }
    }
}

/// The package that is built in the directory named `directory`: what
/// stands in front of the first dot.
pub open spec fn package_of_directory(directory: Seq<char>) -> Seq<char> {
    before_first(directory, '.')
}

/// The spec file of `package`.
pub open spec fn spec_file_of(package: Seq<char>) -> Seq<char> {
    package + SPEC_SUFFIX@
}

/// The failure of a pattern that does not compile.
pub open spec fn pattern_failure() -> FailureView {
    FailureView { kind: ErrorKind::Pattern, message: INVALID_PATTERN@ }
}

/// Is `name` that of a packaging macro?
pub fn names_macro(name: &str) -> (yes: bool)
    ensures
        yes == is_macro_name(name@),
{
    has_substring(name, MACRO_MARK) || has_substring(name, RPM_MARK)
}

/// The name that is kept of a capture.
pub fn keep(captured: Option<Captured>) -> (kept: Option<String>)
    ensures
        text_view(kept) == kept_of(
            match captured {
                Some(c) => Some(c@),
                None => None,
            },
        ),
{
    match captured {
        Some(c) => {
            let name = match c.bracketed {
                Some(name) => Some(name),
                None => c.plain,
            };
            match name {
                Some(name) => if names_macro(name.as_str()) {
                    Some(name)
                } else {
                    None
                },
                None => None,
            }
        },
        None => None,
    }
}

/// The package that is built in the directory named `directory`.
pub fn package_in(directory: &str) -> (package: String)
    ensures
        package@ == package_of_directory(directory@),
{
    up_to_first(directory, '.')
}

/// The spec file of `package`.
pub fn spec_file(package: &str) -> (file: String)
    ensures
        file@ == spec_file_of(package@),
{
    followed_by(package, SPEC_SUFFIX)
}

/// The build requirements among `lines` that name packaging macros, with a
/// blank between each two; a failure where the pattern does not compile.
pub fn required_macros(lines: &Vec<String>) -> (found: Result<String, Failure>)
    ensures
        found is Ok <==> pattern_compiles(BUILD_REQUIRES_PATTERN@),
        found matches Ok(text) ==> text@ == join(
            macro_names(BUILD_REQUIRES_PATTERN@, views_of(lines@)),
            NAME_SEPARATOR@,
        ),
        found matches Err(failure) ==> failure@ == pattern_failure(),
{
    let re = match compile(BUILD_REQUIRES_PATTERN) {
        Ok(re) => re,
        Err(_) => {
            return Err(Failure::new(ErrorKind::Pattern, String::from_str(INVALID_PATTERN)));
        },
    };
    let mut names: Vec<String> = Vec::new();
    let mut i: usize = 0;
    while i < lines.len()
        invariant
            i <= lines@.len(),
            pattern_of(re) == BUILD_REQUIRES_PATTERN@,
            views_of(names@) == macro_names(
                BUILD_REQUIRES_PATTERN@,
                views_of(lines@).take(i as int),
            ),
        decreases lines.len() - i,
    {
        let ghost before = names@;
        let captured = captured_in(&re, lines[i].as_str());
        match keep(captured) {
            Some(name) => {
                names.push(name);
                assert(views_of(names@) =~= views_of(before).push(name@));
            },
            None => {},
        }
        i += 1;
        proof {
            let done = views_of(lines@).take(i as int);
            assert(done.drop_last() =~= views_of(lines@).take(i - 1));
            assert(done.last() == lines@[i - 1]@);
        }
    }
    assert(views_of(lines@).take(i as int) =~= views_of(lines@));
    Ok(joined(&names, NAME_SEPARATOR))
}

} // verus!
