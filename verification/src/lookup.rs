//! The tracking service: under which name a package is looked up, where,
//! and what a failed lookup becomes.

use crate::error::{kind_of_fault, Failure, FailureView, Fault, FaultKind};
use crate::registry::{Method, Request, RequestView};
use crate::text::{followed_by, strip_prefix, without_prefix};
use vstd::prelude::*;
use vstd::string::StringExecFns;

verus! {

/// Where the tracking service answers for a package, up to its name.
pub const TRACKER_ROOT: &'static str = "https://repology.org/api/v1/project/";

/// The prefix of the packaging convention that the tracking service does
/// not know of.
pub const KNOWN_PREFIX: &'static str = "python-";

/// What is said of a lookup that did not get through, up to the package.
pub const LOOKUP_UNREACHABLE: &'static str =
    "unable to get project information from repology for package ";

/// Stands in front of the name that was looked up, where it is not the
/// package's own.
pub const SEARCHED_FOR: &'static str = ", searched for ";

/// What is said of an answer that could not be read, up to the package.
pub const LOOKUP_UNREADABLE: &'static str = "unable to deserialize json for package ";

/// The name under which the tracking service knows `package`: its name
/// without the known prefix.
pub open spec fn upstream_name(package: Seq<char>) -> Seq<char> {
    strip_prefix(package, KNOWN_PREFIX@)
}

/// Where `package` is looked up.
pub open spec fn lookup_url(package: Seq<char>) -> Seq<char> {
    TRACKER_ROOT@ + upstream_name(package)
}

/// The request that looks `package` up.
pub open spec fn lookup_request_of(package: Seq<char>) -> RequestView {
    RequestView { method: Method::Get, url: lookup_url(package), authorization: None }
}

/// What is said where the lookup of `package` did not get through: the
/// package, and the name looked up where that is another.
pub open spec fn unreachable_message(package: Seq<char>) -> Seq<char> {
    if upstream_name(package) == package {
        LOOKUP_UNREACHABLE@ + package
    } else {
        LOOKUP_UNREACHABLE@ + package + SEARCHED_FOR@ + upstream_name(package)
    }
}

/// What a failed lookup of `package` becomes.
pub open spec fn lookup_failure(package: Seq<char>, kind: FaultKind) -> FailureView {
    FailureView {
        kind: kind_of_fault(kind),
        message: match kind {
            FaultKind::Transport => unreachable_message(package),
            FaultKind::Decode => LOOKUP_UNREADABLE@ + package,
        },
    }
}

/// The name under which the tracking service knows `package`.
pub fn upstream_name_of(package: &str) -> (name: String)
    ensures
        name@ == upstream_name(package@),
{
    without_prefix(package, KNOWN_PREFIX)
}

/// The request that looks `package` up.
pub fn lookup_request(package: &str) -> (request: Request)
    ensures
        request@ == lookup_request_of(package@),
{
    let name = upstream_name_of(package);
    Request { method: Method::Get, url: followed_by(TRACKER_ROOT, name.as_str()), authorization: None }
}

/// What a failed lookup of `package` becomes.
pub fn lookup_failure_of(package: &str, fault: &Fault) -> (failure: Failure)
    ensures
        failure@ == lookup_failure(package@, fault@.kind),
{
    let message = match fault.kind {
        FaultKind::Transport => {
            let name = upstream_name_of(package);
            let mut message = followed_by(LOOKUP_UNREACHABLE, package);
            if *name.as_str() != *package {
                message.append(SEARCHED_FOR);
                message.append(name.as_str());
            }
            message
        },
        FaultKind::Decode => followed_by(LOOKUP_UNREADABLE, package),
    };
    Failure::new(fault.kind.error_kind(), message)
}

/// A package that carries the known prefix is looked up without it.
pub proof fn lemma_prefixed_is_looked_up_stripped(rest: Seq<char>)
    ensures
        upstream_name(KNOWN_PREFIX@ + rest) == rest,
        lookup_url(KNOWN_PREFIX@ + rest) == TRACKER_ROOT@ + rest,
{
    let package = KNOWN_PREFIX@ + rest;
    assert(package.subrange(0, KNOWN_PREFIX@.len() as int) =~= KNOWN_PREFIX@);
    assert(package.skip(KNOWN_PREFIX@.len() as int) =~= rest);
}

/// A package that does not carry the known prefix is looked up under its
/// own name.
pub proof fn lemma_unprefixed_is_looked_up_as_is(package: Seq<char>)
    requires
        !KNOWN_PREFIX@.is_prefix_of(package),
    ensures
        upstream_name(package) == package,
        lookup_url(package) == TRACKER_ROOT@ + package,
{
}

} // verus!
