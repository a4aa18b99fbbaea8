//! The build service: who asks, what is asked of it, and what it answers.

use crate::error::{kind_of_fault, ErrorKind, Failure, FailureView, Fault, FaultKind, FaultView};
use crate::text::{followed_by, views_of};
use vstd::prelude::*;
use vstd::string::StringExecFns;
use vstd::utf8::encode_utf8;

verus! {

/// Where the build service answers.
pub const API_ROOT: &'static str = "https://api.opensuse.org";

/// The search for the packages of a maintainer, up to the user's name.
pub const SEARCH_HEAD: &'static str = "/search/package/id?match=person/@userid+=+'";

/// The search for the packages of a maintainer, after the user's name.
pub const SEARCH_TAIL: &'static str = "'+and+person/@role+=+'maintainer'";

/// The probe for the branches of a package, up to the package's name. It
/// asks for a dry run, which creates nothing.
pub const BRANCH_HEAD: &'static str = "/source?cmd=branch&dryrun=1&package=";

/// The probe for the branches of a package, after the package's name.
pub const BRANCH_TAIL: &'static str = "&update_project_attribute=OBS:UpdateProject";

/// The scheme of the credentials that go with a request.
pub const BASIC_SCHEME: &'static str = "Basic ";

/// Stands between the user's name and the secret.
pub const CREDENTIAL_COLON: &'static str = ":";

/// What is said where credentials are too long to be sent.
pub const CREDENTIALS_TOO_LONG: &'static str = "the credentials are too long to be encoded";

/// What is said where the build service did not answer.
pub const REGISTRY_UNREACHABLE: &'static str = "unable to get maintained projects";

/// The base64 text, standard alphabet with padding, of the UTF-8 bytes of
/// `text`.
pub uninterp spec fn base64_text(text: Seq<char>) -> Seq<char>;

/// `base64::encode`: the standard alphabet, with padding. It gives up where
/// the length of its result does not fit the machine's word, which
/// `requires` leaves out.
#[verifier::external_body]
fn encode_standard(text: &str) -> (encoded: String)
    requires
        encodable(text@),
    ensures
        encoded@ == base64_text(text@),
{
    base64::encode(text)
}

/// The base64 text of `text` has a length that the machine can hold.
pub open spec fn encodable(text: Seq<char>) -> bool {
    encode_utf8(text).len() / 3 * 4 + 4 <= usize::MAX
}

/// The user's name, a colon, the secret.
pub open spec fn credentials(username: Seq<char>, password: Seq<char>) -> Seq<char> {
    username + CREDENTIAL_COLON@ + password
}

/// What goes with a request to say who asks.
pub open spec fn authorization_of(username: Seq<char>, password: Seq<char>) -> Seq<char> {
    BASIC_SCHEME@ + base64_text(credentials(username, password))
}

/// Where the packages that `username` maintains are asked for.
pub open spec fn search_url(username: Seq<char>) -> Seq<char> {
    API_ROOT@ + SEARCH_HEAD@ + username + SEARCH_TAIL@
}

/// Where the branches of `package` are asked for.
pub open spec fn branch_url(package: Seq<char>) -> Seq<char> {
    API_ROOT@ + BRANCH_HEAD@ + package + BRANCH_TAIL@
}

/// How a request is made.
#[derive(Clone, Copy, Debug, PartialEq, Eq, Structural)]
pub enum Method {
    Get,
    Post,
}

/// A request for the caller to send.
#[derive(Clone, Debug, PartialEq, Eq)]
pub struct Request {
    pub method: Method,
    pub url: String,
    /// The value of the `Authorization` header, where one is sent.
    pub authorization: Option<String>,
}

pub struct RequestView {
    pub method: Method,
    pub url: Seq<char>,
    pub authorization: Option<Seq<char>>,
}

impl View for Request {
    type V = RequestView;

    open spec fn view(&self) -> RequestView {
        RequestView {
            method: self.method,
            url: self.url@,
            authorization: match self.authorization {
                Some(value) => Some(value@),
                None => None,
            },
        }
    }
}

/// The request for the packages that `username` maintains.
pub open spec fn maintained_request_of(username: Seq<char>, password: Seq<char>) -> RequestView {
    RequestView {
        method: Method::Get,
        url: search_url(username),
        authorization: Some(authorization_of(username, password)),
    }
}

/// The request for the branches of `package`.
pub open spec fn branch_request_of(
    username: Seq<char>,
    password: Seq<char>,
    package: Seq<char>,
) -> RequestView {
    RequestView {
        method: Method::Post,
        url: branch_url(package),
        authorization: Some(authorization_of(username, password)),
    }
}

/// A user of the build service and the secret that goes with the name.
pub struct Config {
    username: String,
    password: String,
}

impl Config {
    #[verifier::type_invariant]
    spec fn sendable(&self) -> bool {
        encodable(credentials(self.username@, self.password@))
    }

    /// The user's name.
    pub closed spec fn spec_username(&self) -> Seq<char> {
        self.username@
    }

    /// The secret.
    pub closed spec fn spec_password(&self) -> Seq<char> {
        self.password@
    }

    /// The credentials made of `username` and `password`, unless they are
    /// too long to be sent.
    pub fn new(username: &str, password: &str) -> (made: Result<Config, Failure>)
        ensures
            made is Ok <==> encodable(credentials(username@, password@)),
            made matches Ok(config) ==> config.spec_username() == username@
                && config.spec_password() == password@,
            made matches Err(failure) ==> failure@ == (FailureView {
                kind: ErrorKind::Config,
                message: CREDENTIALS_TOO_LONG@,
            }),
    {
        let mut both = String::from_str(username);
        both.append(CREDENTIAL_COLON);
        both.append(password);
        let bytes = both.as_str().as_bytes();
        if bytes.len() / 3 <= (usize::MAX - 4) / 4 {
            Ok(Config { username: String::from_str(username), password: String::from_str(password) })
        } else {
            Err(Failure::new(ErrorKind::Config, String::from_str(CREDENTIALS_TOO_LONG)))
        }
    }

    /// The user's name.
    pub fn username(&self) -> (name: &str)
        ensures
            name@ == self.spec_username(),
    {
        self.username.as_str()
    }

    /// The secret.
    pub fn password(&self) -> (secret: &str)
        ensures
            secret@ == self.spec_password(),
    {
        self.password.as_str()
    }

    /// What goes with a request to say who asks.
    pub fn authorization(&self) -> (value: String)
        ensures
            value@ == authorization_of(self.spec_username(), self.spec_password()),
    {
        proof {
            use_type_invariant(self);
        }
        let mut both = self.username.clone();
        both.append(CREDENTIAL_COLON);
        both.append(self.password.as_str());
        let encoded = encode_standard(both.as_str());
        followed_by(BASIC_SCHEME, encoded.as_str())
    }

    /// The request for the packages that this user maintains.
    pub fn maintained_request(&self) -> (request: Request)
        ensures
            request@ == maintained_request_of(self.spec_username(), self.spec_password()),
    {
        let mut url = String::from_str(API_ROOT);
        url.append(SEARCH_HEAD);
        url.append(self.username.as_str());
        url.append(SEARCH_TAIL);
        Request { method: Method::Get, url, authorization: Some(self.authorization()) }
    }

    /// The request for the branches of `package`: a dry run, which creates
    /// none.
    pub fn branch_request(&self, package: &str) -> (request: Request)
        ensures
            request@ == branch_request_of(self.spec_username(), self.spec_password(), package@),
    {
        let mut url = String::from_str(API_ROOT);
        url.append(BRANCH_HEAD);
        url.append(package);
        url.append(BRANCH_TAIL);
        Request { method: Method::Post, url, authorization: Some(self.authorization()) }
    }
}

/// One package that the search found.
#[derive(Clone, Debug, PartialEq, Eq)]
pub struct SearchPackage {
    pub project: String,
    pub name: String,
}

/// What the search for a maintainer's packages answers.
#[derive(Clone, Debug, PartialEq, Eq)]
pub struct SearchCollection {
    pub matches: String,
    pub packages: Vec<SearchPackage>,
}

/// The names of `packages`, in order.
pub open spec fn names_of(packages: Seq<SearchPackage>) -> Seq<Seq<char>> {
    Seq::new(packages.len(), |i: int| packages[i].name@)
}

impl SearchCollection {
    /// The names of the packages found, in the order of the answer.
    pub fn names(&self) -> (names: Vec<String>)
        ensures
            views_of(names@) == names_of(self.packages@),
    {
        let mut names: Vec<String> = Vec::new();
        let mut i: usize = 0;
        while i < self.packages.len()
            invariant
                i <= self.packages@.len(),
                names@.len() == i,
                forall|j: int| 0 <= j < i ==> (#[trigger] names@[j])@ == self.packages@[j].name@,
            decreases self.packages.len() - i,
        {
            names.push(self.packages[i].name.clone());
            i += 1;
        }
        assert(views_of(names@) =~= names_of(self.packages@));
        names
    }
}

/// What a failed request to the build service becomes: a request that did
/// not get through says so; an answer that could not be read says what its
/// reader said.
pub open spec fn registry_failure(fault: FaultView) -> FailureView {
    FailureView {
        kind: kind_of_fault(fault.kind),
        message: match fault.kind {
            FaultKind::Transport => REGISTRY_UNREACHABLE@,
            FaultKind::Decode => fault.detail,
        },
    }
}

/// What a failed request to the build service becomes.
pub fn registry_failure_of(fault: &Fault) -> (failure: Failure)
    ensures
        failure@ == registry_failure(fault@),
{
    let message = match fault.kind {
        FaultKind::Transport => String::from_str(REGISTRY_UNREACHABLE),
        FaultKind::Decode => fault.detail.clone(),
    };
    Failure::new(fault.kind.error_kind(), message)
}

/// The packages to check, from what came back for the maintained-packages
/// request: the names found, or the failure that ends the run.
pub fn maintained_packages(reply: Result<SearchCollection, Fault>) -> (packages: Result<
    Vec<String>,
    Failure,
>)
    ensures
        match reply {
            Ok(collection) => packages matches Ok(names) && views_of(names@) == names_of(
                collection.packages@,
            ),
            Err(fault) => packages matches Err(failure) && failure@ == registry_failure(fault@),
        },
{
    match reply {
        Ok(collection) => Ok(collection.names()),
        Err(fault) => Err(registry_failure_of(&fault)),
    }
}

} // verus!
