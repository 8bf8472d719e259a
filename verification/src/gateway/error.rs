//! Server-side errors of the gateway.

use vstd::prelude::*;
use vstd::std_specs::convert::{FromSpec, FromSpecImpl};

verus! {

/// What went wrong, as far as the caller of the API may know it.
#[derive(Debug, Clone, PartialEq, Eq)]
pub enum ErrorKind {
    /// Something broke on the server.
    Internal,
    /// The gateway takes no work at the moment.
    ServiceUnavailable,
    /// No project has this name, or none that the user may see.
    ProjectNotFound(String),
    /// Another user has a project of this name.
    ProjectAlreadyExists,
    /// The user has a project of this name already.
    OwnProjectAlreadyExists(String),
    /// The project did not come up.
    ProjectCorrupted,
    /// A deployment of the project is still being built.
    ProjectHasBuildingDeployment,
    /// A deployment of the project could not be stopped.
    ProjectHasRunningDeployment,
    /// These resources of the project could not be removed.
    ProjectHasResources(Vec<String>),
    /// The user has as many projects as their account allows.
    TooManyProjects,
    /// The domain is not a fully qualified domain name.
    InvalidCustomDomain,
    /// No project has this domain.
    CustomDomainNotFound,
    /// A kind that only the services behind the gateway raise.
    Other(String),
}

/// An [`ErrorKind`] as contracts speak of it.
pub enum ErrorKindView {
    Internal,
    ServiceUnavailable,
    ProjectNotFound(Seq<char>),
    ProjectAlreadyExists,
    OwnProjectAlreadyExists(Seq<char>),
    ProjectCorrupted,
    ProjectHasBuildingDeployment,
    ProjectHasRunningDeployment,
    ProjectHasResources(Seq<Seq<char>>),
    TooManyProjects,
    InvalidCustomDomain,
    CustomDomainNotFound,
    Other(Seq<char>),
}

impl View for ErrorKind {
    type V = ErrorKindView;

    open spec fn view(&self) -> ErrorKindView {
        match *self {
            ErrorKind::Internal => ErrorKindView::Internal,
            ErrorKind::ServiceUnavailable => ErrorKindView::ServiceUnavailable,
            ErrorKind::ProjectNotFound(s) => ErrorKindView::ProjectNotFound(s@),
            ErrorKind::ProjectAlreadyExists => ErrorKindView::ProjectAlreadyExists,
            ErrorKind::OwnProjectAlreadyExists(s) => ErrorKindView::OwnProjectAlreadyExists(s@),
            ErrorKind::ProjectCorrupted => ErrorKindView::ProjectCorrupted,
            ErrorKind::ProjectHasBuildingDeployment => ErrorKindView::ProjectHasBuildingDeployment,
            ErrorKind::ProjectHasRunningDeployment => ErrorKindView::ProjectHasRunningDeployment,
            ErrorKind::ProjectHasResources(v) => ErrorKindView::ProjectHasResources(texts(v@)),
            ErrorKind::TooManyProjects => ErrorKindView::TooManyProjects,
            ErrorKind::InvalidCustomDomain => ErrorKindView::InvalidCustomDomain,
            ErrorKind::CustomDomainNotFound => ErrorKindView::CustomDomainNotFound,
            ErrorKind::Other(s) => ErrorKindView::Other(s@),
        }
    }
}

/// The texts that the strings of `s` hold.
pub open spec fn texts(s: Seq<String>) -> Seq<Seq<char>> {
    s.map_values(|x: String| x@)
}

/// The text that an optional string holds.
pub open spec fn opt_text(s: Option<String>) -> Option<Seq<char>> {
    match s {
        Some(x) => Some(x@),
        None => None,
    }
}

/// Copies each string of `v`.
pub(crate) fn copy_strings(v: &Vec<String>) -> (r: Vec<String>)
    ensures
        texts(r@) == texts(v@),
{
    let mut r: Vec<String> = Vec::new();
    let mut i: usize = 0;
    while i < v.len()
        invariant
            i <= v.len(),
            r@.len() == i,
            forall|j: int| 0 <= j < i ==> r@[j]@ == (#[trigger] v@[j])@,
        decreases v.len() - i,
    {
        r.push(v[i].clone());
        i += 1;
    }
    assert(texts(r@) =~= texts(v@));
    r
}

impl ErrorKind {
    /// A copy of the kind.
    fn copy(&self) -> (r: ErrorKind)
        ensures
            r@ == self@,
    {
        match self {
            ErrorKind::Internal => ErrorKind::Internal,
            ErrorKind::ServiceUnavailable => ErrorKind::ServiceUnavailable,
            ErrorKind::ProjectNotFound(s) => ErrorKind::ProjectNotFound(s.clone()),
            ErrorKind::ProjectAlreadyExists => ErrorKind::ProjectAlreadyExists,
            ErrorKind::OwnProjectAlreadyExists(s) => ErrorKind::OwnProjectAlreadyExists(s.clone()),
            ErrorKind::ProjectCorrupted => ErrorKind::ProjectCorrupted,
            ErrorKind::ProjectHasBuildingDeployment => ErrorKind::ProjectHasBuildingDeployment,
            ErrorKind::ProjectHasRunningDeployment => ErrorKind::ProjectHasRunningDeployment,
            ErrorKind::ProjectHasResources(v) => ErrorKind::ProjectHasResources(copy_strings(v)),
            ErrorKind::TooManyProjects => ErrorKind::TooManyProjects,
            ErrorKind::InvalidCustomDomain => ErrorKind::InvalidCustomDomain,
            ErrorKind::CustomDomainNotFound => ErrorKind::CustomDomainNotFound,
            ErrorKind::Other(s) => ErrorKind::Other(s.clone()),
        }
    }
}

/// A server-side error that does not have to do with the runtime of a user.
///
/// Every error has a kind and, where another error caused it, the text of that one. What the
/// caller of the API gets to see depends on the kind alone (see [`Error::into_response`]).
#[derive(Debug)]
pub struct Error {
    pub kind: ErrorKind,
    pub source: Option<String>,
}

/// An [`Error`] as contracts speak of it.
pub struct ErrorView {
    pub kind: ErrorKindView,
    pub source: Option<Seq<char>>,
}

impl View for Error {
    type V = ErrorView;

    open spec fn view(&self) -> ErrorView {
        ErrorView { kind: self.kind@, source: opt_text(self.source) }
    }
}

/// `r` with its error as contracts speak of it.
pub open spec fn result_view<T>(r: Result<T, Error>) -> Result<T, ErrorView> {
    match r {
        Ok(x) => Ok(x),
        Err(e) => Err(e@),
    }
}

/// The error of this kind that nothing else caused.
pub open spec fn plain(kind: ErrorKindView) -> ErrorView {
    ErrorView { kind, source: None }
}

/// What a failed request is answered.
#[derive(Debug)]
pub struct ErrorReply {
    /// What the answer speaks of.
    pub kind: ErrorKind,
    /// The status code of the answer.
    pub status_code: u16,
    /// Whether the failure goes to the log as well.
    pub log: bool,
}

/// An [`ErrorReply`] as contracts speak of it.
pub struct ErrorReplyView {
    pub kind: ErrorKindView,
    pub status_code: u16,
    pub log: bool,
}

impl View for ErrorReply {
    type V = ErrorReplyView;

    open spec fn view(&self) -> ErrorReplyView {
        ErrorReplyView { kind: self.kind@, status_code: self.status_code, log: self.log }
    }
}

/// The answer to a request that failed with `error`, whose kind has the given status code.
pub open spec fn reply_to(error: ErrorView, status_code: u16) -> ErrorReplyView {
    ErrorReplyView { kind: error.kind, status_code, log: status_code >= 500 }
}

impl Error {
    /// An error of this kind that another error caused, of which `err` is the text.
    pub fn source(kind: ErrorKind, err: String) -> (r: Self)
        ensures
            r@ == (ErrorView { kind: kind@, source: Some(err@) }),
    {
        Error { kind, source: Some(err) }
    }

    /// An error of this kind with a message.
    pub fn custom(kind: ErrorKind, message: &str) -> (r: Self)
        ensures
            r@ == (ErrorView { kind: kind@, source: Some(message@) }),
    {
        Error { kind, source: Some(message.to_owned()) }
    }

    /// An error of this kind.
    pub fn from_kind(kind: ErrorKind) -> (r: Self)
        ensures
            r@ == plain(kind@),
            r.kind == kind,
    {
        Error { kind, source: None }
    }

    /// The kind of the error.
    pub fn kind(&self) -> (r: ErrorKind)
        ensures
            r@ == self@.kind,
    {
        self.kind.copy()
    }

    /// A copy of the error.
    pub(crate) fn copy(&self) -> (r: Error)
        ensures
            r@ == self@,
    {
        Error {
            kind: self.kind.copy(),
            source: match &self.source {
                Some(source) => Some(source.clone()),
                None => None,
            },
        }
    }

    /// What goes back to the caller of the API, given the status code that the kind stands for.
    /// Failures of the server itself go to the log.
    pub fn into_response(self, status_code: u16) -> (r: ErrorReply)
        ensures
            r@ == reply_to(self@, status_code),
    {
        ErrorReply { kind: self.kind, status_code, log: status_code >= 500 }
    }

    /// The error as text: that of its kind, then that of its cause if there is one.
    pub fn text(&self, kind: &str) -> (r: String)
        ensures
            r@ == kind@ + match self@.source {
                Some(source) => ": "@ + source,
                None => Seq::<char>::empty(),
            },
    {
        match &self.source {
            Some(source) => {
                let r = kind.to_owned().concat(": ").concat(source.as_str());
                assert(r@ =~= kind@ + (": "@ + source@));
                r
            },
            None => kind.to_owned(),
        }
    }
}

impl From<ErrorKind> for Error {
    fn from(kind: ErrorKind) -> Self {
        Self::from_kind(kind)
    }
}

impl FromSpecImpl<ErrorKind> for Error {
    open spec fn obeys_from_spec() -> bool {
        true
    }

    open spec fn from_spec(kind: ErrorKind) -> Self {
        Error { kind, source: None }
    }
}

/// `std::io::Error`, from which an [`Error`] is made without a look inside.
#[verifier::external_type_specification]
#[verifier::external_body]
pub struct ExIoError(std::io::Error);

impl From<std::io::Error> for Error {
    fn from(_err: std::io::Error) -> Self {
        Self::from_kind(ErrorKind::Internal)
    }
}

impl FromSpecImpl<std::io::Error> for Error {
    open spec fn obeys_from_spec() -> bool {
        true
    }

    open spec fn from_spec(_err: std::io::Error) -> Self {
        Error { kind: ErrorKind::Internal, source: None }
    }
}

/// `tokio::sync::mpsc::error::SendError`, a value that no worker will take, from which an
/// [`Error`] is made without a look inside.
#[verifier::external_type_specification]
#[verifier::external_body]
#[verifier::reject_recursive_types(T)]
pub struct ExSendError<T>(tokio::sync::mpsc::error::SendError<T>);

impl<T> From<tokio::sync::mpsc::error::SendError<T>> for Error {
    fn from(_err: tokio::sync::mpsc::error::SendError<T>) -> Self {
        Self::from_kind(ErrorKind::ServiceUnavailable)
    }
}

impl<T> FromSpecImpl<tokio::sync::mpsc::error::SendError<T>> for Error {
    open spec fn obeys_from_spec() -> bool {
        true
    }

    open spec fn from_spec(_err: tokio::sync::mpsc::error::SendError<T>) -> Self {
        Error { kind: ErrorKind::ServiceUnavailable, source: None }
    }
}

/// Two errors of one kind are answered alike, whatever caused them: the answer gives nothing of
/// the cause away.
pub proof fn law_reply_hides_source(a: ErrorView, b: ErrorView, status_code: u16)
    requires
        a.kind == b.kind,
    ensures
        reply_to(a, status_code) == reply_to(b, status_code),
{
}

/// An error that nothing else caused has its kind and no cause.
pub proof fn law_plain_error_has_no_cause(kind: ErrorKindView)
    ensures
        plain(kind).kind == kind,
        plain(kind).source is None,
{
}

/// An answer carries the kind of the error and the given status code, and goes to the log exactly
/// if the code is one of the server's own failures.
pub proof fn law_reply_tells_kind_and_code(error: ErrorView, status_code: u16)
    ensures
        reply_to(error, status_code).kind == error.kind,
        reply_to(error, status_code).status_code == status_code,
        reply_to(error, status_code).log <==> status_code >= 500,
{
}

/// Each text is that of the string at its place.
pub proof fn law_texts_one_by_one(s: Seq<String>)
    ensures
        texts(s).len() == s.len(),
        forall|i: int| 0 <= i < s.len() ==> (#[trigger] texts(s)[i]) == s[i]@,
{
}

/// Contracts see all of a kind of error.
pub proof fn law_kind_is_seen_whole(kind: ErrorKind)
    ensures
        match (kind, kind@) {
            (ErrorKind::Internal, ErrorKindView::Internal) => true,
            (ErrorKind::ServiceUnavailable, ErrorKindView::ServiceUnavailable) => true,
            (ErrorKind::ProjectNotFound(a), ErrorKindView::ProjectNotFound(b)) => a@ == b,
            (ErrorKind::ProjectAlreadyExists, ErrorKindView::ProjectAlreadyExists) => true,
            (
                ErrorKind::OwnProjectAlreadyExists(a),
                ErrorKindView::OwnProjectAlreadyExists(b),
            ) => a@ == b,
            (ErrorKind::ProjectCorrupted, ErrorKindView::ProjectCorrupted) => true,
            (
                ErrorKind::ProjectHasBuildingDeployment,
                ErrorKindView::ProjectHasBuildingDeployment,
            ) => true,
            (
                ErrorKind::ProjectHasRunningDeployment,
                ErrorKindView::ProjectHasRunningDeployment,
            ) => true,
            (
                ErrorKind::ProjectHasResources(a),
                ErrorKindView::ProjectHasResources(b),
            ) => a@.len() == b.len() && forall|i: int|
                0 <= i < b.len() ==> a@[i]@ == #[trigger] b[i],
            (ErrorKind::TooManyProjects, ErrorKindView::TooManyProjects) => true,
            (ErrorKind::InvalidCustomDomain, ErrorKindView::InvalidCustomDomain) => true,
            (ErrorKind::CustomDomainNotFound, ErrorKindView::CustomDomainNotFound) => true,
            (ErrorKind::Other(a), ErrorKindView::Other(b)) => a@ == b,
            _ => false,
        },
{
}

/// Contracts see all of an error: its kind, and the text of its cause if there is one.
pub proof fn law_error_is_seen_whole(error: Error)
    ensures
        error@.kind == error.kind@,
        match (error.source, error@.source) {
            (Some(a), Some(b)) => a@ == b,
            (None, None) => true,
            _ => false,
        },
        opt_text(error.source) == error@.source,
{
}

/// Contracts see all of an answer.
pub proof fn law_reply_is_seen_whole(reply: ErrorReply)
    ensures
        reply@.kind == reply.kind@,
        reply@.status_code == reply.status_code,
        reply@.log == reply.log,
{
}

/// A result keeps its value, and its error is seen whole.
pub proof fn law_result_is_seen_whole<T>(r: Result<T, Error>)
    ensures
        match (r, result_view(r)) {
            (Ok(a), Ok(b)) => a == b,
            (Err(a), Err(b)) => a@ == b,
            _ => false,
        },
{
}

/// A kind becomes an error of that kind without a cause. What the operating system reports is
/// internal, and what no worker takes makes the service unavailable.
pub proof fn law_errors_from_elsewhere<T>(
    kind: ErrorKind,
    io: std::io::Error,
    unsent: tokio::sync::mpsc::error::SendError<T>,
)
    ensures
        ({
            let e = <Error as FromSpec<ErrorKind>>::from_spec(kind);
            e.kind == kind && e.source is None
        }),
        ({
            let e = <Error as FromSpec<std::io::Error>>::from_spec(io);
            e.kind is Internal && e.source is None
        }),
        ({
            let e = <Error as FromSpec<tokio::sync::mpsc::error::SendError<T>>>::from_spec(unsent);
            e.kind is ServiceUnavailable && e.source is None
        }),
{
}

} // verus!
