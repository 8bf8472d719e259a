//! Passing a request on to a project.

use crate::gateway::error::{result_view, Error, ErrorView};
use vstd::prelude::*;

verus! {

/// The name of the event that is recorded when a deployment is started.
pub const DEPLOYMENT_EVENT: &'static str = "shuttle_api_start_deployment";

/// What is left to do to pass a request on.
#[derive(Debug)]
pub enum Forwarding {
    /// There may be no room to wake the project, which concerns all but administrators.
    CheckCapacity,
    /// The project is looked up, and woken if it sleeps.
    FindOrStart,
    /// The request goes to the project, and what comes back is the answer.
    Forward,
    Failed(Error),
}

/// A [`Forwarding`] as contracts speak of it.
pub enum ForwardingView {
    CheckCapacity,
    FindOrStart,
    Forward,
    Failed(ErrorView),
}

impl View for Forwarding {
    type V = ForwardingView;

    open spec fn view(&self) -> ForwardingView {
        match *self {
            Forwarding::CheckCapacity => ForwardingView::CheckCapacity,
            Forwarding::FindOrStart => ForwardingView::FindOrStart,
            Forwarding::Forward => ForwardingView::Forward,
            Forwarding::Failed(e) => ForwardingView::Failed(e@),
        }
    }
}

/// Where the forwarding of a request starts.
pub open spec fn start(is_admin: bool) -> ForwardingView {
    if is_admin {
        ForwardingView::FindOrStart
    } else {
        ForwardingView::CheckCapacity
    }
}

/// What the answer to the step at hand makes of a forwarding.
pub open spec fn step(f: ForwardingView, r: Result<(), ErrorView>) -> ForwardingView {
    match (f, r) {
        (ForwardingView::CheckCapacity, Ok(_)) => ForwardingView::FindOrStart,
        (ForwardingView::FindOrStart, Ok(_)) => ForwardingView::Forward,
        (ForwardingView::CheckCapacity, Err(e)) => ForwardingView::Failed(e),
        (ForwardingView::FindOrStart, Err(e)) => ForwardingView::Failed(e),
        _ => f,
    }
}

impl Forwarding {
    /// Starts to pass on a request of a user.
    pub fn new(is_admin: bool) -> (r: Self)
        ensures
            r@ == start(is_admin),
    {
        if is_admin {
            Forwarding::FindOrStart
        } else {
            Forwarding::CheckCapacity
        }
    }

    /// Takes the answer to the step at hand.
    pub fn advance(self, answer: Result<(), Error>) -> (r: Self)
        ensures
            r@ == step(self@, result_view(answer)),
    {
        match (self, answer) {
            (Forwarding::CheckCapacity, Ok(_)) => Forwarding::FindOrStart,
            (Forwarding::FindOrStart, Ok(_)) => Forwarding::Forward,
            (Forwarding::CheckCapacity, Err(e)) => Forwarding::Failed(e),
            (Forwarding::FindOrStart, Err(e)) => Forwarding::Failed(e),
            (same, _) => same,
        }
    }
}

/// A forwarding after a row of answers.
pub open spec fn after(f: ForwardingView, answers: Seq<Result<(), ErrorView>>) -> ForwardingView
    decreases answers.len(),
{
    if answers.len() == 0 {
        f
    } else {
        step(after(f, answers.drop_last()), answers.last())
    }
}

/// What the forwarding of a request comes to, given whether there is room and whether the project
/// is up.
pub open spec fn outcome(
    is_admin: bool,
    capacity: Result<(), ErrorView>,
    project: Result<(), ErrorView>,
) -> ForwardingView {
    if !is_admin && capacity is Err {
        ForwardingView::Failed(capacity->Err_0)
    } else {
        match project {
            Ok(_) => ForwardingView::Forward,
            Err(e) => ForwardingView::Failed(e),
        }
    }
}

/// The request of an administrator takes one answer before it is passed on or fails, that of
/// another user takes one more, and the end is the one that [`outcome`] describes.
pub proof fn law_forwarding_ends(capacity: Result<(), ErrorView>, project: Result<(), ErrorView>)
    ensures
        after(start(true), seq![project]) == outcome(true, capacity, project),
        after(start(false), seq![capacity, project]) == outcome(false, capacity, project),
{
    assert(seq![project].drop_last() =~= Seq::empty());
    assert(seq![capacity, project].drop_last() =~= seq![capacity]);
    assert(seq![capacity].drop_last() =~= Seq::empty());
    assert(after(start(true), Seq::empty()) == start(true));
    assert(after(start(false), Seq::empty()) == start(false));
    assert(after(start(false), seq![capacity]) == step(start(false), capacity));
}

/// The request of a user who is no administrator is not passed on where there is no room.
pub proof fn law_forwarded_only_with_capacity(answers: Seq<Result<(), ErrorView>>)
    requires
        answers.len() > 0,
        answers[0] is Err,
    ensures
        after(start(false), answers) == ForwardingView::Failed(answers[0]->Err_0),
    decreases answers.len(),
{
    let init = answers.drop_last();
    if init.len() > 0 {
        assert(init[0] == answers[0]);
        law_forwarded_only_with_capacity(init);
    } else {
        assert(after(start(false), init) == start(false));
    }
}

/// What is recorded of a user.
#[derive(Debug, PartialEq, Eq)]
pub struct UserEvent {
    pub name: String,
    /// The account of the user.
    pub account: String,
}

/// What is recorded when a user starts a deployment.
pub fn deployment_started(account: &str) -> (r: UserEvent)
    ensures
        r.name@ == DEPLOYMENT_EVENT@,
        r.account@ == account@,
{
    UserEvent { name: DEPLOYMENT_EVENT.to_owned(), account: account.to_owned() }
}

/// Only administrators go past the check for room.
pub proof fn law_where_forwarding_begins()
    ensures
        start(true) == ForwardingView::FindOrStart,
        start(false) == ForwardingView::CheckCapacity,
{
}

/// A step that goes well leads to the next, one that fails ends the forwarding with its error, and
/// once the request goes to the project or has failed nothing changes.
pub proof fn law_steps_of_forwarding(e: ErrorView, earlier: ErrorView, r: Result<(), ErrorView>)
    ensures
        step(ForwardingView::CheckCapacity, Ok(())) == ForwardingView::FindOrStart,
        step(ForwardingView::CheckCapacity, Err(e)) == ForwardingView::Failed(e),
        step(ForwardingView::FindOrStart, Ok(())) == ForwardingView::Forward,
        step(ForwardingView::FindOrStart, Err(e)) == ForwardingView::Failed(e),
        step(ForwardingView::Forward, r) == ForwardingView::Forward,
        step(ForwardingView::Failed(earlier), r) == ForwardingView::Failed(earlier),
{
}

/// Contracts see all of a forwarding.
pub proof fn law_forwarding_is_seen_whole(f: Forwarding)
    ensures
        match (f, f@) {
            (Forwarding::CheckCapacity, ForwardingView::CheckCapacity) => true,
            (Forwarding::FindOrStart, ForwardingView::FindOrStart) => true,
            (Forwarding::Forward, ForwardingView::Forward) => true,
            (Forwarding::Failed(a), ForwardingView::Failed(b)) => a@ == b,
            _ => false,
        },
{
}

} // verus!
