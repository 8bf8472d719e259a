//! Taking a project down.

use crate::gateway::error::{result_view, Error, ErrorView};
use crate::gateway::project::{shown, FoundProject, Response, ResponseView, State};
use vstd::prelude::*;

verus! {

/// What is left to do to take a project down.
#[derive(Debug)]
pub enum Destruction {
    /// Nothing: the project is down, and the request is answered with it.
    Down(Response),
    /// The work that takes the project down has to be queued; [`Destruction::queued`] takes what
    /// came of it.
    Queue(Response),
}

/// A [`Destruction`] as contracts speak of it.
pub enum DestructionView {
    Down(ResponseView),
    Queue(ResponseView),
}

impl View for Destruction {
    type V = DestructionView;

    open spec fn view(&self) -> DestructionView {
        match *self {
            Destruction::Down(response) => DestructionView::Down(response@),
            Destruction::Queue(response) => DestructionView::Queue(response@),
        }
    }
}

/// Where taking a project down starts: one that is down is left alone.
pub open spec fn start(project: FoundProject, name: Seq<char>) -> DestructionView {
    if project.state is Destroyed {
        DestructionView::Down(shown(project, name))
    } else {
        DestructionView::Queue(shown(project, name))
    }
}

/// The answer to the request, given whether the work that takes the project down was queued: the
/// project is shown as going down.
pub open spec fn answered(response: ResponseView, queue: Result<(), ErrorView>) -> Result<
    ResponseView,
    ErrorView,
> {
    match queue {
        Ok(_) => Ok(ResponseView { state: State::Destroying, ..response }),
        Err(e) => Err(e),
    }
}

impl Destruction {
    /// Starts to take down the project that was found under this name.
    pub fn new(found: Result<FoundProject, Error>, name: &str) -> (r: Result<Self, Error>)
        ensures
            match (found, r) {
                (Ok(project), Ok(destruction)) => destruction@ == start(project, name@),
                (Err(e), Err(f)) => e == f,
                _ => false,
            },
    {
        match found {
            Ok(project) => {
                let response = Response::new(project, name);
                if response.state.is_destroyed() {
                    Ok(Destruction::Down(response))
                } else {
                    Ok(Destruction::Queue(response))
                }
            },
            Err(e) => Err(e),
        }
    }

    /// The answer to the request, given whether the work that takes the project down was queued.
    pub fn queued(response: Response, queue: Result<(), Error>) -> (r: Result<Response, Error>)
        ensures
            match (answered(response@, result_view(queue)), r) {
                (Ok(a), Ok(b)) => a == b@,
                (Err(e), Err(f)) => e == f@,
                _ => false,
            },
    {
        match queue {
            Ok(_) => {
                let mut answer = response;
                answer.state = State::Destroying;
                Ok(answer)
            },
            Err(e) => Err(e),
        }
    }
}

/// What taking a project down comes to, given what the queue answers.
pub open spec fn outcome(
    project: FoundProject,
    name: Seq<char>,
    queue: Result<(), ErrorView>,
) -> Result<ResponseView, ErrorView> {
    match start(project, name) {
        DestructionView::Down(response) => Ok(response),
        DestructionView::Queue(response) => answered(response, queue),
    }
}

/// A project that is down stays down when it is taken down again: nothing is queued for it, and
/// what the queue would answer makes no difference.
pub proof fn law_destroyed_stays_destroyed(
    project: FoundProject,
    name: Seq<char>,
    queue: Result<(), ErrorView>,
)
    requires
        project.state is Destroyed,
    ensures
        start(project, name) == DestructionView::Down(shown(project, name)),
        outcome(project, name, queue) == Ok::<ResponseView, ErrorView>(shown(project, name)),
        shown(project, name).state is Destroyed,
{
}

/// A request to take a project down changes nothing of what is shown of it but its state.
pub proof fn law_only_the_state_changes(
    project: FoundProject,
    name: Seq<char>,
    queue: Result<(), ErrorView>,
)
    requires
        outcome(project, name, queue) is Ok,
    ensures
        ({
            let answer = outcome(project, name, queue)->Ok_0;
            answer == (ResponseView { state: answer.state, ..shown(project, name) }) && (
            answer.state is Destroying || answer.state is Destroyed)
        }),
{
}

/// A project is left alone exactly if it is down. In any other state, the work that takes it down is
/// queued. Either way it is shown as it was found.
pub proof fn law_only_destroyed_projects_are_left_alone(project: FoundProject, name: Seq<char>)
    ensures
        match start(project, name) {
            DestructionView::Down(response) => project.state == State::Destroyed && response
                == shown(project, name),
            DestructionView::Queue(response) => project.state != State::Destroyed && response
                == shown(project, name),
        },
{
}

/// A project whose work was queued is shown as going down, and otherwise as before. A queue that
/// fails is answered with its error.
pub proof fn law_queued_project_goes_down(response: ResponseView, e: ErrorView)
    ensures
        answered(response, Ok(())) matches Ok(a) && a.state == State::Destroying && a.id
            == response.id && a.name == response.name && a.idle_minutes == response.idle_minutes,
        answered(response, Err(e)) == Err::<ResponseView, ErrorView>(e),
{
}

/// Contracts see all of what is left to do.
pub proof fn law_destruction_is_seen_whole(d: Destruction)
    ensures
        match (d, d@) {
            (Destruction::Down(a), DestructionView::Down(b)) => a@ == b,
            (Destruction::Queue(a), DestructionView::Queue(b)) => a@ == b,
            _ => false,
        },
{
}

} // verus!
