//! Projects as the gateway sees them.

use crate::text::{to_uppercase, uppercase};
use vstd::prelude::*;

verus! {

/// The state of a project, as far as the gateway tells states apart.
#[derive(Debug, Clone, PartialEq, Eq)]
pub enum State {
    /// The project serves requests.
    Ready,
    /// The project sleeps and can be woken up.
    Stopped,
    /// The project is being taken down.
    Destroying,
    /// The project was taken down.
    Destroyed,
    /// Any other state, by its name.
    Other(String),
}

impl State {
    /// Whether the project serves requests.
    pub fn is_ready(&self) -> (r: bool)
        ensures
            r == (self is Ready),
    {
        matches!(self, State::Ready)
    }

    /// Whether the project sleeps.
    pub fn is_stopped(&self) -> (r: bool)
        ensures
            r == (self is Stopped),
    {
        matches!(self, State::Stopped)
    }

    /// Whether the project was taken down.
    pub fn is_destroyed(&self) -> (r: bool)
        ensures
            r == (self is Destroyed),
    {
        matches!(self, State::Destroyed)
    }
}

/// A project as the gateway finds it in its store.
#[derive(Debug, PartialEq, Eq)]
pub struct FoundProject {
    /// The stored identifier.
    pub project_id: String,
    pub state: State,
    /// Minutes without a request after which the project goes to sleep.
    pub idle_minutes: Option<u64>,
}

/// A project as the API shows it.
#[derive(Debug, PartialEq, Eq)]
pub struct Response {
    pub id: String,
    pub name: String,
    pub state: State,
    pub idle_minutes: Option<u64>,
}

/// A [`Response`] as contracts speak of it.
pub struct ResponseView {
    pub id: Seq<char>,
    pub name: Seq<char>,
    pub state: State,
    pub idle_minutes: Option<u64>,
}

impl View for Response {
    type V = ResponseView;

    open spec fn view(&self) -> ResponseView {
        ResponseView {
            id: self.id@,
            name: self.name@,
            state: self.state,
            idle_minutes: self.idle_minutes,
        }
    }
}

/// What the API shows of a project with this name: its identifier is in upper case, the rest as
/// it was found.
pub open spec fn shown(project: FoundProject, name: Seq<char>) -> ResponseView {
    ResponseView {
        id: uppercase(project.project_id@),
        name,
        state: project.state,
        idle_minutes: project.idle_minutes,
    }
}

impl Response {
    /// What the API shows of a project with this name.
    pub fn new(project: FoundProject, name: &str) -> (r: Self)
        ensures
            r@ == shown(project, name@),
            r.id@ == uppercase(project.project_id@),
            r.name@ == name@,
            r.state == project.state,
            r.idle_minutes == project.idle_minutes,
    {
        Response {
            id: to_uppercase(project.project_id.as_str()),
            name: name.to_owned(),
            state: project.state,
            idle_minutes: project.idle_minutes,
        }
    }
}

/// A project is shown with its identifier in upper case and under the given name, and with the
/// state and the idle minutes in which it was found, whatever they are.
pub proof fn law_project_is_shown_as_found(project: FoundProject, name: Seq<char>)
    ensures
        shown(project, name).id == uppercase(project.project_id@),
        shown(project, name).name == name,
        shown(project, name).state == project.state,
        shown(project, name).idle_minutes == project.idle_minutes,
{
}

/// Contracts see all of what the API shows.
pub proof fn law_response_is_seen_whole(response: Response)
    ensures
        response@.id == response.id@,
        response@.name == response.name@,
        response@.state == response.state,
        response@.idle_minutes == response.idle_minutes,
{
}

} // verus!
