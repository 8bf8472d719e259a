//! Creating a project.
//!
//! A creation asks the services behind the gateway for one thing at a time:
//! [`Creation::action`] says what is wanted, and [`Creation::advance`] takes the answer.

use crate::gateway::error::{result_view, Error, ErrorView};
use crate::gateway::project::{shown, FoundProject, Response};
use vstd::prelude::*;

verus! {

/// Minutes without a request after which a project of the code challenge goes to sleep.
pub const CCH_IDLE_MINUTES: u64 = 5;

/// What a user asks for.
#[derive(Debug, Clone, Copy, PartialEq, Eq, Structural)]
pub struct NewProject {
    /// Whether the project takes part in the code challenge, which its name shows.
    pub is_cch_project: bool,
    /// Whether the user is an administrator.
    pub is_admin: bool,
    /// Minutes without a request after which the project is to sleep.
    pub idle_minutes: u64,
}

impl NewProject {
    /// Minutes without a request after which the project will sleep: a project of the code
    /// challenge has no say in it.
    pub open spec fn sleeps_after(self) -> u64 {
        if self.is_cch_project {
            CCH_IDLE_MINUTES
        } else {
            self.idle_minutes
        }
    }
}

/// The projects of a user that count against their limit, given how many they have: one that
/// takes part in the code challenge does not count itself. `None` if that is no number of
/// projects.
pub open spec fn counted(count: i64, is_cch_project: bool) -> Option<u32> {
    let n = if is_cch_project && count > 0 {
        count - 1
    } else {
        count as int
    };
    if 0 <= n <= u32::MAX {
        Some(n as u32)
    } else {
        None
    }
}

/// The projects of a user that count against their limit.
pub fn counted_projects(count: i64, is_cch_project: bool) -> (r: Option<u32>)
    ensures
        r == counted(count, is_cch_project),
        is_cch_project && count > 0 ==> r == (if count - 1 <= u32::MAX {
            Some((count - 1) as u32)
        } else {
            None
        }),
        !is_cch_project || count <= 0 ==> r == (if 0 <= count <= u32::MAX {
            Some(count as u32)
        } else {
            None
        }),
{
    let n: i64 = if is_cch_project && count > 0 {
        count - 1
    } else {
        count
    };
    if 0 <= n && n <= u32::MAX as i64 {
        Some(n as u32)
    } else {
        None
    }
}

/// An answer of the services behind the gateway.
#[derive(Debug)]
pub enum Event {
    /// How many projects the user has.
    Counted(Result<i64, Error>),
    /// Whether the user may have one project more.
    Allowed(bool),
    /// There is room for the project.
    Capacity(Result<(), Error>),
    /// The project was created.
    Created(Result<FoundProject, Error>),
    /// The work to start the project is queued.
    Queued(Result<(), Error>),
}

/// An [`Event`] as contracts speak of it.
pub enum EventView {
    Counted(Result<i64, ErrorView>),
    Allowed(bool),
    Capacity(Result<(), ErrorView>),
    Created(Result<FoundProject, ErrorView>),
    Queued(Result<(), ErrorView>),
}

impl View for Event {
    type V = EventView;

    open spec fn view(&self) -> EventView {
        match *self {
            Event::Counted(r) => EventView::Counted(result_view(r)),
            Event::Allowed(b) => EventView::Allowed(b),
            Event::Capacity(r) => EventView::Capacity(result_view(r)),
            Event::Created(r) => EventView::Created(result_view(r)),
            Event::Queued(r) => EventView::Queued(result_view(r)),
        }
    }
}

/// How far the creation of a project has come.
#[derive(Debug)]
pub enum Creation {
    /// The projects of the user are counted.
    Count(NewProject),
    /// The user has this many projects that count; their account says whether that is the limit.
    CheckLimit(NewProject, u32),
    /// There may be no room, which concerns all but administrators. The flag tells whether the
    /// user may have one project more.
    CheckCapacity(NewProject, bool),
    /// The project is created, unless the flag tells that the user may have no more.
    Create(NewProject, bool),
    /// The project exists and is to be started.
    Start(FoundProject),
    /// The project exists and will start.
    Created(FoundProject),
    Failed(Error),
    /// The count is no number of projects.
    Aborted,
}

/// A [`Creation`] as contracts speak of it.
pub enum CreationView {
    Count(NewProject),
    CheckLimit(NewProject, u32),
    CheckCapacity(NewProject, bool),
    Create(NewProject, bool),
    Start(FoundProject),
    Created(FoundProject),
    Failed(ErrorView),
    Aborted,
}

impl View for Creation {
    type V = CreationView;

    open spec fn view(&self) -> CreationView {
        match *self {
            Creation::Count(p) => CreationView::Count(p),
            Creation::CheckLimit(p, n) => CreationView::CheckLimit(p, n),
            Creation::CheckCapacity(p, b) => CreationView::CheckCapacity(p, b),
            Creation::Create(p, b) => CreationView::Create(p, b),
            Creation::Start(p) => CreationView::Start(p),
            Creation::Created(p) => CreationView::Created(p),
            Creation::Failed(e) => CreationView::Failed(e@),
            Creation::Aborted => CreationView::Aborted,
        }
    }
}

/// What a creation wants from the services behind the gateway.
#[derive(Debug, Clone, Copy, PartialEq, Eq, Structural)]
pub enum Action {
    /// Count the projects of the user.
    CountProjects,
    /// Tell whether the account allows one project more than this many.
    CheckLimit(u32),
    /// Tell whether there is room for the project.
    CheckCapacity,
    /// Create the project.
    Create {
        is_admin: bool,
        can_create_project: bool,
        idle_minutes: u64,
    },
    /// Queue the work that starts the project and then its idle deployments.
    Start,
    /// Nothing more: [`Creation::finish`] has the answer.
    Finish,
}

/// What a creation wants.
pub open spec fn wanted(c: CreationView) -> Action {
    match c {
        CreationView::Count(_) => Action::CountProjects,
        CreationView::CheckLimit(_, n) => Action::CheckLimit(n),
        CreationView::CheckCapacity(_, _) => Action::CheckCapacity,
        CreationView::Create(p, b) => Action::Create {
            is_admin: p.is_admin,
            can_create_project: b,
            idle_minutes: p.sleeps_after(),
        },
        CreationView::Start(_) => Action::Start,
        CreationView::Created(_) => Action::Finish,
        CreationView::Failed(_) => Action::Finish,
        CreationView::Aborted => Action::Finish,
    }
}

/// What an event makes of a creation. An error ends it; an event that answers nothing that was
/// asked for changes nothing.
pub open spec fn step(c: CreationView, event: EventView) -> CreationView {
    match (c, event) {
        (CreationView::Count(p), EventView::Counted(r)) => match r {
            Ok(count) => match counted(count, p.is_cch_project) {
                Some(n) => CreationView::CheckLimit(p, n),
                None => CreationView::Aborted,
            },
            Err(e) => CreationView::Failed(e),
        },
        (CreationView::CheckLimit(p, _), EventView::Allowed(b)) => if p.is_admin {
            CreationView::Create(p, b)
        } else {
            CreationView::CheckCapacity(p, b)
        },
        (CreationView::CheckCapacity(p, b), EventView::Capacity(r)) => match r {
            Ok(_) => CreationView::Create(p, b),
            Err(e) => CreationView::Failed(e),
        },
        (CreationView::Create(_, _), EventView::Created(r)) => match r {
            Ok(p) => CreationView::Start(p),
            Err(e) => CreationView::Failed(e),
        },
        (CreationView::Start(p), EventView::Queued(r)) => match r {
            Ok(_) => CreationView::Created(p),
            Err(e) => CreationView::Failed(e),
        },
        _ => c,
    }
}

/// Whether a creation is over.
pub open spec fn over(c: CreationView) -> bool {
    c is Created || c is Failed || c is Aborted
}

impl Creation {
    /// Starts the creation of a project.
    pub fn new(project: NewProject) -> (r: Self)
        ensures
            r@ == CreationView::Count(project),
    {
        Creation::Count(project)
    }

    /// Takes the answer to what the creation wanted.
    pub fn advance(self, event: Event) -> (r: Self)
        ensures
            r@ == step(self@, event@),
    {
        match (self, event) {
            (Creation::Count(p), Event::Counted(r)) => match r {
                Ok(count) => match counted_projects(count, p.is_cch_project) {
                    Some(n) => Creation::CheckLimit(p, n),
                    None => Creation::Aborted,
                },
                Err(e) => Creation::Failed(e),
            },
            (Creation::CheckLimit(p, _), Event::Allowed(b)) => if p.is_admin {
                Creation::Create(p, b)
            } else {
                Creation::CheckCapacity(p, b)
            },
            (Creation::CheckCapacity(p, b), Event::Capacity(r)) => match r {
                Ok(_) => Creation::Create(p, b),
                Err(e) => Creation::Failed(e),
            },
            (Creation::Create(_, _), Event::Created(r)) => match r {
                Ok(p) => Creation::Start(p),
                Err(e) => Creation::Failed(e),
            },
            (Creation::Start(p), Event::Queued(r)) => match r {
                Ok(_) => Creation::Created(p),
                Err(e) => Creation::Failed(e),
            },
            (same, _) => same,
        }
    }

    /// What the creation wants.
    pub fn action(&self) -> (r: Action)
        ensures
            r == wanted(self@),
    {
        match self {
            Creation::Count(_) => Action::CountProjects,
            Creation::CheckLimit(_, n) => Action::CheckLimit(*n),
            Creation::CheckCapacity(_, _) => Action::CheckCapacity,
            Creation::Create(p, b) => Action::Create {
                is_admin: p.is_admin,
                can_create_project: *b,
                idle_minutes: if p.is_cch_project {
                    CCH_IDLE_MINUTES
                } else {
                    p.idle_minutes
                },
            },
            Creation::Start(_) => Action::Start,
            _ => Action::Finish,
        }
    }

    /// The answer to the request, once the creation is over. `None` if the store counted the
    /// projects of the user wrong.
    pub fn finish(self, name: &str) -> (r: Option<Result<Response, Error>>)
        requires
            over(self@),
        ensures
            match (self@, r) {
                (CreationView::Created(p), Some(Ok(response))) => response@ == shown(p, name@),
                (CreationView::Failed(e), Some(Err(error))) => error@ == e,
                (CreationView::Aborted, None) => true,
                _ => false,
            },
    {
        match self {
            Creation::Created(p) => Some(Ok(Response::new(p, name))),
            Creation::Failed(e) => Some(Err(e)),
            _ => None,
        }
    }
}

/// What the services behind the gateway answer to each request.
pub struct Services {
    pub count: Result<i64, ErrorView>,
    /// Whether the account of the user allows one project more than a number of them.
    pub allows: spec_fn(u32) -> bool,
    pub capacity: Result<(), ErrorView>,
    /// The answer to a request to create the project, given whether the user may have it and
    /// after how many minutes it will sleep.
    pub create: spec_fn(bool, u64) -> Result<FoundProject, ErrorView>,
    pub queue: Result<(), ErrorView>,
}

/// The answer to what the creation wants.
pub open spec fn answer(w: Services, c: CreationView) -> EventView {
    match c {
        CreationView::Count(_) => EventView::Counted(w.count),
        CreationView::CheckLimit(_, n) => EventView::Allowed((w.allows)(n)),
        CreationView::CheckCapacity(_, _) => EventView::Capacity(w.capacity),
        CreationView::Create(p, b) => EventView::Created((w.create)(b, p.sleeps_after())),
        _ => EventView::Queued(w.queue),
    }
}

/// The creation after at most `n` answers.
pub open spec fn driven(w: Services, c: CreationView, n: nat) -> CreationView
    decreases n,
{
    if n == 0 || over(c) {
        c
    } else {
        driven(w, step(c, answer(w, c)), (n - 1) as nat)
    }
}

/// What a creation comes to.
pub open spec fn outcome(w: Services, p: NewProject) -> CreationView {
    match w.count {
        Err(e) => CreationView::Failed(e),
        Ok(count) => match counted(count, p.is_cch_project) {
            None => CreationView::Aborted,
            Some(n) => if !p.is_admin && w.capacity is Err {
                CreationView::Failed(w.capacity->Err_0)
            } else {
                match ((w.create)((w.allows)(n), p.sleeps_after()), w.queue) {
                    (Err(e), _) => CreationView::Failed(e),
                    (Ok(_), Err(e)) => CreationView::Failed(e),
                    (Ok(project), Ok(_)) => CreationView::Created(project),
                }
            },
        },
    }
}

/// Every creation comes to an end after at most five answers, and the end is the one that
/// [`outcome`] describes.
pub proof fn law_creation_ends(w: Services, p: NewProject)
    ensures
        driven(w, CreationView::Count(p), 5) == outcome(w, p),
        over(outcome(w, p)),
{
    reveal_with_fuel(driven, 6);
}

/// A project is created for a user who is no administrator only where there is room for it.
pub proof fn law_created_only_with_capacity(w: Services, p: NewProject, n: nat)
    requires
        !p.is_admin,
        w.capacity is Err,
    ensures
        ({
            let c = driven(w, CreationView::Count(p), n);
            !(c is Create) && !(c is Start) && !(c is Created)
        }),
{
    reveal_with_fuel(driven, 5);
    if n > 4 {
        lemma_driven_splits(w, CreationView::Count(p), 4, (n - 4) as nat);
    }
}

proof fn lemma_driven_splits(w: Services, c: CreationView, a: nat, b: nat)
    ensures
        driven(w, c, a + b) == driven(w, driven(w, c, a), b),
    decreases a,
{
    if a > 0 && !over(c) {
        lemma_driven_splits(w, step(c, answer(w, c)), (a - 1) as nat, b);
    }
}

/// An administrator is never refused for want of room.
pub proof fn law_admin_skips_capacity(w: Services, v: Services, p: NewProject)
    requires
        p.is_admin,
        w == (Services { capacity: w.capacity, ..v }),
    ensures
        outcome(w, p) == outcome(v, p),
{
}

/// A project of the code challenge goes to sleep after five minutes, whatever the user asked for.
pub proof fn law_cch_projects_sleep_after_five_minutes(p: NewProject, can_create_project: bool)
    requires
        p.is_cch_project,
    ensures
        wanted(CreationView::Create(p, can_create_project)) == (Action::Create {
            is_admin: p.is_admin,
            can_create_project,
            idle_minutes: 5,
        }),
{
}

/// A project that does not take part in the code challenge goes to sleep after the minutes that the
/// user asked for, whatever their number.
pub proof fn law_user_chooses_idle_minutes(p: NewProject, can_create_project: bool)
    requires
        !p.is_cch_project,
    ensures
        wanted(CreationView::Create(p, can_create_project)) == (Action::Create {
            is_admin: p.is_admin,
            can_create_project,
            idle_minutes: p.idle_minutes,
        }),
{
}

/// What counts against the limit is the number of projects, less one for a project of the code
/// challenge that has one to take off. A number that is none, or too large, has no such count.
pub proof fn law_projects_that_count(count: i64)
    ensures
        counted(count, false) == (if 0 <= count <= 4_294_967_295 {
            Some(count as u32)
        } else {
            None
        }),
        counted(count, true) == (if count == 0 {
            Some(0u32)
        } else if 1 <= count <= 4_294_967_296 {
            Some((count - 1) as u32)
        } else {
            None
        }),
{
}

/// The account is asked about exactly the projects that count.
pub proof fn law_limit_is_checked_for_the_count(p: NewProject, count: i64)
    ensures
        count < 0 ==> step(CreationView::Count(p), EventView::Counted(Ok(count)))
            == CreationView::Aborted,
        !p.is_cch_project && 0 <= count <= u32::MAX ==> step(
            CreationView::Count(p),
            EventView::Counted(Ok(count)),
        ) == CreationView::CheckLimit(p, count as u32),
        p.is_cch_project && 1 <= count <= u32::MAX ==> step(
            CreationView::Count(p),
            EventView::Counted(Ok(count)),
        ) == CreationView::CheckLimit(p, (count - 1) as u32),
        p.is_cch_project && count == 0 ==> step(
            CreationView::Count(p),
            EventView::Counted(Ok(count)),
        ) == CreationView::CheckLimit(p, 0),
        count > u32::MAX + 1 ==> step(CreationView::Count(p), EventView::Counted(Ok(count)))
            == CreationView::Aborted,
        count > u32::MAX && !p.is_cch_project ==> step(
            CreationView::Count(p),
            EventView::Counted(Ok(count)),
        ) == CreationView::Aborted,
{
}

/// Whether the user may have the project goes with it to the store, whatever it is. All but
/// administrators wait for room first.
pub proof fn law_permission_is_passed_on(p: NewProject, n: u32, allowed: bool)
    ensures
        p.is_admin ==> step(CreationView::CheckLimit(p, n), EventView::Allowed(allowed))
            == CreationView::Create(p, allowed),
        !p.is_admin ==> step(CreationView::CheckLimit(p, n), EventView::Allowed(allowed))
            == CreationView::CheckCapacity(p, allowed),
        step(CreationView::CheckCapacity(p, allowed), EventView::Capacity(Ok(())))
            == CreationView::Create(p, allowed),
{
}

/// The project that was created is the one that is started and answered with, whatever state it is
/// in.
pub proof fn law_created_project_is_started(p: NewProject, allowed: bool, project: FoundProject)
    ensures
        step(CreationView::Create(p, allowed), EventView::Created(Ok(project)))
            == CreationView::Start(project),
        step(CreationView::Start(project), EventView::Queued(Ok(()))) == CreationView::Created(
            project,
        ),
{
}

/// An error of any service ends the creation with that error.
pub proof fn law_error_ends_a_creation(
    p: NewProject,
    allowed: bool,
    project: FoundProject,
    e: ErrorView,
)
    ensures
        step(CreationView::Count(p), EventView::Counted(Err(e))) == CreationView::Failed(e),
        step(CreationView::CheckCapacity(p, allowed), EventView::Capacity(Err(e)))
            == CreationView::Failed(e),
        step(CreationView::Create(p, allowed), EventView::Created(Err(e)))
            == CreationView::Failed(e),
        step(CreationView::Start(project), EventView::Queued(Err(e))) == CreationView::Failed(e),
{
}

/// An event that answers something else than what was asked for changes nothing.
pub proof fn law_other_answers_change_nothing(c: CreationView, event: EventView)
    requires
        match c {
            CreationView::Count(_) => !(event is Counted),
            CreationView::CheckLimit(_, _) => !(event is Allowed),
            CreationView::CheckCapacity(_, _) => !(event is Capacity),
            CreationView::Create(_, _) => !(event is Created),
            CreationView::Start(_) => !(event is Queued),
            _ => true,
        },
    ensures
        step(c, event) == c,
{
}

/// What is asked for is what the creation has come to.
pub proof fn law_what_is_asked_for(
    p: NewProject,
    n: u32,
    allowed: bool,
    project: FoundProject,
    e: ErrorView,
)
    ensures
        wanted(CreationView::Count(p)) == Action::CountProjects,
        wanted(CreationView::CheckLimit(p, n)) == Action::CheckLimit(n),
        wanted(CreationView::CheckCapacity(p, allowed)) == Action::CheckCapacity,
        wanted(CreationView::Start(project)) == Action::Start,
        wanted(CreationView::Created(project)) == Action::Finish,
        wanted(CreationView::Failed(e)) == Action::Finish,
        wanted(CreationView::Aborted) == Action::Finish,
{
}

/// A creation is over exactly if nothing more is asked for.
pub proof fn law_over_when_nothing_is_asked_for(c: CreationView)
    ensures
        over(c) <==> wanted(c) == Action::Finish,
{
}

/// Contracts see all of an event.
pub proof fn law_event_is_seen_whole(event: Event)
    ensures
        match (event, event@) {
            (Event::Counted(Ok(a)), EventView::Counted(Ok(b))) => a == b,
            (Event::Counted(Err(a)), EventView::Counted(Err(b))) => a@ == b,
            (Event::Allowed(a), EventView::Allowed(b)) => a == b,
            (Event::Capacity(Ok(_)), EventView::Capacity(Ok(_))) => true,
            (Event::Capacity(Err(a)), EventView::Capacity(Err(b))) => a@ == b,
            (Event::Created(Ok(a)), EventView::Created(Ok(b))) => a == b,
            (Event::Created(Err(a)), EventView::Created(Err(b))) => a@ == b,
            (Event::Queued(Ok(_)), EventView::Queued(Ok(_))) => true,
            (Event::Queued(Err(a)), EventView::Queued(Err(b))) => a@ == b,
            _ => false,
        },
{
}

/// Contracts see all of a creation.
pub proof fn law_creation_is_seen_whole(c: Creation)
    ensures
        match (c, c@) {
            (Creation::Count(a), CreationView::Count(b)) => a == b,
            (Creation::CheckLimit(a, m), CreationView::CheckLimit(b, n)) => a == b && m == n,
            (Creation::CheckCapacity(a, m), CreationView::CheckCapacity(b, n)) => a == b && m == n,
            (Creation::Create(a, m), CreationView::Create(b, n)) => a == b && m == n,
            (Creation::Start(a), CreationView::Start(b)) => a == b,
            (Creation::Created(a), CreationView::Created(b)) => a == b,
            (Creation::Failed(a), CreationView::Failed(b)) => a@ == b,
            (Creation::Aborted, CreationView::Aborted) => true,
            _ => false,
        },
{
}

} // verus!
