//! The regular health checks of the projects that are ready.

use crate::gateway::error::texts;
use crate::gateway::status::{ComponentStatus, Queue, SVC_DEGRADED_THRESHOLD};
use vstd::prelude::*;

verus! {

/// The seconds from one round of health checks to the next.
pub const CHECK_INTERVAL_SECS: u64 = 60;

/// How far a round of health checks has come.
#[derive(Debug, PartialEq, Eq)]
pub enum Ambulance {
    /// The next round has not begun.
    Waiting,
    /// The projects that are ready are listed.
    Listing,
    /// `current` is being checked; the projects of `rest` follow.
    Checking { current: String, rest: Vec<String> },
}

/// An [`Ambulance`] as contracts speak of it: the projects left to check are never none.
pub enum AmbulanceView {
    Waiting,
    Listing,
    Checking(Seq<Seq<char>>),
}

impl View for Ambulance {
    type V = AmbulanceView;

    open spec fn view(&self) -> AmbulanceView {
        match *self {
            Ambulance::Waiting => AmbulanceView::Waiting,
            Ambulance::Listing => AmbulanceView::Listing,
            Ambulance::Checking { current, rest } => AmbulanceView::Checking(
                seq![current@] + texts(rest@),
            ),
        }
    }
}

/// What happens to an ambulance.
#[derive(Debug)]
pub enum Event {
    /// It is time for a round, with the queue of the worker as it is.
    Tick(Queue),
    /// The projects that are ready, if they could be listed.
    Ready(Option<Vec<String>>),
    /// The check is done, or could not be queued.
    Checked,
}

/// An [`Event`] as contracts speak of it.
pub enum EventView {
    Tick(Queue),
    Ready(Option<Seq<Seq<char>>>),
    Checked,
}

impl View for Event {
    type V = EventView;

    open spec fn view(&self) -> EventView {
        match *self {
            Event::Tick(q) => EventView::Tick(q),
            Event::Ready(r) => EventView::Ready(
                match r {
                    Some(v) => Some(texts(v@)),
                    None => None,
                },
            ),
            Event::Checked => EventView::Checked,
        }
    }
}

/// What an ambulance wants.
#[derive(Debug, PartialEq, Eq)]
pub enum Action {
    /// Wait until it is time for a round.
    Wait,
    /// List the projects that are ready.
    ListReady,
    /// Queue a check of this project and wait until it is done.
    Check(String),
}

/// An [`Action`] as contracts speak of it.
pub enum ActionView {
    Wait,
    ListReady,
    Check(Seq<char>),
}

impl View for Action {
    type V = ActionView;

    open spec fn view(&self) -> ActionView {
        match *self {
            Action::Wait => ActionView::Wait,
            Action::ListReady => ActionView::ListReady,
            Action::Check(s) => ActionView::Check(s@),
        }
    }
}

/// Goes on with the projects that are left to check.
pub open spec fn checking(left: Seq<Seq<char>>) -> AmbulanceView {
    if left.len() == 0 {
        AmbulanceView::Waiting
    } else {
        AmbulanceView::Checking(left)
    }
}

/// What an event makes of an ambulance. A gateway that is behind with its work is spared, and an
/// event that answers nothing that was asked for changes nothing.
pub open spec fn step(a: AmbulanceView, event: EventView) -> AmbulanceView {
    match (a, event) {
        (AmbulanceView::Waiting, EventView::Tick(queue)) => if queue.lagging() {
            AmbulanceView::Waiting
        } else {
            AmbulanceView::Listing
        },
        (AmbulanceView::Listing, EventView::Ready(r)) => match r {
            Some(projects) => checking(projects),
            None => AmbulanceView::Waiting,
        },
        (AmbulanceView::Checking(left), EventView::Checked) => checking(left.drop_first()),
        _ => a,
    }
}

/// What an ambulance wants.
pub open spec fn wanted(a: AmbulanceView) -> ActionView {
    match a {
        AmbulanceView::Waiting => ActionView::Wait,
        AmbulanceView::Listing => ActionView::ListReady,
        AmbulanceView::Checking(left) => ActionView::Check(left[0]),
    }
}

impl Ambulance {
    /// An ambulance that waits for its first round.
    pub fn new() -> (r: Self)
        ensures
            r@ == AmbulanceView::Waiting,
    {
        Ambulance::Waiting
    }

    fn check_next(left: Vec<String>) -> (r: Self)
        ensures
            r@ == checking(texts(left@)),
    {
        let mut rest = left;
        if rest.len() == 0 {
            Ambulance::Waiting
        } else {
            let current = rest.remove(0);
            assert(seq![current@] + texts(rest@) =~= texts(left@));
            Ambulance::Checking { current, rest }
        }
    }

    /// Takes what happened.
    pub fn advance(self, event: Event) -> (r: Self)
        requires
            event matches Event::Tick(queue) ==> queue.size >= SVC_DEGRADED_THRESHOLD,
        ensures
            r@ == step(self@, event@),
    {
        match (self, event) {
            (Ambulance::Waiting, Event::Tick(queue)) => if queue.is_lagging() {
                Ambulance::Waiting
            } else {
                Ambulance::Listing
            },
            (Ambulance::Listing, Event::Ready(r)) => match r {
                Some(projects) => Ambulance::check_next(projects),
                None => Ambulance::Waiting,
            },
            (Ambulance::Checking { current, rest }, Event::Checked) => {
                assert((seq![current@] + texts(rest@)).drop_first() =~= texts(rest@));
                Ambulance::check_next(rest)
            },
            (same, _) => same,
        }
    }

    /// What the ambulance wants.
    pub fn action(&self) -> (r: Action)
        ensures
            r@ == wanted(self@),
    {
        match self {
            Ambulance::Waiting => Action::Wait,
            Ambulance::Listing => Action::ListReady,
            Ambulance::Checking { current, .. } => Action::Check(current.clone()),
        }
    }
}

/// An ambulance that has done `n` checks of a round over `projects`.
pub open spec fn in_round(projects: Seq<Seq<char>>, n: int) -> AmbulanceView {
    checking(projects.skip(n))
}

/// A round checks every project that is ready, each once, one after the other in the order of the
/// list, and then waits for the next round.
pub proof fn law_round_checks_each_project(queue: Queue, projects: Seq<Seq<char>>)
    requires
        !queue.lagging(),
    ensures
        step(AmbulanceView::Waiting, EventView::Tick(queue)) == AmbulanceView::Listing,
        step(AmbulanceView::Listing, EventView::Ready(Some(projects))) == in_round(projects, 0),
        forall|n: int|
            #![trigger in_round(projects, n)]
            0 <= n < projects.len() ==> wanted(in_round(projects, n)) == ActionView::Check(
                projects[n],
            ) && step(in_round(projects, n), EventView::Checked) == in_round(projects, n + 1),
        in_round(projects, projects.len() as int) == AmbulanceView::Waiting,
{
    assert(projects.skip(0) =~= projects);
    assert forall|n: int|
        #![trigger in_round(projects, n)]
        0 <= n < projects.len() implies wanted(in_round(projects, n)) == ActionView::Check(
        projects[n],
    ) && step(in_round(projects, n), EventView::Checked) == in_round(projects, n + 1) by {
        assert(projects.skip(n).drop_first() =~= projects.skip(n + 1));
    }
}

/// No round begins while the gateway reports that it is behind with its work.
pub proof fn law_degraded_gateway_is_spared(queue: Queue)
    requires
        queue.health() == ComponentStatus::Degraded,
    ensures
        step(AmbulanceView::Waiting, EventView::Tick(queue)) == AmbulanceView::Waiting,
{
}

/// A round begins at its time unless more than a hundred and twenty-eight tasks wait.
pub proof fn law_when_a_round_begins(queue: Queue)
    ensures
        queue.size - queue.capacity > 128 ==> step(AmbulanceView::Waiting, EventView::Tick(queue))
            == AmbulanceView::Waiting,
        queue.size - queue.capacity <= 128 ==> step(AmbulanceView::Waiting, EventView::Tick(queue))
            == AmbulanceView::Listing,
{
}

/// The projects that are ready are checked from the first to the last, whatever came of the check
/// before, and without projects the round is over.
pub proof fn law_checks_go_down_the_list(projects: Seq<Seq<char>>)
    ensures
        step(AmbulanceView::Listing, EventView::Ready(None)) == AmbulanceView::Waiting,
        projects.len() == 0 ==> step(AmbulanceView::Listing, EventView::Ready(Some(projects)))
            == AmbulanceView::Waiting,
        projects.len() > 0 ==> step(AmbulanceView::Listing, EventView::Ready(Some(projects)))
            == AmbulanceView::Checking(projects),
        projects.len() > 0 ==> wanted(AmbulanceView::Checking(projects)) == ActionView::Check(
            projects[0],
        ),
        projects.len() == 1 ==> step(AmbulanceView::Checking(projects), EventView::Checked)
            == AmbulanceView::Waiting,
        projects.len() > 1 ==> step(AmbulanceView::Checking(projects), EventView::Checked)
            == AmbulanceView::Checking(projects.subrange(1, projects.len() as int)),
        wanted(AmbulanceView::Waiting) == ActionView::Wait,
        wanted(AmbulanceView::Listing) == ActionView::ListReady,
{
    if projects.len() > 0 {
        assert(projects.drop_first() =~= projects.subrange(1, projects.len() as int));
    }
}

/// What happens out of turn changes nothing.
pub proof fn law_other_events_change_nothing(a: AmbulanceView, event: EventView)
    requires
        match a {
            AmbulanceView::Waiting => !(event is Tick),
            AmbulanceView::Listing => !(event is Ready),
            AmbulanceView::Checking(_) => !(event is Checked),
        },
    ensures
        step(a, event) == a,
{
}

/// Contracts see all of an event, of what is asked for, and of an ambulance.
pub proof fn law_ambulance_is_seen_whole(event: Event, action: Action, a: Ambulance)
    ensures
        match (event, event@) {
            (Event::Tick(x), EventView::Tick(y)) => x == y,
            (Event::Ready(Some(x)), EventView::Ready(Some(y))) => x@.len() == y.len()
                && forall|i: int| 0 <= i < y.len() ==> x@[i]@ == #[trigger] y[i],
            (Event::Ready(None), EventView::Ready(None)) => true,
            (Event::Checked, EventView::Checked) => true,
            _ => false,
        },
        match (action, action@) {
            (Action::Wait, ActionView::Wait) => true,
            (Action::ListReady, ActionView::ListReady) => true,
            (Action::Check(x), ActionView::Check(y)) => x@ == y,
            _ => false,
        },
        match (a, a@) {
            (Ambulance::Waiting, AmbulanceView::Waiting) => true,
            (Ambulance::Listing, AmbulanceView::Listing) => true,
            (Ambulance::Checking { current, rest }, AmbulanceView::Checking(left)) => left.len()
                == rest@.len() + 1 && left[0] == current@ && forall|i: int|
                0 <= i < rest@.len() ==> left[i + 1] == (#[trigger] rest@[i])@,
            _ => false,
        },
{
}

} // verus!
