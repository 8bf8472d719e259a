//! Bringing up many pods, one after the other, and taking them down again.

use crate::orchestrator::pod::{belongs_to, is_pod_of, pod_name, same_name, service_name, PodSpec};
use crate::text::decimal;
use vstd::prelude::*;

verus! {

/// The code with which the cluster says that a pod exists already.
pub const CONFLICT: u16 = 409;

/// How far a rollout has come.
#[derive(Debug, Clone, Copy, PartialEq, Eq, Structural)]
pub enum Stage {
    /// The pod is being made.
    Create(u16),
    /// The pod is given time to come up.
    AwaitRunning(u16),
    /// The pod is looked up.
    Get(u16),
    /// The pod is taken down.
    Delete(u16),
    Done,
    /// A pod did not come up in time.
    TimedOut,
    /// The cluster did something that it should not.
    Aborted,
}

/// A rollout of the pods below a number.
#[derive(Debug, Clone, Copy, PartialEq, Eq, Structural)]
pub struct Rollout {
    pub count: u16,
    pub stage: Stage,
}

/// An answer of the cluster.
#[derive(Debug)]
pub enum Event {
    /// A pod of this name was made.
    Created(String),
    /// The cluster refused to make the pod, with this code.
    CreateRefused(u16),
    /// The pod could not be made for another reason.
    CreateFailed,
    /// Whether the time was enough for the pod to come up.
    Running(bool),
    /// What the pod says of its containers, if it says anything.
    Found(Option<PodSpec>),
    /// The pod could not be looked up.
    NotFound,
    /// The pod is being taken down; this is its name if the cluster tells it.
    Deleting(Option<String>),
    /// The pod could not be taken down.
    DeleteFailed,
}

/// An [`Event`] as contracts speak of it.
pub enum EventView {
    Created(Seq<char>),
    CreateRefused(u16),
    CreateFailed,
    Running(bool),
    Found(Option<PodSpec>),
    NotFound,
    Deleting(Option<Seq<char>>),
    DeleteFailed,
}

impl View for Event {
    type V = EventView;

    open spec fn view(&self) -> EventView {
        match *self {
            Event::Created(s) => EventView::Created(s@),
            Event::CreateRefused(code) => EventView::CreateRefused(code),
            Event::CreateFailed => EventView::CreateFailed,
            Event::Running(b) => EventView::Running(b),
            Event::Found(p) => EventView::Found(p),
            Event::NotFound => EventView::NotFound,
            Event::Deleting(name) => EventView::Deleting(
                match name {
                    Some(s) => Some(s@),
                    None => None,
                },
            ),
            Event::DeleteFailed => EventView::DeleteFailed,
        }
    }
}

/// Goes on once the pods below `idx` are up: with the next, or with taking all of them down.
pub open spec fn creating(count: u16, idx: int) -> Stage {
    if idx < count {
        Stage::Create(idx as u16)
    } else {
        deleting(count, 0)
    }
}

/// Goes on once the pods below `idx` are down.
pub open spec fn deleting(count: u16, idx: int) -> Stage {
    if idx < count {
        Stage::Delete(idx as u16)
    } else {
        Stage::Done
    }
}

/// `stage` if all is well.
pub open spec fn unless_wrong(well: bool, stage: Stage) -> Stage {
    if well {
        stage
    } else {
        Stage::Aborted
    }
}

/// What an answer of the cluster makes of a rollout. A pod that exists already is as good as a new
/// one. An answer to something else changes nothing.
pub open spec fn step(count: u16, stage: Stage, event: EventView) -> Stage {
    match (stage, event) {
        (Stage::Create(idx), EventView::Created(name)) => unless_wrong(
            name == pod_name(idx as nat),
            Stage::AwaitRunning(idx),
        ),
        (Stage::Create(idx), EventView::CreateRefused(code)) => unless_wrong(
            code == CONFLICT,
            Stage::AwaitRunning(idx),
        ),
        (Stage::Create(_), EventView::CreateFailed) => Stage::Aborted,
        (Stage::AwaitRunning(idx), EventView::Running(in_time)) => if in_time {
            Stage::Get(idx)
        } else {
            Stage::TimedOut
        },
        (Stage::Get(idx), EventView::Found(pod)) => unless_wrong(
            belongs_to(pod, pod_name(idx as nat)),
            creating(count, idx + 1),
        ),
        (Stage::Get(_), EventView::NotFound) => Stage::Aborted,
        (Stage::Delete(idx), EventView::Deleting(name)) => unless_wrong(
            name is Some ==> name->0 == pod_name(idx as nat),
            deleting(count, idx + 1),
        ),
        (Stage::Delete(_), EventView::DeleteFailed) => Stage::Aborted,
        _ => stage,
    }
}

fn wrong_or(well: bool, stage: Stage) -> (r: Stage)
    ensures
        r == unless_wrong(well, stage),
{
    if well {
        stage
    } else {
        Stage::Aborted
    }
}

impl Rollout {
    /// Whether the pod in question is one of those of the rollout.
    pub open spec fn wf(self) -> bool {
        match self.stage {
            Stage::Create(idx) => idx < self.count,
            Stage::AwaitRunning(idx) => idx < self.count,
            Stage::Get(idx) => idx < self.count,
            Stage::Delete(idx) => idx < self.count,
            _ => true,
        }
    }

    /// Starts to bring up the pods from one number to below another; all below the latter are
    /// taken down at the end.
    pub fn new(start: u16, count: u16) -> (r: Self)
        ensures
            r.wf(),
            r == (Rollout { count, stage: creating(count, start as int) }),
            r.count == count,
            start < count ==> r.stage == Stage::Create(start),
            start >= count && count > 0 ==> r.stage == Stage::Delete(0),
            count == 0 ==> r.stage == Stage::Done,
    {
        let stage = if start < count {
            Stage::Create(start)
        } else {
            Rollout::delete_next(count, 0)
        };
        Rollout { count, stage }
    }

    fn delete_next(count: u16, idx: u16) -> (r: Stage)
        ensures
            r == deleting(count, idx as int),
    {
        if idx < count {
            Stage::Delete(idx)
        } else {
            Stage::Done
        }
    }

    /// Takes an answer of the cluster.
    pub fn advance(self, event: Event) -> (r: Self)
        requires
            self.wf(),
        ensures
            r.wf(),
            r == (Rollout { count: self.count, stage: step(self.count, self.stage, event@) }),
    {
        let count: u16 = self.count;
        let stage = match (self.stage, event) {
            (Stage::Create(idx), Event::Created(name)) => wrong_or(
                same_name(name.as_str(), service_name(idx).as_str()),
                Stage::AwaitRunning(idx),
            ),
            (Stage::Create(idx), Event::CreateRefused(code)) => wrong_or(
                code == CONFLICT,
                Stage::AwaitRunning(idx),
            ),
            (Stage::Create(_), Event::CreateFailed) => Stage::Aborted,
            (Stage::AwaitRunning(idx), Event::Running(in_time)) => if in_time {
                Stage::Get(idx)
            } else {
                Stage::TimedOut
            },
            (Stage::Get(idx), Event::Found(pod)) => {
                let next = if idx + 1 < count {
                    Stage::Create(idx + 1)
                } else {
                    Rollout::delete_next(count, 0)
                };
                wrong_or(is_pod_of(&pod, service_name(idx).as_str()), next)
            },
            (Stage::Get(_), Event::NotFound) => Stage::Aborted,
            (Stage::Delete(idx), Event::Deleting(name)) => {
                let well = match name {
                    Some(name) => same_name(name.as_str(), service_name(idx).as_str()),
                    None => true,
                };
                wrong_or(well, Rollout::delete_next(count, idx + 1))
            },
            (Stage::Delete(_), Event::DeleteFailed) => Stage::Aborted,
            (same, _) => same,
        };
        Rollout { count, stage }
    }
}

/// The answer of a cluster with which all is well.
pub open spec fn well(stage: Stage) -> EventView {
    match stage {
        Stage::Create(idx) => EventView::Created(pod_name(idx as nat)),
        Stage::AwaitRunning(_) => EventView::Running(true),
        Stage::Get(_) => EventView::Found(None),
        Stage::Delete(_) => EventView::Deleting(None),
        _ => EventView::DeleteFailed,
    }
}

/// A rollout after `n` answers of a cluster with which all is well.
pub open spec fn driven(count: u16, stage: Stage, n: nat) -> Stage
    decreases n,
{
    if n == 0 {
        stage
    } else {
        driven(count, step(count, stage, well(stage)), (n - 1) as nat)
    }
}

/// Where all is well, each pod takes three answers to come up and one to go down, and then the
/// rollout is done.
pub proof fn law_rollout_completes(count: u16, start: u16)
    requires
        start <= count,
    ensures
        driven(count, creating(count, start as int), (3 * (count - start) + count) as nat)
            == Stage::Done,
    decreases count - start,
{
    if start < count {
        law_rollout_completes(count, (start + 1) as u16);
        let n = (3 * (count - (start + 1)) + count) as nat;
        reveal_with_fuel(driven, 4);
        assert(driven(count, Stage::Create(start), n + 3) == driven(
            count,
            creating(count, start + 1),
            n,
        ));
    } else {
        lemma_deletion_completes(count, 0);
    }
}

proof fn lemma_deletion_completes(count: u16, idx: int)
    requires
        0 <= idx <= count,
    ensures
        driven(count, deleting(count, idx), (count - idx) as nat) == Stage::Done,
    decreases count - idx,
{
    if idx < count {
        lemma_deletion_completes(count, idx + 1);
    }
}

/// Pods are brought up and taken down in the order of their numbers: what follows a pod that came
/// up or went down well is the next one.
pub proof fn law_pods_in_order(count: u16, idx: u16, pod: Option<PodSpec>, name: Option<Seq<char>>)
    requires
        idx + 1 < count,
        belongs_to(pod, pod_name(idx as nat)),
        name is Some ==> name->0 == pod_name(idx as nat),
    ensures
        step(count, Stage::Get(idx), EventView::Found(pod)) == Stage::Create((idx + 1) as u16),
        step(count, Stage::Delete(idx), EventView::Deleting(name)) == Stage::Delete(
            (idx + 1) as u16,
        ),
{
}

/// A rollout that is over stays as it is.
pub proof fn law_end_is_final(count: u16, stage: Stage, event: EventView)
    requires
        stage is Done || stage is TimedOut || stage is Aborted,
    ensures
        step(count, stage, event) == stage,
{
}

/// A pod is made first, given time to come up, and looked up then. The cluster may say that it has
/// made the pod, or that the pod exists already. Anything else that it says of making a pod ends
/// the rollout.
pub proof fn law_pod_is_brought_up(count: u16, idx: u16, name: Seq<char>, code: u16)
    ensures
        step(count, Stage::Create(idx), EventView::Created("shuttle-service-"@ + decimal(idx as nat)))
            == Stage::AwaitRunning(idx),
        name != "shuttle-service-"@ + decimal(idx as nat) ==> step(
            count,
            Stage::Create(idx),
            EventView::Created(name),
        ) == Stage::Aborted,
        step(count, Stage::Create(idx), EventView::CreateRefused(409)) == Stage::AwaitRunning(idx),
        code != 409 ==> step(count, Stage::Create(idx), EventView::CreateRefused(code))
            == Stage::Aborted,
        step(count, Stage::Create(idx), EventView::CreateFailed) == Stage::Aborted,
        step(count, Stage::AwaitRunning(idx), EventView::Running(true)) == Stage::Get(idx),
        step(count, Stage::AwaitRunning(idx), EventView::Running(false)) == Stage::TimedOut,
{
}

/// The rollout goes on only from a pod whose first container has the name of the pod, as far as the
/// pod says anything of its containers. With the last pod it turns to taking down the first.
pub proof fn law_pod_is_looked_up(count: u16, idx: u16, pod: Option<PodSpec>)
    requires
        idx < count,
    ensures
        ({
            let name = "shuttle-service-"@ + decimal(idx as nat);
            let stage = step(count, Stage::Get(idx), EventView::Found(pod));
            if pod matches Some(s) && !(s.containers@.len() > 0 && s.containers@[0]@ == name) {
                stage == Stage::Aborted
            } else if idx + 1 == count {
                stage == Stage::Delete(0)
            } else {
                stage == Stage::Create((idx + 1) as u16)
            }
        }),
        step(count, Stage::Get(idx), EventView::NotFound) == Stage::Aborted,
{
}

/// The rollout goes on only if the pod that is taken down is the one that was meant, as far as the
/// cluster tells its name. With the last pod it is done.
pub proof fn law_pod_is_taken_down(count: u16, idx: u16, name: Option<Seq<char>>)
    requires
        idx < count,
    ensures
        ({
            let stage = step(count, Stage::Delete(idx), EventView::Deleting(name));
            if name matches Some(s) && s != "shuttle-service-"@ + decimal(idx as nat) {
                stage == Stage::Aborted
            } else if idx + 1 == count {
                stage == Stage::Done
            } else {
                stage == Stage::Delete((idx + 1) as u16)
            }
        }),
        step(count, Stage::Delete(idx), EventView::DeleteFailed) == Stage::Aborted,
{
}

/// An answer to something else changes nothing.
pub proof fn law_other_answers_change_nothing(count: u16, stage: Stage, event: EventView)
    requires
        match stage {
            Stage::Create(_) => !(event is Created || event is CreateRefused || event
                is CreateFailed),
            Stage::AwaitRunning(_) => !(event is Running),
            Stage::Get(_) => !(event is Found || event is NotFound),
            Stage::Delete(_) => !(event is Deleting || event is DeleteFailed),
            _ => true,
        },
    ensures
        step(count, stage, event) == stage,
{
}

/// Pods are brought up from the number on that is given, and taken down from the first on.
pub proof fn law_where_a_rollout_starts(count: u16, start: u16)
    ensures
        start < count ==> creating(count, start as int) == Stage::Create(start),
        start >= count && count > 0 ==> creating(count, start as int) == Stage::Delete(0),
        start >= count && count == 0 ==> creating(count, start as int) == Stage::Done,
{
}

/// Contracts see all of an answer.
pub proof fn law_event_is_seen_whole(event: Event)
    ensures
        match (event, event@) {
            (Event::Created(a), EventView::Created(b)) => a@ == b,
            (Event::CreateRefused(a), EventView::CreateRefused(b)) => a == b,
            (Event::CreateFailed, EventView::CreateFailed) => true,
            (Event::Running(a), EventView::Running(b)) => a == b,
            (Event::Found(a), EventView::Found(b)) => a == b,
            (Event::NotFound, EventView::NotFound) => true,
            (Event::Deleting(Some(a)), EventView::Deleting(Some(b))) => a@ == b,
            (Event::Deleting(None), EventView::Deleting(None)) => true,
            (Event::DeleteFailed, EventView::DeleteFailed) => true,
            _ => false,
        },
{
}

} // verus!
