//! What each answer makes of a deletion, and what is asked for next.

use crate::gateway::deletion::{
    start, step, wanted, Action, ActionView, Deletion, DeletionView, Event, EventView, Reply,
};
use crate::gateway::deployment::{
    by_last_update, law_building_at_any_place, law_picked_by_time, law_picked_deployments_run,
    law_running_of_one_time, law_sort_is_permutation, running, Deployment, State,
};
use crate::gateway::error::{ErrorKindView, ErrorView};
use crate::gateway::project::{FoundProject, State as ProjectState};
use crate::id::ulid_from_string;
use crate::timestamp::Timestamp;
use vstd::prelude::*;

verus! {

/// A deletion begins with a look at the project, unless a dry run was asked for.
pub proof fn law_deletion_begins(dry_run: Option<bool>)
    ensures
        dry_run matches Some(true) ==> start(dry_run) == DeletionView::Answered(Reply::DryRun),
        !(dry_run matches Some(true)) ==> start(dry_run) == DeletionView::FindProject,
{
}

/// A project that is found up or asleep is connected to. One in any other state is restarted
/// first, under its own identifier. An identifier that is none ends the deletion.
pub proof fn law_project_found(p: FoundProject)
    ensures
        ulid_from_string(p.project_id@) is Err ==> step(
            DeletionView::FindProject,
            EventView::Project(Ok(p)),
        ) == DeletionView::Aborted,
        forall|id: u128| #![auto]
            ulid_from_string(p.project_id@) == Ok::<u128, crate::id::DecodeError>(id) && (p.state
                == ProjectState::Ready || p.state == ProjectState::Stopped) ==> step(
                DeletionView::FindProject,
                EventView::Project(Ok(p)),
            ) == DeletionView::Connect,
        forall|id: u128| #![auto]
            ulid_from_string(p.project_id@) == Ok::<u128, crate::id::DecodeError>(id) && p.state
                != ProjectState::Ready && p.state != ProjectState::Stopped ==> step(
                DeletionView::FindProject,
                EventView::Project(Ok(p)),
            ) == DeletionView::Restart(id),
{
}

/// A restart is followed by another look at the project, which has to be up then.
pub proof fn law_project_restarted(id: u128, p: FoundProject)
    ensures
        step(DeletionView::Restart(id), EventView::Restarted(Ok(())))
            == DeletionView::FindRestarted,
        p.state == ProjectState::Ready ==> step(
            DeletionView::FindRestarted,
            EventView::Project(Ok(p)),
        ) == DeletionView::Connect,
        p.state != ProjectState::Ready ==> step(
            DeletionView::FindRestarted,
            EventView::Project(Ok(p)),
        ) == DeletionView::Failed(
            ErrorView { kind: ErrorKindView::ProjectCorrupted, source: None },
        ),
{
}

/// A deployment that is being built keeps the project from being deleted, wherever it stands in the
/// list and whenever it was updated.
pub proof fn law_building_deployment_is_in_the_way(list: Seq<Deployment>, i: int)
    requires
        0 <= i < list.len(),
        list[i].state == State::InPipeline,
    ensures
        step(DeletionView::ListDeployments, EventView::Deployments(Ok(list)))
            == DeletionView::Failed(
            ErrorView { kind: ErrorKindView::ProjectHasBuildingDeployment, source: None },
        ),
{
    law_building_at_any_place(list);
}

/// Where nothing runs and nothing is being built, the resources come next.
pub proof fn law_nothing_to_stop(list: Seq<Deployment>)
    requires
        forall|i: int|
            0 <= i < list.len() ==> (#[trigger] list[i]).state != State::InPipeline
                && list[i].state != State::Running,
    ensures
        step(DeletionView::ListDeployments, EventView::Deployments(Ok(list)))
            == DeletionView::ListResources,
{
    law_building_at_any_place(list);
    let run = running(by_last_update(list));
    law_picked_deployments_run(by_last_update(list));
    law_sort_is_permutation(list);
    if run.len() > 0 {
        assert(run.contains(run[0]));
        assert(list.contains(run[0]));
        let k = choose|k: int| 0 <= k < list.len() && list[k] == run[0];
        assert(list[k].state == State::Running);
    }
}

/// Where something runs and nothing is being built, exactly the deployments that run are stopped,
/// from the oldest update to the newest, those of one time in the order in which they were listed.
pub proof fn law_running_deployments_are_stopped(list: Seq<Deployment>, r: int, t: Timestamp)
    requires
        forall|i: int| 0 <= i < list.len() ==> (#[trigger] list[i]).state != State::InPipeline,
        0 <= r < list.len(),
        list[r].state == State::Running,
    ensures
        step(DeletionView::ListDeployments, EventView::Deployments(Ok(list)))
            matches DeletionView::StopDeployments(left) && {
            &&& left.len() > 0
            &&& forall|d: Deployment| #[trigger]
                left.contains(d) <==> list.contains(d) && d.state == State::Running
            &&& forall|i: int, j: int|
                0 <= i < j < left.len() ==> (#[trigger] left[i]).last_update.secs < (
                #[trigger] left[j]).last_update.secs || (left[i].last_update.secs
                    == left[j].last_update.secs && left[i].last_update.nanos
                    <= left[j].last_update.nanos)
            &&& left.filter(|d: Deployment| d.last_update == t) == list.filter(
                |d: Deployment| d.last_update == t && d.state == State::Running,
            )
        },
{
    law_building_at_any_place(list);
    let sorted = by_last_update(list);
    let run = running(sorted);
    law_picked_deployments_run(sorted);
    law_sort_is_permutation(list);
    law_picked_by_time(list);
    law_running_of_one_time(list, t);
    assert(list.contains(list[r]));
    assert(run.contains(list[r]));
}

/// A deployment that stopped is followed by the next one, and the last by the resources. One that
/// did not stop ends the deletion.
pub proof fn law_deployment_asked_to_stop(left: Seq<Deployment>, status: u16)
    requires
        left.len() > 0,
    ensures
        wanted(DeletionView::StopDeployments(left)) == ActionView::StopDeployment(left[0].id@),
        status != 200 ==> step(
            DeletionView::StopDeployments(left),
            EventView::DeploymentStopped(Ok(status)),
        ) == DeletionView::Failed(
            ErrorView { kind: ErrorKindView::ProjectHasRunningDeployment, source: None },
        ),
        status == 200 && left.len() == 1 ==> step(
            DeletionView::StopDeployments(left),
            EventView::DeploymentStopped(Ok(status)),
        ) == DeletionView::ListResources,
        status == 200 && left.len() > 1 ==> step(
            DeletionView::StopDeployments(left),
            EventView::DeploymentStopped(Ok(status)),
        ) == DeletionView::StopDeployments(left.subrange(1, left.len() as int)),
{
    assert(left.drop_first() =~= left.subrange(1, left.len() as int));
}

/// The resources are deleted in the order in which they were listed, and where there are none the
/// container goes.
pub proof fn law_resources_listed(list: Seq<Seq<char>>)
    ensures
        list.len() > 0 ==> step(DeletionView::ListResources, EventView::Resources(Ok(list)))
            == DeletionView::DeleteResources(list, Seq::empty()),
        list.len() == 0 ==> step(DeletionView::ListResources, EventView::Resources(Ok(list)))
            == DeletionView::DeleteContainer,
{
}

/// A resource that could not be deleted is remembered and does not keep the others. Once all were
/// asked for, the container goes if every one was deleted; if not, the deletion fails with those
/// that were not.
pub proof fn law_resource_asked_to_go(
    left: Seq<Seq<char>>,
    failed: Seq<Seq<char>>,
    status: u16,
)
    requires
        left.len() > 0,
    ensures
        wanted(DeletionView::DeleteResources(left, failed)) == ActionView::DeleteResource(left[0]),
        left.len() > 1 && status == 200 ==> step(
            DeletionView::DeleteResources(left, failed),
            EventView::ResourceDeleted(Ok(status)),
        ) == DeletionView::DeleteResources(left.subrange(1, left.len() as int), failed),
        left.len() > 1 && status != 200 ==> step(
            DeletionView::DeleteResources(left, failed),
            EventView::ResourceDeleted(Ok(status)),
        ) == DeletionView::DeleteResources(
            left.subrange(1, left.len() as int),
            failed.push(left[0]),
        ),
        left.len() == 1 && status == 200 && failed.len() == 0 ==> step(
            DeletionView::DeleteResources(left, failed),
            EventView::ResourceDeleted(Ok(status)),
        ) == DeletionView::DeleteContainer,
        left.len() == 1 && status == 200 && failed.len() > 0 ==> step(
            DeletionView::DeleteResources(left, failed),
            EventView::ResourceDeleted(Ok(status)),
        ) == DeletionView::Failed(
            ErrorView { kind: ErrorKindView::ProjectHasResources(failed), source: None },
        ),
        left.len() == 1 && status != 200 ==> step(
            DeletionView::DeleteResources(left, failed),
            EventView::ResourceDeleted(Ok(status)),
        ) == DeletionView::Failed(
            ErrorView {
                kind: ErrorKindView::ProjectHasResources(failed.push(left[0])),
                source: None,
            },
        ),
{
    assert(left.drop_first() =~= left.subrange(1, left.len() as int));
}

/// The deployments are listed once there is a connection, the record goes after the container, and
/// only then the project counts as deleted.
pub proof fn law_order_of_the_rest()
    ensures
        step(DeletionView::Connect, EventView::Connected(Ok(()))) == DeletionView::ListDeployments,
        step(DeletionView::DeleteContainer, EventView::ContainerDeleted(Ok(())))
            == DeletionView::DeleteRecord,
        step(DeletionView::DeleteRecord, EventView::RecordDeleted(Ok(())))
            == DeletionView::Answered(Reply::Deleted),
{
}

/// An error of any service ends the deletion with that error.
pub proof fn law_error_ends_a_deletion(
    e: ErrorView,
    id: u128,
    stops: Seq<Deployment>,
    left: Seq<Seq<char>>,
    failed: Seq<Seq<char>>,
)
    ensures
        step(DeletionView::FindProject, EventView::Project(Err(e))) == DeletionView::Failed(e),
        step(DeletionView::Restart(id), EventView::Restarted(Err(e))) == DeletionView::Failed(e),
        step(DeletionView::FindRestarted, EventView::Project(Err(e))) == DeletionView::Failed(e),
        step(DeletionView::Connect, EventView::Connected(Err(e))) == DeletionView::Failed(e),
        step(DeletionView::ListDeployments, EventView::Deployments(Err(e)))
            == DeletionView::Failed(e),
        step(DeletionView::StopDeployments(stops), EventView::DeploymentStopped(Err(e)))
            == DeletionView::Failed(e),
        step(DeletionView::ListResources, EventView::Resources(Err(e))) == DeletionView::Failed(e),
        step(DeletionView::DeleteResources(left, failed), EventView::ResourceDeleted(Err(e)))
            == DeletionView::Failed(e),
        step(DeletionView::DeleteContainer, EventView::ContainerDeleted(Err(e)))
            == DeletionView::Failed(e),
        step(DeletionView::DeleteRecord, EventView::RecordDeleted(Err(e)))
            == DeletionView::Failed(e),
{
}

/// An event that answers something else than what was asked for changes nothing.
pub proof fn law_other_answers_change_nothing(d: DeletionView, event: EventView)
    requires
        match d {
            DeletionView::FindProject | DeletionView::FindRestarted => !(event is Project),
            DeletionView::Restart(_) => !(event is Restarted),
            DeletionView::Connect => !(event is Connected),
            DeletionView::ListDeployments => !(event is Deployments),
            DeletionView::StopDeployments(_) => !(event is DeploymentStopped),
            DeletionView::ListResources => !(event is Resources),
            DeletionView::DeleteResources(_, _) => !(event is ResourceDeleted),
            DeletionView::DeleteContainer => !(event is ContainerDeleted),
            DeletionView::DeleteRecord => !(event is RecordDeleted),
            _ => true,
        },
    ensures
        step(d, event) == d,
{
}

/// What is asked for is what the deletion has come to, and a deletion that is over asks for nothing
/// but hands out its end.
pub proof fn law_what_is_asked_for(id: u128, reply: Reply, e: ErrorView)
    ensures
        wanted(DeletionView::FindProject) == ActionView::FindProject,
        wanted(DeletionView::Restart(id)) == ActionView::Restart(id),
        wanted(DeletionView::FindRestarted) == ActionView::FindProject,
        wanted(DeletionView::Connect) == ActionView::Connect,
        wanted(DeletionView::ListDeployments) == ActionView::ListDeployments,
        wanted(DeletionView::ListResources) == ActionView::ListResources,
        wanted(DeletionView::DeleteContainer) == ActionView::DeleteContainer,
        wanted(DeletionView::DeleteRecord) == ActionView::DeleteRecord,
        wanted(DeletionView::Answered(reply)) == ActionView::Answer(reply),
        wanted(DeletionView::Failed(e)) == ActionView::Fail(e),
        wanted(DeletionView::Aborted) == ActionView::Abort,
{
}

/// Contracts see all of an event: which answer it is, and what the answer holds.
pub proof fn law_event_is_seen_whole(event: Event)
    ensures
        match (event, event@) {
            (Event::Project(Ok(a)), EventView::Project(Ok(b))) => a == b,
            (Event::Project(Err(a)), EventView::Project(Err(b))) => a@ == b,
            (Event::Restarted(Ok(_)), EventView::Restarted(Ok(_))) => true,
            (Event::Restarted(Err(a)), EventView::Restarted(Err(b))) => a@ == b,
            (Event::Connected(Ok(_)), EventView::Connected(Ok(_))) => true,
            (Event::Connected(Err(a)), EventView::Connected(Err(b))) => a@ == b,
            (Event::Deployments(Ok(a)), EventView::Deployments(Ok(b))) => a@ == b,
            (Event::Deployments(Err(a)), EventView::Deployments(Err(b))) => a@ == b,
            (Event::DeploymentStopped(Ok(a)), EventView::DeploymentStopped(Ok(b))) => a == b,
            (Event::DeploymentStopped(Err(a)), EventView::DeploymentStopped(Err(b))) => a@ == b,
            (Event::Resources(Ok(a)), EventView::Resources(Ok(b))) => a@.len() == b.len()
                && forall|i: int| 0 <= i < b.len() ==> a@[i]@ == #[trigger] b[i],
            (Event::Resources(Err(a)), EventView::Resources(Err(b))) => a@ == b,
            (Event::ResourceDeleted(Ok(a)), EventView::ResourceDeleted(Ok(b))) => a == b,
            (Event::ResourceDeleted(Err(a)), EventView::ResourceDeleted(Err(b))) => a@ == b,
            (Event::ContainerDeleted(Ok(_)), EventView::ContainerDeleted(Ok(_))) => true,
            (Event::ContainerDeleted(Err(a)), EventView::ContainerDeleted(Err(b))) => a@ == b,
            (Event::RecordDeleted(Ok(_)), EventView::RecordDeleted(Ok(_))) => true,
            (Event::RecordDeleted(Err(a)), EventView::RecordDeleted(Err(b))) => a@ == b,
            _ => false,
        },
{
}

/// Contracts see all of what is asked for.
pub proof fn law_action_is_seen_whole(action: Action)
    ensures
        match (action, action@) {
            (Action::FindProject, ActionView::FindProject) => true,
            (Action::Restart(a), ActionView::Restart(b)) => a == b,
            (Action::Connect, ActionView::Connect) => true,
            (Action::ListDeployments, ActionView::ListDeployments) => true,
            (Action::StopDeployment(a), ActionView::StopDeployment(b)) => a@ == b,
            (Action::ListResources, ActionView::ListResources) => true,
            (Action::DeleteResource(a), ActionView::DeleteResource(b)) => a@ == b,
            (Action::DeleteContainer, ActionView::DeleteContainer) => true,
            (Action::DeleteRecord, ActionView::DeleteRecord) => true,
            (Action::Answer(a), ActionView::Answer(b)) => a == b,
            (Action::Fail(a), ActionView::Fail(b)) => a@ == b,
            (Action::Abort, ActionView::Abort) => true,
            _ => false,
        },
{
}

/// Contracts see all of a deletion: the work left is what is in hand, followed by the rest.
pub proof fn law_deletion_is_seen_whole(d: Deletion)
    ensures
        match (d, d@) {
            (Deletion::FindProject, DeletionView::FindProject) => true,
            (Deletion::Restart(a), DeletionView::Restart(b)) => a == b,
            (Deletion::FindRestarted, DeletionView::FindRestarted) => true,
            (Deletion::Connect, DeletionView::Connect) => true,
            (Deletion::ListDeployments, DeletionView::ListDeployments) => true,
            (
                Deletion::StopDeployments { current, rest },
                DeletionView::StopDeployments(left),
            ) => left.len() == rest@.len() + 1 && left[0] == current && forall|i: int|
                0 <= i < rest@.len() ==> left[i + 1] == #[trigger] rest@[i],
            (Deletion::ListResources, DeletionView::ListResources) => true,
            (
                Deletion::DeleteResources { current, rest, failed },
                DeletionView::DeleteResources(left, kept),
            ) => {
                &&& left.len() == rest@.len() + 1
                &&& left[0] == current@
                &&& forall|i: int| 0 <= i < rest@.len() ==> left[i + 1] == (#[trigger] rest@[i])@
                &&& kept.len() == failed@.len()
                &&& forall|i: int| 0 <= i < failed@.len() ==> kept[i] == (#[trigger] failed@[i])@
            },
            (Deletion::DeleteContainer, DeletionView::DeleteContainer) => true,
            (Deletion::DeleteRecord, DeletionView::DeleteRecord) => true,
            (Deletion::Answered(a), DeletionView::Answered(b)) => a == b,
            (Deletion::Failed(a), DeletionView::Failed(b)) => a@ == b,
            (Deletion::Aborted, DeletionView::Aborted) => true,
            _ => false,
        },
{
}

/// The answer to a dry run does not say that the project is gone, and the answer to a deletion does.
pub proof fn law_answers_tell_what_happened(reply: Reply)
    ensures
        reply.body() == "project successfully deleted"@ <==> reply == Reply::Deleted,
        reply.body() == "dry run is no longer supported"@ <==> reply == Reply::DryRun,
{
    reveal_strlit("project successfully deleted");
    reveal_strlit("dry run is no longer supported");
    assert("project successfully deleted"@[0] != "dry run is no longer supported"@[0]);
}

} // verus!
