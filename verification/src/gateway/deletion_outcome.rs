//! What a deletion comes to, given what the services behind the gateway answer.

use crate::gateway::deletion::{
    deletable, delete_answered, deleting, deployments_listed, found, restarted, start, step,
    stop_answered, stopping, DeletionView, EventView, Reply,
};
use crate::gateway::deployment::{any_in_pipeline, by_last_update, running, Deployment};
use crate::gateway::error::{plain, ErrorKindView, ErrorView};
use crate::gateway::project::FoundProject;
use crate::gateway::status::OK;
use crate::id::ulid_from_string;
use vstd::prelude::*;

verus! {

/// What the services behind the gateway answer to each request.
pub struct Services {
    pub project: Result<FoundProject, ErrorView>,
    pub restart: Result<(), ErrorView>,
    /// The project after a restart.
    pub restarted: Result<FoundProject, ErrorView>,
    pub connect: Result<(), ErrorView>,
    pub deployments: Result<Seq<Deployment>, ErrorView>,
    /// The answers to the requests to stop deployments, each found by how many deployments are left
    /// to be stopped when it comes, the one in question among them.
    pub stop: spec_fn(nat) -> Result<u16, ErrorView>,
    pub resources: Result<Seq<Seq<char>>, ErrorView>,
    /// The answers to the requests to delete resources, each found by how many resources are left to
    /// be deleted when it comes, the one in question among them.
    pub delete: spec_fn(nat) -> Result<u16, ErrorView>,
    pub container: Result<(), ErrorView>,
    pub record: Result<(), ErrorView>,
}

/// Whether a deletion is over.
pub open spec fn over(d: DeletionView) -> bool {
    d is Answered || d is Failed || d is Aborted
}

/// The answer to what the deletion wants.
pub open spec fn answer(w: Services, d: DeletionView) -> EventView {
    match d {
        DeletionView::FindProject => EventView::Project(w.project),
        DeletionView::Restart(_) => EventView::Restarted(w.restart),
        DeletionView::FindRestarted => EventView::Project(w.restarted),
        DeletionView::Connect => EventView::Connected(w.connect),
        DeletionView::ListDeployments => EventView::Deployments(w.deployments),
        DeletionView::StopDeployments(left) => EventView::DeploymentStopped(
            (w.stop)(left.len()),
        ),
        DeletionView::ListResources => EventView::Resources(w.resources),
        DeletionView::DeleteResources(left, _) => EventView::ResourceDeleted(
            (w.delete)(left.len()),
        ),
        DeletionView::DeleteContainer => EventView::ContainerDeleted(w.container),
        _ => EventView::RecordDeleted(w.record),
    }
}

/// The deletion after at most `n` answers.
pub open spec fn driven(w: Services, d: DeletionView, n: nat) -> DeletionView
    decreases n,
{
    if n == 0 || over(d) {
        d
    } else {
        driven(w, step(d, answer(w, d)), (n - 1) as nat)
    }
}

/// Whether the deletion `d` comes to an end, and that end is `e`.
pub open spec fn ends_as(w: Services, d: DeletionView, e: DeletionView) -> bool {
    over(e) && exists|n: nat| #[trigger] driven(w, d, n) == e
}

/// The first error among the answers to requests to delete resources.
pub open spec fn first_error(w: Services, resources: Seq<Seq<char>>) -> Option<ErrorView>
    decreases resources.len(),
{
    if resources.len() == 0 {
        None
    } else {
        match (w.delete)(resources.len()) {
            Err(e) => Some(e),
            Ok(_) => first_error(w, resources.drop_first()),
        }
    }
}

/// The resources of the list that are not deleted when asked to, in their order.
pub open spec fn undeleted(w: Services, resources: Seq<Seq<char>>) -> Seq<Seq<char>>
    decreases resources.len(),
{
    if resources.len() == 0 {
        Seq::empty()
    } else {
        let rest = undeleted(w, resources.drop_first());
        if (w.delete)(resources.len()) == Ok::<u16, ErrorView>(OK) {
            rest
        } else {
            seq![resources.first()] + rest
        }
    }
}

/// The error that the first deployment of the list raises that does not stop when asked to.
pub open spec fn first_unstopped(w: Services, list: Seq<Deployment>) -> Option<ErrorView>
    decreases list.len(),
{
    if list.len() == 0 {
        None
    } else {
        match (w.stop)(list.len()) {
            Err(e) => Some(e),
            Ok(status) => if status == OK {
                first_unstopped(w, list.drop_first())
            } else {
                Some(plain(ErrorKindView::ProjectHasRunningDeployment))
            },
        }
    }
}

/// The end once nothing of the project runs and nothing belongs to it.
pub open spec fn outcome_of_removal(w: Services) -> DeletionView {
    match (w.container, w.record) {
        (Err(e), _) => DeletionView::Failed(e),
        (Ok(_), Err(e)) => DeletionView::Failed(e),
        (Ok(_), Ok(_)) => DeletionView::Answered(Reply::Deleted),
    }
}

/// The end once nothing of the project runs.
pub open spec fn outcome_of_resources(w: Services) -> DeletionView {
    match w.resources {
        Err(e) => DeletionView::Failed(e),
        Ok(list) => match first_error(w, list) {
            Some(e) => DeletionView::Failed(e),
            None => if undeleted(w, list).len() > 0 {
                DeletionView::Failed(
                    plain(ErrorKindView::ProjectHasResources(undeleted(w, list))),
                )
            } else {
                outcome_of_removal(w)
            },
        },
    }
}

/// The end once the project is up.
pub open spec fn outcome_of_deployments(w: Services) -> DeletionView {
    match (w.connect, w.deployments) {
        (Err(e), _) => DeletionView::Failed(e),
        (Ok(_), Err(e)) => DeletionView::Failed(e),
        (Ok(_), Ok(list)) => if any_in_pipeline(by_last_update(list)) {
            DeletionView::Failed(plain(ErrorKindView::ProjectHasBuildingDeployment))
        } else {
            match first_unstopped(w, running(by_last_update(list))) {
                Some(e) => DeletionView::Failed(e),
                None => outcome_of_resources(w),
            }
        },
    }
}

/// What a deletion comes to.
pub open spec fn outcome(w: Services, dry_run: Option<bool>) -> DeletionView {
    if dry_run == Some(true) {
        DeletionView::Answered(Reply::DryRun)
    } else {
        match w.project {
            Err(e) => DeletionView::Failed(e),
            Ok(p) => if ulid_from_string(p.project_id@) is Err {
                DeletionView::Aborted
            } else if deletable(p.state) {
                outcome_of_deployments(w)
            } else {
                match (w.restart, w.restarted) {
                    (Err(e), _) => DeletionView::Failed(e),
                    (Ok(_), Err(e)) => DeletionView::Failed(e),
                    (Ok(_), Ok(q)) => if q.state is Ready {
                        outcome_of_deployments(w)
                    } else {
                        DeletionView::Failed(plain(ErrorKindView::ProjectCorrupted))
                    },
                }
            },
        }
    }
}

proof fn lemma_over(w: Services, d: DeletionView)
    requires
        over(d),
    ensures
        ends_as(w, d, d),
{
    assert(driven(w, d, 0) == d);
}

proof fn lemma_step_back(w: Services, d: DeletionView, e: DeletionView)
    requires
        !over(d),
        ends_as(w, step(d, answer(w, d)), e),
    ensures
        ends_as(w, d, e),
{
    let n = choose|n: nat| #[trigger] driven(w, step(d, answer(w, d)), n) == e;
    assert(driven(w, d, n + 1) == e);
}

proof fn lemma_removal(w: Services)
    ensures
        ends_as(w, DeletionView::DeleteContainer, outcome_of_removal(w)),
{
    let d = DeletionView::DeleteContainer;
    match w.container {
        Err(e) => {
            lemma_over(w, DeletionView::Failed(e));
        },
        Ok(_) => {
            let r = DeletionView::DeleteRecord;
            lemma_over(w, step(r, answer(w, r)));
            lemma_step_back(w, r, outcome_of_removal(w));
        },
    }
    lemma_step_back(w, d, outcome_of_removal(w));
}

/// The end when the resources of `left` are still to be deleted and those of `failed` could not
/// be.
spec fn outcome_of_rest(
    w: Services,
    left: Seq<Seq<char>>,
    failed: Seq<Seq<char>>,
) -> DeletionView {
    match first_error(w, left) {
        Some(e) => DeletionView::Failed(e),
        None => if (failed + undeleted(w, left)).len() > 0 {
            DeletionView::Failed(
                plain(ErrorKindView::ProjectHasResources(failed + undeleted(w, left))),
            )
        } else {
            outcome_of_removal(w)
        },
    }
}

proof fn lemma_resources(w: Services, left: Seq<Seq<char>>, failed: Seq<Seq<char>>)
    ensures
        ends_as(w, deleting(left, failed), outcome_of_rest(w, left, failed)),
    decreases left.len(),
{
    if left.len() == 0 {
        assert(failed + undeleted(w, left) =~= failed);
        if failed.len() > 0 {
            lemma_over(w, deleting(left, failed));
        } else {
            lemma_removal(w);
        }
    } else {
        let d = DeletionView::DeleteResources(left, failed);
        let rest = left.drop_first();
        match (w.delete)(left.len()) {
            Err(e) => {
                lemma_over(w, DeletionView::Failed(e));
            },
            Ok(status) => {
                if status == OK {
                    lemma_resources(w, rest, failed);
                } else {
                    lemma_resources(w, rest, failed.push(left.first()));
                    assert(failed.push(left.first()) + undeleted(w, rest) =~= failed + undeleted(
                        w,
                        left,
                    ));
                }
                assert(step(d, answer(w, d)) == delete_answered(left, failed, status));
            },
        }
        lemma_step_back(w, d, outcome_of_rest(w, left, failed));
    }
}

proof fn lemma_resources_listed(w: Services)
    ensures
        ends_as(w, DeletionView::ListResources, outcome_of_resources(w)),
{
    let d = DeletionView::ListResources;
    match w.resources {
        Err(e) => {
            lemma_over(w, DeletionView::Failed(e));
        },
        Ok(list) => {
            lemma_resources(w, list, Seq::empty());
            assert(Seq::<Seq<char>>::empty() + undeleted(w, list) =~= undeleted(w, list));
        },
    }
    lemma_step_back(w, d, outcome_of_resources(w));
}

proof fn lemma_stops(w: Services, left: Seq<Deployment>)
    ensures
        ends_as(
            w,
            stopping(left),
            match first_unstopped(w, left) {
                Some(e) => DeletionView::Failed(e),
                None => outcome_of_resources(w),
            },
        ),
    decreases left.len(),
{
    let end = match first_unstopped(w, left) {
        Some(e) => DeletionView::Failed(e),
        None => outcome_of_resources(w),
    };
    if left.len() == 0 {
        lemma_resources_listed(w);
    } else {
        let d = DeletionView::StopDeployments(left);
        match (w.stop)(left.len()) {
            Err(e) => {
                lemma_over(w, DeletionView::Failed(e));
            },
            Ok(status) => {
                assert(step(d, answer(w, d)) == stop_answered(left, status));
                if status == OK {
                    lemma_stops(w, left.drop_first());
                } else {
                    lemma_over(w, end);
                }
            },
        }
        lemma_step_back(w, d, end);
    }
}

proof fn lemma_deployments(w: Services)
    ensures
        ends_as(w, DeletionView::Connect, outcome_of_deployments(w)),
{
    let end = outcome_of_deployments(w);
    match w.connect {
        Err(e) => {
            lemma_over(w, DeletionView::Failed(e));
        },
        Ok(_) => {
            let d = DeletionView::ListDeployments;
            match w.deployments {
                Err(e) => {
                    lemma_over(w, DeletionView::Failed(e));
                },
                Ok(list) => {
                    assert(step(d, answer(w, d)) == deployments_listed(list));
                    if any_in_pipeline(by_last_update(list)) {
                        lemma_over(w, end);
                    } else {
                        lemma_stops(w, running(by_last_update(list)));
                    }
                },
            }
            lemma_step_back(w, d, end);
        },
    }
    lemma_step_back(w, DeletionView::Connect, end);
}

/// Every deletion comes to an end, and the end is the one that [`outcome`] describes.
pub proof fn law_deletion_ends(w: Services, dry_run: Option<bool>)
    ensures
        ends_as(w, start(dry_run), outcome(w, dry_run)),
{
    let end = outcome(w, dry_run);
    if dry_run == Some(true) {
        lemma_over(w, end);
    } else {
        let d = DeletionView::FindProject;
        lemma_deployments(w);
        match w.project {
            Err(e) => {
                lemma_over(w, DeletionView::Failed(e));
            },
            Ok(p) => {
                assert(step(d, answer(w, d)) == found(p));
                match ulid_from_string(p.project_id@) {
                    Err(_) => {
                        lemma_over(w, end);
                    },
                    Ok(id) => {
                        if !deletable(p.state) {
                            let r = DeletionView::Restart(id);
                            match w.restart {
                                Err(e) => {
                                    lemma_over(w, DeletionView::Failed(e));
                                },
                                Ok(_) => {
                                    let f = DeletionView::FindRestarted;
                                    match w.restarted {
                                        Err(e) => {
                                            lemma_over(w, DeletionView::Failed(e));
                                        },
                                        Ok(q) => {
                                            assert(step(f, answer(w, f)) == restarted(q));
                                            if !(q.state is Ready) {
                                                lemma_over(w, end);
                                            }
                                        },
                                    }
                                    lemma_step_back(w, f, end);
                                },
                            }
                            lemma_step_back(w, r, end);
                        }
                    },
                }
            },
        }
        lemma_step_back(w, d, end);
    }
}

/// A deletion that is over stays as it is, whatever is answered.
pub proof fn law_end_is_final(d: DeletionView, event: EventView)
    requires
        over(d),
    ensures
        step(d, event) == d,
{
}

/// Whether the requests to stop deployments go well from the time when `from` are left until `to`
/// are left.
pub open spec fn stop_well(w: Services, from: nat, to: nat) -> bool {
    forall|n: nat| to < n <= from ==> #[trigger] (w.stop)(n) == Ok::<u16, ErrorView>(OK)
}

/// Whether the requests to delete resources go well from the time when `from` are left until `to`
/// are left.
pub open spec fn delete_well(w: Services, from: nat, to: nat) -> bool {
    forall|n: nat| to < n <= from ==> #[trigger] (w.delete)(n) == Ok::<u16, ErrorView>(OK)
}

/// Whether the project was up, or came up when restarted.
pub open spec fn up(w: Services) -> bool {
    w.project matches Ok(p) && (deletable(p.state) || (w.restarted matches Ok(q)
        && q.state is Ready))
}

/// Whether nothing of the project runs: no deployment is being built, and those that ran have
/// stopped.
pub open spec fn stopped(w: Services) -> bool {
    w.deployments matches Ok(list) && {
        &&& !any_in_pipeline(by_last_update(list))
        &&& stop_well(w, running(by_last_update(list)).len(), 0)
    }
}

/// Whether nothing of the project is left when its container goes: nothing runs, and the
/// resources are deleted.
pub open spec fn cleaned_up(w: Services) -> bool {
    &&& stopped(w)
    &&& w.resources matches Ok(list) && delete_well(w, list.len(), 0)
}

/// What is known of the services when a deletion has come this far.
spec fn known(w: Services, d: DeletionView) -> bool {
    match d {
        DeletionView::Restart(_) | DeletionView::FindRestarted => w.project is Ok,
        DeletionView::Connect | DeletionView::ListDeployments => up(w),
        DeletionView::StopDeployments(left) => {
            &&& left.len() > 0
            &&& up(w)
            &&& w.deployments matches Ok(list) && {
                &&& !any_in_pipeline(by_last_update(list))
                &&& stop_well(w, running(by_last_update(list)).len(), left.len())
            }
        },
        DeletionView::ListResources => up(w) && stopped(w),
        DeletionView::DeleteResources(left, failed) => {
            &&& left.len() > 0
            &&& up(w) && stopped(w)
            &&& w.resources matches Ok(list) && {
                &&& failed.len() == 0 ==> delete_well(w, list.len(), left.len())
            }
        },
        DeletionView::DeleteContainer | DeletionView::DeleteRecord => up(w) && cleaned_up(w),
        DeletionView::Answered(reply) => reply == Reply::Deleted ==> up(w) && cleaned_up(w),
        _ => true,
    }
}

proof fn lemma_known(w: Services, d: DeletionView, n: nat)
    requires
        known(w, d),
    ensures
        known(w, driven(w, d, n)),
    decreases n,
{
    if n > 0 && !over(d) {
        lemma_known(w, step(d, answer(w, d)), (n - 1) as nat);
    }
}

/// However far a deletion has come: its container and its record go only once the project is up,
/// no deployment is being built, every deployment that ran has stopped and every resource is deleted.
pub proof fn law_removed_only_when_cleaned_up(w: Services, dry_run: Option<bool>, n: nat)
    ensures
        ({
            let d = driven(w, start(dry_run), n);
            d is DeleteContainer || d is DeleteRecord || d == DeletionView::Answered(Reply::Deleted)
                ==> up(w) && cleaned_up(w)
        }),
{
    lemma_known(w, start(dry_run), n);
}

/// A dry run asks for nothing: the project stays as it is.
pub proof fn law_dry_run_asks_for_nothing(w: Services, n: nat)
    ensures
        driven(w, start(Some(true)), n) == DeletionView::Answered(Reply::DryRun),
{
}

} // verus!
