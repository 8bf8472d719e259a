//! Deleting a project for good.
//!
//! A deletion asks the services behind the gateway for one thing at a time: [`Deletion::action`]
//! says what is wanted, and [`Deletion::advance`] takes the answer.

use crate::gateway::deployment::{
    any_in_pipeline, by_last_update, has_building, running, sort_by_last_update, take_running,
    Deployment,
};
use crate::gateway::error::{
    plain, result_view, texts, Error, ErrorKind, ErrorKindView, ErrorView,
};
use crate::gateway::project::{FoundProject, State};
use crate::gateway::status::OK;
use crate::id::{parse_ulid, ulid_from_string, DecodeError};
use vstd::prelude::*;

verus! {

/// What a deletion answers when nothing failed.
#[derive(Debug, Clone, Copy, PartialEq, Eq, Structural)]
pub enum Reply {
    /// A dry run was asked for.
    DryRun,
    /// The project is gone.
    Deleted,
}

impl Reply {
    /// The body of the answer.
    pub open spec fn body(self) -> Seq<char> {
        match self {
            Reply::DryRun => "dry run is no longer supported"@,
            Reply::Deleted => "project successfully deleted"@,
        }
    }

    /// The body of the answer.
    pub fn text(&self) -> (r: &'static str)
        ensures
            r@ == self.body(),
    {
        match self {
            Reply::DryRun => "dry run is no longer supported",
            Reply::Deleted => "project successfully deleted",
        }
    }
}

/// An answer of the services behind the gateway.
#[derive(Debug)]
pub enum Event {
    /// The project, as found in the store.
    Project(Result<FoundProject, Error>),
    /// The project was restarted, and the restart is over.
    Restarted(Result<(), Error>),
    /// A connection to the deployer of the project was prepared.
    Connected(Result<(), Error>),
    /// The deployments of the project.
    Deployments(Result<Vec<Deployment>, Error>),
    /// The status code with which the deployer answered a request to stop a deployment.
    DeploymentStopped(Result<u16, Error>),
    /// The types of the resources of the project.
    Resources(Result<Vec<String>, Error>),
    /// The status code with which the deployer answered a request to delete a resource.
    ResourceDeleted(Result<u16, Error>),
    /// The container of the project was deleted.
    ContainerDeleted(Result<(), Error>),
    /// The project was deleted from the store.
    RecordDeleted(Result<(), Error>),
}

/// An [`Event`] as contracts speak of it.
pub enum EventView {
    Project(Result<FoundProject, ErrorView>),
    Restarted(Result<(), ErrorView>),
    Connected(Result<(), ErrorView>),
    Deployments(Result<Seq<Deployment>, ErrorView>),
    DeploymentStopped(Result<u16, ErrorView>),
    Resources(Result<Seq<Seq<char>>, ErrorView>),
    ResourceDeleted(Result<u16, ErrorView>),
    ContainerDeleted(Result<(), ErrorView>),
    RecordDeleted(Result<(), ErrorView>),
}

impl View for Event {
    type V = EventView;

    open spec fn view(&self) -> EventView {
        match *self {
            Event::Project(r) => EventView::Project(result_view(r)),
            Event::Restarted(r) => EventView::Restarted(result_view(r)),
            Event::Connected(r) => EventView::Connected(result_view(r)),
            Event::Deployments(r) => EventView::Deployments(
                match r {
                    Ok(v) => Ok(v@),
                    Err(e) => Err(e@),
                },
            ),
            Event::DeploymentStopped(r) => EventView::DeploymentStopped(result_view(r)),
            Event::Resources(r) => EventView::Resources(
                match r {
                    Ok(v) => Ok(texts(v@)),
                    Err(e) => Err(e@),
                },
            ),
            Event::ResourceDeleted(r) => EventView::ResourceDeleted(result_view(r)),
            Event::ContainerDeleted(r) => EventView::ContainerDeleted(result_view(r)),
            Event::RecordDeleted(r) => EventView::RecordDeleted(result_view(r)),
        }
    }
}

/// What a deletion wants from the services behind the gateway.
#[derive(Debug)]
pub enum Action {
    /// Find the project in the store.
    FindProject,
    /// Restart the project with this identifier and wait until that is over.
    Restart(u128),
    /// Prepare a connection to the deployer of the project.
    Connect,
    /// List the deployments of the project.
    ListDeployments,
    /// Stop the deployment with this identifier.
    StopDeployment(String),
    /// List the resources of the project.
    ListResources,
    /// Delete the resource of this type.
    DeleteResource(String),
    /// Delete the container of the project and wait until that is over.
    DeleteContainer,
    /// Delete the project from the store.
    DeleteRecord,
    /// Nothing more: the request is answered.
    Answer(Reply),
    /// Nothing more: the request failed.
    Fail(Error),
    /// Nothing more: the store holds an identifier that is none.
    Abort,
}

/// An [`Action`] as contracts speak of it.
pub enum ActionView {
    FindProject,
    Restart(u128),
    Connect,
    ListDeployments,
    StopDeployment(Seq<char>),
    ListResources,
    DeleteResource(Seq<char>),
    DeleteContainer,
    DeleteRecord,
    Answer(Reply),
    Fail(ErrorView),
    Abort,
}

impl View for Action {
    type V = ActionView;

    open spec fn view(&self) -> ActionView {
        match *self {
            Action::FindProject => ActionView::FindProject,
            Action::Restart(id) => ActionView::Restart(id),
            Action::Connect => ActionView::Connect,
            Action::ListDeployments => ActionView::ListDeployments,
            Action::StopDeployment(id) => ActionView::StopDeployment(id@),
            Action::ListResources => ActionView::ListResources,
            Action::DeleteResource(name) => ActionView::DeleteResource(name@),
            Action::DeleteContainer => ActionView::DeleteContainer,
            Action::DeleteRecord => ActionView::DeleteRecord,
            Action::Answer(reply) => ActionView::Answer(reply),
            Action::Fail(e) => ActionView::Fail(e@),
            Action::Abort => ActionView::Abort,
        }
    }
}

/// How far a deletion has come.
#[derive(Debug)]
pub enum Deletion {
    /// The project is looked up.
    FindProject,
    /// The project has to come up first.
    Restart(u128),
    /// The project is looked up again after its restart.
    FindRestarted,
    Connect,
    ListDeployments,
    /// `current` is being stopped; the deployments of `rest` follow.
    StopDeployments { current: Deployment, rest: Vec<Deployment> },
    ListResources,
    /// The resource `current` is being deleted and those of `rest` follow; those of `failed` could
    /// not be.
    DeleteResources { current: String, rest: Vec<String>, failed: Vec<String> },
    DeleteContainer,
    DeleteRecord,
    Answered(Reply),
    Failed(Error),
    /// The identifier in the store is none.
    Aborted,
}

/// A [`Deletion`] as contracts speak of it: the work left is never empty.
pub enum DeletionView {
    FindProject,
    Restart(u128),
    FindRestarted,
    Connect,
    ListDeployments,
    StopDeployments(Seq<Deployment>),
    ListResources,
    DeleteResources(Seq<Seq<char>>, Seq<Seq<char>>),
    DeleteContainer,
    DeleteRecord,
    Answered(Reply),
    Failed(ErrorView),
    Aborted,
}

impl View for Deletion {
    type V = DeletionView;

    open spec fn view(&self) -> DeletionView {
        match *self {
            Deletion::FindProject => DeletionView::FindProject,
            Deletion::Restart(id) => DeletionView::Restart(id),
            Deletion::FindRestarted => DeletionView::FindRestarted,
            Deletion::Connect => DeletionView::Connect,
            Deletion::ListDeployments => DeletionView::ListDeployments,
            Deletion::StopDeployments { current, rest } => DeletionView::StopDeployments(
                seq![current] + rest@,
            ),
            Deletion::ListResources => DeletionView::ListResources,
            Deletion::DeleteResources { current, rest, failed } => DeletionView::DeleteResources(
                seq![current@] + texts(rest@),
                texts(failed@),
            ),
            Deletion::DeleteContainer => DeletionView::DeleteContainer,
            Deletion::DeleteRecord => DeletionView::DeleteRecord,
            Deletion::Answered(reply) => DeletionView::Answered(reply),
            Deletion::Failed(e) => DeletionView::Failed(e@),
            Deletion::Aborted => DeletionView::Aborted,
        }
    }
}

/// Where a deletion starts: a dry run, which old clients may ask for, ends at once.
pub open spec fn start(dry_run: Option<bool>) -> DeletionView {
    if dry_run == Some(true) {
        DeletionView::Answered(Reply::DryRun)
    } else {
        DeletionView::FindProject
    }
}

/// Whether a project in this state is deleted without a restart.
pub open spec fn deletable(state: State) -> bool {
    state is Ready || state is Stopped
}

/// Goes on with a project that was found in this state, given what its identifier was read as.
/// One that is down has to come up to clean up after itself.
pub open spec fn identified(id: Result<u128, DecodeError>, state: State) -> DeletionView {
    match id {
        Ok(id) => if deletable(state) {
            DeletionView::Connect
        } else {
            DeletionView::Restart(id)
        },
        Err(_) => DeletionView::Aborted,
    }
}

/// Goes on with a project that was found.
pub open spec fn found(p: FoundProject) -> DeletionView {
    identified(ulid_from_string(p.project_id@), p.state)
}

/// Goes on with a project that was restarted, which has to be ready.
pub open spec fn restarted(p: FoundProject) -> DeletionView {
    if p.state is Ready {
        DeletionView::Connect
    } else {
        DeletionView::Failed(plain(ErrorKindView::ProjectCorrupted))
    }
}

/// Goes on when the deployments of `left` are still to be stopped.
pub open spec fn stopping(left: Seq<Deployment>) -> DeletionView {
    if left.len() == 0 {
        DeletionView::ListResources
    } else {
        DeletionView::StopDeployments(left)
    }
}

/// Goes on with the deployments of the project: one that is being built is in the way, and those
/// that run are stopped from the oldest update to the newest.
pub open spec fn deployments_listed(list: Seq<Deployment>) -> DeletionView {
    if any_in_pipeline(by_last_update(list)) {
        DeletionView::Failed(plain(ErrorKindView::ProjectHasBuildingDeployment))
    } else {
        stopping(running(by_last_update(list)))
    }
}

/// Goes on when the resources of `left` are still to be deleted and those of `failed` could not
/// be.
pub open spec fn deleting(left: Seq<Seq<char>>, failed: Seq<Seq<char>>) -> DeletionView {
    if left.len() > 0 {
        DeletionView::DeleteResources(left, failed)
    } else if failed.len() > 0 {
        DeletionView::Failed(plain(ErrorKindView::ProjectHasResources(failed)))
    } else {
        DeletionView::DeleteContainer
    }
}

/// Goes on after the deployment at the head of `left` was asked to stop.
pub open spec fn stop_answered(left: Seq<Deployment>, status: u16) -> DeletionView {
    if status == OK {
        stopping(left.drop_first())
    } else {
        DeletionView::Failed(plain(ErrorKindView::ProjectHasRunningDeployment))
    }
}

/// Goes on after the resource at the head of `left` was asked to be deleted. One that stays does
/// not keep the others.
pub open spec fn delete_answered(
    left: Seq<Seq<char>>,
    failed: Seq<Seq<char>>,
    status: u16,
) -> DeletionView {
    deleting(
        left.drop_first(),
        if status == OK {
            failed
        } else {
            failed.push(left.first())
        },
    )
}

/// What an event makes of a deletion. An error ends it; an event that answers nothing that was
/// asked for changes nothing.
pub open spec fn step(d: DeletionView, event: EventView) -> DeletionView {
    match (d, event) {
        (DeletionView::FindProject, EventView::Project(r)) => match r {
            Ok(p) => found(p),
            Err(e) => DeletionView::Failed(e),
        },
        (DeletionView::Restart(_), EventView::Restarted(r)) => match r {
            Ok(_) => DeletionView::FindRestarted,
            Err(e) => DeletionView::Failed(e),
        },
        (DeletionView::FindRestarted, EventView::Project(r)) => match r {
            Ok(p) => restarted(p),
            Err(e) => DeletionView::Failed(e),
        },
        (DeletionView::Connect, EventView::Connected(r)) => match r {
            Ok(_) => DeletionView::ListDeployments,
            Err(e) => DeletionView::Failed(e),
        },
        (DeletionView::ListDeployments, EventView::Deployments(r)) => match r {
            Ok(list) => deployments_listed(list),
            Err(e) => DeletionView::Failed(e),
        },
        (DeletionView::StopDeployments(left), EventView::DeploymentStopped(r)) => match r {
            Ok(status) => stop_answered(left, status),
            Err(e) => DeletionView::Failed(e),
        },
        (DeletionView::ListResources, EventView::Resources(r)) => match r {
            Ok(list) => deleting(list, Seq::empty()),
            Err(e) => DeletionView::Failed(e),
        },
        (DeletionView::DeleteResources(left, failed), EventView::ResourceDeleted(r)) => match r {
            Ok(status) => delete_answered(left, failed, status),
            Err(e) => DeletionView::Failed(e),
        },
        (DeletionView::DeleteContainer, EventView::ContainerDeleted(r)) => match r {
            Ok(_) => DeletionView::DeleteRecord,
            Err(e) => DeletionView::Failed(e),
        },
        (DeletionView::DeleteRecord, EventView::RecordDeleted(r)) => match r {
            Ok(_) => DeletionView::Answered(Reply::Deleted),
            Err(e) => DeletionView::Failed(e),
        },
        _ => d,
    }
}

/// What a deletion wants.
pub open spec fn wanted(d: DeletionView) -> ActionView {
    match d {
        DeletionView::FindProject => ActionView::FindProject,
        DeletionView::Restart(id) => ActionView::Restart(id),
        DeletionView::FindRestarted => ActionView::FindProject,
        DeletionView::Connect => ActionView::Connect,
        DeletionView::ListDeployments => ActionView::ListDeployments,
        DeletionView::StopDeployments(left) => ActionView::StopDeployment(left.first().id@),
        DeletionView::ListResources => ActionView::ListResources,
        DeletionView::DeleteResources(left, _) => ActionView::DeleteResource(left.first()),
        DeletionView::DeleteContainer => ActionView::DeleteContainer,
        DeletionView::DeleteRecord => ActionView::DeleteRecord,
        DeletionView::Answered(reply) => ActionView::Answer(reply),
        DeletionView::Failed(e) => ActionView::Fail(e),
        DeletionView::Aborted => ActionView::Abort,
    }
}

impl Deletion {
    /// Starts the deletion of a project.
    pub fn new(dry_run: Option<bool>) -> (r: Self)
        ensures
            r@ == start(dry_run),
    {
        match dry_run {
            Some(true) => Deletion::Answered(Reply::DryRun),
            _ => Deletion::FindProject,
        }
    }

    fn stopping(left: Vec<Deployment>) -> (r: Self)
        ensures
            r@ == stopping(left@),
    {
        let mut rest = left;
        if rest.len() == 0 {
            Deletion::ListResources
        } else {
            let current = rest.remove(0);
            assert(seq![current] + rest@ =~= left@);
            Deletion::StopDeployments { current, rest }
        }
    }

    fn deleting(left: Vec<String>, failed: Vec<String>) -> (r: Self)
        ensures
            r@ == deleting(texts(left@), texts(failed@)),
    {
        let mut rest = left;
        if rest.len() > 0 {
            let current = rest.remove(0);
            assert(seq![current@] + texts(rest@) =~= texts(left@));
            Deletion::DeleteResources { current, rest, failed }
        } else if failed.len() > 0 {
            Deletion::Failed(Error::from_kind(ErrorKind::ProjectHasResources(failed)))
        } else {
            Deletion::DeleteContainer
        }
    }

    /// Goes on with a project that was found in this state, given what its identifier was read as.
    pub fn identified(id: Result<u128, DecodeError>, state: &State) -> (r: Self)
        ensures
            r@ == identified(id, *state),
    {
        match id {
            Ok(id) => if state.is_ready() || state.is_stopped() {
                Deletion::Connect
            } else {
                Deletion::Restart(id)
            },
            Err(_) => Deletion::Aborted,
        }
    }

    fn found(p: FoundProject) -> (r: Self)
        ensures
            r@ == found(p),
    {
        Self::identified(parse_ulid(p.project_id.as_str()), &p.state)
    }

    fn deployments_listed(list: Vec<Deployment>) -> (r: Self)
        ensures
            r@ == deployments_listed(list@),
    {
        let sorted = sort_by_last_update(list);
        if has_building(&sorted) {
            Deletion::Failed(Error::from_kind(ErrorKind::ProjectHasBuildingDeployment))
        } else {
            Self::stopping(take_running(sorted))
        }
    }

    /// Takes the answer to what the deletion wanted.
    pub fn advance(self, event: Event) -> (r: Self)
        ensures
            r@ == step(self@, event@),
    {
        match (self, event) {
            (Deletion::FindProject, Event::Project(r)) => match r {
                Ok(p) => Self::found(p),
                Err(e) => Deletion::Failed(e),
            },
            (Deletion::Restart(_), Event::Restarted(r)) => match r {
                Ok(_) => Deletion::FindRestarted,
                Err(e) => Deletion::Failed(e),
            },
            (Deletion::FindRestarted, Event::Project(r)) => match r {
                Ok(p) => if p.state.is_ready() {
                    Deletion::Connect
                } else {
                    Deletion::Failed(Error::from_kind(ErrorKind::ProjectCorrupted))
                },
                Err(e) => Deletion::Failed(e),
            },
            (Deletion::Connect, Event::Connected(r)) => match r {
                Ok(_) => Deletion::ListDeployments,
                Err(e) => Deletion::Failed(e),
            },
            (Deletion::ListDeployments, Event::Deployments(r)) => match r {
                Ok(list) => Self::deployments_listed(list),
                Err(e) => Deletion::Failed(e),
            },
            (Deletion::StopDeployments { current, rest }, Event::DeploymentStopped(r)) => match r {
                Ok(status) => {
                    assert((seq![current] + rest@).drop_first() =~= rest@);
                    if status == OK {
                        Self::stopping(rest)
                    } else {
                        Deletion::Failed(Error::from_kind(ErrorKind::ProjectHasRunningDeployment))
                    }
                },
                Err(e) => Deletion::Failed(e),
            },
            (Deletion::ListResources, Event::Resources(r)) => match r {
                Ok(list) => {
                    let failed: Vec<String> = Vec::new();
                    assert(texts(failed@) =~= Seq::empty());
                    Self::deleting(list, failed)
                },
                Err(e) => Deletion::Failed(e),
            },
            (
                Deletion::DeleteResources { current, rest, failed },
                Event::ResourceDeleted(r),
            ) => match r {
                Ok(status) => {
                    assert((seq![current@] + texts(rest@)).drop_first() =~= texts(rest@));
                    if status == OK {
                        Self::deleting(rest, failed)
                    } else {
                        let mut all = failed;
                        all.push(current);
                        assert(texts(all@) =~= texts(failed@).push(current@));
                        Self::deleting(rest, all)
                    }
                },
                Err(e) => Deletion::Failed(e),
            },
            (Deletion::DeleteContainer, Event::ContainerDeleted(r)) => match r {
                Ok(_) => Deletion::DeleteRecord,
                Err(e) => Deletion::Failed(e),
            },
            (Deletion::DeleteRecord, Event::RecordDeleted(r)) => match r {
                Ok(_) => Deletion::Answered(Reply::Deleted),
                Err(e) => Deletion::Failed(e),
            },
            (same, _) => same,
        }
    }

    /// What the deletion wants.
    pub fn action(&self) -> (r: Action)
        ensures
            r@ == wanted(self@),
    {
        match self {
            Deletion::FindProject => Action::FindProject,
            Deletion::Restart(id) => Action::Restart(*id),
            Deletion::FindRestarted => Action::FindProject,
            Deletion::Connect => Action::Connect,
            Deletion::ListDeployments => Action::ListDeployments,
            Deletion::StopDeployments { current, .. } => Action::StopDeployment(current.id.clone()),
            Deletion::ListResources => Action::ListResources,
            Deletion::DeleteResources { current, .. } => Action::DeleteResource(current.clone()),
            Deletion::DeleteContainer => Action::DeleteContainer,
            Deletion::DeleteRecord => Action::DeleteRecord,
            Deletion::Answered(reply) => Action::Answer(*reply),
            Deletion::Failed(e) => Action::Fail(e.copy()),
            Deletion::Aborted => Action::Abort,
        }
    }
}

} // verus!
