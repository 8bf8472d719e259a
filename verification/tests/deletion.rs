use shuttle::gateway::deletion::{Action, Deletion, Event};
use shuttle::gateway::deployment::{
    has_building, sort_by_last_update, take_running, Deployment, State as DeploymentState,
};
use shuttle::gateway::error::{Error, ErrorKind};
use shuttle::gateway::project::{FoundProject, State};
use shuttle::id::DecodeError;
use shuttle::timestamp::Timestamp;

/// The ULID that stands for 1.
const ID: &str = "00000000000000000000000001";

/// What the services behind the gateway do when they are asked.
struct World {
    state: State,
    restarted: State,
    deployments: Vec<(&'static str, DeploymentState, i64)>,
    stop_status: u16,
    resources: Vec<(&'static str, u16)>,
    /// What was asked for, in order.
    log: Vec<String>,
}

impl World {
    fn new(state: State) -> World {
        World {
            state,
            restarted: State::Ready,
            deployments: Vec::new(),
            stop_status: 200,
            resources: Vec::new(),
            log: Vec::new(),
        }
    }

    fn delete(&mut self) -> Result<&'static str, Error> {
        let mut deletion = Deletion::new(None);
        let mut restarted = false;
        for _ in 0..100 {
            let action = deletion.action();
            self.log.push(format!("{:?}", action));
            let event = match action {
                Action::FindProject => Event::Project(Ok(FoundProject {
                    project_id: ID.to_owned(),
                    state: if restarted { self.restarted.clone() } else { self.state.clone() },
                    idle_minutes: Some(3),
                })),
                Action::Restart(id) => {
                    assert_eq!(id, 1);
                    restarted = true;
                    Event::Restarted(Ok(()))
                }
                Action::Connect => Event::Connected(Ok(())),
                Action::ListDeployments => Event::Deployments(Ok(self
                    .deployments
                    .iter()
                    .map(|(id, state, secs)| deployment(id, *state, *secs))
                    .collect())),
                Action::StopDeployment(_) => Event::DeploymentStopped(Ok(self.stop_status)),
                Action::ListResources => Event::Resources(Ok(self
                    .resources
                    .iter()
                    .map(|(name, _)| name.to_string())
                    .collect())),
                Action::DeleteResource(name) => Event::ResourceDeleted(Ok(self
                    .resources
                    .iter()
                    .find(|(other, _)| *other == name)
                    .unwrap()
                    .1)),
                Action::DeleteContainer => Event::ContainerDeleted(Ok(())),
                Action::DeleteRecord => Event::RecordDeleted(Ok(())),
                Action::Answer(reply) => return Ok(reply.text()),
                Action::Fail(error) => return Err(error),
                Action::Abort => panic!("stored project id to be a valid ULID"),
            };
            deletion = deletion.advance(event);
        }
        panic!("the deletion does not end");
    }
}

fn deployment(id: &str, state: DeploymentState, secs: i64) -> Deployment {
    Deployment { id: id.to_owned(), state, last_update: Timestamp { secs, nanos: 0 } }
}

fn ids(list: &[Deployment]) -> Vec<&str> {
    list.iter().map(|d| d.id.as_str()).collect()
}

#[test]
fn api_delete_project_that_is_ready() {
    let mut world = World::new(State::Ready);
    assert_eq!(world.delete().unwrap(), "project successfully deleted");
    assert_eq!(
        world.log,
        vec![
            "FindProject",
            "Connect",
            "ListDeployments",
            "ListResources",
            "DeleteContainer",
            "DeleteRecord",
            "Answer(Deleted)",
        ]
    );
}

#[test]
fn api_delete_project_that_is_stopped() {
    let mut world = World::new(State::Stopped);
    assert_eq!(world.delete().unwrap(), "project successfully deleted");
    assert!(!world.log.contains(&"Restart(1)".to_owned()));
}

#[test]
fn api_delete_project_that_is_destroyed() {
    let mut world = World::new(State::Destroyed);
    assert_eq!(world.delete().unwrap(), "project successfully deleted");
    assert_eq!(world.log[1], "Restart(1)");
    assert_eq!(world.log[2], "FindProject");
}

#[test]
fn api_delete_project_that_is_errored() {
    let mut world = World::new(State::Other("errored".to_owned()));
    assert_eq!(world.delete().unwrap(), "project successfully deleted");
    assert_eq!(world.log[1], "Restart(1)");
}

#[test]
fn project_that_does_not_come_up() {
    let mut world = World::new(State::Destroyed);
    world.restarted = State::Stopped;
    assert_eq!(world.delete().unwrap_err().kind, ErrorKind::ProjectCorrupted);
}

#[test]
fn api_delete_project_that_has_resources() {
    let mut world = World::new(State::Ready);
    world.resources = vec![("secrets", 200)];
    assert_eq!(world.delete().unwrap(), "project successfully deleted");
    assert!(world.log.contains(&"DeleteResource(\"secrets\")".to_owned()));
}

#[test]
fn api_delete_project_that_has_resources_but_fails_to_remove_them() {
    let mut world = World::new(State::Ready);
    world.resources = vec![("metadata", 500), ("secrets", 200), ("database", 404)];
    assert_eq!(
        world.delete().unwrap_err().kind,
        ErrorKind::ProjectHasResources(vec!["metadata".to_owned(), "database".to_owned()])
    );
    assert!(world.log.contains(&"DeleteResource(\"secrets\")".to_owned()));
    assert!(!world.log.contains(&"DeleteContainer".to_owned()));
}

#[test]
fn api_delete_project_that_has_running_deployment() {
    let mut world = World::new(State::Ready);
    world.deployments = vec![
        ("new", DeploymentState::Running, 30),
        ("done", DeploymentState::Completed, 20),
        ("old", DeploymentState::Running, 10),
    ];
    assert_eq!(world.delete().unwrap(), "project successfully deleted");
    assert_eq!(world.log[3], "StopDeployment(\"old\")");
    assert_eq!(world.log[4], "StopDeployment(\"new\")");
    assert_eq!(world.log[5], "ListResources");
}

#[test]
fn deployment_that_does_not_stop() {
    let mut world = World::new(State::Ready);
    world.deployments = vec![("a", DeploymentState::Running, 0)];
    world.stop_status = 500;
    assert_eq!(world.delete().unwrap_err().kind, ErrorKind::ProjectHasRunningDeployment);
}

#[test]
fn api_delete_project_that_is_building() {
    let mut world = World::new(State::Ready);
    world.deployments = vec![
        ("a", DeploymentState::Running, 0),
        ("b", DeploymentState::InPipeline, 1),
    ];
    assert_eq!(world.delete().unwrap_err().kind, ErrorKind::ProjectHasBuildingDeployment);
    assert!(!world.log.contains(&"StopDeployment(\"a\")".to_owned()));
}

#[test]
fn dry_run_is_answered_at_once() {
    let deletion = Deletion::new(Some(true));
    match deletion.action() {
        Action::Answer(reply) => assert_eq!(reply.text(), "dry run is no longer supported"),
        other => panic!("{:?}", other),
    }
    assert!(matches!(Deletion::new(Some(false)).action(), Action::FindProject));
    assert!(matches!(Deletion::new(None).action(), Action::FindProject));
}

#[test]
fn identifier_in_the_store_that_is_none() {
    for id in ["", "neo", "0000000000000000000000000!"] {
        let deletion = Deletion::new(None).advance(Event::Project(Ok(FoundProject {
            project_id: id.to_owned(),
            state: State::Ready,
            idle_minutes: None,
        })));
        assert!(matches!(deletion.action(), Action::Abort));
    }
    assert!(matches!(
        Deletion::identified(Err(DecodeError::InvalidChar), &State::Ready).action(),
        Action::Abort
    ));
    assert!(matches!(
        Deletion::identified(Ok(7), &State::Destroying).action(),
        Action::Restart(7)
    ));
}

#[test]
fn error_ends_a_deletion() {
    let deletion = Deletion::new(None).advance(Event::Project(Err(Error::from_kind(
        ErrorKind::ProjectNotFound("matrix".to_owned()),
    ))));
    match deletion.action() {
        Action::Fail(e) => assert_eq!(e.kind, ErrorKind::ProjectNotFound("matrix".to_owned())),
        other => panic!("{:?}", other),
    }
    let deletion = deletion.advance(Event::Connected(Ok(())));
    assert!(matches!(deletion.action(), Action::Fail(_)));
}

#[test]
fn answers_to_something_else_change_nothing() {
    let deletion = Deletion::new(None).advance(Event::RecordDeleted(Ok(())));
    assert!(matches!(deletion.action(), Action::FindProject));
}

#[test]
fn sorting_keeps_the_order_of_equals() {
    let sorted = sort_by_last_update(vec![
        deployment("c", DeploymentState::Running, 2),
        deployment("a", DeploymentState::Crashed, 1),
        deployment("d", DeploymentState::Running, 2),
        deployment("b", DeploymentState::Stopped, 1),
    ]);
    assert_eq!(ids(&sorted), vec!["a", "b", "c", "d"]);
    assert!(!has_building(&sorted));
    assert_eq!(ids(&take_running(sorted)), vec!["c", "d"]);
}

#[test]
fn later_by_nanoseconds() {
    let early = Timestamp { secs: -1, nanos: 999_999_999 };
    let late = Timestamp { secs: 0, nanos: 0 };
    assert!(late.is_after(&early));
    assert!(!early.is_after(&late));
    assert!(Timestamp { secs: 0, nanos: 1 }.is_after(&late));
    assert!(!late.is_after(&late));
}
