use shuttle::gateway::creation::{counted_projects, Action, Creation, Event, NewProject};
use shuttle::gateway::destruction::Destruction;
use shuttle::gateway::error::{Error, ErrorKind};
use shuttle::gateway::forwarding::{deployment_started, Forwarding};
use shuttle::gateway::project::{FoundProject, Response, State};

fn project(state: State) -> FoundProject {
    FoundProject { project_id: "01hfx5s6w2q9".to_owned(), state, idle_minutes: Some(3) }
}

fn unavailable() -> Error {
    Error::from_kind(ErrorKind::ServiceUnavailable)
}

/// Creates a project and tells what was asked for.
fn create(
    new: NewProject,
    count: i64,
    limit: u32,
    capacity: bool,
) -> (Vec<Action>, Option<Result<Response, Error>>) {
    let mut log = Vec::new();
    let mut creation = Creation::new(new);
    loop {
        let action = creation.action();
        log.push(action);
        let event = match action {
            Action::CountProjects => Event::Counted(Ok(count)),
            Action::CheckLimit(n) => Event::Allowed(n < limit),
            Action::CheckCapacity => {
                Event::Capacity(if capacity { Ok(()) } else { Err(unavailable()) })
            }
            Action::Create { can_create_project, is_admin, .. } => {
                Event::Created(if can_create_project || is_admin {
                    Ok(project(State::Other("creating".to_owned())))
                } else {
                    Err(Error::from_kind(ErrorKind::TooManyProjects))
                })
            }
            Action::Start => Event::Queued(Ok(())),
            Action::Finish => return (log, creation.finish("matrix")),
        };
        creation = creation.advance(event);
    }
}

fn user() -> NewProject {
    NewProject { is_cch_project: false, is_admin: false, idle_minutes: 3 }
}

#[test]
fn project_is_created() {
    let (log, answer) = create(user(), 2, 3, true);
    assert_eq!(
        log,
        vec![
            Action::CountProjects,
            Action::CheckLimit(2),
            Action::CheckCapacity,
            Action::Create { is_admin: false, can_create_project: true, idle_minutes: 3 },
            Action::Start,
            Action::Finish,
        ]
    );
    assert_eq!(
        answer.unwrap().unwrap(),
        Response {
            id: "01HFX5S6W2Q9".to_owned(),
            name: "matrix".to_owned(),
            state: State::Other("creating".to_owned()),
            idle_minutes: Some(3),
        }
    );
}

#[test]
fn api_create_project_limits() {
    // Creating three projects for a basic user succeeds.
    for count in 0..3 {
        assert!(create(user(), count, 3, true).1.unwrap().is_ok());
    }
    // Creating one more project hits the project limit.
    assert_eq!(
        create(user(), 3, 3, true).1.unwrap().unwrap_err().kind,
        ErrorKind::TooManyProjects
    );
    // An administrator may have more.
    let admin = NewProject { is_admin: true, ..user() };
    for count in 0..17 {
        assert!(create(admin, count, 3, true).1.unwrap().is_ok());
    }
}

#[test]
fn api_create_project_above_container_limit() {
    let (log, answer) = create(user(), 0, 3, false);
    assert_eq!(answer.unwrap().unwrap_err().kind, ErrorKind::ServiceUnavailable);
    assert_eq!(log.last(), Some(&Action::Finish));
    assert!(!log.contains(&Action::Start));

    let admin = NewProject { is_admin: true, ..user() };
    let (log, answer) = create(admin, 0, 3, false);
    assert!(answer.unwrap().is_ok());
    assert!(!log.contains(&Action::CheckCapacity));
}

#[test]
fn cch_project_sleeps_after_five_minutes() {
    let cch = NewProject { is_cch_project: true, idle_minutes: 30, ..user() };
    let (log, answer) = create(cch, 0, 3, true);
    assert!(answer.unwrap().is_ok());
    assert_eq!(log[1], Action::CheckLimit(0));
    assert_eq!(
        log[3],
        Action::Create { is_admin: false, can_create_project: true, idle_minutes: 5 }
    );
}

#[test]
fn cch_project_does_not_count_itself() {
    assert_eq!(counted_projects(3, true), Some(2));
    assert_eq!(counted_projects(3, false), Some(3));
    assert_eq!(counted_projects(1, true), Some(0));
    assert_eq!(counted_projects(0, true), Some(0));
    assert_eq!(counted_projects(0, false), Some(0));
    assert_eq!(counted_projects(-1, false), None);
    assert_eq!(counted_projects(i64::MIN, true), None);
    assert_eq!(counted_projects(u32::MAX as i64, false), Some(u32::MAX));
    assert_eq!(counted_projects(u32::MAX as i64 + 1, false), None);
    assert_eq!(counted_projects(u32::MAX as i64 + 1, true), Some(u32::MAX));
}

#[test]
fn wrong_count_ends_without_answer() {
    assert!(create(user(), -1, 3, true).1.is_none());
}

#[test]
fn project_that_cannot_be_started() {
    let creation = Creation::new(user())
        .advance(Event::Counted(Ok(0)))
        .advance(Event::Allowed(true))
        .advance(Event::Capacity(Ok(())))
        .advance(Event::Created(Ok(project(State::Ready))));
    assert_eq!(creation.action(), Action::Start);
    let creation = creation.advance(Event::Queued(Err(unavailable())));
    assert_eq!(
        creation.finish("matrix").unwrap().unwrap_err().kind,
        ErrorKind::ServiceUnavailable
    );
}

#[test]
fn count_that_fails() {
    let creation = Creation::new(user()).advance(Event::Counted(Err(unavailable())));
    assert_eq!(creation.action(), Action::Finish);
    assert!(creation.finish("matrix").unwrap().is_err());
}

#[test]
fn destroyed_project_is_left_alone() {
    match Destruction::new(Ok(project(State::Destroyed)), "matrix").unwrap() {
        Destruction::Down(response) => {
            assert_eq!(response.state, State::Destroyed);
            assert_eq!(response.name, "matrix");
        }
        other => panic!("{:?}", other),
    }
}

#[test]
fn project_goes_down() {
    match Destruction::new(Ok(project(State::Ready)), "matrix").unwrap() {
        Destruction::Queue(response) => {
            assert_eq!(response.state, State::Ready);
            let answer = Destruction::queued(response, Ok(())).unwrap();
            assert_eq!(answer.state, State::Destroying);
            assert_eq!(answer.id, "01HFX5S6W2Q9");
            assert_eq!(answer.idle_minutes, Some(3));
        }
        other => panic!("{:?}", other),
    }
    let response = Response::new(project(State::Ready), "matrix");
    let error = Destruction::queued(response, Err(unavailable())).unwrap_err();
    assert_eq!(error.kind, ErrorKind::ServiceUnavailable);
}

#[test]
fn project_that_is_not_found_is_not_destroyed() {
    let found = Err(Error::from_kind(ErrorKind::ProjectNotFound("reloaded".to_owned())));
    let error = Destruction::new(found, "reloaded").unwrap_err();
    assert_eq!(error.kind, ErrorKind::ProjectNotFound("reloaded".to_owned()));
}

#[test]
fn request_is_passed_on() {
    let forwarding = Forwarding::new(false);
    assert!(matches!(forwarding, Forwarding::CheckCapacity));
    let forwarding = forwarding.advance(Ok(()));
    assert!(matches!(forwarding, Forwarding::FindOrStart));
    let forwarding = forwarding.advance(Ok(()));
    assert!(matches!(forwarding, Forwarding::Forward));
}

#[test]
fn start_idle_project_when_above_container_limit() {
    match Forwarding::new(false).advance(Err(unavailable())) {
        Forwarding::Failed(e) => assert_eq!(e.kind, ErrorKind::ServiceUnavailable),
        other => panic!("{:?}", other),
    }
    // An administrator is not asked for room.
    assert!(matches!(Forwarding::new(true), Forwarding::FindOrStart));
    assert!(matches!(Forwarding::new(true).advance(Ok(())), Forwarding::Forward));
}

#[test]
fn start_of_a_deployment_is_recorded() {
    let event = deployment_started("neo");
    assert_eq!(event.name, "shuttle_api_start_deployment");
    assert_eq!(event.account, "neo");
}
