use shuttle::gateway::account::{get_projects, AccountName, ProjectDetails, ProjectResponse};
use shuttle::gateway::bulk::{
    create_acme_account, destroy_projects, idle_cch_projects, revive_projects,
};
use shuttle::gateway::docker::{
    DockerStatsSource, DOCKER_STATS_PATH_CGROUP_V1, DOCKER_STATS_PATH_CGROUP_V2,
};
use shuttle::gateway::error::{Error, ErrorKind};
use shuttle::gateway::listing::{
    get_project, get_projects_list, NamedProject, PaginationDetails, Window,
};
use shuttle::gateway::project::{FoundProject, State};
use shuttle::gateway::service::{answered, service_uri, ServiceAnswer};

fn found(id: &str, state: State) -> FoundProject {
    FoundProject { project_id: id.to_owned(), state, idle_minutes: None }
}

#[test]
fn project_is_shown_in_upper_case() {
    let response = get_project(Ok(found("01hab", State::Stopped)), "matrix").unwrap();
    assert_eq!(response.id, "01HAB");
    assert_eq!(response.name, "matrix");
    assert_eq!(response.state, State::Stopped);
    assert_eq!(response.idle_minutes, None);
}

#[test]
fn project_of_another_user_is_not_shown() {
    let error = Error::from_kind(ErrorKind::ProjectNotFound("reloaded".to_owned()));
    let error = get_project(Err(error), "reloaded").unwrap_err();
    assert_eq!(error.kind, ErrorKind::ProjectNotFound("reloaded".to_owned()));
}

#[test]
fn list_keeps_its_order() {
    let list = vec![
        NamedProject { name: "matrix".to_owned(), project: found("a", State::Ready) },
        NamedProject { name: "reloaded".to_owned(), project: found("b", State::Destroyed) },
    ];
    let shown = get_projects_list(Ok(list)).unwrap();
    assert_eq!(shown.len(), 2);
    assert_eq!((shown[0].id.as_str(), shown[0].name.as_str()), ("A", "matrix"));
    assert_eq!((shown[1].id.as_str(), shown[1].name.as_str()), ("B", "reloaded"));
    assert_eq!(shown[1].state, State::Destroyed);
    assert_eq!(get_projects_list(Ok(Vec::new())).unwrap().len(), 0);
    assert!(get_projects_list(Err(Error::from_kind(ErrorKind::Internal))).is_err());
}

#[test]
fn page_of_a_list() {
    let page = |page, limit| PaginationDetails { page, limit };
    assert_eq!(page(None, None).window(), Window { offset: 0, limit: u32::MAX as i64 });
    assert_eq!(page(Some(2), Some(10)).window(), Window { offset: 20, limit: 10 });
    assert_eq!(page(Some(3), None).window(), Window { offset: 3 * u32::MAX as i64, limit: u32::MAX as i64 });
    assert_eq!(page(Some(7), Some(0)).window(), Window { offset: 0, limit: 0 });
}

#[test]
fn pages_follow_each_other() {
    for number in 0..5 {
        let this = PaginationDetails { page: Some(number), limit: Some(7) }.window();
        let next = PaginationDetails { page: Some(number + 1), limit: Some(7) }.window();
        assert_eq!(next.offset, this.offset + this.limit);
    }
}

#[test]
fn page_that_is_too_far_away() {
    assert!(!PaginationDetails { page: Some(u32::MAX), limit: None }.fits());
    assert!(PaginationDetails { page: Some(u32::MAX / 2), limit: None }.fits());
    assert!(PaginationDetails { page: Some(u32::MAX), limit: Some(100) }.fits());
}

#[test]
fn own_domain_comes_first() {
    let own = Ok(Some("neo.the.matrix".to_owned()));
    assert_eq!(service_uri(own, "matrix", "shuttleapp.rs"), "https://neo.the.matrix");
    assert_eq!(
        service_uri(Ok(None), "matrix", "shuttleapp.rs"),
        "https://matrix.shuttleapp.rs"
    );
    let failed = Err(Error::from_kind(ErrorKind::Internal));
    assert_eq!(
        service_uri(failed, "matrix", "shuttleapp.rs"),
        "https://matrix.shuttleapp.rs"
    );
}

#[test]
fn summary_is_rewritten() {
    assert_eq!(
        answered(200, b"{}".to_vec(), Some(b"{\"uri\":1}".to_vec())),
        ServiceAnswer { status: 200, content_length: 9, body: b"{\"uri\":1}".to_vec() }
    );
}

#[test]
fn service_that_is_not_found_is_passed_on() {
    assert_eq!(
        answered(404, b"nothing here".to_vec(), None),
        ServiceAnswer { status: 404, content_length: 12, body: b"nothing here".to_vec() }
    );
    assert_eq!(
        answered(404, Vec::new(), None),
        ServiceAnswer { status: 404, content_length: 0, body: Vec::new() }
    );
}

#[test]
fn accounts_of_projects() {
    let neo: AccountName = "neo".parse().unwrap();
    assert_eq!(neo.text(), "neo");
    assert_eq!(neo, AccountName::from_str("neo").unwrap());
    let details =
        vec![ProjectDetails { project_name: "matrix".to_owned(), account_name: neo }];
    assert_eq!(
        get_projects(Ok(details)).unwrap(),
        vec![ProjectResponse {
            project_name: "matrix".to_owned(),
            account_name: "neo".to_owned()
        }]
    );
    assert!(get_projects(Err(Error::from_kind(ErrorKind::Internal))).is_err());
}

#[test]
fn failure_of_bulk_work_is_internal() {
    assert!(revive_projects(Ok::<(), String>(())).is_ok());
    assert_eq!(revive_projects(Err("x")).unwrap_err().kind, ErrorKind::Internal);
    assert_eq!(idle_cch_projects(Err("x")).unwrap_err().kind, ErrorKind::Internal);
    let error = destroy_projects(Err("secret")).unwrap_err();
    assert_eq!(error.kind, ErrorKind::Internal);
    assert_eq!(error.source, None);
}

#[test]
fn account_with_the_authority() {
    assert_eq!(create_acme_account(Ok(5)).unwrap(), 5);
    let error = create_acme_account(Err::<u8, String>("rate limit".to_owned())).unwrap_err();
    assert_eq!(error.kind, ErrorKind::Internal);
    assert_eq!(error.source, Some("rate limit".to_owned()));
}

#[test]
fn sources_of_statistics() {
    assert_eq!(DockerStatsSource::CgroupV1.as_str(), "CgroupV1");
    assert_eq!(DockerStatsSource::CgroupV2.as_str(), "CgroupV2");
    assert_eq!(DockerStatsSource::Bollard.as_str(), "Bollard");
    assert_eq!(DOCKER_STATS_PATH_CGROUP_V1, "/sys/fs/cgroup/cpuacct/docker");
    assert_eq!(DOCKER_STATS_PATH_CGROUP_V2, "/sys/fs/cgroup/system.slice");
}
