use shuttle::deployer::manager::{DeploymentManager, DeploymentManagerBuilder, RUN_BUFFER_SIZE};
use shuttle::deployer::row::{
    read_identifier, Deployment, DeploymentRow, DeploymentRunnable, RowError, RunnableRow,
};
use shuttle::id::DecodeError;
use shuttle::timestamp::Timestamp;

type Raw = DeploymentRow<Result<String, &'static str>, &'static str, &'static str>;

fn row() -> Raw {
    DeploymentRow {
        id: Ok("00000000000000000000000001".to_owned()),
        service_id: Ok("0000000000000000000000000Z".to_owned()),
        state: Ok("running"),
        last_update: Ok(Timestamp { secs: 7, nanos: 8 }),
        is_next: Ok(false),
        git_commit_hash: Ok(Some("abc".to_owned())),
        git_commit_message: Ok(None),
        git_branch: Ok(Some("main".to_owned())),
        git_dirty: Ok(Some(true)),
    }
}

#[test]
fn deployment_is_read() {
    assert_eq!(
        Deployment::from_row(row()).unwrap(),
        Deployment {
            id: 1,
            service_id: 31,
            state: "running",
            last_update: Timestamp { secs: 7, nanos: 8 },
            is_next: false,
            git_commit_hash: Some("abc".to_owned()),
            git_commit_message: None,
            git_branch: Some("main".to_owned()),
            git_dirty: Some(true),
        }
    );
}

#[test]
fn first_fault_is_reported() {
    let error = |row: Raw| Deployment::from_row(row).unwrap_err();
    assert_eq!(error(Raw { id: Err("id"), state: Err("state"), ..row() }), RowError::Column("id"));
    assert_eq!(
        error(Raw { id: Ok("short".to_owned()), service_id: Err("service"), ..row() }),
        RowError::Decode(DecodeError::InvalidLength)
    );
    assert_eq!(
        error(Raw {
            service_id: Ok("!!!!!!!!!!!!!!!!!!!!!!!!!!".to_owned()),
            git_dirty: Err("dirty"),
            ..row()
        }),
        RowError::Decode(DecodeError::InvalidChar)
    );
    assert_eq!(error(Raw { state: Err("state"), ..row() }), RowError::Column("state"));
    assert_eq!(error(Raw { last_update: Err("last"), ..row() }), RowError::Column("last"));
    assert_eq!(error(Raw { is_next: Err("next"), ..row() }), RowError::Column("next"));
    assert_eq!(error(Raw { git_commit_hash: Err("hash"), ..row() }), RowError::Column("hash"));
    assert_eq!(
        error(Raw { git_commit_message: Err("message"), ..row() }),
        RowError::Column("message")
    );
    assert_eq!(error(Raw { git_branch: Err("branch"), ..row() }), RowError::Column("branch"));
    assert_eq!(error(Raw { git_dirty: Err("dirty"), ..row() }), RowError::Column("dirty"));
}

#[test]
fn runnable_deployment_is_read() {
    let row = |id: &str| RunnableRow::<Result<String, &'static str>, &'static str> {
        id: Ok(id.to_owned()),
        service_name: Ok("matrix".to_owned()),
        service_id: Ok("00000000000000000000000002".to_owned()),
        is_next: Ok(true),
    };
    assert_eq!(
        DeploymentRunnable::from_row(row("00000000000000000000000001")).unwrap(),
        DeploymentRunnable {
            id: 1,
            service_name: "matrix".to_owned(),
            service_id: 2,
            is_next: true,
        }
    );
    let mut faulty = row("00000000000000000000000001");
    faulty.service_name = Err("name");
    faulty.service_id = Err("service");
    assert_eq!(DeploymentRunnable::from_row(faulty).unwrap_err(), RowError::Column("name"));
    assert_eq!(
        DeploymentRunnable::from_row(row("")).unwrap_err(),
        RowError::Decode(DecodeError::InvalidLength)
    );
}

#[test]
fn identifiers() {
    let read = |s: &str| read_identifier::<()>(Ok(s.to_owned()));
    assert_eq!(read("01ARZ3NDEKTSV4RRFFQ69G5FAV"), Ok(1777027686520646174104517696511196507));
    assert_eq!(read("00000000000000000000000000"), Ok(0));
    assert_eq!(
        read("0000000000000000000000000"),
        Err(RowError::Decode(DecodeError::InvalidLength))
    );
    assert_eq!(read_identifier(Err(3)), Err(RowError::Column(3)));
}

#[test]
fn manager_is_put_together() {
    let builder: DeploymentManagerBuilder<u8, &str, &str, &str, &str> =
        DeploymentManager::<u8, &str, &str>::builder();
    assert!(builder.claim.is_none());
    let pipeline = builder
        .build_log_recorder(1)
        .dal("dal")
        .artifacts_path("/tmp")
        .runtime("runtime")
        .claim("claim")
        .build();
    assert_eq!(pipeline.run_buffer_size, RUN_BUFFER_SIZE);
    assert_eq!(RUN_BUFFER_SIZE, 100);
    assert_eq!(pipeline.dal, "dal");
    assert_eq!(pipeline.artifacts_path, "/tmp");
    assert_eq!(pipeline.runtime_manager, "runtime");
    assert_eq!(pipeline.claim, Some("claim"));
    let manager =
        DeploymentManager { run_send: 5, runtime_manager: "runtime", storage_manager: "/tmp" };
    assert_eq!(manager.storage_manager(), "/tmp");
}
