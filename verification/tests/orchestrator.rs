use shuttle::orchestrator::client::{create_pod, Creation, Error};
use shuttle::orchestrator::pod::{
    is_pod_of, manifest, service_name, PodSpec, PODS_COUNT, SERVICE_IMAGE, START_POD,
};
use shuttle::orchestrator::rollout::{Event, Rollout, Stage};

fn pod(name: &str) -> Option<PodSpec> {
    Some(PodSpec { containers: vec![name.to_owned()] })
}

#[test]
fn names_of_pods() {
    assert_eq!(service_name(0), "shuttle-service-0");
    assert_eq!(service_name(1999), "shuttle-service-1999");
}

#[test]
fn manifest_of_a_pod() {
    let pod = manifest("shuttle-service-7", SERVICE_IMAGE);
    assert_eq!(pod.api_version, "v1");
    assert_eq!(pod.kind, "Pod");
    assert_eq!(pod.name, "shuttle-service-7");
    assert_eq!(pod.container_name, "shuttle-service-7");
    assert_eq!(pod.image, "localhost:32000/shuttle-service:latest");
}

#[test]
fn all_pods_come_up_and_go_down() {
    let mut rollout = Rollout::new(START_POD, PODS_COUNT);
    let mut created = 0;
    let mut deleted = 0;
    let mut answers = 0;
    while rollout.stage != Stage::Done {
        let event = match rollout.stage {
            Stage::Create(idx) => {
                assert_eq!(idx, created);
                created += 1;
                Event::Created(service_name(idx))
            }
            Stage::AwaitRunning(_) => Event::Running(true),
            Stage::Get(idx) => Event::Found(pod(&service_name(idx))),
            Stage::Delete(idx) => {
                assert_eq!(created, PODS_COUNT);
                assert_eq!(idx, deleted);
                deleted += 1;
                Event::Deleting(Some(service_name(idx)))
            }
            other => panic!("{:?}", other),
        };
        answers += 1;
        rollout = rollout.advance(event);
    }
    assert_eq!(created, 2000);
    assert_eq!(deleted, 2000);
    assert_eq!(answers, 8000);
}

#[test]
fn pod_that_exists_is_as_good_as_a_new_one() {
    let rollout = Rollout::new(0, 1);
    assert_eq!(
        rollout.advance(Event::CreateRefused(409)).stage,
        Stage::AwaitRunning(0)
    );
    assert_eq!(rollout.advance(Event::CreateRefused(403)).stage, Stage::Aborted);
    assert_eq!(rollout.advance(Event::CreateFailed).stage, Stage::Aborted);
    assert_eq!(rollout.advance(Event::Created("other".to_owned())).stage, Stage::Aborted);
}

#[test]
fn pod_that_does_not_come_up() {
    let rollout = Rollout { count: 2, stage: Stage::AwaitRunning(1) };
    assert_eq!(rollout.advance(Event::Running(false)).stage, Stage::TimedOut);
    let rollout = Rollout { count: 2, stage: Stage::Get(0) };
    assert_eq!(rollout.advance(Event::NotFound).stage, Stage::Aborted);
    assert_eq!(rollout.advance(Event::Found(pod("other"))).stage, Stage::Aborted);
    assert_eq!(rollout.advance(Event::Found(None)).stage, Stage::Create(1));
    let rollout = Rollout { count: 2, stage: Stage::Get(1) };
    assert_eq!(
        rollout.advance(Event::Found(pod("shuttle-service-1"))).stage,
        Stage::Delete(0)
    );
}

#[test]
fn pod_that_does_not_go_down() {
    let rollout = Rollout { count: 2, stage: Stage::Delete(0) };
    assert_eq!(rollout.advance(Event::DeleteFailed).stage, Stage::Aborted);
    assert_eq!(rollout.advance(Event::Deleting(Some("x".to_owned()))).stage, Stage::Aborted);
    assert_eq!(rollout.advance(Event::Deleting(None)).stage, Stage::Delete(1));
    let last = Rollout { count: 2, stage: Stage::Delete(1) };
    assert_eq!(last.advance(Event::Deleting(None)).stage, Stage::Done);
}

#[test]
fn answers_to_something_else() {
    let rollout = Rollout { count: 2, stage: Stage::Done };
    assert_eq!(rollout.advance(Event::Running(true)), rollout);
    assert_eq!(Rollout::new(3, 3).stage, Stage::Delete(0));
    assert_eq!(Rollout::new(0, 0).stage, Stage::Done);
}

#[test]
fn containers_of_a_pod() {
    assert!(is_pod_of(&pod("matrix"), "matrix"));
    assert!(!is_pod_of(&pod("matrix"), "matriX"));
    assert!(!is_pod_of(&pod("matrix"), "matrix2"));
    assert!(!is_pod_of(&Some(PodSpec { containers: Vec::new() }), "matrix"));
    assert!(is_pod_of(&None, "matrix"));
}

#[test]
fn pod_for_a_project() {
    assert!(matches!(
        create_pod::<&str>("matrix", Ok("matrix".to_owned())),
        Creation::Created
    ));
    assert!(matches!(
        create_pod::<&str>("matrix", Ok("reloaded".to_owned())),
        Creation::Aborted
    ));
    assert!(matches!(
        create_pod("matrix", Err("forbidden")),
        Creation::Failed(Error::Kube("forbidden"))
    ));
}
