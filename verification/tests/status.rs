use shuttle::gateway::ambulance::{Action, Ambulance, Event};
use shuttle::gateway::status::{
    get_status, ComponentStatus, ProvisionerReply, Queue, StatusResponse, SHUTTLE_GATEWAY_VARIANT,
    SVC_DEGRADED_THRESHOLD,
};

const WORKER_QUEUE_SIZE: usize = 2048;

fn queue(closed: bool, capacity: usize) -> Queue {
    Queue { closed, capacity, size: WORKER_QUEUE_SIZE }
}

fn word(queue: Queue) -> &'static str {
    let report = get_status(queue, ProvisionerReply::Alive, Some(200));
    report[0].response.status().as_str()
}

#[test]
fn status() {
    // A queue for one task, which is full, then empty, then closed.
    assert_eq!(word(queue(false, 0)), "unhealthy");
    assert_eq!(word(queue(false, 1)), "degraded");
    assert_eq!(word(queue(true, 1)), "unhealthy");
}

#[test]
fn status_words() {
    assert_eq!(StatusResponse::healthy().status(), ComponentStatus::Healthy);
    assert_eq!(StatusResponse::degraded().status(), ComponentStatus::Degraded);
    assert_eq!(StatusResponse::unhealthy().status(), ComponentStatus::Unhealthy);
    assert_eq!(ComponentStatus::Healthy.as_str(), "healthy");
}

#[test]
fn gateway_is_slow_when_too_many_tasks_wait() {
    assert_eq!(word(queue(false, WORKER_QUEUE_SIZE)), "healthy");
    assert_eq!(word(queue(false, WORKER_QUEUE_SIZE - SVC_DEGRADED_THRESHOLD)), "healthy");
    assert_eq!(word(queue(false, WORKER_QUEUE_SIZE - SVC_DEGRADED_THRESHOLD - 1)), "degraded");
}

#[test]
fn report_names_each_service() {
    let report = get_status(queue(false, 2048), ProvisionerReply::Unreachable, None);
    assert_eq!(report.len(), 3);
    assert_eq!(report[0].name, SHUTTLE_GATEWAY_VARIANT);
    assert_eq!(report[0].name, "shuttle-gateway");
    assert_eq!(report[1].name, "shuttle-provisioner");
    assert_eq!(report[2].name, "shuttle-auth");
    assert_eq!(report[0].response, StatusResponse::healthy());
    assert_eq!(report[1].response, StatusResponse::unhealthy());
    assert_eq!(report[2].response, StatusResponse::unhealthy());
}

#[test]
fn other_services() {
    let of = |p, a| {
        let report = get_status(queue(false, 2048), p, a);
        (report[1].response.status().as_str(), report[2].response.status().as_str())
    };
    assert_eq!(of(ProvisionerReply::Alive, Some(200)), ("healthy", "healthy"));
    assert_eq!(of(ProvisionerReply::Failed, Some(204)), ("unhealthy", "unhealthy"));
}

fn names(list: &[&str]) -> Option<Vec<String>> {
    Some(list.iter().map(|name| name.to_string()).collect())
}

#[test]
fn round_checks_each_project() {
    let ambulance = Ambulance::new();
    assert_eq!(ambulance.action(), Action::Wait);
    let ambulance = ambulance.advance(Event::Tick(queue(false, 2048)));
    assert_eq!(ambulance.action(), Action::ListReady);
    let ambulance = ambulance.advance(Event::Ready(names(&["matrix", "reloaded"])));
    assert_eq!(ambulance.action(), Action::Check("matrix".to_owned()));
    let ambulance = ambulance.advance(Event::Checked);
    assert_eq!(ambulance.action(), Action::Check("reloaded".to_owned()));
    let ambulance = ambulance.advance(Event::Checked);
    assert_eq!(ambulance, Ambulance::Waiting);
}

#[test]
fn slow_gateway_is_spared() {
    let busy = queue(false, WORKER_QUEUE_SIZE - SVC_DEGRADED_THRESHOLD - 1);
    assert_eq!(Ambulance::new().advance(Event::Tick(busy)), Ambulance::Waiting);
    assert_eq!(busy.status(), StatusResponse::degraded());
}

#[test]
fn round_without_projects() {
    assert_eq!(Ambulance::Listing.advance(Event::Ready(names(&[]))), Ambulance::Waiting);
    assert_eq!(Ambulance::Listing.advance(Event::Ready(None)), Ambulance::Waiting);
    assert_eq!(Ambulance::Waiting.advance(Event::Checked), Ambulance::Waiting);
}
