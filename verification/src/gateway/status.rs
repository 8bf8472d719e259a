//! How the gateway and the services behind it are doing.

use vstd::prelude::*;

verus! {

/// The tasks that may wait for the worker before the gateway counts as slow.
pub const SVC_DEGRADED_THRESHOLD: usize = 128;

/// The name of the gateway in a status report.
pub const SHUTTLE_GATEWAY_VARIANT: &'static str = "shuttle-gateway";

/// The name of the provisioner in a status report.
pub const PROVISIONER: &'static str = "shuttle-provisioner";

/// The name of the authentication service in a status report.
pub const AUTH: &'static str = "shuttle-auth";

/// The status code of a request that went well.
pub const OK: u16 = 200;

/// How a service is doing.
#[derive(Debug, Clone, Copy, PartialEq, Eq, Structural)]
pub enum ComponentStatus {
    Healthy,
    Degraded,
    Unhealthy,
}

impl ComponentStatus {
    /// The word for the status in a report.
    pub open spec fn word(self) -> Seq<char> {
        match self {
            ComponentStatus::Healthy => "healthy"@,
            ComponentStatus::Degraded => "degraded"@,
            ComponentStatus::Unhealthy => "unhealthy"@,
        }
    }

    /// The word for the status in a report.
    pub fn as_str(&self) -> (r: &'static str)
        ensures
            r@ == self.word(),
    {
        match self {
            ComponentStatus::Healthy => "healthy",
            ComponentStatus::Degraded => "degraded",
            ComponentStatus::Unhealthy => "unhealthy",
        }
    }
}

/// What a report says of a service.
#[derive(Debug, Clone, Copy, PartialEq, Eq, Structural)]
pub struct StatusResponse {
    status: ComponentStatus,
}

impl StatusResponse {
    /// How the service is doing.
    pub closed spec fn spec_status(&self) -> ComponentStatus {
        self.status
    }

    /// How the service is doing.
    pub fn status(&self) -> (r: ComponentStatus)
        ensures
            r == self.spec_status(),
    {
        self.status
    }

    /// The service does its work.
    pub fn healthy() -> (r: Self)
        ensures
            r.spec_status() == ComponentStatus::Healthy,
    {
        StatusResponse { status: ComponentStatus::Healthy }
    }

    /// The service is behind with its work.
    pub fn degraded() -> (r: Self)
        ensures
            r.spec_status() == ComponentStatus::Degraded,
    {
        StatusResponse { status: ComponentStatus::Degraded }
    }

    /// The service does not do its work.
    pub fn unhealthy() -> (r: Self)
        ensures
            r.spec_status() == ComponentStatus::Unhealthy,
    {
        StatusResponse { status: ComponentStatus::Unhealthy }
    }
}

/// The queue of tasks for the worker.
#[derive(Debug, Clone, Copy, PartialEq, Eq, Structural)]
pub struct Queue {
    /// Whether the worker is gone.
    pub closed: bool,
    /// The tasks that still fit.
    pub capacity: usize,
    /// The tasks that a queue is meant to hold, against which the free places are measured. This is
    /// a fixed number, whatever queue is in use.
    pub size: usize,
}

impl Queue {
    /// Whether more tasks wait than the gateway is comfortable with.
    pub open spec fn lagging(self) -> bool {
        self.size - self.capacity > SVC_DEGRADED_THRESHOLD
    }

    /// Whether more tasks wait than the gateway is comfortable with.
    pub fn is_lagging(&self) -> (r: bool)
        requires
            self.size >= SVC_DEGRADED_THRESHOLD,
        ensures
            r == self.lagging(),
    {
        self.capacity < self.size - SVC_DEGRADED_THRESHOLD
    }

    /// How the gateway is doing.
    pub open spec fn health(self) -> ComponentStatus {
        if self.closed || self.capacity == 0 {
            ComponentStatus::Unhealthy
        } else if self.lagging() {
            ComponentStatus::Degraded
        } else {
            ComponentStatus::Healthy
        }
    }

    /// How the gateway is doing.
    pub fn status(&self) -> (r: StatusResponse)
        requires
            self.size >= SVC_DEGRADED_THRESHOLD,
        ensures
            r.spec_status() == self.health(),
    {
        if self.closed || self.capacity == 0 {
            StatusResponse::unhealthy()
        } else if self.is_lagging() {
            StatusResponse::degraded()
        } else {
            StatusResponse::healthy()
        }
    }
}

/// What the provisioner did when the gateway called.
#[derive(Debug, Clone, Copy, PartialEq, Eq, Structural)]
pub enum ProvisionerReply {
    /// It could not be reached.
    Unreachable,
    /// It was reached and did not answer as it should.
    Failed,
    /// It answered.
    Alive,
}

/// An entry of a status report.
#[derive(Debug, Clone, Copy)]
pub struct Component {
    pub name: &'static str,
    pub response: StatusResponse,
}

/// Healthy or not at all.
pub open spec fn up(b: bool) -> ComponentStatus {
    if b {
        ComponentStatus::Healthy
    } else {
        ComponentStatus::Unhealthy
    }
}

fn up_response(b: bool) -> (r: StatusResponse)
    ensures
        r.spec_status() == up(b),
{
    if b {
        StatusResponse::healthy()
    } else {
        StatusResponse::unhealthy()
    }
}

/// The status report: the gateway first, then the provisioner, then the authentication service.
/// `auth` is the status code with which the latter answered, if it did.
pub fn get_status(queue: Queue, provisioner: ProvisionerReply, auth: Option<u16>) -> (r: Vec<
    Component,
>)
    requires
        queue.size >= SVC_DEGRADED_THRESHOLD,
    ensures
        r@.len() == 3,
        r@[0].name@ == SHUTTLE_GATEWAY_VARIANT@,
        r@[0].response.spec_status() == queue.health(),
        r@[0].response.spec_status() == (if queue.closed || queue.capacity == 0 {
            ComponentStatus::Unhealthy
        } else if queue.size - queue.capacity > SVC_DEGRADED_THRESHOLD {
            ComponentStatus::Degraded
        } else {
            ComponentStatus::Healthy
        }),
        r@[1].name@ == PROVISIONER@,
        r@[1].response.spec_status() == up(provisioner is Alive),
        r@[1].response.spec_status() == (if provisioner == ProvisionerReply::Alive {
            ComponentStatus::Healthy
        } else {
            ComponentStatus::Unhealthy
        }),
        r@[2].name@ == AUTH@,
        r@[2].response.spec_status() == up(auth == Some(OK)),
        r@[2].response.spec_status() == (if auth == Some(200u16) {
            ComponentStatus::Healthy
        } else {
            ComponentStatus::Unhealthy
        }),
{
    let mut statuses: Vec<Component> = Vec::new();
    statuses.push(Component { name: SHUTTLE_GATEWAY_VARIANT, response: queue.status() });
    let alive = matches!(provisioner, ProvisionerReply::Alive);
    statuses.push(Component { name: PROVISIONER, response: up_response(alive) });
    let answered = match auth {
        Some(code) => code == OK,
        None => false,
    };
    statuses.push(Component { name: AUTH, response: up_response(answered) });
    statuses
}

/// A queue that fills up never makes the gateway look better.
pub proof fn law_fuller_queue_is_no_healthier(a: Queue, b: Queue)
    requires
        a.closed == b.closed,
        a.size == b.size,
        a.capacity <= b.capacity,
    ensures
        b.health() == ComponentStatus::Unhealthy ==> a.health() == ComponentStatus::Unhealthy,
        a.health() == ComponentStatus::Healthy ==> b.health() == ComponentStatus::Healthy,
{
}

/// A gateway whose worker is gone or whose queue is full does no work. One with more than a hundred
/// and twenty-eight places taken is slow, and any other is well.
pub proof fn law_health_of_a_queue(q: Queue)
    ensures
        q.closed ==> q.health() == ComponentStatus::Unhealthy,
        q.capacity == 0 ==> q.health() == ComponentStatus::Unhealthy,
        !q.closed && q.capacity > 0 && q.size - q.capacity > 128 ==> q.health()
            == ComponentStatus::Degraded,
        !q.closed && q.capacity > 0 && q.size - q.capacity <= 128 ==> q.health()
            == ComponentStatus::Healthy,
        q.lagging() <==> q.size - q.capacity > 128,
{
}

/// A service is well exactly if it is up, and there is nothing in between.
pub proof fn law_up_or_not(b: bool)
    ensures
        b ==> up(b) == ComponentStatus::Healthy,
        !b ==> up(b) == ComponentStatus::Unhealthy,
{
}

/// Each status has its own word.
pub proof fn law_word_tells_the_status(s: ComponentStatus)
    ensures
        s.word() == "healthy"@ <==> s == ComponentStatus::Healthy,
        s.word() == "degraded"@ <==> s == ComponentStatus::Degraded,
        s.word() == "unhealthy"@ <==> s == ComponentStatus::Unhealthy,
{
    reveal_strlit("healthy");
    reveal_strlit("degraded");
    reveal_strlit("unhealthy");
    assert("healthy"@[0] == 'h');
    assert("degraded"@[0] == 'd');
    assert("unhealthy"@[0] == 'u');
}

} // verus!
