//! The API of the gateway: what it answers, to whom, and what it needs for that.

use crate::gateway::load::{concurrent_builds, RunningBuilds};
use crate::routing::{no_routes, Method, Route, RouteView, Router, RouterView};
use vstd::prelude::*;

verus! {

/// The tokens that the gateway remembers.
pub const JWT_CACHE_SIZE: usize = 1000;

/// What a user may do.
#[derive(Debug, Clone, Copy, PartialEq, Eq, Structural)]
pub enum Scope {
    Admin,
    Project,
    ProjectWrite,
    AcmeCreate,
    CustomDomainCreate,
    CustomDomainCertificateRenew,
    GatewayCertificateRenew,
}

/// What answers a request.
#[derive(Debug, Clone, Copy, PartialEq, Eq, Structural)]
pub enum Endpoint {
    GetStatus,
    GetProject,
    DestroyProject,
    CreateProject,
    DeleteProject,
    CheckProjectName,
    OverrideCreateService,
    OverrideGetDeleteService,
    RouteProject,
    GetVersions,
    GetCargoShuttleVersion,
    GetProjectsList,
    PostLoad,
    DeleteLoad,
    GetProjects,
    ReviveProjects,
    DestroyProjects,
    IdleCchProjects,
    GetLoadAdmin,
    DeleteLoadAdmin,
    CreateAcmeAccount,
    RequestCustomDomainAcmeCertificate,
    RenewCustomDomainAcmeCertificate,
    RenewGatewayAcmeCertificate,
}

/// What a request passes on its way to an endpoint.
#[derive(Debug, Clone, Copy, PartialEq, Eq, Structural)]
pub enum Layer {
    /// Only users with this scope pass.
    Scoped(Scope),
    /// The client of the certificate authority is at hand.
    AcmeClient,
    /// The resolver of certificates is at hand.
    CertResolver,
    /// The name of the project goes into the trace.
    ProjectNameTracing,
    /// The token of the user is checked.
    JwtAuthentication,
    /// The credentials of the user are exchanged for a token.
    ShuttleAuth,
    /// The request is counted.
    Metrics,
    /// The request is traced.
    Trace,
}

/// A route of the gateway.
pub open spec fn entry(path: Seq<char>, method: Method, endpoint: Endpoint, layers: Seq<Layer>) -> RouteView<
    Endpoint,
    Layer,
> {
    RouteView { path, method, endpoint, layers }
}

/// The scope that a user needs for an endpoint, where the gateway itself checks for one.
pub open spec fn scope_of(endpoint: Endpoint) -> Option<Scope> {
    match endpoint {
        Endpoint::GetProject => Some(Scope::Project),
        Endpoint::GetProjectsList => Some(Scope::Project),
        Endpoint::DestroyProject => Some(Scope::ProjectWrite),
        Endpoint::CreateProject => Some(Scope::ProjectWrite),
        Endpoint::DeleteProject => Some(Scope::ProjectWrite),
        Endpoint::GetProjects => Some(Scope::Admin),
        Endpoint::ReviveProjects => Some(Scope::Admin),
        Endpoint::DestroyProjects => Some(Scope::Admin),
        Endpoint::IdleCchProjects => Some(Scope::Admin),
        Endpoint::GetLoadAdmin => Some(Scope::Admin),
        Endpoint::DeleteLoadAdmin => Some(Scope::Admin),
        Endpoint::CreateAcmeAccount => Some(Scope::AcmeCreate),
        Endpoint::RequestCustomDomainAcmeCertificate => Some(Scope::CustomDomainCreate),
        Endpoint::RenewCustomDomainAcmeCertificate => Some(Scope::CustomDomainCertificateRenew),
        Endpoint::RenewGatewayAcmeCertificate => Some(Scope::GatewayCertificateRenew),
        _ => None,
    }
}

/// The routes that have to do with certificates.
pub open spec fn acme_table() -> Seq<RouteView<Endpoint, Layer>> {
    seq![
        entry(
            "/admin/acme/:email"@,
            Method::Post,
            Endpoint::CreateAcmeAccount,
            seq![Layer::Scoped(Scope::AcmeCreate)],
        ),
        entry(
            "/admin/acme/request/:project_name/:fqdn"@,
            Method::Post,
            Endpoint::RequestCustomDomainAcmeCertificate,
            seq![Layer::Scoped(Scope::CustomDomainCreate)],
        ),
        entry(
            "/admin/acme/renew/:project_name/:fqdn"@,
            Method::Post,
            Endpoint::RenewCustomDomainAcmeCertificate,
            seq![Layer::Scoped(Scope::CustomDomainCertificateRenew)],
        ),
        entry(
            "/admin/acme/gateway/renew"@,
            Method::Post,
            Endpoint::RenewGatewayAcmeCertificate,
            seq![Layer::Scoped(Scope::GatewayCertificateRenew)],
        ),
    ]
}

/// The routes of administrators, below `/admin`.
pub open spec fn admin_table() -> Seq<RouteView<Endpoint, Layer>> {
    let layers = seq![Layer::Scoped(Scope::Admin)];
    seq![
        entry("/projects"@, Method::Get, Endpoint::GetProjects, layers),
        entry("/revive"@, Method::Post, Endpoint::ReviveProjects, layers),
        entry("/destroy"@, Method::Post, Endpoint::DestroyProjects, layers),
        entry("/idle-cch"@, Method::Post, Endpoint::IdleCchProjects, layers),
        entry("/stats/load"@, Method::Get, Endpoint::GetLoadAdmin, layers),
        entry("/stats/load"@, Method::Delete, Endpoint::DeleteLoadAdmin, layers),
    ]
}

/// The routes that name a project. Some requests to the deployer of a project are answered by the
/// gateway, the others are passed on as they are.
pub open spec fn project_table() -> Seq<RouteView<Endpoint, Layer>> {
    let read = seq![Layer::Scoped(Scope::Project), Layer::ProjectNameTracing];
    let write = seq![Layer::Scoped(Scope::ProjectWrite), Layer::ProjectNameTracing];
    let free = seq![Layer::ProjectNameTracing];
    seq![
        entry("/projects/:project_name"@, Method::Get, Endpoint::GetProject, read),
        entry("/projects/:project_name"@, Method::Delete, Endpoint::DestroyProject, write),
        entry("/projects/:project_name"@, Method::Post, Endpoint::CreateProject, write),
        entry("/projects/:project_name/delete"@, Method::Delete, Endpoint::DeleteProject, write),
        entry("/projects/name/:project_name"@, Method::Get, Endpoint::CheckProjectName, free),
        entry(
            "/projects/:project_name/services/:service_name"@,
            Method::Post,
            Endpoint::OverrideCreateService,
            free,
        ),
        entry(
            "/projects/:project_name/services/:service_name"@,
            Method::Get,
            Endpoint::OverrideGetDeleteService,
            free,
        ),
        entry(
            "/projects/:project_name/services/:service_name"@,
            Method::Delete,
            Endpoint::OverrideGetDeleteService,
            free,
        ),
        entry("/projects/:project_name/*any"@, Method::Any, Endpoint::RouteProject, free),
    ]
}

/// The other routes that are always there.
pub open spec fn common_table() -> Seq<RouteView<Endpoint, Layer>> {
    let free = Seq::<Layer>::empty();
    seq![
        entry("/versions"@, Method::Get, Endpoint::GetVersions, free),
        entry("/version/cargo-shuttle"@, Method::Get, Endpoint::GetCargoShuttleVersion, free),
        entry(
            "/projects"@,
            Method::Get,
            Endpoint::GetProjectsList,
            seq![Layer::Scoped(Scope::Project)],
        ),
        entry("/stats/load"@, Method::Post, Endpoint::PostLoad, free),
        entry("/stats/load"@, Method::Delete, Endpoint::DeleteLoad, free),
    ]
}

/// The routes of a builder with those that have to do with certificates.
pub open spec fn acme_added(base: RouterView<Endpoint, Layer>) -> RouterView<Endpoint, Layer> {
    RouterView { routes: base.routes + acme_table(), ..base }.within(Layer::AcmeClient).within(
        Layer::CertResolver,
    )
}

/// The routes of a builder with those that are always there. What a request passes that no route
/// takes starts anew.
pub open spec fn defaults_added(base: RouterView<Endpoint, Layer>) -> RouterView<Endpoint, Layer> {
    RouterView {
        routes: base.routes.push(
            entry("/"@, Method::Get, Endpoint::GetStatus, Seq::empty()),
        ) + project_table() + common_table() + admin_table().map_values(
            |r: RouteView<Endpoint, Layer>| r.below("/admin"@),
        ),
        fallback: Seq::empty(),
    }
}

/// The routes of a builder behind the checks of who asks.
pub open spec fn auth_added(base: RouterView<Endpoint, Layer>) -> RouterView<Endpoint, Layer> {
    base.within(Layer::JwtAuthentication).within(Layer::ShuttleAuth)
}

/// The routes of a builder behind the records of what is asked.
pub open spec fn traces_added(base: RouterView<Endpoint, Layer>) -> RouterView<Endpoint, Layer> {
    base.routes_within(Layer::Metrics).within(Layer::Trace)
}

/// The routes of a gateway in service, with or without those that have to do with certificates.
pub open spec fn in_service(tls: bool) -> RouterView<Endpoint, Layer> {
    let base = if tls {
        acme_added(no_routes())
    } else {
        no_routes()
    };
    traces_added(auth_added(defaults_added(base)))
}

fn admin_routes() -> (r: Router<Endpoint, Layer>)
    ensures
        r@.routes == admin_table(),
{
    let r = Router::new().route(
        Route::new("/projects", Method::Get, Endpoint::GetProjects),
    ).route(Route::new("/revive", Method::Post, Endpoint::ReviveProjects)).route(
        Route::new("/destroy", Method::Post, Endpoint::DestroyProjects),
    ).route(Route::new("/idle-cch", Method::Post, Endpoint::IdleCchProjects)).route(
        Route::new("/stats/load", Method::Get, Endpoint::GetLoadAdmin),
    ).route(Route::new("/stats/load", Method::Delete, Endpoint::DeleteLoadAdmin)).layer(
        Layer::Scoped(Scope::Admin),
    );
    assert(r@.routes =~~= admin_table());
    r
}

fn project_routes() -> (r: Router<Endpoint, Layer>)
    ensures
        r@.routes == project_table(),
        r@.fallback == Seq::<Layer>::empty(),
{
    let read = Layer::Scoped(Scope::Project);
    let write = Layer::Scoped(Scope::ProjectWrite);
    let r = Router::new().route(
        Route::new("/projects/:project_name", Method::Get, Endpoint::GetProject).layer(read),
    ).route(
        Route::new("/projects/:project_name", Method::Delete, Endpoint::DestroyProject).layer(write),
    ).route(
        Route::new("/projects/:project_name", Method::Post, Endpoint::CreateProject).layer(write),
    ).route(
        Route::new("/projects/:project_name/delete", Method::Delete, Endpoint::DeleteProject).layer(
            write,
        ),
    ).route(
        Route::new("/projects/name/:project_name", Method::Get, Endpoint::CheckProjectName),
    ).route(
        Route::new(
            "/projects/:project_name/services/:service_name",
            Method::Post,
            Endpoint::OverrideCreateService,
        ),
    ).route(
        Route::new(
            "/projects/:project_name/services/:service_name",
            Method::Get,
            Endpoint::OverrideGetDeleteService,
        ),
    ).route(
        Route::new(
            "/projects/:project_name/services/:service_name",
            Method::Delete,
            Endpoint::OverrideGetDeleteService,
        ),
    ).route(
        Route::new("/projects/:project_name/*any", Method::Any, Endpoint::RouteProject),
    ).route_layer(Layer::ProjectNameTracing);
    assert(r@.routes =~~= project_table());
    r
}

/// What the gateway needs to know who asks.
#[derive(Debug, PartialEq, Eq)]
pub struct AuthService {
    /// Where the authentication service is.
    pub auth_uri: String,
    /// The key that administrators show.
    pub gateway_admin_key: String,
    /// The tokens that the gateway remembers.
    pub cache_size: usize,
}

/// What the endpoints of the gateway work with.
pub struct RouterState<S, Q, P> {
    pub service: S,
    pub sender: Q,
    /// Where events of users are recorded, if anywhere.
    pub posthog_client: Option<P>,
    pub running_builds: RunningBuilds,
}

/// The API of the gateway, ready to be served.
pub struct Api<S, Q, P, C, R> {
    pub router: Router<Endpoint, Layer>,
    pub state: RouterState<S, Q, P>,
    /// The client of the certificate authority and the resolver of certificates, if the gateway
    /// has to do with certificates.
    pub acme: Option<(C, R)>,
    pub auth: Option<AuthService>,
}

/// Puts together the API of the gateway.
///
/// The types stand for the service behind the gateway, the sender of its tasks, the client that
/// records events, a socket address, the client of the certificate authority and the resolver of
/// certificates.
pub struct ApiBuilder<S, Q, P, A, C, R> {
    pub router: Router<Endpoint, Layer>,
    pub service: Option<S>,
    pub sender: Option<Q>,
    pub posthog_client: Option<P>,
    pub bind: Option<A>,
    pub acme: Option<(C, R)>,
    pub auth: Option<AuthService>,
}

impl<S, Q, P, A, C, R> Default for ApiBuilder<S, Q, P, A, C, R> {
    fn default() -> (r: Self)
        ensures
            r.is_new(),
    {
        ApiBuilder::new()
    }
}

impl<S, Q, P, A, C, R> ApiBuilder<S, Q, P, A, C, R> {
    /// Whether nothing was set.
    pub open spec fn is_new(self) -> bool {
        &&& self.router@ == no_routes::<Endpoint, Layer>()
        &&& self.service is None
        &&& self.sender is None
        &&& self.posthog_client is None
        &&& self.bind is None
        &&& self.acme is None
        &&& self.auth is None
    }

    /// Whether an API can be made.
    pub open spec fn complete(self) -> bool {
        self.service is Some && self.sender is Some
    }

    /// Whether the builder differs from another in its routes at most.
    pub open spec fn same_settings(self, other: Self) -> bool {
        &&& self.service == other.service
        &&& self.sender == other.sender
        &&& self.posthog_client == other.posthog_client
        &&& self.bind == other.bind
        &&& self.acme == other.acme
        &&& self.auth == other.auth
    }

    /// A builder with nothing set.
    pub fn new() -> (r: Self)
        ensures
            r.is_new(),
            r.router.routes@.len() == 0,
            r.router.fallback@.len() == 0,
            r.service is None && r.sender is None && r.posthog_client is None,
            r.bind is None && r.acme is None && r.auth is None,
    {
        ApiBuilder {
            router: Router::new(),
            service: None,
            sender: None,
            posthog_client: None,
            bind: None,
            acme: None,
            auth: None,
        }
    }

    /// Adds the routes that have to do with certificates.
    pub fn with_acme(self, acme: C, resolver: R) -> (r: Self)
        ensures
            r.router@ == acme_added(self.router@),
            r.acme == Some((acme, resolver)),
            r.same_settings(ApiBuilder { acme: r.acme, ..self }),
    {
        let ghost base = self.router@;
        let router = self.router.route(
            Route::new("/admin/acme/:email", Method::Post, Endpoint::CreateAcmeAccount).layer(
                Layer::Scoped(Scope::AcmeCreate),
            ),
        ).route(
            Route::new(
                "/admin/acme/request/:project_name/:fqdn",
                Method::Post,
                Endpoint::RequestCustomDomainAcmeCertificate,
            ).layer(Layer::Scoped(Scope::CustomDomainCreate)),
        ).route(
            Route::new(
                "/admin/acme/renew/:project_name/:fqdn",
                Method::Post,
                Endpoint::RenewCustomDomainAcmeCertificate,
            ).layer(Layer::Scoped(Scope::CustomDomainCertificateRenew)),
        ).route(
            Route::new(
                "/admin/acme/gateway/renew",
                Method::Post,
                Endpoint::RenewGatewayAcmeCertificate,
            ).layer(Layer::Scoped(Scope::GatewayCertificateRenew)),
        );
        assert(router@.routes =~~= base.routes + acme_table());
        ApiBuilder {
            router: router.layer(Layer::AcmeClient).layer(Layer::CertResolver),
            acme: Some((acme, resolver)),
            ..self
        }
    }

    /// Sets the service behind the gateway.
    pub fn with_service(self, service: S) -> (r: Self)
        ensures
            r == (ApiBuilder { service: Some(service), ..self }),
    {
        ApiBuilder { service: Some(service), ..self }
    }

    /// Sets the sender of tasks.
    pub fn with_sender(self, sender: Q) -> (r: Self)
        ensures
            r == (ApiBuilder { sender: Some(sender), ..self }),
    {
        ApiBuilder { sender: Some(sender), ..self }
    }

    /// Sets the client that records events.
    pub fn with_posthog_client(self, posthog_client: P) -> (r: Self)
        ensures
            r == (ApiBuilder { posthog_client: Some(posthog_client), ..self }),
    {
        ApiBuilder { posthog_client: Some(posthog_client), ..self }
    }

    /// Sets the address to serve at.
    pub fn binding_to(self, addr: A) -> (r: Self)
        ensures
            r == (ApiBuilder { bind: Some(addr), ..self }),
    {
        ApiBuilder { bind: Some(addr), ..self }
    }

    /// Records what is asked. There have to be routes.
    pub fn with_default_traces(self) -> (r: Self)
        requires
            self.router@.routes.len() > 0,
        ensures
            r.router@ == traces_added(self.router@),
            r.same_settings(self),
    {
        ApiBuilder { router: self.router.route_layer(Layer::Metrics).layer(Layer::Trace), ..self }
    }

    /// Adds the routes that are always there.
    pub fn with_default_routes(self) -> (r: Self)
        ensures
            r.router@ == defaults_added(self.router@),
            r.same_settings(self),
    {
        let ghost base = self.router@;
        let merged = self.router.route(Route::new("/", Method::Get, Endpoint::GetStatus)).merge(
            project_routes(),
        );
        let ghost first = base.routes.push(
            entry("/"@, Method::Get, Endpoint::GetStatus, Seq::empty()),
        ) + project_table();
        assert(merged@.routes =~= first);
        let common = merged.route(
            Route::new("/versions", Method::Get, Endpoint::GetVersions),
        ).route(
            Route::new("/version/cargo-shuttle", Method::Get, Endpoint::GetCargoShuttleVersion),
        ).route(
            Route::new("/projects", Method::Get, Endpoint::GetProjectsList).layer(
                Layer::Scoped(Scope::Project),
            ),
        ).route(Route::new("/stats/load", Method::Post, Endpoint::PostLoad)).route(
            Route::new("/stats/load", Method::Delete, Endpoint::DeleteLoad),
        );
        assert(common@.routes =~~= first + common_table());
        ApiBuilder { router: common.nest("/admin", admin_routes()), ..self }
    }

    /// Checks who asks.
    pub fn with_auth_service(self, auth_uri: String, gateway_admin_key: String) -> (r: Self)
        ensures
            r.router@ == auth_added(self.router@),
            r.auth == Some(
                AuthService { auth_uri, gateway_admin_key, cache_size: JWT_CACHE_SIZE },
            ),
            r.auth matches Some(a) && a.cache_size == 1000,
            r.same_settings(ApiBuilder { auth: r.auth, ..self }),
    {
        ApiBuilder {
            router: self.router.layer(Layer::JwtAuthentication).layer(Layer::ShuttleAuth),
            auth: Some(AuthService { auth_uri, gateway_admin_key, cache_size: JWT_CACHE_SIZE }),
            ..self
        }
    }

    /// The API. The service and the sender have to be set; without a client, no events are
    /// recorded. No builds run, and as many may as this machine can take.
    pub fn into_router(self) -> (r: Api<S, Q, P, C, R>)
        requires
            self.complete(),
        ensures
            r.router == self.router,
            r.state.service == self.service->0,
            r.state.sender == self.sender->0,
            r.state.posthog_client == self.posthog_client,
            r.acme == self.acme,
            r.auth == self.auth,
            r.state.running_builds.wf(),
            r.state.running_builds.builds() == Seq::<(u128, u64)>::empty(),
            exists|cores: usize|
                cores >= 1 && r.state.running_builds.limit() == #[trigger] concurrent_builds(cores),
    {
        Api {
            router: self.router,
            state: RouterState {
                service: self.service.unwrap(),
                sender: self.sender.unwrap(),
                posthog_client: self.posthog_client,
                running_builds: RunningBuilds::for_this_machine(),
            },
            acme: self.acme,
            auth: self.auth,
        }
    }

    /// The API and the address to serve it at, which has to be set.
    pub fn serve(self) -> (r: (A, Api<S, Q, P, C, R>))
        requires
            self.bind is Some,
            self.complete(),
        ensures
            r.0 == self.bind->0,
            r.1.router == self.router,
            r.1.state.service == self.service->0,
            r.1.state.sender == self.sender->0,
            r.1.state.posthog_client == self.posthog_client,
            r.1.acme == self.acme,
            r.1.auth == self.auth,
            r.1.state.running_builds.wf(),
            r.1.state.running_builds.builds() == Seq::<(u128, u64)>::empty(),
            exists|cores: usize|
                cores >= 1 && r.1.state.running_builds.limit() == #[trigger] concurrent_builds(
                    cores,
                ),
    {
        let api = ApiBuilder { bind: None::<A>, ..self }.into_router();
        (self.bind.unwrap(), api)
    }
}

/// Puts together the API of a gateway that goes into service. It has to do with certificates
/// exactly if it is given the means for that.
pub fn start<S, Q, P, A, C, R>(
    service: S,
    sender: Q,
    posthog_client: P,
    control: A,
    tls: Option<(C, R)>,
    auth_uri: String,
    admin_key: String,
) -> (r: ApiBuilder<S, Q, P, A, C, R>)
    ensures
        r.complete(),
        r.router@ == in_service(tls is Some),
        r.service == Some(service),
        r.sender == Some(sender),
        r.posthog_client == Some(posthog_client),
        r.bind == Some(control),
        r.acme == tls,
        r.auth == Some(
            AuthService { auth_uri, gateway_admin_key: admin_key, cache_size: JWT_CACHE_SIZE },
        ),
        r.auth matches Some(a) && a.cache_size == 1000,
{
    let builder = ApiBuilder::new().with_service(service).with_sender(sender).with_posthog_client(
        posthog_client,
    ).binding_to(control);
    let builder = match tls {
        Some((acme, resolver)) => builder.with_acme(acme, resolver),
        None => builder,
    };
    builder.with_default_routes().with_auth_service(auth_uri, admin_key).with_default_traces()
}

/// The versions of the parts of the platform.
#[derive(Debug, PartialEq, Eq)]
pub struct VersionInfo {
    pub gateway: String,
    pub cargo_shuttle: String,
    pub deployer: String,
    pub runtime: String,
}

/// The versions of the parts of the platform: they are released in lockstep, so all are that of
/// the gateway.
pub fn versions(version: &str) -> (r: VersionInfo)
    ensures
        r.gateway@ == version@,
        r.cargo_shuttle@ == version@,
        r.deployer@ == version@,
        r.runtime@ == version@,
{
    VersionInfo {
        gateway: version.to_owned(),
        cargo_shuttle: version.to_owned(),
        deployer: version.to_owned(),
        runtime: version.to_owned(),
    }
}

} // verus!
