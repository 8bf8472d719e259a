use shuttle::auth;
use shuttle::gateway::api::{start, versions, ApiBuilder, Endpoint, Layer, Scope};
use shuttle::routing::{Method, Route, Router};

type Builder = ApiBuilder<&'static str, u8, &'static str, u16, &'static str, &'static str>;

fn gateway(tls: bool) -> Builder {
    start(
        "service",
        1,
        "posthog",
        8001,
        if tls { Some(("acme", "resolver")) } else { None },
        "http://auth".to_owned(),
        "dummykey".to_owned(),
    )
}

fn find(router: &Router<Endpoint, Layer>, path: &str, method: Method) -> Endpoint {
    let found: Vec<&Route<Endpoint, Layer>> =
        router.routes.iter().filter(|r| r.path == path && r.method == method).collect();
    assert_eq!(found.len(), 1, "{}", path);
    found[0].endpoint
}

#[test]
fn routes_of_the_gateway() {
    let router = gateway(true).router;
    assert_eq!(router.routes.len(), 25);
    let expected = [
        ("/", Method::Get, Endpoint::GetStatus),
        ("/versions", Method::Get, Endpoint::GetVersions),
        ("/version/cargo-shuttle", Method::Get, Endpoint::GetCargoShuttleVersion),
        ("/projects", Method::Get, Endpoint::GetProjectsList),
        ("/stats/load", Method::Post, Endpoint::PostLoad),
        ("/stats/load", Method::Delete, Endpoint::DeleteLoad),
        ("/projects/:project_name", Method::Get, Endpoint::GetProject),
        ("/projects/:project_name", Method::Delete, Endpoint::DestroyProject),
        ("/projects/:project_name", Method::Post, Endpoint::CreateProject),
        ("/projects/:project_name/delete", Method::Delete, Endpoint::DeleteProject),
        ("/projects/name/:project_name", Method::Get, Endpoint::CheckProjectName),
        (
            "/projects/:project_name/services/:service_name",
            Method::Post,
            Endpoint::OverrideCreateService,
        ),
        (
            "/projects/:project_name/services/:service_name",
            Method::Get,
            Endpoint::OverrideGetDeleteService,
        ),
        (
            "/projects/:project_name/services/:service_name",
            Method::Delete,
            Endpoint::OverrideGetDeleteService,
        ),
        ("/projects/:project_name/*any", Method::Any, Endpoint::RouteProject),
        ("/admin/projects", Method::Get, Endpoint::GetProjects),
        ("/admin/revive", Method::Post, Endpoint::ReviveProjects),
        ("/admin/destroy", Method::Post, Endpoint::DestroyProjects),
        ("/admin/idle-cch", Method::Post, Endpoint::IdleCchProjects),
        ("/admin/stats/load", Method::Get, Endpoint::GetLoadAdmin),
        ("/admin/stats/load", Method::Delete, Endpoint::DeleteLoadAdmin),
        ("/admin/acme/:email", Method::Post, Endpoint::CreateAcmeAccount),
        (
            "/admin/acme/request/:project_name/:fqdn",
            Method::Post,
            Endpoint::RequestCustomDomainAcmeCertificate,
        ),
        (
            "/admin/acme/renew/:project_name/:fqdn",
            Method::Post,
            Endpoint::RenewCustomDomainAcmeCertificate,
        ),
        (
            "/admin/acme/gateway/renew",
            Method::Post,
            Endpoint::RenewGatewayAcmeCertificate,
        ),
    ];
    assert_eq!(expected.len(), 25);
    for (path, method, endpoint) in expected {
        assert_eq!(find(&router, path, method), endpoint);
    }
}

#[test]
fn no_certificates_without_tls() {
    let router = gateway(false).router;
    assert_eq!(router.routes.len(), 21);
    assert!(!router.routes.iter().any(|r| r.path.starts_with("/admin/acme")));
}

#[test]
fn non_admin_user_cannot_access_admin_routes() {
    for tls in [false, true] {
        for route in gateway(tls).router.routes {
            if route.path.starts_with("/admin/") && !route.path.starts_with("/admin/acme/") {
                assert_eq!(route.layers[0], Layer::Scoped(Scope::Admin));
            }
        }
    }
}

#[test]
fn layers_from_the_inside_out() {
    let router = gateway(true).router;
    let layers = |endpoint: Endpoint| {
        router.routes.iter().find(|r| r.endpoint == endpoint).unwrap().layers.clone()
    };
    let outer =
        [Layer::JwtAuthentication, Layer::ShuttleAuth, Layer::Metrics, Layer::Trace];
    let with = |inner: &[Layer]| [inner, &outer[..]].concat();
    assert_eq!(layers(Endpoint::GetStatus), with(&[]));
    assert_eq!(
        layers(Endpoint::CreateProject),
        with(&[Layer::Scoped(Scope::ProjectWrite), Layer::ProjectNameTracing])
    );
    assert_eq!(
        layers(Endpoint::CreateAcmeAccount),
        with(&[Layer::Scoped(Scope::AcmeCreate), Layer::AcmeClient, Layer::CertResolver])
    );
    assert_eq!(layers(Endpoint::RouteProject), with(&[Layer::ProjectNameTracing]));
    assert_eq!(
        router.fallback,
        vec![Layer::JwtAuthentication, Layer::ShuttleAuth, Layer::Trace]
    );
}

#[test]
fn gateway_goes_into_service() {
    let (address, api) = gateway(true).serve();
    assert_eq!(address, 8001);
    assert_eq!(api.state.service, "service");
    assert_eq!(api.state.sender, 1);
    assert_eq!(api.state.posthog_client, Some("posthog"));
    assert_eq!(api.acme, Some(("acme", "resolver")));
    let auth = api.auth.unwrap();
    assert_eq!(auth.auth_uri, "http://auth");
    assert_eq!(auth.gateway_admin_key, "dummykey");
    assert_eq!(auth.cache_size, 1000);
    let mut builds = api.state.running_builds;
    assert_eq!(builds.get_load_admin().builds_count, 0);
    assert!(builds.get_load_admin().has_capacity);
}

#[test]
fn gateway_without_client_for_events() {
    let builder: Builder = ApiBuilder::default();
    let api = builder
        .with_service("service")
        .with_sender(1)
        .with_default_routes()
        .with_auth_service("http://auth".to_owned(), "dummykey".to_owned())
        .into_router();
    assert_eq!(api.state.posthog_client, None);
    assert_eq!(api.router.routes.len(), 21);
    assert_eq!(api.router.fallback, vec![Layer::JwtAuthentication, Layer::ShuttleAuth]);
}

#[test]
fn versions_in_lockstep() {
    let info = versions("0.40.0");
    assert_eq!(info.gateway, "0.40.0");
    assert_eq!(info.cargo_shuttle, "0.40.0");
    assert_eq!(info.deployer, "0.40.0");
    assert_eq!(info.runtime, "0.40.0");
}

#[test]
fn routes_of_the_authentication_service() {
    let builder: auth::api::ApiBuilder<&str, &str> = auth::api::ApiBuilder::default();
    let expected = [
        ("/", Method::Get, auth::api::Endpoint::HealthCheck),
        ("/logout", Method::Post, auth::api::Endpoint::Logout),
        ("/auth/session", Method::Get, auth::api::Endpoint::ConvertCookie),
        ("/auth/key", Method::Get, auth::api::Endpoint::ConvertKey),
        ("/auth/refresh", Method::Post, auth::api::Endpoint::RefreshToken),
        ("/public-key", Method::Get, auth::api::Endpoint::GetPublicKey),
        ("/users/:account_name", Method::Get, auth::api::Endpoint::GetUser),
        (
            "/users/:account_name/:account_tier",
            Method::Post,
            auth::api::Endpoint::PostUser,
        ),
        (
            "/users/:account_name/:account_tier",
            Method::Put,
            auth::api::Endpoint::UpdateUserTier,
        ),
        ("/users/reset-api-key", Method::Put, auth::api::Endpoint::PutUserResetKey),
    ];
    assert_eq!(builder.router.routes.len(), expected.len());
    for (route, (path, method, endpoint)) in builder.router.routes.iter().zip(expected) {
        assert_eq!(route.path, path);
        assert_eq!(route.method, method);
        assert_eq!(route.endpoint, endpoint);
        assert_eq!(route.layers, vec![auth::api::Layer::Metrics, auth::api::Layer::Trace]);
    }
}

#[test]
fn authentication_service_goes_into_service() {
    let builder: auth::api::ApiBuilder<&str, &str> = auth::api::ApiBuilder::new();
    let api = builder
        .with_sqlite_pool("pool")
        .with_sessions(86_400)
        .with_stripe_client("stripe")
        .with_jwt_signing_private_key("key".to_owned())
        .into_router();
    assert_eq!(api.state.user_manager.pool, "pool");
    assert_eq!(api.state.user_manager.stripe_client, "stripe");
    assert_eq!(api.state.jwt_signing_private_key, "key");
    assert_eq!(api.sessions.cookie_name, "shuttle.sid");
    assert_eq!(api.sessions.ttl_secs, 86_400);
    assert!(api.sessions.secure);
    assert_eq!(api.sessions.secret.len(), 128);
    assert_ne!(api.sessions.secret, vec![0u8; 128]);
    for route in api.router.routes {
        assert_eq!(route.layers.last(), Some(&auth::api::Layer::Session));
    }
}

#[test]
fn nested_and_merged_tables() {
    let inner: Router<u8, char> =
        Router::new().route(Route::new("/b", Method::Get, 2).layer('x')).layer('y');
    let outer: Router<u8, char> = Router::new().route(Route::new("/a", Method::Put, 1)).layer('z');
    let nested = outer.nest("/p", inner);
    assert_eq!(nested.routes[0].path, "/a");
    assert_eq!(nested.routes[1].path, "/p/b");
    assert_eq!(nested.routes[1].layers, vec!['x', 'y']);
    assert_eq!(nested.fallback, vec!['z']);
    let other: Router<u8, char> = Router::new().route(Route::new("/c", Method::Any, 3));
    let merged = nested.merge(other).route_layer('w');
    assert_eq!(merged.routes.len(), 3);
    assert_eq!(merged.routes[2].layers, vec!['w']);
    assert_eq!(merged.fallback, Vec::<char>::new());
}
