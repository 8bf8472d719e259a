//! What holds of the API of a gateway in service.

use crate::gateway::api::{
    acme_added, auth_added, defaults_added, in_service, scope_of, traces_added, ApiBuilder,
    Endpoint, Layer, Scope,
};
use crate::routing::{no_routes, Method, RouteView, RouterView};
use vstd::prelude::*;

verus! {

/// Whether an endpoint has to do with certificates.
pub open spec fn about_certificates(endpoint: Endpoint) -> bool {
    endpoint is CreateAcmeAccount || endpoint is RequestCustomDomainAcmeCertificate
        || endpoint is RenewCustomDomainAcmeCertificate || endpoint is RenewGatewayAcmeCertificate
}

/// What every request to a gateway in service passes first, from the innermost layer to the
/// outermost.
pub open spec fn outer_layers() -> Seq<Layer> {
    seq![Layer::JwtAuthentication, Layer::ShuttleAuth, Layer::Metrics, Layer::Trace]
}

/// The routes of a gateway before the checks of who asks are put around them.
pub open spec fn inner_routes(tls: bool) -> Seq<RouteView<Endpoint, Layer>> {
    let base = if tls {
        acme_added(no_routes())
    } else {
        no_routes()
    };
    defaults_added(base).routes
}

proof fn lemma_in_service(tls: bool)
    ensures
        in_service(tls).routes.len() == inner_routes(tls).len(),
        forall|i: int|
            0 <= i < inner_routes(tls).len() ==> (#[trigger] in_service(tls).routes[i]) == (
            RouteView {
                layers: inner_routes(tls)[i].layers + outer_layers(),
                ..inner_routes(tls)[i]
            }),
{
    assert forall|i: int| 0 <= i < inner_routes(tls).len() implies (#[trigger] in_service(
        tls,
    ).routes[i]) == (RouteView {
        layers: inner_routes(tls)[i].layers + outer_layers(),
        ..inner_routes(tls)[i]
    }) by {
        let inner = inner_routes(tls)[i];
        assert(in_service(tls).routes[i].layers =~= inner.layers + outer_layers());
    }
}

/// Whether the layers of a route check for the scope that its endpoint needs, as the last thing
/// before the endpoint, and for no other.
pub open spec fn well_scoped(route: RouteView<Endpoint, Layer>) -> bool {
    match scope_of(route.endpoint) {
        Some(scope) => route.layers.len() > 0 && route.layers[0] == Layer::Scoped(scope)
            && forall|j: int|
            0 < j < route.layers.len() ==> !((#[trigger] route.layers[j]) is Scoped),
        None => forall|j: int|
            0 <= j < route.layers.len() ==> !((#[trigger] route.layers[j]) is Scoped),
    }
}

proof fn lemma_inner_well_scoped(tls: bool, i: int)
    requires
        0 <= i < inner_routes(tls).len(),
    ensures
        well_scoped(inner_routes(tls)[i]),
        about_certificates(inner_routes(tls)[i].endpoint) <==> tls && i < 4,
        inner_routes(tls).len() == if tls {
            25int
        } else {
            21int
        },
{
}

/// Nobody reaches an endpoint without being asked who they are: every route is behind the checks
/// of the user and the records of the request, and so is every request that no route takes.
pub proof fn law_every_request_is_authenticated(tls: bool, i: int)
    requires
        0 <= i < in_service(tls).routes.len(),
    ensures
        ({
            let layers = in_service(tls).routes[i].layers;
            layers.len() >= 4 && layers.skip(layers.len() - 4) == outer_layers()
        }),
        in_service(tls).fallback == seq![
            Layer::JwtAuthentication,
            Layer::ShuttleAuth,
            Layer::Trace,
        ],
{
    lemma_in_service(tls);
    let layers = in_service(tls).routes[i].layers;
    assert(layers.skip(layers.len() - 4) =~= outer_layers());
    assert(in_service(tls).fallback =~= seq![
        Layer::JwtAuthentication,
        Layer::ShuttleAuth,
        Layer::Trace,
    ]);
}

/// A request reaches an endpoint that needs a scope only if the user has it, and the scope is
/// checked after the user is known.
pub proof fn law_scopes_are_checked(tls: bool, i: int)
    requires
        0 <= i < in_service(tls).routes.len(),
    ensures
        well_scoped(in_service(tls).routes[i]),
{
    lemma_in_service(tls);
    lemma_inner_well_scoped(tls, i);
    let inner = inner_routes(tls)[i];
    let route = in_service(tls).routes[i];
    assert forall|j: int|
        inner.layers.len() <= j < route.layers.len() implies !((#[trigger] route.layers[j]) is Scoped) by {
        assert(route.layers[j] == outer_layers()[j - inner.layers.len()]);
    }
    assert forall|j: int| 0 <= j < inner.layers.len() implies (#[trigger] route.layers[j])
        == inner.layers[j] by {}
}

/// Only administrators reach what is below `/admin`, as far as it has nothing to do with
/// certificates.
pub proof fn law_admin_routes_are_for_administrators(tls: bool, i: int, path: Seq<char>)
    requires
        0 <= i < in_service(tls).routes.len(),
        in_service(tls).routes[i].path == "/admin"@ + path,
        !about_certificates(in_service(tls).routes[i].endpoint),
    ensures
        scope_of(in_service(tls).routes[i].endpoint) == Some(Scope::Admin),
        in_service(tls).routes[i].layers[0] == Layer::Scoped(Scope::Admin),
{
    lemma_in_service(tls);
    lemma_inner_well_scoped(tls, i);
    law_scopes_are_checked(tls, i);
    reveal_strlit("/admin");
    reveal_strlit("/");
    reveal_strlit("/projects/:project_name");
    reveal_strlit("/projects/:project_name/delete");
    reveal_strlit("/projects/name/:project_name");
    reveal_strlit("/projects/:project_name/services/:service_name");
    reveal_strlit("/projects/:project_name/*any");
    reveal_strlit("/versions");
    reveal_strlit("/version/cargo-shuttle");
    reveal_strlit("/projects");
    reveal_strlit("/stats/load");
    let route = in_service(tls).routes[i];
    assert(route.path.len() >= 6);
    assert(route.path[1] == 'a');
}

/// The routes that have to do with certificates are there exactly if the gateway is given the
/// means for that.
pub proof fn law_certificates_need_tls(tls: bool)
    ensures
        (exists|i: int|
            0 <= i < in_service(tls).routes.len() && about_certificates(
                (#[trigger] in_service(tls).routes[i]).endpoint,
            )) <==> tls,
{
    lemma_in_service(tls);
    assert forall|i: int| 0 <= i < in_service(tls).routes.len() implies (about_certificates(
        (#[trigger] in_service(tls).routes[i]).endpoint,
    ) <==> tls && i < 4) by {
        lemma_inner_well_scoped(tls, i);
    }
    if tls {
        lemma_inner_well_scoped(tls, 0);
        assert(about_certificates(in_service(tls).routes[0].endpoint));
    }
}

/// Each endpoint answers at its own path, to requests of its own method.
pub proof fn law_address_of_each_endpoint(tls: bool, i: int)
    requires
        0 <= i < in_service(tls).routes.len(),
    ensures
        ({
            let route = in_service(tls).routes[i];
            match route.endpoint {
                Endpoint::GetStatus => route.path == "/"@ && route.method == Method::Get,
                Endpoint::GetProject => route.path == "/projects/:project_name"@ && route.method == Method::Get,
                Endpoint::DestroyProject => route.path == "/projects/:project_name"@ && route.method == Method::Delete,
                Endpoint::CreateProject => route.path == "/projects/:project_name"@ && route.method == Method::Post,
                Endpoint::DeleteProject => route.path == "/projects/:project_name/delete"@ && route.method == Method::Delete,
                Endpoint::CheckProjectName => route.path == "/projects/name/:project_name"@ && route.method == Method::Get,
                Endpoint::OverrideCreateService => route.path == "/projects/:project_name/services/:service_name"@ && route.method == Method::Post,
                Endpoint::OverrideGetDeleteService => route.path == "/projects/:project_name/services/:service_name"@ && (route.method == Method::Get || route.method == Method::Delete),
                Endpoint::RouteProject => route.path == "/projects/:project_name/*any"@ && route.method == Method::Any,
                Endpoint::GetVersions => route.path == "/versions"@ && route.method == Method::Get,
                Endpoint::GetCargoShuttleVersion => route.path == "/version/cargo-shuttle"@ && route.method == Method::Get,
                Endpoint::GetProjectsList => route.path == "/projects"@ && route.method == Method::Get,
                Endpoint::PostLoad => route.path == "/stats/load"@ && route.method == Method::Post,
                Endpoint::DeleteLoad => route.path == "/stats/load"@ && route.method == Method::Delete,
                Endpoint::GetProjects => route.path == "/admin/projects"@ && route.method == Method::Get,
                Endpoint::ReviveProjects => route.path == "/admin/revive"@ && route.method == Method::Post,
                Endpoint::DestroyProjects => route.path == "/admin/destroy"@ && route.method == Method::Post,
                Endpoint::IdleCchProjects => route.path == "/admin/idle-cch"@ && route.method == Method::Post,
                Endpoint::GetLoadAdmin => route.path == "/admin/stats/load"@ && route.method == Method::Get,
                Endpoint::DeleteLoadAdmin => route.path == "/admin/stats/load"@ && route.method == Method::Delete,
                Endpoint::CreateAcmeAccount => route.path == "/admin/acme/:email"@ && route.method == Method::Post,
                Endpoint::RequestCustomDomainAcmeCertificate => route.path == "/admin/acme/request/:project_name/:fqdn"@ && route.method == Method::Post,
                Endpoint::RenewCustomDomainAcmeCertificate => route.path == "/admin/acme/renew/:project_name/:fqdn"@ && route.method == Method::Post,
                Endpoint::RenewGatewayAcmeCertificate => route.path == "/admin/acme/gateway/renew"@ && route.method == Method::Post,
            }
        }),
{
    lemma_in_service(tls);
    reveal_strlit("/admin");
    reveal_strlit("/projects");
    reveal_strlit("/revive");
    reveal_strlit("/destroy");
    reveal_strlit("/idle-cch");
    reveal_strlit("/stats/load");
    reveal_strlit("/admin/projects");
    reveal_strlit("/admin/revive");
    reveal_strlit("/admin/destroy");
    reveal_strlit("/admin/idle-cch");
    reveal_strlit("/admin/stats/load");
    assert("/admin"@ + "/projects"@ =~= "/admin/projects"@);
    assert("/admin"@ + "/revive"@ =~= "/admin/revive"@);
    assert("/admin"@ + "/destroy"@ =~= "/admin/destroy"@);
    assert("/admin"@ + "/idle-cch"@ =~= "/admin/idle-cch"@);
    assert("/admin"@ + "/stats/load"@ =~= "/admin/stats/load"@);
    let inner = inner_routes(tls)[i];
    assert(in_service(tls).routes[i].path == inner.path);
}

/// What a request passes to reach an endpoint, inside of the checks of who asks: what checks for
/// the scope that the endpoint needs, and what the endpoint works with.
pub proof fn law_layers_of_each_endpoint(tls: bool, i: int)
    requires
        0 <= i < in_service(tls).routes.len(),
    ensures
        ({
            let route = in_service(tls).routes[i];
            let before = route.layers.take(route.layers.len() - 4);
            &&& route.layers.len() >= 4
            &&& route.layers == before + seq![
                Layer::JwtAuthentication,
                Layer::ShuttleAuth,
                Layer::Metrics,
                Layer::Trace,
            ]
            &&& match route.endpoint {
                Endpoint::GetStatus => before == Seq::<Layer>::empty(),
                Endpoint::GetProject => before == seq![Layer::Scoped(Scope::Project), Layer::ProjectNameTracing],
                Endpoint::DestroyProject => before == seq![Layer::Scoped(Scope::ProjectWrite), Layer::ProjectNameTracing],
                Endpoint::CreateProject => before == seq![Layer::Scoped(Scope::ProjectWrite), Layer::ProjectNameTracing],
                Endpoint::DeleteProject => before == seq![Layer::Scoped(Scope::ProjectWrite), Layer::ProjectNameTracing],
                Endpoint::CheckProjectName => before == seq![Layer::ProjectNameTracing],
                Endpoint::OverrideCreateService => before == seq![Layer::ProjectNameTracing],
                Endpoint::OverrideGetDeleteService => before == seq![Layer::ProjectNameTracing],
                Endpoint::RouteProject => before == seq![Layer::ProjectNameTracing],
                Endpoint::GetVersions => before == Seq::<Layer>::empty(),
                Endpoint::GetCargoShuttleVersion => before == Seq::<Layer>::empty(),
                Endpoint::GetProjectsList => before == seq![Layer::Scoped(Scope::Project)],
                Endpoint::PostLoad => before == Seq::<Layer>::empty(),
                Endpoint::DeleteLoad => before == Seq::<Layer>::empty(),
                Endpoint::GetProjects => before == seq![Layer::Scoped(Scope::Admin)],
                Endpoint::ReviveProjects => before == seq![Layer::Scoped(Scope::Admin)],
                Endpoint::DestroyProjects => before == seq![Layer::Scoped(Scope::Admin)],
                Endpoint::IdleCchProjects => before == seq![Layer::Scoped(Scope::Admin)],
                Endpoint::GetLoadAdmin => before == seq![Layer::Scoped(Scope::Admin)],
                Endpoint::DeleteLoadAdmin => before == seq![Layer::Scoped(Scope::Admin)],
                Endpoint::CreateAcmeAccount => before == seq![Layer::Scoped(Scope::AcmeCreate), Layer::AcmeClient, Layer::CertResolver],
                Endpoint::RequestCustomDomainAcmeCertificate => before == seq![Layer::Scoped(Scope::CustomDomainCreate), Layer::AcmeClient, Layer::CertResolver],
                Endpoint::RenewCustomDomainAcmeCertificate => before == seq![Layer::Scoped(Scope::CustomDomainCertificateRenew), Layer::AcmeClient, Layer::CertResolver],
                Endpoint::RenewGatewayAcmeCertificate => before == seq![Layer::Scoped(Scope::GatewayCertificateRenew), Layer::AcmeClient, Layer::CertResolver],
            }
        }),
{
    lemma_in_service(tls);
    let inner = inner_routes(tls)[i];
    let route = in_service(tls).routes[i];
    assert(route.layers.take(route.layers.len() - 4) =~= inner.layers);
    lemma_inner_layers(tls, i);
}

proof fn lemma_inner_layers(tls: bool, i: int)
    requires
        0 <= i < inner_routes(tls).len(),
    ensures
        ({
            let before = inner_routes(tls)[i].layers;
            match inner_routes(tls)[i].endpoint {
                Endpoint::GetStatus => before == Seq::<Layer>::empty(),
                Endpoint::GetProject => before == seq![Layer::Scoped(Scope::Project), Layer::ProjectNameTracing],
                Endpoint::DestroyProject => before == seq![Layer::Scoped(Scope::ProjectWrite), Layer::ProjectNameTracing],
                Endpoint::CreateProject => before == seq![Layer::Scoped(Scope::ProjectWrite), Layer::ProjectNameTracing],
                Endpoint::DeleteProject => before == seq![Layer::Scoped(Scope::ProjectWrite), Layer::ProjectNameTracing],
                Endpoint::CheckProjectName => before == seq![Layer::ProjectNameTracing],
                Endpoint::OverrideCreateService => before == seq![Layer::ProjectNameTracing],
                Endpoint::OverrideGetDeleteService => before == seq![Layer::ProjectNameTracing],
                Endpoint::RouteProject => before == seq![Layer::ProjectNameTracing],
                Endpoint::GetVersions => before == Seq::<Layer>::empty(),
                Endpoint::GetCargoShuttleVersion => before == Seq::<Layer>::empty(),
                Endpoint::GetProjectsList => before == seq![Layer::Scoped(Scope::Project)],
                Endpoint::PostLoad => before == Seq::<Layer>::empty(),
                Endpoint::DeleteLoad => before == Seq::<Layer>::empty(),
                Endpoint::GetProjects => before == seq![Layer::Scoped(Scope::Admin)],
                Endpoint::ReviveProjects => before == seq![Layer::Scoped(Scope::Admin)],
                Endpoint::DestroyProjects => before == seq![Layer::Scoped(Scope::Admin)],
                Endpoint::IdleCchProjects => before == seq![Layer::Scoped(Scope::Admin)],
                Endpoint::GetLoadAdmin => before == seq![Layer::Scoped(Scope::Admin)],
                Endpoint::DeleteLoadAdmin => before == seq![Layer::Scoped(Scope::Admin)],
                Endpoint::CreateAcmeAccount => before == seq![Layer::Scoped(Scope::AcmeCreate), Layer::AcmeClient, Layer::CertResolver],
                Endpoint::RequestCustomDomainAcmeCertificate => before == seq![Layer::Scoped(Scope::CustomDomainCreate), Layer::AcmeClient, Layer::CertResolver],
                Endpoint::RenewCustomDomainAcmeCertificate => before == seq![Layer::Scoped(Scope::CustomDomainCertificateRenew), Layer::AcmeClient, Layer::CertResolver],
                Endpoint::RenewGatewayAcmeCertificate => before == seq![Layer::Scoped(Scope::GatewayCertificateRenew), Layer::AcmeClient, Layer::CertResolver],
            }
        }),
{
    let before = inner_routes(tls)[i].layers;
    match inner_routes(tls)[i].endpoint {
        Endpoint::GetStatus => assert(before =~= Seq::<Layer>::empty()),
        Endpoint::GetProject => assert(before =~= seq![Layer::Scoped(Scope::Project), Layer::ProjectNameTracing]),
        Endpoint::DestroyProject => assert(before =~= seq![Layer::Scoped(Scope::ProjectWrite), Layer::ProjectNameTracing]),
        Endpoint::CreateProject => assert(before =~= seq![Layer::Scoped(Scope::ProjectWrite), Layer::ProjectNameTracing]),
        Endpoint::DeleteProject => assert(before =~= seq![Layer::Scoped(Scope::ProjectWrite), Layer::ProjectNameTracing]),
        Endpoint::CheckProjectName => assert(before =~= seq![Layer::ProjectNameTracing]),
        Endpoint::OverrideCreateService => assert(before =~= seq![Layer::ProjectNameTracing]),
        Endpoint::OverrideGetDeleteService => assert(before =~= seq![Layer::ProjectNameTracing]),
        Endpoint::RouteProject => assert(before =~= seq![Layer::ProjectNameTracing]),
        Endpoint::GetVersions => assert(before =~= Seq::<Layer>::empty()),
        Endpoint::GetCargoShuttleVersion => assert(before =~= Seq::<Layer>::empty()),
        Endpoint::GetProjectsList => assert(before =~= seq![Layer::Scoped(Scope::Project)]),
        Endpoint::PostLoad => assert(before =~= Seq::<Layer>::empty()),
        Endpoint::DeleteLoad => assert(before =~= Seq::<Layer>::empty()),
        Endpoint::GetProjects => assert(before =~= seq![Layer::Scoped(Scope::Admin)]),
        Endpoint::ReviveProjects => assert(before =~= seq![Layer::Scoped(Scope::Admin)]),
        Endpoint::DestroyProjects => assert(before =~= seq![Layer::Scoped(Scope::Admin)]),
        Endpoint::IdleCchProjects => assert(before =~= seq![Layer::Scoped(Scope::Admin)]),
        Endpoint::GetLoadAdmin => assert(before =~= seq![Layer::Scoped(Scope::Admin)]),
        Endpoint::DeleteLoadAdmin => assert(before =~= seq![Layer::Scoped(Scope::Admin)]),
        Endpoint::CreateAcmeAccount => assert(before =~= seq![Layer::Scoped(Scope::AcmeCreate), Layer::AcmeClient, Layer::CertResolver]),
        Endpoint::RequestCustomDomainAcmeCertificate => assert(before =~= seq![Layer::Scoped(Scope::CustomDomainCreate), Layer::AcmeClient, Layer::CertResolver]),
        Endpoint::RenewCustomDomainAcmeCertificate => assert(before =~= seq![Layer::Scoped(Scope::CustomDomainCertificateRenew), Layer::AcmeClient, Layer::CertResolver]),
        Endpoint::RenewGatewayAcmeCertificate => assert(before =~= seq![Layer::Scoped(Scope::GatewayCertificateRenew), Layer::AcmeClient, Layer::CertResolver]),
    }
}

/// Every endpoint is reached, those that have to do with certificates if the gateway is given the
/// means for that. What answers for the services of a project is reached by two methods.
pub proof fn law_every_endpoint_is_reached(tls: bool, endpoint: Endpoint)
    requires
        about_certificates(endpoint) ==> tls,
    ensures
        exists|i: int|
            0 <= i < in_service(tls).routes.len() && (#[trigger] in_service(tls).routes[i]).endpoint
                == endpoint,
        exists|i: int|
            0 <= i < in_service(tls).routes.len() && (#[trigger] in_service(tls).routes[i]).endpoint
                == Endpoint::OverrideGetDeleteService && in_service(tls).routes[i].method
                == Method::Get,
        exists|i: int|
            0 <= i < in_service(tls).routes.len() && (#[trigger] in_service(tls).routes[i]).endpoint
                == Endpoint::OverrideGetDeleteService && in_service(tls).routes[i].method
                == Method::Delete,
{
    lemma_in_service(tls);
    lemma_inner_well_scoped(tls, 0);
    let base: int = if tls {
        4
    } else {
        0
    };
    let i: int = match endpoint {
        Endpoint::GetStatus => base + 0,
        Endpoint::GetProject => base + 1,
        Endpoint::DestroyProject => base + 2,
        Endpoint::CreateProject => base + 3,
        Endpoint::DeleteProject => base + 4,
        Endpoint::CheckProjectName => base + 5,
        Endpoint::OverrideCreateService => base + 6,
        Endpoint::OverrideGetDeleteService => base + 7,
        Endpoint::RouteProject => base + 9,
        Endpoint::GetVersions => base + 10,
        Endpoint::GetCargoShuttleVersion => base + 11,
        Endpoint::GetProjectsList => base + 12,
        Endpoint::PostLoad => base + 13,
        Endpoint::DeleteLoad => base + 14,
        Endpoint::GetProjects => base + 15,
        Endpoint::ReviveProjects => base + 16,
        Endpoint::DestroyProjects => base + 17,
        Endpoint::IdleCchProjects => base + 18,
        Endpoint::GetLoadAdmin => base + 19,
        Endpoint::DeleteLoadAdmin => base + 20,
        Endpoint::CreateAcmeAccount => 0,
        Endpoint::RequestCustomDomainAcmeCertificate => 1,
        Endpoint::RenewCustomDomainAcmeCertificate => 2,
        Endpoint::RenewGatewayAcmeCertificate => 3,
    };
    assert(in_service(tls).routes[i].endpoint == inner_routes(tls)[i].endpoint);
    assert(in_service(tls).routes[i].endpoint == endpoint);
    assert(in_service(tls).routes[base + 7].endpoint == inner_routes(tls)[base + 7].endpoint);
    assert(in_service(tls).routes[base + 8].endpoint == inner_routes(tls)[base + 8].endpoint);
}

/// No endpoint has two routes for the same method.
pub proof fn law_one_route_for_each_method(tls: bool, i: int, j: int)
    requires
        0 <= i < j < in_service(tls).routes.len(),
    ensures
        in_service(tls).routes[i].endpoint != in_service(tls).routes[j].endpoint
            || in_service(tls).routes[i].method != in_service(tls).routes[j].method,
{
    lemma_in_service(tls);
    assert(in_service(tls).routes[i].endpoint == inner_routes(tls)[i].endpoint);
    assert(in_service(tls).routes[j].endpoint == inner_routes(tls)[j].endpoint);
    assert(in_service(tls).routes[i].method == inner_routes(tls)[i].method);
    assert(in_service(tls).routes[j].method == inner_routes(tls)[j].method);
}

/// What a builder has is kept when routes are added, and comes first. The routes that have to do
/// with certificates put what these need around every route that is there, and the checks of who
/// asks and the records of what is asked go around everything.
pub proof fn law_routes_are_added(base: RouterView<Endpoint, Layer>, i: int)
    requires
        0 <= i < base.routes.len(),
    ensures
        defaults_added(base).routes.len() == base.routes.len() + 21,
        defaults_added(base).routes[i] == base.routes[i],
        acme_added(base).routes.len() == base.routes.len() + 4,
        acme_added(base).routes[i] == (RouteView {
            layers: base.routes[i].layers + seq![Layer::AcmeClient, Layer::CertResolver],
            ..base.routes[i]
        }),
        auth_added(base).routes.len() == base.routes.len(),
        auth_added(base).routes[i] == (RouteView {
            layers: base.routes[i].layers + seq![Layer::JwtAuthentication, Layer::ShuttleAuth],
            ..base.routes[i]
        }),
        traces_added(base).routes.len() == base.routes.len(),
        traces_added(base).routes[i] == (RouteView {
            layers: base.routes[i].layers + seq![Layer::Metrics, Layer::Trace],
            ..base.routes[i]
        }),
{
    let l = base.routes[i].layers;
    assert(acme_added(base).routes[i].layers =~= l + seq![Layer::AcmeClient, Layer::CertResolver]);
    assert(auth_added(base).routes[i].layers =~= l + seq![
        Layer::JwtAuthentication,
        Layer::ShuttleAuth,
    ]);
    assert(traces_added(base).routes[i].layers =~= l + seq![Layer::Metrics, Layer::Trace]);
}

/// The routes that are added do not depend on those that are there.
pub proof fn law_added_routes_are_the_same(base: RouterView<Endpoint, Layer>, i: int)
    ensures
        0 <= i < 21 ==> defaults_added(base).routes[base.routes.len() + i] == defaults_added(
            no_routes(),
        ).routes[i],
        0 <= i < 4 ==> acme_added(base).routes[base.routes.len() + i] == acme_added(
            no_routes(),
        ).routes[i],
{
}

/// What a request passes that no route takes: the means for certificates and the checks of who asks
/// add to it, the records only trace it, and it starts anew with the routes that are always there.
pub proof fn law_requests_that_no_route_takes(base: RouterView<Endpoint, Layer>)
    ensures
        defaults_added(base).fallback == Seq::<Layer>::empty(),
        acme_added(base).fallback == base.fallback + seq![Layer::AcmeClient, Layer::CertResolver],
        auth_added(base).fallback == base.fallback + seq![
            Layer::JwtAuthentication,
            Layer::ShuttleAuth,
        ],
        traces_added(base).fallback == base.fallback + seq![Layer::Trace],
{
    assert(acme_added(base).fallback =~= base.fallback + seq![
        Layer::AcmeClient,
        Layer::CertResolver,
    ]);
    assert(auth_added(base).fallback =~= base.fallback + seq![
        Layer::JwtAuthentication,
        Layer::ShuttleAuth,
    ]);
    assert(traces_added(base).fallback =~= base.fallback + seq![Layer::Trace]);
}

/// The settings of a builder are all that it has but its routes, and an API can be made as soon as
/// the service and the sender are set.
pub proof fn law_settings_of_a_builder<S, Q, P, A, C, R>(
    a: ApiBuilder<S, Q, P, A, C, R>,
    b: ApiBuilder<S, Q, P, A, C, R>,
)
    ensures
        a.same_settings(b) <==> a == (ApiBuilder { router: a.router, ..b }),
        a.complete() <==> a.service is Some && a.sender is Some,
{
}

} // verus!
