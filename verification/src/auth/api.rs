//! The API of the authentication service.

use crate::routing::{Method, Route, RouteView, Router, RouterView};
use vstd::prelude::*;

verus! {

/// The name of the cookie that carries a session.
pub const COOKIE_NAME: &'static str = "shuttle.sid";

/// The bytes of the secret that sessions are signed with.
pub const SECRET_LEN: usize = 128;

/// What answers a request.
#[derive(Debug, Clone, Copy, PartialEq, Eq, Structural)]
pub enum Endpoint {
    HealthCheck,
    Logout,
    ConvertCookie,
    ConvertKey,
    RefreshToken,
    GetPublicKey,
    GetUser,
    PostUser,
    UpdateUserTier,
    PutUserResetKey,
}

/// What a request passes on its way to an endpoint.
#[derive(Debug, Clone, Copy, PartialEq, Eq, Structural)]
pub enum Layer {
    /// The request is counted.
    Metrics,
    /// The request is traced.
    Trace,
    /// The session of the user is at hand.
    Session,
}

/// A route of the service, whose requests are counted and traced.
pub open spec fn entry(path: Seq<char>, method: Method, endpoint: Endpoint) -> RouteView<
    Endpoint,
    Layer,
> {
    RouteView { path, method, endpoint, layers: seq![Layer::Metrics, Layer::Trace] }
}

/// The routes of the service.
pub open spec fn table() -> RouterView<Endpoint, Layer> {
    RouterView {
        routes: seq![
            entry("/"@, Method::Get, Endpoint::HealthCheck),
            entry("/logout"@, Method::Post, Endpoint::Logout),
            entry("/auth/session"@, Method::Get, Endpoint::ConvertCookie),
            entry("/auth/key"@, Method::Get, Endpoint::ConvertKey),
            entry("/auth/refresh"@, Method::Post, Endpoint::RefreshToken),
            entry("/public-key"@, Method::Get, Endpoint::GetPublicKey),
            entry("/users/:account_name"@, Method::Get, Endpoint::GetUser),
            entry("/users/:account_name/:account_tier"@, Method::Post, Endpoint::PostUser),
            entry("/users/:account_name/:account_tier"@, Method::Put, Endpoint::UpdateUserTier),
            entry("/users/reset-api-key"@, Method::Put, Endpoint::PutUserResetKey),
        ],
        fallback: seq![Layer::Trace],
    }
}

/// How sessions are kept.
#[derive(Debug, PartialEq, Eq)]
pub struct SessionSettings {
    pub cookie_name: String,
    /// What sessions are signed with.
    pub secret: Vec<u8>,
    /// The seconds after which a session ends.
    pub ttl_secs: u64,
    /// Whether the cookie is sent over secure connections alone.
    pub secure: bool,
}

/// A [`SessionSettings`] as contracts speak of it.
pub struct SessionSettingsView {
    pub cookie_name: Seq<char>,
    pub secret: Seq<u8>,
    pub ttl_secs: u64,
    pub secure: bool,
}

impl View for SessionSettings {
    type V = SessionSettingsView;

    open spec fn view(&self) -> SessionSettingsView {
        SessionSettingsView {
            cookie_name: self.cookie_name@,
            secret: self.secret@,
            ttl_secs: self.ttl_secs,
            secure: self.secure,
        }
    }
}

/// Sessions that are signed with this secret and end after this many seconds.
pub open spec fn sessions(secret: Seq<u8>, cookie_expiration_secs: u64) -> SessionSettingsView {
    SessionSettingsView {
        cookie_name: COOKIE_NAME@,
        secret,
        ttl_secs: cookie_expiration_secs,
        secure: true,
    }
}

impl SessionSettings {
    /// Sessions that are signed with this secret and end after this many seconds.
    pub fn new(secret: Vec<u8>, cookie_expiration_secs: u64) -> (r: Self)
        ensures
            r@ == sessions(secret@, cookie_expiration_secs),
            r.cookie_name@ == "shuttle.sid"@,
            r.secret@ == secret@,
            r.ttl_secs == cookie_expiration_secs,
            r.secure,
    {
        SessionSettings {
            cookie_name: COOKIE_NAME.to_owned(),
            secret,
            ttl_secs: cookie_expiration_secs,
            secure: true,
        }
    }
}

/// Fills a buffer by `rand::RngCore::fill_bytes` with the generator of the thread. What the bytes
/// are is up to chance; there are as many as before.
#[verifier::external_body]
fn fill_random(buffer: Vec<u8>) -> (r: Vec<u8>)
    ensures
        r@.len() == buffer@.len(),
{
    let mut bytes = buffer;
    rand::RngCore::fill_bytes(&mut rand::thread_rng(), &mut bytes[..]);
    bytes
}

/// Random bytes for a secret.
fn random_secret() -> (r: Vec<u8>)
    ensures
        r@.len() == SECRET_LEN,
{
    let mut buffer: Vec<u8> = Vec::new();
    while buffer.len() < SECRET_LEN
        invariant
            buffer@.len() <= SECRET_LEN,
        decreases SECRET_LEN - buffer@.len(),
    {
        buffer.push(0);
    }
    fill_random(buffer)
}

/// What keeps the users: a pool of connections to their store and a client for their payments.
pub struct UserManager<P, C> {
    pub pool: P,
    pub stripe_client: C,
}

/// What the endpoints of the service work with.
pub struct RouterState<P, C> {
    pub user_manager: UserManager<P, C>,
    /// The key that tokens are signed with.
    pub jwt_signing_private_key: String,
}

/// The API of the service, ready to be served.
pub struct Api<P, C> {
    pub router: Router<Endpoint, Layer>,
    pub state: RouterState<P, C>,
    pub sessions: SessionSettings,
}

/// Puts together the API of the service.
///
/// The types stand for a pool of connections and a client for payments.
pub struct ApiBuilder<P, C> {
    pub router: Router<Endpoint, Layer>,
    pub pool: Option<P>,
    pub session_layer: Option<SessionSettings>,
    pub stripe_client: Option<C>,
    pub jwt_signing_private_key: Option<String>,
}

impl<P, C> Default for ApiBuilder<P, C> {
    fn default() -> (r: Self)
        ensures
            r.is_new(),
    {
        ApiBuilder::new()
    }
}

impl<P, C> ApiBuilder<P, C> {
    /// Whether nothing but the routes was set.
    pub open spec fn is_new(self) -> bool {
        &&& self.router@ == table()
        &&& self.pool is None
        &&& self.session_layer is None
        &&& self.stripe_client is None
        &&& self.jwt_signing_private_key is None
    }

    /// Whether an API can be made.
    pub open spec fn complete(self) -> bool {
        &&& self.pool is Some
        &&& self.session_layer is Some
        &&& self.stripe_client is Some
        &&& self.jwt_signing_private_key is Some
    }

    /// A builder with the routes of the service.
    pub fn new() -> (r: Self)
        ensures
            r.is_new(),
            r.pool is None && r.session_layer is None,
            r.stripe_client is None && r.jwt_signing_private_key is None,
    {
        let router = Router::new().route(
            Route::new("/", Method::Get, Endpoint::HealthCheck),
        ).route(Route::new("/logout", Method::Post, Endpoint::Logout)).route(
            Route::new("/auth/session", Method::Get, Endpoint::ConvertCookie),
        ).route(Route::new("/auth/key", Method::Get, Endpoint::ConvertKey)).route(
            Route::new("/auth/refresh", Method::Post, Endpoint::RefreshToken),
        ).route(Route::new("/public-key", Method::Get, Endpoint::GetPublicKey)).route(
            Route::new("/users/:account_name", Method::Get, Endpoint::GetUser),
        ).route(
            Route::new("/users/:account_name/:account_tier", Method::Post, Endpoint::PostUser),
        ).route(
            Route::new("/users/:account_name/:account_tier", Method::Put, Endpoint::UpdateUserTier),
        ).route(
            Route::new("/users/reset-api-key", Method::Put, Endpoint::PutUserResetKey),
        ).route_layer(Layer::Metrics).layer(Layer::Trace);
        assert(router@ =~~= table());
        ApiBuilder {
            router,
            pool: None,
            session_layer: None,
            stripe_client: None,
            jwt_signing_private_key: None,
        }
    }

    /// Sets the connections to the store of users.
    pub fn with_sqlite_pool(self, pool: P) -> (r: Self)
        ensures
            r == (ApiBuilder { pool: Some(pool), ..self }),
    {
        ApiBuilder { pool: Some(pool), ..self }
    }

    /// Keeps sessions that end after this many seconds, signed with a new secret.
    pub fn with_sessions(self, cookie_expiration_secs: u64) -> (r: Self)
        ensures
            r == (ApiBuilder { session_layer: r.session_layer, ..self }),
            r.session_layer matches Some(s) && s@.secret.len() == SECRET_LEN && s@ == sessions(
                s@.secret,
                cookie_expiration_secs,
            ),
            r.session_layer matches Some(s) && s.cookie_name@ == "shuttle.sid"@ && s.secret@.len()
                == 128 && s.ttl_secs == cookie_expiration_secs && s.secure,
    {
        ApiBuilder {
            session_layer: Some(SessionSettings::new(random_secret(), cookie_expiration_secs)),
            ..self
        }
    }

    /// Sets the client for payments.
    pub fn with_stripe_client(self, stripe_client: C) -> (r: Self)
        ensures
            r == (ApiBuilder { stripe_client: Some(stripe_client), ..self }),
    {
        ApiBuilder { stripe_client: Some(stripe_client), ..self }
    }

    /// Sets the key that tokens are signed with.
    pub fn with_jwt_signing_private_key(self, private_key: String) -> (r: Self)
        ensures
            r == (ApiBuilder { jwt_signing_private_key: Some(private_key), ..self }),
    {
        ApiBuilder { jwt_signing_private_key: Some(private_key), ..self }
    }

    /// The API. Everything has to be set.
    pub fn into_router(self) -> (r: Api<P, C>)
        requires
            self.complete(),
        ensures
            r.router@ == self.router@.within(Layer::Session),
            r.router@.fallback == self.router.fallback@ + seq![Layer::Session],
            r.state.user_manager.pool == self.pool->0,
            r.state.user_manager.stripe_client == self.stripe_client->0,
            r.state.jwt_signing_private_key == self.jwt_signing_private_key->0,
            r.sessions == self.session_layer->0,
    {
        let router = self.router.layer(Layer::Session);
        assert(router@.fallback =~= self.router.fallback@ + seq![Layer::Session]);
        Api {
            router,
            state: RouterState {
                user_manager: UserManager {
                    pool: self.pool.unwrap(),
                    stripe_client: self.stripe_client.unwrap(),
                },
                jwt_signing_private_key: self.jwt_signing_private_key.unwrap(),
            },
            sessions: self.session_layer.unwrap(),
        }
    }
}

/// Every endpoint of the service has the session of the user at hand, and every request is counted
/// and traced within it.
pub proof fn law_every_route_has_sessions(i: int)
    requires
        0 <= i < table().within(Layer::Session).routes.len(),
    ensures
        table().within(Layer::Session).routes[i].layers == seq![
            Layer::Metrics,
            Layer::Trace,
            Layer::Session,
        ],
{
    assert(table().within(Layer::Session).routes[i].layers =~= seq![
        Layer::Metrics,
        Layer::Trace,
        Layer::Session,
    ]);
}

/// Each endpoint answers at its own path, to requests of its own method.
pub proof fn law_address_of_each_endpoint(i: int)
    requires
        0 <= i < table().routes.len(),
    ensures
        ({
            let route = table().routes[i];
            match route.endpoint {
                Endpoint::HealthCheck => route.path == "/"@ && route.method == Method::Get,
                Endpoint::Logout => route.path == "/logout"@ && route.method == Method::Post,
                Endpoint::ConvertCookie => route.path == "/auth/session"@ && route.method == Method::Get,
                Endpoint::ConvertKey => route.path == "/auth/key"@ && route.method == Method::Get,
                Endpoint::RefreshToken => route.path == "/auth/refresh"@ && route.method == Method::Post,
                Endpoint::GetPublicKey => route.path == "/public-key"@ && route.method == Method::Get,
                Endpoint::GetUser => route.path == "/users/:account_name"@ && route.method == Method::Get,
                Endpoint::PostUser => route.path == "/users/:account_name/:account_tier"@ && route.method == Method::Post,
                Endpoint::UpdateUserTier => route.path == "/users/:account_name/:account_tier"@ && route.method == Method::Put,
                Endpoint::PutUserResetKey => route.path == "/users/reset-api-key"@ && route.method == Method::Put,
            }
        }),
{
}

/// Every endpoint is reached, and by one route alone. A request that no route takes is traced.
pub proof fn law_every_endpoint_is_reached(endpoint: Endpoint, i: int, j: int)
    ensures
        exists|k: int|
            0 <= k < table().routes.len() && (#[trigger] table().routes[k]).endpoint == endpoint,
        0 <= i < j < table().routes.len() ==> table().routes[i].endpoint
            != table().routes[j].endpoint,
        table().fallback == seq![Layer::Trace],
{
    let k: int = match endpoint {
        Endpoint::HealthCheck => 0,
        Endpoint::Logout => 1,
        Endpoint::ConvertCookie => 2,
        Endpoint::ConvertKey => 3,
        Endpoint::RefreshToken => 4,
        Endpoint::GetPublicKey => 5,
        Endpoint::GetUser => 6,
        Endpoint::PostUser => 7,
        Endpoint::UpdateUserTier => 8,
        Endpoint::PutUserResetKey => 9,
    };
    assert(table().routes[k].endpoint == endpoint);
}

/// Contracts see all of the settings of sessions.
pub proof fn law_settings_are_seen_whole(s: SessionSettings)
    ensures
        s@.cookie_name == s.cookie_name@,
        s@.secret == s.secret@,
        s@.ttl_secs == s.ttl_secs,
        s@.secure == s.secure,
{
}

/// Sessions are signed with the secret that is given and end after the seconds that are given. Their
/// cookie is sent over secure connections alone.
pub proof fn law_sessions_as_asked_for(secret: Seq<u8>, cookie_expiration_secs: u64)
    ensures
        sessions(secret, cookie_expiration_secs).secret == secret,
        sessions(secret, cookie_expiration_secs).ttl_secs == cookie_expiration_secs,
        sessions(secret, cookie_expiration_secs).cookie_name == "shuttle.sid"@,
        sessions(secret, cookie_expiration_secs).secure,
{
}

} // verus!
