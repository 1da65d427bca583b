//! The fixed configuration of the HTTP service: what is routed, which
//! middleware wraps the routes and in what order, the CORS policy, the rate
//! limit and the listening address.
//!
//! The server itself is assembled by the caller from these values.

use vstd::prelude::*;

verus! {

/// Seconds for which a browser may cache a preflight answer: one day.
pub const CORS_MAX_AGE_SECS: u64 = 86400;

/// Interval of the rate limiter, as handed to its `per_second` setting.
pub const RATE_LIMIT_PER_SECOND: u64 = 30;

/// Requests that one client may make in a burst.
pub const RATE_LIMIT_BURST_SIZE: u32 = 100;

/// Nanoseconds in a second.
pub const NANOS_PER_SECOND: u64 = 1_000_000_000;

/// The port the service listens on.
pub const LISTEN_PORT: u16 = 3000;

/// An HTTP method that the CORS policy can allow.
#[derive(Clone, Copy, Debug, PartialEq, Eq, Structural)]
pub enum Method {
    Get,
    Put,
    Post,
    Patch,
    Delete,
    Options,
}

/// What cross-origin callers are allowed.
#[derive(Clone, Debug, PartialEq, Eq)]
pub struct CorsPolicy {
    pub allow_methods: Vec<Method>,
    pub allow_any_header: bool,
    pub allow_any_origin: bool,
    pub max_age_secs: u64,
}

/// The token bucket each client gets: one request is given back every
/// `per_second` seconds, and up to `burst_size` requests may come at once.
#[derive(Clone, Copy, Debug, PartialEq, Eq, Structural)]
pub struct RateLimit {
    pub per_second: u64,
    pub burst_size: u32,
}

impl RateLimit {
    /// Whether the limit allows anything at all: neither the interval nor
    /// the burst size is zero.
    pub open spec fn is_usable(&self) -> bool {
        self.per_second != 0 && self.burst_size != 0
    }

    /// Whether the time to give back a whole burst, in nanoseconds, fits in
    /// 64 bits, which is how far a limiter's clock counts.
    pub open spec fn fits_clock(&self) -> bool {
        (self.per_second as int) * (self.burst_size as int) * (NANOS_PER_SECOND as int)
            <= u64::MAX as int
    }

    /// Whether a limiter can be built from this limit.
    pub fn is_buildable(&self) -> (r: bool)
        ensures
            r == (self.is_usable() && self.fits_clock()),
    {
        if self.per_second == 0 || self.burst_size == 0 {
            return false;
        }
        let interval = self.per_second as u128;
        let burst = self.burst_size as u128;
        assert(interval * burst <= 0x1_0000_0000_0000_0000 * 0x1_0000_0000) by (nonlinear_arith)
            requires
                interval <= 0x1_0000_0000_0000_0000,
                burst <= 0x1_0000_0000,
        ;
        let whole_burst: u128 = interval * burst;
        assert(whole_burst * 1_000_000_000 <= 0x1_0000_0000_0000_0000_0000_0000 * 1_000_000_000)
            by (nonlinear_arith)
            requires
                whole_burst <= 0x1_0000_0000_0000_0000_0000_0000,
        ;
        assert((self.per_second as int) * (self.burst_size as int) * 1_000_000_000
            == whole_burst * 1_000_000_000) by (nonlinear_arith)
            requires
                whole_burst == (self.per_second as int) * (self.burst_size as int),
        ;
        whole_burst * 1_000_000_000 <= 0xffff_ffff_ffff_ffff
    }
}

/// The level a trace event is logged at.
#[derive(Clone, Copy, Debug, PartialEq, Eq, Structural)]
pub enum LogLevel {
    Info,
}

/// How requests and responses are traced.
#[derive(Clone, Copy, Debug, PartialEq, Eq, Structural)]
pub struct TracePolicy {
    pub include_headers: bool,
    pub on_request: LogLevel,
    pub on_response: LogLevel,
}

/// A layer of the middleware stack.
#[derive(Clone, Copy, Debug, PartialEq, Eq, Structural)]
pub enum Middleware {
    /// Turns an error of any inner layer into a response.
    HandleError,
    /// Logs each request and response.
    Trace,
    /// Rejects a client's requests beyond its rate limit.
    Governor,
    /// Adds the CORS headers.
    Cors,
}

/// Something the router serves.
#[derive(Clone, Copy, Debug, PartialEq, Eq, Structural)]
pub enum Route {
    /// The liveness answer.
    Root,
    /// The interactive documentation, which also serves the API description.
    SwaggerUi,
    /// The machine-readable API description.
    OpenApi,
    Redoc,
    RapiDoc,
    /// The business routers, which bring their own paths.
    Check,
    Health,
    Wallet,
    /// The paymaster lookup.
    Paymaster,
}

/// The path a route is mounted at, for the routes whose path is fixed here.
pub open spec fn fixed_path_of(route: Route) -> Option<Seq<char>> {
    match route {
        Route::Root => Some("/"@),
        Route::SwaggerUi => Some("/swagger-ui"@),
        Route::OpenApi => Some("/api-docs/openapi.json"@),
        Route::Redoc => Some("/redoc"@),
        Route::RapiDoc => Some("/rapidoc"@),
        Route::Paymaster => Some("/paymaster/get"@),
        Route::Check | Route::Health | Route::Wallet => None,
    }
}

/// The layers, from the one that sees a request first to the one next to
/// the routes.
pub open spec fn stack_order() -> Seq<Middleware> {
    seq![Middleware::HandleError, Middleware::Trace, Middleware::Governor, Middleware::Cors]
}

/// Whether `outer` sees what `inner` produces, in a stack listed from the
/// outermost layer inwards.
pub open spec fn wraps(stack: Seq<Middleware>, outer: Middleware, inner: Middleware) -> bool {
    exists|i: int, j: int|
        0 <= i < j < stack.len() && #[trigger] stack[i] == outer && #[trigger] stack[j] == inner
}

impl Route {
    /// The path this route is mounted at, unless it brings its own.
    pub fn fixed_path(&self) -> (r: Option<&'static str>)
        ensures
            match fixed_path_of(*self) {
                Some(path) => r matches Some(p) && p@ == path,
                None => r is None,
            },
    {
        match self {
            Route::Root => Some("/"),
            Route::SwaggerUi => Some("/swagger-ui"),
            Route::OpenApi => Some("/api-docs/openapi.json"),
            Route::Redoc => Some("/redoc"),
            Route::RapiDoc => Some("/rapidoc"),
            Route::Paymaster => Some("/paymaster/get"),
            Route::Check | Route::Health | Route::Wallet => None,
        }
    }
}

/// The CORS policy: six methods, any header, any origin, cached for a day.
pub fn cors_policy() -> (r: CorsPolicy)
    ensures
        r.allow_methods@ == seq![
            Method::Get,
            Method::Put,
            Method::Post,
            Method::Patch,
            Method::Delete,
            Method::Options,
        ],
        r.allow_any_header,
        r.allow_any_origin,
        r.max_age_secs == CORS_MAX_AGE_SECS,
{
    let allow_methods = vec![
        Method::Get,
        Method::Put,
        Method::Post,
        Method::Patch,
        Method::Delete,
        Method::Options,
    ];
    CorsPolicy {
        allow_methods,
        allow_any_header: true,
        allow_any_origin: true,
        max_age_secs: CORS_MAX_AGE_SECS,
    }
}

/// The rate limit of the service, from which a limiter can be built.
pub fn rate_limit() -> (r: RateLimit)
    ensures
        r == (RateLimit { per_second: RATE_LIMIT_PER_SECOND, burst_size: RATE_LIMIT_BURST_SIZE }),
        r.is_usable(),
        r.fits_clock(),
{
    assert((RATE_LIMIT_PER_SECOND as int) * (RATE_LIMIT_BURST_SIZE as int) * (NANOS_PER_SECOND as int)
        == 3_000_000_000_000) by (nonlinear_arith)
        requires
            RATE_LIMIT_PER_SECOND == 30,
            RATE_LIMIT_BURST_SIZE == 100,
            NANOS_PER_SECOND == 1_000_000_000,
    ;
    RateLimit { per_second: RATE_LIMIT_PER_SECOND, burst_size: RATE_LIMIT_BURST_SIZE }
}

/// The trace policy: headers in the span, both events at informational level.
pub fn trace_policy() -> (r: TracePolicy)
    ensures
        r == (TracePolicy {
            include_headers: true,
            on_request: LogLevel::Info,
            on_response: LogLevel::Info,
        }),
{
    TracePolicy { include_headers: true, on_request: LogLevel::Info, on_response: LogLevel::Info }
}

/// The middleware stack, outermost layer first.
pub fn middleware_stack() -> (r: Vec<Middleware>)
    ensures
        r@ == stack_order(),
{
    vec![Middleware::HandleError, Middleware::Trace, Middleware::Governor, Middleware::Cors]
}

/// What the router serves, in the order of registration.
pub fn routes() -> (r: Vec<Route>)
    ensures
        r@ == seq![
            Route::Root,
            Route::SwaggerUi,
            Route::OpenApi,
            Route::Redoc,
            Route::RapiDoc,
            Route::Check,
            Route::Health,
            Route::Wallet,
            Route::Paymaster,
        ],
{
    vec![
        Route::Root,
        Route::SwaggerUi,
        Route::OpenApi,
        Route::Redoc,
        Route::RapiDoc,
        Route::Check,
        Route::Health,
        Route::Wallet,
        Route::Paymaster,
    ]
}

/// The address to bind: the listening port on every interface.
pub fn listen_address() -> (r: &'static str)
    ensures
        r@ == "[::]:3000"@,
{
    "[::]:3000"
}

/// In the configured stack the error handler sees what every other layer
/// produces, the rate limiter sits outside the CORS layer, and no layer
/// occurs twice.
pub proof fn lemma_stack_order()
    ensures
        forall|j: int|
            0 < j < stack_order().len() ==> wraps(
                stack_order(),
                Middleware::HandleError,
                #[trigger] stack_order()[j],
            ),
        wraps(stack_order(), Middleware::Governor, Middleware::Cors),
        forall|i: int, j: int|
            0 <= i < j < stack_order().len() ==> stack_order()[i] != stack_order()[j],
{
    let stack = stack_order();
    assert(stack[0] == Middleware::HandleError);
    assert(stack[2] == Middleware::Governor && stack[3] == Middleware::Cors);
}

} // verus!
