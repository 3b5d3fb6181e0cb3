use vstd::prelude::*;

verus! {

/// Where the front end's files are served from when the configuration names
/// no directory.
pub const DEFAULT_STATIC_DIR: &'static str = "./static";

/// The text of the cross-origin smoke test route.
pub fn cors() -> (r: &'static str)
    ensures
        r@ == "Hello CORS!"@,
{
    "Hello CORS!"
}

/// The directory the front end is served from: the configured one, else the
/// default.
pub fn static_dir(configured: Option<String>) -> (r: String)
    ensures
        r@ == match configured {
            Some(d) => d@,
            None => DEFAULT_STATIC_DIR@,
        },
{
    match configured {
        Some(d) => d,
        None => DEFAULT_STATIC_DIR.to_string(),
    }
}

/// The HTTP methods that the cross-origin policy names.
#[derive(Clone, Copy, Debug, PartialEq, Eq, Structural)]
pub enum HttpMethod {
    Get,
    Post,
    Options,
    Delete,
}

/// The cross-origin policy applied to every route.
pub struct CorsPolicy {
    pub any_origin: bool,
    pub methods: Vec<HttpMethod>,
    pub allow_credentials: bool,
}

impl CorsPolicy {
    /// Every origin, credentials allowed, and the methods GET, POST, OPTIONS
    /// and DELETE.
    pub fn permissive() -> (r: CorsPolicy)
        ensures
            r.any_origin,
            r.allow_credentials,
            r.methods@ == seq![
                HttpMethod::Get,
                HttpMethod::Post,
                HttpMethod::Options,
                HttpMethod::Delete,
            ],
    {
        CorsPolicy {
            any_origin: true,
            methods: vec![HttpMethod::Get, HttpMethod::Post, HttpMethod::Options, HttpMethod::Delete],
            allow_credentials: true,
        }
    }
}

/// What start-up does once the migrations have been tried.
#[derive(Clone, Copy, Debug, PartialEq, Eq, Structural)]
pub enum Ignition {
    /// Mount the routes and serve.
    Proceed,
    /// Abort start-up: no request is ever served.
    Abort,
}

/// Start-up goes on only when the database pool was attached and every
/// pending migration was applied.
pub fn after_migrations(pool_attached: bool, migrated: bool) -> (r: Ignition)
    ensures
        r == Ignition::Proceed <==> pool_attached && migrated,
        !migrated ==> r == Ignition::Abort,
{
    if pool_attached && migrated {
        Ignition::Proceed
    } else {
        Ignition::Abort
    }
}

} // verus!
