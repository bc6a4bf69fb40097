use vstd::prelude::*;
use vstd::string::StringExecFns;

use crate::transport::{Method, Route};
use crate::validation::PasswordPolicy;

verus! {

/// The liveness query group.
#[derive(Clone, Copy, Debug, Default)]
pub struct PingQuery;

impl PingQuery {
    /// Always "pong".
    pub fn ping(&self) -> (r: String)
        ensures
            r@ == "pong"@,
    {
        proof {
            reveal_strlit("pong");
        }
        String::from_str("pong")
    }
}

/// The application context built once at start-up and shared, read-only,
/// by every request: the validation policy and where the endpoints live.
#[derive(Clone, Debug)]
pub struct Application {
    pub password_policy: PasswordPolicy,
    /// Path segment that executes GraphQL requests.
    pub graphql_path: String,
    /// Path segment of the explorer page, where it is served.
    pub explorer_path: Option<String>,
    /// Whether per-field call tracing is attached to the schema.
    pub tracing: bool,
}

/// The explorer page that async-graphql's playground generator writes for a
/// GraphQL endpoint.
pub uninterp spec fn playground_page(endpoint: Seq<char>) -> Seq<char>;

/// Relies on `async_graphql::http::playground_source` over
/// `GraphQLPlaygroundConfig::new(endpoint)`: the HTML page of the explorer,
/// which depends on the endpoint alone.
#[verifier::external_body]
fn playground_html(endpoint: &str) -> (r: String)
    ensures
        r@ == playground_page(endpoint@),
{
    async_graphql::http::playground_source(async_graphql::http::GraphQLPlaygroundConfig::new(endpoint))
}

impl Application {
    /// The explorer page, pointed at the GraphQL path, where one is served.
    pub fn explorer_page(&self) -> (r: Option<String>)
        ensures
            self.explorer_path is None ==> r is None,
            self.explorer_path is Some ==> (r matches Some(page) && page@ == playground_page(
                self.graphql_path@,
            )),
    {
        match &self.explorer_path {
            None => None,
            Some(_) => Some(playground_html(self.graphql_path.as_str())),
        }
    }

    /// The handler for a request with this method on this path segment: POST
    /// on the GraphQL path executes, GET on the explorer path serves the page,
    /// and nothing else is handled.
    pub fn route(&self, method: Method, segment: &str) -> (r: Route)
        ensures
            r == (if method == Method::Post && segment@ == self.graphql_path@ {
                Route::Graphql
            } else if method == Method::Get && (self.explorer_path matches Some(p) && segment@
                == p@) {
                Route::Explorer
            } else {
                Route::Unmatched
            }),
    {
        let seg = String::from_str(segment);
        if method == Method::Post && seg == self.graphql_path {
            return Route::Graphql;
        }
        if method == Method::Get {
            if let Some(p) = &self.explorer_path {
                if seg == *p {
                    return Route::Explorer;
                }
            }
        }
        Route::Unmatched
    }
}

} // verus!
