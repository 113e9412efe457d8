//! Bus route identifiers.
use crate::error::EmptyIdentifierError;
use crate::json::{FromJson, Json};
use vstd::prelude::*;

verus! {

/// A bus route variant, such as `10A`. Any non-empty string is accepted.
#[derive(Clone, Debug)]
pub struct Route(pub String);

impl Route {
    /// A route with the given identifier, taken as it is.
    pub fn new(route: &str) -> (r: Route)
        ensures
            r.0@ == route@,
    {
        Route(String::from_str(route))
    }

    /// Converts a string to a [`Route`]; only the empty string is refused.
    pub fn from_str(s: &str) -> (r: Result<Route, EmptyIdentifierError>)
        ensures
            r is Err <==> s@.len() == 0,
            r is Ok ==> r->Ok_0.0@ == s@,
    {
        if s.is_empty() {
            Err(EmptyIdentifierError)
        } else {
            Ok(Route::new(s))
        }
    }

    /// The identifier, as the API writes it.
    pub fn to_string(&self) -> (r: String)
        ensures
            r@ == self.0@,
    {
        self.0.clone()
    }
}

impl PartialEq for Route {
    fn eq(&self, other: &Route) -> (r: bool) {
        self.0 == other.0
    }
}

impl vstd::std_specs::cmp::PartialEqSpecImpl for Route {
    open spec fn obeys_eq_spec() -> bool {
        true
    }

    open spec fn eq_spec(&self, other: &Route) -> bool {
        self.0@ == other.0@
    }
}

impl FromJson for Route {
    open spec fn accepts(j: Json) -> bool {
        j is Str && j->Str_0@.len() > 0
    }

    open spec fn read_from(self, j: Json) -> bool {
        j == Json::Str(self.0)
    }

    fn from_json(j: &Json) -> (r: Result<Route, String>) {
        match j {
            Json::Str(s) => if s.as_str().is_empty() {
                Err(String::from_str("Route isn't present"))
            } else {
                Ok(Route(s.clone()))
            },
            _ => Err(String::from_str("invalid type: expected a route")),
        }
    }
}

} // verus!
