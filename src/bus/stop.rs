//! Bus stop identifiers.
use crate::error::EmptyIdentifierError;
use crate::json::{FromJson, Json};
use vstd::prelude::*;

verus! {

/// A bus stop, such as `1001195`. Any non-empty string is accepted.
#[derive(Clone, Debug)]
pub struct Stop(pub String);

impl Stop {
    /// A stop with the given identifier, taken as it is.
    pub fn new(stop: &str) -> (r: Stop)
        ensures
            r.0@ == stop@,
    {
        Stop(String::from_str(stop))
    }

    /// Converts a string to a [`Stop`]; only the empty string is refused.
    pub fn from_str(s: &str) -> (r: Result<Stop, EmptyIdentifierError>)
        ensures
            r is Err <==> s@.len() == 0,
            r is Ok ==> r->Ok_0.0@ == s@,
    {
        if s.is_empty() {
            Err(EmptyIdentifierError)
        } else {
            Ok(Stop::new(s))
        }
    }

    /// The identifier, as the API writes it.
    pub fn to_string(&self) -> (r: String)
        ensures
            r@ == self.0@,
    {
        self.0.clone()
    }
}

impl PartialEq for Stop {
    fn eq(&self, other: &Stop) -> (r: bool) {
        self.0 == other.0
    }
}

impl vstd::std_specs::cmp::PartialEqSpecImpl for Stop {
    open spec fn obeys_eq_spec() -> bool {
        true
    }

    open spec fn eq_spec(&self, other: &Stop) -> bool {
        self.0@ == other.0@
    }
}

impl FromJson for Stop {
    open spec fn accepts(j: Json) -> bool {
        j is Str && j->Str_0@.len() > 0
    }

    open spec fn read_from(self, j: Json) -> bool {
        j == Json::Str(self.0)
    }

    fn from_json(j: &Json) -> (r: Result<Stop, String>) {
        match j {
            Json::Str(s) => if s.as_str().is_empty() {
                Err(String::from_str("Stop isn't present"))
            } else {
                Ok(Stop(s.clone()))
            },
            _ => Err(String::from_str("invalid type: expected a stop")),
        }
    }
}

} // verus!
