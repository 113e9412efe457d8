//! Endpoints of MetroBus operations.
use vstd::prelude::*;

verus! {

/// Endpoints of MetroBus operations.
#[derive(Clone, Copy, Debug, PartialEq, Eq, Structural)]
pub enum URLs {
    Routes,
    Stops,
    Incidents,
    Positions,
    PathDetails,
    RouteSchedule,
    NextBuses,
    StopSchedule,
}

impl URLs {
    /// The absolute URL of this endpoint.
    pub open spec fn url(self) -> Seq<char> {
        match self {
            URLs::Routes => "https://api.wmata.com/Bus.svc/json/jRoutes"@,
            URLs::Stops => "https://api.wmata.com/Bus.svc/json/jStops"@,
            URLs::Incidents => "https://api.wmata.com/Incidents.svc/json/BusIncidents"@,
            URLs::Positions => "https://api.wmata.com/Bus.svc/json/jBusPositions"@,
            URLs::PathDetails => "https://api.wmata.com/Bus.svc/json/jRouteDetails"@,
            URLs::RouteSchedule => "https://api.wmata.com/Bus.svc/json/jRouteSchedule"@,
            URLs::NextBuses => "https://api.wmata.com/NextBusService.svc/json/jPredictions"@,
            URLs::StopSchedule => "https://api.wmata.com/Bus.svc/json/jStopSchedul"@,
        }
    }

    /// The absolute URL of this endpoint.
    pub fn to_string(&self) -> (r: String)
        ensures
            r@ == self.url(),
    {
        match self {
            URLs::Routes => String::from_str("https://api.wmata.com/Bus.svc/json/jRoutes"),
            URLs::Stops => String::from_str("https://api.wmata.com/Bus.svc/json/jStops"),
            URLs::Incidents => String::from_str("https://api.wmata.com/Incidents.svc/json/BusIncidents"),
            URLs::Positions => String::from_str("https://api.wmata.com/Bus.svc/json/jBusPositions"),
            URLs::PathDetails => String::from_str("https://api.wmata.com/Bus.svc/json/jRouteDetails"),
            URLs::RouteSchedule => String::from_str("https://api.wmata.com/Bus.svc/json/jRouteSchedule"),
            URLs::NextBuses => String::from_str("https://api.wmata.com/NextBusService.svc/json/jPredictions"),
            URLs::StopSchedule => String::from_str("https://api.wmata.com/Bus.svc/json/jStopSchedul"),
        }
    }
}

} // verus!
