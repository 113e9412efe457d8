//! MetroBus client: builds the request of each MetroBus operation.
use crate::bus::route::Route;
use crate::bus::stop::Stop;
use crate::bus::urls::URLs;
use crate::date::Date;
use crate::error::Error;
use crate::requests::{
    distinct_names, pair_if, pairs_view, push_pair, query_of, request_with, Request, RequestView,
};
use vstd::prelude::*;

verus! {

/// MetroBus client. Holds the WMATA API key sent with every request.
#[derive(Clone, Debug)]
pub struct Client {
    /// The WMATA API key to use for all requests built by this client.
    pub key: String,
}

/// The text of a date, when one is given.
pub open spec fn date_text(date: Option<Date>) -> Option<Seq<char>> {
    match date {
        Some(d) => Some(d.text()),
        None => None,
    }
}

/// The text of a route, when one is given.
pub open spec fn route_text(route: Option<Route>) -> Option<Seq<char>> {
    match route {
        Some(r) => Some(r.0@),
        None => None,
    }
}

/// The pairs of an area, when one is given.
pub open spec fn area_pairs(area: Option<Vec<(String, String)>>) -> Seq<(Seq<char>, Seq<char>)> {
    match area {
        Some(a) => pairs_view(a@),
        None => Seq::empty(),
    }
}

/// The query of a bus positions request.
pub open spec fn positions_along_pairs(route: Option<Route>, area: Option<Vec<(String, String)>>) -> Seq<
    (Seq<char>, Seq<char>),
> {
    pair_if("Route"@, route_text(route)) + area_pairs(area)
}

/// The query of a route path request.
pub open spec fn path_pairs(route: Route, date: Option<Date>) -> Seq<(Seq<char>, Seq<char>)> {
    seq![("RouteID"@, route.0@)] + pair_if("Date"@, date_text(date))
}

/// The query of a route schedule request: the variations flag is sent only when set.
pub open spec fn route_schedule_pairs(route: Route, date: Option<Date>, including_variations: bool) -> Seq<
    (Seq<char>, Seq<char>),
> {
    seq![("RouteID"@, route.0@)] + pair_if("Date"@, date_text(date)) + pair_if(
        "IncludingVariations"@,
        if including_variations {
            Some("true"@)
        } else {
            None
        },
    )
}

/// The query of a stop schedule request.
pub open spec fn stop_schedule_pairs(stop: Stop, date: Option<Date>) -> Seq<(Seq<char>, Seq<char>)> {
    seq![("StopID"@, stop.0@)] + pair_if("Date"@, date_text(date))
}

impl Client {
    /// Constructor for the MetroBus client.
    pub fn new(api_key: &str) -> (r: Client)
        ensures
            r.key@ == api_key@,
    {
        Client { key: String::from_str(api_key) }
    }

    /// The request that asks for the given pairs of `url`, with no query when there are none.
    pub open spec fn asks(self, r: Request, url: URLs, pairs: Seq<(Seq<char>, Seq<char>)>) -> bool {
        r@ == (RequestView { api_key: self.key@, path: url.url(), query: query_of(pairs) })
    }

    fn request_for(&self, url: URLs, query: Vec<(String, String)>) -> (r: Request)
        ensures
            self.asks(r, url, pairs_view(query@)),
    {
        request_with(&self.key, url.to_string(), query)
    }

    /// All bus route variants.
    pub fn routes(&self) -> (r: Request)
        ensures
            self.asks(r, URLs::Routes, Seq::empty()),
    {
        let query: Vec<(String, String)> = Vec::new();
        assert(pairs_view(query@) =~= Seq::empty());
        self.request_for(URLs::Routes, query)
    }

    /// Bus stops, near a point when an area is given. `area` holds the query
    /// pairs of a radius around a point (`Radius`, `Lat`, `Lon`).
    pub fn stops(&self, area: Option<Vec<(String, String)>>) -> (r: Request)
        ensures
            self.asks(r, URLs::Stops, area_pairs(area)),
    {
        match area {
            Some(a) => self.request_for(URLs::Stops, a),
            None => {
                let query: Vec<(String, String)> = Vec::new();
                assert(pairs_view(query@) =~= Seq::empty());
                self.request_for(URLs::Stops, query)
            },
        }
    }

    /// Bus positions, along a route and near a point when given.
    pub fn positions_along(&self, route: Option<Route>, area: Option<Vec<(String, String)>>) -> (r: Request)
        ensures
            self.asks(r, URLs::Positions, positions_along_pairs(route, area)),
    {
        let ghost given = area;
        let mut query: Vec<(String, String)> = Vec::new();
        if let Some(rt) = route {
            push_pair(&mut query, "Route", rt.to_string());
        }
        let ghost head = pairs_view(query@);
        assert(head =~= pair_if("Route"@, route_text(route)));
        if let Some(a) = area {
            let mut a = a;
            let ghost before = query@;
            query.append(&mut a);
            assert(pairs_view(query@) =~= pairs_view(before) + area_pairs(given));
        } else {
            assert(head + area_pairs(given) =~= head);
        }
        self.request_for(URLs::Positions, query)
    }

    /// Bus incidents, along a route when given.
    pub fn incidents_along(&self, route: Option<Route>) -> (r: Request)
        ensures
            self.asks(r, URLs::Incidents, pair_if("Route"@, route_text(route))),
    {
        let mut query: Vec<(String, String)> = Vec::new();
        if let Some(rt) = route {
            push_pair(&mut query, "Route", rt.to_string());
        }
        assert(pairs_view(query@) =~= pair_if("Route"@, route_text(route)));
        self.request_for(URLs::Incidents, query)
    }

    /// The path and stops of a route variant, on a date when given.
    pub fn path(&self, route: Route, date: Option<Date>) -> (r: Request)
        ensures
            self.asks(r, URLs::PathDetails, path_pairs(route, date)),
    {
        let mut query: Vec<(String, String)> = Vec::new();
        push_pair(&mut query, "RouteID", route.to_string());
        if let Some(d) = date {
            push_pair(&mut query, "Date", d.to_string());
        }
        assert(pairs_view(query@) =~= path_pairs(route, date));
        self.request_for(URLs::PathDetails, query)
    }

    /// Schedules of a route variant, on a date when given, with its
    /// variations when asked.
    pub fn route_schedule(&self, route: Route, date: Option<Date>, including_variations: bool) -> (r: Request)
        ensures
            self.asks(r, URLs::RouteSchedule, route_schedule_pairs(route, date, including_variations)),
    {
        let mut query: Vec<(String, String)> = Vec::new();
        push_pair(&mut query, "RouteID", route.to_string());
        if let Some(d) = date {
            push_pair(&mut query, "Date", d.to_string());
        }
        if including_variations {
            push_pair(&mut query, "IncludingVariations", String::from_str("true"));
        }
        assert(pairs_view(query@) =~= route_schedule_pairs(route, date, including_variations));
        self.request_for(URLs::RouteSchedule, query)
    }

    /// Next bus arrivals at a stop.
    pub fn next_buses(&self, stop: &Stop) -> (r: Request)
        ensures
            self.asks(r, URLs::NextBuses, seq![("StopID"@, stop.0@)]),
    {
        let mut query: Vec<(String, String)> = Vec::new();
        push_pair(&mut query, "StopID", stop.to_string());
        assert(pairs_view(query@) =~= seq![("StopID"@, stop.0@)]);
        self.request_for(URLs::NextBuses, query)
    }

    /// Buses scheduled at a stop, on a date when given.
    pub fn stop_schedule(&self, stop: &Stop, date: Option<Date>) -> (r: Request)
        ensures
            self.asks(r, URLs::StopSchedule, stop_schedule_pairs(*stop, date)),
    {
        let mut query: Vec<(String, String)> = Vec::new();
        push_pair(&mut query, "StopID", stop.to_string());
        if let Some(d) = date {
            push_pair(&mut query, "Date", d.to_string());
        }
        assert(pairs_view(query@) =~= stop_schedule_pairs(*stop, date));
        self.request_for(URLs::StopSchedule, query)
    }
}

impl std::str::FromStr for Client {
    type Err = Error;

    /// A client holding the given key; never fails.
    fn from_str(s: &str) -> Result<Client, Error> {
        Ok(Client::new(s))
    }
}

impl Stop {
    /// Next bus arrivals at this stop.
    pub fn next_buses(&self, api_key: &str) -> (r: Request)
        ensures
            r@ == (RequestView {
                api_key: api_key@,
                path: URLs::NextBuses.url(),
                query: query_of(seq![("StopID"@, self.0@)]),
            }),
    {
        Client::new(api_key).next_buses(self)
    }

    /// Buses scheduled at this stop, on a date when given.
    pub fn schedule(&self, date: Option<Date>, api_key: &str) -> (r: Request)
        ensures
            r@ == (RequestView {
                api_key: api_key@,
                path: URLs::StopSchedule.url(),
                query: query_of(stop_schedule_pairs(*self, date)),
            }),
    {
        Client::new(api_key).stop_schedule(self, date)
    }
}

/// A route schedule request sends the route alone when no date is given and
/// variations are not asked for; with both, it sends one pair per parameter,
/// in order, under distinct names.
pub proof fn lemma_route_schedule_query(route: Route, date: Date)
    ensures
        route_schedule_pairs(route, None, false) == seq![("RouteID"@, route.0@)],
        route_schedule_pairs(route, Some(date), true) == seq![
            ("RouteID"@, route.0@),
            ("Date"@, date.text()),
            ("IncludingVariations"@, "true"@),
        ],
        distinct_names(route_schedule_pairs(route, Some(date), true)),
{
    reveal_strlit("RouteID");
    reveal_strlit("Date");
    reveal_strlit("IncludingVariations");
    assert(route_schedule_pairs(route, None, false) =~= seq![("RouteID"@, route.0@)]);
    assert(route_schedule_pairs(route, Some(date), true) =~= seq![
        ("RouteID"@, route.0@),
        ("Date"@, date.text()),
        ("IncludingVariations"@, "true"@),
    ]);
    assert("RouteID"@[0] != "Date"@[0]);
    assert("RouteID"@[0] != "IncludingVariations"@[0]);
    assert("Date"@[0] != "IncludingVariations"@[0]);
}

/// A bus positions request with neither a route nor an area sends no query;
/// with both, the route comes first, then the area's pairs.
pub proof fn lemma_positions_along_query(route: Route, area: Vec<(String, String)>)
    ensures
        query_of(positions_along_pairs(None, None)) is None,
        positions_along_pairs(Some(route), Some(area)) == seq![("Route"@, route.0@)] + pairs_view(area@),
{
    assert(positions_along_pairs(None, None) =~= Seq::empty());
}

/// A stop schedule request with a date sends the stop, then the date, under
/// distinct names.
pub proof fn lemma_stop_schedule_query(stop: Stop, date: Date)
    ensures
        stop_schedule_pairs(stop, None) == seq![("StopID"@, stop.0@)],
        distinct_names(stop_schedule_pairs(stop, Some(date))),
{
    reveal_strlit("StopID");
    reveal_strlit("Date");
    assert(stop_schedule_pairs(stop, None) =~= seq![("StopID"@, stop.0@)]);
    assert(stop_schedule_pairs(stop, Some(date)) =~= seq![("StopID"@, stop.0@), ("Date"@, date.text())]);
    assert("StopID"@[0] != "Date"@[0]);
}

} // verus!
