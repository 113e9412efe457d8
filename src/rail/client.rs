//! MetroRail client: builds the request of each MetroRail operation.
use crate::error::Error;
use crate::rail::line::Line;
use crate::rail::station::Station;
use crate::rail::urls::URLs;
use crate::requests::{
    distinct_names, pair_if, pairs_view, push_pair, query_of, request_with, Request, RequestView,
};
use vstd::prelude::*;

verus! {

/// MetroRail client. Holds the WMATA API key sent with every request.
#[derive(Clone, Debug)]
pub struct Client {
    /// The WMATA API key to use for all requests built by this client.
    pub key: String,
}

/// The code of a station, when one is given.
pub open spec fn station_text(station: Option<Station>) -> Option<Seq<char>> {
    match station {
        Some(s) => Some(s.code()),
        None => None,
    }
}

/// The query of a station-to-station request.
pub open spec fn station_to_station_pairs(from: Option<Station>, to: Option<Station>) -> Seq<
    (Seq<char>, Seq<char>),
> {
    pair_if("FromStationCode"@, station_text(from)) + pair_if("ToStationCode"@, station_text(to))
}

/// The single pair naming a station.
pub open spec fn station_pairs(station: Station) -> Seq<(Seq<char>, Seq<char>)> {
    seq![("StationCode"@, station.code())]
}

/// The pair asking for JSON content.
pub open spec fn json_content() -> Seq<(Seq<char>, Seq<char>)> {
    seq![("contentType"@, "json"@)]
}

/// The request that asks `url` for the given pairs, with no query when there are none.
pub open spec fn rail_request(api_key: Seq<char>, url: URLs, pairs: Seq<(Seq<char>, Seq<char>)>) -> RequestView {
    RequestView { api_key: api_key, path: url.url(), query: query_of(pairs) }
}

/// The query of a request naming a line, when one is given.
pub open spec fn line_pairs(line: Option<Line>) -> Seq<(Seq<char>, Seq<char>)> {
    pair_if(
        "LineCode"@,
        match line {
            Some(l) => Some(l.code()),
            None => None,
        },
    )
}

impl Client {
    /// Constructor for the MetroRail client.
    pub fn new(api_key: &str) -> (r: Client)
        ensures
            r.key@ == api_key@,
    {
        Client { key: String::from_str(api_key) }
    }

    /// Whether `r` asks `url` for the given pairs with this client's key.
    pub open spec fn asks(self, r: Request, url: URLs, pairs: Seq<(Seq<char>, Seq<char>)>) -> bool {
        r@ == rail_request(self.key@, url, pairs)
    }

    fn request_for(&self, url: URLs, query: Vec<(String, String)>) -> (r: Request)
        ensures
            self.asks(r, url, pairs_view(query@)),
    {
        request_with(&self.key, url.to_string(), query)
    }

    fn json_request(&self, url: URLs) -> (r: Request)
        ensures
            self.asks(r, url, json_content()),
    {
        let mut query: Vec<(String, String)> = Vec::new();
        push_pair(&mut query, "contentType", String::from_str("json"));
        assert(pairs_view(query@) =~= json_content());
        self.request_for(url, query)
    }

    fn station_request(&self, url: URLs, station: Station) -> (r: Request)
        ensures
            self.asks(r, url, station_pairs(station)),
    {
        let mut query: Vec<(String, String)> = Vec::new();
        push_pair(&mut query, "StationCode", station.to_string());
        assert(pairs_view(query@) =~= station_pairs(station));
        self.request_for(url, query)
    }

    fn maybe_station_request(&self, url: URLs, station: Option<Station>) -> (r: Request)
        ensures
            self.asks(r, url, pair_if("StationCode"@, station_text(station))),
    {
        let mut query: Vec<(String, String)> = Vec::new();
        if let Some(s) = station {
            push_pair(&mut query, "StationCode", s.to_string());
        }
        assert(pairs_view(query@) =~= pair_if("StationCode"@, station_text(station)));
        self.request_for(url, query)
    }

    /// Basic information on all MetroRail lines.
    pub fn lines(&self) -> (r: Request)
        ensures
            self.asks(r, URLs::Lines, Seq::empty()),
    {
        let query: Vec<(String, String)> = Vec::new();
        assert(pairs_view(query@) =~= Seq::empty());
        self.request_for(URLs::Lines, query)
    }

    /// Nearby station entrances. `area` holds the query pairs of a radius
    /// around a point (`Radius`, `Lat`, `Lon`), sent as they are.
    pub fn entrances(&self, area: Vec<(String, String)>) -> (r: Request)
        ensures
            self.asks(r, URLs::Entrances, pairs_view(area@)),
    {
        self.request_for(URLs::Entrances, area)
    }

    /// Trains in service and the track circuits they occupy.
    pub fn positions(&self) -> (r: Request)
        ensures
            self.asks(r, URLs::Positions, json_content()),
    {
        self.json_request(URLs::Positions)
    }

    /// The ordered track circuits of each line and track.
    pub fn routes(&self) -> (r: Request)
        ensures
            self.asks(r, URLs::Routes, json_content()),
    {
        self.json_request(URLs::Routes)
    }

    /// All track circuits, with their neighbors.
    pub fn circuits(&self) -> (r: Request)
        ensures
            self.asks(r, URLs::Circuits, json_content()),
    {
        self.json_request(URLs::Circuits)
    }

    /// Distance, fare and travel time between stations; each station is
    /// sent only when given.
    pub fn station_to_station(
        &self,
        from_station: Option<Station>,
        to_destination_station: Option<Station>,
    ) -> (r: Request)
        ensures
            self.asks(
                r,
                URLs::StationToStation,
                station_to_station_pairs(from_station, to_destination_station),
            ),
    {
        let mut query: Vec<(String, String)> = Vec::new();
        if let Some(s) = from_station {
            push_pair(&mut query, "FromStationCode", s.to_string());
        }
        if let Some(s) = to_destination_station {
            push_pair(&mut query, "ToStationCode", s.to_string());
        }
        assert(pairs_view(query@) =~= station_to_station_pairs(from_station, to_destination_station));
        self.request_for(URLs::StationToStation, query)
    }

    /// Elevator and escalator outages, at one station when given.
    pub fn elevator_and_escalator_incidents_at(&self, station: Option<Station>) -> (r: Request)
        ensures
            self.asks(r, URLs::ElevatorAndEscalatorIncidents, pair_if("StationCode"@, station_text(station))),
    {
        self.maybe_station_request(URLs::ElevatorAndEscalatorIncidents, station)
    }

    /// Rail incidents, at one station when given.
    pub fn incidents_at(&self, station: Option<Station>) -> (r: Request)
        ensures
            self.asks(r, URLs::Incidents, pair_if("StationCode"@, station_text(station))),
    {
        self.maybe_station_request(URLs::Incidents, station)
    }

    /// Next train arrivals at a station. The station code is the last
    /// segment of the path, not a query pair.
    pub fn next_trains(&self, station_code: Station) -> (r: Request)
        ensures
            r@ == (RequestView {
                api_key: self.key@,
                path: URLs::NextTrains.url() + "/"@ + station_code.code(),
                query: None,
            }),
    {
        let mut path = URLs::NextTrains.to_string();
        path.append("/");
        let code = station_code.to_string();
        path.append(code.as_str());
        let query: Vec<(String, String)> = Vec::new();
        request_with(&self.key, path, query)
    }

    /// Location and address of a station.
    pub fn station_information(&self, station_code: Station) -> (r: Request)
        ensures
            self.asks(r, URLs::Information, station_pairs(station_code)),
    {
        self.station_request(URLs::Information, station_code)
    }

    /// Parking at a station.
    pub fn parking_information(&self, station_code: Station) -> (r: Request)
        ensures
            self.asks(r, URLs::ParkingInformation, station_pairs(station_code)),
    {
        self.station_request(URLs::ParkingInformation, station_code)
    }

    /// Stations and distances between two stations on the same line.
    pub fn path_from(&self, from_station: Station, to_station: Station) -> (r: Request)
        ensures
            self.asks(
                r,
                URLs::Path,
                seq![("FromStationCode"@, from_station.code()), ("ToStationCode"@, to_station.code())],
            ),
    {
        let mut query: Vec<(String, String)> = Vec::new();
        push_pair(&mut query, "FromStationCode", from_station.to_string());
        push_pair(&mut query, "ToStationCode", to_station.to_string());
        assert(pairs_view(query@) =~= seq![("FromStationCode"@, from_station.code()), ("ToStationCode"@, to_station.code())]);
        self.request_for(URLs::Path, query)
    }

    /// Opening and first/last train times of a station.
    pub fn timings(&self, station_code: Station) -> (r: Request)
        ensures
            self.asks(r, URLs::Timings, station_pairs(station_code)),
    {
        self.station_request(URLs::Timings, station_code)
    }

    /// Stations, on one line when given.
    pub fn stations_on(&self, line: Option<Line>) -> (r: Request)
        ensures
            self.asks(r, URLs::Stations, line_pairs(line)),
    {
        let mut query: Vec<(String, String)> = Vec::new();
        if let Some(l) = line {
            push_pair(&mut query, "LineCode", l.to_string());
        }
        assert(pairs_view(query@) =~= line_pairs(line));
        self.request_for(URLs::Stations, query)
    }
}

impl std::str::FromStr for Client {
    type Err = Error;

    /// A client holding the given key; never fails.
    fn from_str(s: &str) -> Result<Client, Error> {
        Ok(Client::new(s))
    }
}

impl Station {
    /// Distance, fare and travel time from this station to another, or to
    /// every station when none is given.
    pub fn to_station(self, destination_station: Option<Station>, api_key: &str) -> (r: Request)
        ensures
            r@ == rail_request(
                api_key@,
                URLs::StationToStation,
                station_to_station_pairs(Some(self), destination_station),
            ),
    {
        Client::new(api_key).station_to_station(Some(self), destination_station)
    }

    /// Elevator and escalator outages at this station.
    pub fn elevator_and_escalator_incidents(self, api_key: &str) -> (r: Request)
        ensures
            r@ == rail_request(api_key@, URLs::ElevatorAndEscalatorIncidents, station_pairs(self)),
    {
        Client::new(api_key).elevator_and_escalator_incidents_at(Some(self))
    }

    /// Rail incidents at this station.
    pub fn incidents(self, api_key: &str) -> (r: Request)
        ensures
            r@ == rail_request(api_key@, URLs::Incidents, station_pairs(self)),
    {
        Client::new(api_key).incidents_at(Some(self))
    }

    /// Next train arrivals at this station.
    pub fn next_trains(self, api_key: &str) -> (r: Request)
        ensures
            r@ == (RequestView {
                api_key: api_key@,
                path: URLs::NextTrains.url() + "/"@ + self.code(),
                query: None,
            }),
    {
        Client::new(api_key).next_trains(self)
    }

    /// Location and address of this station.
    pub fn information(self, api_key: &str) -> (r: Request)
        ensures
            r@ == rail_request(api_key@, URLs::Information, station_pairs(self)),
    {
        Client::new(api_key).station_information(self)
    }

    /// Parking at this station.
    pub fn parking_information(self, api_key: &str) -> (r: Request)
        ensures
            r@ == rail_request(api_key@, URLs::ParkingInformation, station_pairs(self)),
    {
        Client::new(api_key).parking_information(self)
    }

    /// Stations and distances from this station to another on the same line.
    pub fn path_to(self, destination_station: Station, api_key: &str) -> (r: Request)
        ensures
            r@ == rail_request(
                api_key@,
                URLs::Path,
                seq![("FromStationCode"@, self.code()), ("ToStationCode"@, destination_station.code())],
            ),
    {
        Client::new(api_key).path_from(self, destination_station)
    }

    /// Opening and first/last train times of this station.
    pub fn timings(self, api_key: &str) -> (r: Request)
        ensures
            r@ == rail_request(api_key@, URLs::Timings, station_pairs(self)),
    {
        Client::new(api_key).timings(self)
    }
}

impl Line {
    /// Stations on this line.
    pub fn stations(self, api_key: &str) -> (r: Request)
        ensures
            r@ == rail_request(api_key@, URLs::Stations, line_pairs(Some(self))),
    {
        Client::new(api_key).stations_on(Some(self))
    }
}

/// A station-to-station request with neither station sends no query; with
/// both, it sends one pair per station, origin first, under distinct names.
pub proof fn lemma_station_to_station_query(from: Station, to: Station)
    ensures
        query_of(station_to_station_pairs(None, None)) is None,
        query_of(station_to_station_pairs(Some(from), Some(to))) == Some(
            seq![("FromStationCode"@, from.code()), ("ToStationCode"@, to.code())],
        ),
        distinct_names(station_to_station_pairs(Some(from), Some(to))),
{
    reveal_strlit("FromStationCode");
    reveal_strlit("ToStationCode");
    assert(station_to_station_pairs(None, None) =~= Seq::empty());
    assert(station_to_station_pairs(Some(from), Some(to)) =~= seq![("FromStationCode"@, from.code()), ("ToStationCode"@, to.code())]);
    assert("FromStationCode"@[0] != "ToStationCode"@[0]);
}

} // verus!
