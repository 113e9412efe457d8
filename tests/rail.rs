use std::cell::RefCell;
use wmata::error::ErrorKind;
use wmata::rail::responses::{
    Lines, PathBetweenStations, RailPredictions, StandardRoutes, StationTimings, TrackCircuits,
    TrainPositions,
};
use wmata::requests::{fetch, Request, Requester};
use wmata::{Line, MetroBus, MetroRail, Station};

const KEY: &str = "9e38c3eab34c4e6c990828002828f5ed";

/// Answers every request with the same body, and keeps the requests it saw.
struct Stub {
    body: String,
    seen: RefCell<Vec<Request>>,
}

impl Stub {
    fn new(body: &str) -> Stub {
        Stub { body: body.to_string(), seen: RefCell::new(Vec::new()) }
    }
}

impl Requester for Stub {
    fn request(&self, request: &Request) -> Result<String, String> {
        self.seen.borrow_mut().push(request.clone());
        Ok(self.body.clone())
    }
}

fn lines_body() -> String {
    let codes = [("RD", "A15", "B11"), ("BL", "J03", "G05"), ("YL", "C15", "E06"),
        ("OR", "K08", "D13"), ("GR", "F11", "E10"), ("SV", "N06", "G05")];
    let entries: Vec<String> = codes
        .iter()
        .map(|(l, s, e)| {
            format!(
                "{{\"LineCode\":\"{}\",\"DisplayName\":\"{}\",\"StartStationCode\":\"{}\",\"EndStationCode\":\"{}\",\"InternalDestination1\":\"\",\"InternalDestination2\":\"\"}}",
                l, l, s, e
            )
        })
        .collect();
    format!("{{\"Lines\":[{}]}}", entries.join(","))
}

fn positions_body() -> String {
    "{\"TrainPositions\":[{\"TrainId\":\"100\",\"TrainNumber\":\"301\",\"CarCount\":6,\"DirectionNum\":1,\"CircuitId\":1234,\"DestinationStationCode\":\"A01\",\"LineCode\":\"RD\",\"SecondsAtLocation\":0,\"ServiceType\":\"Normal\"},{\"TrainId\":\"101\",\"TrainNumber\":\"X11\",\"CarCount\":0,\"DirectionNum\":2,\"CircuitId\":9,\"DestinationStationCode\":null,\"LineCode\":null,\"SecondsAtLocation\":12,\"ServiceType\":\"NoPassengers\"}]}".to_string()
}

fn routes_body(n: usize) -> String {
    let entries: Vec<String> = (0..n)
        .map(|i| {
            format!(
                "{{\"LineCode\":\"RD\",\"TrackNum\":{},\"TrackCircuits\":[{{\"SeqNum\":0,\"CircuitId\":{},\"StationCode\":null}},{{\"SeqNum\":1,\"CircuitId\":{},\"StationCode\":\"A15\"}}]}}",
                1 + i % 2,
                i,
                i + 1
            )
        })
        .collect();
    format!("{{\"StandardRoutes\":[{}]}}", entries.join(","))
}

fn circuits_body(n: usize) -> String {
    let entries: Vec<String> = (0..n)
        .map(|i| {
            format!(
                "{{\"Track\":1,\"CircuitId\":{},\"Neighbors\":[{{\"NeighborType\":\"Left\",\"CircuitIds\":[{}]}}]}}",
                i + 1,
                i
            )
        })
        .collect();
    format!("{{\"TrackCircuits\":[{}]}}", entries.join(","))
}

#[test]
fn tests_test_constructor() {
    let client = MetroRail::new("9e38c3eab34c4e6c990828002828f5ed");
    assert_eq!(client.key, "9e38c3eab34c4e6c990828002828f5ed");

    let client = MetroBus::new("9e38c3eab34c4e6c990828002828f5ed");
    assert_eq!(client.key, "9e38c3eab34c4e6c990828002828f5ed");
}

#[test]
fn rail_test_constructor() {
    let client = MetroRail::new("9e38c3eab34c4e6c990828002828f5ed");

    assert_eq!(client.key, "9e38c3eab34c4e6c990828002828f5ed");
}

#[test]
fn tests_test_lines() {
    let rail: MetroRail = "9e38c3eab34c4e6c990828002828f5ed".parse().unwrap();
    let stub = Stub::new(&lines_body());

    let lines = fetch::<Lines, _>(&stub, &rail.lines());
    assert_eq!(lines.unwrap().lines.len(), 6);

    let seen = stub.seen.borrow();
    assert_eq!(seen[0].path, "https://api.wmata.com/Rail.svc/json/jLines");
    assert_eq!(seen[0].api_key, KEY);
    assert!(seen[0].query.is_none());
}

#[test]
fn rail_test_lines() {
    let client: MetroRail = "9e38c3eab34c4e6c990828002828f5ed".parse().unwrap();
    let lines = fetch::<Lines, _>(&Stub::new(&lines_body()), &client.lines());

    assert!(lines.is_ok());
}

#[test]
fn lines_read_every_field() {
    let lines = fetch::<Lines, _>(&Stub::new(&lines_body()), &MetroRail::new(KEY).lines()).unwrap();
    let red = &lines.lines[0];
    assert_eq!(red.line_code, Line::Red);
    assert_eq!(red.display_name, "RD");
    assert_eq!(red.start_station_code, Station::A15);
    assert_eq!(red.end_station_code, Station::B11);
    assert_eq!(red.first_internal_destination, None);
    assert_eq!(lines.lines[5].line_code, Line::Silver);
}

#[test]
fn tests_test_positions() {
    let rail: MetroRail = "9e38c3eab34c4e6c990828002828f5ed".parse().unwrap();
    let stub = Stub::new(&positions_body());

    let positions = fetch::<TrainPositions, _>(&stub, &rail.positions());
    assert!(positions.is_ok());

    let positions = positions.unwrap();
    assert_eq!(positions.train_positions[0].destination_station_code, Some(Station::A01));
    assert_eq!(positions.train_positions[1].line_code, None);
    assert_eq!(positions.train_positions[1].seconds_at_location, 12);
    let seen = stub.seen.borrow();
    assert_eq!(seen[0].query, Some(vec![("contentType".to_string(), "json".to_string())]));
}

#[test]
fn tests_test_routes() {
    let rail: MetroRail = "9e38c3eab34c4e6c990828002828f5ed".parse().unwrap();
    let routes = fetch::<StandardRoutes, _>(&Stub::new(&routes_body(14)), &rail.routes());
    assert_eq!(routes.unwrap().standard_routes.len(), 14);

    let client: MetroBus = "9e38c3eab34c4e6c990828002828f5ed".parse().unwrap();
    let entries: Vec<String> = (0..470)
        .map(|i| format!("{{\"RouteID\":\"{}A\",\"Name\":\"{}A - SOMEWHERE\",\"LineDescription\":\"Corridor\"}}", i, i))
        .collect();
    let body = format!("{{\"Routes\":[{}]}}", entries.join(","));
    let routes = fetch::<wmata::bus::responses::Routes, _>(&Stub::new(&body), &client.routes());
    assert_eq!(routes.unwrap().routes.len(), 470);
}

#[test]
fn tests_test_circuits() {
    let rail: MetroRail = "9e38c3eab34c4e6c990828002828f5ed".parse().unwrap();
    let circuits = fetch::<TrackCircuits, _>(&Stub::new(&circuits_body(3486)), &rail.circuits());

    assert_eq!(circuits.unwrap().track_circuits.len(), 3486);
}

#[test]
fn tests_test_next_trains() {
    let client: MetroRail = "9e38c3eab34c4e6c990828002828f5ed".parse().unwrap();
    let body = "{\"Trains\":[{\"Car\":\"8\",\"Destination\":\"Glenmont\",\"DestinationCode\":\"B11\",\"DestinationName\":\"Glenmont\",\"Group\":\"1\",\"Line\":\"RD\",\"LocationCode\":\"A01\",\"LocationName\":\"Metro Center\",\"Min\":\"3\"},{\"Car\":null,\"Destination\":\"No Passenger\",\"DestinationCode\":null,\"DestinationName\":\"No Passenger\",\"Group\":\"2\",\"Line\":\"No\",\"LocationCode\":\"A01\",\"LocationName\":\"Metro Center\",\"Min\":\"BRD\"}]}";
    let stub = Stub::new(body);
    let next_trains = fetch::<RailPredictions, _>(&stub, &client.next_trains(Station::A01));

    assert!(next_trains.is_ok());
    let seen = stub.seen.borrow();
    assert_eq!(
        seen[0].path,
        "https://api.wmata.com/StationPrediction.svc/json/GetPrediction/A01"
    );
    assert!(seen[0].query.is_none());
}

#[test]
fn tests_test_path_to_station() {
    let client: MetroRail = "9e38c3eab34c4e6c990828002828f5ed".parse().unwrap();
    let body = "{\"Path\":[{\"DistanceToPrev\":0,\"LineCode\":\"RD\",\"SeqNum\":1,\"StationCode\":\"A01\",\"StationName\":\"Metro Center\"},{\"DistanceToPrev\":4178,\"LineCode\":\"RD\",\"SeqNum\":2,\"StationCode\":\"A02\",\"StationName\":\"Farragut North\"}]}";
    let stub = Stub::new(body);
    let path = fetch::<PathBetweenStations, _>(&stub, &client.path_from(Station::A01, Station::A02));

    assert_eq!(path.unwrap().path[1].distance_to_previous_station, 4178);
    let seen = stub.seen.borrow();
    assert_eq!(
        seen[0].query,
        Some(vec![
            ("FromStationCode".to_string(), "A01".to_string()),
            ("ToStationCode".to_string(), "A02".to_string()),
        ])
    );
}

fn day() -> String {
    "{\"OpeningTime\":\"05:00\",\"FirstTrains\":[{\"Time\":\"05:07\",\"DestinationStation\":\"A15\"}],\"LastTrains\":[{\"Time\":\"23:50\",\"DestinationStation\":\"B11\"}]}".to_string()
}

#[test]
fn tests_test_timings() {
    let client: MetroRail = "9e38c3eab34c4e6c990828002828f5ed".parse().unwrap();
    let d = day();
    let body = format!(
        "{{\"StationTimes\":[{{\"Code\":\"A01\",\"StationName\":\"Metro Center\",\"Monday\":{d},\"Tuesday\":{d},\"Wednesday\":{d},\"Thursday\":{d},\"Friday\":{d},\"Saturday\":{d},\"Sunday\":{d}}}]}}"
    );
    let timings = fetch::<StationTimings, _>(&Stub::new(&body), &client.timings(Station::A01));

    assert_eq!(timings.unwrap().station_times[0].code, Station::A01);
}

#[test]
fn test_station_name() {
    let station = Station::A01;

    assert_eq!(station.name(), "Metro Center");
}

#[test]
fn test_station_lines() {
    let station = Station::N01;

    assert_eq!(station.lines(), &[Line::Silver])
}

#[test]
fn station_lines_at_transfer_stations() {
    assert_eq!(Station::A01.lines(), vec![Line::Blue, Line::Orange, Line::Silver, Line::Red]);
    assert_eq!(Station::F03.lines().len(), 5);
    assert_eq!(Station::C10.name(), "Ronald Reagan Washington National Airport");
}

#[test]
fn api_envelope_for_any_operation() {
    let stub = Stub::new("{\"Message\":\"API key not valid\"}");
    let rail = MetroRail::new("bad");
    let a = fetch::<Lines, _>(&stub, &rail.lines()).unwrap_err();
    let b = fetch::<TrackCircuits, _>(&stub, &rail.circuits()).unwrap_err();
    let c = fetch::<RailPredictions, _>(&stub, &rail.next_trains(Station::B35)).unwrap_err();
    for e in [a, b, c] {
        assert_eq!(e.kind, ErrorKind::Api);
        assert_eq!(e.message, "API key not valid");
    }
}

#[test]
fn neither_shape_is_malformed_with_the_routes_error() {
    let rail = MetroRail::new(KEY);
    let e = fetch::<StandardRoutes, _>(&Stub::new("{}"), &rail.routes()).unwrap_err();
    assert_eq!(e.kind, ErrorKind::Malformed);
    assert!(e.message.contains("StandardRoutes"));
    assert!(!e.message.contains("Message"));
}

#[test]
fn same_request_twice_gives_the_same_result() {
    let rail = MetroRail::new(KEY);
    let stub = Stub::new(&lines_body());
    let first = fetch::<Lines, _>(&stub, &rail.lines()).unwrap();
    let second = fetch::<Lines, _>(&stub, &rail.lines()).unwrap();
    assert_eq!(format!("{:?}", first), format!("{:?}", second));
    let seen = stub.seen.borrow();
    assert_eq!(format!("{:?}", seen[0]), format!("{:?}", seen[1]));
}

struct Unreachable;

impl Requester for Unreachable {
    fn request(&self, _request: &Request) -> Result<String, String> {
        Err("error trying to connect: dns error".to_string())
    }
}

#[test]
fn transport_failure_is_reported_verbatim() {
    let e = fetch::<Lines, _>(&Unreachable, &MetroRail::new(KEY).lines()).unwrap_err();
    assert_eq!(e.kind, ErrorKind::Transport);
    assert_eq!(e.message, "error trying to connect: dns error");
}

#[test]
fn station_builds_its_own_requests() {
    let r = Station::A01.to_station(Some(Station::A02), KEY);
    assert_eq!(r.path, "https://api.wmata.com/Rail.svc/json/jSrcStationToDstStationInfo");
    assert_eq!(
        r.query,
        Some(vec![
            ("FromStationCode".to_string(), "A01".to_string()),
            ("ToStationCode".to_string(), "A02".to_string()),
        ])
    );
    assert_eq!(Station::A01.to_station(None, KEY).query.unwrap().len(), 1);
    assert_eq!(
        Station::E10.next_trains(KEY).path,
        "https://api.wmata.com/StationPrediction.svc/json/GetPrediction/E10"
    );
    let station_only = Some(vec![("StationCode".to_string(), "C05".to_string())]);
    assert_eq!(Station::C05.incidents(KEY).query, station_only);
    assert_eq!(Station::C05.elevator_and_escalator_incidents(KEY).query, station_only);
    assert_eq!(Station::C05.information(KEY).query, station_only);
    assert_eq!(Station::C05.parking_information(KEY).query, station_only);
    assert_eq!(Station::C05.timings(KEY).path, "https://api.wmata.com/Rail.svc/json/jStationTimes");
    assert_eq!(Station::A01.path_to(Station::A02, KEY).path, "https://api.wmata.com/Rail.svc/json/jPath");
    let stations = Line::YellowLineRushPlus.stations(KEY);
    assert_eq!(stations.query, Some(vec![("LineCode".to_string(), "YLRP".to_string())]));
    assert_eq!(stations.api_key, KEY);
}
