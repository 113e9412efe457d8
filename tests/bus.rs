use wmata::bus::responses::{
    BusPositions, Incidents, PathDetails, Predictions, RouteSchedule, Routes, StopSchedule, Stops,
};
use wmata::requests::{fetch, Request, Requester};
use wmata::{Date, MetroBus, Route, Stop};

/// Answers every request with the same body.
struct Stub(String);

impl Requester for Stub {
    fn request(&self, _request: &Request) -> Result<String, String> {
        Ok(self.0.clone())
    }
}

fn area() -> Vec<(String, String)> {
    vec![
        ("Radius".to_string(), "1000".to_string()),
        ("Lat".to_string(), "38.8817596".to_string()),
        ("Lon".to_string(), "-77.0166426".to_string()),
    ]
}

fn pairs(p: &[(&str, &str)]) -> Option<Vec<(String, String)>> {
    Some(p.iter().map(|(k, v)| (k.to_string(), v.to_string())).collect())
}

fn stops_body(n: usize) -> String {
    let entries: Vec<String> = (0..n)
        .map(|i| format!("{{\"StopID\":\"{}\",\"Name\":\"STOP {}\",\"Lat\":38.88,\"Lon\":-77.01,\"Routes\":[\"10A\",\"10E\"]}}", 1000000 + i, i))
        .collect();
    format!("{{\"Stops\":[{}]}}", entries.join(","))
}

fn positions_body() -> String {
    "{\"BusPositions\":[{\"DateTime\":\"2019-10-02T10:01:07\",\"Deviation\":-2.5,\"DirectionNum\":0,\"DirectionText\":\"NORTH\",\"Lat\":38.8,\"Lon\":-77.0,\"RouteID\":\"10A\",\"TripEndTime\":\"2019-10-02T10:40:00\",\"TripHeadsign\":\"PENTAGON\",\"TripID\":\"9421\",\"TripStartTime\":\"2019-10-02T09:40:00\",\"VehicleID\":\"6431\"}]}".to_string()
}

fn stop_routes(id: &str) -> String {
    format!("{{\"StopID\":\"{}\",\"Name\":\"S GLEBE RD + S KNOLL ST\",\"Lat\":38.8,\"Lon\":-77.1,\"Routes\":[\"10A\"]}}", id)
}

fn path_body() -> String {
    let dir = format!(
        "{{\"TripHeadsign\":\"PENTAGON\",\"DirectionText\":\"NORTH\",\"DirectionNum\":\"0\",\"Shape\":[{{\"Lat\":38.8,\"Lon\":-77.1,\"SeqNum\":1}}],\"Stops\":[{}]}}",
        stop_routes("1001195")
    );
    format!("{{\"RouteID\":\"10A\",\"Name\":\"10A - PENTAGON - HUNTINGTON STA\",\"Direction0\":{},\"Direction1\":{}}}", dir, dir)
}

fn schedule_body() -> String {
    let trip = "{\"RouteID\":\"10A\",\"DirectionNum\":\"0\",\"TripDirectionText\":\"NORTH\",\"TripHeadsign\":\"PENTAGON\",\"StartTime\":\"2019-10-02T05:00:00\",\"EndTime\":\"2019-10-02T05:40:00\",\"StopTimes\":[{\"StopID\":\"1001195\",\"StopName\":\"HUNTINGTON STA\",\"StopSeq\":1,\"Time\":\"2019-10-02T05:00:00\"}],\"TripID\":\"9421\"}";
    format!("{{\"Name\":\"10A - PENTAGON - HUNTINGTON STA\",\"Direction0\":[{}],\"Direction1\":[]}}", trip)
}

fn stop_schedule_body() -> String {
    let arrival = "{\"ScheduleTime\":\"2019-10-02T05:10:00\",\"DirectionNum\":\"0\",\"StartTime\":\"2019-10-02T05:00:00\",\"EndTime\":\"2019-10-02T05:40:00\",\"RouteID\":\"10A\",\"TripDirectionText\":\"NORTH\",\"TripHeadsign\":\"PENTAGON\",\"TripID\":\"9421\"}";
    format!("{{\"ScheduleArrivals\":[{}],\"Stop\":{}}}", arrival, stop_routes("1001195"))
}

#[test]
fn bus_test_constructor() {
    let client = MetroBus::new("9e38c3eab34c4e6c990828002828f5ed");

    assert_eq!(client.key, "9e38c3eab34c4e6c990828002828f5ed");
}

#[test]
fn bus_test_routes() {
    let client: MetroBus = "9e38c3eab34c4e6c990828002828f5ed".parse().unwrap();
    let body = "{\"Routes\":[{\"RouteID\":\"10A\",\"Name\":\"10A - HUNTINGTON STA - PENTAGON\",\"LineDescription\":\"Alexandria-Pentagon Line\"}]}";
    let routes = fetch::<Routes, _>(&Stub(body.to_string()), &client.routes());

    assert!(routes.is_ok());
    assert_eq!(routes.unwrap().routes[0].route, Route::new("10A"));
}

#[test]
fn test_stops() {
    let client: MetroBus = "9e38c3eab34c4e6c990828002828f5ed".parse().unwrap();
    let request = client.stops(None);
    assert!(request.query.is_none());
    let stops = fetch::<Stops, _>(&Stub(stops_body(10299)), &request);

    assert_eq!(stops.unwrap().stops.len(), 10299);
}

#[test]
fn test_stops_lat_long_radius() {
    let client: MetroBus = "9e38c3eab34c4e6c990828002828f5ed".parse().unwrap();
    let request = client.stops(Some(area()));
    assert_eq!(request.query, Some(area()));
    let stops = fetch::<Stops, _>(&Stub(stops_body(58)), &request);

    assert_eq!(stops.unwrap().stops.len(), 58);
}

#[test]
fn tests_test_positions_along() {
    let client: MetroBus = "9e38c3eab34c4e6c990828002828f5ed".parse().unwrap();
    let request = client.positions_along(None, None);
    assert!(request.query.is_none());
    let positions = fetch::<BusPositions, _>(&Stub(positions_body()), &request);

    assert!(positions.is_ok());
}

#[test]
fn bus_test_positions_along() {
    let client: MetroBus = "9e38c3eab34c4e6c990828002828f5ed".parse().unwrap();
    let positions = fetch::<BusPositions, _>(&Stub(positions_body()), &client.positions_along(Some(Route::new("10A")), None));

    assert!(positions.is_ok());
    assert_eq!(positions.unwrap().bus_positions[0].deviation.text, "-2.5");
}

#[test]
fn test_positions_along_with_route() {
    let client: MetroBus = "9e38c3eab34c4e6c990828002828f5ed".parse().unwrap();
    let request = client.positions_along(Some(Route::new("10A")), None);
    assert_eq!(request.query, pairs(&[("Route", "10A")]));

    assert!(fetch::<BusPositions, _>(&Stub(positions_body()), &request).is_ok());
}

#[test]
fn test_positions_along_with_route_and_lat_long_radius() {
    let client: MetroBus = "9e38c3eab34c4e6c990828002828f5ed".parse().unwrap();
    let request = client.positions_along(Some(Route::new("10A")), Some(area()));
    assert_eq!(
        request.query,
        pairs(&[("Route", "10A"), ("Radius", "1000"), ("Lat", "38.8817596"), ("Lon", "-77.0166426")])
    );

    assert!(fetch::<BusPositions, _>(&Stub(positions_body()), &request).is_ok());
}

fn incidents_body() -> String {
    "{\"BusIncidents\":[{\"DateUpdated\":\"2019-10-02T06:00:00\",\"Description\":\"Detour\",\"IncidentID\":\"1\",\"IncidentType\":\"Alert\",\"RoutesAffected\":[\"10A\"]}]}".to_string()
}

#[test]
fn test_incidents_along() {
    let client: MetroBus = "9e38c3eab34c4e6c990828002828f5ed".parse().unwrap();
    let incidents = fetch::<Incidents, _>(&Stub(incidents_body()), &client.incidents_along(None));

    assert!(incidents.is_ok());
}

#[test]
fn test_incidents_along_route() {
    let client: MetroBus = "9e38c3eab34c4e6c990828002828f5ed".parse().unwrap();
    let request = client.incidents_along(Some(Route::new("10A")));
    assert_eq!(request.query, pairs(&[("Route", "10A")]));
    let incidents = fetch::<Incidents, _>(&Stub(incidents_body()), &request);

    assert!(incidents.is_ok());
}

#[test]
fn tests_test_path() {
    let client: MetroBus = "9e38c3eab34c4e6c990828002828f5ed".parse().unwrap();
    let path = fetch::<PathDetails, _>(&Stub(path_body()), &client.path(Route::new("10A"), None));

    assert_eq!(path.unwrap().route, Route::new("10A"));
}

#[test]
fn test_path_with_date() {
    let client: MetroBus = "9e38c3eab34c4e6c990828002828f5ed".parse().unwrap();
    let request = client.path(Route::new("10A"), Some(Date::new(2019, 10, 1)));
    assert_eq!(request.query, pairs(&[("RouteID", "10A"), ("Date", "2019-10-01")]));
    let path = fetch::<PathDetails, _>(&Stub(path_body()), &request);

    assert_eq!(path.unwrap().route, Route::new("10A"));
}

#[test]
fn test_route_schedule() {
    let client: MetroBus = "9e38c3eab34c4e6c990828002828f5ed".parse().unwrap();
    let request = client.route_schedule(Route::new("10A"), None, false);
    assert_eq!(request.query, pairs(&[("RouteID", "10A")]));
    let route_schedule = fetch::<RouteSchedule, _>(&Stub(schedule_body()), &request);

    assert_eq!(route_schedule.unwrap().name, "10A - PENTAGON - HUNTINGTON STA");
}

#[test]
fn bus_test_path() {
    let client: MetroBus = "9e38c3eab34c4e6c990828002828f5ed".parse().unwrap();
    let route_schedule = fetch::<RouteSchedule, _>(&Stub(schedule_body()), &client.route_schedule(Route::new("A2"), None, false));

    assert!(route_schedule.is_ok());
}

#[test]
fn test_route_schedule_with_variations() {
    let client: MetroBus = "9e38c3eab34c4e6c990828002828f5ed".parse().unwrap();
    let request = client.route_schedule(Route::new("10A"), None, true);
    assert_eq!(request.query, pairs(&[("RouteID", "10A"), ("IncludingVariations", "true")]));
    let route_schedule = fetch::<RouteSchedule, _>(&Stub(schedule_body()), &request);

    assert_eq!(route_schedule.unwrap().name, "10A - PENTAGON - HUNTINGTON STA");
}

#[test]
fn test_route_schedule_with_date() {
    let client: MetroBus = "9e38c3eab34c4e6c990828002828f5ed".parse().unwrap();
    let request = client.route_schedule(Route::new("10A"), Some(Date::new(2019, 10, 2)), true);
    assert_eq!(
        request.query,
        pairs(&[("RouteID", "10A"), ("Date", "2019-10-02"), ("IncludingVariations", "true")])
    );
    let route_schedule = fetch::<RouteSchedule, _>(&Stub(schedule_body()), &request);

    assert_eq!(route_schedule.unwrap().name, "10A - PENTAGON - HUNTINGTON STA");
}

#[test]
fn test_stop_schedule() {
    let client: MetroBus = "9e38c3eab34c4e6c990828002828f5ed".parse().unwrap();
    let request = client.stop_schedule(&Stop::new("1001195"), None);
    assert_eq!(request.path, "https://api.wmata.com/Bus.svc/json/jStopSchedul");
    let stop_schedule = fetch::<StopSchedule, _>(&Stub(stop_schedule_body()), &request);

    assert_eq!(stop_schedule.unwrap().stop.stop.unwrap(), Stop("1001195".to_string()));
}

#[test]
fn test_stop_schedule_with_date() {
    let client: MetroBus = "9e38c3eab34c4e6c990828002828f5ed".parse().unwrap();
    let request = client.stop_schedule(&Stop::new("1001195"), Some(Date::new(2019, 10, 2)));
    assert_eq!(request.query, pairs(&[("StopID", "1001195"), ("Date", "2019-10-02")]));
    let stop_schedule = fetch::<StopSchedule, _>(&Stub(stop_schedule_body()), &request);

    assert_eq!(stop_schedule.unwrap().stop.stop.unwrap(), Stop("1001195".to_string()));
}

#[test]
fn stop_builds_its_own_requests() {
    let stop = Stop::new("1001195");
    let r = stop.next_buses("key");
    assert_eq!(r.path, "https://api.wmata.com/NextBusService.svc/json/jPredictions");
    assert_eq!(r.api_key, "key");
    assert_eq!(r.query, pairs(&[("StopID", "1001195")]));

    let r = stop.schedule(Some(Date::new(2019, 10, 2)), "key");
    assert_eq!(r.query, pairs(&[("StopID", "1001195"), ("Date", "2019-10-02")]));

    let body = "{\"Predictions\":[{\"DirectionNum\":\"0\",\"DirectionText\":\"North to Pentagon\",\"Minutes\":7,\"RouteID\":\"10A\",\"TripID\":\"9421\",\"VehicleID\":\"6431\"}],\"StopName\":\"Huntington Station\"}";
    let p = fetch::<Predictions, _>(&Stub(body.to_string()), &stop.next_buses("key")).unwrap();
    assert_eq!(p.predictions[0].minutes, 7);
    assert_eq!(p.stop_name, "Huntington Station");
}
