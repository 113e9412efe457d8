use wmata::error::ErrorKind;
use wmata::line::LineCode;
use wmata::rail::responses::{
    ElevatorAndEscalatorIncidents, RailIncidents, StationEntrances, StationInformation,
    StationToStationInfos, Stations, StationsParking,
};
use wmata::requests::{deserialize, fetch, Request, Requester};
use wmata::{Line, MetroRail, Station};

/// Answers station-to-station requests by how many stations they name.
struct Fares;

fn info(from: &str, to: &str) -> String {
    format!(
        "{{\"CompositeMiles\":1.5,\"DestinationStation\":\"{}\",\"RailFare\":{{\"OffPeakTime\":2.0,\"PeakTime\":2.25,\"SeniorDisabled\":1.0}},\"RailTime\":4,\"SourceStation\":\"{}\"}}",
        to, from
    )
}

fn infos(n: usize, from: &str) -> String {
    let entries: Vec<String> = (0..n).map(|_| info(from, "A02")).collect();
    format!("{{\"StationToStationInfos\":[{}]}}", entries.join(","))
}

impl Requester for Fares {
    fn request(&self, request: &Request) -> Result<String, String> {
        match &request.query {
            Some(q) if q.len() == 2 => Ok(infos(1, &q[0].1)),
            Some(q) => Ok(infos(93, &q[0].1)),
            None => Ok(infos(8922, "A01")),
        }
    }
}

struct Stub(String);

impl Requester for Stub {
    fn request(&self, _request: &Request) -> Result<String, String> {
        Ok(self.0.clone())
    }
}

fn station_json(code: &str, line: &str) -> String {
    format!(
        "{{\"Address\":{{\"City\":\"Washington\",\"State\":\"DC\",\"Street\":\"607 13th St NW\",\"Zip\":\"20005\"}},\"Code\":\"{}\",\"Lat\":38.898303,\"Lon\":-77.028099,\"LineCode1\":\"{}\",\"LineCode2\":null,\"LineCode3\":null,\"LineCode4\":null,\"Name\":\"Somewhere\",\"StationTogether1\":\"\",\"StationTogether2\":\"\"}}",
        code, line
    )
}

fn stations_body(n: usize) -> String {
    let entries: Vec<String> = (0..n).map(|_| station_json("A01", "RD")).collect();
    format!("{{\"Stations\":[{}]}}", entries.join(","))
}

#[test]
fn tests_test_station() {
    let rail: MetroRail = "9e38c3eab34c4e6c990828002828f5ed".parse().unwrap();
    let r = fetch::<StationToStationInfos, _>(&Fares, &rail.station_to_station(Some(Station::A01), Some(Station::A02)));

    assert_eq!(r.unwrap().station_to_station_infos.len(), 1);
}

#[test]
fn tests_test_station_one_station() {
    let rail: MetroRail = "9e38c3eab34c4e6c990828002828f5ed".parse().unwrap();
    let r = fetch::<StationToStationInfos, _>(&Fares, &rail.station_to_station(Some(Station::A01), None));

    assert_eq!(r.unwrap().station_to_station_infos.len(), 93);
}

#[test]
fn tests_test_station_no_stations() {
    let rail: MetroRail = "9e38c3eab34c4e6c990828002828f5ed".parse().unwrap();
    let r = fetch::<StationToStationInfos, _>(&Fares, &rail.station_to_station(None, None));

    assert_eq!(r.unwrap().station_to_station_infos.len(), 8922);
}

#[test]
fn test_station_to_station() {
    let client: MetroRail = "9e38c3eab34c4e6c990828002828f5ed".parse().unwrap();
    let r = fetch::<StationToStationInfos, _>(&Fares, &client.station_to_station(Some(Station::A01), Some(Station::A02)));

    assert!(r.is_ok());
}

#[test]
fn test_to_station() {
    let client: MetroRail = "9e38c3eab34c4e6c990828002828f5ed".parse().unwrap();
    let r = fetch::<StationToStationInfos, _>(&Fares, &client.station_to_station(Some(Station::A01), Some(Station::A02)));
    let x = r.unwrap();

    assert_eq!(x.station_to_station_infos[0].source_station, Station::A01);
    assert_eq!(x.station_to_station_infos[0].composite_miles.text, "1.5");
    assert_eq!(x.station_to_station_infos[0].rail_fare.peak_time.text, "2.25");
}

#[test]
fn tests_test_stations() {
    let rail: MetroRail = "9e38c3eab34c4e6c990828002828f5ed".parse().unwrap();
    let request = rail.stations_on(Some(Line::Red));
    assert_eq!(request.query, Some(vec![("LineCode".to_string(), "RD".to_string())]));

    let r = fetch::<Stations, _>(&Stub(stations_body(27)), &request);
    assert_eq!(r.unwrap().stations.len(), 27);
}

#[test]
fn tests_test_all_stations() {
    let rail: MetroRail = "9e38c3eab34c4e6c990828002828f5ed".parse().unwrap();
    let request = rail.stations_on(None);
    assert!(request.query.is_none());

    let r = fetch::<Stations, _>(&Stub(stations_body(95)), &request);
    assert_eq!(r.unwrap().stations.len(), 95);
}

#[test]
fn test_stations_on() {
    let client: MetroRail = "9e38c3eab34c4e6c990828002828f5ed".parse().unwrap();
    let stations = fetch::<Stations, _>(&Stub(stations_body(27)), &client.stations_on(Some(Line::Red)));

    assert!(stations.is_ok());
}

#[test]
fn tests_test_entrances() {
    let rail: MetroRail = "9e38c3eab34c4e6c990828002828f5ed".parse().unwrap();
    let area = vec![
        ("Radius".to_string(), "1".to_string()),
        ("Lat".to_string(), "1".to_string()),
        ("Lon".to_string(), "1".to_string()),
    ];
    let request = rail.entrances(area.clone());
    assert_eq!(request.query, Some(area));
    assert_eq!(request.path, "https://api.wmata.com/Rail.svc/json/jStationEntrances");

    let r = fetch::<StationEntrances, _>(&Stub("{\"Entrances\":[]}".to_string()), &request);
    assert_eq!(r.unwrap().entrances.len(), 0);
}

fn elevator_body() -> String {
    "{\"ElevatorIncidents\":[{\"UnitName\":\"A01E01\",\"UnitType\":\"ESCALATOR\",\"UnitStatus\":null,\"StationCode\":\"A01\",\"StationName\":\"Metro Center\",\"LocationDescription\":\"Escalator to mezzanine\",\"SymptomCode\":null,\"TimeOutOfService\":\"0935\",\"SymptomDescription\":\"Service Call\",\"DisplayOrder\":0,\"DateOutOfServ\":\"2019-10-01T09:35:00\",\"DateUpdated\":\"2019-10-02T10:00:00\",\"EstimatedReturnToService\":\"not known\"}]}".to_string()
}

#[test]
fn tests_test_elevator_and_escalator_incidents() {
    let rail: MetroRail = "9e38c3eab34c4e6c990828002828f5ed".parse().unwrap();
    let request = rail.elevator_and_escalator_incidents_at(Some(Station::A01));
    assert_eq!(request.query, Some(vec![("StationCode".to_string(), "A01".to_string())]));

    let r = fetch::<ElevatorAndEscalatorIncidents, _>(&Stub(elevator_body()), &request);
    assert!(r.is_ok());
    let r = r.unwrap();
    assert!(r.incidents[0].estimated_return_to_service.is_none());
    assert_eq!(r.incidents[0].date_updated.text, "2019-10-02T10:00:00");
}

#[test]
fn tests_test_all_elevator_and_escalator_incidents() {
    let rail: MetroRail = "9e38c3eab34c4e6c990828002828f5ed".parse().unwrap();
    let request = rail.elevator_and_escalator_incidents_at(None);
    assert!(request.query.is_none());

    assert!(fetch::<ElevatorAndEscalatorIncidents, _>(&Stub(elevator_body()), &request).is_ok());
}

fn incidents_body() -> String {
    "{\"Incidents\":[{\"IncidentID\":\"3754F8B2\",\"Description\":\"Red Line: Expect residual delays.\",\"StartLocationFullName\":null,\"EndLocationFullName\":null,\"PassengerDelay\":0,\"DelaySeverity\":null,\"IncidentType\":\"Delay\",\"EmergencyText\":null,\"LinesAffected\":\"RD;\",\"DateUpdated\":\"2019-10-02T06:41:04\"}]}".to_string()
}

#[test]
fn tests_test_incident() {
    let rail: MetroRail = "9e38c3eab34c4e6c990828002828f5ed".parse().unwrap();
    let r = fetch::<RailIncidents, _>(&Stub(incidents_body()), &rail.incidents_at(Some(Station::A01)));

    assert!(r.is_ok());
}

#[test]
fn tests_test_all_incidents() {
    let rail: MetroRail = "9e38c3eab34c4e6c990828002828f5ed".parse().unwrap();
    let r = fetch::<RailIncidents, _>(&Stub(incidents_body()), &rail.incidents_at(None));

    assert!(r.is_ok());
}

#[test]
fn incident_with_a_bad_timestamp_is_malformed() {
    let body = incidents_body().replace("2019-10-02T06:41:04", "yesterday");
    let e = deserialize::<RailIncidents>(&body).unwrap_err();
    assert_eq!(e.kind, ErrorKind::Malformed);
}

#[test]
fn tests_test_information() {
    let client: MetroRail = "9e38c3eab34c4e6c990828002828f5ed".parse().unwrap();
    let r = fetch::<StationInformation, _>(&Stub(station_json("A01", "RD")), &client.station_information(Station::A01));

    assert_eq!(r.unwrap().code, Station::A01);
}

#[test]
fn tests_test_parking_information() {
    let client: MetroRail = "9e38c3eab34c4e6c990828002828f5ed".parse().unwrap();
    let r = fetch::<StationsParking, _>(&Stub("{\"StationsParking\":[]}".to_string()), &client.parking_information(Station::A01));

    assert_eq!(r.unwrap().stations_parking.len(), 0);
}

#[test]
fn line_code_codec() {
    assert_eq!(LineCode::Orange.to_string(), "OR");
    assert_eq!(LineCode::from_str("SV"), Ok(LineCode::Silver));
    assert!(LineCode::from_str("YLRP").is_err());
}
