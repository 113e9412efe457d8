//! Responses of MetroRail operations.
use crate::date::{lenient_timestamp_read, timestamp_or_none};
use crate::json::{field, optional, optional_accepts, optional_read, required, required_accepts, required_read, FromJson, Json};
use crate::rail::station::{empty_or_station, lenient_station_read};
use vstd::prelude::*;

verus! {

/// Basic information on all MetroRail lines.
#[derive(Debug)]
pub struct Lines {
    /// See [`Line`].
    pub lines: Vec<Line>,
}

impl FromJson for Lines {
    open spec fn accepts(j: Json) -> bool {
        &&& required_accepts::<Vec<Line>>(j, "Lines"@)
    }

    open spec fn read_from(self, j: Json) -> bool {
        &&& required_read(self.lines, j, "Lines"@)
    }

    fn from_json(j: &Json) -> (r: Result<Lines, String>) {
        let lines = required::<Vec<Line>>(j, "Lines")?;
        Ok(Lines { lines })
    }
}

/// A MetroRail line.
#[derive(Debug)]
pub struct Line {
    /// The line.
    pub line_code: crate::rail::line::Line,
    /// Full name of the line.
    pub display_name: String,
    /// Station at the start of the line.
    pub start_station_code: crate::rail::station::Station,
    /// Station at the end of the line.
    pub end_station_code: crate::rail::station::Station,
    /// Intermediate terminal station, if any.
    pub first_internal_destination: Option<crate::rail::station::Station>,
    /// Intermediate terminal station, if any.
    pub second_internal_destination: Option<crate::rail::station::Station>,
}

impl FromJson for Line {
    open spec fn accepts(j: Json) -> bool {
        &&& required_accepts::<crate::rail::line::Line>(j, "LineCode"@)
        &&& required_accepts::<String>(j, "DisplayName"@)
        &&& required_accepts::<crate::rail::station::Station>(j, "StartStationCode"@)
        &&& required_accepts::<crate::rail::station::Station>(j, "EndStationCode"@)
        &&& field(j, "InternalDestination1"@) is Some
        &&& field(j, "InternalDestination2"@) is Some
    }

    open spec fn read_from(self, j: Json) -> bool {
        &&& required_read(self.line_code, j, "LineCode"@)
        &&& required_read(self.display_name, j, "DisplayName"@)
        &&& required_read(self.start_station_code, j, "StartStationCode"@)
        &&& required_read(self.end_station_code, j, "EndStationCode"@)
        &&& lenient_station_read(self.first_internal_destination, j, "InternalDestination1"@)
        &&& lenient_station_read(self.second_internal_destination, j, "InternalDestination2"@)
    }

    fn from_json(j: &Json) -> (r: Result<Line, String>) {
        let line_code = required::<crate::rail::line::Line>(j, "LineCode")?;
        let display_name = required::<String>(j, "DisplayName")?;
        let start_station_code = required::<crate::rail::station::Station>(j, "StartStationCode")?;
        let end_station_code = required::<crate::rail::station::Station>(j, "EndStationCode")?;
        let first_internal_destination = empty_or_station(j, "InternalDestination1")?;
        let second_internal_destination = empty_or_station(j, "InternalDestination2")?;
        Ok(Line { line_code, display_name, start_station_code, end_station_code, first_internal_destination, second_internal_destination })
    }
}

/// Trains in service.
#[derive(Debug)]
pub struct TrainPositions {
    /// See [`TrainPosition`].
    pub train_positions: Vec<TrainPosition>,
}

impl FromJson for TrainPositions {
    open spec fn accepts(j: Json) -> bool {
        &&& required_accepts::<Vec<TrainPosition>>(j, "TrainPositions"@)
    }

    open spec fn read_from(self, j: Json) -> bool {
        &&& required_read(self.train_positions, j, "TrainPositions"@)
    }

    fn from_json(j: &Json) -> (r: Result<TrainPositions, String>) {
        let train_positions = required::<Vec<TrainPosition>>(j, "TrainPositions")?;
        Ok(TrainPositions { train_positions })
    }
}

/// A train in service and the circuit it occupies.
#[derive(Debug)]
pub struct TrainPosition {
    /// Uniquely identifiable internal train identifier.
    pub train_id: String,
    /// Non-unique train identifier.
    pub train_number: String,
    /// Number of cars. Can be 0.
    pub car_count: i32,
    /// The direction of movement regardless of track.
    pub direction_number: i32,
    /// The circuit the train is currently on.
    pub circuit_id: i32,
    /// Destination station.
    pub destination_station_code: Option<crate::rail::station::Station>,
    /// Line of this train.
    pub line_code: Option<crate::rail::line::Line>,
    /// Approximate dwell time.
    pub seconds_at_location: i32,
    /// Service type of the train.
    pub service_type: String,
}

impl FromJson for TrainPosition {
    open spec fn accepts(j: Json) -> bool {
        &&& required_accepts::<String>(j, "TrainId"@)
        &&& required_accepts::<String>(j, "TrainNumber"@)
        &&& required_accepts::<i32>(j, "CarCount"@)
        &&& required_accepts::<i32>(j, "DirectionNum"@)
        &&& required_accepts::<i32>(j, "CircuitId"@)
        &&& optional_accepts::<crate::rail::station::Station>(j, "DestinationStationCode"@)
        &&& optional_accepts::<crate::rail::line::Line>(j, "LineCode"@)
        &&& required_accepts::<i32>(j, "SecondsAtLocation"@)
        &&& required_accepts::<String>(j, "ServiceType"@)
    }

    open spec fn read_from(self, j: Json) -> bool {
        &&& required_read(self.train_id, j, "TrainId"@)
        &&& required_read(self.train_number, j, "TrainNumber"@)
        &&& required_read(self.car_count, j, "CarCount"@)
        &&& required_read(self.direction_number, j, "DirectionNum"@)
        &&& required_read(self.circuit_id, j, "CircuitId"@)
        &&& optional_read(self.destination_station_code, j, "DestinationStationCode"@)
        &&& optional_read(self.line_code, j, "LineCode"@)
        &&& required_read(self.seconds_at_location, j, "SecondsAtLocation"@)
        &&& required_read(self.service_type, j, "ServiceType"@)
    }

    fn from_json(j: &Json) -> (r: Result<TrainPosition, String>) {
        let train_id = required::<String>(j, "TrainId")?;
        let train_number = required::<String>(j, "TrainNumber")?;
        let car_count = required::<i32>(j, "CarCount")?;
        let direction_number = required::<i32>(j, "DirectionNum")?;
        let circuit_id = required::<i32>(j, "CircuitId")?;
        let destination_station_code = optional::<crate::rail::station::Station>(j, "DestinationStationCode")?;
        let line_code = optional::<crate::rail::line::Line>(j, "LineCode")?;
        let seconds_at_location = required::<i32>(j, "SecondsAtLocation")?;
        let service_type = required::<String>(j, "ServiceType")?;
        Ok(TrainPosition { train_id, train_number, car_count, direction_number, circuit_id, destination_station_code, line_code, seconds_at_location, service_type })
    }
}

/// Ordered track circuits by line and track.
#[derive(Debug)]
pub struct StandardRoutes {
    /// See [`StandardRoute`].
    pub standard_routes: Vec<StandardRoute>,
}

impl FromJson for StandardRoutes {
    open spec fn accepts(j: Json) -> bool {
        &&& required_accepts::<Vec<StandardRoute>>(j, "StandardRoutes"@)
    }

    open spec fn read_from(self, j: Json) -> bool {
        &&& required_read(self.standard_routes, j, "StandardRoutes"@)
    }

    fn from_json(j: &Json) -> (r: Result<StandardRoutes, String>) {
        let standard_routes = required::<Vec<StandardRoute>>(j, "StandardRoutes")?;
        Ok(StandardRoutes { standard_routes })
    }
}

/// The track circuits of one line and track.
#[derive(Debug)]
pub struct StandardRoute {
    /// Line of this route.
    pub line_code: crate::rail::line::Line,
    /// Track number. 1 or 2.
    pub track_number: i32,
    /// See [`TrackCircuitWithStation`].
    pub track_circuits: Vec<TrackCircuitWithStation>,
}

impl FromJson for StandardRoute {
    open spec fn accepts(j: Json) -> bool {
        &&& required_accepts::<crate::rail::line::Line>(j, "LineCode"@)
        &&& required_accepts::<i32>(j, "TrackNum"@)
        &&& required_accepts::<Vec<TrackCircuitWithStation>>(j, "TrackCircuits"@)
    }

    open spec fn read_from(self, j: Json) -> bool {
        &&& required_read(self.line_code, j, "LineCode"@)
        &&& required_read(self.track_number, j, "TrackNum"@)
        &&& required_read(self.track_circuits, j, "TrackCircuits"@)
    }

    fn from_json(j: &Json) -> (r: Result<StandardRoute, String>) {
        let line_code = required::<crate::rail::line::Line>(j, "LineCode")?;
        let track_number = required::<i32>(j, "TrackNum")?;
        let track_circuits = required::<Vec<TrackCircuitWithStation>>(j, "TrackCircuits")?;
        Ok(StandardRoute { line_code, track_number, track_circuits })
    }
}

/// A track circuit in route order.
#[derive(Debug)]
pub struct TrackCircuitWithStation {
    /// Order of the circuit on its line and track.
    pub sequence_number: i32,
    /// System-wide circuit number.
    pub circuit_id: i32,
    /// Station at this circuit, if any.
    pub station_code: Option<crate::rail::station::Station>,
}

impl FromJson for TrackCircuitWithStation {
    open spec fn accepts(j: Json) -> bool {
        &&& required_accepts::<i32>(j, "SeqNum"@)
        &&& required_accepts::<i32>(j, "CircuitId"@)
        &&& optional_accepts::<crate::rail::station::Station>(j, "StationCode"@)
    }

    open spec fn read_from(self, j: Json) -> bool {
        &&& required_read(self.sequence_number, j, "SeqNum"@)
        &&& required_read(self.circuit_id, j, "CircuitId"@)
        &&& optional_read(self.station_code, j, "StationCode"@)
    }

    fn from_json(j: &Json) -> (r: Result<TrackCircuitWithStation, String>) {
        let sequence_number = required::<i32>(j, "SeqNum")?;
        let circuit_id = required::<i32>(j, "CircuitId")?;
        let station_code = optional::<crate::rail::station::Station>(j, "StationCode")?;
        Ok(TrackCircuitWithStation { sequence_number, circuit_id, station_code })
    }
}

/// All track circuits.
#[derive(Debug)]
pub struct TrackCircuits {
    /// See [`TrackCircuit`].
    pub track_circuits: Vec<TrackCircuit>,
}

impl FromJson for TrackCircuits {
    open spec fn accepts(j: Json) -> bool {
        &&& required_accepts::<Vec<TrackCircuit>>(j, "TrackCircuits"@)
    }

    open spec fn read_from(self, j: Json) -> bool {
        &&& required_read(self.track_circuits, j, "TrackCircuits"@)
    }

    fn from_json(j: &Json) -> (r: Result<TrackCircuits, String>) {
        let track_circuits = required::<Vec<TrackCircuit>>(j, "TrackCircuits")?;
        Ok(TrackCircuits { track_circuits })
    }
}

/// A track circuit and its neighbors.
#[derive(Debug)]
pub struct TrackCircuit {
    /// Track number.
    pub track: i32,
    /// System-wide circuit number.
    pub circuit_id: i32,
    /// See [`TrackNeighbor`].
    pub neighbors: Vec<TrackNeighbor>,
}

impl FromJson for TrackCircuit {
    open spec fn accepts(j: Json) -> bool {
        &&& required_accepts::<i32>(j, "Track"@)
        &&& required_accepts::<i32>(j, "CircuitId"@)
        &&& required_accepts::<Vec<TrackNeighbor>>(j, "Neighbors"@)
    }

    open spec fn read_from(self, j: Json) -> bool {
        &&& required_read(self.track, j, "Track"@)
        &&& required_read(self.circuit_id, j, "CircuitId"@)
        &&& required_read(self.neighbors, j, "Neighbors"@)
    }

    fn from_json(j: &Json) -> (r: Result<TrackCircuit, String>) {
        let track = required::<i32>(j, "Track")?;
        let circuit_id = required::<i32>(j, "CircuitId")?;
        let neighbors = required::<Vec<TrackNeighbor>>(j, "Neighbors")?;
        Ok(TrackCircuit { track, circuit_id, neighbors })
    }
}

/// A group of neighboring circuits.
#[derive(Debug)]
pub struct TrackNeighbor {
    /// Left or Right neighbor group.
    pub neighbor_type: String,
    /// Neighboring circuit ids.
    pub circuit_ids: Vec<i32>,
}

impl FromJson for TrackNeighbor {
    open spec fn accepts(j: Json) -> bool {
        &&& required_accepts::<String>(j, "NeighborType"@)
        &&& required_accepts::<Vec<i32>>(j, "CircuitIds"@)
    }

    open spec fn read_from(self, j: Json) -> bool {
        &&& required_read(self.neighbor_type, j, "NeighborType"@)
        &&& required_read(self.circuit_ids, j, "CircuitIds"@)
    }

    fn from_json(j: &Json) -> (r: Result<TrackNeighbor, String>) {
        let neighbor_type = required::<String>(j, "NeighborType")?;
        let circuit_ids = required::<Vec<i32>>(j, "CircuitIds")?;
        Ok(TrackNeighbor { neighbor_type, circuit_ids })
    }
}

/// Next train arrivals.
#[derive(Debug)]
pub struct RailPredictions {
    /// See [`RailPrediction`].
    pub trains: Vec<RailPrediction>,
}

impl FromJson for RailPredictions {
    open spec fn accepts(j: Json) -> bool {
        &&& required_accepts::<Vec<RailPrediction>>(j, "Trains"@)
    }

    open spec fn read_from(self, j: Json) -> bool {
        &&& required_read(self.trains, j, "Trains"@)
    }

    fn from_json(j: &Json) -> (r: Result<RailPredictions, String>) {
        let trains = required::<Vec<RailPrediction>>(j, "Trains")?;
        Ok(RailPredictions { trains })
    }
}

/// One predicted train arrival.
#[derive(Debug)]
pub struct RailPrediction {
    /// Number of cars.
    pub car: Option<String>,
    /// Abbreviated final destination.
    pub destination: String,
    /// Destination station.
    pub destination_code: Option<crate::rail::station::Station>,
    /// Full name of the destination.
    pub destination_name: String,
    /// Track group.
    pub group: String,
    /// Line abbreviation, or blank.
    pub line: String,
    /// Station where the train is arriving.
    pub location_code: crate::rail::station::Station,
    /// Name of that station.
    pub location_name: String,
    /// Minutes until arrival, or ARR, BRD, ---.
    pub minutes: String,
}

impl FromJson for RailPrediction {
    open spec fn accepts(j: Json) -> bool {
        &&& optional_accepts::<String>(j, "Car"@)
        &&& required_accepts::<String>(j, "Destination"@)
        &&& optional_accepts::<crate::rail::station::Station>(j, "DestinationCode"@)
        &&& required_accepts::<String>(j, "DestinationName"@)
        &&& required_accepts::<String>(j, "Group"@)
        &&& required_accepts::<String>(j, "Line"@)
        &&& required_accepts::<crate::rail::station::Station>(j, "LocationCode"@)
        &&& required_accepts::<String>(j, "LocationName"@)
        &&& required_accepts::<String>(j, "Min"@)
    }

    open spec fn read_from(self, j: Json) -> bool {
        &&& optional_read(self.car, j, "Car"@)
        &&& required_read(self.destination, j, "Destination"@)
        &&& optional_read(self.destination_code, j, "DestinationCode"@)
        &&& required_read(self.destination_name, j, "DestinationName"@)
        &&& required_read(self.group, j, "Group"@)
        &&& required_read(self.line, j, "Line"@)
        &&& required_read(self.location_code, j, "LocationCode"@)
        &&& required_read(self.location_name, j, "LocationName"@)
        &&& required_read(self.minutes, j, "Min"@)
    }

    fn from_json(j: &Json) -> (r: Result<RailPrediction, String>) {
        let car = optional::<String>(j, "Car")?;
        let destination = required::<String>(j, "Destination")?;
        let destination_code = optional::<crate::rail::station::Station>(j, "DestinationCode")?;
        let destination_name = required::<String>(j, "DestinationName")?;
        let group = required::<String>(j, "Group")?;
        let line = required::<String>(j, "Line")?;
        let location_code = required::<crate::rail::station::Station>(j, "LocationCode")?;
        let location_name = required::<String>(j, "LocationName")?;
        let minutes = required::<String>(j, "Min")?;
        Ok(RailPrediction { car, destination, destination_code, destination_name, group, line, location_code, location_name, minutes })
    }
}

/// Address of a station.
#[derive(Debug)]
pub struct StationAddress {
    /// City.
    pub city: String,
    /// State.
    pub state: String,
    /// Street address.
    pub street: String,
    /// Zip code.
    pub zip: String,
}

impl FromJson for StationAddress {
    open spec fn accepts(j: Json) -> bool {
        &&& required_accepts::<String>(j, "City"@)
        &&& required_accepts::<String>(j, "State"@)
        &&& required_accepts::<String>(j, "Street"@)
        &&& required_accepts::<String>(j, "Zip"@)
    }

    open spec fn read_from(self, j: Json) -> bool {
        &&& required_read(self.city, j, "City"@)
        &&& required_read(self.state, j, "State"@)
        &&& required_read(self.street, j, "Street"@)
        &&& required_read(self.zip, j, "Zip"@)
    }

    fn from_json(j: &Json) -> (r: Result<StationAddress, String>) {
        let city = required::<String>(j, "City")?;
        let state = required::<String>(j, "State")?;
        let street = required::<String>(j, "Street")?;
        let zip = required::<String>(j, "Zip")?;
        Ok(StationAddress { city, state, street, zip })
    }
}

/// Address of a station.
#[derive(Debug)]
pub struct Address {
    /// City.
    pub city: String,
    /// State.
    pub state: String,
    /// Street address.
    pub street: String,
    /// Zip code.
    pub zip: String,
}

impl FromJson for Address {
    open spec fn accepts(j: Json) -> bool {
        &&& required_accepts::<String>(j, "City"@)
        &&& required_accepts::<String>(j, "State"@)
        &&& required_accepts::<String>(j, "Street"@)
        &&& required_accepts::<String>(j, "Zip"@)
    }

    open spec fn read_from(self, j: Json) -> bool {
        &&& required_read(self.city, j, "City"@)
        &&& required_read(self.state, j, "State"@)
        &&& required_read(self.street, j, "Street"@)
        &&& required_read(self.zip, j, "Zip"@)
    }

    fn from_json(j: &Json) -> (r: Result<Address, String>) {
        let city = required::<String>(j, "City")?;
        let state = required::<String>(j, "State")?;
        let street = required::<String>(j, "Street")?;
        let zip = required::<String>(j, "Zip")?;
        Ok(Address { city, state, street, zip })
    }
}

/// Short-term parking at a station.
#[derive(Debug)]
pub struct ShortTermParking {
    /// Number of short-term spots.
    pub total_count: i32,
    /// Notes on short-term parking.
    pub notes: String,
}

impl FromJson for ShortTermParking {
    open spec fn accepts(j: Json) -> bool {
        &&& required_accepts::<i32>(j, "TotalCount"@)
        &&& required_accepts::<String>(j, "Notes"@)
    }

    open spec fn read_from(self, j: Json) -> bool {
        &&& required_read(self.total_count, j, "TotalCount"@)
        &&& required_read(self.notes, j, "Notes"@)
    }

    fn from_json(j: &Json) -> (r: Result<ShortTermParking, String>) {
        let total_count = required::<i32>(j, "TotalCount")?;
        let notes = required::<String>(j, "Notes")?;
        Ok(ShortTermParking { total_count, notes })
    }
}

/// Stations between two stations on one line.
#[derive(Debug)]
pub struct PathBetweenStations {
    /// See [`Path`].
    pub path: Vec<Path>,
}

impl FromJson for PathBetweenStations {
    open spec fn accepts(j: Json) -> bool {
        &&& required_accepts::<Vec<Path>>(j, "Path"@)
    }

    open spec fn read_from(self, j: Json) -> bool {
        &&& required_read(self.path, j, "Path"@)
    }

    fn from_json(j: &Json) -> (r: Result<PathBetweenStations, String>) {
        let path = required::<Vec<Path>>(j, "Path")?;
        Ok(PathBetweenStations { path })
    }
}

/// One station along a path.
#[derive(Debug)]
pub struct Path {
    /// Feet to the previous station.
    pub distance_to_previous_station: i32,
    /// Line of this station.
    pub line_code: crate::rail::line::Line,
    /// Ordered sequence number.
    pub sequence_number: i32,
    /// This station.
    pub station_code: crate::rail::station::Station,
    /// Name of this station.
    pub station_name: String,
}

impl FromJson for Path {
    open spec fn accepts(j: Json) -> bool {
        &&& required_accepts::<i32>(j, "DistanceToPrev"@)
        &&& required_accepts::<crate::rail::line::Line>(j, "LineCode"@)
        &&& required_accepts::<i32>(j, "SeqNum"@)
        &&& required_accepts::<crate::rail::station::Station>(j, "StationCode"@)
        &&& required_accepts::<String>(j, "StationName"@)
    }

    open spec fn read_from(self, j: Json) -> bool {
        &&& required_read(self.distance_to_previous_station, j, "DistanceToPrev"@)
        &&& required_read(self.line_code, j, "LineCode"@)
        &&& required_read(self.sequence_number, j, "SeqNum"@)
        &&& required_read(self.station_code, j, "StationCode"@)
        &&& required_read(self.station_name, j, "StationName"@)
    }

    fn from_json(j: &Json) -> (r: Result<Path, String>) {
        let distance_to_previous_station = required::<i32>(j, "DistanceToPrev")?;
        let line_code = required::<crate::rail::line::Line>(j, "LineCode")?;
        let sequence_number = required::<i32>(j, "SeqNum")?;
        let station_code = required::<crate::rail::station::Station>(j, "StationCode")?;
        let station_name = required::<String>(j, "StationName")?;
        Ok(Path { distance_to_previous_station, line_code, sequence_number, station_code, station_name })
    }
}

/// Opening and train times of stations.
#[derive(Debug)]
pub struct StationTimings {
    /// See [`StationTime`].
    pub station_times: Vec<StationTime>,
}

impl FromJson for StationTimings {
    open spec fn accepts(j: Json) -> bool {
        &&& required_accepts::<Vec<StationTime>>(j, "StationTimes"@)
    }

    open spec fn read_from(self, j: Json) -> bool {
        &&& required_read(self.station_times, j, "StationTimes"@)
    }

    fn from_json(j: &Json) -> (r: Result<StationTimings, String>) {
        let station_times = required::<Vec<StationTime>>(j, "StationTimes")?;
        Ok(StationTimings { station_times })
    }
}

/// Opening and train times of a station, by day.
#[derive(Debug)]
pub struct StationTime {
    /// This station.
    pub code: crate::rail::station::Station,
    /// Name of this station.
    pub station_name: String,
    /// Times on Monday.
    pub monday: StationFirstLastTrains,
    /// Times on Tuesday.
    pub tuesday: StationFirstLastTrains,
    /// Times on Wednesday.
    pub wednesday: StationFirstLastTrains,
    /// Times on Thursday.
    pub thursday: StationFirstLastTrains,
    /// Times on Friday.
    pub friday: StationFirstLastTrains,
    /// Times on Saturday.
    pub saturday: StationFirstLastTrains,
    /// Times on Sunday.
    pub sunday: StationFirstLastTrains,
}

impl FromJson for StationTime {
    open spec fn accepts(j: Json) -> bool {
        &&& required_accepts::<crate::rail::station::Station>(j, "Code"@)
        &&& required_accepts::<String>(j, "StationName"@)
        &&& required_accepts::<StationFirstLastTrains>(j, "Monday"@)
        &&& required_accepts::<StationFirstLastTrains>(j, "Tuesday"@)
        &&& required_accepts::<StationFirstLastTrains>(j, "Wednesday"@)
        &&& required_accepts::<StationFirstLastTrains>(j, "Thursday"@)
        &&& required_accepts::<StationFirstLastTrains>(j, "Friday"@)
        &&& required_accepts::<StationFirstLastTrains>(j, "Saturday"@)
        &&& required_accepts::<StationFirstLastTrains>(j, "Sunday"@)
    }

    open spec fn read_from(self, j: Json) -> bool {
        &&& required_read(self.code, j, "Code"@)
        &&& required_read(self.station_name, j, "StationName"@)
        &&& required_read(self.monday, j, "Monday"@)
        &&& required_read(self.tuesday, j, "Tuesday"@)
        &&& required_read(self.wednesday, j, "Wednesday"@)
        &&& required_read(self.thursday, j, "Thursday"@)
        &&& required_read(self.friday, j, "Friday"@)
        &&& required_read(self.saturday, j, "Saturday"@)
        &&& required_read(self.sunday, j, "Sunday"@)
    }

    fn from_json(j: &Json) -> (r: Result<StationTime, String>) {
        let code = required::<crate::rail::station::Station>(j, "Code")?;
        let station_name = required::<String>(j, "StationName")?;
        let monday = required::<StationFirstLastTrains>(j, "Monday")?;
        let tuesday = required::<StationFirstLastTrains>(j, "Tuesday")?;
        let wednesday = required::<StationFirstLastTrains>(j, "Wednesday")?;
        let thursday = required::<StationFirstLastTrains>(j, "Thursday")?;
        let friday = required::<StationFirstLastTrains>(j, "Friday")?;
        let saturday = required::<StationFirstLastTrains>(j, "Saturday")?;
        let sunday = required::<StationFirstLastTrains>(j, "Sunday")?;
        Ok(StationTime { code, station_name, monday, tuesday, wednesday, thursday, friday, saturday, sunday })
    }
}

/// Opening time and first and last trains of one day.
#[derive(Debug)]
pub struct StationFirstLastTrains {
    /// Opening time, HH:mm.
    pub opening_time: String,
    /// See [`TrainTime`].
    pub first_trains: Vec<TrainTime>,
    /// See [`TrainTime`].
    pub last_trains: Vec<TrainTime>,
}

impl FromJson for StationFirstLastTrains {
    open spec fn accepts(j: Json) -> bool {
        &&& required_accepts::<String>(j, "OpeningTime"@)
        &&& required_accepts::<Vec<TrainTime>>(j, "FirstTrains"@)
        &&& required_accepts::<Vec<TrainTime>>(j, "LastTrains"@)
    }

    open spec fn read_from(self, j: Json) -> bool {
        &&& required_read(self.opening_time, j, "OpeningTime"@)
        &&& required_read(self.first_trains, j, "FirstTrains"@)
        &&& required_read(self.last_trains, j, "LastTrains"@)
    }

    fn from_json(j: &Json) -> (r: Result<StationFirstLastTrains, String>) {
        let opening_time = required::<String>(j, "OpeningTime")?;
        let first_trains = required::<Vec<TrainTime>>(j, "FirstTrains")?;
        let last_trains = required::<Vec<TrainTime>>(j, "LastTrains")?;
        Ok(StationFirstLastTrains { opening_time, first_trains, last_trains })
    }
}

/// A train leaving a station.
#[derive(Debug)]
pub struct TrainTime {
    /// Time the train leaves.
    pub time: String,
    /// Destination station.
    pub destination_station: crate::rail::station::Station,
}

impl FromJson for TrainTime {
    open spec fn accepts(j: Json) -> bool {
        &&& required_accepts::<String>(j, "Time"@)
        &&& required_accepts::<crate::rail::station::Station>(j, "DestinationStation"@)
    }

    open spec fn read_from(self, j: Json) -> bool {
        &&& required_read(self.time, j, "Time"@)
        &&& required_read(self.destination_station, j, "DestinationStation"@)
    }

    fn from_json(j: &Json) -> (r: Result<TrainTime, String>) {
        let time = required::<String>(j, "Time")?;
        let destination_station = required::<crate::rail::station::Station>(j, "DestinationStation")?;
        Ok(TrainTime { time, destination_station })
    }
}

/// Nearby station entrances.
#[derive(Debug)]
pub struct StationEntrances {
    /// See [`StationEntrance`].
    pub entrances: Vec<StationEntrance>,
}

impl FromJson for StationEntrances {
    open spec fn accepts(j: Json) -> bool {
        &&& required_accepts::<Vec<StationEntrance>>(j, "Entrances"@)
    }

    open spec fn read_from(self, j: Json) -> bool {
        &&& required_read(self.entrances, j, "Entrances"@)
    }

    fn from_json(j: &Json) -> (r: Result<StationEntrances, String>) {
        let entrances = required::<Vec<StationEntrance>>(j, "Entrances")?;
        Ok(StationEntrances { entrances })
    }
}

/// A station entrance.
#[derive(Debug)]
pub struct StationEntrance {
    /// Additional information for the entrance.
    pub description: String,
    /// Deprecated identifier.
    pub id: String,
    /// Latitude of the entrance.
    pub latitude: crate::json::Decimal,
    /// Longitude of the entrance.
    pub longitude: crate::json::Decimal,
    /// Name of the entrance.
    pub name: String,
    /// Station of this entrance.
    pub first_station_code: crate::rail::station::Station,
    /// Second station of this entrance, if any.
    pub second_station_code: Option<crate::rail::station::Station>,
}

impl FromJson for StationEntrance {
    open spec fn accepts(j: Json) -> bool {
        &&& required_accepts::<String>(j, "Description"@)
        &&& required_accepts::<String>(j, "ID"@)
        &&& required_accepts::<crate::json::Decimal>(j, "Lat"@)
        &&& required_accepts::<crate::json::Decimal>(j, "Lon"@)
        &&& required_accepts::<String>(j, "Name"@)
        &&& required_accepts::<crate::rail::station::Station>(j, "StationCode1"@)
        &&& field(j, "StationCode2"@) is Some
    }

    open spec fn read_from(self, j: Json) -> bool {
        &&& required_read(self.description, j, "Description"@)
        &&& required_read(self.id, j, "ID"@)
        &&& required_read(self.latitude, j, "Lat"@)
        &&& required_read(self.longitude, j, "Lon"@)
        &&& required_read(self.name, j, "Name"@)
        &&& required_read(self.first_station_code, j, "StationCode1"@)
        &&& lenient_station_read(self.second_station_code, j, "StationCode2"@)
    }

    fn from_json(j: &Json) -> (r: Result<StationEntrance, String>) {
        let description = required::<String>(j, "Description")?;
        let id = required::<String>(j, "ID")?;
        let latitude = required::<crate::json::Decimal>(j, "Lat")?;
        let longitude = required::<crate::json::Decimal>(j, "Lon")?;
        let name = required::<String>(j, "Name")?;
        let first_station_code = required::<crate::rail::station::Station>(j, "StationCode1")?;
        let second_station_code = empty_or_station(j, "StationCode2")?;
        Ok(StationEntrance { description, id, latitude, longitude, name, first_station_code, second_station_code })
    }
}

/// Elevator and escalator outages.
#[derive(Debug)]
pub struct ElevatorAndEscalatorIncidents {
    /// See [`ElevatorAndEscalatorIncident`].
    pub incidents: Vec<ElevatorAndEscalatorIncident>,
}

impl FromJson for ElevatorAndEscalatorIncidents {
    open spec fn accepts(j: Json) -> bool {
        &&& required_accepts::<Vec<ElevatorAndEscalatorIncident>>(j, "ElevatorIncidents"@)
    }

    open spec fn read_from(self, j: Json) -> bool {
        &&& required_read(self.incidents, j, "ElevatorIncidents"@)
    }

    fn from_json(j: &Json) -> (r: Result<ElevatorAndEscalatorIncidents, String>) {
        let incidents = required::<Vec<ElevatorAndEscalatorIncident>>(j, "ElevatorIncidents")?;
        Ok(ElevatorAndEscalatorIncidents { incidents })
    }
}

/// An elevator or escalator outage.
#[derive(Debug)]
pub struct ElevatorAndEscalatorIncident {
    /// Unique identifier of the unit.
    pub unit_name: String,
    /// ELEVATOR or ESCALATOR.
    pub unit_type: String,
    /// Deprecated status.
    pub unit_status: Option<String>,
    /// Station of the unit.
    pub station_code: crate::rail::station::Station,
    /// Name of the station.
    pub station_name: String,
    /// Where the unit is.
    pub location_description: String,
    /// Deprecated symptom code.
    pub symptom_code: Option<String>,
    /// Deprecated time.
    pub time_out_of_service: String,
    /// Description of the outage.
    pub symptom_description: String,
    /// Deprecated order.
    pub display_order: crate::json::Decimal,
    /// When the unit went out of service.
    pub date_out_of_service: crate::date::Timestamp,
    /// When the record was last updated.
    pub date_updated: crate::date::Timestamp,
    /// Estimated return, when the API gives one.
    pub estimated_return_to_service: Option<crate::date::Timestamp>,
}

impl FromJson for ElevatorAndEscalatorIncident {
    open spec fn accepts(j: Json) -> bool {
        &&& required_accepts::<String>(j, "UnitName"@)
        &&& required_accepts::<String>(j, "UnitType"@)
        &&& optional_accepts::<String>(j, "UnitStatus"@)
        &&& required_accepts::<crate::rail::station::Station>(j, "StationCode"@)
        &&& required_accepts::<String>(j, "StationName"@)
        &&& required_accepts::<String>(j, "LocationDescription"@)
        &&& optional_accepts::<String>(j, "SymptomCode"@)
        &&& required_accepts::<String>(j, "TimeOutOfService"@)
        &&& required_accepts::<String>(j, "SymptomDescription"@)
        &&& required_accepts::<crate::json::Decimal>(j, "DisplayOrder"@)
        &&& required_accepts::<crate::date::Timestamp>(j, "DateOutOfServ"@)
        &&& required_accepts::<crate::date::Timestamp>(j, "DateUpdated"@)
        &&& field(j, "EstimatedReturnToService"@) matches Some(v) && v is Str
    }

    open spec fn read_from(self, j: Json) -> bool {
        &&& required_read(self.unit_name, j, "UnitName"@)
        &&& required_read(self.unit_type, j, "UnitType"@)
        &&& optional_read(self.unit_status, j, "UnitStatus"@)
        &&& required_read(self.station_code, j, "StationCode"@)
        &&& required_read(self.station_name, j, "StationName"@)
        &&& required_read(self.location_description, j, "LocationDescription"@)
        &&& optional_read(self.symptom_code, j, "SymptomCode"@)
        &&& required_read(self.time_out_of_service, j, "TimeOutOfService"@)
        &&& required_read(self.symptom_description, j, "SymptomDescription"@)
        &&& required_read(self.display_order, j, "DisplayOrder"@)
        &&& required_read(self.date_out_of_service, j, "DateOutOfServ"@)
        &&& required_read(self.date_updated, j, "DateUpdated"@)
        &&& lenient_timestamp_read(self.estimated_return_to_service, j, "EstimatedReturnToService"@)
    }

    fn from_json(j: &Json) -> (r: Result<ElevatorAndEscalatorIncident, String>) {
        let unit_name = required::<String>(j, "UnitName")?;
        let unit_type = required::<String>(j, "UnitType")?;
        let unit_status = optional::<String>(j, "UnitStatus")?;
        let station_code = required::<crate::rail::station::Station>(j, "StationCode")?;
        let station_name = required::<String>(j, "StationName")?;
        let location_description = required::<String>(j, "LocationDescription")?;
        let symptom_code = optional::<String>(j, "SymptomCode")?;
        let time_out_of_service = required::<String>(j, "TimeOutOfService")?;
        let symptom_description = required::<String>(j, "SymptomDescription")?;
        let display_order = required::<crate::json::Decimal>(j, "DisplayOrder")?;
        let date_out_of_service = required::<crate::date::Timestamp>(j, "DateOutOfServ")?;
        let date_updated = required::<crate::date::Timestamp>(j, "DateUpdated")?;
        let estimated_return_to_service = timestamp_or_none(j, "EstimatedReturnToService")?;
        Ok(ElevatorAndEscalatorIncident { unit_name, unit_type, unit_status, station_code, station_name, location_description, symptom_code, time_out_of_service, symptom_description, display_order, date_out_of_service, date_updated, estimated_return_to_service })
    }
}

/// Rail incidents.
#[derive(Debug)]
pub struct RailIncidents {
    /// See [`RailIncident`].
    pub incidents: Vec<RailIncident>,
}

impl FromJson for RailIncidents {
    open spec fn accepts(j: Json) -> bool {
        &&& required_accepts::<Vec<RailIncident>>(j, "Incidents"@)
    }

    open spec fn read_from(self, j: Json) -> bool {
        &&& required_read(self.incidents, j, "Incidents"@)
    }

    fn from_json(j: &Json) -> (r: Result<RailIncidents, String>) {
        let incidents = required::<Vec<RailIncident>>(j, "Incidents")?;
        Ok(RailIncidents { incidents })
    }
}

/// A rail incident.
#[derive(Debug)]
pub struct RailIncident {
    /// Unique identifier of the incident.
    pub incident_id: String,
    /// Free-text description.
    pub description: String,
    /// Deprecated.
    pub start_location_full_name: Option<String>,
    /// Deprecated.
    pub end_location_full_name: Option<String>,
    /// Deprecated delay.
    pub passenger_delay: crate::json::Decimal,
    /// Deprecated severity.
    pub delay_severity: Option<String>,
    /// Kind of incident.
    pub incident_type: String,
    /// Deprecated.
    pub emergency_text: Option<String>,
    /// Semicolon-separated line codes.
    pub lines_affected: String,
    /// When the incident was last updated.
    pub date_updated: crate::date::Timestamp,
}

impl FromJson for RailIncident {
    open spec fn accepts(j: Json) -> bool {
        &&& required_accepts::<String>(j, "IncidentID"@)
        &&& required_accepts::<String>(j, "Description"@)
        &&& optional_accepts::<String>(j, "StartLocationFullName"@)
        &&& optional_accepts::<String>(j, "EndLocationFullName"@)
        &&& required_accepts::<crate::json::Decimal>(j, "PassengerDelay"@)
        &&& optional_accepts::<String>(j, "DelaySeverity"@)
        &&& required_accepts::<String>(j, "IncidentType"@)
        &&& optional_accepts::<String>(j, "EmergencyText"@)
        &&& required_accepts::<String>(j, "LinesAffected"@)
        &&& required_accepts::<crate::date::Timestamp>(j, "DateUpdated"@)
    }

    open spec fn read_from(self, j: Json) -> bool {
        &&& required_read(self.incident_id, j, "IncidentID"@)
        &&& required_read(self.description, j, "Description"@)
        &&& optional_read(self.start_location_full_name, j, "StartLocationFullName"@)
        &&& optional_read(self.end_location_full_name, j, "EndLocationFullName"@)
        &&& required_read(self.passenger_delay, j, "PassengerDelay"@)
        &&& optional_read(self.delay_severity, j, "DelaySeverity"@)
        &&& required_read(self.incident_type, j, "IncidentType"@)
        &&& optional_read(self.emergency_text, j, "EmergencyText"@)
        &&& required_read(self.lines_affected, j, "LinesAffected"@)
        &&& required_read(self.date_updated, j, "DateUpdated"@)
    }

    fn from_json(j: &Json) -> (r: Result<RailIncident, String>) {
        let incident_id = required::<String>(j, "IncidentID")?;
        let description = required::<String>(j, "Description")?;
        let start_location_full_name = optional::<String>(j, "StartLocationFullName")?;
        let end_location_full_name = optional::<String>(j, "EndLocationFullName")?;
        let passenger_delay = required::<crate::json::Decimal>(j, "PassengerDelay")?;
        let delay_severity = optional::<String>(j, "DelaySeverity")?;
        let incident_type = required::<String>(j, "IncidentType")?;
        let emergency_text = optional::<String>(j, "EmergencyText")?;
        let lines_affected = required::<String>(j, "LinesAffected")?;
        let date_updated = required::<crate::date::Timestamp>(j, "DateUpdated")?;
        Ok(RailIncident { incident_id, description, start_location_full_name, end_location_full_name, passenger_delay, delay_severity, incident_type, emergency_text, lines_affected, date_updated })
    }
}

/// Travel between stations.
#[derive(Debug)]
pub struct StationToStationInfos {
    /// See [`StationToStationInfo`].
    pub station_to_station_infos: Vec<StationToStationInfo>,
}

impl FromJson for StationToStationInfos {
    open spec fn accepts(j: Json) -> bool {
        &&& required_accepts::<Vec<StationToStationInfo>>(j, "StationToStationInfos"@)
    }

    open spec fn read_from(self, j: Json) -> bool {
        &&& required_read(self.station_to_station_infos, j, "StationToStationInfos"@)
    }

    fn from_json(j: &Json) -> (r: Result<StationToStationInfos, String>) {
        let station_to_station_infos = required::<Vec<StationToStationInfo>>(j, "StationToStationInfos")?;
        Ok(StationToStationInfos { station_to_station_infos })
    }
}

/// Distance, fare and time between two stations.
#[derive(Debug)]
pub struct StationToStationInfo {
    /// Distance in miles.
    pub composite_miles: crate::json::Decimal,
    /// Destination station.
    pub destination_station: crate::rail::station::Station,
    /// See [`RailFare`].
    pub rail_fare: RailFare,
    /// Travel time in minutes.
    pub rail_time: i32,
    /// Origin station.
    pub source_station: crate::rail::station::Station,
}

impl FromJson for StationToStationInfo {
    open spec fn accepts(j: Json) -> bool {
        &&& required_accepts::<crate::json::Decimal>(j, "CompositeMiles"@)
        &&& required_accepts::<crate::rail::station::Station>(j, "DestinationStation"@)
        &&& required_accepts::<RailFare>(j, "RailFare"@)
        &&& required_accepts::<i32>(j, "RailTime"@)
        &&& required_accepts::<crate::rail::station::Station>(j, "SourceStation"@)
    }

    open spec fn read_from(self, j: Json) -> bool {
        &&& required_read(self.composite_miles, j, "CompositeMiles"@)
        &&& required_read(self.destination_station, j, "DestinationStation"@)
        &&& required_read(self.rail_fare, j, "RailFare"@)
        &&& required_read(self.rail_time, j, "RailTime"@)
        &&& required_read(self.source_station, j, "SourceStation"@)
    }

    fn from_json(j: &Json) -> (r: Result<StationToStationInfo, String>) {
        let composite_miles = required::<crate::json::Decimal>(j, "CompositeMiles")?;
        let destination_station = required::<crate::rail::station::Station>(j, "DestinationStation")?;
        let rail_fare = required::<RailFare>(j, "RailFare")?;
        let rail_time = required::<i32>(j, "RailTime")?;
        let source_station = required::<crate::rail::station::Station>(j, "SourceStation")?;
        Ok(StationToStationInfo { composite_miles, destination_station, rail_fare, rail_time, source_station })
    }
}

/// Fares between two stations.
#[derive(Debug)]
pub struct RailFare {
    /// Off-peak fare.
    pub off_peak_time: crate::json::Decimal,
    /// Peak fare.
    pub peak_time: crate::json::Decimal,
    /// Reduced fare.
    pub senior_disabled: crate::json::Decimal,
}

impl FromJson for RailFare {
    open spec fn accepts(j: Json) -> bool {
        &&& required_accepts::<crate::json::Decimal>(j, "OffPeakTime"@)
        &&& required_accepts::<crate::json::Decimal>(j, "PeakTime"@)
        &&& required_accepts::<crate::json::Decimal>(j, "SeniorDisabled"@)
    }

    open spec fn read_from(self, j: Json) -> bool {
        &&& required_read(self.off_peak_time, j, "OffPeakTime"@)
        &&& required_read(self.peak_time, j, "PeakTime"@)
        &&& required_read(self.senior_disabled, j, "SeniorDisabled"@)
    }

    fn from_json(j: &Json) -> (r: Result<RailFare, String>) {
        let off_peak_time = required::<crate::json::Decimal>(j, "OffPeakTime")?;
        let peak_time = required::<crate::json::Decimal>(j, "PeakTime")?;
        let senior_disabled = required::<crate::json::Decimal>(j, "SeniorDisabled")?;
        Ok(RailFare { off_peak_time, peak_time, senior_disabled })
    }
}

/// Location and address of a station.
#[derive(Debug)]
pub struct StationInformation {
    /// See [`StationAddress`].
    pub address: StationAddress,
    /// This station.
    pub code: crate::rail::station::Station,
    /// Latitude.
    pub latitude: crate::json::Decimal,
    /// Longitude.
    pub longitude: crate::json::Decimal,
    /// First line served.
    pub first_line_code: crate::rail::line::Line,
    /// Second line served.
    pub second_line_code: Option<crate::rail::line::Line>,
    /// Third line served.
    pub third_line_code: Option<crate::rail::line::Line>,
    /// Fourth line served.
    pub fourth_line_code: Option<crate::rail::line::Line>,
    /// Name of the station.
    pub name: String,
    /// Other platform of a transfer station.
    pub first_station_together: Option<crate::rail::station::Station>,
    /// Unused.
    pub second_station_together: Option<crate::rail::station::Station>,
}

impl FromJson for StationInformation {
    open spec fn accepts(j: Json) -> bool {
        &&& required_accepts::<StationAddress>(j, "Address"@)
        &&& required_accepts::<crate::rail::station::Station>(j, "Code"@)
        &&& required_accepts::<crate::json::Decimal>(j, "Lat"@)
        &&& required_accepts::<crate::json::Decimal>(j, "Lon"@)
        &&& required_accepts::<crate::rail::line::Line>(j, "LineCode1"@)
        &&& optional_accepts::<crate::rail::line::Line>(j, "LineCode2"@)
        &&& optional_accepts::<crate::rail::line::Line>(j, "LineCode3"@)
        &&& optional_accepts::<crate::rail::line::Line>(j, "LineCode4"@)
        &&& required_accepts::<String>(j, "Name"@)
        &&& field(j, "StationTogether1"@) is Some
        &&& field(j, "StationTogether2"@) is Some
    }

    open spec fn read_from(self, j: Json) -> bool {
        &&& required_read(self.address, j, "Address"@)
        &&& required_read(self.code, j, "Code"@)
        &&& required_read(self.latitude, j, "Lat"@)
        &&& required_read(self.longitude, j, "Lon"@)
        &&& required_read(self.first_line_code, j, "LineCode1"@)
        &&& optional_read(self.second_line_code, j, "LineCode2"@)
        &&& optional_read(self.third_line_code, j, "LineCode3"@)
        &&& optional_read(self.fourth_line_code, j, "LineCode4"@)
        &&& required_read(self.name, j, "Name"@)
        &&& lenient_station_read(self.first_station_together, j, "StationTogether1"@)
        &&& lenient_station_read(self.second_station_together, j, "StationTogether2"@)
    }

    fn from_json(j: &Json) -> (r: Result<StationInformation, String>) {
        let address = required::<StationAddress>(j, "Address")?;
        let code = required::<crate::rail::station::Station>(j, "Code")?;
        let latitude = required::<crate::json::Decimal>(j, "Lat")?;
        let longitude = required::<crate::json::Decimal>(j, "Lon")?;
        let first_line_code = required::<crate::rail::line::Line>(j, "LineCode1")?;
        let second_line_code = optional::<crate::rail::line::Line>(j, "LineCode2")?;
        let third_line_code = optional::<crate::rail::line::Line>(j, "LineCode3")?;
        let fourth_line_code = optional::<crate::rail::line::Line>(j, "LineCode4")?;
        let name = required::<String>(j, "Name")?;
        let first_station_together = empty_or_station(j, "StationTogether1")?;
        let second_station_together = empty_or_station(j, "StationTogether2")?;
        Ok(StationInformation { address, code, latitude, longitude, first_line_code, second_line_code, third_line_code, fourth_line_code, name, first_station_together, second_station_together })
    }
}

/// Parking at stations.
#[derive(Debug)]
pub struct StationsParking {
    /// See [`StationParking`].
    pub stations_parking: Vec<StationParking>,
}

impl FromJson for StationsParking {
    open spec fn accepts(j: Json) -> bool {
        &&& required_accepts::<Vec<StationParking>>(j, "StationsParking"@)
    }

    open spec fn read_from(self, j: Json) -> bool {
        &&& required_read(self.stations_parking, j, "StationsParking"@)
    }

    fn from_json(j: &Json) -> (r: Result<StationsParking, String>) {
        let stations_parking = required::<Vec<StationParking>>(j, "StationsParking")?;
        Ok(StationsParking { stations_parking })
    }
}

/// Parking at one station.
#[derive(Debug)]
pub struct StationParking {
    /// This station.
    pub code: crate::rail::station::Station,
    /// Notes on parking.
    pub notes: Option<String>,
    /// See [`AllDayParking`].
    pub all_day_parking: AllDayParking,
    /// See [`ShortTermParking`].
    pub short_term_parking: ShortTermParking,
}

impl FromJson for StationParking {
    open spec fn accepts(j: Json) -> bool {
        &&& required_accepts::<crate::rail::station::Station>(j, "Code"@)
        &&& optional_accepts::<String>(j, "Notes"@)
        &&& required_accepts::<AllDayParking>(j, "AllDayParking"@)
        &&& required_accepts::<ShortTermParking>(j, "ShortTermParking"@)
    }

    open spec fn read_from(self, j: Json) -> bool {
        &&& required_read(self.code, j, "Code"@)
        &&& optional_read(self.notes, j, "Notes"@)
        &&& required_read(self.all_day_parking, j, "AllDayParking"@)
        &&& required_read(self.short_term_parking, j, "ShortTermParking"@)
    }

    fn from_json(j: &Json) -> (r: Result<StationParking, String>) {
        let code = required::<crate::rail::station::Station>(j, "Code")?;
        let notes = optional::<String>(j, "Notes")?;
        let all_day_parking = required::<AllDayParking>(j, "AllDayParking")?;
        let short_term_parking = required::<ShortTermParking>(j, "ShortTermParking")?;
        Ok(StationParking { code, notes, all_day_parking, short_term_parking })
    }
}

/// All-day parking at a station.
#[derive(Debug)]
pub struct AllDayParking {
    /// Number of all-day spots.
    pub total_count: i32,
    /// Cost for riders.
    pub rider_cost: Option<crate::json::Decimal>,
    /// Cost for non-riders.
    pub non_rider_cost: Option<crate::json::Decimal>,
    /// Saturday cost for riders.
    pub saturday_rider_cost: Option<crate::json::Decimal>,
    /// Saturday cost for non-riders.
    pub saturday_non_rider_cost: Option<crate::json::Decimal>,
}

impl FromJson for AllDayParking {
    open spec fn accepts(j: Json) -> bool {
        &&& required_accepts::<i32>(j, "TotalCount"@)
        &&& optional_accepts::<crate::json::Decimal>(j, "RiderCost"@)
        &&& optional_accepts::<crate::json::Decimal>(j, "NonRiderCost"@)
        &&& optional_accepts::<crate::json::Decimal>(j, "SaturdayRiderCost"@)
        &&& optional_accepts::<crate::json::Decimal>(j, "SaturdayNonRiderCost"@)
    }

    open spec fn read_from(self, j: Json) -> bool {
        &&& required_read(self.total_count, j, "TotalCount"@)
        &&& optional_read(self.rider_cost, j, "RiderCost"@)
        &&& optional_read(self.non_rider_cost, j, "NonRiderCost"@)
        &&& optional_read(self.saturday_rider_cost, j, "SaturdayRiderCost"@)
        &&& optional_read(self.saturday_non_rider_cost, j, "SaturdayNonRiderCost"@)
    }

    fn from_json(j: &Json) -> (r: Result<AllDayParking, String>) {
        let total_count = required::<i32>(j, "TotalCount")?;
        let rider_cost = optional::<crate::json::Decimal>(j, "RiderCost")?;
        let non_rider_cost = optional::<crate::json::Decimal>(j, "NonRiderCost")?;
        let saturday_rider_cost = optional::<crate::json::Decimal>(j, "SaturdayRiderCost")?;
        let saturday_non_rider_cost = optional::<crate::json::Decimal>(j, "SaturdayNonRiderCost")?;
        Ok(AllDayParking { total_count, rider_cost, non_rider_cost, saturday_rider_cost, saturday_non_rider_cost })
    }
}

/// Stations, possibly on one line.
#[derive(Debug)]
pub struct Stations {
    /// See [`Station`].
    pub stations: Vec<Station>,
}

impl FromJson for Stations {
    open spec fn accepts(j: Json) -> bool {
        &&& required_accepts::<Vec<Station>>(j, "Stations"@)
    }

    open spec fn read_from(self, j: Json) -> bool {
        &&& required_read(self.stations, j, "Stations"@)
    }

    fn from_json(j: &Json) -> (r: Result<Stations, String>) {
        let stations = required::<Vec<Station>>(j, "Stations")?;
        Ok(Stations { stations })
    }
}

/// Location and address of a station.
#[derive(Debug)]
pub struct Station {
    /// See [`Address`].
    pub address: Address,
    /// This station.
    pub code: crate::rail::station::Station,
    /// Latitude.
    pub latitude: crate::json::Decimal,
    /// Longitude.
    pub longitude: crate::json::Decimal,
    /// First line served.
    pub first_line_code: crate::rail::line::Line,
    /// Second line served.
    pub second_line_code: Option<crate::rail::line::Line>,
    /// Third line served.
    pub third_line_code: Option<crate::rail::line::Line>,
    /// Fourth line served.
    pub fourth_line_code: Option<crate::rail::line::Line>,
    /// Name of the station.
    pub name: String,
    /// Other platform of a transfer station.
    pub first_station_together: Option<crate::rail::station::Station>,
    /// Unused.
    pub second_station_together: Option<crate::rail::station::Station>,
}

impl FromJson for Station {
    open spec fn accepts(j: Json) -> bool {
        &&& required_accepts::<Address>(j, "Address"@)
        &&& required_accepts::<crate::rail::station::Station>(j, "Code"@)
        &&& required_accepts::<crate::json::Decimal>(j, "Lat"@)
        &&& required_accepts::<crate::json::Decimal>(j, "Lon"@)
        &&& required_accepts::<crate::rail::line::Line>(j, "LineCode1"@)
        &&& optional_accepts::<crate::rail::line::Line>(j, "LineCode2"@)
        &&& optional_accepts::<crate::rail::line::Line>(j, "LineCode3"@)
        &&& optional_accepts::<crate::rail::line::Line>(j, "LineCode4"@)
        &&& required_accepts::<String>(j, "Name"@)
        &&& field(j, "StationTogether1"@) is Some
        &&& field(j, "StationTogether2"@) is Some
    }

    open spec fn read_from(self, j: Json) -> bool {
        &&& required_read(self.address, j, "Address"@)
        &&& required_read(self.code, j, "Code"@)
        &&& required_read(self.latitude, j, "Lat"@)
        &&& required_read(self.longitude, j, "Lon"@)
        &&& required_read(self.first_line_code, j, "LineCode1"@)
        &&& optional_read(self.second_line_code, j, "LineCode2"@)
        &&& optional_read(self.third_line_code, j, "LineCode3"@)
        &&& optional_read(self.fourth_line_code, j, "LineCode4"@)
        &&& required_read(self.name, j, "Name"@)
        &&& lenient_station_read(self.first_station_together, j, "StationTogether1"@)
        &&& lenient_station_read(self.second_station_together, j, "StationTogether2"@)
    }

    fn from_json(j: &Json) -> (r: Result<Station, String>) {
        let address = required::<Address>(j, "Address")?;
        let code = required::<crate::rail::station::Station>(j, "Code")?;
        let latitude = required::<crate::json::Decimal>(j, "Lat")?;
        let longitude = required::<crate::json::Decimal>(j, "Lon")?;
        let first_line_code = required::<crate::rail::line::Line>(j, "LineCode1")?;
        let second_line_code = optional::<crate::rail::line::Line>(j, "LineCode2")?;
        let third_line_code = optional::<crate::rail::line::Line>(j, "LineCode3")?;
        let fourth_line_code = optional::<crate::rail::line::Line>(j, "LineCode4")?;
        let name = required::<String>(j, "Name")?;
        let first_station_together = empty_or_station(j, "StationTogether1")?;
        let second_station_together = empty_or_station(j, "StationTogether2")?;
        Ok(Station { address, code, latitude, longitude, first_line_code, second_line_code, third_line_code, fourth_line_code, name, first_station_together, second_station_together })
    }
}

} // verus!
