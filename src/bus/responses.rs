//! Responses of MetroBus operations.
use crate::json::{optional, optional_accepts, optional_read, required, required_accepts, required_read, FromJson, Json};
use vstd::prelude::*;

verus! {

/// All bus route variants.
#[derive(Debug)]
pub struct Routes {
    /// See [`RouteResponse`].
    pub routes: Vec<RouteResponse>,
}

impl FromJson for Routes {
    open spec fn accepts(j: Json) -> bool {
        &&& required_accepts::<Vec<RouteResponse>>(j, "Routes"@)
    }

    open spec fn read_from(self, j: Json) -> bool {
        &&& required_read(self.routes, j, "Routes"@)
    }

    fn from_json(j: &Json) -> (r: Result<Routes, String>) {
        let routes = required::<Vec<RouteResponse>>(j, "Routes")?;
        Ok(Routes { routes })
    }
}

/// One bus route variant.
#[derive(Debug)]
pub struct RouteResponse {
    /// The route variant.
    pub route: crate::bus::route::Route,
    /// Descriptive name of the variant.
    pub name: String,
    /// The corridor grouping of the variant.
    pub line_description: String,
}

impl FromJson for RouteResponse {
    open spec fn accepts(j: Json) -> bool {
        &&& required_accepts::<crate::bus::route::Route>(j, "RouteID"@)
        &&& required_accepts::<String>(j, "Name"@)
        &&& required_accepts::<String>(j, "LineDescription"@)
    }

    open spec fn read_from(self, j: Json) -> bool {
        &&& required_read(self.route, j, "RouteID"@)
        &&& required_read(self.name, j, "Name"@)
        &&& required_read(self.line_description, j, "LineDescription"@)
    }

    fn from_json(j: &Json) -> (r: Result<RouteResponse, String>) {
        let route = required::<crate::bus::route::Route>(j, "RouteID")?;
        let name = required::<String>(j, "Name")?;
        let line_description = required::<String>(j, "LineDescription")?;
        Ok(RouteResponse { route, name, line_description })
    }
}

/// Next bus arrivals at a stop.
#[derive(Debug)]
pub struct Predictions {
    /// See [`Prediction`].
    pub predictions: Vec<Prediction>,
    /// Full name of the stop.
    pub stop_name: String,
}

impl FromJson for Predictions {
    open spec fn accepts(j: Json) -> bool {
        &&& required_accepts::<Vec<Prediction>>(j, "Predictions"@)
        &&& required_accepts::<String>(j, "StopName"@)
    }

    open spec fn read_from(self, j: Json) -> bool {
        &&& required_read(self.predictions, j, "Predictions"@)
        &&& required_read(self.stop_name, j, "StopName"@)
    }

    fn from_json(j: &Json) -> (r: Result<Predictions, String>) {
        let predictions = required::<Vec<Prediction>>(j, "Predictions")?;
        let stop_name = required::<String>(j, "StopName")?;
        Ok(Predictions { predictions, stop_name })
    }
}

/// One predicted bus arrival.
#[derive(Debug)]
pub struct Prediction {
    /// Binary direction of the bus.
    pub direction_number: String,
    /// Direction and destination.
    pub direction_text: String,
    /// Minutes until arrival.
    pub minutes: i32,
    /// Base route of the bus.
    pub route: crate::bus::route::Route,
    /// Trip identifier.
    pub trip_id: String,
    /// Bus identifier.
    pub vehicle_id: String,
}

impl FromJson for Prediction {
    open spec fn accepts(j: Json) -> bool {
        &&& required_accepts::<String>(j, "DirectionNum"@)
        &&& required_accepts::<String>(j, "DirectionText"@)
        &&& required_accepts::<i32>(j, "Minutes"@)
        &&& required_accepts::<crate::bus::route::Route>(j, "RouteID"@)
        &&& required_accepts::<String>(j, "TripID"@)
        &&& required_accepts::<String>(j, "VehicleID"@)
    }

    open spec fn read_from(self, j: Json) -> bool {
        &&& required_read(self.direction_number, j, "DirectionNum"@)
        &&& required_read(self.direction_text, j, "DirectionText"@)
        &&& required_read(self.minutes, j, "Minutes"@)
        &&& required_read(self.route, j, "RouteID"@)
        &&& required_read(self.trip_id, j, "TripID"@)
        &&& required_read(self.vehicle_id, j, "VehicleID"@)
    }

    fn from_json(j: &Json) -> (r: Result<Prediction, String>) {
        let direction_number = required::<String>(j, "DirectionNum")?;
        let direction_text = required::<String>(j, "DirectionText")?;
        let minutes = required::<i32>(j, "Minutes")?;
        let route = required::<crate::bus::route::Route>(j, "RouteID")?;
        let trip_id = required::<String>(j, "TripID")?;
        let vehicle_id = required::<String>(j, "VehicleID")?;
        Ok(Prediction { direction_number, direction_text, minutes, route, trip_id, vehicle_id })
    }
}

/// Bus positions.
#[derive(Debug)]
pub struct BusPositions {
    /// See [`BusPosition`].
    pub bus_positions: Vec<BusPosition>,
}

impl FromJson for BusPositions {
    open spec fn accepts(j: Json) -> bool {
        &&& required_accepts::<Vec<BusPosition>>(j, "BusPositions"@)
    }

    open spec fn read_from(self, j: Json) -> bool {
        &&& required_read(self.bus_positions, j, "BusPositions"@)
    }

    fn from_json(j: &Json) -> (r: Result<BusPositions, String>) {
        let bus_positions = required::<Vec<BusPosition>>(j, "BusPositions")?;
        Ok(BusPositions { bus_positions })
    }
}

/// The position of a bus.
#[derive(Debug)]
pub struct BusPosition {
    /// When the position was reported.
    pub date_time: crate::date::Timestamp,
    /// Minutes ahead of (negative) or behind schedule.
    pub deviation: crate::json::Decimal,
    /// Deprecated direction.
    pub direction_number: i32,
    /// General direction of the trip.
    pub direction_text: String,
    /// Latitude.
    pub latitude: crate::json::Decimal,
    /// Longitude.
    pub longitude: crate::json::Decimal,
    /// Base route of the bus.
    pub route: crate::bus::route::Route,
    /// Scheduled end of the trip.
    pub trip_end_time: crate::date::Timestamp,
    /// Destination of the bus.
    pub trip_headsign: String,
    /// Trip identifier.
    pub trip_id: String,
    /// Scheduled start of the trip.
    pub trip_start_time: crate::date::Timestamp,
    /// Bus identifier.
    pub vehicle_id: String,
}

impl FromJson for BusPosition {
    open spec fn accepts(j: Json) -> bool {
        &&& required_accepts::<crate::date::Timestamp>(j, "DateTime"@)
        &&& required_accepts::<crate::json::Decimal>(j, "Deviation"@)
        &&& required_accepts::<i32>(j, "DirectionNum"@)
        &&& required_accepts::<String>(j, "DirectionText"@)
        &&& required_accepts::<crate::json::Decimal>(j, "Lat"@)
        &&& required_accepts::<crate::json::Decimal>(j, "Lon"@)
        &&& required_accepts::<crate::bus::route::Route>(j, "RouteID"@)
        &&& required_accepts::<crate::date::Timestamp>(j, "TripEndTime"@)
        &&& required_accepts::<String>(j, "TripHeadsign"@)
        &&& required_accepts::<String>(j, "TripID"@)
        &&& required_accepts::<crate::date::Timestamp>(j, "TripStartTime"@)
        &&& required_accepts::<String>(j, "VehicleID"@)
    }

    open spec fn read_from(self, j: Json) -> bool {
        &&& required_read(self.date_time, j, "DateTime"@)
        &&& required_read(self.deviation, j, "Deviation"@)
        &&& required_read(self.direction_number, j, "DirectionNum"@)
        &&& required_read(self.direction_text, j, "DirectionText"@)
        &&& required_read(self.latitude, j, "Lat"@)
        &&& required_read(self.longitude, j, "Lon"@)
        &&& required_read(self.route, j, "RouteID"@)
        &&& required_read(self.trip_end_time, j, "TripEndTime"@)
        &&& required_read(self.trip_headsign, j, "TripHeadsign"@)
        &&& required_read(self.trip_id, j, "TripID"@)
        &&& required_read(self.trip_start_time, j, "TripStartTime"@)
        &&& required_read(self.vehicle_id, j, "VehicleID"@)
    }

    fn from_json(j: &Json) -> (r: Result<BusPosition, String>) {
        let date_time = required::<crate::date::Timestamp>(j, "DateTime")?;
        let deviation = required::<crate::json::Decimal>(j, "Deviation")?;
        let direction_number = required::<i32>(j, "DirectionNum")?;
        let direction_text = required::<String>(j, "DirectionText")?;
        let latitude = required::<crate::json::Decimal>(j, "Lat")?;
        let longitude = required::<crate::json::Decimal>(j, "Lon")?;
        let route = required::<crate::bus::route::Route>(j, "RouteID")?;
        let trip_end_time = required::<crate::date::Timestamp>(j, "TripEndTime")?;
        let trip_headsign = required::<String>(j, "TripHeadsign")?;
        let trip_id = required::<String>(j, "TripID")?;
        let trip_start_time = required::<crate::date::Timestamp>(j, "TripStartTime")?;
        let vehicle_id = required::<String>(j, "VehicleID")?;
        Ok(BusPosition { date_time, deviation, direction_number, direction_text, latitude, longitude, route, trip_end_time, trip_headsign, trip_id, trip_start_time, vehicle_id })
    }
}

/// Bus stops.
#[derive(Debug)]
pub struct Stops {
    /// See [`StopResponse`].
    pub stops: Vec<StopResponse>,
}

impl FromJson for Stops {
    open spec fn accepts(j: Json) -> bool {
        &&& required_accepts::<Vec<StopResponse>>(j, "Stops"@)
    }

    open spec fn read_from(self, j: Json) -> bool {
        &&& required_read(self.stops, j, "Stops"@)
    }

    fn from_json(j: &Json) -> (r: Result<Stops, String>) {
        let stops = required::<Vec<StopResponse>>(j, "Stops")?;
        Ok(Stops { stops })
    }
}

/// A bus stop and its routes.
#[derive(Debug)]
pub struct StopResponse {
    /// The stop.
    pub stop: Option<crate::bus::stop::Stop>,
    /// Name of the stop.
    pub name: String,
    /// Latitude.
    pub latitude: crate::json::Decimal,
    /// Longitude.
    pub longitude: crate::json::Decimal,
    /// Routes serving the stop.
    pub routes: Vec<crate::bus::route::Route>,
}

impl FromJson for StopResponse {
    open spec fn accepts(j: Json) -> bool {
        &&& optional_accepts::<crate::bus::stop::Stop>(j, "StopID"@)
        &&& required_accepts::<String>(j, "Name"@)
        &&& required_accepts::<crate::json::Decimal>(j, "Lat"@)
        &&& required_accepts::<crate::json::Decimal>(j, "Lon"@)
        &&& required_accepts::<Vec<crate::bus::route::Route>>(j, "Routes"@)
    }

    open spec fn read_from(self, j: Json) -> bool {
        &&& optional_read(self.stop, j, "StopID"@)
        &&& required_read(self.name, j, "Name"@)
        &&& required_read(self.latitude, j, "Lat"@)
        &&& required_read(self.longitude, j, "Lon"@)
        &&& required_read(self.routes, j, "Routes"@)
    }

    fn from_json(j: &Json) -> (r: Result<StopResponse, String>) {
        let stop = optional::<crate::bus::stop::Stop>(j, "StopID")?;
        let name = required::<String>(j, "Name")?;
        let latitude = required::<crate::json::Decimal>(j, "Lat")?;
        let longitude = required::<crate::json::Decimal>(j, "Lon")?;
        let routes = required::<Vec<crate::bus::route::Route>>(j, "Routes")?;
        Ok(StopResponse { stop, name, latitude, longitude, routes })
    }
}

/// Bus incidents.
#[derive(Debug)]
pub struct Incidents {
    /// See [`Incident`].
    pub incidents: Vec<Incident>,
}

impl FromJson for Incidents {
    open spec fn accepts(j: Json) -> bool {
        &&& required_accepts::<Vec<Incident>>(j, "BusIncidents"@)
    }

    open spec fn read_from(self, j: Json) -> bool {
        &&& required_read(self.incidents, j, "BusIncidents"@)
    }

    fn from_json(j: &Json) -> (r: Result<Incidents, String>) {
        let incidents = required::<Vec<Incident>>(j, "BusIncidents")?;
        Ok(Incidents { incidents })
    }
}

/// A bus incident.
#[derive(Debug)]
pub struct Incident {
    /// When the incident was last updated.
    pub date_updated: crate::date::Timestamp,
    /// Free-text description.
    pub description: String,
    /// Unique identifier of the incident.
    pub incident_id: String,
    /// Kind of incident.
    pub incident_type: String,
    /// Routes affected.
    pub routes_affected: Vec<crate::bus::route::Route>,
}

impl FromJson for Incident {
    open spec fn accepts(j: Json) -> bool {
        &&& required_accepts::<crate::date::Timestamp>(j, "DateUpdated"@)
        &&& required_accepts::<String>(j, "Description"@)
        &&& required_accepts::<String>(j, "IncidentID"@)
        &&& required_accepts::<String>(j, "IncidentType"@)
        &&& required_accepts::<Vec<crate::bus::route::Route>>(j, "RoutesAffected"@)
    }

    open spec fn read_from(self, j: Json) -> bool {
        &&& required_read(self.date_updated, j, "DateUpdated"@)
        &&& required_read(self.description, j, "Description"@)
        &&& required_read(self.incident_id, j, "IncidentID"@)
        &&& required_read(self.incident_type, j, "IncidentType"@)
        &&& required_read(self.routes_affected, j, "RoutesAffected"@)
    }

    fn from_json(j: &Json) -> (r: Result<Incident, String>) {
        let date_updated = required::<crate::date::Timestamp>(j, "DateUpdated")?;
        let description = required::<String>(j, "Description")?;
        let incident_id = required::<String>(j, "IncidentID")?;
        let incident_type = required::<String>(j, "IncidentType")?;
        let routes_affected = required::<Vec<crate::bus::route::Route>>(j, "RoutesAffected")?;
        Ok(Incident { date_updated, description, incident_id, incident_type, routes_affected })
    }
}

/// The path of a route variant.
#[derive(Debug)]
pub struct PathDetails {
    /// The route variant.
    pub route: crate::bus::route::Route,
    /// Descriptive name.
    pub name: String,
    /// One direction.
    pub direction_zero: PathDirection,
    /// The other direction.
    pub direction_one: PathDirection,
}

impl FromJson for PathDetails {
    open spec fn accepts(j: Json) -> bool {
        &&& required_accepts::<crate::bus::route::Route>(j, "RouteID"@)
        &&& required_accepts::<String>(j, "Name"@)
        &&& required_accepts::<PathDirection>(j, "Direction0"@)
        &&& required_accepts::<PathDirection>(j, "Direction1"@)
    }

    open spec fn read_from(self, j: Json) -> bool {
        &&& required_read(self.route, j, "RouteID"@)
        &&& required_read(self.name, j, "Name"@)
        &&& required_read(self.direction_zero, j, "Direction0"@)
        &&& required_read(self.direction_one, j, "Direction1"@)
    }

    fn from_json(j: &Json) -> (r: Result<PathDetails, String>) {
        let route = required::<crate::bus::route::Route>(j, "RouteID")?;
        let name = required::<String>(j, "Name")?;
        let direction_zero = required::<PathDirection>(j, "Direction0")?;
        let direction_one = required::<PathDirection>(j, "Direction1")?;
        Ok(PathDetails { route, name, direction_zero, direction_one })
    }
}

/// The path of a route variant in one direction.
#[derive(Debug)]
pub struct PathDirection {
    /// Destination of the bus.
    pub trip_headsign: String,
    /// General direction.
    pub direction_text: String,
    /// Direction number.
    pub direction_number: String,
    /// See [`PathShape`].
    pub shape: Vec<PathShape>,
    /// See [`StopRoutes`].
    pub stops: Vec<StopRoutes>,
}

impl FromJson for PathDirection {
    open spec fn accepts(j: Json) -> bool {
        &&& required_accepts::<String>(j, "TripHeadsign"@)
        &&& required_accepts::<String>(j, "DirectionText"@)
        &&& required_accepts::<String>(j, "DirectionNum"@)
        &&& required_accepts::<Vec<PathShape>>(j, "Shape"@)
        &&& required_accepts::<Vec<StopRoutes>>(j, "Stops"@)
    }

    open spec fn read_from(self, j: Json) -> bool {
        &&& required_read(self.trip_headsign, j, "TripHeadsign"@)
        &&& required_read(self.direction_text, j, "DirectionText"@)
        &&& required_read(self.direction_number, j, "DirectionNum"@)
        &&& required_read(self.shape, j, "Shape"@)
        &&& required_read(self.stops, j, "Stops"@)
    }

    fn from_json(j: &Json) -> (r: Result<PathDirection, String>) {
        let trip_headsign = required::<String>(j, "TripHeadsign")?;
        let direction_text = required::<String>(j, "DirectionText")?;
        let direction_number = required::<String>(j, "DirectionNum")?;
        let shape = required::<Vec<PathShape>>(j, "Shape")?;
        let stops = required::<Vec<StopRoutes>>(j, "Stops")?;
        Ok(PathDirection { trip_headsign, direction_text, direction_number, shape, stops })
    }
}

/// A point along a path.
#[derive(Debug)]
pub struct PathShape {
    /// Latitude.
    pub latitude: crate::json::Decimal,
    /// Longitude.
    pub longitude: crate::json::Decimal,
    /// Order of the point.
    pub sequence_number: i32,
}

impl FromJson for PathShape {
    open spec fn accepts(j: Json) -> bool {
        &&& required_accepts::<crate::json::Decimal>(j, "Lat"@)
        &&& required_accepts::<crate::json::Decimal>(j, "Lon"@)
        &&& required_accepts::<i32>(j, "SeqNum"@)
    }

    open spec fn read_from(self, j: Json) -> bool {
        &&& required_read(self.latitude, j, "Lat"@)
        &&& required_read(self.longitude, j, "Lon"@)
        &&& required_read(self.sequence_number, j, "SeqNum"@)
    }

    fn from_json(j: &Json) -> (r: Result<PathShape, String>) {
        let latitude = required::<crate::json::Decimal>(j, "Lat")?;
        let longitude = required::<crate::json::Decimal>(j, "Lon")?;
        let sequence_number = required::<i32>(j, "SeqNum")?;
        Ok(PathShape { latitude, longitude, sequence_number })
    }
}

/// Buses scheduled at a stop.
#[derive(Debug)]
pub struct StopSchedule {
    /// See [`Arrival`].
    pub arrivals: Vec<Arrival>,
    /// See [`StopRoutes`].
    pub stop: StopRoutes,
}

impl FromJson for StopSchedule {
    open spec fn accepts(j: Json) -> bool {
        &&& required_accepts::<Vec<Arrival>>(j, "ScheduleArrivals"@)
        &&& required_accepts::<StopRoutes>(j, "Stop"@)
    }

    open spec fn read_from(self, j: Json) -> bool {
        &&& required_read(self.arrivals, j, "ScheduleArrivals"@)
        &&& required_read(self.stop, j, "Stop"@)
    }

    fn from_json(j: &Json) -> (r: Result<StopSchedule, String>) {
        let arrivals = required::<Vec<Arrival>>(j, "ScheduleArrivals")?;
        let stop = required::<StopRoutes>(j, "Stop")?;
        Ok(StopSchedule { arrivals, stop })
    }
}

/// A scheduled arrival at a stop.
#[derive(Debug)]
pub struct Arrival {
    /// Scheduled arrival.
    pub schedule_time: crate::date::Timestamp,
    /// Direction number.
    pub direction_number: String,
    /// Start of the trip.
    pub start_time: crate::date::Timestamp,
    /// End of the trip.
    pub end_time: crate::date::Timestamp,
    /// Route of the trip.
    pub route: crate::bus::route::Route,
    /// General direction.
    pub trip_direction_text: String,
    /// Destination of the bus.
    pub trip_headsign: String,
    /// Trip identifier.
    pub trip_id: String,
}

impl FromJson for Arrival {
    open spec fn accepts(j: Json) -> bool {
        &&& required_accepts::<crate::date::Timestamp>(j, "ScheduleTime"@)
        &&& required_accepts::<String>(j, "DirectionNum"@)
        &&& required_accepts::<crate::date::Timestamp>(j, "StartTime"@)
        &&& required_accepts::<crate::date::Timestamp>(j, "EndTime"@)
        &&& required_accepts::<crate::bus::route::Route>(j, "RouteID"@)
        &&& required_accepts::<String>(j, "TripDirectionText"@)
        &&& required_accepts::<String>(j, "TripHeadsign"@)
        &&& required_accepts::<String>(j, "TripID"@)
    }

    open spec fn read_from(self, j: Json) -> bool {
        &&& required_read(self.schedule_time, j, "ScheduleTime"@)
        &&& required_read(self.direction_number, j, "DirectionNum"@)
        &&& required_read(self.start_time, j, "StartTime"@)
        &&& required_read(self.end_time, j, "EndTime"@)
        &&& required_read(self.route, j, "RouteID"@)
        &&& required_read(self.trip_direction_text, j, "TripDirectionText"@)
        &&& required_read(self.trip_headsign, j, "TripHeadsign"@)
        &&& required_read(self.trip_id, j, "TripID"@)
    }

    fn from_json(j: &Json) -> (r: Result<Arrival, String>) {
        let schedule_time = required::<crate::date::Timestamp>(j, "ScheduleTime")?;
        let direction_number = required::<String>(j, "DirectionNum")?;
        let start_time = required::<crate::date::Timestamp>(j, "StartTime")?;
        let end_time = required::<crate::date::Timestamp>(j, "EndTime")?;
        let route = required::<crate::bus::route::Route>(j, "RouteID")?;
        let trip_direction_text = required::<String>(j, "TripDirectionText")?;
        let trip_headsign = required::<String>(j, "TripHeadsign")?;
        let trip_id = required::<String>(j, "TripID")?;
        Ok(Arrival { schedule_time, direction_number, start_time, end_time, route, trip_direction_text, trip_headsign, trip_id })
    }
}

/// A bus stop and its routes.
#[derive(Debug)]
pub struct StopRoutes {
    /// The stop.
    pub stop: Option<crate::bus::stop::Stop>,
    /// Name of the stop.
    pub name: String,
    /// Latitude.
    pub latitude: crate::json::Decimal,
    /// Longitude.
    pub longitude: crate::json::Decimal,
    /// Routes serving the stop.
    pub routes: Vec<crate::bus::route::Route>,
}

impl FromJson for StopRoutes {
    open spec fn accepts(j: Json) -> bool {
        &&& optional_accepts::<crate::bus::stop::Stop>(j, "StopID"@)
        &&& required_accepts::<String>(j, "Name"@)
        &&& required_accepts::<crate::json::Decimal>(j, "Lat"@)
        &&& required_accepts::<crate::json::Decimal>(j, "Lon"@)
        &&& required_accepts::<Vec<crate::bus::route::Route>>(j, "Routes"@)
    }

    open spec fn read_from(self, j: Json) -> bool {
        &&& optional_read(self.stop, j, "StopID"@)
        &&& required_read(self.name, j, "Name"@)
        &&& required_read(self.latitude, j, "Lat"@)
        &&& required_read(self.longitude, j, "Lon"@)
        &&& required_read(self.routes, j, "Routes"@)
    }

    fn from_json(j: &Json) -> (r: Result<StopRoutes, String>) {
        let stop = optional::<crate::bus::stop::Stop>(j, "StopID")?;
        let name = required::<String>(j, "Name")?;
        let latitude = required::<crate::json::Decimal>(j, "Lat")?;
        let longitude = required::<crate::json::Decimal>(j, "Lon")?;
        let routes = required::<Vec<crate::bus::route::Route>>(j, "Routes")?;
        Ok(StopRoutes { stop, name, latitude, longitude, routes })
    }
}

/// Schedules of a route variant.
#[derive(Debug)]
pub struct RouteSchedule {
    /// Descriptive name.
    pub name: String,
    /// Trips in one direction.
    pub direction_zero: Vec<RouteInfo>,
    /// Trips in the other direction.
    pub direction_one: Vec<RouteInfo>,
}

impl FromJson for RouteSchedule {
    open spec fn accepts(j: Json) -> bool {
        &&& required_accepts::<String>(j, "Name"@)
        &&& required_accepts::<Vec<RouteInfo>>(j, "Direction0"@)
        &&& required_accepts::<Vec<RouteInfo>>(j, "Direction1"@)
    }

    open spec fn read_from(self, j: Json) -> bool {
        &&& required_read(self.name, j, "Name"@)
        &&& required_read(self.direction_zero, j, "Direction0"@)
        &&& required_read(self.direction_one, j, "Direction1"@)
    }

    fn from_json(j: &Json) -> (r: Result<RouteSchedule, String>) {
        let name = required::<String>(j, "Name")?;
        let direction_zero = required::<Vec<RouteInfo>>(j, "Direction0")?;
        let direction_one = required::<Vec<RouteInfo>>(j, "Direction1")?;
        Ok(RouteSchedule { name, direction_zero, direction_one })
    }
}

/// One scheduled trip.
#[derive(Debug)]
pub struct RouteInfo {
    /// Route of the trip.
    pub route: crate::bus::route::Route,
    /// Direction number.
    pub direction_number: String,
    /// General direction.
    pub trip_direction_text: String,
    /// Destination of the bus.
    pub trip_headsign: String,
    /// Start of the trip.
    pub start_time: crate::date::Timestamp,
    /// End of the trip.
    pub end_time: crate::date::Timestamp,
    /// See [`StopInfo`].
    pub stop_times: Vec<StopInfo>,
    /// Trip identifier.
    pub trip_id: String,
}

impl FromJson for RouteInfo {
    open spec fn accepts(j: Json) -> bool {
        &&& required_accepts::<crate::bus::route::Route>(j, "RouteID"@)
        &&& required_accepts::<String>(j, "DirectionNum"@)
        &&& required_accepts::<String>(j, "TripDirectionText"@)
        &&& required_accepts::<String>(j, "TripHeadsign"@)
        &&& required_accepts::<crate::date::Timestamp>(j, "StartTime"@)
        &&& required_accepts::<crate::date::Timestamp>(j, "EndTime"@)
        &&& required_accepts::<Vec<StopInfo>>(j, "StopTimes"@)
        &&& required_accepts::<String>(j, "TripID"@)
    }

    open spec fn read_from(self, j: Json) -> bool {
        &&& required_read(self.route, j, "RouteID"@)
        &&& required_read(self.direction_number, j, "DirectionNum"@)
        &&& required_read(self.trip_direction_text, j, "TripDirectionText"@)
        &&& required_read(self.trip_headsign, j, "TripHeadsign"@)
        &&& required_read(self.start_time, j, "StartTime"@)
        &&& required_read(self.end_time, j, "EndTime"@)
        &&& required_read(self.stop_times, j, "StopTimes"@)
        &&& required_read(self.trip_id, j, "TripID"@)
    }

    fn from_json(j: &Json) -> (r: Result<RouteInfo, String>) {
        let route = required::<crate::bus::route::Route>(j, "RouteID")?;
        let direction_number = required::<String>(j, "DirectionNum")?;
        let trip_direction_text = required::<String>(j, "TripDirectionText")?;
        let trip_headsign = required::<String>(j, "TripHeadsign")?;
        let start_time = required::<crate::date::Timestamp>(j, "StartTime")?;
        let end_time = required::<crate::date::Timestamp>(j, "EndTime")?;
        let stop_times = required::<Vec<StopInfo>>(j, "StopTimes")?;
        let trip_id = required::<String>(j, "TripID")?;
        Ok(RouteInfo { route, direction_number, trip_direction_text, trip_headsign, start_time, end_time, stop_times, trip_id })
    }
}

/// A stop along a scheduled trip.
#[derive(Debug)]
pub struct StopInfo {
    /// The stop.
    pub stop: crate::bus::stop::Stop,
    /// Name of the stop.
    pub stop_name: String,
    /// Order of the stop on the trip.
    pub stop_sequence: i32,
    /// Scheduled time at the stop.
    pub time: crate::date::Timestamp,
}

impl FromJson for StopInfo {
    open spec fn accepts(j: Json) -> bool {
        &&& required_accepts::<crate::bus::stop::Stop>(j, "StopID"@)
        &&& required_accepts::<String>(j, "StopName"@)
        &&& required_accepts::<i32>(j, "StopSeq"@)
        &&& required_accepts::<crate::date::Timestamp>(j, "Time"@)
    }

    open spec fn read_from(self, j: Json) -> bool {
        &&& required_read(self.stop, j, "StopID"@)
        &&& required_read(self.stop_name, j, "StopName"@)
        &&& required_read(self.stop_sequence, j, "StopSeq"@)
        &&& required_read(self.time, j, "Time"@)
    }

    fn from_json(j: &Json) -> (r: Result<StopInfo, String>) {
        let stop = required::<crate::bus::stop::Stop>(j, "StopID")?;
        let stop_name = required::<String>(j, "StopName")?;
        let stop_sequence = required::<i32>(j, "StopSeq")?;
        let time = required::<crate::date::Timestamp>(j, "Time")?;
        Ok(StopInfo { stop, stop_name, stop_sequence, time })
    }
}

} // verus!
