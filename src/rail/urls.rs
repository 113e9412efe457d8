//! Endpoints of MetroRail operations.
use vstd::prelude::*;

verus! {

/// Endpoints of MetroRail operations.
#[derive(Clone, Copy, Debug, PartialEq, Eq, Structural)]
pub enum URLs {
    NextTrains,
    Information,
    ParkingInformation,
    Path,
    Timings,
    StationToStation,
    Lines,
    Entrances,
    Positions,
    Routes,
    Circuits,
    ElevatorAndEscalatorIncidents,
    Incidents,
    Stations,
}

impl URLs {
    /// The absolute URL of this endpoint.
    pub open spec fn url(self) -> Seq<char> {
        match self {
            URLs::NextTrains => "https://api.wmata.com/StationPrediction.svc/json/GetPrediction"@,
            URLs::Information => "https://api.wmata.com/Rail.svc/json/jStationInfo"@,
            URLs::ParkingInformation => "https://api.wmata.com/Rail.svc/json/jStationParking"@,
            URLs::Path => "https://api.wmata.com/Rail.svc/json/jPath"@,
            URLs::Timings => "https://api.wmata.com/Rail.svc/json/jStationTimes"@,
            URLs::StationToStation => "https://api.wmata.com/Rail.svc/json/jSrcStationToDstStationInfo"@,
            URLs::Lines => "https://api.wmata.com/Rail.svc/json/jLines"@,
            URLs::Entrances => "https://api.wmata.com/Rail.svc/json/jStationEntrances"@,
            URLs::Positions => "https://api.wmata.com/TrainPositions/TrainPositions"@,
            URLs::Routes => "https://api.wmata.com/TrainPositions/StandardRoutes"@,
            URLs::Circuits => "https://api.wmata.com/TrainPositions/TrackCircuits"@,
            URLs::ElevatorAndEscalatorIncidents => "https://api.wmata.com/Incidents.svc/json/ElevatorIncidents"@,
            URLs::Incidents => "https://api.wmata.com/Incidents.svc/json/Incidents"@,
            URLs::Stations => "https://api.wmata.com/Rail.svc/json/jStations"@,
        }
    }

    /// The absolute URL of this endpoint.
    pub fn to_string(&self) -> (r: String)
        ensures
            r@ == self.url(),
    {
        match self {
            URLs::NextTrains => String::from_str("https://api.wmata.com/StationPrediction.svc/json/GetPrediction"),
            URLs::Information => String::from_str("https://api.wmata.com/Rail.svc/json/jStationInfo"),
            URLs::ParkingInformation => String::from_str("https://api.wmata.com/Rail.svc/json/jStationParking"),
            URLs::Path => String::from_str("https://api.wmata.com/Rail.svc/json/jPath"),
            URLs::Timings => String::from_str("https://api.wmata.com/Rail.svc/json/jStationTimes"),
            URLs::StationToStation => String::from_str("https://api.wmata.com/Rail.svc/json/jSrcStationToDstStationInfo"),
            URLs::Lines => String::from_str("https://api.wmata.com/Rail.svc/json/jLines"),
            URLs::Entrances => String::from_str("https://api.wmata.com/Rail.svc/json/jStationEntrances"),
            URLs::Positions => String::from_str("https://api.wmata.com/TrainPositions/TrainPositions"),
            URLs::Routes => String::from_str("https://api.wmata.com/TrainPositions/StandardRoutes"),
            URLs::Circuits => String::from_str("https://api.wmata.com/TrainPositions/TrackCircuits"),
            URLs::ElevatorAndEscalatorIncidents => String::from_str("https://api.wmata.com/Incidents.svc/json/ElevatorIncidents"),
            URLs::Incidents => String::from_str("https://api.wmata.com/Incidents.svc/json/Incidents"),
            URLs::Stations => String::from_str("https://api.wmata.com/Rail.svc/json/jStations"),
        }
    }
}

} // verus!
