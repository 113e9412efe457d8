//! MetroRail: lines, stations, endpoints, the client and its responses.
pub mod client;
pub mod line;
pub mod responses;
pub mod station;
pub mod urls;
