//! MetroBus: routes, stops, endpoints, the client and its responses.
pub mod client;
pub mod responses;
pub mod route;
pub mod stop;
pub mod urls;
