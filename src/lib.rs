//! A typed client library for the WMATA (Washington Metropolitan Area
//! Transit Authority) bus and rail API.
//!
//! The library builds every request (endpoint, query pairs and key), decodes
//! station, line, route and stop identifiers, and reads response bodies into
//! typed values, falling back to the API's own error envelope when a body
//! does not have the expected shape. Sending a request is left to an
//! implementation of [`requests::Requester`].
pub mod bus;
pub mod date;
pub mod error;
pub mod json;
pub mod line;
pub mod rail;
pub mod requests;
pub mod text;

pub use bus::client::Client as MetroBus;
pub use bus::route::Route;
pub use bus::stop::Stop;
pub use date::Date;
pub use error::{Error, ErrorKind};
pub use rail::client::Client as MetroRail;
pub use rail::line::Line;
pub use rail::station::Station;
