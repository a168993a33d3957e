//! Typed client binding for the OpenSky Network REST API.
//!
//! The crate turns a structured request description into a URL, a query
//! string and an HTTP verb, and maps every internal failure into a single
//! error type. The network transport itself is left to the caller.

pub mod encode;
pub mod error;
pub mod flights;
pub mod opensky;
pub mod params;
pub mod states;
pub mod structs;
pub mod track;

pub use error::OpenSkyError;
pub use opensky::{assemble_response, HttpResponse, OpenSky, Request};
pub use params::{Endpoint, Method, ParamType, ParamValue, QueryParams};
pub use structs::{BoundingBox, Flight, Icao24, State, Track, Waypoint};
