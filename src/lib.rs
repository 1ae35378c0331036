//! Fixed-length transport codes (aircraft, airline, airport and city codes)
//! written in an uppercase Cyrillic alphabet with digits and stored one byte
//! per character in the KOI8-R encoding.
pub mod aircraft;
pub mod airline;
pub mod airport;
pub mod charset;
pub mod city;
pub mod koi8;

pub use aircraft::{AircraftCode, AircraftCodeParseError};
pub use airline::{AirlineCode, AirlineCodeParseError};
pub use airport::{AirportCode, AirportCodeParseError};
pub use city::{CityCode, CityCodeParseError};
