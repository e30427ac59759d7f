//! Value-encoding layer for a remote SQL query service: converts host values
//! into the wire representation of the parameter-binding protocol (a type
//! tag, an optional format hint, and UTF-8 text), assembles single bindings,
//! and collects them into a name-keyed bindings map.

pub mod bindings;
pub mod buffer;
pub mod datetime;
pub mod errors;
pub mod json;
pub mod laws;
pub mod numeric;
pub mod requests;
pub mod tags;
