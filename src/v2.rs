//! IKEv2: identifiers, message model, generator and parser.

pub mod params;
pub mod definitions;
pub mod header;
pub mod generator;
pub mod parser;
