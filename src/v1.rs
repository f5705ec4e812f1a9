//! IKEv1 (ISAKMP): identifiers, message model, parser and probe generator.

pub mod params;
pub mod definitions;
pub mod parser;
pub mod generator;
