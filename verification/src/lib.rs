//! Conversions of a transit data model into GTFS rows, the collections that hold its objects,
//! and the readers and writers of its fields.

pub mod collection;
pub mod common_format;
pub mod error;
pub mod gtfs;
pub mod objects;
pub mod utils;
