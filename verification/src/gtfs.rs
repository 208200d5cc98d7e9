//! The static feed of the agency.

pub mod data;
