//! Turns the diagnostics of a lint run into the generic issue report of a
//! code-quality platform.
//!
//! The input side ([`diagnostic`]) holds what a lint run says: messages, and in
//! them diagnostics with their spans. The output side ([`sonar`]) holds the
//! report: issues with their locations. Between the two stand the mapping of a
//! diagnostic to an issue ([`clippy`]), the report as it grows and loses its
//! repeats ([`report`], [`dedup`]) and the JSON text of the report ([`json`]).

pub mod clippy;
pub mod dedup;
pub mod diagnostic;
pub mod json;
pub mod report;
pub mod sonar;
