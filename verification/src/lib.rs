//! Scans the root attributes of one source module for the unstable features it
//! declares, and assembles the scan report.
//!
//! The stages run left to right: command-line arguments are resolved into
//! [`options::Options`], the positional arguments into an input, the parsed
//! root attributes are filtered by their conditional-compilation guards, the
//! surviving feature declarations are collected, and the report is built.
//! Lexing and parsing of the source itself belong to a host front end; the
//! [`driver`] module decides what to ask of it and what to make of its
//! answers, and [`scanner`] runs a whole scan over answers known beforehand.

pub mod text;
pub mod error;
pub mod ruf_info;
pub mod cfg;
pub mod attrs;
pub mod attr_laws;
pub mod options;
pub mod option_laws;
pub mod input;
pub mod driver;
pub mod driver_laws;
pub mod scanner;
