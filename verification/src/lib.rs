//! Reports on discovered Python environments.
//!
//! A discovered environment is turned into a record whose category and
//! architecture are fixed tokens, so that what readers of the record see
//! does not move when a variant is renamed. The record also renders as a
//! short, line-oriented summary for a terminal.

pub mod arch;
pub mod category;
pub mod environment;
pub mod manager;
pub mod path;
pub mod python_environment;
pub mod text;
