//! Fixed layout blocks of a log file.
pub mod auxiliary;
pub mod details;
