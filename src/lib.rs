//! Conversion of RINEX content into a BINEX stream: argument model, session
//! configuration, choice of destination, and the fixed-buffer encoding pump.

pub mod cli;
pub mod session;
pub mod destination;
pub mod pump;
