//! Rules of a heap scanner: finding the target's heap in its region table,
//! walking it in fixed windows and rendering each window as a dump line.

pub mod dump;
pub mod fields;
pub mod hex;
pub mod maps;
pub mod numeral;
pub mod resolve;
pub mod scan;
pub mod style;
