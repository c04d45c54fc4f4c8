//! Decision logic of a Windows printer bridge: parameter checks, the
//! order in which spooler calls are made and undone, how their outcomes
//! are judged, and the conversions of names, statuses and payloads.

pub mod error;
pub mod session;
pub mod text;
pub mod status;
pub mod payload;
pub mod form;
pub mod printer;
pub mod plan_laws;
