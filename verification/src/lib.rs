//! Verified core of an RPKI route-validity reporting bot.
//!
//! The library normalizes user-supplied AS-number/prefix tokens, interprets
//! the HTTP outcomes of up to three service calls (route validity, data
//! freshness, AS holder name), decodes their JSON bodies, and renders a
//! fixed-width textual report.  All network I/O is performed by the caller;
//! the library decides, for each state of a lookup session, which request to
//! issue next or which reply to produce.

pub mod client;
pub mod commands;
pub mod decode;
pub mod digits;
pub mod json;
pub mod normalize;
pub mod orchestrator;
pub mod render;
pub mod types;
