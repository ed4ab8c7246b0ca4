//! A local HTTP request inspector, as a library: which canned response a
//! request receives, what is recorded of it, and how the viewer's state and
//! display follow from the requests and keys it is given.
pub mod config;
pub mod headers;
pub mod json;
pub mod request;
pub mod server;
pub mod text;
pub mod timestamp;
pub mod ui;
