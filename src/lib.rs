//! A small HTTP service: a greeting at the root and a health report with
//! the current time. The library decides which reply each request gets and
//! writes its body; the binary serves it.

mod text;
pub mod routes;
pub mod json;
pub mod clock;
pub mod health;
pub mod service;
pub mod laws;
