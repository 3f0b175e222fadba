//! Bandwidth throttle for a local-network file-sharing service.
//!
//! The heart of the crate is a token-bucket rate limiter that caps the
//! aggregate byte rate of all concurrent transfers: [`bucket::Bucket`] is the
//! verified bucket state with its exact transition model, [`laws`] proves
//! what the model guarantees, and [`throttle::Throttle`] shares one bucket
//! across every transfer task behind a lock whose invariant is checked at
//! every hand-off. Around the core, [`api`] holds the HTTP surface's data
//! shapes and [`listing`] and [`installers`] verify the computations the
//! file-serving handlers rest on.

pub mod api;
pub mod bucket;
pub mod clock;
pub mod installers;
pub mod laws;
pub mod listing;
pub mod throttle;
