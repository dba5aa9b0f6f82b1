//! Simulated sensors that ride along geographic routes and report where they are.
//!
//! Positions are held in millionths of a degree and distances in millimetres,
//! so that planning, playback and event rendering are exact integer computations.
pub mod cli;
pub mod position;
pub mod decimal;
pub mod planner;
pub mod event;
pub mod json;
pub mod http;
pub mod mqtt;
pub mod stdout;
pub mod travel;
