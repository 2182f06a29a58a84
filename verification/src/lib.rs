//! Client components for the constellation streams: configuration,
//! construction parameters, session traits, and the verified decision
//! logic that drives a component's start-up and clean-up.

pub mod component;
pub mod config;
pub mod session;
