//! Verified core of a projectile-dodging reinforcement-learning environment:
//! configuration enums, request validation, discrete actions, episode
//! bookkeeping, observation layout and the top-down image raster.

pub mod text;
pub mod config;
pub mod validation;
pub mod action;
pub mod environment;
pub mod observation;
pub mod image;
pub mod api;
pub mod laws;
