//! Core of a vertical-landing vehicle's control stack: the binary wire
//! protocol its sensor publishers speak, the live-state cache that bridges
//! asynchronous message arrival with a synchronous control loop, and the
//! control law that drives the brake valves.
//!
//! Decimal sensor readings travel as 32-bit IEEE-754 bit patterns; the
//! `decimal` module gives them an exact integer model, so every function
//! here works on plain integers and carries a proved contract.

pub mod cache;
pub mod control;
pub mod decimal;
pub mod types;
pub mod utils;
