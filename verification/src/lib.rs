//! The Franka Control Interface session of a Franka robot arm, as verified decisions.
//!
//! Nothing in this crate performs input or output. Every operation that talks to the robot is a
//! value with a `resume` function: it hands out the next [`step::Action`] to perform, takes back
//! the [`step::Event`] that came of it, and ends with a result. What a caller may rely on is
//! stated in the contracts.
#![allow(non_snake_case)]
#![allow(unused_imports)]

pub mod control_types;
pub mod double;
pub mod duration;
pub mod error;
pub mod errors;
pub mod otg;
pub mod rate_limiting;
pub mod realtime;
pub mod robot;
pub mod robot_state;
pub mod step;
pub mod text;
pub mod wire;
