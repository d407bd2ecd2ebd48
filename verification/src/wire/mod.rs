//! The wire format of the Franka Control Interface.
use vstd::prelude::*;

pub mod bytes;
pub mod codec;
pub mod modes;
pub mod request;
