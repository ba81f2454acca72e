//! Verified core of a CAN-bus leg controller for RobStride/Damiao joint motors:
//! motor-type names, command and feedback frame layouts, feedback routing,
//! and the per-leg configuration plan.

pub mod config;
pub mod frame;
pub mod leg;
pub mod model;
pub mod motor;

pub use model::{string_to_motor_type, MotorModel};
