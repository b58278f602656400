//! Hardware abstraction layer for a small robot platform.
//!
//! The library defines uniform capability interfaces for actuators ([`Motor`])
//! and sensors ([`Sensor`]), a shared error taxonomy ([`HardwareError`]), and
//! two interchangeable motor backends: [`N20Motor`], bound to physical GPIO
//! pins, and [`SimulatedMotor`], a pure in-memory simulation. Application code
//! drives either backend exclusively through the capability interfaces.

pub mod error;
pub mod motor;
pub mod sensor;
mod pins;

pub use error::HardwareError;
pub use motor::Motor;
pub use motor::MotorDirection;
pub use motor::N20Motor;
pub use motor::SimulatedMotor;
pub use sensor::DummySensor;
pub use sensor::Sensor;
