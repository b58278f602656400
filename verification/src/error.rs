//! The error taxonomy shared by every hardware capability.

use vstd::prelude::*;

verus! {

use vstd::string::StringExecFns;

/// The one error type that crosses capability boundaries: a closed set of
/// hardware failure kinds, each carrying a human-readable diagnostic string.
#[derive(Debug)]
pub enum HardwareError {
    /// Resource acquisition or level-set failure in the GPIO pin provider.
    GpioError(String),
    /// A sensor backend fault; reserved for real sensor backends.
    SensorError(String),
    /// A motor fault, such as a speed outside the accepted range.
    MotorError(String),
}

/// The human-readable rendering of an error: a fixed tag for the kind,
/// followed by the diagnostic message.
pub open spec fn spec_describe(e: HardwareError) -> Seq<char> {
    match e {
        HardwareError::GpioError(msg) => "GPIO Error: "@ + msg@,
        HardwareError::SensorError(msg) => "Sensor Error: "@ + msg@,
        HardwareError::MotorError(msg) => "Motor Error: "@ + msg@,
    }
}

impl HardwareError {
    /// Renders the error as one diagnostic line.
    pub fn describe(&self) -> (text: String)
        ensures
            text@ == spec_describe(*self),
    {
        match self {
            HardwareError::GpioError(msg) => "GPIO Error: ".to_owned().concat(msg.as_str()),
            HardwareError::SensorError(msg) => "Sensor Error: ".to_owned().concat(msg.as_str()),
            HardwareError::MotorError(msg) => "Motor Error: ".to_owned().concat(msg.as_str()),
        }
    }
}

} // verus!
