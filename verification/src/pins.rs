//! The GPIO pin provider boundary. The rppal crate does the pin work; the
//! library consumes only acquisition and level setting, and treats the
//! provider's types as opaque. [`OutputLine`] pairs an acquired output pin
//! with the level this library last drove on it, so that pin-level facts can
//! take part in contracts.

use vstd::prelude::*;

verus! {

#[verifier::external_type_specification]
#[verifier::external_body]
pub struct ExGpio(rppal::gpio::Gpio);

#[verifier::external_type_specification]
#[verifier::external_body]
pub struct ExPin(rppal::gpio::Pin);

#[verifier::external_type_specification]
#[verifier::external_body]
pub struct ExOutputPin(rppal::gpio::OutputPin);

#[verifier::external_type_specification]
#[verifier::external_body]
pub struct ExGpioError(rppal::gpio::Error);

/// Relies on rppal's Gpio::new: opens the GPIO peripheral, or reports why
/// it cannot (unknown board, missing device files, permissions).
#[verifier::external_body]
pub(crate) fn gpio_new() -> Result<rppal::gpio::Gpio, rppal::gpio::Error> {
    rppal::gpio::Gpio::new()
}

/// Relies on rppal's Gpio::get: hands out exclusive ownership of the pin
/// with the given BCM number, or fails when the number is out of range or
/// the pin is already taken.
#[verifier::external_body]
pub(crate) fn gpio_get(gpio: &rppal::gpio::Gpio, pin: u8) -> Result<
    rppal::gpio::Pin,
    rppal::gpio::Error,
> {
    gpio.get(pin)
}

/// Relies on rppal's Pin::into_output_low: drives the line low, then
/// switches it to output mode.
#[verifier::external_body]
fn pin_into_output_low(pin: rppal::gpio::Pin) -> rppal::gpio::OutputPin {
    pin.into_output_low()
}

/// Relies on rppal's OutputPin::set_high: drives the line high; infallible.
#[verifier::external_body]
fn output_set_high(pin: &mut rppal::gpio::OutputPin) {
    pin.set_high();
}

/// Relies on rppal's OutputPin::set_low: drives the line low; infallible.
#[verifier::external_body]
fn output_set_low(pin: &mut rppal::gpio::OutputPin) {
    pin.set_low();
}

/// Relies on the Display impl of rppal's gpio::Error: renders the failure
/// as one line of text.
#[verifier::external_body]
pub(crate) fn gpio_error_message(err: &rppal::gpio::Error) -> String {
    err.to_string()
}

/// One exclusively owned GPIO line in output mode, together with the level
/// this library last drove on it. Every level change goes through this type,
/// which keeps the recorded level beside the call that drives the wire; the
/// provider releases the line when the value is dropped.
pub(crate) struct OutputLine {
    pin: rppal::gpio::OutputPin,
    driven_high: Ghost<bool>,
}

impl OutputLine {
    /// The level last driven on the line.
    pub(crate) closed spec fn is_high(&self) -> bool {
        self.driven_high@
    }

    /// Takes ownership of an acquired pin, drives it low, and switches it
    /// to output mode.
    pub(crate) fn acquire_low(pin: rppal::gpio::Pin) -> (line: OutputLine)
        ensures
            !line.is_high(),
    {
        OutputLine { pin: pin_into_output_low(pin), driven_high: Ghost(false) }
    }

    /// Drives the line high.
    pub(crate) fn set_high(&mut self)
        ensures
            final(self).is_high(),
    {
        output_set_high(&mut self.pin);
        self.driven_high = Ghost(true);
    }

    /// Drives the line low.
    pub(crate) fn set_low(&mut self)
        ensures
            !final(self).is_high(),
    {
        output_set_low(&mut self.pin);
        self.driven_high = Ghost(false);
    }
}

} // verus!
