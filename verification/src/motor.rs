//! The motor capability: direction and speed state, its validation rules,
//! and the two backends that honor them.
//!
//! Speeds are fractions in the closed interval zero to one, carried as the
//! bit pattern of an IEEE-754 single-precision float. For floats that are
//! at least positive zero, the bit patterns order exactly as the numbers
//! do, so a pattern is in range precisely when it is at most the pattern of
//! one — with negative zero as the single in-range pattern with the sign
//! bit set. Every NaN, every infinity and every other negative float falls
//! outside. Callers on the floating-point side convert with `f32::to_bits`
//! and `f32::from_bits`, which keep the value exactly.

use vstd::prelude::*;

verus! {

use crate::error::HardwareError;
use crate::pins;

/// The direction a motor is driven in. A pure value type with no hidden
/// state; the initial direction of every backend is `Stop`.
#[derive(Debug, Clone, Copy, PartialEq, Eq, Structural)]
pub enum MotorDirection {
    Forward,
    Backward,
    Stop,
}

/// The bit pattern of zero, every backend's initial speed.
pub const SPEED_ZERO_BITS: u32 = 0x0000_0000;

/// The bit pattern of negative zero, numerically equal to zero.
pub const SPEED_NEG_ZERO_BITS: u32 = 0x8000_0000;

/// The bit pattern of one, the top of the accepted speed range.
pub const SPEED_ONE_BITS: u32 = 0x3F80_0000;

/// Whether a speed bit pattern encodes a float in the closed interval
/// from zero to one.
pub open spec fn speed_in_range(speed: u32) -> bool {
    speed <= SPEED_ONE_BITS || speed == SPEED_NEG_ZERO_BITS
}

/// The diagnostic message of a rejected speed.
pub open spec fn speed_range_msg() -> Seq<char> {
    "Speed must be between 0.0 and 1.0"@
}

/// The speed stored after a request: the requested value when it is in
/// range, the prior value otherwise.
pub open spec fn speed_after(current: u32, requested: u32) -> u32 {
    if speed_in_range(requested) {
        requested
    } else {
        current
    }
}

/// The direction stored after a request: no request is ever rejected once
/// a motor is constructed.
pub open spec fn direction_after(current: MotorDirection, requested: MotorDirection) -> MotorDirection {
    requested
}

/// The level the first direction pin of a two-pin H-bridge is driven to.
pub open spec fn dir_pin1_level(direction: MotorDirection) -> bool {
    direction is Forward
}

/// The level the second direction pin of a two-pin H-bridge is driven to.
pub open spec fn dir_pin2_level(direction: MotorDirection) -> bool {
    direction is Backward
}

/// The H-bridge encoding never drives both direction pins high at once,
/// whatever direction is requested.
pub proof fn lemma_h_bridge_exclusive(direction: MotorDirection)
    ensures
        !(dir_pin1_level(direction) && dir_pin2_level(direction)),
{
}

/// Stopping is setting the direction to `Stop` and then the speed to zero:
/// composing the two transitions from any state reaches direction `Stop`
/// and speed zero, the state `stop` itself guarantees.
pub proof fn lemma_stop_composition(direction: MotorDirection, speed: u32)
    ensures
        direction_after(direction, MotorDirection::Stop) is Stop,
        speed_after(speed, SPEED_ZERO_BITS) == SPEED_ZERO_BITS,
{
}

/// One actuator, physical or simulated. The state every backend must keep:
/// the direction last applied and the current speed, a fraction in the
/// closed interval zero to one. Mutation goes only through `set_speed`,
/// `set_direction` and `stop`, and each call states exactly how the state
/// moves.
pub trait Motor: Sized {
    /// The direction last successfully applied.
    spec fn direction(&self) -> MotorDirection;

    /// The current speed, as an IEEE-754 single-precision bit pattern.
    spec fn speed(&self) -> u32;

    /// Backend-specific well-formedness; constructors establish it and
    /// every operation preserves it.
    spec fn wf(&self) -> bool;

    /// Stores the requested speed when it encodes a fraction in the closed
    /// interval zero to one; rejects every other value and leaves the state
    /// unchanged. The direction is never touched.
    fn set_speed(&mut self, speed: u32) -> (result: Result<(), HardwareError>)
        requires
            old(self).wf(),
        ensures
            final(self).wf(),
            final(self).speed() == speed_after(old(self).speed(), speed),
            final(self).direction() == old(self).direction(),
            result is Ok <==> speed_in_range(speed),
            !speed_in_range(speed) ==> (result matches Err(HardwareError::MotorError(msg))
                && msg@ == speed_range_msg()),
    ;

    /// Applies the requested direction; never rejected once the motor is
    /// constructed. The speed is never touched.
    fn set_direction(&mut self, direction: MotorDirection) -> (result: Result<(), HardwareError>)
        requires
            old(self).wf(),
        ensures
            final(self).wf(),
            result is Ok,
            final(self).direction() == direction_after(old(self).direction(), direction),
            final(self).speed() == old(self).speed(),
    ;

    /// The composite halt: sets the direction to `Stop`, then the speed to
    /// zero, propagating either call's failure unchanged. The state moves
    /// exactly as that composition does, which leaves direction `Stop` and
    /// speed zero (`lemma_stop_composition`).
    fn stop(&mut self) -> (result: Result<(), HardwareError>)
        requires
            old(self).wf(),
        ensures
            final(self).wf(),
            result is Ok,
            final(self).direction() == direction_after(old(self).direction(), MotorDirection::Stop),
            final(self).speed() == speed_after(old(self).speed(), SPEED_ZERO_BITS),
    ;

    /// Diagnostic liveness probe; confirms the interface is wired up and
    /// changes nothing.
    fn say_hello(&mut self) -> (result: Result<(), HardwareError>)
        requires
            old(self).wf(),
        ensures
            result is Ok,
            *final(self) == *old(self),
    ;

    /// Reads back the current direction.
    fn current_direction(&self) -> (direction: MotorDirection)
        ensures
            direction == self.direction(),
    ;

    /// Reads back the current speed, as an IEEE-754 bit pattern.
    fn current_speed(&self) -> (speed: u32)
        ensures
            speed == self.speed(),
    ;
}

/// The in-memory backend: no external acquisition, construction always
/// succeeds, and every state change is plain state mutation.
pub struct SimulatedMotor {
    current_direction: MotorDirection,
    current_speed: u32,
}

impl SimulatedMotor {
    /// Constructs the simulated motor. The pin numbers are accepted for
    /// interface parity with the hardware backend and ignored: construction
    /// has no external dependency and always succeeds, at direction `Stop`
    /// and speed zero.
    pub fn new(_pwm_pin_num: u8, _dir_pin1_num: u8, _dir_pin2_num: u8) -> (result: Result<
        SimulatedMotor,
        HardwareError,
    >)
        ensures
            result matches Ok(motor) && motor.wf() && motor.direction() is Stop
                && motor.speed() == SPEED_ZERO_BITS,
    {
        Ok(
            SimulatedMotor {
                current_direction: MotorDirection::Stop,
                current_speed: SPEED_ZERO_BITS,
            },
        )
    }
}

impl Motor for SimulatedMotor {
    closed spec fn direction(&self) -> MotorDirection {
        self.current_direction
    }

    closed spec fn speed(&self) -> u32 {
        self.current_speed
    }

    closed spec fn wf(&self) -> bool {
        speed_in_range(self.current_speed)
    }

    fn set_speed(&mut self, speed: u32) -> (result: Result<(), HardwareError>) {
        if speed <= SPEED_ONE_BITS || speed == SPEED_NEG_ZERO_BITS {
            self.current_speed = speed;
            Ok(())
        } else {
            Err(HardwareError::MotorError("Speed must be between 0.0 and 1.0".to_owned()))
        }
    }

    fn set_direction(&mut self, direction: MotorDirection) -> (result: Result<(), HardwareError>) {
        self.current_direction = direction;
        Ok(())
    }

    fn stop(&mut self) -> (result: Result<(), HardwareError>) {
        match self.set_direction(MotorDirection::Stop) {
            Ok(()) => {},
            Err(e) => {
                return Err(e);
            },
        }
        match self.set_speed(SPEED_ZERO_BITS) {
            Ok(()) => {},
            Err(e) => {
                return Err(e);
            },
        }
        Ok(())
    }

    fn say_hello(&mut self) -> (result: Result<(), HardwareError>) {
        Ok(())
    }

    fn current_direction(&self) -> (direction: MotorDirection) {
        self.current_direction
    }

    fn current_speed(&self) -> (speed: u32) {
        self.current_speed
    }
}

/// The hardware backend: an N20 gear motor behind a two-pin H-bridge and a
/// PWM line, all three acquired from the GPIO pin provider at construction.
/// The levels the library drives on the pins are part of the motor's
/// well-formedness: the direction pins always encode the current direction,
/// so they are never both high, and the PWM line stays low — duty-cycle
/// application is deferred, so no operation touches it after construction.
pub struct N20Motor {
    pwm_pin: pins::OutputLine,
    dir_pin1: pins::OutputLine,
    dir_pin2: pins::OutputLine,
    current_direction: MotorDirection,
    current_speed: u32,
}

impl N20Motor {
    /// The level last driven on the PWM line.
    pub closed spec fn pwm_pin_high(&self) -> bool {
        self.pwm_pin.is_high()
    }

    /// The level last driven on the first direction pin.
    pub closed spec fn dir_pin1_high(&self) -> bool {
        self.dir_pin1.is_high()
    }

    /// The level last driven on the second direction pin.
    pub closed spec fn dir_pin2_high(&self) -> bool {
        self.dir_pin2.is_high()
    }

    /// Acquires the PWM line and the two direction lines, in that order,
    /// each initially driven low; the first acquisition failure aborts the
    /// remaining ones and comes back as a GPIO error, and lines acquired
    /// before the failure are released again when they go out of scope. A
    /// fresh motor stands at direction `Stop`, speed zero, both direction
    /// pins low.
    pub fn new(pwm_pin_num: u8, dir_pin1_num: u8, dir_pin2_num: u8) -> (result: Result<
        N20Motor,
        HardwareError,
    >)
        ensures
            result matches Ok(motor) ==> motor.wf() && motor.direction() is Stop
                && motor.speed() == SPEED_ZERO_BITS && !motor.pwm_pin_high()
                && !motor.dir_pin1_high() && !motor.dir_pin2_high(),
            result matches Err(e) ==> e matches HardwareError::GpioError(_),
    {
        let gpio_dev = match pins::gpio_new() {
            Ok(dev) => dev,
            Err(e) => {
                return Err(HardwareError::GpioError(pins::gpio_error_message(&e)));
            },
        };
        let pwm_pin = match pins::gpio_get(&gpio_dev, pwm_pin_num) {
            Ok(pin) => pins::OutputLine::acquire_low(pin),
            Err(e) => {
                return Err(HardwareError::GpioError(pins::gpio_error_message(&e)));
            },
        };
        let dir_pin1 = match pins::gpio_get(&gpio_dev, dir_pin1_num) {
            Ok(pin) => pins::OutputLine::acquire_low(pin),
            Err(e) => {
                return Err(HardwareError::GpioError(pins::gpio_error_message(&e)));
            },
        };
        let dir_pin2 = match pins::gpio_get(&gpio_dev, dir_pin2_num) {
            Ok(pin) => pins::OutputLine::acquire_low(pin),
            Err(e) => {
                return Err(HardwareError::GpioError(pins::gpio_error_message(&e)));
            },
        };
        Ok(
            N20Motor {
                pwm_pin,
                dir_pin1,
                dir_pin2,
                current_direction: MotorDirection::Stop,
                current_speed: SPEED_ZERO_BITS,
            },
        )
    }
}

/// A well-formed hardware motor keeps its direction pins encoding its
/// direction, so they are never both high, and its PWM line low, since
/// duty-cycle application is deferred.
pub proof fn lemma_n20_pins_reflect_direction(motor: &N20Motor)
    requires
        motor.wf(),
    ensures
        motor.dir_pin1_high() == dir_pin1_level(motor.direction()),
        motor.dir_pin2_high() == dir_pin2_level(motor.direction()),
        !(motor.dir_pin1_high() && motor.dir_pin2_high()),
        !motor.pwm_pin_high(),
{
}

impl Motor for N20Motor {
    closed spec fn direction(&self) -> MotorDirection {
        self.current_direction
    }

    closed spec fn speed(&self) -> u32 {
        self.current_speed
    }

    closed spec fn wf(&self) -> bool {
        &&& speed_in_range(self.current_speed)
        &&& !self.pwm_pin.is_high()
        &&& self.dir_pin1.is_high() == dir_pin1_level(self.current_direction)
        &&& self.dir_pin2.is_high() == dir_pin2_level(self.current_direction)
    }

    /// The stored speed should drive the PWM line's duty cycle; this
    /// backend validates and records the value but defers the duty-cycle
    /// application, a noted limitation.
    fn set_speed(&mut self, speed: u32) -> (result: Result<(), HardwareError>) {
        if speed <= SPEED_ONE_BITS || speed == SPEED_NEG_ZERO_BITS {
            self.current_speed = speed;
            Ok(())
        } else {
            Err(HardwareError::MotorError("Speed must be between 0.0 and 1.0".to_owned()))
        }
    }

    /// Applies the H-bridge encoding, always lowering one pin before
    /// raising the other, so the two direction pins are not both high even
    /// between the two writes.
    fn set_direction(&mut self, direction: MotorDirection) -> (result: Result<(), HardwareError>) {
        match direction {
            MotorDirection::Forward => {
                self.dir_pin2.set_low();
                self.dir_pin1.set_high();
            },
            MotorDirection::Backward => {
                self.dir_pin1.set_low();
                self.dir_pin2.set_high();
            },
            MotorDirection::Stop => {
                self.dir_pin1.set_low();
                self.dir_pin2.set_low();
            },
        }
        self.current_direction = direction;
        Ok(())
    }

    fn stop(&mut self) -> (result: Result<(), HardwareError>) {
        match self.set_direction(MotorDirection::Stop) {
            Ok(()) => {},
            Err(e) => {
                return Err(e);
            },
        }
        match self.set_speed(SPEED_ZERO_BITS) {
            Ok(()) => {},
            Err(e) => {
                return Err(e);
            },
        }
        Ok(())
    }

    fn say_hello(&mut self) -> (result: Result<(), HardwareError>) {
        Ok(())
    }

    fn current_direction(&self) -> (direction: MotorDirection) {
        self.current_direction
    }

    fn current_speed(&self) -> (speed: u32) {
        self.current_speed
    }
}

} // verus!
