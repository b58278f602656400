//! The sensor capability: a polymorphic interface over a reading type, with
//! lifecycle operations, and a dummy backend for testing.

use vstd::prelude::*;

verus! {

use crate::error::HardwareError;

/// One input device producing readings of an implementation-defined type.
/// Backends differ in when their lifecycle operations succeed, so each
/// operation's outcome is pinned by an implementation-chosen postcondition
/// predicate: what a given backend guarantees is stated by its impl and
/// flows to callers through the trait contract.
pub trait Sensor: Sized {
    /// The type of one reading.
    type Reading;

    /// Backend-specific well-formedness; every operation preserves it.
    spec fn wf(&self) -> bool;

    /// What the backend guarantees of `init`: how the state after relates
    /// to the state before, and which outcome comes back.
    spec fn init_post(pre: Self, post: Self, result: Result<(), HardwareError>) -> bool;

    /// What the backend guarantees of `read`.
    spec fn read_post(pre: Self, post: Self, result: Result<Self::Reading, HardwareError>) -> bool;

    /// What the backend guarantees of `cleanup`.
    spec fn cleanup_post(pre: Self, post: Self, result: Result<(), HardwareError>) -> bool;

    /// What the backend guarantees of `say_hello`.
    spec fn say_hello_post(pre: Self, post: Self, result: Result<(), HardwareError>) -> bool;

    /// Performs backend-specific setup.
    fn init(&mut self) -> (result: Result<(), HardwareError>)
        requires
            old(self).wf(),
        ensures
            final(self).wf(),
            Self::init_post(*old(self), *final(self), result),
    ;

    /// Produces one reading.
    fn read(&mut self) -> (result: Result<Self::Reading, HardwareError>)
        requires
            old(self).wf(),
        ensures
            final(self).wf(),
            Self::read_post(*old(self), *final(self), result),
    ;

    /// Releases backend resources.
    fn cleanup(&mut self) -> (result: Result<(), HardwareError>)
        requires
            old(self).wf(),
        ensures
            final(self).wf(),
            Self::cleanup_post(*old(self), *final(self), result),
    ;

    /// Diagnostic liveness probe; confirms the interface is wired up.
    fn say_hello(&mut self) -> (result: Result<(), HardwareError>)
        requires
            old(self).wf(),
        ensures
            final(self).wf(),
            Self::say_hello_post(*old(self), *final(self), result),
    ;
}

/// A sensor that senses nothing: every lifecycle operation succeeds and
/// every reading is zero. Its reading is the IEEE-754 bit pattern of a
/// 32-bit float; zero is the pattern of the float zero, so callers on the
/// floating-point side recover the reading with `f32::from_bits`.
pub struct DummySensor;

impl DummySensor {
    /// Constructs the dummy sensor; nothing can fail.
    pub fn new() -> (sensor: DummySensor)
        ensures
            sensor.wf(),
    {
        DummySensor
    }
}

impl Sensor for DummySensor {
    type Reading = u32;

    closed spec fn wf(&self) -> bool {
        true
    }

    open spec fn init_post(pre: Self, post: Self, result: Result<(), HardwareError>) -> bool {
        result is Ok && post == pre
    }

    open spec fn read_post(pre: Self, post: Self, result: Result<u32, HardwareError>) -> bool {
        result matches Ok(reading) && reading == 0u32 && post == pre
    }

    open spec fn cleanup_post(pre: Self, post: Self, result: Result<(), HardwareError>) -> bool {
        result is Ok && post == pre
    }

    open spec fn say_hello_post(pre: Self, post: Self, result: Result<(), HardwareError>) -> bool {
        result is Ok && post == pre
    }

    fn init(&mut self) -> (result: Result<(), HardwareError>) {
        Ok(())
    }

    fn read(&mut self) -> (result: Result<u32, HardwareError>) {
        Ok(0)
    }

    fn cleanup(&mut self) -> (result: Result<(), HardwareError>) {
        Ok(())
    }

    fn say_hello(&mut self) -> (result: Result<(), HardwareError>) {
        Ok(())
    }
}

} // verus!
