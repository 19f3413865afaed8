//! The error taxonomy of the wrapper.
//!
//! Every failure of the library is a typed value of [`GpioWrapperError`];
//! nothing is logged, swallowed or treated as fatal inside the library.

use vstd::prelude::*;

verus! {

/// The ways a pin lookup or a sampling operation can fail.
///
/// - `EspError` wraps a driver-level error code from a raw read; it is
///   surfaced unchanged and never retried.
/// - `PinDoesNotExist` is raised at lookup time only: the logical index has
///   no physical pin.
/// - `AdcNotOwned` is raised at sampling time: the pin's assigned converter
///   unit was never supplied to the wrapper.
/// - `PinNotOwned` is raised at sampling time: the slot's physical pin was
///   already relinquished.
/// - `NotAnAdcPin` is raised at sampling time: the pin exists but has no
///   converter assignment.
#[derive(Debug, Clone, Copy, PartialEq, Eq, Structural)]
pub enum GpioWrapperError {
    EspError(i32),
    PinDoesNotExist,
    AdcNotOwned,
    PinNotOwned,
    NotAnAdcPin,
}

impl GpioWrapperError {
    /// A human-readable description of the error.
    pub fn message(&self) -> (r: &'static str)
        ensures
            self is EspError ==> r@ == "A driver-level read failed."@,
            self is PinDoesNotExist ==> r@ == "The pin does not exist."@,
            self is AdcNotOwned ==> r@ == "The wrapper does not own the required ADC."@,
            self is PinNotOwned ==> r@ == "The wrapper does not own the pin."@,
            self is NotAnAdcPin ==> r@ == "Cannot perform ADC measurements on a non ADC pin."@,
    {
        match self {
            GpioWrapperError::EspError(_) => "A driver-level read failed.",
            GpioWrapperError::PinDoesNotExist => "The pin does not exist.",
            GpioWrapperError::AdcNotOwned => "The wrapper does not own the required ADC.",
            GpioWrapperError::PinNotOwned => "The wrapper does not own the pin.",
            GpioWrapperError::NotAnAdcPin => "Cannot perform ADC measurements on a non ADC pin.",
        }
    }

    /// Wraps a driver-level error code.
    pub fn from_driver(code: i32) -> (r: GpioWrapperError)
        ensures
            r == GpioWrapperError::EspError(code),
    {
        GpioWrapperError::EspError(code)
    }

    /// The driver error code, when the error wraps one.
    pub fn driver_code(&self) -> (r: Option<i32>)
        ensures
            match *self {
                GpioWrapperError::EspError(code) => r == Some(code),
                _ => r is None,
            },
    {
        match self {
            GpioWrapperError::EspError(code) => Some(*code),
            _ => None,
        }
    }
}

impl From<i32> for GpioWrapperError {
    /// A driver error code converts to the error that wraps it unchanged.
    fn from(code: i32) -> Self {
        GpioWrapperError::EspError(code)
    }
}

impl vstd::std_specs::convert::FromSpecImpl<i32> for GpioWrapperError {
    open spec fn obeys_from_spec() -> bool {
        true
    }

    open spec fn from_spec(code: i32) -> Self {
        GpioWrapperError::EspError(code)
    }
}

} // verus!
