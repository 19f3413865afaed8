//! Safe, concurrent access to a microcontroller's general-purpose I/O pins
//! and its two analog-to-digital converter (ADC) units.
//!
//! Each physical pin is presented as an independently lockable logical
//! resource that may support voltage sampling through whichever converter
//! unit it is wired to. The library arbitrates ownership: a numeric pin
//! index is mapped to the correct physical pin and, if the pin is
//! analog-capable, to the correct converter unit and channel; at most one
//! batch of conversions runs on a converter unit at a time, while many
//! logical pins may share one unit; and averaged sampling with a selectable
//! attenuation is performed as one atomic batch per call.
//!
//! The actual driver-level read primitive is an external collaborator,
//! reached through the [`AdcRead`] trait; everything the library states
//! holds for every possible outcome of every driver read.

pub mod errors;
pub mod measurement;
pub mod pin_table;
pub mod wrapper;

pub use errors::GpioWrapperError;
pub use measurement::{AdcAverage, AdcRead, Attenuation, MeasurementConfig};
pub use pin_table::{ChannelAssignment, ConverterId, PinDescriptor, PinTable};
pub use wrapper::{GpioWrapper, PhysicalPin, PinWrapper, Pins};
