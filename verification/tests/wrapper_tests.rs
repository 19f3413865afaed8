//! Tests of the wrapper façade: lookups, slot sharing, sampling, averaging,
//! error propagation and the behaviour of withheld converter units.

use std::cell::RefCell;
use std::rc::Rc;

use esp32_gpio_wrapper::{
    AdcRead, Attenuation, GpioWrapper, GpioWrapperError, MeasurementConfig, Pins,
};

/// A shared log of every raw read a fake reader performed: the channel and
/// attenuation each read was asked for.
type ReadLog = Rc<RefCell<Vec<(u32, Attenuation)>>>;

fn new_log() -> ReadLog {
    Rc::new(RefCell::new(Vec::new()))
}

/// A deterministic reader that replays a fixed script of outcomes and
/// records each request; once the script is exhausted it keeps returning
/// the fallback value.
struct ScriptReader {
    script: Vec<Result<u16, i32>>,
    position: usize,
    fallback: u16,
    log: ReadLog,
}

impl ScriptReader {
    fn new(script: Vec<Result<u16, i32>>, fallback: u16, log: ReadLog) -> ScriptReader {
        ScriptReader {
            script,
            position: 0,
            fallback,
            log,
        }
    }

    fn constant(value: u16, log: ReadLog) -> ScriptReader {
        ScriptReader::new(Vec::new(), value, log)
    }
}

impl AdcRead for ScriptReader {
    fn read_raw(&mut self, channel: u32, attenuation: Attenuation) -> Result<u16, i32> {
        self.log.borrow_mut().push((channel, attenuation));
        let outcome = self
            .script
            .get(self.position)
            .copied()
            .unwrap_or(Ok(self.fallback));
        self.position += 1;
        outcome
    }
}

fn full_wrapper(value: u16, log: &ReadLog) -> GpioWrapper<ScriptReader> {
    GpioWrapper::new(
        Some(ScriptReader::constant(value, log.clone())),
        Some(ScriptReader::constant(value, log.clone())),
        Pins::new(),
    )
}

#[test]
fn get_pin_succeeds_for_every_existing_index() {
    let log = new_log();
    let wrapper = full_wrapper(0, &log);
    for index in (0..20).chain(21..24).chain(25..28).chain(32..40) {
        let handle = wrapper.get_pin(index).unwrap();
        assert_eq!(handle.index(), index);
    }
}

#[test]
fn get_pin_fails_for_every_other_index() {
    let log = new_log();
    let wrapper = full_wrapper(0, &log);
    for index in [20, 24, 28, 29, 30, 31, 40, 41, 100, usize::MAX] {
        assert!(matches!(
            wrapper.get_pin(index),
            Err(GpioWrapperError::PinDoesNotExist)
        ));
    }
}

#[test]
fn repeated_lookups_share_one_slot() {
    let log = new_log();
    let wrapper = full_wrapper(42, &log);
    let first = wrapper.get_pin(32).unwrap();
    let second = wrapper.get_pin(32).unwrap();
    // Relinquishing the pin through the first handle is observed through
    // the second: the two handles reference the same underlying slot.
    let pin = first.release().unwrap();
    assert_eq!(pin.index(), 32);
    assert_eq!(second.get_adc().unwrap_err(), GpioWrapperError::PinNotOwned);
    assert_eq!(
        second
            .get_adc_averaged(MeasurementConfig {
                to_measure: 3,
                attenuation: Attenuation::DB11,
            })
            .unwrap_err(),
        GpioWrapperError::PinNotOwned
    );
    assert_eq!(second.release().unwrap_err(), GpioWrapperError::PinNotOwned);
}

#[test]
fn cloned_handles_share_one_slot() {
    let log = new_log();
    let wrapper = full_wrapper(42, &log);
    let first = wrapper.get_pin(12).unwrap();
    let second = first.clone_handle();
    assert_eq!(second.index(), 12);
    first.release().unwrap();
    assert_eq!(second.get_adc().unwrap_err(), GpioWrapperError::PinNotOwned);
}

#[test]
fn non_adc_pin_rejects_all_sampling() {
    let log = new_log();
    let wrapper = full_wrapper(42, &log);
    let handle = wrapper.get_pin(5).unwrap();
    assert!(!handle.is_adc_pin());
    assert_eq!(handle.get_adc().unwrap_err(), GpioWrapperError::NotAnAdcPin);
    for to_measure in [0, 1, 17] {
        for attenuation in [
            Attenuation::DB0,
            Attenuation::DB2_5,
            Attenuation::DB6,
            Attenuation::DB11,
        ] {
            assert_eq!(
                handle
                    .get_adc_averaged(MeasurementConfig {
                        to_measure,
                        attenuation,
                    })
                    .unwrap_err(),
                GpioWrapperError::NotAnAdcPin
            );
        }
    }
    assert!(log.borrow().is_empty(), "no raw read may ever be attempted");
}

#[test]
fn single_shot_returns_the_raw_count_unmodified() {
    let log = new_log();
    let wrapper = full_wrapper(777, &log);
    let handle = wrapper.get_pin(36).unwrap();
    assert_eq!(handle.get_adc().unwrap(), 777);
    assert_eq!(log.borrow().len(), 1, "exactly one conversion");
}

#[test]
fn single_shot_uses_the_widest_attenuation_and_the_pin_channel() {
    let log = new_log();
    let wrapper = full_wrapper(1, &log);
    // Pin 35 is primary channel 7; pin 26 is secondary channel 9.
    wrapper.get_pin(35).unwrap().get_adc().unwrap();
    wrapper.get_pin(26).unwrap().get_adc().unwrap();
    assert_eq!(*log.borrow(), vec![(7, Attenuation::DB11), (9, Attenuation::DB11)]);
}

#[test]
fn single_shot_surfaces_driver_errors_unchanged() {
    let log = new_log();
    let wrapper = GpioWrapper::new(
        Some(ScriptReader::new(vec![Err(-7)], 0, log.clone())),
        None,
        Pins::new(),
    );
    let handle = wrapper.get_pin(39).unwrap();
    assert_eq!(handle.get_adc().unwrap_err(), GpioWrapperError::EspError(-7));
}

#[test]
fn zero_sample_average_is_nan_and_touches_nothing() {
    let log = new_log();
    let wrapper = full_wrapper(500, &log);
    let handle = wrapper.get_pin(33).unwrap();
    for attenuation in [
        Attenuation::DB0,
        Attenuation::DB2_5,
        Attenuation::DB6,
        Attenuation::DB11,
    ] {
        let average = handle
            .get_adc_averaged(MeasurementConfig {
                to_measure: 0,
                attenuation,
            })
            .unwrap();
        assert_eq!(average.count, 0);
        assert_eq!(average.sum, 0);
        assert!(average.is_undefined());
        let mean = average.sum as f32 / average.count as f32;
        assert!(mean.is_nan());
    }
    assert!(log.borrow().is_empty(), "the converter must not be touched");
}

#[test]
fn zero_sample_average_succeeds_even_without_the_unit() {
    // The zero-sample case is decided before the converter routing: it
    // succeeds even for a pin whose unit was withheld.
    let log = new_log();
    let wrapper = GpioWrapper::new(
        Some(ScriptReader::constant(1, log.clone())),
        None,
        Pins::new(),
    );
    let handle = wrapper.get_pin(27).unwrap();
    let average = handle
        .get_adc_averaged(MeasurementConfig {
            to_measure: 0,
            attenuation: Attenuation::DB6,
        })
        .unwrap();
    assert!(average.is_undefined());
    assert!(log.borrow().is_empty());
}

#[test]
fn averaging_returns_the_exact_mean() {
    let log = new_log();
    let wrapper = GpioWrapper::new(
        Some(ScriptReader::new(vec![Ok(100), Ok(200), Ok(300)], 0, log.clone())),
        None,
        Pins::new(),
    );
    let handle = wrapper.get_pin(34).unwrap();
    let average = handle
        .get_adc_averaged(MeasurementConfig {
            to_measure: 3,
            attenuation: Attenuation::DB11,
        })
        .unwrap();
    assert_eq!(average.sum, 600);
    assert_eq!(average.count, 3);
    assert_eq!(average.sum as f32 / average.count as f32, 200.0);
    assert_eq!(log.borrow().len(), 3, "exactly the requested number of reads");
}

#[test]
fn averaging_uses_the_requested_attenuation() {
    let log = new_log();
    let wrapper = full_wrapper(10, &log);
    let handle = wrapper.get_pin(13).unwrap();
    handle
        .get_adc_averaged(MeasurementConfig {
            to_measure: 2,
            attenuation: Attenuation::DB2_5,
        })
        .unwrap();
    // Pin 13 is secondary channel 4.
    assert_eq!(*log.borrow(), vec![(4, Attenuation::DB2_5), (4, Attenuation::DB2_5)]);
}

#[test]
fn a_failed_read_aborts_the_whole_batch() {
    let log = new_log();
    let wrapper = GpioWrapper::new(
        Some(ScriptReader::new(
            vec![Ok(1), Ok(2), Err(42), Ok(3)],
            0,
            log.clone(),
        )),
        None,
        Pins::new(),
    );
    let handle = wrapper.get_pin(38).unwrap();
    let result = handle.get_adc_averaged(MeasurementConfig {
        to_measure: 4,
        attenuation: Attenuation::DB0,
    });
    assert_eq!(result.unwrap_err(), GpioWrapperError::EspError(42));
    assert_eq!(
        log.borrow().len(),
        3,
        "the batch must stop at the failing read"
    );
}

#[test]
fn large_batches_accumulate_without_loss() {
    let log = new_log();
    let wrapper = full_wrapper(u16::MAX, &log);
    let handle = wrapper.get_pin(32).unwrap();
    let average = handle
        .get_adc_averaged(MeasurementConfig {
            to_measure: 10_000,
            attenuation: Attenuation::DB11,
        })
        .unwrap();
    assert_eq!(average.count, 10_000);
    assert_eq!(average.sum, 10_000 * u16::MAX as u64);
}

#[test]
fn withheld_secondary_fails_only_its_own_pins() {
    let log = new_log();
    let wrapper = GpioWrapper::new(
        Some(ScriptReader::constant(321, log.clone())),
        None,
        Pins::new(),
    );
    assert!(wrapper.has_primary());
    assert!(!wrapper.has_secondary());
    // Every secondary-assigned pin fails with AdcNotOwned, single-shot and
    // averaged alike.
    for index in [0, 2, 4, 12, 13, 14, 15, 25, 26, 27] {
        let handle = wrapper.get_pin(index).unwrap();
        assert_eq!(handle.get_adc().unwrap_err(), GpioWrapperError::AdcNotOwned);
        assert_eq!(
            handle
                .get_adc_averaged(MeasurementConfig {
                    to_measure: 5,
                    attenuation: Attenuation::DB6,
                })
                .unwrap_err(),
            GpioWrapperError::AdcNotOwned
        );
    }
    // Primary-assigned pins keep working normally.
    for index in [32, 33, 34, 35, 36, 37, 38, 39] {
        let handle = wrapper.get_pin(index).unwrap();
        assert_eq!(handle.get_adc().unwrap(), 321);
    }
    assert!(log.borrow().iter().all(|(_, a)| *a == Attenuation::DB11));
}

#[test]
fn withheld_primary_fails_only_its_own_pins() {
    let log = new_log();
    let wrapper = GpioWrapper::new(
        None,
        Some(ScriptReader::constant(99, log.clone())),
        Pins::new(),
    );
    assert!(!wrapper.has_primary());
    assert!(wrapper.has_secondary());
    let primary_pin = wrapper.get_pin(36).unwrap();
    assert_eq!(
        primary_pin.get_adc().unwrap_err(),
        GpioWrapperError::AdcNotOwned
    );
    let secondary_pin = wrapper.get_pin(4).unwrap();
    assert_eq!(secondary_pin.get_adc().unwrap(), 99);
}

#[test]
fn released_pin_keeps_its_identity() {
    let log = new_log();
    let wrapper = full_wrapper(0, &log);
    for index in [0, 21, 39] {
        let handle = wrapper.get_pin(index).unwrap();
        let pin = handle.release().unwrap();
        assert_eq!(pin.index(), index);
    }
}

#[test]
fn relinquishment_precedes_every_other_failure() {
    let log = new_log();
    // A relinquished non-ADC pin reports PinNotOwned, not NotAnAdcPin.
    let wrapper = full_wrapper(1, &log);
    let digital = wrapper.get_pin(5).unwrap();
    digital.release().unwrap();
    assert_eq!(digital.get_adc().unwrap_err(), GpioWrapperError::PinNotOwned);
    assert_eq!(
        digital
            .get_adc_averaged(MeasurementConfig {
                to_measure: 0,
                attenuation: Attenuation::DB11,
            })
            .unwrap_err(),
        GpioWrapperError::PinNotOwned
    );
    // A relinquished pin on a withheld unit reports PinNotOwned, not
    // AdcNotOwned — and not the zero-sample mean either.
    let half = GpioWrapper::new(
        Some(ScriptReader::constant(1, log.clone())),
        None,
        Pins::new(),
    );
    let orphan = half.get_pin(27).unwrap();
    orphan.release().unwrap();
    assert_eq!(orphan.get_adc().unwrap_err(), GpioWrapperError::PinNotOwned);
    for to_measure in [0, 3] {
        assert_eq!(
            orphan
                .get_adc_averaged(MeasurementConfig {
                    to_measure,
                    attenuation: Attenuation::DB6,
                })
                .unwrap_err(),
            GpioWrapperError::PinNotOwned
        );
    }
    assert!(log.borrow().is_empty(), "no converter may ever be touched");
}

#[test]
fn cloned_wrappers_share_slots_and_guards() {
    let log = new_log();
    let wrapper = full_wrapper(55, &log);
    let copy = wrapper.clone_wrapper();
    assert!(copy.has_primary());
    assert!(copy.has_secondary());
    // Releasing a pin through a handle from one aggregate is observed
    // through the other: the clone duplicated references, not resources.
    wrapper.get_pin(14).unwrap().release().unwrap();
    assert_eq!(
        copy.get_pin(14).unwrap().get_adc().unwrap_err(),
        GpioWrapperError::PinNotOwned
    );
    assert_eq!(copy.get_pin(32).unwrap().get_adc().unwrap(), 55);
}

#[test]
fn driver_codes_convert_to_the_wrapping_error() {
    assert_eq!(
        GpioWrapperError::from(-42),
        GpioWrapperError::EspError(-42)
    );
    assert_eq!(
        GpioWrapperError::from_driver(261),
        GpioWrapperError::EspError(261)
    );
}

#[test]
fn each_slot_owns_its_own_pin() {
    // Releasing one slot's pin leaves every other slot untouched.
    let log = new_log();
    let wrapper = full_wrapper(7, &log);
    wrapper.get_pin(33).unwrap().release().unwrap();
    let other = wrapper.get_pin(34).unwrap();
    assert_eq!(other.get_adc().unwrap(), 7);
}
