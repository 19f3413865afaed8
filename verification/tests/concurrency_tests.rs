//! Concurrency tests: batches on one converter unit are atomic with respect
//! to each other, and the two units proceed independently.

use std::sync::{Arc, Mutex};

use esp32_gpio_wrapper::{AdcRead, Attenuation, GpioWrapper, MeasurementConfig, Pins};

/// A reader whose log is shareable across threads; each read records the
/// channel it was asked for and returns it as the raw count.
struct SharedLogReader {
    log: Arc<Mutex<Vec<u32>>>,
}

impl AdcRead for SharedLogReader {
    fn read_raw(&mut self, channel: u32, _attenuation: Attenuation) -> Result<u16, i32> {
        self.log.lock().unwrap().push(channel);
        Ok(channel as u16)
    }
}

const BATCH: u32 = 20;
const ROUNDS: usize = 50;

fn hammer(handle: esp32_gpio_wrapper::PinWrapper<SharedLogReader>) {
    for _ in 0..ROUNDS {
        handle
            .get_adc_averaged(MeasurementConfig {
                to_measure: BATCH,
                attenuation: Attenuation::DB11,
            })
            .unwrap();
    }
}

#[test]
fn concurrent_batches_on_one_unit_never_interleave() {
    let log = Arc::new(Mutex::new(Vec::new()));
    let wrapper = GpioWrapper::new(
        Some(SharedLogReader { log: log.clone() }),
        None,
        Pins::new(),
    );
    // Pins 36 and 39 share the primary unit, on channels 0 and 3.
    let first = wrapper.get_pin(36).unwrap();
    let second = wrapper.get_pin(39).unwrap();
    let runtime = tokio::runtime::Builder::new_current_thread()
        .build()
        .unwrap();
    runtime.block_on(async {
        let task1 = tokio::task::spawn_blocking(move || hammer(first));
        let task2 = tokio::task::spawn_blocking(move || hammer(second));
        task1.await.unwrap();
        task2.await.unwrap();
    });
    let log = log.lock().unwrap();
    assert_eq!(log.len(), 2 * ROUNDS * BATCH as usize);
    // Every batch holds the unit's guard from its first read to its last,
    // so the log decomposes into contiguous single-channel blocks of one
    // batch length each.
    for block in log.chunks(BATCH as usize) {
        assert!(
            block.iter().all(|channel| *channel == block[0]),
            "two batches interleaved their reads"
        );
    }
}

#[test]
fn batches_on_different_units_proceed_independently() {
    let primary_log = Arc::new(Mutex::new(Vec::new()));
    let secondary_log = Arc::new(Mutex::new(Vec::new()));
    let wrapper = GpioWrapper::new(
        Some(SharedLogReader {
            log: primary_log.clone(),
        }),
        Some(SharedLogReader {
            log: secondary_log.clone(),
        }),
        Pins::new(),
    );
    // Pin 36 samples through the primary unit, pin 27 through the secondary.
    let on_primary = wrapper.get_pin(36).unwrap();
    let on_secondary = wrapper.get_pin(27).unwrap();
    let runtime = tokio::runtime::Builder::new_current_thread()
        .build()
        .unwrap();
    runtime.block_on(async {
        let task1 = tokio::task::spawn_blocking(move || hammer(on_primary));
        let task2 = tokio::task::spawn_blocking(move || hammer(on_secondary));
        task1.await.unwrap();
        task2.await.unwrap();
    });
    // Each unit saw exactly its own pin's reads: no cross-unit routing and
    // no cross-unit serialization is involved.
    let primary_log = primary_log.lock().unwrap();
    let secondary_log = secondary_log.lock().unwrap();
    assert_eq!(primary_log.len(), ROUNDS * BATCH as usize);
    assert!(primary_log.iter().all(|channel| *channel == 0));
    assert_eq!(secondary_log.len(), ROUNDS * BATCH as usize);
    assert!(secondary_log.iter().all(|channel| *channel == 7));
}
