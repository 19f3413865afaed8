//! The measurement policy: attenuation selection and the averaged-sampling
//! algorithm.
//!
//! An averaged measurement performs a batch of raw reads and reports their
//! arithmetic mean as the exact rational `sum / count`, carried in an
//! [`AdcAverage`]. A zero-sample batch is represented by `count == 0`
//! (the mean `0 / 0`, an undefined-but-representable value); it is not an
//! error. If any single read of a batch fails, the whole batch aborts with
//! that error and no partial sum is ever reported.

use vstd::prelude::*;

use crate::errors::GpioWrapperError;

verus! {

/// Input-signal attenuation of a converter channel, ordered by increasing
/// measurable voltage range and decreasing resolution.
#[derive(Debug, Clone, Copy, PartialEq, Eq, Structural)]
pub enum Attenuation {
    DB0,
    DB2_5,
    DB6,
    DB11,
}

/// Per-call configuration of an averaged measurement: how many raw reads to
/// take and at which attenuation.
#[derive(Debug, Clone, Copy, PartialEq, Eq, Structural)]
pub struct MeasurementConfig {
    pub to_measure: u32,
    pub attenuation: Attenuation,
}

/// The exact outcome of an averaged measurement: the sum of the raw readings
/// and how many there were. The arithmetic mean is `sum / count`; a batch of
/// zero samples (`count == 0`) stands for the undefined mean `0 / 0`.
#[derive(Debug, Clone, Copy, PartialEq, Eq, Structural)]
pub struct AdcAverage {
    pub sum: u64,
    pub count: u32,
}

impl AdcAverage {
    /// Whether this value stands for the undefined mean of an empty batch.
    pub fn is_undefined(&self) -> (r: bool)
        ensures
            r == (self.count == 0),
    {
        self.count == 0
    }
}

/// Whether every read of a batch succeeded. The sequence records, in order,
/// the raw reads a converter performed: `Ok(v)` is a successful conversion
/// with raw count `v`, `Err(code)` a driver-level failure with that code.
pub open spec fn reads_all_ok(reads: Seq<Result<u16, i32>>) -> bool {
    forall|i: int| 0 <= i < reads.len() ==> reads[i] is Ok
}

/// The sum of the successful raw readings in `reads`.
pub open spec fn sum_of_reads(reads: Seq<Result<u16, i32>>) -> int
    decreases reads.len(),
{
    if reads.len() == 0 {
        0
    } else {
        sum_of_reads(reads.drop_last()) + (match reads.last() {
            Ok(v) => v as int,
            Err(_) => 0,
        })
    }
}

/// How the outcome of a batch of `n` requested raw reads relates to the
/// reads the converter actually performed.
///
/// - A successful batch performed exactly `n` reads, all of which succeeded,
///   and reports their count and exact sum.
/// - A failed batch stopped at its first failing read, surfaces that read's
///   driver code unchanged, and reports no partial result.
pub open spec fn batch_result_matches(
    n: nat,
    reads: Seq<Result<u16, i32>>,
    res: Result<AdcAverage, GpioWrapperError>,
) -> bool {
    match res {
        Ok(avg) => {
            &&& reads.len() == n
            &&& reads_all_ok(reads)
            &&& avg.count == n
            &&& avg.sum == sum_of_reads(reads)
        },
        Err(e) => {
            &&& 1 <= reads.len() <= n
            &&& reads.last() is Err
            &&& e == GpioWrapperError::EspError(reads.last()->Err_0)
            &&& reads_all_ok(reads.drop_last())
        },
    }
}

/// A source of single raw analog conversions: the driver-level read
/// primitive, supplied by the platform layer. `read_raw` performs one
/// conversion on the given converter-relative channel at the given
/// attenuation and returns the raw count, or a driver error code.
///
/// Nothing is assumed about the values a reader returns; every contract of
/// the library holds for every possible outcome of every read.
pub trait AdcRead {
    fn read_raw(&mut self, channel: u32, attenuation: Attenuation) -> Result<u16, i32>;
}

/// Performs `count` raw reads on `channel` at `attenuation` through `reader`,
/// aborting at the first failure, and returns the exact average (or that
/// failure). The caller is expected to hold the converter unit exclusively
/// for the whole call, so the batch is never interleaved with another batch.
pub fn run_batch<R: AdcRead>(
    reader: &mut R,
    channel: u32,
    attenuation: Attenuation,
    count: u32,
) -> (res: Result<AdcAverage, GpioWrapperError>)
    ensures
        exists|reads: Seq<Result<u16, i32>>| batch_result_matches(count as nat, reads, res),
        res matches Ok(avg) ==> avg.count == count,
{
    let mut sum: u64 = 0;
    let mut done: u32 = 0;
    let ghost mut reads: Seq<Result<u16, i32>> = Seq::empty();
    while done < count
        invariant
            done <= count,
            reads.len() == done as int,
            reads_all_ok(reads),
            sum == sum_of_reads(reads),
            sum <= done as int * 0xffff,
        decreases count - done,
    {
        let r = reader.read_raw(channel, attenuation);
        let ghost prev = reads;
        proof {
            reads = reads.push(r);
            assert(reads.drop_last() =~= prev);
            assert(reads.last() == r);
        }
        match r {
            Ok(v) => {
                assert(sum + v <= (done + 1) * 0xffff < u64::MAX) by (nonlinear_arith)
                    requires
                        sum <= done as int * 0xffff,
                        v <= 0xffff,
                        0 <= done < 0x1_0000_0000,
                ;
                sum = sum + v as u64;
                done = done + 1;
            },
            Err(code) => {
                let res = Err::<AdcAverage, GpioWrapperError>(GpioWrapperError::EspError(code));
                proof {
                    assert(batch_result_matches(count as nat, reads, res));
                }
                return res;
            },
        }
    }
    let res = Ok::<AdcAverage, GpioWrapperError>(AdcAverage { sum, count });
    proof {
        assert(batch_result_matches(count as nat, reads, res));
    }
    res
}

/// A batch in which every read succeeded reports the exact sum of all the
/// readings: with `sample_count = k > 0` and raw reads `v1..vk`, the outcome
/// is the exact mean `(v1 + .. + vk) / k`, never an error.
pub proof fn lemma_full_batch_is_exact_mean(
    n: nat,
    reads: Seq<Result<u16, i32>>,
    res: Result<AdcAverage, GpioWrapperError>,
)
    requires
        batch_result_matches(n, reads, res),
        reads_all_ok(reads),
    ensures
        res is Ok,
        res->Ok_0.count == n,
        res->Ok_0.sum == sum_of_reads(reads),
        reads.len() == n,
{
    if res is Err {
        assert(reads[reads.len() - 1] is Ok);
    }
}

/// A batch in which some read failed surfaces exactly that failure's driver
/// code and never reports a partial average: the failing read is the last
/// one performed, and every read before it succeeded.
pub proof fn lemma_failed_batch_surfaces_error(
    n: nat,
    reads: Seq<Result<u16, i32>>,
    res: Result<AdcAverage, GpioWrapperError>,
)
    requires
        batch_result_matches(n, reads, res),
        !reads_all_ok(reads),
    ensures
        res is Err,
        res->Err_0 == GpioWrapperError::EspError(reads.last()->Err_0),
        reads.last() is Err,
        reads_all_ok(reads.drop_last()),
{
}

} // verus!
