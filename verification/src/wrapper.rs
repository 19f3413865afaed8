//! The wrapper façade and its per-pin slots and per-unit guards.
//!
//! A [`GpioWrapper`] is built once from the platform's converter resources
//! (either unit may be withheld) and its set of physical pins. It owns one
//! slot per existing logical pin and one exclusive-access guard per supplied
//! converter unit. [`GpioWrapper::get_pin`] hands out [`PinWrapper`] handles:
//! cheap shared references to a slot, of which many may be held concurrently.
//!
//! Every sampling call routes through the slot's converter guard, a verified
//! reader-writer lock around the driver value: a batch of reads holds the
//! guard exclusively from its first read to its last, so two batches on one
//! unit never interleave, while the two units are entirely independent.

use vstd::prelude::*;

use std::sync::Arc;
use vstd::rwlock::{RwLock, RwLockPredicate};

use crate::errors::GpioWrapperError;
use crate::measurement::{
    batch_result_matches, run_batch, AdcAverage, AdcRead, Attenuation, MeasurementConfig,
};
use crate::pin_table::{
    spec_assignment, spec_pin_exists, ChannelAssignment, ConverterId, PinTable, PIN_COUNT,
};

verus! {

/// The platform's full set of physical pins, surrendered to
/// [`GpioWrapper::new`] exactly once. The wrapper derives every per-pin
/// handle from it; no pin is ever re-acquired elsewhere.
pub struct Pins {}

impl Pins {
    /// Takes the platform's pin set. The caller is responsible for doing
    /// this once, as the platform hands its peripherals out once.
    pub fn new() -> Pins {
        Pins {}
    }
}

/// A physical pin handle: ownership of the one physical pin at a logical
/// index. A slot holds its pin's handle until the pin is relinquished
/// through [`PinWrapper::release`].
#[derive(Debug)]
pub struct PhysicalPin {
    index: usize,
}

#[verifier::type_invariant]
spec fn physical_pin_inv(p: PhysicalPin) -> bool {
    spec_pin_exists(p.index as int)
}

impl PhysicalPin {
    /// The logical index of this pin.
    pub closed spec fn spec_index(&self) -> int {
        self.index as int
    }

    /// The logical index of this pin.
    pub fn index(&self) -> (i: usize)
        ensures
            i as int == self.spec_index(),
            spec_pin_exists(i as int),
    {
        proof {
            use_type_invariant(self);
        }
        self.index
    }
}

/// The lock invariant of a pin slot: whatever physical pin the slot still
/// holds is the pin of the slot's own index.
pub struct SlotInv {
    pub index: int,
}

impl RwLockPredicate<Option<PhysicalPin>> for SlotInv {
    open spec fn inv(self, v: Option<PhysicalPin>) -> bool {
        v matches Some(p) ==> p.spec_index() == self.index
    }
}

/// The lock invariant of a converter guard: any driver state may be stored;
/// the guard exists to serialize conversions, not to constrain the driver.
pub struct UnitInv {}

impl<R> RwLockPredicate<R> for UnitInv {
    open spec fn inv(self, v: R) -> bool {
        true
    }
}

/// What a pin handle knows statically of its slot: the logical index, the
/// converter wiring from the pin table, and whether the assigned converter
/// unit was supplied to the wrapper.
pub ghost struct PinView {
    pub index: int,
    pub assignment: Option<ChannelAssignment>,
    pub unit_present: bool,
}

/// Which converter units a wrapper was supplied with.
pub ghost struct WrapperView {
    pub primary_present: bool,
    pub secondary_present: bool,
}

impl WrapperView {
    /// Whether the given converter unit was supplied.
    pub open spec fn unit_present(&self, id: ConverterId) -> bool {
        match id {
            ConverterId::Primary => self.primary_present,
            ConverterId::Secondary => self.secondary_present,
        }
    }
}

/// A shared handle to one pin slot. Many handles to one slot may be held and
/// used concurrently; each sampling call serializes on the slot's converter
/// guard. Obtained from [`GpioWrapper::get_pin`] or by
/// [`PinWrapper::clone_handle`].
pub struct PinWrapper<R: AdcRead> {
    index: usize,
    assignment: Option<ChannelAssignment>,
    unit: Option<Arc<RwLock<R, UnitInv>>>,
    slot: Arc<RwLock<Option<PhysicalPin>, SlotInv>>,
}

#[verifier::type_invariant]
spec fn pin_wrapper_inv<R: AdcRead>(w: PinWrapper<R>) -> bool {
    &&& spec_pin_exists(w.index as int)
    &&& w.assignment == spec_assignment(w.index as int)
    &&& w.slot.pred() == (SlotInv { index: w.index as int })
    &&& (w.unit is Some ==> w.assignment is Some)
}

impl<R: AdcRead> View for PinWrapper<R> {
    type V = PinView;

    closed spec fn view(&self) -> PinView {
        PinView {
            index: self.index as int,
            assignment: self.assignment,
            unit_present: self.unit is Some,
        }
    }
}

impl<R: AdcRead> PinWrapper<R> {
    /// The converter guard this handle routes its reads through, if any:
    /// the identity by which slots of one converter unit share a single
    /// guard instance.
    pub closed spec fn spec_unit(&self) -> Option<Arc<RwLock<R, UnitInv>>> {
        self.unit
    }

    /// The logical index this handle samples.
    pub fn index(&self) -> (i: usize)
        ensures
            i as int == self@.index,
    {
        self.index
    }

    /// Whether this pin has a converter assignment at all.
    pub fn is_adc_pin(&self) -> (b: bool)
        ensures
            b == (self@.assignment is Some),
    {
        self.assignment.is_some()
    }

    /// Another handle to the same slot: the clone references the same slot
    /// and the same converter guard, so anything observed or changed through
    /// one handle is observed through the other.
    pub fn clone_handle(&self) -> (r: PinWrapper<R>)
        ensures
            r == *self,
    {
        proof {
            use_type_invariant(self);
        }
        PinWrapper {
            index: self.index,
            assignment: self.assignment,
            unit: clone_unit(&self.unit),
            slot: self.slot.clone(),
        }
    }

    /// Performs exactly one raw read at the default attenuation (11 dB, the
    /// widest range) and returns the raw count unmodified.
    ///
    /// Failures, in the order they are checked: a relinquished pin fails
    /// with `PinNotOwned`, before anything else and so before touching any
    /// converter; then a pin with no converter assignment fails with
    /// `NotAnAdcPin`; then a pin whose assigned unit was not supplied fails
    /// with `AdcNotOwned`, without attempting acquisition. Otherwise the
    /// guard is acquired and a driver-level failure, if any, is surfaced
    /// unchanged as `EspError`. Whether the slot still holds its pin is
    /// dynamic shared state with no spec-level name, so each clause below
    /// admits `PinNotOwned` beside the error its case forces.
    pub fn get_adc(&self) -> (r: Result<u16, GpioWrapperError>)
        ensures
            self@.assignment is None ==> (r == Err::<u16, GpioWrapperError>(
                GpioWrapperError::NotAnAdcPin,
            ) || r == Err::<u16, GpioWrapperError>(GpioWrapperError::PinNotOwned)),
            self@.assignment is Some && !self@.unit_present ==> (r == Err::<u16, GpioWrapperError>(
                GpioWrapperError::AdcNotOwned,
            ) || r == Err::<u16, GpioWrapperError>(GpioWrapperError::PinNotOwned)),
            self@.assignment is Some && self@.unit_present ==> (r is Ok || r == Err::<
                u16,
                GpioWrapperError,
            >(GpioWrapperError::PinNotOwned) || r matches Err(GpioWrapperError::EspError(_))),
    {
        proof {
            use_type_invariant(self);
        }
        let guard = self.slot.acquire_read();
        if guard.borrow().is_none() {
            guard.release_read();
            return Err(GpioWrapperError::PinNotOwned);
        }
        let a = match self.assignment {
            Some(a) => a,
            None => {
                guard.release_read();
                return Err(GpioWrapperError::NotAnAdcPin);
            },
        };
        let unit = match &self.unit {
            Some(u) => u,
            None => {
                guard.release_read();
                return Err(GpioWrapperError::AdcNotOwned);
            },
        };
        let (mut reader, writer) = unit.acquire_write();
        let res = match reader.read_raw(a.channel, Attenuation::DB11) {
            Ok(v) => Ok(v),
            Err(code) => Err(GpioWrapperError::EspError(code)),
        };
        writer.release_write(reader);
        guard.release_read();
        res
    }

    /// Performs `measurement.to_measure` raw reads at the requested
    /// attenuation as one atomic batch and returns their exact average: the
    /// converter guard is acquired once for the whole batch, so the readings
    /// are never interleaved with a competing batch on the same unit.
    ///
    /// A relinquished pin fails with `PinNotOwned` before anything else;
    /// then a pin with no converter assignment fails with `NotAnAdcPin`;
    /// then a request for zero samples yields the undefined mean
    /// (`count == 0`, the `0 / 0` of the representation) without touching
    /// the converter, even when the assigned unit is absent; then a
    /// withheld unit fails with `AdcNotOwned`; only then are reads
    /// performed. If any single read fails, the whole batch aborts with
    /// that driver error and no partial average is ever returned. As in
    /// [`Self::get_adc`], slot emptiness has no spec-level name, so each
    /// clause below admits `PinNotOwned` beside the outcome its case
    /// forces.
    pub fn get_adc_averaged(&self, measurement: MeasurementConfig) -> (r: Result<
        AdcAverage,
        GpioWrapperError,
    >)
        ensures
            self@.assignment is None ==> (r == Err::<AdcAverage, GpioWrapperError>(
                GpioWrapperError::NotAnAdcPin,
            ) || r == Err::<AdcAverage, GpioWrapperError>(GpioWrapperError::PinNotOwned)),
            self@.assignment is Some && measurement.to_measure == 0 ==> (r == Ok::<
                AdcAverage,
                GpioWrapperError,
            >(AdcAverage { sum: 0, count: 0 }) || r == Err::<AdcAverage, GpioWrapperError>(
                GpioWrapperError::PinNotOwned,
            )),
            self@.assignment is Some && measurement.to_measure > 0 && !self@.unit_present ==> (r
                == Err::<AdcAverage, GpioWrapperError>(GpioWrapperError::AdcNotOwned) || r
                == Err::<AdcAverage, GpioWrapperError>(GpioWrapperError::PinNotOwned)),
            self@.assignment is Some && measurement.to_measure > 0 && self@.unit_present ==> (r
                == Err::<AdcAverage, GpioWrapperError>(GpioWrapperError::PinNotOwned) || exists|
                reads: Seq<Result<u16, i32>>,
            | batch_result_matches(measurement.to_measure as nat, reads, r)),
            r matches Ok(avg) ==> avg.count == measurement.to_measure,
    {
        proof {
            use_type_invariant(self);
        }
        let guard = self.slot.acquire_read();
        if guard.borrow().is_none() {
            guard.release_read();
            return Err(GpioWrapperError::PinNotOwned);
        }
        let a = match self.assignment {
            Some(a) => a,
            None => {
                guard.release_read();
                return Err(GpioWrapperError::NotAnAdcPin);
            },
        };
        if measurement.to_measure == 0 {
            guard.release_read();
            return Ok(AdcAverage { sum: 0, count: 0 });
        }
        let unit = match &self.unit {
            Some(u) => u,
            None => {
                guard.release_read();
                return Err(GpioWrapperError::AdcNotOwned);
            },
        };
        let (mut reader, writer) = unit.acquire_write();
        let res = run_batch(&mut reader, a.channel, measurement.attenuation, measurement.to_measure);
        writer.release_write(reader);
        guard.release_read();
        res
    }

    /// Relinquishes the slot's physical pin and returns it. Afterwards every
    /// sampling operation on this slot, through any handle, fails with
    /// `PinNotOwned`; releasing a second time fails with `PinNotOwned` too.
    pub fn release(&self) -> (r: Result<PhysicalPin, GpioWrapperError>)
        ensures
            r matches Ok(p) ==> p.spec_index() == self@.index,
            r is Err ==> r == Err::<PhysicalPin, GpioWrapperError>(GpioWrapperError::PinNotOwned),
    {
        proof {
            use_type_invariant(self);
        }
        let (v, writer) = self.slot.acquire_write();
        writer.release_write(None);
        match v {
            Some(p) => Ok(p),
            None => Err(GpioWrapperError::PinNotOwned),
        }
    }
}

/// Duplicates a shared reference to a converter guard, if there is one.
fn clone_unit<R: AdcRead>(u: &Option<Arc<RwLock<R, UnitInv>>>) -> (r: Option<
    Arc<RwLock<R, UnitInv>>,
>)
    ensures
        r == *u,
{
    match u {
        Some(x) => Some(x.clone()),
        None => None,
    }
}

/// Whether a stored slot is the right one for index `i`: existing indices
/// hold a handle wired per the pin table and routed to the wrapper's own
/// guard for the assigned unit; non-existent indices hold none.
spec fn slot_ok<R: AdcRead>(
    primary: Option<Arc<RwLock<R, UnitInv>>>,
    secondary: Option<Arc<RwLock<R, UnitInv>>>,
    entry: Option<PinWrapper<R>>,
    i: int,
) -> bool {
    match entry {
        Some(h) => {
            &&& spec_pin_exists(i)
            &&& h.index as int == i
            &&& h.assignment == spec_assignment(i)
            &&& match h.assignment {
                Some(a) => h.unit == (match a.converter {
                    ConverterId::Primary => primary,
                    ConverterId::Secondary => secondary,
                }),
                None => h.unit is None,
            }
        },
        None => !spec_pin_exists(i),
    }
}

/// The wrapper façade: owner of the pin table's slots and of the converter
/// guards, built once from the platform's resources.
pub struct GpioWrapper<R: AdcRead> {
    primary: Option<Arc<RwLock<R, UnitInv>>>,
    secondary: Option<Arc<RwLock<R, UnitInv>>>,
    slots: Vec<Option<PinWrapper<R>>>,
}

#[verifier::type_invariant]
spec fn gpio_wrapper_inv<R: AdcRead>(w: GpioWrapper<R>) -> bool {
    &&& w.slots@.len() == PIN_COUNT as int
    &&& forall|i: int|
        0 <= i < PIN_COUNT as int ==> slot_ok(w.primary, w.secondary, #[trigger] w.slots@[i], i)
}

impl<R: AdcRead> View for GpioWrapper<R> {
    type V = WrapperView;

    closed spec fn view(&self) -> WrapperView {
        WrapperView {
            primary_present: self.primary is Some,
            secondary_present: self.secondary is Some,
        }
    }
}

impl<R: AdcRead> GpioWrapper<R> {
    /// The slot stored at index `i`: what every successful lookup of `i`
    /// hands a handle to.
    pub closed spec fn spec_slot(&self, i: int) -> Option<PinWrapper<R>> {
        self.slots@[i]
    }

    /// The wrapper's one guard for the given converter unit, if that unit
    /// was supplied: each supplied converter resource is wrapped in exactly
    /// one guard, created at construction and never duplicated.
    pub closed spec fn spec_unit_of(&self, id: ConverterId) -> Option<Arc<RwLock<R, UnitInv>>> {
        match id {
            ConverterId::Primary => self.primary,
            ConverterId::Secondary => self.secondary,
        }
    }

    /// The guard the slot at index `i` is routed to: the wrapper's guard
    /// for the converter the pin table names there, or none for a pin with
    /// no analog capability.
    pub open spec fn spec_routed_unit(&self, i: int) -> Option<Arc<RwLock<R, UnitInv>>> {
        match spec_assignment(i) {
            Some(a) => self.spec_unit_of(a.converter),
            None => None,
        }
    }

    /// Builds the façade from the platform's converter resources and pin
    /// set. Either converter may be withheld (`None`) — deliberately so,
    /// for instance to reserve it for another subsystem — in which case
    /// every pin assigned to it will fail sampling with `AdcNotOwned`.
    pub fn new(adc1: Option<R>, adc2: Option<R>, pins: Pins) -> (w: GpioWrapper<R>)
        ensures
            w@.primary_present == (adc1 is Some),
            w@.secondary_present == (adc2 is Some),
            w.spec_unit_of(ConverterId::Primary) is Some <==> adc1 is Some,
            w.spec_unit_of(ConverterId::Secondary) is Some <==> adc2 is Some,
            forall|i: int|
                0 <= i < PIN_COUNT as int ==> (#[trigger] w.spec_slot(i)) is Some
                    == spec_pin_exists(i),
            forall|i: int|
                0 <= i < PIN_COUNT as int ==> match #[trigger] w.spec_slot(i) {
                    Some(h) => h.spec_unit() == w.spec_routed_unit(i),
                    None => true,
                },
    {
        let _ = pins;
        let ghost primary_expected = adc1 is Some;
        let ghost secondary_expected = adc2 is Some;
        let primary = match adc1 {
            Some(r) => Some(Arc::new(RwLock::<R, UnitInv>::new(r, Ghost(UnitInv {})))),
            None => None,
        };
        let secondary = match adc2 {
            Some(r) => Some(Arc::new(RwLock::<R, UnitInv>::new(r, Ghost(UnitInv {})))),
            None => None,
        };
        let table = PinTable::new();
        let mut slots: Vec<Option<PinWrapper<R>>> = Vec::new();
        let mut i: usize = 0;
        while i < PIN_COUNT
            invariant
                i <= PIN_COUNT,
                slots@.len() == i as int,
                table@.len() == PIN_COUNT as int,
                forall|j: int|
                    0 <= j < PIN_COUNT as int ==> table@[j] == crate::pin_table::spec_descriptor(
                        j,
                    ),
                forall|j: int|
                    0 <= j < i as int ==> slot_ok(primary, secondary, #[trigger] slots@[j], j),
            decreases PIN_COUNT - i,
        {
            let d = match table.describe(i) {
                Ok(d) => d,
                Err(_) => {
                    proof {
                        assert(false);
                    }
                    unreached()
                },
            };
            if d.exists {
                let unit = match d.assignment {
                    Some(a) => match a.converter {
                        ConverterId::Primary => clone_unit(&primary),
                        ConverterId::Secondary => clone_unit(&secondary),
                    },
                    None => None,
                };
                let lock = RwLock::<Option<PhysicalPin>, SlotInv>::new(
                    Some(PhysicalPin { index: i }),
                    Ghost(SlotInv { index: i as int }),
                );
                slots.push(
                    Some(
                        PinWrapper {
                            index: i,
                            assignment: d.assignment,
                            unit,
                            slot: Arc::new(lock),
                        },
                    ),
                );
            } else {
                slots.push(None);
            }
            i = i + 1;
        }
        GpioWrapper { primary, secondary, slots }
    }

    /// Another façade aggregate over the very same slots and guards:
    /// cloning duplicates only the shared references, never the underlying
    /// hardware resources, so lookups through either aggregate hand out
    /// handles to the same slots.
    pub fn clone_wrapper(&self) -> (r: GpioWrapper<R>)
        ensures
            r@ == self@,
            r.spec_unit_of(ConverterId::Primary) == self.spec_unit_of(ConverterId::Primary),
            r.spec_unit_of(ConverterId::Secondary) == self.spec_unit_of(ConverterId::Secondary),
            forall|i: int|
                0 <= i < PIN_COUNT as int ==> #[trigger] r.spec_slot(i) == self.spec_slot(i),
    {
        proof {
            use_type_invariant(self);
        }
        let primary = clone_unit(&self.primary);
        let secondary = clone_unit(&self.secondary);
        let mut slots: Vec<Option<PinWrapper<R>>> = Vec::new();
        let mut i: usize = 0;
        while i < PIN_COUNT
            invariant
                i <= PIN_COUNT,
                slots@.len() == i as int,
                self.slots@.len() == PIN_COUNT as int,
                forall|j: int|
                    0 <= j < PIN_COUNT as int ==> slot_ok(
                        self.primary,
                        self.secondary,
                        #[trigger] self.slots@[j],
                        j,
                    ),
                primary == self.primary,
                secondary == self.secondary,
                forall|j: int| 0 <= j < i as int ==> #[trigger] slots@[j] == self.slots@[j],
            decreases PIN_COUNT - i,
        {
            let entry = match &self.slots[i] {
                Some(h) => Some(h.clone_handle()),
                None => None,
            };
            slots.push(entry);
            i = i + 1;
        }
        GpioWrapper { primary, secondary, slots }
    }

    /// Whether the primary converter unit was supplied at construction.
    pub fn has_primary(&self) -> (b: bool)
        ensures
            b == self@.primary_present,
    {
        self.primary.is_some()
    }

    /// Whether the secondary converter unit was supplied at construction.
    pub fn has_secondary(&self) -> (b: bool)
        ensures
            b == self@.secondary_present,
    {
        self.secondary.is_some()
    }

    /// Looks up the slot of logical index `pin` and hands out a shared
    /// handle to it. The lookup succeeds exactly where the pin table records
    /// an existing pin — whether or not the pin is analog-capable — and
    /// every successful lookup of one index refers to the same slot.
    pub fn get_pin(&self, pin: usize) -> (r: Result<PinWrapper<R>, GpioWrapperError>)
        ensures
            r is Ok <==> spec_pin_exists(pin as int),
            !spec_pin_exists(pin as int) ==> r == Err::<PinWrapper<R>, GpioWrapperError>(
                GpioWrapperError::PinDoesNotExist,
            ),
            r matches Ok(h) ==> {
                &&& Some(h) == self.spec_slot(pin as int)
                &&& h@.index == pin as int
                &&& h@.assignment == spec_assignment(pin as int)
                &&& h@.unit_present == (match spec_assignment(pin as int) {
                    Some(a) => self@.unit_present(a.converter),
                    None => false,
                })
                &&& h.spec_unit() == self.spec_routed_unit(pin as int)
                &&& (h.spec_unit() is Some) == h@.unit_present
            },
    {
        proof {
            use_type_invariant(self);
        }
        if pin >= PIN_COUNT {
            return Err(GpioWrapperError::PinDoesNotExist);
        }
        match &self.slots[pin] {
            Some(h) => {
                let c = h.clone_handle();
                proof {
                    use_type_invariant(&c);
                }
                Ok(c)
            },
            None => Err(GpioWrapperError::PinDoesNotExist),
        }
    }
}

/// Repeated lookups of one index hand out handles to the same underlying
/// slot: any two handles the wrapper stores for an index are one and the
/// same, so a change made through one — such as relinquishing the pin — is
/// observed through every other.
pub proof fn lemma_repeated_get_pin_shares_slot<R: AdcRead>(
    w: GpioWrapper<R>,
    h1: PinWrapper<R>,
    h2: PinWrapper<R>,
    i: int,
)
    requires
        Some(h1) == w.spec_slot(i),
        Some(h2) == w.spec_slot(i),
    ensures
        h1 == h2,
{
}

/// The pin table is the single source of truth for lookups: `get_pin`
/// succeeds exactly where the table's descriptor records an existing pin,
/// for every index in or out of range; there is no separate exclusion list
/// to drift out of sync.
pub proof fn lemma_lookup_follows_table(i: int)
    ensures
        spec_pin_exists(i) <==> (0 <= i < PIN_COUNT as int
            && crate::pin_table::spec_descriptor(i).exists),
{
}

/// A handle routes to a converter unit exactly when its pin is assigned to
/// that unit and the wrapper was supplied with it. In particular, with the
/// secondary converter withheld at construction, every handle for a
/// secondary-assigned pin reports no unit present — so by the sampling
/// contracts all its sampling fails with `AdcNotOwned` (or `PinNotOwned`
/// once the pin is relinquished) — while handles for primary-assigned pins
/// are routed normally.
pub proof fn lemma_unit_presence_routes(v: WrapperView, pv: PinView, i: int)
    requires
        pv.assignment == spec_assignment(i),
        spec_assignment(i) is Some,
        pv.unit_present == (match pv.assignment {
            Some(a) => v.unit_present(a.converter),
            None => false,
        }),
    ensures
        pv.unit_present == v.unit_present(spec_assignment(i)->Some_0.converter),
        !v.unit_present(spec_assignment(i)->Some_0.converter) ==> !pv.unit_present,
{
}

/// All slots whose descriptors name one converter unit share a single
/// guard instance: two handles of one wrapper whose pins are assigned to
/// the same converter route their reads through the very same guard, so
/// their batches serialize on it. The premises are the routing facts that
/// [`GpioWrapper::new`] and [`GpioWrapper::get_pin`] ensure of every
/// handle.
pub proof fn lemma_same_converter_shares_one_guard<R: AdcRead>(
    w: GpioWrapper<R>,
    h1: PinWrapper<R>,
    h2: PinWrapper<R>,
    i: int,
    j: int,
)
    requires
        h1.spec_unit() == w.spec_routed_unit(i),
        h2.spec_unit() == w.spec_routed_unit(j),
        spec_assignment(i) is Some,
        spec_assignment(j) is Some,
        spec_assignment(i)->Some_0.converter == spec_assignment(j)->Some_0.converter,
    ensures
        h1.spec_unit() == h2.spec_unit(),
{
}

} // verus!
