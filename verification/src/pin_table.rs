//! The pin table: the single canonical mapping from a logical pin index to
//! its physical existence and, if the pin is analog-capable, to its
//! converter unit and channel.
//!
//! The table is total over `0 .. PIN_COUNT`: an index that corresponds to no
//! physical pin is kept in the table marked non-existent rather than held in
//! a separate exclusion list, so that nothing can drift out of sync with the
//! descriptor set. The mapping below is the classic variant with two
//! converter units and forty logical indices: pins `0..=19`, `21..=23`,
//! `25..=27` and `32..=39` exist; of these, `32..=39` sample through the
//! primary unit and `0`, `2`, `4`, `12..=15` and `25..=27` through the
//! secondary unit.

use vstd::prelude::*;

use crate::errors::GpioWrapperError;

verus! {

/// The number of logical pin indices; the index domain is `0 .. PIN_COUNT`.
pub const PIN_COUNT: usize = 40;

/// One of the two physical analog-to-digital converter units.
#[derive(Debug, Clone, Copy, PartialEq, Eq, Structural)]
pub enum ConverterId {
    Primary,
    Secondary,
}

/// An analog-capable pin's wiring: the converter unit it samples through and
/// its unit-relative channel number. A pin has either no analog capability
/// or exactly one such pair.
#[derive(Debug, Clone, Copy, PartialEq, Eq, Structural)]
pub struct ChannelAssignment {
    pub converter: ConverterId,
    pub channel: u32,
}

/// The static description of one logical pin index: whether a physical pin
/// exists there, and its converter wiring if it is analog-capable.
#[derive(Debug, Clone, Copy, PartialEq, Eq)]
pub struct PinDescriptor {
    pub exists: bool,
    pub assignment: Option<ChannelAssignment>,
}

impl PinDescriptor {
    /// The converter unit this pin samples through, if any.
    pub open spec fn spec_converter(&self) -> Option<ConverterId> {
        match self.assignment {
            Some(a) => Some(a.converter),
            None => None,
        }
    }

    /// The converter-relative channel of this pin, if any.
    pub open spec fn spec_channel(&self) -> Option<u32> {
        match self.assignment {
            Some(a) => Some(a.channel),
            None => None,
        }
    }

    /// The converter unit this pin samples through, if any.
    pub fn converter(&self) -> (c: Option<ConverterId>)
        ensures
            c == self.spec_converter(),
    {
        match self.assignment {
            Some(a) => Some(a.converter),
            None => None,
        }
    }

    /// The converter-relative channel of this pin, if any.
    pub fn channel(&self) -> (c: Option<u32>)
        ensures
            c == self.spec_channel(),
    {
        match self.assignment {
            Some(a) => Some(a.channel),
            None => None,
        }
    }
}

/// A descriptor carries a converter exactly when it carries a channel: a pin
/// either has no analog capability or has exactly one converter+channel
/// pair. This holds of every descriptor by construction, since both are
/// faces of the one `assignment` field.
pub proof fn lemma_converter_iff_channel(d: PinDescriptor)
    ensures
        d.spec_converter() is Some <==> d.spec_channel() is Some,
{
}

/// Whether a physical pin exists at logical index `i`.
pub open spec fn spec_pin_exists(i: int) -> bool {
    &&& 0 <= i < PIN_COUNT as int
    &&& i != 20
    &&& i != 24
    &&& !(28 <= i <= 31)
}

/// The converter wiring of logical index `i`, if the pin there is
/// analog-capable.
pub open spec fn spec_assignment(i: int) -> Option<ChannelAssignment> {
    if i == 36 {
        Some(ChannelAssignment { converter: ConverterId::Primary, channel: 0 })
    } else if i == 37 {
        Some(ChannelAssignment { converter: ConverterId::Primary, channel: 1 })
    } else if i == 38 {
        Some(ChannelAssignment { converter: ConverterId::Primary, channel: 2 })
    } else if i == 39 {
        Some(ChannelAssignment { converter: ConverterId::Primary, channel: 3 })
    } else if i == 32 {
        Some(ChannelAssignment { converter: ConverterId::Primary, channel: 4 })
    } else if i == 33 {
        Some(ChannelAssignment { converter: ConverterId::Primary, channel: 5 })
    } else if i == 34 {
        Some(ChannelAssignment { converter: ConverterId::Primary, channel: 6 })
    } else if i == 35 {
        Some(ChannelAssignment { converter: ConverterId::Primary, channel: 7 })
    } else if i == 4 {
        Some(ChannelAssignment { converter: ConverterId::Secondary, channel: 0 })
    } else if i == 0 {
        Some(ChannelAssignment { converter: ConverterId::Secondary, channel: 1 })
    } else if i == 2 {
        Some(ChannelAssignment { converter: ConverterId::Secondary, channel: 2 })
    } else if i == 15 {
        Some(ChannelAssignment { converter: ConverterId::Secondary, channel: 3 })
    } else if i == 13 {
        Some(ChannelAssignment { converter: ConverterId::Secondary, channel: 4 })
    } else if i == 12 {
        Some(ChannelAssignment { converter: ConverterId::Secondary, channel: 5 })
    } else if i == 14 {
        Some(ChannelAssignment { converter: ConverterId::Secondary, channel: 6 })
    } else if i == 27 {
        Some(ChannelAssignment { converter: ConverterId::Secondary, channel: 7 })
    } else if i == 25 {
        Some(ChannelAssignment { converter: ConverterId::Secondary, channel: 8 })
    } else if i == 26 {
        Some(ChannelAssignment { converter: ConverterId::Secondary, channel: 9 })
    } else {
        None
    }
}

/// The complete static description of logical index `i`.
pub open spec fn spec_descriptor(i: int) -> PinDescriptor {
    PinDescriptor { exists: spec_pin_exists(i), assignment: spec_assignment(i) }
}

/// Every descriptor of the table is well-formed: an index with no physical
/// pin has no analog capability either.
pub proof fn lemma_table_wf(i: int)
    ensures
        spec_descriptor(i).assignment is Some ==> spec_descriptor(i).exists,
{
}

/// Computes the descriptor of logical index `i`. Construction is
/// deterministic and total: every index, in range or not, has a descriptor.
pub fn descriptor_for(index: usize) -> (d: PinDescriptor)
    ensures
        d == spec_descriptor(index as int),
{
    let exists = index < PIN_COUNT && index != 20 && index != 24 && !(28 <= index && index
        <= 31);
    let assignment = match index {
        36 => Some(ChannelAssignment { converter: ConverterId::Primary, channel: 0 }),
        37 => Some(ChannelAssignment { converter: ConverterId::Primary, channel: 1 }),
        38 => Some(ChannelAssignment { converter: ConverterId::Primary, channel: 2 }),
        39 => Some(ChannelAssignment { converter: ConverterId::Primary, channel: 3 }),
        32 => Some(ChannelAssignment { converter: ConverterId::Primary, channel: 4 }),
        33 => Some(ChannelAssignment { converter: ConverterId::Primary, channel: 5 }),
        34 => Some(ChannelAssignment { converter: ConverterId::Primary, channel: 6 }),
        35 => Some(ChannelAssignment { converter: ConverterId::Primary, channel: 7 }),
        4 => Some(ChannelAssignment { converter: ConverterId::Secondary, channel: 0 }),
        0 => Some(ChannelAssignment { converter: ConverterId::Secondary, channel: 1 }),
        2 => Some(ChannelAssignment { converter: ConverterId::Secondary, channel: 2 }),
        15 => Some(ChannelAssignment { converter: ConverterId::Secondary, channel: 3 }),
        13 => Some(ChannelAssignment { converter: ConverterId::Secondary, channel: 4 }),
        12 => Some(ChannelAssignment { converter: ConverterId::Secondary, channel: 5 }),
        14 => Some(ChannelAssignment { converter: ConverterId::Secondary, channel: 6 }),
        27 => Some(ChannelAssignment { converter: ConverterId::Secondary, channel: 7 }),
        25 => Some(ChannelAssignment { converter: ConverterId::Secondary, channel: 8 }),
        26 => Some(ChannelAssignment { converter: ConverterId::Secondary, channel: 9 }),
        _ => None,
    };
    PinDescriptor { exists, assignment }
}

/// The pin table of the chip variant: one descriptor per logical index,
/// produced once at construction and immutable thereafter.
pub struct PinTable {
    entries: Vec<PinDescriptor>,
}

#[verifier::type_invariant]
spec fn pin_table_inv(t: PinTable) -> bool {
    &&& t.entries@.len() == PIN_COUNT as int
    &&& forall|i: int| 0 <= i < PIN_COUNT as int ==> t.entries@[i] == spec_descriptor(i)
}

impl View for PinTable {
    type V = Seq<PinDescriptor>;

    closed spec fn view(&self) -> Seq<PinDescriptor> {
        self.entries@
    }
}

impl PinTable {
    /// Builds the complete table: every logical index in `0 .. PIN_COUNT`
    /// gets its descriptor, non-existent indices included.
    pub fn new() -> (t: PinTable)
        ensures
            t@.len() == PIN_COUNT as int,
            forall|i: int| 0 <= i < PIN_COUNT as int ==> t@[i] == spec_descriptor(i),
    {
        let mut entries: Vec<PinDescriptor> = Vec::new();
        let mut i: usize = 0;
        while i < PIN_COUNT
            invariant
                i <= PIN_COUNT,
                entries@.len() == i as int,
                forall|j: int| 0 <= j < i as int ==> entries@[j] == spec_descriptor(j),
            decreases PIN_COUNT - i,
        {
            entries.push(descriptor_for(i));
            i = i + 1;
        }
        PinTable { entries }
    }

    /// The number of logical indices the table covers.
    pub fn len(&self) -> (n: usize)
        ensures
            n == PIN_COUNT,
    {
        proof {
            use_type_invariant(self);
        }
        self.entries.len()
    }

    /// Looks the descriptor of `index` up. An index in range always has one,
    /// marked non-existent where no physical pin corresponds to it; an index
    /// out of range has no descriptor at all.
    pub fn describe(&self, index: usize) -> (r: Result<PinDescriptor, GpioWrapperError>)
        ensures
            index < PIN_COUNT ==> r == Ok::<PinDescriptor, GpioWrapperError>(
                spec_descriptor(index as int),
            ),
            index >= PIN_COUNT ==> r == Err::<PinDescriptor, GpioWrapperError>(
                GpioWrapperError::PinDoesNotExist,
            ),
    {
        proof {
            use_type_invariant(self);
        }
        if index < self.entries.len() {
            Ok(self.entries[index])
        } else {
            Err(GpioWrapperError::PinDoesNotExist)
        }
    }
}

} // verus!
