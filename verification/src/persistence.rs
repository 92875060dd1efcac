//! The row that is written for a reading once its sensor is known.

use crate::normalisation::{NormalisedReading, ReadingModel, ZERO_BITS};
use crate::registry::SensorKey;
use crate::time::Timestamp;
use vstd::prelude::*;

verus! {

/// A reading as it is stored: under an identifier of its own, tied to its sensor.
///
/// `value` is the binary64 pattern of the reading's number, and that of zero
/// where the reading has none. The time of insertion is the store's to assign.
#[derive(Debug)]
pub struct PersistedReading {
    pub id: u128,
    pub sensor: SensorKey,
    pub timestamp: Timestamp,
    pub raw_value: String,
    pub value: u64,
}

/// The mathematical value of a [`PersistedReading`].
pub struct PersistedModel {
    pub id: u128,
    pub sensor: SensorKey,
    pub timestamp: Timestamp,
    pub raw_value: Seq<char>,
    pub value: u64,
}

impl View for PersistedReading {
    type V = PersistedModel;

    open spec fn view(&self) -> PersistedModel {
        PersistedModel {
            id: self.id,
            sensor: self.sensor,
            timestamp: self.timestamp,
            raw_value: self.raw_value@,
            value: self.value,
        }
    }
}

/// The row for a reading of the given sensor, stored under `id`.
pub open spec fn persisted(id: u128, sensor: SensorKey, reading: ReadingModel) -> PersistedModel {
    PersistedModel {
        id,
        sensor,
        timestamp: reading.timestamp,
        raw_value: reading.raw_value,
        value: match reading.value {
            Some(bits) => bits,
            None => ZERO_BITS,
        },
    }
}

impl PersistedModel {
    /// Whether two rows say the same of the world: they agree on everything but
    /// their identifiers.
    pub open spec fn same_content(self, other: PersistedModel) -> bool {
        &&& self.sensor == other.sensor
        &&& self.timestamp == other.timestamp
        &&& self.raw_value == other.raw_value
        &&& self.value == other.value
    }
}

/// Whether an identifier carries the marks of a random (version 4) UUID: the
/// version digit 4 and the variant bits `10`.
pub open spec fn is_random_id(id: u128) -> bool {
    id & 0x0000_0000_0000_F000_C000_0000_0000_0000u128
        == 0x0000_0000_0000_4000_8000_0000_0000_0000u128
}

/// Draws a fresh identifier with `uuid::Uuid::new_v4`, as a 128-bit number.
/// Which one comes back is left open; the contract states only the version and
/// variant bits that `uuid` sets on every one. `uuid` panics where the
/// operating system hands out no random bytes.
#[verifier::external_body]
pub(crate) fn draw_id() -> (r: u128)
    ensures
        is_random_id(r),
{
    uuid::Uuid::new_v4().as_u128()
}

/// Builds the row for a reading of the given sensor, stored under `id`.
pub fn persisted_reading(id: u128, sensor: SensorKey, reading: &NormalisedReading) -> (r:
    PersistedReading)
    ensures
        r@ == persisted(id, sensor, reading@),
{
    PersistedReading {
        id,
        sensor,
        timestamp: reading.timestamp,
        raw_value: reading.raw_value.clone(),
        value: match reading.value {
            Some(bits) => bits,
            None => ZERO_BITS,
        },
    }
}

impl PersistedReading {
    /// A copy of the row.
    pub fn duplicate(&self) -> (r: PersistedReading)
        ensures
            r@ == self@,
    {
        PersistedReading {
            id: self.id,
            sensor: self.sensor,
            timestamp: self.timestamp,
            raw_value: self.raw_value.clone(),
            value: self.value,
        }
    }
}

/// Builds the row for a reading of the given sensor under a fresh identifier.
/// The identifier is drawn anew at each call and never derived from the reading.
pub fn new_persisted_reading(sensor: SensorKey, reading: &NormalisedReading) -> (r:
    PersistedReading)
    ensures
        r@ == persisted(r.id, sensor, reading@),
        is_random_id(r.id),
{
    persisted_reading(draw_id(), sensor, reading)
}

/// Writing the same reading twice gives two rows with the same content,
/// whatever their identifiers; they are the same row only where the
/// identifiers are the same.
pub proof fn lemma_redelivery_repeats_content(
    first: u128,
    second: u128,
    sensor: SensorKey,
    reading: ReadingModel,
)
    ensures
        persisted(first, sensor, reading).same_content(persisted(second, sensor, reading)),
        persisted(first, sensor, reading) == persisted(second, sensor, reading) <==> first
            == second,
        persisted(first, sensor, reading).id == first,
        persisted(second, sensor, reading).id == second,
{
}

} // verus!
