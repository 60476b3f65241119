//! Which discovered devices qualify as heart-rate sensors.
use vstd::prelude::*;

verus! {

/// The Bluetooth base UUID, into which 16-bit assigned numbers are placed.
pub const BLUETOOTH_BASE_UUID: u128 = 0x00000000_0000_1000_8000_00805f9b34fb;

/// Assigned number of the Heart Rate Measurement characteristic.
pub const HEART_RATE_MEASUREMENT_SHORT: u16 = 0x2A37;

/// Full 128-bit UUID of the Heart Rate Measurement characteristic.
pub const HEART_RATE_MEASUREMENT: u128 = 0x00002a37_0000_1000_8000_00805f9b34fb;

/// The 128-bit UUID that stands for a 16-bit assigned number.
pub open spec fn uuid_of_short(short: u16) -> u128 {
    (BLUETOOTH_BASE_UUID | ((short as u128) << 96u128)) as u128
}

/// The heart-rate UUID is the assigned number placed into the base UUID.
pub proof fn lemma_heart_rate_uuid()
    ensures
        HEART_RATE_MEASUREMENT == uuid_of_short(HEART_RATE_MEASUREMENT_SHORT),
{
    assert(HEART_RATE_MEASUREMENT == (BLUETOOTH_BASE_UUID | ((HEART_RATE_MEASUREMENT_SHORT as u128)
        << 96u128))) by (bit_vector);
}

/// What a scan looks for: devices that expose `capability`, and whether the
/// scan ends after the first such device.
#[derive(Clone, Copy, Debug, PartialEq, Eq, Structural)]
pub struct DeviceFilterPolicy {
    pub capability: u128,
    pub stop_after_first_match: bool,
}

impl DeviceFilterPolicy {
    /// The policy of every scan session: devices with a heart-rate
    /// measurement characteristic, stopping after the first one.
    pub open spec fn heart_rate_spec() -> DeviceFilterPolicy {
        DeviceFilterPolicy { capability: HEART_RATE_MEASUREMENT, stop_after_first_match: true }
    }

    pub fn heart_rate() -> (r: DeviceFilterPolicy)
        ensures
            r == Self::heart_rate_spec(),
    {
        DeviceFilterPolicy { capability: HEART_RATE_MEASUREMENT, stop_after_first_match: true }
    }

    /// Whether a device whose characteristics are `capabilities` qualifies.
    pub fn matches(&self, capabilities: &[u128]) -> (r: bool)
        ensures
            r == capabilities@.contains(self.capability),
    {
        let mut i: usize = 0;
        while i < capabilities.len()
            invariant
                i <= capabilities@.len(),
                forall|j: int| 0 <= j < i ==> capabilities@[j] != self.capability,
            decreases capabilities@.len() - i,
        {
            if capabilities[i] == self.capability {
                return true;
            }
            i = i + 1;
        }
        false
    }

    /// How many matching devices the scan reports before it ends by itself.
    pub fn max_results(&self) -> (r: Option<usize>)
        ensures
            r == (if self.stop_after_first_match { Some(1usize) } else { None }),
    {
        if self.stop_after_first_match {
            Some(1)
        } else {
            None
        }
    }
}

} // verus!
