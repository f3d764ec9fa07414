//! Static radio configuration: the advertised identity of the device.
//!
//! The values are fixed at build time; the radio stack adapter reads them
//! when it sets up the GATT service and the advertisement data.

use vstd::prelude::*;

verus! {

/// The advertised identity: service identifier, characteristic identifier,
/// and device name.
#[derive(Debug)]
pub struct BleConfig;

impl BleConfig {
    /// Identifier of the GATT service advertised while pairing.
    pub fn service_uuid() -> (r: &'static str)
        ensures
            r@ == "9b574847-f706-436c-bed7-fc01eb0965c1"@,
    {
        "9b574847-f706-436c-bed7-fc01eb0965c1"
    }

    /// Identifier of the read-only characteristic inside that service.
    pub fn characteristic_uuid() -> (r: &'static str)
        ensures
            r@ == "681285a6-247f-48c6-80ad-68c3dce18585"@,
    {
        "681285a6-247f-48c6-80ad-68c3dce18585"
    }

    /// The device name carried in the advertisement data.
    pub fn device_name() -> (r: &'static str)
        ensures
            r@ == "esp32-devkit-v1"@,
    {
        "esp32-devkit-v1"
    }
}

} // verus!
