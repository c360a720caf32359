//! Device identifiers, device-status bits and the error taxonomy of the
//! transport.

use vstd::prelude::*;

verus! {

/// ACKNOWLEDGE: the guest has noticed the device.
pub const ACKNOWLEDGE: u32 = 1;
/// DRIVER: the guest knows how to drive the device.
pub const DRIVER: u32 = 2;
/// DRIVER_OK: the driver is set up; the device may process queues.
pub const DRIVER_OK: u32 = 4;
/// FEATURES_OK: the driver has finished feature negotiation.
pub const FEATURES_OK: u32 = 8;
/// FAILED: the guest has given up on the device.
pub const FAILED: u32 = 128;

/// Device-type identifiers of the transport.
///
/// The numeric codes are fixed externally: network is 1, block is 2,
/// console is 3, and 0 (or any unknown code) is invalid.
#[allow(non_camel_case_types)]
#[derive(Debug, PartialEq, Eq, Structural, Clone, Copy)]
pub enum DevId {
    INVALID,
    VIRTIO_DEV_ID_NET,
    VIRTIO_DEV_ID_BLK,
    VIRTIO_DEV_ID_CONSOLE,
}

/// The device type denoted by a raw device-ID register value.
pub open spec fn dev_id_of(code: u32) -> DevId {
    if code == 1 {
        DevId::VIRTIO_DEV_ID_NET
    } else if code == 2 {
        DevId::VIRTIO_DEV_ID_BLK
    } else if code == 3 {
        DevId::VIRTIO_DEV_ID_CONSOLE
    } else {
        DevId::INVALID
    }
}

/// The raw register value that denotes a device type.
pub open spec fn dev_id_code(id: DevId) -> u32 {
    match id {
        DevId::VIRTIO_DEV_ID_NET => 1,
        DevId::VIRTIO_DEV_ID_BLK => 2,
        DevId::VIRTIO_DEV_ID_CONSOLE => 3,
        DevId::INVALID => 0,
    }
}

impl From<u32> for DevId {
    /// Any code outside the known set maps to `INVALID`.
    fn from(val: u32) -> (r: DevId) {
        match val {
            1 => DevId::VIRTIO_DEV_ID_NET,
            2 => DevId::VIRTIO_DEV_ID_BLK,
            3 => DevId::VIRTIO_DEV_ID_CONSOLE,
            _ => DevId::INVALID,
        }
    }
}

impl vstd::std_specs::convert::FromSpecImpl<u32> for DevId {
    open spec fn obeys_from_spec() -> bool {
        true
    }

    open spec fn from_spec(val: u32) -> DevId {
        dev_id_of(val)
    }
}

impl From<DevId> for u32 {
    fn from(val: DevId) -> (r: u32) {
        match val {
            DevId::VIRTIO_DEV_ID_NET => 1,
            DevId::VIRTIO_DEV_ID_BLK => 2,
            DevId::VIRTIO_DEV_ID_CONSOLE => 3,
            DevId::INVALID => 0,
        }
    }
}

impl vstd::std_specs::convert::FromSpecImpl<DevId> for u32 {
    open spec fn obeys_from_spec() -> bool {
        true
    }

    open spec fn from_spec(val: DevId) -> u32 {
        dev_id_code(val)
    }
}

/// What can go wrong while binding to a device.
#[derive(Debug, PartialEq, Eq, Structural, Clone, Copy)]
pub enum VirtioError {
    /// The register block reports the legacy (version 1) interface.
    UnsupportedTransportVersion,
    /// The device-ID does not match any implemented driver.
    UnsupportedDeviceType,
    /// The device did not retain FEATURES_OK after the driver requested
    /// its feature subset.
    FeatureNegotiationFailed,
}

/// The single tagged error value surfaced to the caller of device
/// initialization.
#[derive(Debug, PartialEq, Eq, Structural, Clone, Copy)]
pub enum DriverError {
    InitVirtioDevFail(VirtioError),
}

} // verus!
