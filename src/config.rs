//! The inputs and the messages of the protocol, as plain values.
use vstd::prelude::*;
use crate::error::AbsintheError;

verus! {

/// The status returned where an operation is not supported.
pub const UNSUPPORTED_OPERATION: i32 = -1;

/// A snapshot of the device-identity fields handed to the engine at
/// initialization.
#[derive(Clone)]
pub struct HardwareConfig {
    pub product_name: String,
    pub io_mac_address: [u8; 6],
    pub platform_serial_number: String,
    pub platform_uuid: String,
    pub root_disk_uuid: String,
    pub board_id: String,
    pub os_build_num: String,
    pub platform_serial_number_enc: Vec<u8>,
    pub platform_uuid_enc: Vec<u8>,
    pub root_disk_uuid_enc: Vec<u8>,
    pub rom: Vec<u8>,
    pub rom_enc: Vec<u8>,
    pub mlb: String,
    pub mlb_enc: Vec<u8>,
}

impl HardwareConfig {
    /// Building a profile out of captured validation data is not supported:
    /// every input gets `UNSUPPORTED_OPERATION`.
    pub fn from_validation_data(data: &[u8]) -> (r: Result<HardwareConfig, AbsintheError>)
        ensures
            r is Err,
            r->Err_0.0 == UNSUPPORTED_OPERATION,
    {
        Err(AbsintheError(UNSUPPORTED_OPERATION))
    }
}

/// The first message to the child: the hardware profile and the certificate
/// chain.
#[derive(Clone)]
pub struct InitialPayload {
    pub hardware_config: HardwareConfig,
    pub cert_data: Vec<u8>,
}

/// A session-info message, in either direction.
#[derive(Clone)]
pub struct SessionInfoPayload {
    pub session_info: Vec<u8>,
}

/// The child's last message: the signature.
#[derive(Clone)]
pub struct ResultPayload {
    pub result: Vec<u8>,
}

} // verus!
