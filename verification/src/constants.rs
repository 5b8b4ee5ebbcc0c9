use vstd::prelude::*;

verus! {

/// Head byte of a frame sent by the host.
pub const TX_HEAD: u8 = 0xAA;

/// Head byte of a response frame sent by the headset.
pub const RX_HEAD_BB: u8 = 0xBB;

/// Head byte of an acknowledgement frame sent by the headset.
pub const RX_HEAD_CC: u8 = 0xCC;

/// Initial value of the frame checksum.
pub const CHECKSUM_INIT: u16 = 8217;

/// Largest body a single frame can carry (its length fits one byte).
pub const MAX_BODY_LEN: usize = 255;

/// Length of one BLE write chunk.
pub const BLE_CHUNK_LEN: usize = 20;

/// Delay between BLE chunks, in milliseconds.
pub const BLE_CHUNK_DELAY_MS: u64 = 50;

/// Receive buffer timeout, in milliseconds.
pub const RX_BUFFER_TIMEOUT_MS: u64 = 5000;

/// Gap between consecutive commands, in milliseconds.
pub const COMMAND_GAP_MS: u64 = 150;

/// Wait after sending the host-disconnect command before connecting audio, in milliseconds.
pub const AUDIO_CONNECT_GAP_MS: u64 = 2500;

/// Offset of the encoded ambient volume: volume = encoded value - 6.
pub const AMBIENT_VOLUME_OFFSET: i8 = 6;

/// RFCOMM (SPP) service UUID.
pub const RFCOMM_SERVICE_UUID: &'static str = "edf00000-edfe-dfed-fedf-edfedfedfedf";

/// Fixed tail of the BLE service UUID of most models.
pub const BLE_SERVICE_UUID_SUFFIX: &'static str = "-1a48-11e9-ab14-d663bd873d93";

/// Hint for the BLE characteristic the headset notifies on.
pub const BLE_RX_UUID_HINT: &'static str = "2-1a48-11e9-ab14-d663bd873d93";

/// Hint for the BLE characteristic the host writes to.
pub const BLE_TX_UUID_HINT: &'static str = "3-1a48-11e9-ab14-d663bd873d93";

/// BLE characteristics that the headset notifies on, for models whose UUIDs
/// do not follow the hint.
pub const SPECIAL_BLE_RX_UUIDS: [&'static str; 2] = [
    "00001000-0000-1000-8992-00805f9b34fb",
    "48090001-1a48-11e9-ab14-d663bd873d93",
];

/// BLE characteristics that the host writes to, for models whose UUIDs do
/// not follow the hint.
pub const SPECIAL_BLE_TX_UUIDS: [&'static str; 2] = [
    "00001000-0000-1000-8993-00805f9b34fb",
    "48090002-1a48-11e9-ab14-d663bd873d93",
];

/// BLE service UUID of the W800K.
pub const W800K_SERVICE_UUID: &'static str = "00001000-0000-1000-8991-00805f9b34fb";

} // verus!
