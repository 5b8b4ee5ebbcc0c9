//! Control protocol for Edifier headphones: framing, commands, device
//! profiles, settings files, the LAN group used to hand audio over between
//! hosts, the JSON forms the host applications exchange, and the decisions
//! the platform Bluetooth adapters take on what the system reports.

pub mod constants;
pub mod error;
pub mod packet;
pub mod text;
pub mod command;
pub mod notification;
pub mod profile;
pub mod settings;
pub mod hexenc;
pub mod crypto;
pub mod mac;
pub mod key;
pub mod message;
pub mod envelope;
pub mod handoff;
pub mod command_json;
pub mod notify_json;
pub mod action_json;
pub mod profiles_json;
pub mod audio;
pub mod transport_audio;
pub mod endpoint_audio;
pub mod addr;
pub mod services;
pub mod event_json;
pub mod bluez;
pub mod ble;
