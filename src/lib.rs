//! Locating the audio card that belongs to a Bluetooth device on a PipeWire or
//! PulseAudio system, reading its selectable profiles, and deciding how to
//! switch between them.
//!
//! Running the backends' command-line tools and decoding their JSON is left to
//! the caller, which hands the decoded values in through closures; everything
//! decided from those values is verified here.

pub mod address;
pub mod device;
pub mod pipewire;
pub mod probe;
pub mod pulseaudio;
pub mod switch;
pub mod text;

pub use address::{address_to_bluez_format, normalize_address};
pub use device::{AudioDevice, AudioDeviceId, AudioProfile};
pub use text::{contains_text, same_text};
pub use pipewire::{
    pipewire_device, pipewire_profiles, PwActiveProfile, PwDumpEntry, PwEnumProfile, PwInfo,
    PwParams, PwProps,
};
pub use pulseaudio::{active_position, pulseaudio_device, pulseaudio_profiles, PaCard, PaProfile};
pub use switch::{switch_command, switch_profile, switch_result, RunOutcome, ToolCommand};
pub use probe::get_audio_device;
