use vstd::prelude::*;
use crate::address::underscore_form;
use crate::device::{device_view, AudioDevice, DeviceView};
use crate::pipewire::{pipewire_device, pw_select, PwDumpEntry};
use crate::pulseaudio::{pa_select, pulseaudio_device, PaCard};

verus! {

/// The device a PipeWire dump gives for `addr`; no dump gives none.
pub open spec fn pw_found(dump: Option<Vec<PwDumpEntry>>, addr: Seq<char>) -> Option<DeviceView> {
    match dump {
        Some(entries) => pw_select(entries@, addr, 0),
        None => None,
    }
}

/// The device a PulseAudio card listing gives for `addr`; no listing gives none.
pub open spec fn pa_found(cards: Option<Vec<PaCard>>, addr: Seq<char>) -> Option<DeviceView> {
    match cards {
        Some(cards) => pa_select(cards@, addr, 0),
        None => None,
    }
}

/// Finds the audio device of a Bluetooth address: PipeWire first, then
/// PulseAudio. `pipewire_dump` yields the decoded PipeWire object dump and
/// `pulseaudio_cards` the decoded PulseAudio card listing, each `None` when the
/// tool could not be run, failed, or printed what does not decode. The card
/// listing is asked for only when PipeWire gives no device.
pub fn get_audio_device<P, Q>(addr: &bluer::Address, pipewire_dump: P, pulseaudio_cards: Q) -> (r:
    Option<AudioDevice>) where
    P: FnOnce() -> Option<Vec<PwDumpEntry>>,
    Q: FnOnce() -> Option<Vec<PaCard>>,

    requires
        call_requires(pipewire_dump, ()),
        call_requires(pulseaudio_cards, ()),
    ensures
        exists|dump: Option<Vec<PwDumpEntry>>|
            {
                &&& call_ensures(pipewire_dump, (), dump)
                &&& match pw_found(dump, underscore_form(addr.0@)) {
                    Some(d) => device_view(r) == Some(d),
                    None => exists|cards: Option<Vec<PaCard>>|
                        {
                            &&& call_ensures(pulseaudio_cards, (), cards)
                            &&& device_view(r) == pa_found(cards, underscore_form(addr.0@))
                        },
                }
            },
{
    let dump = pipewire_dump();
    let ghost d = dump;
    let found = match &dump {
        Some(entries) => pipewire_device(entries, addr),
        None => None,
    };
    if found.is_some() {
        return found;
    }
    let cards = pulseaudio_cards();
    let ghost c = cards;
    let r = match &cards {
        Some(cards) => pulseaudio_device(cards, addr),
        None => None,
    };
    proof {
        let q = underscore_form(addr.0@);
        assert(pw_found(d, q) is None);
        assert(call_ensures(pulseaudio_cards, (), c) && device_view(r) == pa_found(c, q));
        assert(call_ensures(pipewire_dump, (), d));
    }
    r
}

} // verus!
