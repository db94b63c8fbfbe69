use vstd::prelude::*;

verus! {

/// One selectable operating mode of an audio card.
#[derive(Debug, Clone)]
pub struct AudioProfile {
    pub index: u32,
    pub name: String,
    pub description: String,
    pub available: bool,
}

/// An audio card found for a Bluetooth address, with its usable profiles.
#[derive(Debug, Clone)]
pub struct AudioDevice {
    pub id: AudioDeviceId,
    pub profiles: Vec<AudioProfile>,
    pub active_profile_index: Option<u32>,
}

/// How the backend that owns a card names it.
#[derive(Debug, Clone)]
pub enum AudioDeviceId {
    /// A PipeWire object id.
    Pipewire(u32),
    /// A PulseAudio card name.
    Pulseaudio(String),
}

/// The model of an `AudioProfile`.
pub struct ProfileView {
    pub index: u32,
    pub name: Seq<char>,
    pub description: Seq<char>,
    pub available: bool,
}

/// The model of an `AudioDeviceId`.
pub enum DeviceIdView {
    Pipewire(u32),
    Pulseaudio(Seq<char>),
}

/// The model of an `AudioDevice`.
pub struct DeviceView {
    pub id: DeviceIdView,
    pub profiles: Seq<ProfileView>,
    pub active_profile_index: Option<u32>,
}

impl View for AudioProfile {
    type V = ProfileView;

    open spec fn view(&self) -> ProfileView {
        ProfileView {
            index: self.index,
            name: self.name@,
            description: self.description@,
            available: self.available,
        }
    }
}

impl View for AudioDeviceId {
    type V = DeviceIdView;

    open spec fn view(&self) -> DeviceIdView {
        match self {
            AudioDeviceId::Pipewire(id) => DeviceIdView::Pipewire(*id),
            AudioDeviceId::Pulseaudio(name) => DeviceIdView::Pulseaudio(name@),
        }
    }
}

impl View for AudioDevice {
    type V = DeviceView;

    open spec fn view(&self) -> DeviceView {
        DeviceView {
            id: self.id@,
            profiles: self.profiles@.map_values(|p: AudioProfile| p@),
            active_profile_index: self.active_profile_index,
        }
    }
}

/// The model of an optional device.
pub open spec fn device_view(d: Option<AudioDevice>) -> Option<DeviceView> {
    match d {
        Some(d) => Some(d@),
        None => None,
    }
}

/// The view of an optional text, with absence read as the empty text.
pub open spec fn text_or_empty(s: Option<String>) -> Seq<char> {
    match s {
        Some(s) => s@,
        None => Seq::empty(),
    }
}

/// The view of an optional text.
pub open spec fn opt_text(s: Option<String>) -> Option<Seq<char>> {
    match s {
        Some(s) => Some(s@),
        None => None,
    }
}

/// The name of the synthetic profile that switches a card off.
pub open spec fn off_name() -> Seq<char> {
    seq!['o', 'f', 'f']
}

/// Whether a name is that of the "off" profile.
pub fn is_off(name: &str) -> (r: bool)
    ensures
        r == (name@ == off_name()),
{
    proof {
        reveal_strlit("off");
    }
    assert("off"@ =~= off_name());
    crate::text::same_text(name, "off")
}

/// Copies an optional text, with absence read as the empty text.
pub fn text_or_default(s: &Option<String>) -> (r: String)
    ensures
        r@ == text_or_empty(*s),
{
    match s {
        Some(t) => t.clone(),
        None => String::new(),
    }
}

} // verus!
