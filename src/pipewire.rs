use vstd::prelude::*;
use crate::address::{address_to_bluez_format, normalize_address, normalized, underscore_form};
use crate::device::{
    device_view, is_off, off_name, opt_text, text_or_default, text_or_empty, AudioDevice,
    AudioDeviceId, AudioProfile, DeviceIdView, DeviceView, ProfileView,
};
use crate::text::same_text;

verus! {

/// One object of a PipeWire object dump.
pub struct PwDumpEntry {
    pub id: u32,
    pub info: Option<PwInfo>,
}

/// The `info` section of a dump object.
pub struct PwInfo {
    pub props: Option<PwProps>,
    pub params: Option<PwParams>,
}

/// The properties of a dump object that matter here.
pub struct PwProps {
    /// The `api.bluez5.address` property.
    pub bluez5_address: Option<String>,
}

/// The parameter lists of a dump object.
pub struct PwParams {
    /// The `EnumProfile` list: every profile the object offers.
    pub enum_profile: Vec<PwEnumProfile>,
    /// The `Profile` list: the profile in use.
    pub profile: Vec<PwActiveProfile>,
}

/// An entry of the `EnumProfile` list.
pub struct PwEnumProfile {
    pub index: u32,
    pub name: Option<String>,
    pub description: Option<String>,
    pub available: Option<String>,
}

/// An entry of the `Profile` list.
pub struct PwActiveProfile {
    pub index: u32,
}

/// The availability value that marks a usable profile.
pub open spec fn yes_text() -> Seq<char> {
    seq!['y', 'e', 's']
}

/// A profile is offered when it is not "off" and its availability reads "yes".
pub open spec fn pw_kept(p: PwEnumProfile) -> bool {
    opt_text(p.name) != Some(off_name()) && opt_text(p.available) == Some(yes_text())
}

/// The profile offered for an `EnumProfile` entry; it keeps the entry's index.
pub open spec fn pw_profile_view(p: PwEnumProfile) -> ProfileView {
    ProfileView {
        index: p.index,
        name: text_or_empty(p.name),
        description: text_or_empty(p.description),
        available: true,
    }
}

/// The offered profiles of an `EnumProfile` list, in their order.
pub open spec fn pw_profiles(s: Seq<PwEnumProfile>) -> Seq<ProfileView>
    decreases s.len(),
{
    if s.len() == 0 {
        Seq::empty()
    } else {
        let prev = pw_profiles(s.drop_last());
        if pw_kept(s.last()) {
            prev.push(pw_profile_view(s.last()))
        } else {
            prev
        }
    }
}

/// The index of the first entry of the `Profile` list, if there is one.
pub open spec fn pw_active(params: PwParams) -> Option<u32> {
    if params.profile@.len() > 0 {
        Some(params.profile@[0].index)
    } else {
        None
    }
}

/// The normalized address property of a dump object, if it has one.
pub open spec fn pw_address(e: PwDumpEntry) -> Option<Seq<char>> {
    match e.info {
        Some(info) => match info.props {
            Some(props) => match props.bluez5_address {
                Some(a) => Some(normalized(a@)),
                None => None,
            },
            None => None,
        },
        None => None,
    }
}

/// The device a dump object gives for the address `addr` (underscore
/// convention): it carries that address and offers at least one profile.
pub open spec fn pw_candidate(e: PwDumpEntry, addr: Seq<char>) -> Option<DeviceView> {
    if pw_address(e) == Some(addr) {
        match e.info.unwrap().params {
            Some(params) => {
                let profiles = pw_profiles(params.enum_profile@);
                if profiles.len() > 0 {
                    Some(
                        DeviceView {
                            id: DeviceIdView::Pipewire(e.id),
                            profiles,
                            active_profile_index: pw_active(params),
                        },
                    )
                } else {
                    None
                }
            },
            None => None,
        }
    } else {
        None
    }
}

/// The device of the first object, from position `i` on, that gives one.
pub open spec fn pw_select(entries: Seq<PwDumpEntry>, addr: Seq<char>, i: int) -> Option<
    DeviceView,
>
    decreases entries.len() - i,
{
    if i < 0 || i >= entries.len() {
        None
    } else {
        match pw_candidate(entries[i], addr) {
            Some(d) => Some(d),
            None => pw_select(entries, addr, i + 1),
        }
    }
}

/// Whether an optional text is the given literal's text.
fn opt_text_is(s: &Option<String>, lit: &str) -> (r: bool)
    ensures
        r == (opt_text(*s) == Some(lit@)),
{
    match s {
        Some(t) => same_text(t.as_str(), lit),
        None => false,
    }
}

/// The offered profiles of an `EnumProfile` list: neither "off" nor
/// unavailable, each with the index PipeWire gave it.
pub fn pipewire_profiles(list: &Vec<PwEnumProfile>) -> (r: Vec<AudioProfile>)
    ensures
        r@.map_values(|p: AudioProfile| p@) == pw_profiles(list@),
{
    let mut out: Vec<AudioProfile> = Vec::new();
    let mut i: usize = 0;
    while i < list.len()
        invariant
            i <= list@.len(),
            out@.map_values(|p: AudioProfile| p@) == pw_profiles(list@.subrange(0, i as int)),
        decreases list.len() - i,
    {
        let p = &list[i];
        let off = match &p.name {
            Some(n) => is_off(n.as_str()),
            None => false,
        };
        proof {
            reveal_strlit("yes");
        }
        assert("yes"@ =~= yes_text());
        let yes = opt_text_is(&p.available, "yes");
        let ghost before = out@;
        assert(list@.subrange(0, i + 1).drop_last() =~= list@.subrange(0, i as int));
        if !off && yes {
            let profile = AudioProfile {
                index: p.index,
                name: text_or_default(&p.name),
                description: text_or_default(&p.description),
                available: true,
            };
            out.push(profile);
            assert(out@.map_values(|p: AudioProfile| p@) =~= before.map_values(
                |p: AudioProfile| p@,
            ).push(pw_profile_view(list@[i as int])));
        }
        i = i + 1;
    }
    assert(list@.subrange(0, list@.len() as int) =~= list@);
    out
}

/// The device a dump object gives for `addr`, the query in the underscore
/// convention.
fn pipewire_candidate(e: &PwDumpEntry, addr: &str) -> (r: Option<AudioDevice>)
    ensures
        device_view(r) == pw_candidate(*e, addr@),
{
    let info = match &e.info {
        Some(info) => info,
        None => return None,
    };
    let props = match &info.props {
        Some(props) => props,
        None => return None,
    };
    let found = match &props.bluez5_address {
        Some(a) => a,
        None => return None,
    };
    let found = normalize_address(found.as_str());
    if !same_text(found.as_str(), addr) {
        return None;
    }
    let params = match &info.params {
        Some(params) => params,
        None => return None,
    };
    let profiles = pipewire_profiles(&params.enum_profile);
    if profiles.len() == 0 {
        return None;
    }
    let active_profile_index = if params.profile.len() > 0 {
        Some(params.profile[0].index)
    } else {
        None
    };
    Some(AudioDevice { id: AudioDeviceId::Pipewire(e.id), profiles, active_profile_index })
}

/// The device that a PipeWire object dump gives for a Bluetooth address: that
/// of the first object that carries the address and offers a profile.
pub fn pipewire_device(entries: &Vec<PwDumpEntry>, addr: &bluer::Address) -> (r: Option<
    AudioDevice,
>)
    ensures
        device_view(r) == pw_select(entries@, underscore_form(addr.0@), 0),
{
    let query = address_to_bluez_format(addr);
    let mut i: usize = 0;
    while i < entries.len()
        invariant
            i <= entries@.len(),
            query@ == underscore_form(addr.0@),
            pw_select(entries@, query@, 0) == pw_select(entries@, query@, i as int),
        decreases entries.len() - i,
    {
        let found = pipewire_candidate(&entries[i], query.as_str());
        if found.is_some() {
            return found;
        }
        i = i + 1;
    }
    None
}

proof fn lemma_pw_none_kept(s: Seq<PwEnumProfile>)
    requires
        forall|j: int| 0 <= j < s.len() ==> !pw_kept(#[trigger] s[j]),
    ensures
        pw_profiles(s).len() == 0,
    decreases s.len(),
{
    if s.len() > 0 {
        assert(!pw_kept(s[s.len() - 1]));
        lemma_pw_none_kept(s.drop_last());
    }
}

/// An object whose `EnumProfile` list is empty, or holds only "off" or
/// unavailable profiles, gives no device: the search passes on to the next
/// object.
pub proof fn lemma_pw_unusable_entry_skipped(entries: Seq<PwDumpEntry>, addr: Seq<char>, i: int)
    requires
        0 <= i < entries.len(),
        entries[i].info matches Some(info) && info.params matches Some(params) && forall|j: int|
            0 <= j < params.enum_profile@.len() ==> !pw_kept(#[trigger] params.enum_profile@[j]),
    ensures
        pw_candidate(entries[i], addr) is None,
        pw_select(entries, addr, i) == pw_select(entries, addr, i + 1),
{
    lemma_pw_none_kept(entries[i].info.unwrap().params.unwrap().enum_profile@);
}

} // verus!
