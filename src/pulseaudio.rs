use vstd::prelude::*;
use crate::address::{address_to_bluez_format, normalize_address, normalized, underscore_form};
use crate::device::{
    device_view, is_off, off_name, opt_text, AudioDevice, AudioDeviceId, AudioProfile,
    DeviceIdView, DeviceView, ProfileView,
};
use crate::text::{contains_text, occurs_in, same_text};

verus! {

/// One card of a PulseAudio card listing.
pub struct PaCard {
    pub name: String,
    /// The card's properties as key and value pairs; a key is read at its
    /// first pair.
    pub properties: Vec<(String, String)>,
    pub profiles: Vec<PaProfile>,
    pub active_profile: Option<String>,
}

/// One profile of a PulseAudio card.
pub struct PaProfile {
    pub name: String,
    pub description: String,
    pub available: bool,
}

/// The property that holds a card's Bluetooth address.
pub open spec fn address_key() -> Seq<char> {
    "api.bluez5.address"@
}

/// The property consulted when the address property is missing.
pub open spec fn device_string_key() -> Seq<char> {
    "device.string"@
}

/// The value of the first property, from position `i` on, named `key`.
pub open spec fn property_value(props: Seq<(String, String)>, key: Seq<char>, i: int) -> Option<
    Seq<char>,
>
    decreases props.len() - i,
{
    if i < 0 || i >= props.len() {
        None
    } else if props[i].0@ == key {
        Some(props[i].1@)
    } else {
        property_value(props, key, i + 1)
    }
}

/// A card's address as its properties give it, normalized: the address
/// property, or else the device string.
pub open spec fn pa_card_address(card: PaCard) -> Option<Seq<char>> {
    match property_value(card.properties@, address_key(), 0) {
        Some(v) => Some(normalized(v)),
        None => match property_value(card.properties@, device_string_key(), 0) {
            Some(v) => Some(normalized(v)),
            None => None,
        },
    }
}

/// A card belongs to `addr` (underscore convention) when its properties give
/// that address or its name contains it.
pub open spec fn pa_matches(card: PaCard, addr: Seq<char>) -> bool {
    occurs_in(addr, card.name@) || pa_card_address(card) == Some(addr)
}

/// A profile is offered when it is not "off" and is available.
pub open spec fn pa_kept(p: PaProfile) -> bool {
    p.name@ != off_name() && p.available
}

/// The offered profiles of a card, each indexed by its position among them.
pub open spec fn pa_profiles(s: Seq<PaProfile>) -> Seq<ProfileView>
    decreases s.len(),
{
    if s.len() == 0 {
        Seq::empty()
    } else {
        let prev = pa_profiles(s.drop_last());
        if pa_kept(s.last()) {
            prev.push(
                ProfileView {
                    index: prev.len() as u32,
                    name: s.last().name@,
                    description: s.last().description@,
                    available: true,
                },
            )
        } else {
            prev
        }
    }
}

/// The first position, from `k` on, of a profile named `name`.
pub open spec fn position_of(ps: Seq<ProfileView>, name: Seq<char>, k: int) -> Option<int>
    decreases ps.len() - k,
{
    if k < 0 || k >= ps.len() {
        None
    } else if ps[k].name == name {
        Some(k)
    } else {
        position_of(ps, name, k + 1)
    }
}

/// The position among the offered profiles of the one the card reports active.
pub open spec fn pa_active(card: PaCard, ps: Seq<ProfileView>) -> Option<u32> {
    match opt_text(card.active_profile) {
        Some(n) => match position_of(ps, n, 0) {
            Some(k) => Some(k as u32),
            None => None,
        },
        None => None,
    }
}

/// The device a card gives for `addr`: it belongs to that address and offers
/// at least one profile.
pub open spec fn pa_candidate(card: PaCard, addr: Seq<char>) -> Option<DeviceView> {
    let profiles = pa_profiles(card.profiles@);
    if pa_matches(card, addr) && profiles.len() > 0 {
        Some(
            DeviceView {
                id: DeviceIdView::Pulseaudio(card.name@),
                profiles,
                active_profile_index: pa_active(card, profiles),
            },
        )
    } else {
        None
    }
}

/// The device of the first card, from position `i` on, that gives one.
pub open spec fn pa_select(cards: Seq<PaCard>, addr: Seq<char>, i: int) -> Option<DeviceView>
    decreases cards.len() - i,
{
    if i < 0 || i >= cards.len() {
        None
    } else {
        match pa_candidate(cards[i], addr) {
            Some(d) => Some(d),
            None => pa_select(cards, addr, i + 1),
        }
    }
}

/// The value of the property named `key`, if the card has one.
fn find_property<'a>(props: &'a Vec<(String, String)>, key: &str) -> (r: Option<&'a String>)
    ensures
        match r {
            Some(v) => property_value(props@, key@, 0) == Some(v@),
            None => property_value(props@, key@, 0) is None,
        },
{
    let mut i: usize = 0;
    while i < props.len()
        invariant
            i <= props@.len(),
            property_value(props@, key@, 0) == property_value(props@, key@, i as int),
        decreases props.len() - i,
    {
        if same_text(props[i].0.as_str(), key) {
            return Some(&props[i].1);
        }
        i = i + 1;
    }
    None
}

/// The normalized address that a card's properties give.
fn card_address(card: &PaCard) -> (r: Option<String>)
    ensures
        opt_text(r) == pa_card_address(*card),
{
    let found = match find_property(&card.properties, "api.bluez5.address") {
        Some(v) => Some(v),
        None => find_property(&card.properties, "device.string"),
    };
    match found {
        Some(v) => Some(normalize_address(v.as_str())),
        None => None,
    }
}

/// The offered profiles of a card: neither "off" nor unavailable, each indexed
/// by its position among those offered.
pub fn pulseaudio_profiles(list: &Vec<PaProfile>) -> (r: Vec<AudioProfile>)
    ensures
        r@.map_values(|p: AudioProfile| p@) == pa_profiles(list@),
{
    let mut out: Vec<AudioProfile> = Vec::new();
    let mut i: usize = 0;
    while i < list.len()
        invariant
            i <= list@.len(),
            out@.map_values(|p: AudioProfile| p@) == pa_profiles(list@.subrange(0, i as int)),
        decreases list.len() - i,
    {
        let p = &list[i];
        let ghost before = out@;
        assert(list@.subrange(0, i + 1).drop_last() =~= list@.subrange(0, i as int));
        if !is_off(p.name.as_str()) && p.available {
            let profile = AudioProfile {
                index: out.len() as u32,
                name: p.name.clone(),
                description: p.description.clone(),
                available: true,
            };
            out.push(profile);
            assert(out@.map_values(|p: AudioProfile| p@) =~= before.map_values(
                |p: AudioProfile| p@,
            ).push(profile@));
        }
        i = i + 1;
    }
    assert(list@.subrange(0, list@.len() as int) =~= list@);
    out
}

/// The position among `profiles` of the first one named `name`.
pub fn active_position(profiles: &Vec<AudioProfile>, name: &str) -> (r: Option<u32>)
    ensures
        r == (match position_of(profiles@.map_values(|p: AudioProfile| p@), name@, 0) {
            Some(k) => Some(k as u32),
            None => None,
        }),
{
    let ghost ps = profiles@.map_values(|p: AudioProfile| p@);
    let mut i: usize = 0;
    while i < profiles.len()
        invariant
            i <= profiles@.len(),
            ps == profiles@.map_values(|p: AudioProfile| p@),
            position_of(ps, name@, 0) == position_of(ps, name@, i as int),
        decreases profiles.len() - i,
    {
        if same_text(profiles[i].name.as_str(), name) {
            return Some(i as u32);
        }
        i = i + 1;
    }
    None
}

/// The device a card gives for `addr`, the query in the underscore convention.
fn pulseaudio_candidate(card: &PaCard, addr: &str) -> (r: Option<AudioDevice>)
    ensures
        device_view(r) == pa_candidate(*card, addr@),
{
    let name_matches = contains_text(card.name.as_str(), addr);
    let addr_matches = match card_address(card) {
        Some(a) => same_text(a.as_str(), addr),
        None => false,
    };
    if !name_matches && !addr_matches {
        return None;
    }
    let profiles = pulseaudio_profiles(&card.profiles);
    if profiles.len() == 0 {
        return None;
    }
    let active_profile_index = match &card.active_profile {
        Some(n) => active_position(&profiles, n.as_str()),
        None => None,
    };
    Some(
        AudioDevice {
            id: AudioDeviceId::Pulseaudio(card.name.clone()),
            profiles,
            active_profile_index,
        },
    )
}

/// The device that a PulseAudio card listing gives for a Bluetooth address:
/// that of the first card that belongs to the address and offers a profile.
pub fn pulseaudio_device(cards: &Vec<PaCard>, addr: &bluer::Address) -> (r: Option<AudioDevice>)
    ensures
        device_view(r) == pa_select(cards@, underscore_form(addr.0@), 0),
{
    let query = address_to_bluez_format(addr);
    let mut i: usize = 0;
    while i < cards.len()
        invariant
            i <= cards@.len(),
            query@ == underscore_form(addr.0@),
            pa_select(cards@, query@, 0) == pa_select(cards@, query@, i as int),
        decreases cards.len() - i,
    {
        let found = pulseaudio_candidate(&cards[i], query.as_str());
        if found.is_some() {
            return found;
        }
        i = i + 1;
    }
    None
}

proof fn lemma_pa_none_kept(s: Seq<PaProfile>)
    requires
        forall|j: int| 0 <= j < s.len() ==> !pa_kept(#[trigger] s[j]),
    ensures
        pa_profiles(s).len() == 0,
    decreases s.len(),
{
    if s.len() > 0 {
        assert(!pa_kept(s[s.len() - 1]));
        lemma_pa_none_kept(s.drop_last());
    }
}

/// A card whose profiles are all "off" or unavailable gives no device: the
/// search passes on to the next card.
pub proof fn lemma_pa_unusable_card_skipped(cards: Seq<PaCard>, addr: Seq<char>, i: int)
    requires
        0 <= i < cards.len(),
        forall|j: int|
            0 <= j < cards[i].profiles@.len() ==> !pa_kept(#[trigger] cards[i].profiles@[j]),
    ensures
        pa_candidate(cards[i], addr) is None,
        pa_select(cards, addr, i) == pa_select(cards, addr, i + 1),
{
    lemma_pa_none_kept(cards[i].profiles@);
}

/// A card whose name contains the queried address belongs to it, whatever its
/// properties hold; so does one whose properties give the address.
pub proof fn lemma_pa_either_match_suffices(card: PaCard, addr: Seq<char>)
    requires
        occurs_in(addr, card.name@) || pa_card_address(card) == Some(addr),
        exists|j: int| 0 <= j < card.profiles@.len() && pa_kept(#[trigger] card.profiles@[j]),
    ensures
        pa_candidate(card, addr) is Some,
{
    let j = choose|j: int| 0 <= j < card.profiles@.len() && pa_kept(#[trigger] card.profiles@[j]);
    lemma_pa_some_kept(card.profiles@, j);
}

proof fn lemma_pa_some_kept(s: Seq<PaProfile>, j: int)
    requires
        0 <= j < s.len(),
        pa_kept(s[j]),
    ensures
        pa_profiles(s).len() > 0,
    decreases s.len(),
{
    if j < s.len() - 1 {
        lemma_pa_some_kept(s.drop_last(), j);
    }
}

proof fn lemma_pa_profile_index(s: Seq<PaProfile>, j: int)
    requires
        0 <= j < pa_profiles(s).len(),
    ensures
        pa_profiles(s)[j].index == j as u32,
    decreases s.len(),
{
    if j < pa_profiles(s.drop_last()).len() {
        lemma_pa_profile_index(s.drop_last(), j);
    }
}

proof fn lemma_position_of(ps: Seq<ProfileView>, name: Seq<char>, k: int)
    requires
        0 <= k,
        position_of(ps, name, k) is Some,
    ensures
        ({
            let m = position_of(ps, name, k)->Some_0;
            &&& k <= m < ps.len()
            &&& ps[m].name == name
            &&& forall|j: int| k <= j < m ==> ps[j].name != name
        }),
    decreases ps.len() - k,
{
    if ps[k].name != name {
        lemma_position_of(ps, name, k + 1);
    }
}

/// The active profile of a PulseAudio device is found by name among the
/// offered profiles alone: its index is the position there of the first
/// offered profile with the reported name, and that profile's own index.
pub proof fn lemma_pa_active_is_offered_position(card: PaCard, addr: Seq<char>)
    requires
        pa_candidate(card, addr) is Some,
        card.profiles@.len() <= u32::MAX,
    ensures
        ({
            let d = pa_candidate(card, addr)->Some_0;
            match d.active_profile_index {
                Some(k) => {
                    &&& card.active_profile is Some
                    &&& k < d.profiles.len()
                    &&& d.profiles[k as int].name == card.active_profile->Some_0@
                    &&& d.profiles[k as int].index == k
                    &&& forall|j: int|
                        0 <= j < k ==> d.profiles[j].name != card.active_profile->Some_0@
                },
                None => card.active_profile matches Some(n) ==> forall|j: int|
                    0 <= j < d.profiles.len() ==> d.profiles[j].name != n@,
            }
        }),
{
    let ps = pa_profiles(card.profiles@);
    lemma_pa_profiles_len(card.profiles@);
    if let Some(n) = card.active_profile {
        match position_of(ps, n@, 0) {
            Some(m) => {
                lemma_position_of(ps, n@, 0);
                lemma_pa_profile_index(card.profiles@, m);
            },
            None => {
                assert forall|j: int| 0 <= j < ps.len() implies ps[j].name != n@ by {
                    if ps[j].name == n@ {
                        lemma_position_found(ps, n@, 0, j);
                    }
                }
            },
        }
    }
}

proof fn lemma_pa_profiles_len(s: Seq<PaProfile>)
    ensures
        pa_profiles(s).len() <= s.len(),
    decreases s.len(),
{
    if s.len() > 0 {
        lemma_pa_profiles_len(s.drop_last());
    }
}

proof fn lemma_position_found(ps: Seq<ProfileView>, name: Seq<char>, k: int, j: int)
    requires
        0 <= k <= j < ps.len(),
        ps[j].name == name,
    ensures
        position_of(ps, name, k) is Some,
    decreases j - k,
{
    if ps[k].name != name {
        lemma_position_found(ps, name, k + 1, j);
    }
}

} // verus!
