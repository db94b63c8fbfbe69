use audio_profile::{
    active_position, get_audio_device, pipewire_device, pipewire_profiles, pulseaudio_device,
    pulseaudio_profiles, AudioDevice, AudioDeviceId, AudioProfile, PaCard, PaProfile,
    PwActiveProfile, PwDumpEntry, PwEnumProfile, PwInfo, PwParams, PwProps,
};
use bluer::Address;
use std::cell::Cell;

fn addr() -> Address {
    Address::new([0xaa, 0xbb, 0xcc, 0xdd, 0xee, 0xff])
}

fn text(s: &str) -> Option<String> {
    Some(s.to_string())
}

fn pw_profile(index: u32, name: &str, available: &str) -> PwEnumProfile {
    PwEnumProfile {
        index,
        name: text(name),
        description: text(&format!("{name} description")),
        available: text(available),
    }
}

fn pw_entry(id: u32, address: Option<&str>, enum_profile: Vec<PwEnumProfile>, active: Vec<u32>) -> PwDumpEntry {
    PwDumpEntry {
        id,
        info: Some(PwInfo {
            props: Some(PwProps { bluez5_address: address.map(|a| a.to_string()) }),
            params: Some(PwParams {
                enum_profile,
                profile: active.into_iter().map(|index| PwActiveProfile { index }).collect(),
            }),
        }),
    }
}

fn pa_profile(name: &str, available: bool) -> PaProfile {
    PaProfile { name: name.to_string(), description: format!("{name} description"), available }
}

fn pa_card(name: &str, properties: Vec<(&str, &str)>, profiles: Vec<PaProfile>, active: Option<&str>) -> PaCard {
    PaCard {
        name: name.to_string(),
        properties: properties.into_iter().map(|(k, v)| (k.to_string(), v.to_string())).collect(),
        profiles,
        active_profile: active.map(|a| a.to_string()),
    }
}

fn names(d: &AudioDevice) -> Vec<(u32, String)> {
    d.profiles.iter().map(|p| (p.index, p.name.clone())).collect()
}

#[test]
fn pipewire_keeps_available_profiles_with_their_index() {
    let entries = vec![
        PwDumpEntry { id: 3, info: None },
        pw_entry(
            42,
            Some("AA:BB:CC:DD:EE:FF"),
            vec![
                pw_profile(0, "off", "yes"),
                pw_profile(1, "a2dp-sink", "yes"),
                pw_profile(2, "headset-head-unit", "no"),
                pw_profile(3, "a2dp-sink-aac", "yes"),
            ],
            vec![3, 1],
        ),
    ];
    let d = pipewire_device(&entries, &addr()).expect("device");
    assert!(matches!(d.id, AudioDeviceId::Pipewire(42)));
    assert_eq!(names(&d), vec![(1, "a2dp-sink".to_string()), (3, "a2dp-sink-aac".to_string())]);
    assert_eq!(d.profiles[0].description, "a2dp-sink description");
    assert!(d.profiles.iter().all(|p| p.available));
    assert_eq!(d.active_profile_index, Some(3));
}

#[test]
fn pipewire_without_active_section_has_no_active_index() {
    let entries = vec![pw_entry(7, Some("AA_BB_CC_DD_EE_FF"), vec![pw_profile(1, "a2dp-sink", "yes")], vec![])];
    let d = pipewire_device(&entries, &addr()).expect("device");
    assert_eq!(d.active_profile_index, None);
}

#[test]
fn pipewire_skips_entries_that_offer_nothing() {
    let entries = vec![
        pw_entry(1, Some("AA:BB:CC:DD:EE:FF"), vec![], vec![]),
        pw_entry(2, Some("AA:BB:CC:DD:EE:FF"), vec![pw_profile(0, "off", "yes"), pw_profile(1, "a2dp-sink", "no")], vec![0]),
        pw_entry(3, Some("AA:BB:CC:DD:EE:00"), vec![pw_profile(1, "a2dp-sink", "yes")], vec![]),
        pw_entry(4, Some("AA:BB:CC:DD:EE:FF"), vec![pw_profile(5, "headset-head-unit", "yes")], vec![5]),
    ];
    let d = pipewire_device(&entries, &addr()).expect("device");
    assert!(matches!(d.id, AudioDeviceId::Pipewire(4)));
    assert_eq!(names(&d), vec![(5, "headset-head-unit".to_string())]);
}

#[test]
fn pipewire_without_match_gives_none() {
    let entries = vec![
        pw_entry(1, Some("AA:BB:CC:DD:EE:FF"), vec![pw_profile(0, "off", "yes")], vec![]),
        pw_entry(2, None, vec![pw_profile(1, "a2dp-sink", "yes")], vec![]),
    ];
    assert!(pipewire_device(&entries, &addr()).is_none());
}

#[test]
fn pipewire_missing_fields_read_as_empty() {
    let list = vec![PwEnumProfile { index: 9, name: None, description: None, available: text("yes") }];
    let profiles = pipewire_profiles(&list);
    assert_eq!(profiles.len(), 1);
    assert_eq!(profiles[0].index, 9);
    assert_eq!(profiles[0].name, "");
    assert_eq!(profiles[0].description, "");
}

#[test]
fn pulseaudio_name_substring_match() {
    let cards = vec![pa_card("bluez_card.AA_BB_CC_DD_EE_FF", vec![], vec![pa_profile("a2dp_sink", true)], None)];
    let d = pulseaudio_device(&cards, &addr()).expect("device");
    match &d.id {
        AudioDeviceId::Pulseaudio(name) => assert_eq!(name, "bluez_card.AA_BB_CC_DD_EE_FF"),
        _ => panic!("wrong backend"),
    }
}

#[test]
fn pulseaudio_property_match_and_fallback_key() {
    let cards = vec![
        pa_card("card0", vec![("api.bluez5.address", "11:22:33:44:55:66")], vec![pa_profile("a2dp_sink", true)], None),
        pa_card("card1", vec![("device.string", "AA:BB:CC:DD:EE:FF")], vec![pa_profile("a2dp_sink", true)], None),
    ];
    let d = pulseaudio_device(&cards, &addr()).expect("device");
    match &d.id {
        AudioDeviceId::Pulseaudio(name) => assert_eq!(name, "card1"),
        _ => panic!("wrong backend"),
    }
}

#[test]
fn pulseaudio_address_property_preferred_over_device_string() {
    let cards = vec![pa_card(
        "card0",
        vec![("device.string", "AA:BB:CC:DD:EE:FF"), ("api.bluez5.address", "11:22:33:44:55:66")],
        vec![pa_profile("a2dp_sink", true)],
        None,
    )];
    assert!(pulseaudio_device(&cards, &addr()).is_none());
}

#[test]
fn pulseaudio_index_and_active_by_filtered_position() {
    let cards = vec![pa_card(
        "bluez_card.AA_BB_CC_DD_EE_FF",
        vec![],
        vec![
            pa_profile("off", true),
            pa_profile("headset_head_unit", false),
            pa_profile("a2dp_sink", true),
            pa_profile("handsfree", true),
        ],
        Some("handsfree"),
    )];
    let d = pulseaudio_device(&cards, &addr()).expect("device");
    assert_eq!(names(&d), vec![(0, "a2dp_sink".to_string()), (1, "handsfree".to_string())]);
    assert_eq!(d.active_profile_index, Some(1));
}

#[test]
fn pulseaudio_active_unavailable_profile_is_not_found() {
    let cards = vec![pa_card(
        "bluez_card.AA_BB_CC_DD_EE_FF",
        vec![],
        vec![pa_profile("headset_head_unit", false), pa_profile("a2dp_sink", true)],
        Some("headset_head_unit"),
    )];
    let d = pulseaudio_device(&cards, &addr()).expect("device");
    assert_eq!(d.active_profile_index, None);
}

#[test]
fn pulseaudio_skips_cards_that_offer_nothing() {
    let cards = vec![
        pa_card("bluez_card.AA_BB_CC_DD_EE_FF", vec![], vec![pa_profile("off", true), pa_profile("a2dp_sink", false)], None),
        pa_card("other", vec![("api.bluez5.address", "AA:BB:CC:DD:EE:FF")], vec![pa_profile("a2dp_sink", true)], Some("a2dp_sink")),
    ];
    let d = pulseaudio_device(&cards, &addr()).expect("device");
    match &d.id {
        AudioDeviceId::Pulseaudio(name) => assert_eq!(name, "other"),
        _ => panic!("wrong backend"),
    }
    assert_eq!(d.active_profile_index, Some(0));
}

#[test]
fn pulseaudio_profiles_and_active_position() {
    let profiles = pulseaudio_profiles(&vec![pa_profile("x", true), pa_profile("off", true), pa_profile("y", true)]);
    assert_eq!(profiles.iter().map(|p| p.index).collect::<Vec<_>>(), vec![0, 1]);
    assert_eq!(active_position(&profiles, "y"), Some(1));
    assert_eq!(active_position(&profiles, "off"), None);
    let empty: Vec<AudioProfile> = Vec::new();
    assert_eq!(active_position(&empty, "x"), None);
}

#[test]
fn falls_back_to_pulseaudio_when_pipewire_fails() {
    let asked = Cell::new(false);
    let d = get_audio_device(&addr(), || None, || {
        asked.set(true);
        Some(vec![pa_card("bluez_card.AA_BB_CC_DD_EE_FF", vec![], vec![pa_profile("a2dp_sink", true)], None)])
    });
    assert!(asked.get());
    assert!(matches!(d.expect("device").id, AudioDeviceId::Pulseaudio(_)));
}

#[test]
fn falls_back_when_pipewire_has_no_match() {
    let asked = Cell::new(false);
    let d = get_audio_device(&addr(), || Some(vec![]), || {
        asked.set(true);
        None
    });
    assert!(asked.get());
    assert!(d.is_none());
}

#[test]
fn pipewire_device_wins_without_asking_pulseaudio() {
    let asked = Cell::new(false);
    let d = get_audio_device(
        &addr(),
        || Some(vec![pw_entry(5, Some("AA:BB:CC:DD:EE:FF"), vec![pw_profile(1, "a2dp-sink", "yes")], vec![1])]),
        || {
            asked.set(true);
            None
        },
    );
    assert!(!asked.get());
    assert!(matches!(d.expect("device").id, AudioDeviceId::Pipewire(5)));
}
