use audio_profile::{address_to_bluez_format, contains_text, normalize_address, same_text};
use bluer::Address;

#[test]
fn bluez_format_uses_underscores_and_upper_case() {
    let addr = Address::new([0xaa, 0xbb, 0xcc, 0xdd, 0xee, 0xff]);
    assert_eq!(address_to_bluez_format(&addr), "AA_BB_CC_DD_EE_FF");
}

#[test]
fn bluez_format_pads_small_octets() {
    let addr = Address::new([0x00, 0x01, 0x0a, 0x10, 0x9f, 0x0f]);
    assert_eq!(address_to_bluez_format(&addr), "00_01_0A_10_9F_0F");
}

#[test]
fn both_conventions_normalize_alike() {
    let colon = normalize_address("AA:BB:CC:DD:EE:FF");
    let underscore = normalize_address("AA_BB_CC_DD_EE_FF");
    assert_eq!(colon, underscore);
    assert_eq!(colon, "AA_BB_CC_DD_EE_FF");
}

#[test]
fn normalize_keeps_other_characters() {
    assert_eq!(normalize_address("a:b-c::"), "a_b-c__");
    assert_eq!(normalize_address(""), "");
}

#[test]
fn text_comparisons() {
    assert!(same_text("off", "off"));
    assert!(!same_text("off", "of"));
    assert!(contains_text("bluez_card.AA_BB_CC_DD_EE_FF", "AA_BB_CC_DD_EE_FF"));
    assert!(!contains_text("bluez_card.AA_BB_CC_DD_EE_F0", "AA_BB_CC_DD_EE_FF"));
    assert!(contains_text("abc", ""));
    assert!(!contains_text("ab", "abc"));
}
