use pico_range::hex::{hstring18_as_str, mac_addr_to_str, u8_to_hex};

#[test]
fn hex_digits_of_bytes() {
    assert_eq!(u8_to_hex(0x00), ['0', '0']);
    assert_eq!(u8_to_hex(0x01), ['0', '1']);
    assert_eq!(u8_to_hex(0x10), ['1', '0']);
    assert_eq!(u8_to_hex(0x1f), ['1', 'f']);
    assert_eq!(u8_to_hex(0xa5), ['a', '5']);
    assert_eq!(u8_to_hex(0xff), ['f', 'f']);
}

#[test]
fn mac_address_renders_colon_separated() {
    let text = mac_addr_to_str([0xde, 0xad, 0xbe, 0xef, 0x00, 0x42]);
    assert_eq!(hstring18_as_str(&text), "de:ad:be:ef:00:42");
}

#[test]
fn mac_address_of_zeros() {
    let text = mac_addr_to_str([0; 6]);
    assert_eq!(hstring18_as_str(&text), "00:00:00:00:00:00");
}

#[test]
fn mac_address_all_high_bytes() {
    let text = mac_addr_to_str([0xff; 6]);
    assert_eq!(hstring18_as_str(&text), "ff:ff:ff:ff:ff:ff");
}

#[test]
fn mac_string_matches_heapless_view() {
    let text = mac_addr_to_str([0x12, 0x34, 0x56, 0x78, 0x9a, 0xbc]);
    // The returned value is an ordinary heapless string.
    assert_eq!(text.as_str(), "12:34:56:78:9a:bc");
    assert_eq!(text.len(), 17);
}
