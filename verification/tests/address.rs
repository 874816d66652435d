use std::cmp::Ordering;
use username_registry::address::EthAddress;

const ONES: &str = "0101010101010101010101010101010101010101";

#[test]
fn parses_with_and_without_prefix() {
    let want = EthAddress::from_slice(&[1u8; 20]);
    assert_eq!(EthAddress::parse(ONES), Some(want));
    assert_eq!(EthAddress::parse(&format!("0x{ONES}")), Some(want));
}

#[test]
fn digits_are_read_high_nibble_first_in_either_case() {
    let a = EthAddress::parse("0x00112233445566778899aabbccddeeffAB0cD9eF").unwrap();
    assert_eq!(
        a.bytes,
        [
            0x00, 0x11, 0x22, 0x33, 0x44, 0x55, 0x66, 0x77, 0x88, 0x99, 0xaa, 0xbb, 0xcc, 0xdd,
            0xee, 0xff, 0xab, 0x0c, 0xd9, 0xef
        ]
    );
}

#[test]
fn the_zero_address_is_an_address() {
    let zeros = "0".repeat(40);
    assert_eq!(EthAddress::parse(&zeros), Some(EthAddress::from_slice(&[0u8; 20])));
}

#[test]
fn blanks_between_digits_are_passed_over() {
    let want = EthAddress::from_slice(&[1u8; 20]);
    assert_eq!(EthAddress::parse(&format!("0x{ONES} ")), Some(want));
    assert_eq!(EthAddress::parse(&format!("0x 0101\t0101\r\n{}", &ONES[8..])), Some(want));
    assert_eq!(EthAddress::parse(&format!("0 1{}", &ONES[2..])), Some(want));
}

#[test]
fn a_blank_before_the_prefix_is_no_address() {
    assert_eq!(EthAddress::parse(&format!(" 0x{ONES}")), None);
}

#[test]
fn only_one_lower_case_prefix_is_dropped() {
    assert_eq!(EthAddress::parse(&format!("0X{ONES}")), None);
    assert_eq!(EthAddress::parse(&format!("0x0x{ONES}")), None);
}

#[test]
fn wrong_lengths_are_no_address() {
    assert_eq!(EthAddress::parse(""), None);
    assert_eq!(EthAddress::parse("0x"), None);
    assert_eq!(EthAddress::parse(&ONES[1..]), None);
    assert_eq!(EthAddress::parse(&ONES[2..]), None);
    assert_eq!(EthAddress::parse(&format!("{ONES}0")), None);
    assert_eq!(EthAddress::parse(&format!("{ONES}01")), None);
    assert_eq!(EthAddress::parse(&format!("0x{ONES}01")), None);
}

#[test]
fn other_characters_are_no_address() {
    assert_eq!(EthAddress::parse(&format!("0x{}g", &ONES[1..])), None);
    assert_eq!(EthAddress::parse(&format!("0x{}\u{e9}", &ONES[1..])), None);
    assert_eq!(EthAddress::parse(&format!("0x{ONES}!")), None);
    assert_eq!(EthAddress::parse(&format!("0x{ONES}\u{3000}")), None);
    assert_eq!(EthAddress::parse("not an address"), None);
}

#[test]
fn same_compares_bytes() {
    let a = EthAddress::from_slice(&[1u8; 20]);
    let mut raw = [1u8; 20];
    raw[19] = 2;
    let b = EthAddress::from_slice(&raw);
    assert!(a.same(&a));
    assert!(a.same(&EthAddress { bytes: [1u8; 20] }));
    assert!(!a.same(&b));
    assert!(a < b);
}

#[test]
fn every_address_reads_back_from_its_lower_case_text() {
    for seed in [0u8, 1, 9, 10, 15, 16, 127, 128, 200, 255] {
        let mut raw = [0u8; 20];
        for (i, b) in raw.iter_mut().enumerate() {
            *b = seed.wrapping_mul(31).wrapping_add(i as u8 * 13);
        }
        let mut text = String::from("0x");
        for b in raw {
            text.push_str(&format!("{:02x}", b));
        }
        assert_eq!(EthAddress::parse(&text), Some(EthAddress { bytes: raw }));
    }
}

#[test]
fn the_first_differing_byte_decides_the_order() {
    let mut low = [0xffu8; 20];
    low[0] = 1;
    let mut high = [0u8; 20];
    high[0] = 2;
    let low = EthAddress { bytes: low };
    let high = EthAddress { bytes: high };
    assert_eq!(low.partial_cmp(&high), Some(Ordering::Less));
    assert_eq!(high.partial_cmp(&low), Some(Ordering::Greater));
    assert_eq!(low.partial_cmp(&low), Some(Ordering::Equal));
    assert_eq!(low.cmp(&high), Ordering::Less);
    let mut late = [7u8; 20];
    late[19] = 8;
    assert!(EthAddress { bytes: [7u8; 20] } < EthAddress { bytes: late });
    assert!(EthAddress { bytes: [7u8; 20] } == EthAddress::from_slice(&[7u8; 20]));
    assert!(EthAddress { bytes: [7u8; 20] } != EthAddress { bytes: late });
}
