use bt_player::address::DecodeError;
use bt_player::address::DeviceAddress;
use bt_player::paths::player_path;
use bt_player::paths::player_target;

#[test]
fn parse_valid_upper() {
    let a = DeviceAddress::parse("dev_AA_BB_CC_11_22_33").unwrap();
    assert_eq!(a, DeviceAddress::new(0xAA, 0xBB, 0xCC, 0x11, 0x22, 0x33));
}

#[test]
fn parse_valid_lower() {
    let a = DeviceAddress::parse("dev_aa_bb_cc_11_22_33").unwrap();
    assert_eq!(a, DeviceAddress::new(0xAA, 0xBB, 0xCC, 0x11, 0x22, 0x33));
}

#[test]
fn parse_missing_prefix() {
    assert_eq!(
        DeviceAddress::parse("dav_AA_BB_CC_11_22_33"),
        Err(DecodeError::MissingPrefix)
    );
    assert_eq!(DeviceAddress::parse(""), Err(DecodeError::MissingPrefix));
    assert_eq!(DeviceAddress::parse("dev"), Err(DecodeError::MissingPrefix));
}

#[test]
fn parse_wrong_segment_count() {
    assert_eq!(
        DeviceAddress::parse("dev_AA_BB"),
        Err(DecodeError::WrongSegmentCount)
    );
    assert_eq!(
        DeviceAddress::parse("dev_AA_BB_CC_11_22_33_44"),
        Err(DecodeError::WrongSegmentCount)
    );
    assert_eq!(
        DeviceAddress::parse("dev_AAA_BB_CC_11_22_3"),
        Err(DecodeError::WrongSegmentCount)
    );
    assert_eq!(DeviceAddress::parse("dev_"), Err(DecodeError::WrongSegmentCount));
}

#[test]
fn parse_bad_octet() {
    assert_eq!(
        DeviceAddress::parse("dev_AA_BB_CC_11_22_3G"),
        Err(DecodeError::BadOctet)
    );
    assert_eq!(
        DeviceAddress::parse("dev_ZZ_BB_CC_11_22_33"),
        Err(DecodeError::BadOctet)
    );
}

#[test]
fn format_both_encodings() {
    let a = DeviceAddress::new(0xAA, 0xBB, 0xCC, 0x11, 0x22, 0x33);
    let (colon, segment) = a.format();
    assert_eq!(colon, "AA:BB:CC:11:22:33");
    assert_eq!(segment, "dev_AA_BB_CC_11_22_33");
}

#[test]
fn format_pads_small_octets() {
    let a = DeviceAddress::new(0x00, 0x01, 0x0F, 0x10, 0xF0, 0xFF);
    let (colon, segment) = a.format();
    assert_eq!(colon, "00:01:0F:10:F0:FF");
    assert_eq!(segment, "dev_00_01_0F_10_F0_FF");
}

#[test]
fn round_trip_from_segment() {
    let s = "dev_0A_1B_2C_3D_4E_5F";
    let a = DeviceAddress::parse(s).unwrap();
    let (_, segment) = a.format();
    assert_eq!(segment, s);
}

#[test]
fn round_trip_from_address() {
    let a = DeviceAddress::new(0x12, 0x34, 0x56, 0x78, 0x9A, 0xBC);
    let (_, segment) = a.format();
    assert_eq!(DeviceAddress::parse(&segment), Ok(a));
}

#[test]
fn target_of_player_object_path() {
    let a = player_target("/org/bluez/hci0/dev_AA_BB_CC_11_22_33/player0").unwrap();
    assert_eq!(a.colon_string(), "AA:BB:CC:11:22:33");
    assert_eq!(a.segment_string(), "dev_AA_BB_CC_11_22_33");
}

#[test]
fn target_ignores_other_terminal_segments() {
    assert_eq!(player_target("/org/bluez/hci0/dev_AA_BB_CC_11_22_33/icon000"), None);
    assert_eq!(player_target("/org/bluez/hci0/dev_AA_BB_CC_11_22_33"), None);
    assert_eq!(player_target("/org/bluez/hci0/dev_AA_BB_CC_11_22_33/player1"), None);
}

#[test]
fn target_ignores_foreign_prefixes_and_bad_segments() {
    assert_eq!(player_target("/org/other/hci0/dev_AA_BB_CC_11_22_33/player0"), None);
    assert_eq!(player_target("/org/bluez/hci0/dev_AA_BB_CC_11_22_3G/player0"), None);
    assert_eq!(player_target(""), None);
}

#[test]
fn built_path_is_recognized() {
    let a = DeviceAddress::new(0xAA, 0xBB, 0xCC, 0x11, 0x22, 0x33);
    let p = player_path(&a);
    assert_eq!(p, "/org/bluez/hci0/dev_AA_BB_CC_11_22_33/player0");
    assert_eq!(player_target(&p), Some(a));
}
