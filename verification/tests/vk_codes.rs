use winput::Vk;

#[test]
fn from_u8_safe_rejects_unassigned_codes() {
    assert_eq!(Vk::from_u8_safe(0), None);
    assert_eq!(Vk::from_u8_safe(0xf5), None);
    assert_eq!(Vk::from_u8_safe(255), None);
}

#[test]
fn from_u8_safe_accepts_assigned_codes() {
    assert_eq!(Vk::from_u8_safe(1), Some(Vk::MouseLeft));
    assert_eq!(Vk::from_u8_safe(Vk::LeftWin.into_u8()), Some(Vk::LeftWin));
    assert_eq!(Vk::from_u8_safe(0x0d), Some(Vk::Enter));
}

#[test]
fn into_u8_gives_the_documented_codes() {
    assert_eq!(Vk::Enter.into_u8(), 0x0d);
    assert_eq!(Vk::Escape.into_u8(), 0x1b);
    assert_eq!(Vk::A.into_u8(), b'A');
    assert_eq!(Vk::_9.into_u8(), b'9');
    assert_eq!(Vk::OemClear.into_u8(), 0xfe);
}

#[test]
fn codes_round_trip_for_every_byte() {
    for n in 0..=255u8 {
        match Vk::from_u8_safe(n) {
            Some(vk) => {
                assert!(Vk::is_valid(n));
                assert_eq!(vk.into_u8(), n);
            }
            None => assert!(!Vk::is_valid(n)),
        }
    }
}

#[test]
fn is_valid_matches_the_table() {
    assert!(!Vk::is_valid(0));
    assert!(Vk::is_valid(1));
    assert!(!Vk::is_valid(0xf5));
    assert!(!Vk::is_valid(255));
}

#[test]
fn extended_keys_are_marked() {
    assert_eq!(Vk::Z.is_extended(), false);
    assert_eq!(Vk::LeftArrow.is_extended(), true);
    assert_eq!(Vk::RightControl.is_extended(), true);
    assert_eq!(Vk::Numlock.is_extended(), true);
    assert_eq!(Vk::A.is_extended(), false);
}
