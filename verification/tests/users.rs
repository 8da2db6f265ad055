use rgb::RGB8;
use user_colors::user::channel;
use user_colors::{User, UserRecord};

fn record(name: &str, r: i64, g: i64, b: i64) -> UserRecord {
    UserRecord { name: Some(name.to_string()), r: Some(r), g: Some(g), b: Some(b) }
}

#[test]
fn a_complete_row_decodes_to_its_user() {
    let user = User::from(record("Ada", 0, 128, 255));
    assert_eq!(user, User { name: "Ada".to_string(), color: RGB8 { r: 0, g: 128, b: 255 } });
}

#[test]
fn channels_keep_their_low_eight_bits() {
    assert_eq!(channel(0), 0);
    assert_eq!(channel(255), 255);
    assert_eq!(channel(256), 0);
    assert_eq!(channel(257), 1);
    assert_eq!(channel(-1), 255);
    assert_eq!(channel(-256), 0);
    assert_eq!(channel(i64::MAX), 255);
    assert_eq!(channel(i64::MIN), 0);
    let user = User::from(record("wide", 300, -2, 1 << 40));
    assert_eq!(user.color, RGB8 { r: 44, g: 254, b: 0 });
}

#[test]
fn a_row_with_a_null_is_not_complete() {
    assert!(record("Ada", 1, 2, 3).is_complete());
    assert!(!UserRecord { name: None, r: Some(1), g: Some(2), b: Some(3) }.is_complete());
    assert!(!UserRecord { name: Some("a".to_string()), r: None, g: Some(2), b: Some(3) }
        .is_complete());
    assert!(!UserRecord { name: Some("a".to_string()), r: Some(1), g: None, b: Some(3) }
        .is_complete());
    assert!(!UserRecord { name: Some("a".to_string()), r: Some(1), g: Some(2), b: None }
        .is_complete());
}
