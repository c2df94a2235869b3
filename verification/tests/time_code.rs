use megatec_ups_control::codec::calculate_time;
use megatec_ups_control::UpsError;

#[test]
fn units_band_is_one_hundred_plus_minutes() {
    for minutes in 1u8..=9 {
        assert_eq!(calculate_time(minutes).unwrap(), 100 + minutes as u16);
    }
    assert_eq!(calculate_time(1).unwrap(), 101);
    assert_eq!(calculate_time(9).unwrap(), 109);
}

#[test]
fn teens_band_shrinks_towards_one_hundred_twenty_five() {
    for minutes in 10u8..=19 {
        assert_eq!(calculate_time(minutes).unwrap(), (125 + minutes as i32 - 19) as u16);
    }
    assert_eq!(calculate_time(19).unwrap(), 125);
    assert_eq!(calculate_time(10).unwrap(), 116);
}

#[test]
fn tens_band_steps_by_seven_from_each_boundary() {
    for minutes in 20u8..=99 {
        let range_start = (minutes as u16 - 20) / 10 * 10 + 20;
        assert_eq!(
            calculate_time(minutes).unwrap(),
            132 + (minutes as u16 - range_start) * 7
        );
    }
    assert_eq!(calculate_time(20).unwrap(), 132);
    assert_eq!(calculate_time(29).unwrap(), 195);
    assert_eq!(calculate_time(30).unwrap(), 132);
    assert_eq!(calculate_time(99).unwrap(), 195);
}

#[test]
fn zero_minutes_is_invalid_time() {
    assert!(matches!(calculate_time(0), Err(UpsError::InvalidTime)));
}

#[test]
fn more_than_ninety_nine_minutes_is_invalid_time() {
    assert!(matches!(calculate_time(100), Err(UpsError::InvalidTime)));
    assert!(matches!(calculate_time(101), Err(UpsError::InvalidTime)));
    assert!(matches!(calculate_time(255), Err(UpsError::InvalidTime)));
}
