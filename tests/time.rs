use earwax::rational::TimeBase;
use earwax::timestamp::{ticks_of_seconds, Timestamp};

#[test]
fn time_base_is_reduced() {
    let tb = TimeBase::new(2, 4);
    assert_eq!((tb.numer(), tb.denom()), (1, 2));
    let tb = TimeBase::new(3, -6);
    assert_eq!((tb.numer(), tb.denom()), (-1, 2));
    let tb = TimeBase::new(0, 5);
    assert_eq!((tb.numer(), tb.denom()), (0, 1));
    let tb = TimeBase::new(7, 7);
    assert_eq!((tb.numer(), tb.denom()), (1, 1));
    let tb = TimeBase::new(-12, -18);
    assert_eq!((tb.numer(), tb.denom()), (2, 3));
    let tb = TimeBase::new(1, 44100);
    assert_eq!((tb.numer(), tb.denom()), (1, 44100));
}

#[test]
fn new_timestamp_is_zero() {
    let tb = TimeBase::new(1, 1000);
    let t = Timestamp::new(tb);
    assert_eq!(t.pts(), 0);
    assert_eq!(t.seconds(), 0);
    assert_eq!(t.time_base(), tb);
}

#[test]
fn pts_round_trip() {
    for (n, d) in [(1, 1000), (1, 44100), (3, 7), (-5, 2)] {
        let tb = TimeBase::new(n, d);
        for pts in [0, 1, -1, 123_456_789, i64::MAX, i64::MIN] {
            let t = Timestamp::from_pts(tb, pts);
            assert_eq!(t.pts(), pts);
            assert_eq!(t.time_base(), tb);
        }
    }
}

#[test]
fn seconds_truncate_toward_zero() {
    let tb = TimeBase::new(1, 1000);
    assert_eq!(Timestamp::from_pts(tb, 1999).seconds(), 1);
    assert_eq!(Timestamp::from_pts(tb, -1999).seconds(), -1);
    assert_eq!(Timestamp::from_pts(tb, 10000).seconds(), 10);
    assert_eq!(Timestamp::from_pts(tb, 999).seconds(), 0);
    let tb = TimeBase::new(3, 2);
    assert_eq!(Timestamp::from_pts(tb, 5).seconds(), 7);
    assert_eq!(Timestamp::from_pts(tb, -5).seconds(), -7);
}

#[test]
fn seconds_of_extreme_ticks() {
    let tb = TimeBase::new(1, 2);
    assert_eq!(Timestamp::from_pts(tb, i64::MAX).seconds(), i64::MAX / 2);
    assert_eq!(Timestamp::from_pts(tb, i64::MIN).seconds(), i64::MIN / 2);
}

#[test]
fn from_seconds_at_44100() {
    let tb = TimeBase::new(1, 44100);
    let t = Timestamp::from_seconds(tb, 2);
    assert_eq!(t.pts(), 88200);
    assert_eq!(t.seconds(), 2);
}

#[test]
fn from_seconds_cut_off_when_inexact() {
    // three seconds per tick: one second is no whole tick
    let tb = TimeBase::new(3, 1);
    let t = Timestamp::from_seconds(tb, 1);
    assert_eq!(t.pts(), 0);
    assert_eq!(t.seconds(), 0);
    // two thirds of a second per tick
    let tb = TimeBase::new(2, 3);
    let t = Timestamp::from_seconds(tb, 1);
    assert_eq!(t.pts(), 1);
    assert_eq!(t.seconds(), 0);
    // exact: 2 * 3 is a multiple of 2
    let t = Timestamp::from_seconds(tb, 2);
    assert_eq!(t.pts(), 3);
    assert_eq!(t.seconds(), 2);
}

#[test]
fn from_seconds_negative() {
    let tb = TimeBase::new(1, 3);
    assert_eq!(Timestamp::from_seconds(tb, -1).pts(), -3);
    let tb = TimeBase::new(2, 1);
    assert_eq!(Timestamp::from_seconds(tb, -3).pts(), -1);
    let tb = TimeBase::new(-1, 10);
    assert_eq!(Timestamp::from_seconds(tb, 4).pts(), -40);
    assert_eq!(Timestamp::from_pts(tb, -40).seconds(), 4);
}

#[test]
fn setters_keep_the_time_base() {
    let tb = TimeBase::new(1, 1000);
    let mut t = Timestamp::new(tb);
    t.set_seconds(3);
    assert_eq!(t.pts(), 3000);
    assert_eq!(t.seconds(), 3);
    t.set_pts(4500);
    assert_eq!(t.pts(), 4500);
    assert_eq!(t.seconds(), 4);
    assert_eq!(t.time_base(), tb);
}

#[test]
fn ticks_of_seconds_matches_from_seconds() {
    let tb = TimeBase::new(1, 48000);
    assert_eq!(ticks_of_seconds(tb, 5), 240000);
    assert_eq!(ticks_of_seconds(tb, 5), Timestamp::from_seconds(tb, 5).pts());
}
