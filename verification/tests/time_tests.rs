use chrono::Timelike;
use sunset_switcher::time::Timestamp;

#[test]
fn hour_minute_second_match_chrono() {
    // The library reads an instant's position within the day from its Unix
    // seconds; chrono reads it from the full calendar arithmetic. Both must
    // agree on UTC instants.
    let samples: [u64; 6] = [
        0,
        68400,         // 19:00:00 on the epoch day
        1_700_000_000, // an ordinary recent instant
        1_234_567_890,
        86399,         // 23:59:59
        4_102_444_799, // far future
    ];
    for &secs in samples.iter() {
        let t = Timestamp::new(secs);
        let c = chrono::DateTime::from_timestamp(secs as i64, 0).unwrap();
        assert_eq!(t.hour() as u32, c.hour());
        assert_eq!(t.minute() as u32, c.minute());
        assert_eq!(t.second() as u32, c.second());
    }
}

#[test]
fn hour_of_known_instant() {
    // 2023-11-14 22:13:20 UTC.
    let t = Timestamp::new(1_700_000_000);
    assert_eq!(t.hour(), 22);
    assert_eq!(t.minute(), 13);
    assert_eq!(t.second(), 20);
}
