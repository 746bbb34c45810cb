use shtc3_beacon::heartbeat::{
    Beat, Blinker, Heartbeat, Level, HEARTBEAT_HIGH_MS, HEARTBEAT_LOW_MS,
};

#[test]
fn standard_heartbeat_is_a_short_low_pulse() {
    let mut heartbeat = Heartbeat::standard();
    assert_eq!(heartbeat.step(), Beat { level: Level::Low, hold_ms: 200 });
    assert_eq!(heartbeat.step(), Beat { level: Level::High, hold_ms: 4000 });
    assert_eq!(heartbeat.step(), Beat { level: Level::Low, hold_ms: 200 });
    assert_eq!(heartbeat.step(), Beat { level: Level::High, hold_ms: 4000 });
    assert_eq!(HEARTBEAT_LOW_MS, 200);
    assert_eq!(HEARTBEAT_HIGH_MS, 4000);
}

#[test]
fn heartbeat_needs_two_different_hold_times() {
    assert!(Heartbeat::new(150, 150).is_none());
    assert!(Heartbeat::new(0, 0).is_none());
    let mut heartbeat = Heartbeat::new(10, 30).unwrap();
    assert_eq!(heartbeat.step(), Beat { level: Level::Low, hold_ms: 10 });
    assert_eq!(heartbeat.step(), Beat { level: Level::High, hold_ms: 30 });
    assert!(Heartbeat::new(0, 1).is_some());
    assert!(Heartbeat::new(u64::MAX, 0).is_some());
}

#[test]
fn duty_cycle_over_many_cycles() {
    for &(low, high) in &[(200u64, 4000u64), (1, 2), (7, 3), (0, 5), (5, 0), (1000, 1)] {
        for cycles in [1u64, 2, 10, 1000] {
            let mut heartbeat = Heartbeat::new(low, high).unwrap();
            let mut low_time: u128 = 0;
            let mut total: u128 = 0;
            for _ in 0..2 * cycles {
                let beat = heartbeat.step();
                total += beat.hold_ms as u128;
                if beat.level == Level::Low {
                    low_time += beat.hold_ms as u128;
                }
            }
            assert_eq!(low_time, (cycles * low) as u128);
            assert_eq!(total, (cycles * (low + high)) as u128);
            assert_eq!(low_time * (low + high) as u128, low as u128 * total);
        }
    }
}

#[test]
fn standard_heartbeat_is_low_one_part_in_twenty_one() {
    let mut heartbeat = Heartbeat::standard();
    let mut low_time: u64 = 0;
    let mut total: u64 = 0;
    for _ in 0..2 * 50 {
        let beat = heartbeat.step();
        total += beat.hold_ms;
        if beat.level == Level::Low {
            low_time += beat.hold_ms;
        }
    }
    assert_eq!(low_time, 10_000);
    assert_eq!(total, 210_000);
    assert_eq!(low_time * 21, total);
}

#[test]
fn levels_alternate() {
    let mut blinker = Blinker::new(Level::High, 150, 150);
    let mut expected = Level::High;
    for _ in 0..9 {
        let beat = blinker.step();
        assert_eq!(beat.level, expected);
        assert_eq!(beat.hold_ms, 150);
        expected = expected.toggled();
    }
    assert_eq!(blinker, Blinker { low_ms: 150, high_ms: 150, next: Level::Low });
}

#[test]
fn blinker_holds_each_level_for_its_own_time() {
    let mut blinker = Blinker::new(Level::High, 300, 1000);
    assert_eq!(blinker.step(), Beat { level: Level::High, hold_ms: 1000 });
    assert_eq!(blinker.step(), Beat { level: Level::Low, hold_ms: 300 });
    assert_eq!(blinker.step(), Beat { level: Level::High, hold_ms: 1000 });
    assert_eq!(Level::Low.toggled(), Level::High);
    assert_eq!(Level::High.toggled(), Level::Low);
}
