use scrt_finance::schedule::{has_unique_end_blocks, integrate, sort_schedule, ScheduleUnit};

fn unit(end_block: u64, mint_per_block: u128) -> ScheduleUnit {
    ScheduleUnit { end_block, mint_per_block }
}

#[test]
fn integrate_single_segment() {
    let schedule = vec![unit(100, 1)];
    assert_eq!(integrate(&schedule, 0, 100), Some(100));
    assert_eq!(integrate(&schedule, 0, 150), Some(100));
    assert_eq!(integrate(&schedule, 100, 150), Some(0));
    assert_eq!(integrate(&schedule, 99, 100), Some(1));
    assert_eq!(integrate(&schedule, 50, 50), Some(0));
    assert_eq!(integrate(&schedule, 60, 50), Some(0));
    assert_eq!(integrate(&vec![], 0, 1000), Some(0));
}

#[test]
fn integrate_across_segments() {
    let schedule = vec![unit(10, 5), unit(20, 3), unit(40, 1)];
    // A block that is the end of a segment belongs to that segment.
    assert_eq!(integrate(&schedule, 9, 10), Some(5));
    assert_eq!(integrate(&schedule, 10, 11), Some(3));
    assert_eq!(integrate(&schedule, 0, 40), Some(10 * 5 + 10 * 3 + 20 * 1));
    assert_eq!(integrate(&schedule, 5, 25), Some(5 * 5 + 10 * 3 + 5 * 1));
    assert_eq!(integrate(&schedule, 15, 1000), Some(5 * 3 + 20 * 1));
    assert_eq!(integrate(&schedule, 40, 1000), Some(0));
    // The whole is the sum of its parts.
    assert_eq!(
        integrate(&schedule, 3, 33).unwrap(),
        integrate(&schedule, 3, 17).unwrap() + integrate(&schedule, 17, 33).unwrap()
    );
}

#[test]
fn integrate_reports_what_does_not_fit() {
    let schedule = vec![unit(10, u128::MAX / 2), unit(20, 7)];
    assert_eq!(integrate(&schedule, 0, 2), Some(u128::MAX - 1));
    assert_eq!(integrate(&schedule, 0, 3), None);
    assert_eq!(integrate(&schedule, 9, 20), Some(u128::MAX / 2 + 70));
    assert_eq!(integrate(&schedule, 8, 20), None);
    let schedule = vec![unit(u64::MAX, 1 << 63)];
    assert_eq!(integrate(&schedule, 0, u64::MAX), Some(((1u128 << 64) - 1) << 63));
}

#[test]
fn sort_schedule_orders_by_end_block() {
    let mut schedule = vec![unit(300, 3), unit(100, 1), unit(200, 2)];
    sort_schedule(&mut schedule);
    let sorted = vec![unit(100, 1), unit(200, 2), unit(300, 3)];
    assert_eq!(schedule, sorted);
    // Sorting again changes nothing.
    sort_schedule(&mut schedule);
    assert_eq!(schedule, sorted);
    assert!(has_unique_end_blocks(&schedule));
}

#[test]
fn sort_schedule_is_stable() {
    let mut schedule = vec![unit(7, 1), unit(3, 2), unit(7, 3), unit(3, 4), unit(7, 5), unit(1, 6)];
    sort_schedule(&mut schedule);
    assert_eq!(
        schedule,
        vec![unit(1, 6), unit(3, 2), unit(3, 4), unit(7, 1), unit(7, 3), unit(7, 5)]
    );
    assert!(!has_unique_end_blocks(&schedule));
    let mut empty: Vec<ScheduleUnit> = vec![];
    sort_schedule(&mut empty);
    assert!(empty.is_empty());
    assert!(has_unique_end_blocks(&empty));
}
