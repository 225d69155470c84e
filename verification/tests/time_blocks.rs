use cycle::time_series::{
    duration_to_cycle_fraction, CycleError, Duration, TimeBlock, TimeBlockSeries, TimeCycleSize,
    Timestamp, MILLIS_PER_DAY, MILLIS_PER_HOUR, MILLIS_PER_WEEK,
};

#[test]
fn calendar_bridge_hits_the_epoch() {
    // The epoch is Sunday, 4 January 1970, at midnight.
    let epoch = Timestamp::from_calendar(1970, 1, 4, 0, 0, 0).unwrap();
    assert_eq!(epoch.millis_since_epoch, 0);
    let next_second = Timestamp::from_calendar(1970, 1, 4, 0, 0, 1).unwrap();
    assert_eq!(next_second.millis_since_epoch, 1_000);
    let next_day = Timestamp::from_calendar(1970, 1, 5, 0, 0, 0).unwrap();
    assert_eq!(next_day.millis_since_epoch, MILLIS_PER_DAY);
}

#[test]
fn calendar_bridge_counts_days_across_months_and_leap_years() {
    // 1 January 2024 was a Monday, so it sits one day into its week.
    let t = Timestamp::from_calendar(2024, 1, 1, 0, 0, 0).unwrap();
    assert_eq!(t.millis_since_epoch % MILLIS_PER_WEEK, MILLIS_PER_DAY);
    // 2024 is a leap year: the day after 28 February is the 29th.
    let feb28 = Timestamp::from_calendar(2024, 2, 28, 0, 0, 0).unwrap();
    let feb29 = Timestamp::from_calendar(2024, 2, 29, 0, 0, 0).unwrap();
    let mar1 = Timestamp::from_calendar(2024, 3, 1, 0, 0, 0).unwrap();
    assert_eq!(feb29.millis_since_epoch - feb28.millis_since_epoch, MILLIS_PER_DAY);
    assert_eq!(mar1.millis_since_epoch - feb29.millis_since_epoch, MILLIS_PER_DAY);
}

#[test]
fn calendar_bridge_rejects_impossible_dates_and_times() {
    assert!(Timestamp::from_calendar(2021, 2, 29, 0, 0, 0).is_none());
    assert!(Timestamp::from_calendar(2020, 2, 29, 0, 0, 0).is_some());
    assert!(Timestamp::from_calendar(2020, 0, 1, 0, 0, 0).is_none());
    assert!(Timestamp::from_calendar(2020, 13, 1, 0, 0, 0).is_none());
    assert!(Timestamp::from_calendar(2020, 4, 31, 0, 0, 0).is_none());
    assert!(Timestamp::from_calendar(2020, 4, 0, 0, 0, 0).is_none());
    assert!(Timestamp::from_calendar(10_000, 1, 1, 0, 0, 0).is_none());
    assert!(Timestamp::from_calendar(2020, 1, 1, 24, 0, 0).is_none());
    assert!(Timestamp::from_calendar(2020, 1, 1, 0, 60, 0).is_none());
    assert!(Timestamp::from_calendar(2020, 1, 1, 0, 0, 60).is_none());
    // Days before the epoch lie outside the library's timeline.
    assert!(Timestamp::from_calendar(1970, 1, 3, 23, 59, 59).is_none());
    assert!(Timestamp::from_calendar(1969, 12, 31, 0, 0, 0).is_none());
}

#[test]
fn block_duration_and_minutes() {
    let start = Timestamp::from_calendar(2020, 3, 2, 9, 15, 0).unwrap();
    let end = Timestamp::from_calendar(2020, 3, 2, 10, 45, 30).unwrap();
    let block = TimeBlock::new("deep work", start, end);
    assert_eq!(block.label, "deep work");
    let duration = block.duration();
    assert_eq!(duration.whole_milliseconds(), 90 * 60_000 + 30_000);
    assert_eq!(duration.whole_minutes(), 90);
}

#[test]
fn block_midpoint_truncates_toward_start() {
    let block = TimeBlock::new(
        "odd span",
        Timestamp::from_epoch_millis(1),
        Timestamp::from_epoch_millis(4),
    );
    // The span is 3 ms; its half truncates to 1 ms.
    assert_eq!(block.midpoint_time().millis_since_epoch, 2);

    let start = Timestamp::from_calendar(2020, 3, 2, 14, 0, 0).unwrap();
    let end = Timestamp::from_calendar(2020, 3, 2, 15, 0, 0).unwrap();
    let block = TimeBlock::new("even span", start, end);
    let midpoint = block.midpoint_time();
    assert_eq!(
        midpoint.millis_since_epoch - start.millis_since_epoch,
        30 * 60_000
    );
}

#[test]
fn block_fractions_match_their_instants() {
    let start = Timestamp::from_calendar(2020, 3, 2, 14, 0, 0).unwrap();
    let end = Timestamp::from_calendar(2020, 3, 2, 15, 30, 0).unwrap();
    let block = TimeBlock::new("afternoon", start, end);

    let at_start = block.start_time_cycle_fraction(&TimeCycleSize::Hour).unwrap();
    assert_eq!(at_start.elapsed_millis, 0);

    let at_end = block.end_time_cycle_fraction(&TimeCycleSize::Hour).unwrap();
    assert_eq!(at_end.elapsed_millis, 30 * 60_000);

    // The midpoint lies at 14:45.
    let at_midpoint = block.midpoint_time_cycle_fraction(&TimeCycleSize::Hour).unwrap();
    assert_eq!(at_midpoint.elapsed_millis, 45 * 60_000);

    // The block's overall phase is its midpoint's phase.
    let overall = block.duration_cycle_fraction(&TimeCycleSize::Hour).unwrap();
    assert_eq!(overall, at_midpoint);

    assert_eq!(
        block.start_time_cycle_fraction(&TimeCycleSize::Month),
        Err(CycleError::UnsupportedCycleKind)
    );
    assert_eq!(
        block.duration_cycle_fraction(&TimeCycleSize::Year),
        Err(CycleError::UnsupportedCycleKind)
    );
}

#[test]
fn duration_fraction_of_a_full_cycle_is_one() {
    let full_hour = Duration { millis: MILLIS_PER_HOUR };
    let fraction = duration_to_cycle_fraction(&full_hour, &TimeCycleSize::Hour).unwrap();
    assert_eq!(fraction.elapsed_millis, fraction.cycle_millis);
    assert_eq!(
        duration_to_cycle_fraction(&full_hour, &TimeCycleSize::Month),
        Err(CycleError::UnsupportedCycleKind)
    );
}

#[test]
fn series_starts_empty_and_holds_blocks() {
    let mut series = TimeBlockSeries::new();
    assert!(series.blocks.is_empty());
    let start = Timestamp::from_epoch_millis(0);
    let end = Timestamp::from_epoch_millis(MILLIS_PER_HOUR);
    series.blocks.push(TimeBlock::new("first", start, end));
    assert_eq!(series.blocks.len(), 1);
    assert_eq!(series.blocks[0].label, "first");
}
