//! Timestamps, recurring cycles, and the cycle-fraction mapper.
//!
//! A [`Timestamp`] is a count of whole milliseconds since the library's
//! epoch, which is midnight at the start of a Sunday.  Mapping a timestamp
//! into a cycle (hour, day, week) is then exact integer arithmetic: the
//! start of a cycle is the timestamp truncated to the nearest lower multiple
//! of the cycle's length, and the position within the cycle is the exact
//! rational pair of the elapsed milliseconds and the cycle's length.

use vstd::prelude::*;
use vstd::arithmetic::div_mod::{
    lemma_fundamental_div_mod, lemma_mod_breakdown, lemma_mod_decreases,
    lemma_mod_multiples_basic,
};
use vstd::arithmetic::mul::lemma_mul_inequality;

verus! {

pub const MILLIS_PER_SECOND: u64 = 1_000;

pub const MILLIS_PER_MINUTE: u64 = 60_000;

pub const MILLIS_PER_HOUR: u64 = 3_600_000;

pub const MILLIS_PER_DAY: u64 = 86_400_000;

pub const MILLIS_PER_WEEK: u64 = 604_800_000;

/// The recurring period a timestamp can be mapped into.  `Month` and `Year`
/// are declared but explicitly unsupported: every operation asked for them
/// answers with [`CycleError::UnsupportedCycleKind`] rather than proceeding.
#[derive(Clone, Copy, Debug, PartialEq, Eq, Structural)]
pub enum TimeCycleSize {
    Hour,
    Day,
    Week,
    Month,
    Year,
}

/// The one recoverable error of this library: a caller asked for a cycle
/// kind that is declared but not supported.  Domain violations, by contrast,
/// are ruled out by the contracts rather than reported at run time.
#[derive(Clone, Copy, Debug, PartialEq, Eq, Structural)]
pub enum CycleError {
    UnsupportedCycleKind,
}

/// Which cycle kinds the mapper supports.
pub open spec fn cycle_supported(cycle_size: TimeCycleSize) -> bool {
    cycle_size is Hour || cycle_size is Day || cycle_size is Week
}

/// The length in milliseconds of each supported cycle.
pub open spec fn spec_millis_in_cycle(cycle_size: TimeCycleSize) -> int
    recommends
        cycle_supported(cycle_size),
{
    match cycle_size {
        TimeCycleSize::Hour => MILLIS_PER_HOUR as int,
        TimeCycleSize::Day => MILLIS_PER_DAY as int,
        TimeCycleSize::Week => MILLIS_PER_WEEK as int,
        TimeCycleSize::Month => 0,
        TimeCycleSize::Year => 0,
    }
}

/// The most recent cycle boundary at or before the given instant: the
/// instant truncated down to a whole multiple of the cycle's length.
pub open spec fn spec_start_of_cycle(millis: int, cycle_size: TimeCycleSize) -> int
    recommends
        cycle_supported(cycle_size),
        0 <= millis,
{
    millis - millis % spec_millis_in_cycle(cycle_size)
}

/// A point in absolute time, with no attached time zone, counted in whole
/// milliseconds since the library's epoch.  The epoch is midnight at the
/// start of a Sunday, so positions within the day and the week are plain
/// remainders of this count.
#[derive(Clone, Copy, Debug, PartialEq, Eq, Structural)]
pub struct Timestamp {
    pub millis_since_epoch: u64,
}

/// A non-negative span of time in whole milliseconds, as produced by
/// subtracting one [`Timestamp`] from a later one.
#[derive(Clone, Copy, Debug, PartialEq, Eq, Structural)]
pub struct Duration {
    pub millis: u64,
}

impl Timestamp {
    /// Builds the timestamp that lies exactly `millis_since_epoch`
    /// milliseconds after the epoch.
    pub fn from_epoch_millis(millis_since_epoch: u64) -> (r: Timestamp)
        ensures
            r.millis_since_epoch == millis_since_epoch,
    {
        Timestamp { millis_since_epoch }
    }

    /// The span from an earlier instant up to this one.
    pub fn duration_since(&self, earlier: &Timestamp) -> (d: Duration)
        requires
            earlier.millis_since_epoch <= self.millis_since_epoch,
        ensures
            d.millis == self.millis_since_epoch - earlier.millis_since_epoch,
    {
        Duration { millis: self.millis_since_epoch - earlier.millis_since_epoch }
    }

    /// The instant that lies `duration` after this one.
    pub fn advanced_by(&self, duration: &Duration) -> (r: Timestamp)
        requires
            self.millis_since_epoch + duration.millis <= u64::MAX,
        ensures
            r.millis_since_epoch == self.millis_since_epoch + duration.millis,
    {
        Timestamp { millis_since_epoch: self.millis_since_epoch + duration.millis }
    }
}

impl Duration {
    /// The whole milliseconds this span covers.
    pub fn whole_milliseconds(&self) -> (r: u64)
        ensures
            r == self.millis,
    {
        self.millis
    }

    /// The whole minutes this span covers, rounded toward zero.
    pub fn whole_minutes(&self) -> (r: u64)
        ensures
            r == self.millis as int / MILLIS_PER_MINUTE as int,
    {
        self.millis / MILLIS_PER_MINUTE
    }

    /// Half of this span, rounded toward zero, matching the truncating
    /// division the duration type carries.
    pub fn half(&self) -> (r: Duration)
        ensures
            r.millis == self.millis as int / 2,
    {
        Duration { millis: self.millis / 2 }
    }
}

/// A normalized position within a cycle, held as the exact pair of elapsed
/// milliseconds and the cycle's length in milliseconds.  The quotient
/// `elapsed_millis / cycle_millis` is the phase in `[0, 1]`; keeping the
/// pair instead of the quotient keeps the position exact.
#[derive(Clone, Copy, Debug, PartialEq, Eq, Structural)]
pub struct CycleFraction {
    pub elapsed_millis: u64,
    pub cycle_millis: u64,
}

impl CycleFraction {
    /// Every fraction the mapper hands out denotes a phase in `[0, 1]`.
    pub open spec fn wf(self) -> bool {
        0 < self.cycle_millis && self.elapsed_millis <= self.cycle_millis
    }

    /// True exactly when the phase is zero: the instant sat exactly on the
    /// cycle boundary.
    pub fn is_zero(&self) -> (r: bool)
        ensures
            r == (self.elapsed_millis == 0),
    {
        self.elapsed_millis == 0
    }
}

/// The start of the cycle that contains `time`: the same hour with minutes
/// and seconds zeroed, the same day at midnight, or, for a week, the most
/// recent Sunday midnight.  The week is found the careful way: truncate to
/// midnight first, step back the days since Sunday, then truncate to
/// midnight again, so that stepping back whole days can never land past a
/// calendar boundary.
pub fn time_to_start_of_cycle(time: &Timestamp, cycle_size: &TimeCycleSize) -> (r: Result<
    Timestamp,
    CycleError,
>)
    ensures
        r is Ok <==> cycle_supported(*cycle_size),
        r is Ok ==> r.unwrap().millis_since_epoch == spec_start_of_cycle(
            time.millis_since_epoch as int,
            *cycle_size,
        ),
        r is Ok ==> r.unwrap().millis_since_epoch <= time.millis_since_epoch,
        r is Ok ==> r.unwrap().millis_since_epoch as int % spec_millis_in_cycle(*cycle_size) == 0,
        r is Err ==> r.unwrap_err() == CycleError::UnsupportedCycleKind,
{
    proof {
        if cycle_supported(*cycle_size) {
            lemma_cycle_boundary_closure(time.millis_since_epoch as int, *cycle_size);
        }
    }
    match cycle_size {
        TimeCycleSize::Hour => Ok(
            Timestamp {
                millis_since_epoch: time.millis_since_epoch - time.millis_since_epoch
                    % MILLIS_PER_HOUR,
            },
        ),
        TimeCycleSize::Day => Ok(
            Timestamp {
                millis_since_epoch: time.millis_since_epoch - time.millis_since_epoch
                    % MILLIS_PER_DAY,
            },
        ),
        TimeCycleSize::Week => {
            let start_of_day: u64 = time.millis_since_epoch - time.millis_since_epoch
                % MILLIS_PER_DAY;
            let days_from_sunday: u64 = (time.millis_since_epoch / MILLIS_PER_DAY) % 7;
            proof {
                lemma_week_truncation(time.millis_since_epoch as int);
            }
            let stepped_back: u64 = start_of_day - days_from_sunday * MILLIS_PER_DAY;
            let start_of_week: u64 = stepped_back - stepped_back % MILLIS_PER_DAY;
            Ok(Timestamp { millis_since_epoch: start_of_week })
        },
        TimeCycleSize::Month => Err(CycleError::UnsupportedCycleKind),
        TimeCycleSize::Year => Err(CycleError::UnsupportedCycleKind),
    }
}

/// Stepping back from a day boundary by the days elapsed since Sunday lands
/// exactly on the week boundary, and that landing point is already a day
/// boundary, so the second truncation changes nothing.
proof fn lemma_week_truncation(t: int)
    requires
        0 <= t,
    ensures
        (t / MILLIS_PER_DAY as int) % 7 * MILLIS_PER_DAY as int <= t - t % MILLIS_PER_DAY as int,
        t - t % MILLIS_PER_DAY as int - (t / MILLIS_PER_DAY as int) % 7 * MILLIS_PER_DAY as int
            == t - t % MILLIS_PER_WEEK as int,
        (t - t % MILLIS_PER_WEEK as int) % MILLIS_PER_DAY as int == 0,
{
    let day = MILLIS_PER_DAY as int;
    let q = t / day;
    lemma_fundamental_div_mod(t, day);
    lemma_mod_breakdown(t, day, 7);
    assert(day * 7 == MILLIS_PER_WEEK as int);
    lemma_mod_decreases(q as nat, 7);
    lemma_mul_inequality(q % 7, q, day);
    assert(t - t % day - q % 7 * day == (q - q % 7) * day) by (nonlinear_arith)
        requires
            t - t % day == q * day,
    ;
    lemma_mod_multiples_basic(q - q % 7, day);
}

/// The fraction of its cycle that a span covers.  The span must not exceed
/// the cycle: the mapper only ever asks this of the span from a cycle's
/// start, which cannot.
pub fn duration_to_cycle_fraction(duration: &Duration, cycle_size: &TimeCycleSize) -> (r: Result<
    CycleFraction,
    CycleError,
>)
    requires
        cycle_supported(*cycle_size) ==> duration.millis <= spec_millis_in_cycle(*cycle_size),
    ensures
        r is Ok <==> cycle_supported(*cycle_size),
        r is Ok ==> r.unwrap() == (CycleFraction {
            elapsed_millis: duration.millis,
            cycle_millis: spec_millis_in_cycle(*cycle_size) as u64,
        }),
        r is Ok ==> r.unwrap().wf(),
        r is Err ==> r.unwrap_err() == CycleError::UnsupportedCycleKind,
{
    let cycle_millis: u64 = match cycle_size {
        TimeCycleSize::Hour => MILLIS_PER_HOUR,
        TimeCycleSize::Day => MILLIS_PER_DAY,
        TimeCycleSize::Week => MILLIS_PER_WEEK,
        TimeCycleSize::Month => {
            return Err(CycleError::UnsupportedCycleKind);
        },
        TimeCycleSize::Year => {
            return Err(CycleError::UnsupportedCycleKind);
        },
    };
    Ok(CycleFraction { elapsed_millis: duration.millis, cycle_millis })
}

/// The normalized position of `time` within its current cycle: the elapsed
/// span since the cycle's start, over the cycle's length.  The elapsed
/// milliseconds are exactly the remainder of the timestamp by the cycle's
/// length, so the phase always lies in `[0, 1)`.
pub fn time_to_cycle_fraction(time: &Timestamp, cycle_size: &TimeCycleSize) -> (r: Result<
    CycleFraction,
    CycleError,
>)
    ensures
        r is Ok <==> cycle_supported(*cycle_size),
        r is Ok ==> r.unwrap() == (CycleFraction {
            elapsed_millis: (time.millis_since_epoch as int % spec_millis_in_cycle(
                *cycle_size,
            )) as u64,
            cycle_millis: spec_millis_in_cycle(*cycle_size) as u64,
        }),
        r is Ok ==> r.unwrap().wf() && r.unwrap().elapsed_millis < r.unwrap().cycle_millis,
        r is Err ==> r.unwrap_err() == CycleError::UnsupportedCycleKind,
{
    let cycle_start = match time_to_start_of_cycle(time, cycle_size) {
        Ok(start) => start,
        Err(e) => {
            return Err(e);
        },
    };
    let elapsed = time.duration_since(&cycle_start);
    duration_to_cycle_fraction(&elapsed, cycle_size)
}

/// Cycle boundary closure: an instant that lies exactly at the start of a
/// cycle maps to phase exactly zero, and truncating to the cycle's start a
/// second time changes nothing.
pub proof fn lemma_cycle_boundary_closure(millis: int, cycle_size: TimeCycleSize)
    requires
        0 <= millis,
        cycle_supported(cycle_size),
    ensures
        spec_start_of_cycle(millis, cycle_size) % spec_millis_in_cycle(cycle_size) == 0,
        spec_start_of_cycle(spec_start_of_cycle(millis, cycle_size), cycle_size)
            == spec_start_of_cycle(millis, cycle_size),
{
    let c = spec_millis_in_cycle(cycle_size);
    lemma_fundamental_div_mod(millis, c);
    lemma_mod_multiples_basic(millis / c, c);
}

/// Week start convention: the week boundary falls on a day boundary.  An
/// instant at midnight of a day that lies a whole number of weeks after the
/// epoch's Sunday, that is, at a Sunday midnight,has phase zero within the day
/// and within the week.
pub proof fn lemma_week_start_convention(millis: int)
    requires
        0 <= millis,
        millis % MILLIS_PER_DAY as int == 0,
        (millis / MILLIS_PER_DAY as int) % 7 == 0,
    ensures
        millis % MILLIS_PER_WEEK as int == 0,
{
    lemma_mod_breakdown(millis, MILLIS_PER_DAY as int, 7);
    assert(MILLIS_PER_DAY as int * 7 == MILLIS_PER_WEEK as int);
}

/// A labelled interval of absolute time; the ingestion side guarantees that
/// the interval runs forward, which is what `wf` records.
#[derive(Clone, Debug)]
pub struct TimeBlock {
    pub label: String,
    pub start_time: Timestamp,
    pub end_time: Timestamp,
}

impl TimeBlock {
    /// A block is well formed when its interval runs strictly forward.
    pub open spec fn wf(self) -> bool {
        self.start_time.millis_since_epoch < self.end_time.millis_since_epoch
    }

    /// The instant halfway through the block, with the elapsed span halved
    /// by truncating division.
    pub open spec fn spec_midpoint_millis(self) -> int
        recommends
            self.wf(),
    {
        self.start_time.millis_since_epoch + (self.end_time.millis_since_epoch
            - self.start_time.millis_since_epoch) / 2
    }

    /// Builds a labelled block over a forward-running interval.
    pub fn new(label: &str, start_time: Timestamp, end_time: Timestamp) -> (r: TimeBlock)
        requires
            start_time.millis_since_epoch < end_time.millis_since_epoch,
        ensures
            r.label@ == label@,
            r.start_time == start_time,
            r.end_time == end_time,
            r.wf(),
    {
        TimeBlock { label: label.to_owned(), start_time, end_time }
    }

    /// The instant halfway through the block, with the elapsed span halved
    /// by truncating division.
    pub fn midpoint_time(&self) -> (r: Timestamp)
        requires
            self.wf(),
        ensures
            r.millis_since_epoch == self.start_time.millis_since_epoch as int + (
            self.end_time.millis_since_epoch - self.start_time.millis_since_epoch) / 2,
            self.start_time.millis_since_epoch <= r.millis_since_epoch
                <= self.end_time.millis_since_epoch,
    {
        self.start_time.advanced_by(&self.end_time.duration_since(&self.start_time).half())
    }

    /// The span the block covers.
    pub fn duration(&self) -> (d: Duration)
        requires
            self.wf(),
        ensures
            d.millis == self.end_time.millis_since_epoch - self.start_time.millis_since_epoch,
    {
        self.end_time.duration_since(&self.start_time)
    }

    /// The phase of the block's start within the given cycle.
    pub fn start_time_cycle_fraction(&self, cycle_size: &TimeCycleSize) -> (r: Result<
        CycleFraction,
        CycleError,
    >)
        ensures
            r is Ok <==> cycle_supported(*cycle_size),
            r is Ok ==> r.unwrap() == (CycleFraction {
                elapsed_millis: (self.start_time.millis_since_epoch as int % spec_millis_in_cycle(
                    *cycle_size,
                )) as u64,
                cycle_millis: spec_millis_in_cycle(*cycle_size) as u64,
            }),
            r is Err ==> r.unwrap_err() == CycleError::UnsupportedCycleKind,
    {
        time_to_cycle_fraction(&self.start_time, cycle_size)
    }

    /// The phase of the block's end within the given cycle.
    pub fn end_time_cycle_fraction(&self, cycle_size: &TimeCycleSize) -> (r: Result<
        CycleFraction,
        CycleError,
    >)
        ensures
            r is Ok <==> cycle_supported(*cycle_size),
            r is Ok ==> r.unwrap() == (CycleFraction {
                elapsed_millis: (self.end_time.millis_since_epoch as int % spec_millis_in_cycle(
                    *cycle_size,
                )) as u64,
                cycle_millis: spec_millis_in_cycle(*cycle_size) as u64,
            }),
            r is Err ==> r.unwrap_err() == CycleError::UnsupportedCycleKind,
    {
        time_to_cycle_fraction(&self.end_time, cycle_size)
    }

    /// The phase of the block's midpoint within the given cycle.
    pub fn midpoint_time_cycle_fraction(&self, cycle_size: &TimeCycleSize) -> (r: Result<
        CycleFraction,
        CycleError,
    >)
        requires
            self.wf(),
        ensures
            r is Ok <==> cycle_supported(*cycle_size),
            r is Ok ==> r.unwrap() == (CycleFraction {
                elapsed_millis: (self.spec_midpoint_millis() % spec_millis_in_cycle(
                    *cycle_size,
                )) as u64,
                cycle_millis: spec_millis_in_cycle(*cycle_size) as u64,
            }),
            r is Err ==> r.unwrap_err() == CycleError::UnsupportedCycleKind,
    {
        time_to_cycle_fraction(&self.midpoint_time(), cycle_size)
    }

    /// The phase reported for the block as a whole, which is the phase of
    /// its midpoint.
    pub fn duration_cycle_fraction(&self, cycle_size: &TimeCycleSize) -> (r: Result<
        CycleFraction,
        CycleError,
    >)
        requires
            self.wf(),
        ensures
            r is Ok <==> cycle_supported(*cycle_size),
            r is Ok ==> r.unwrap() == (CycleFraction {
                elapsed_millis: (self.spec_midpoint_millis() % spec_millis_in_cycle(
                    *cycle_size,
                )) as u64,
                cycle_millis: spec_millis_in_cycle(*cycle_size) as u64,
            }),
            r is Err ==> r.unwrap_err() == CycleError::UnsupportedCycleKind,
    {
        time_to_cycle_fraction(&self.midpoint_time(), cycle_size)
    }
}

/// An ordered collection of recorded blocks.
#[derive(Clone, Debug)]
pub struct TimeBlockSeries {
    pub blocks: Vec<TimeBlock>,
}

impl TimeBlockSeries {
    /// An empty series, ready to be filled by the ingestion side.
    pub fn new() -> (r: TimeBlockSeries)
        ensures
            r.blocks@.len() == 0,
    {
        TimeBlockSeries { blocks: Vec::new() }
    }
}

} // verus!

