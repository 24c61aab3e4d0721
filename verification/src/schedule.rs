//! Hour-by-hour availability: one day as a 24-bit mask, a week as seven days,
//! and the choice between a weekly schedule and no availability at all.

use vstd::prelude::*;

verus! {

/// Number of hourly slots in a day.
pub const HOURS_IN_DAY: usize = 24;

/// Mask with one bit set for every hour of a day.
pub const DAY_MASK: u32 = 0x00FF_FFFF;

/// Why a schedule operation was rejected.
#[derive(Clone, Copy, Debug, PartialEq, Eq, Structural)]
pub enum ScheduleError {
    /// The hour is not in `0..24`.
    InvalidHourIndex,
}

/// Whether bit `hour` of `mask` is set.
pub open spec fn hour_bit(mask: u32, hour: int) -> bool {
    (mask >> (hour as u32)) & 1 == 1
}

/// The 24 hourly slots that `mask` encodes, hour 0 first.
pub open spec fn hours_of(mask: u32) -> Seq<bool> {
    Seq::new(24, |h: int| hour_bit(mask, h))
}

/// Number of `true` entries of `s`.
pub open spec fn count_true(s: Seq<bool>) -> nat
    decreases s.len(),
{
    if s.len() == 0 {
        0
    } else {
        count_true(s.drop_last()) + if s.last() {
            1nat
        } else {
            0nat
        }
    }
}

/// Slot by slot, whether both `a` and `b` are available.
pub open spec fn both(a: Seq<bool>, b: Seq<bool>) -> Seq<bool> {
    Seq::new(a.len(), |h: int| a[h] && b[h])
}

/// Number of slots in which both `a` and `b` are available.
pub open spec fn day_overlap(a: Seq<bool>, b: Seq<bool>) -> nat {
    count_true(both(a, b))
}

/// A sequence never holds more `true` entries than it has entries.
pub proof fn lemma_count_true_bound(s: Seq<bool>)
    ensures
        count_true(s) <= s.len(),
    decreases s.len(),
{
    if s.len() > 0 {
        lemma_count_true_bound(s.drop_last());
    }
}

/// One day's availability: 24 hourly slots in UTC, bit `h` of the mask
/// standing for the hour that starts at `h` o'clock.
#[derive(Clone, Copy, Debug, PartialEq, Eq, Structural)]
pub struct DaySchedule {
    mask: u32,
}

impl View for DaySchedule {
    type V = Seq<bool>;

    closed spec fn view(&self) -> Seq<bool> {
        hours_of(self.mask)
    }
}

/// Counts the hours set in a day mask.
fn count_hours(mask: u32) -> (n: u32)
    ensures
        n == count_true(hours_of(mask)),
        n <= 24,
{
    let ghost hours = hours_of(mask);
    let mut n: u32 = 0;
    let mut h: u32 = 0;
    while h < 24
        invariant
            h <= 24,
            n <= h,
            hours == hours_of(mask),
            n == count_true(hours.take(h as int)),
        decreases 24 - h,
    {
        proof {
            assert(hours.take(h + 1).drop_last() =~= hours.take(h as int));
            assert(hours.take(h + 1).last() == hour_bit(mask, h as int));
        }
        if (mask >> h) & 1 == 1 {
            n += 1;
        }
        h += 1;
    }
    proof {
        assert(hours.take(24) =~= hours);
    }
    n
}

/// The mask of `a & b` encodes the slots set in both masks.
proof fn lemma_and_is_both(a: u32, b: u32)
    ensures
        hours_of(a & b) == both(hours_of(a), hours_of(b)),
{
    assert forall|h: int| 0 <= h < 24 implies hour_bit(a & b, h) == (hour_bit(a, h) && hour_bit(
        b,
        h,
    )) by {
        let k = h as u32;
        assert((((a & b) >> k) & 1 == 1) == (((a >> k) & 1 == 1) && ((b >> k) & 1 == 1)))
            by (bit_vector);
    }
    assert(hours_of(a & b) =~= both(hours_of(a), hours_of(b)));
}

/// Two day masks that agree in all 24 hours agree from any bit upwards.
proof fn lemma_same_hours_same_high_bits(a: u32, b: u32, from: u32)
    requires
        a <= DAY_MASK,
        b <= DAY_MASK,
        from <= 24,
        forall|h: int| 0 <= h < 24 ==> hour_bit(a, h) == hour_bit(b, h),
    ensures
        a >> from == b >> from,
    decreases 24 - from,
{
    if from == 24 {
        assert(a >> 24u32 == b >> 24u32) by (bit_vector)
            requires
                a <= 0x00FF_FFFFu32,
                b <= 0x00FF_FFFFu32,
        ;
    } else {
        let above: u32 = (from + 1) as u32;
        lemma_same_hours_same_high_bits(a, b, above);
        assert(hour_bit(a, from as int) == hour_bit(b, from as int));
        assert(a >> from == b >> from) by (bit_vector)
            requires
                from < 24,
                above == from + 1,
                a >> above == b >> above,
                ((a >> from) & 1 == 1) == ((b >> from) & 1 == 1),
        ;
    }
}

impl DaySchedule {
    #[verifier::type_invariant]
    spec fn within_day(self) -> bool {
        self.mask <= DAY_MASK
    }

    /// A day with no available hour.
    pub fn new() -> (day: DaySchedule)
        ensures
            day@ == Seq::new(24, |h: int| false),
    {
        let day = DaySchedule { mask: 0 };
        proof {
            assert forall|h: int| 0 <= h < 24 implies !hour_bit(0u32, h) by {
                let k = h as u32;
                assert((0u32 >> k) & 1 != 1) by (bit_vector);
            }
            assert(day@ =~= Seq::new(24, |h: int| false));
        }
        day
    }

    /// Every schedule has exactly 24 slots.
    pub proof fn lemma_len(self)
        ensures
            self@.len() == 24,
    {
    }

    /// Whether the hour starting at `hour` o'clock is available. Hours
    /// outside the day are never available.
    pub fn is_available(&self, hour: usize) -> (on: bool)
        ensures
            on == (hour < 24 && self@[hour as int]),
    {
        if hour < HOURS_IN_DAY {
            let h: u32 = hour as u32;
            (self.mask >> h) & 1 == 1
        } else {
            false
        }
    }

    /// Whether this day and `other` are available in the same hours. Two
    /// days are equal exactly when they are.
    pub fn same_hours(&self, other: &DaySchedule) -> (same: bool)
        ensures
            same == (self@ == other@),
            same == (*self == *other),
    {
        proof {
            use_type_invariant(self);
            use_type_invariant(other);
            if self@ == other@ {
                assert forall|h: int| 0 <= h < 24 implies hour_bit(self.mask, h) == hour_bit(
                    other.mask,
                    h,
                ) by {
                    assert(self@[h] == other@[h]);
                }
                lemma_same_hours_same_high_bits(self.mask, other.mask, 0);
                let a = self.mask;
                let b = other.mask;
                assert(a == b) by (bit_vector)
                    requires
                        a >> 0u32 == b >> 0u32,
                ;
            }
        }
        self.mask == other.mask
    }

    /// Flips the slot of `hour`, leaving every other slot as it was. An hour
    /// outside `0..24` is rejected and the schedule stays unchanged.
    pub fn toggle(&mut self, hour: usize) -> (res: Result<(), ScheduleError>)
        ensures
            hour < 24 ==> res == Ok::<(), ScheduleError>(()) && final(self)@ == old(self)@.update(
                hour as int,
                !old(self)@[hour as int],
            ),
            hour >= 24 ==> res == Err::<(), ScheduleError>(ScheduleError::InvalidHourIndex)
                && *final(self) == *old(self),
    {
        if hour >= HOURS_IN_DAY {
            return Err(ScheduleError::InvalidHourIndex);
        }
        proof {
            use_type_invariant(&*self);
        }
        let h: u32 = hour as u32;
        let before: u32 = self.mask;
        let after: u32 = before ^ (1u32 << h);
        proof {
            assert(after <= 0x00FF_FFFFu32) by (bit_vector)
                requires
                    before <= 0x00FF_FFFFu32,
                    h < 24,
                    after == before ^ (1u32 << h),
            ;
            assert forall|i: int| 0 <= i < 24 implies hour_bit(after, i) == (if i == hour {
                !hour_bit(before, i)
            } else {
                hour_bit(before, i)
            }) by {
                let k = i as u32;
                assert(((after >> k) & 1 == 1) == (if k == h {
                    !((before >> k) & 1 == 1)
                } else {
                    (before >> k) & 1 == 1
                })) by (bit_vector)
                    requires
                        h < 24,
                        k < 24,
                        after == before ^ (1u32 << h),
                ;
            }
            assert(hours_of(after) =~= hours_of(before).update(
                hour as int,
                !hours_of(before)[hour as int],
            ));
        }
        self.mask = after;
        Ok(())
    }

    /// Marks every hour as unavailable.
    pub fn reset(&mut self)
        ensures
            final(self)@ == Seq::new(24, |h: int| false),
    {
        *self = DaySchedule::new();
    }

    /// Number of hours in which both this day and `other` are available.
    pub fn overlap_count(&self, other: &DaySchedule) -> (n: u32)
        ensures
            n == day_overlap(self@, other@),
            n <= 24,
    {
        proof {
            lemma_and_is_both(self.mask, other.mask);
        }
        count_hours(self.mask & other.mask)
    }

    /// Number of available hours of this day.
    pub fn total_available(&self) -> (n: u32)
        ensures
            n == count_true(self@),
            n <= 24,
    {
        count_hours(self.mask)
    }
}

impl Default for DaySchedule {
    fn default() -> (day: DaySchedule)
        ensures
            day@ == Seq::new(24, |h: int| false),
    {
        DaySchedule::new()
    }
}

/// Two days overlap in the same hours whichever of them is asked.
pub proof fn lemma_day_overlap_symmetric(a: DaySchedule, b: DaySchedule)
    ensures
        day_overlap(a@, b@) == day_overlap(b@, a@),
{
    assert(both(a@, b@) =~= both(b@, a@));
}

/// A day overlaps itself in exactly the hours it has available.
pub proof fn lemma_day_overlap_self(a: DaySchedule)
    ensures
        day_overlap(a@, a@) == count_true(a@),
{
    assert(both(a@, a@) =~= a@);
}

/// Days of the week, Monday first.
#[derive(Clone, Copy, Debug, PartialEq, Eq, Structural)]
pub enum Weekday {
    Mon,
    Tue,
    Wed,
    Thu,
    Fri,
    Sat,
    Sun,
}

impl Weekday {
    /// Days since Monday: 0 for Monday, 6 for Sunday.
    pub open spec fn index(self) -> int {
        match self {
            Weekday::Mon => 0,
            Weekday::Tue => 1,
            Weekday::Wed => 2,
            Weekday::Thu => 3,
            Weekday::Fri => 4,
            Weekday::Sat => 5,
            Weekday::Sun => 6,
        }
    }

    /// Days since Monday: 0 for Monday, 6 for Sunday.
    pub fn num_days_from_monday(&self) -> (n: u32)
        ensures
            n == self.index(),
    {
        match self {
            Weekday::Mon => 0,
            Weekday::Tue => 1,
            Weekday::Wed => 2,
            Weekday::Thu => 3,
            Weekday::Fri => 4,
            Weekday::Sat => 5,
            Weekday::Sun => 6,
        }
    }
}

/// Hours in which both weeks are available, summed over the seven days.
pub open spec fn week_overlap(a: Seq<Seq<bool>>, b: Seq<Seq<bool>>) -> nat {
    day_overlap(a[0], b[0]) + day_overlap(a[1], b[1]) + day_overlap(a[2], b[2]) + day_overlap(
        a[3],
        b[3],
    ) + day_overlap(a[4], b[4]) + day_overlap(a[5], b[5]) + day_overlap(a[6], b[6])
}

/// Available hours of a week, summed over the seven days.
pub open spec fn week_total(a: Seq<Seq<bool>>) -> nat {
    count_true(a[0]) + count_true(a[1]) + count_true(a[2]) + count_true(a[3]) + count_true(a[4])
        + count_true(a[5]) + count_true(a[6])
}

/// A week in which no hour is available.
pub open spec fn empty_week() -> Seq<Seq<bool>> {
    Seq::new(7, |d: int| Seq::new(24, |h: int| false))
}

/// The week `week` with the slot of `hour` on day `day` flipped.
pub open spec fn toggled_week(week: Seq<Seq<bool>>, day: int, hour: int) -> Seq<Seq<bool>> {
    week.update(day, week[day].update(hour, !week[day][hour]))
}

/// One day's schedule for each of the seven weekdays.
#[derive(Clone, Copy, Debug, PartialEq, Eq, Structural)]
pub struct WeekSchedule {
    pub mon: DaySchedule,
    pub tue: DaySchedule,
    pub wed: DaySchedule,
    pub thu: DaySchedule,
    pub fri: DaySchedule,
    pub sat: DaySchedule,
    pub sun: DaySchedule,
}

impl View for WeekSchedule {
    type V = Seq<Seq<bool>>;

    /// The seven days, Monday first, each as its 24 slots.
    open spec fn view(&self) -> Seq<Seq<bool>> {
        seq![self.mon@, self.tue@, self.wed@, self.thu@, self.fri@, self.sat@, self.sun@]
    }
}

impl WeekSchedule {
    /// The schedule of one weekday.
    pub open spec fn spec_day(self, day: Weekday) -> DaySchedule {
        match day {
            Weekday::Mon => self.mon,
            Weekday::Tue => self.tue,
            Weekday::Wed => self.wed,
            Weekday::Thu => self.thu,
            Weekday::Fri => self.fri,
            Weekday::Sat => self.sat,
            Weekday::Sun => self.sun,
        }
    }

    /// A week with no available hour.
    pub fn new() -> (week: WeekSchedule)
        ensures
            week@ == empty_week(),
    {
        let week = WeekSchedule {
            mon: DaySchedule::new(),
            tue: DaySchedule::new(),
            wed: DaySchedule::new(),
            thu: DaySchedule::new(),
            fri: DaySchedule::new(),
            sat: DaySchedule::new(),
            sun: DaySchedule::new(),
        };
        proof {
            assert(week@ =~= empty_week());
        }
        week
    }

    /// The schedule of one weekday.
    pub fn day(&self, day: Weekday) -> (d: DaySchedule)
        ensures
            d == self.spec_day(day),
            d@ == self@[day.index()],
    {
        match day {
            Weekday::Mon => self.mon,
            Weekday::Tue => self.tue,
            Weekday::Wed => self.wed,
            Weekday::Thu => self.thu,
            Weekday::Fri => self.fri,
            Weekday::Sat => self.sat,
            Weekday::Sun => self.sun,
        }
    }

    /// Flips the slot of `hour` on `day`, leaving every other slot of the
    /// week as it was. An hour outside `0..24` is rejected and the week stays
    /// unchanged.
    pub fn toggle(&mut self, day: Weekday, hour: usize) -> (res: Result<(), ScheduleError>)
        ensures
            hour < 24 ==> res == Ok::<(), ScheduleError>(()) && final(self)@ == toggled_week(
                old(self)@,
                day.index(),
                hour as int,
            ),
            hour >= 24 ==> res == Err::<(), ScheduleError>(ScheduleError::InvalidHourIndex)
                && *final(self) == *old(self),
    {
        let res = match day {
            Weekday::Mon => self.mon.toggle(hour),
            Weekday::Tue => self.tue.toggle(hour),
            Weekday::Wed => self.wed.toggle(hour),
            Weekday::Thu => self.thu.toggle(hour),
            Weekday::Fri => self.fri.toggle(hour),
            Weekday::Sat => self.sat.toggle(hour),
            Weekday::Sun => self.sun.toggle(hour),
        };
        proof {
            if hour < 24 {
                assert(self@ =~= toggled_week(old(self)@, day.index(), hour as int));
            }
        }
        res
    }

    /// Marks every hour of the week as unavailable.
    pub fn reset(&mut self)
        ensures
            final(self)@ == empty_week(),
    {
        *self = WeekSchedule::new();
    }

    /// Number of hours of the week in which both this schedule and `other`
    /// are available.
    pub fn week_overlap(&self, other: &WeekSchedule) -> (n: u32)
        ensures
            n == week_overlap(self@, other@),
            n <= 168,
    {
        self.mon.overlap_count(&other.mon) + self.tue.overlap_count(&other.tue)
            + self.wed.overlap_count(&other.wed) + self.thu.overlap_count(&other.thu)
            + self.fri.overlap_count(&other.fri) + self.sat.overlap_count(&other.sat)
            + self.sun.overlap_count(&other.sun)
    }

    /// Number of available hours of the week.
    pub fn total_available(&self) -> (n: u32)
        ensures
            n == week_total(self@),
            n <= 168,
    {
        self.mon.total_available() + self.tue.total_available() + self.wed.total_available()
            + self.thu.total_available() + self.fri.total_available()
            + self.sat.total_available() + self.sun.total_available()
    }
}

impl Default for WeekSchedule {
    fn default() -> (week: WeekSchedule)
        ensures
            week@ == empty_week(),
    {
        WeekSchedule::new()
    }
}

/// Two weeks overlap in the same hours whichever of them is asked.
pub proof fn lemma_week_overlap_symmetric(a: WeekSchedule, b: WeekSchedule)
    ensures
        week_overlap(a@, b@) == week_overlap(b@, a@),
{
    lemma_day_overlap_symmetric(a.mon, b.mon);
    lemma_day_overlap_symmetric(a.tue, b.tue);
    lemma_day_overlap_symmetric(a.wed, b.wed);
    lemma_day_overlap_symmetric(a.thu, b.thu);
    lemma_day_overlap_symmetric(a.fri, b.fri);
    lemma_day_overlap_symmetric(a.sat, b.sat);
    lemma_day_overlap_symmetric(a.sun, b.sun);
}

/// A week overlaps itself in exactly the hours it has available.
pub proof fn lemma_week_overlap_self(a: WeekSchedule)
    ensures
        week_overlap(a@, a@) == week_total(a@),
{
    lemma_day_overlap_self(a.mon);
    lemma_day_overlap_self(a.tue);
    lemma_day_overlap_self(a.wed);
    lemma_day_overlap_self(a.thu);
    lemma_day_overlap_self(a.fri);
    lemma_day_overlap_self(a.sat);
    lemma_day_overlap_self(a.sun);
}

/// Two weeks share at most the 168 hours of a week.
pub proof fn lemma_week_overlap_bound(a: WeekSchedule, b: WeekSchedule)
    ensures
        week_overlap(a@, b@) <= 168,
{
    lemma_count_true_bound(both(a.mon@, b.mon@));
    lemma_count_true_bound(both(a.tue@, b.tue@));
    lemma_count_true_bound(both(a.wed@, b.wed@));
    lemma_count_true_bound(both(a.thu@, b.thu@));
    lemma_count_true_bound(both(a.fri@, b.fri@));
    lemma_count_true_bound(both(a.sat@, b.sat@));
    lemma_count_true_bound(both(a.sun@, b.sun@));
}

/// When a user can be matched: never, or by a weekly schedule.
#[derive(Clone, Copy, Debug, PartialEq, Eq, Structural)]
pub enum Availability {
    /// The user takes no part in matching.
    Never,
    /// The user is available in the hours of this week.
    Weekly(WeekSchedule),
}

impl View for Availability {
    type V = Option<Seq<Seq<bool>>>;

    /// Nothing for a user who is never available, else the week.
    open spec fn view(&self) -> Option<Seq<Seq<bool>>> {
        match *self {
            Availability::Never => None,
            Availability::Weekly(week) => Some(week@),
        }
    }
}

impl Availability {
    /// The weekly schedule, if the user has one.
    pub open spec fn spec_effective_schedule(self) -> Option<WeekSchedule> {
        match self {
            Availability::Never => None,
            Availability::Weekly(week) => Some(week),
        }
    }

    /// The weekly schedule, if the user has one: `None` for `Never`, the week
    /// itself for `Weekly`.
    pub fn effective_schedule(&self) -> (week: Option<WeekSchedule>)
        ensures
            week == self.spec_effective_schedule(),
    {
        match self {
            Availability::Never => None,
            Availability::Weekly(week) => Some(*week),
        }
    }
}

} // verus!
