//! State of the table in which a user edits the weekly schedule.

use crate::schedule::{
    empty_week, toggled_week, Availability, ScheduleError, WeekSchedule, Weekday,
};
use vstd::prelude::*;

verus! {

/// What the user can do in the table.
#[derive(Clone, Copy, Debug, PartialEq, Eq, Structural)]
pub enum Msg {
    /// Start over with an empty weekly schedule.
    ResetSchedule,
    /// Flip the slot of this hour on this day.
    ToggleDayHour(Weekday, usize),
}

/// The table, with the schedule it shows.
#[derive(Clone, Copy, Debug, PartialEq, Eq, Structural)]
pub struct AvailabilityTable {
    pub schedule: Availability,
}

/// The schedule after `msg`, as long as `msg` is not turned down.
pub open spec fn spec_update(schedule: Option<Seq<Seq<bool>>>, msg: Msg) -> Option<
    Seq<Seq<bool>>,
> {
    match msg {
        Msg::ResetSchedule => Some(empty_week()),
        Msg::ToggleDayHour(day, hour) => match schedule {
            Some(week) => Some(toggled_week(week, day.index(), hour as int)),
            None => None,
        },
    }
}

/// Whether `msg` is turned down: it names an hour outside the day of a
/// weekly schedule.
pub open spec fn rejects(schedule: Availability, msg: Msg) -> bool {
    msg matches Msg::ToggleDayHour(_, hour) && hour >= 24 && schedule is Weekly
}

impl AvailabilityTable {
    /// A table that shows `schedule`.
    pub fn new(schedule: Availability) -> (table: AvailabilityTable)
        ensures
            table.schedule == schedule,
    {
        AvailabilityTable { schedule }
    }

    /// Takes in what the user did.
    ///
    /// Starting over puts an empty weekly schedule in place and reports
    /// nothing to the owner of the table. Toggling flips one slot of a weekly
    /// schedule, leaves a user who is never available as is, and in both
    /// cases reports the schedule as it then stands. An hour outside the day
    /// of a weekly schedule is rejected and changes nothing.
    pub fn update(&mut self, msg: Msg) -> (res: Result<Option<Availability>, ScheduleError>)
        ensures
            rejects(old(self).schedule, msg) ==> res == Err::<Option<Availability>, ScheduleError>(
                ScheduleError::InvalidHourIndex,
            ) && *final(self) == *old(self),
            !rejects(old(self).schedule, msg) ==> final(self).schedule@ == spec_update(
                old(self).schedule@,
                msg,
            ) && res == Ok::<Option<Availability>, ScheduleError>(
                match msg {
                    Msg::ResetSchedule => None,
                    Msg::ToggleDayHour(_, _) => Some(final(self).schedule),
                },
            ),
    {
        match msg {
            Msg::ResetSchedule => {
                self.schedule = Availability::Weekly(WeekSchedule::new());
                Ok(None)
            },
            Msg::ToggleDayHour(day, hour) => {
                match self.schedule {
                    Availability::Weekly(week) => {
                        let mut week = week;
                        match week.toggle(day, hour) {
                            Ok(()) => {
                                self.schedule = Availability::Weekly(week);
                            },
                            Err(e) => {
                                return Err(e);
                            },
                        }
                    },
                    Availability::Never => {},
                }
                Ok(Some(self.schedule))
            },
        }
    }
}

} // verus!
