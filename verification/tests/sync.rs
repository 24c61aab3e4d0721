use devand::schedule::{Availability, WeekSchedule, Weekday};
use devand::sync::{Action, Event, Phase, SyncController, DEBOUNCE_MS};

fn edit_value(hour: usize) -> Availability {
    let mut week = WeekSchedule::new();
    week.toggle(Weekday::Mon, hour).unwrap();
    Availability::Weekly(week)
}

/// A host with a clock: it keeps the one armed timer and the writes that
/// went out, each with the time at which it went out.
struct Host {
    controller: SyncController,
    now: u64,
    deadline: Option<u64>,
    writes: Vec<(u64, Availability)>,
}

impl Host {
    fn new() -> Host {
        Host { controller: SyncController::new(), now: 0, deadline: None, writes: Vec::new() }
    }

    fn perform(&mut self, action: Action) {
        match action {
            Action::Nothing => {}
            Action::ArmTimer(delay) => self.deadline = Some(self.now + u64::from(delay)),
            Action::Write(value) => self.writes.push((self.now, value)),
        }
    }

    fn edit(&mut self, value: Availability) {
        let action = self.controller.edit(value);
        self.perform(action);
    }

    fn advance_to(&mut self, time: u64) {
        if let Some(deadline) = self.deadline {
            if deadline <= time {
                self.now = deadline;
                self.deadline = None;
                let action = self.controller.timer_fired();
                self.perform(action);
            }
        }
        self.now = time;
    }

    fn complete(&mut self, success: bool) {
        let action = self.controller.write_completed(success);
        self.perform(action);
    }
}

#[test]
fn debounce_delay_is_two_seconds() {
    assert_eq!(DEBOUNCE_MS, 2000);
}

#[test]
fn new_controller_is_idle_and_clean() {
    let controller = SyncController::new();
    assert!(!controller.is_dirty());
    assert_eq!(controller.phase(), Phase::Idle);
    assert_eq!(controller.pending(), None);
    assert_eq!(controller.unsaved_changes_warning(), None);
}

#[test]
fn edit_arms_the_timer_and_marks_dirty() {
    let mut controller = SyncController::new();
    assert_eq!(controller.edit(edit_value(1)), Action::ArmTimer(2000));
    assert!(controller.is_dirty());
    assert_eq!(controller.phase(), Phase::Pending);
    assert_eq!(controller.pending(), Some(edit_value(1)));
}

#[test]
fn burst_of_three_edits_writes_the_last_once() {
    let (e1, e2, e3) = (edit_value(1), edit_value(2), edit_value(3));
    let mut controller = SyncController::new();
    assert_eq!(controller.edit(e1), Action::ArmTimer(2000));
    assert!(controller.is_dirty());
    assert_eq!(controller.edit(e2), Action::ArmTimer(2000));
    assert!(controller.is_dirty());
    assert_eq!(controller.edit(e3), Action::ArmTimer(2000));
    assert!(controller.is_dirty());
    assert_eq!(controller.timer_fired(), Action::Write(e3));
    assert!(controller.is_dirty());
    assert_eq!(controller.phase(), Phase::Flushing);
    assert_eq!(controller.write_completed(true), Action::Nothing);
    assert!(!controller.is_dirty());
    assert_eq!(controller.phase(), Phase::Idle);
    assert_eq!(controller.timer_fired(), Action::Nothing);
    assert_eq!(controller.flush_now(), Action::Nothing);
}

#[test]
fn failed_flush_stays_dirty_and_is_not_retried() {
    let e1 = edit_value(4);
    let mut controller = SyncController::new();
    controller.edit(e1);
    assert_eq!(controller.timer_fired(), Action::Write(e1));
    assert_eq!(controller.write_completed(false), Action::Nothing);
    assert!(controller.is_dirty());
    assert_eq!(controller.phase(), Phase::Idle);
    assert_eq!(controller.pending(), Some(e1));
    assert_eq!(controller.timer_fired(), Action::Nothing);
    assert_eq!(controller.write_completed(true), Action::Nothing);
    assert_eq!(controller.write_completed(false), Action::Nothing);
    assert!(controller.is_dirty());
    assert_eq!(
        controller.unsaved_changes_warning(),
        Some("Changes you made may not be saved.")
    );
}

#[test]
fn failed_flush_is_retried_by_flush_now() {
    let e1 = edit_value(4);
    let mut controller = SyncController::new();
    controller.edit(e1);
    controller.timer_fired();
    controller.write_completed(false);
    assert_eq!(controller.flush_now(), Action::Write(e1));
    assert!(controller.is_dirty());
    assert_eq!(controller.write_completed(true), Action::Nothing);
    assert!(!controller.is_dirty());
}

#[test]
fn failed_flush_is_retried_by_the_next_edit() {
    let (e1, e2) = (edit_value(4), edit_value(5));
    let mut controller = SyncController::new();
    controller.edit(e1);
    controller.timer_fired();
    controller.write_completed(false);
    assert_eq!(controller.edit(e2), Action::ArmTimer(2000));
    assert_eq!(controller.timer_fired(), Action::Write(e2));
    assert_eq!(controller.write_completed(true), Action::Nothing);
    assert!(!controller.is_dirty());
}

#[test]
fn two_edits_500_ms_apart_write_once_after_the_second() {
    let (first, second) = (edit_value(9), edit_value(10));
    let mut host = Host::new();
    host.edit(first);
    assert!(host.controller.is_dirty());
    host.advance_to(500);
    host.edit(second);
    host.advance_to(2000);
    assert_eq!(host.writes, Vec::new());
    host.advance_to(2499);
    assert_eq!(host.writes, Vec::new());
    assert!(host.controller.is_dirty());
    host.advance_to(2500);
    assert_eq!(host.writes, vec![(2500, second)]);
    host.complete(true);
    host.advance_to(10_000);
    assert_eq!(host.writes, vec![(2500, second)]);
    assert!(!host.controller.is_dirty());
}

#[test]
fn edit_while_flushing_waits_for_its_own_window() {
    let (e1, e2) = (edit_value(1), edit_value(2));
    let mut controller = SyncController::new();
    controller.edit(e1);
    assert_eq!(controller.timer_fired(), Action::Write(e1));
    assert_eq!(controller.edit(e2), Action::ArmTimer(2000));
    assert_eq!(controller.phase(), Phase::Pending);
    assert_eq!(controller.write_completed(true), Action::Nothing);
    assert!(controller.is_dirty());
    assert_eq!(controller.pending(), Some(e2));
    assert_eq!(controller.timer_fired(), Action::Write(e2));
    assert_eq!(controller.write_completed(true), Action::Nothing);
    assert!(!controller.is_dirty());
}

#[test]
fn window_closing_behind_a_write_waits_for_that_write() {
    let (e1, e2) = (edit_value(1), edit_value(2));
    let mut controller = SyncController::new();
    controller.edit(e1);
    assert_eq!(controller.timer_fired(), Action::Write(e1));
    controller.edit(e2);
    assert_eq!(controller.timer_fired(), Action::Nothing);
    assert_eq!(controller.phase(), Phase::Pending);
    assert!(controller.is_dirty());
    assert_eq!(controller.write_completed(false), Action::Write(e2));
    assert_eq!(controller.phase(), Phase::Flushing);
    assert_eq!(controller.write_completed(true), Action::Nothing);
    assert!(!controller.is_dirty());
    assert_eq!(controller.phase(), Phase::Idle);
}

#[test]
fn flush_now_writes_without_waiting() {
    let e1 = edit_value(7);
    let mut controller = SyncController::new();
    assert_eq!(controller.flush_now(), Action::Nothing);
    controller.edit(e1);
    assert_eq!(controller.flush_now(), Action::Write(e1));
    assert_eq!(controller.phase(), Phase::Flushing);
    assert_eq!(controller.timer_fired(), Action::Nothing);
    assert_eq!(controller.flush_now(), Action::Nothing);
    assert_eq!(controller.write_completed(true), Action::Nothing);
    assert!(!controller.is_dirty());
}

#[test]
fn flush_now_behind_a_write_goes_out_when_that_write_ends() {
    let (e1, e2) = (edit_value(1), edit_value(2));
    let mut controller = SyncController::new();
    controller.edit(e1);
    controller.timer_fired();
    controller.edit(e2);
    assert_eq!(controller.flush_now(), Action::Nothing);
    assert_eq!(controller.timer_fired(), Action::Nothing);
    assert_eq!(controller.write_completed(true), Action::Write(e2));
    assert!(controller.is_dirty());
}

#[test]
fn discard_gives_up_the_pending_edit() {
    let e1 = edit_value(3);
    let mut controller = SyncController::new();
    controller.edit(e1);
    controller.discard();
    assert!(!controller.is_dirty());
    assert_eq!(controller.phase(), Phase::Idle);
    assert_eq!(controller.timer_fired(), Action::Nothing);
    assert_eq!(controller.flush_now(), Action::Nothing);

    controller.edit(e1);
    controller.timer_fired();
    controller.write_completed(false);
    assert!(controller.is_dirty());
    controller.discard();
    assert!(!controller.is_dirty());
    assert_eq!(controller.unsaved_changes_warning(), None);
}

#[test]
fn completion_without_a_write_changes_nothing() {
    let e1 = edit_value(3);
    let mut controller = SyncController::new();
    assert_eq!(controller.write_completed(true), Action::Nothing);
    controller.edit(e1);
    assert_eq!(controller.write_completed(true), Action::Nothing);
    assert!(controller.is_dirty());
    assert_eq!(controller.phase(), Phase::Pending);
    assert_eq!(controller.timer_fired(), Action::Write(e1));
}

#[test]
fn warning_is_shown_while_dirty() {
    let mut controller = SyncController::new();
    assert_eq!(controller.unsaved_changes_warning(), None);
    controller.edit(Availability::Never);
    assert_eq!(
        controller.unsaved_changes_warning(),
        Some("Changes you made may not be saved.")
    );
    controller.timer_fired();
    assert_eq!(
        controller.unsaved_changes_warning(),
        Some("Changes you made may not be saved.")
    );
    controller.write_completed(true);
    assert_eq!(controller.unsaved_changes_warning(), None);
}

#[test]
fn handle_answers_as_the_named_operations_do() {
    let (e1, e2) = (edit_value(1), edit_value(2));
    let mut controller = SyncController::new();
    assert_eq!(controller.handle(Event::Edit(e1)), Action::ArmTimer(2000));
    assert_eq!(controller.handle(Event::Edit(e2)), Action::ArmTimer(2000));
    assert_eq!(controller.handle(Event::TimerFired), Action::Write(e2));
    assert_eq!(controller.handle(Event::WriteCompleted(false)), Action::Nothing);
    assert!(controller.is_dirty());
    assert_eq!(controller.handle(Event::FlushNow), Action::Write(e2));
    assert_eq!(controller.handle(Event::WriteCompleted(true)), Action::Nothing);
    assert!(!controller.is_dirty());
    assert_eq!(controller.handle(Event::Edit(e1)), Action::ArmTimer(2000));
    assert_eq!(controller.handle(Event::Discard), Action::Nothing);
    assert!(!controller.is_dirty());
    assert_eq!(controller.phase(), Phase::Idle);
}
