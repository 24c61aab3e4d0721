use devand::affinities::{fetch_msg, Msg as PageMsg, State};
use devand::affinity::UserAffinity;
use devand::availability_table::{AvailabilityTable, Msg as TableMsg};
use devand::chat::{Chat, ChatId, ChatMessage, Chats};
use devand::mailer::{Client, ClientConf};
use devand::schedule::{Availability, DaySchedule, ScheduleError, WeekSchedule, Weekday};
use devand::user::UserId;

fn some_affinities() -> Vec<UserAffinity> {
    vec![
        UserAffinity { user: UserId(2), affinity: 5 },
        UserAffinity { user: UserId(3), affinity: 1 },
    ]
}

#[test]
fn page_starts_loading() {
    assert_eq!(State::new().affinities(), None);
    assert_eq!(State::default().affinities(), None);
}

#[test]
fn page_takes_in_fetched_affinities() {
    let mut state = State::new();
    assert!(state.update(PageMsg::AffinitiesFetchOk(some_affinities())));
    assert_eq!(state.affinities(), Some(&some_affinities()));
    assert!(state.update(PageMsg::AffinitiesFetchOk(Vec::new())));
    assert_eq!(state.affinities(), Some(&Vec::new()));
}

#[test]
fn page_keeps_its_state_when_fetching_fails() {
    let mut state = State::new();
    assert!(state.update(PageMsg::AffinitiesFetchErr));
    assert_eq!(state.affinities(), None);
    state.update(PageMsg::AffinitiesFetchOk(some_affinities()));
    assert!(state.update(PageMsg::AffinitiesFetchErr));
    assert_eq!(state.affinities(), Some(&some_affinities()));
}

#[test]
fn fetch_msg_tells_success_from_failure() {
    let ok: Result<Vec<UserAffinity>, String> = Ok(some_affinities());
    assert!(matches!(fetch_msg(ok), PageMsg::AffinitiesFetchOk(list) if list == some_affinities()));
    let err: Result<Vec<UserAffinity>, String> = Err(String::from("no"));
    assert!(matches!(fetch_msg(err), PageMsg::AffinitiesFetchErr));
}

#[test]
fn table_reset_puts_an_empty_week_in_place() {
    let mut table = AvailabilityTable::new(Availability::Never);
    assert_eq!(table.update(TableMsg::ResetSchedule), Ok(None));
    assert_eq!(table.schedule, Availability::Weekly(WeekSchedule::new()));

    let mut week = WeekSchedule::new();
    week.toggle(Weekday::Mon, 3).unwrap();
    let mut table = AvailabilityTable::new(Availability::Weekly(week));
    assert_eq!(table.update(TableMsg::ResetSchedule), Ok(None));
    assert_eq!(table.schedule, Availability::Weekly(WeekSchedule::default()));
}

#[test]
fn table_toggle_flips_the_slot_and_reports_the_schedule() {
    let mut table = AvailabilityTable::new(Availability::Weekly(WeekSchedule::new()));
    let mut expected = WeekSchedule::new();
    expected.toggle(Weekday::Sat, 21).unwrap();
    assert_eq!(
        table.update(TableMsg::ToggleDayHour(Weekday::Sat, 21)),
        Ok(Some(Availability::Weekly(expected)))
    );
    assert_eq!(table.schedule, Availability::Weekly(expected));
    assert_eq!(
        table.update(TableMsg::ToggleDayHour(Weekday::Sat, 21)),
        Ok(Some(Availability::Weekly(WeekSchedule::new())))
    );
    assert_eq!(table.schedule, Availability::Weekly(WeekSchedule::new()));
}

#[test]
fn table_toggle_on_never_reports_never() {
    let mut table = AvailabilityTable::new(Availability::Never);
    assert_eq!(
        table.update(TableMsg::ToggleDayHour(Weekday::Mon, 0)),
        Ok(Some(Availability::Never))
    );
    assert_eq!(table.schedule, Availability::Never);
    assert_eq!(
        table.update(TableMsg::ToggleDayHour(Weekday::Mon, 99)),
        Ok(Some(Availability::Never))
    );
    assert_eq!(table.schedule, Availability::Never);
}

#[test]
fn table_toggle_rejects_hour_outside_the_day() {
    let mut week = WeekSchedule::new();
    week.toggle(Weekday::Tue, 8).unwrap();
    let mut table = AvailabilityTable::new(Availability::Weekly(week));
    assert_eq!(
        table.update(TableMsg::ToggleDayHour(Weekday::Tue, 24)),
        Err(ScheduleError::InvalidHourIndex)
    );
    assert_eq!(table.schedule, Availability::Weekly(week));
    assert_eq!(week.tue.total_available(), 1);
    assert_eq!(week.mon, DaySchedule::new());
}

#[test]
fn client_keeps_the_configured_url() {
    let client = Client::new(ClientConf { url: String::from("http://127.0.0.1:3030") });
    assert_eq!(client.url(), "http://127.0.0.1:3030");
    let client = Client::new(ClientConf { url: String::new() });
    assert_eq!(client.url(), "");
}

#[test]
fn chats_start_empty() {
    assert!(Chats::default().0.is_empty());
}

#[test]
fn chat_holds_its_members() {
    let chat = Chat { id: ChatId(4), members: vec![UserId(1), UserId(2)] };
    let copy = chat.clone();
    assert_eq!(copy.id, ChatId(4));
    assert_eq!(copy.members, vec![UserId(1), UserId(2)]);
    let message = ChatMessage {
        id: 1,
        created_at: 1_600_000_000,
        author: UserId(2),
        txt: String::from("hello"),
    };
    assert_eq!(message.clone().txt, "hello");
    assert_eq!(message.author, UserId(2));
}
