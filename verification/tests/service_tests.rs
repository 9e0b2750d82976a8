use caseus_foratus_helveticus::poll::{DinnerAction, DinnerEvent, DinnerState, PollKind};
use caseus_foratus_helveticus::{CalendarDate, ClockTime, DinnerService, ReminderService, Service};

fn reminder() -> ReminderService {
    ReminderService::new(
        77,
        "<b>Tomorrow is paper collection day!</b>".to_string(),
        "dates/paper-dates.txt".to_string(),
        ClockTime::new(20, 0, 0),
    )
}

#[test]
fn reminder_keeps_its_configuration() {
    let job = reminder();
    assert_eq!(job.chat_id(), 77);
    assert_eq!(job.message(), "<b>Tomorrow is paper collection day!</b>");
    assert_eq!(job.dates_filename(), "dates/paper-dates.txt");
    assert_eq!(job.clock_time(), ClockTime::new(20, 0, 0));
    assert_eq!(job.wake_time(), ClockTime::new(20, 0, 0));
}

#[test]
fn reminder_sends_its_message_for_each_due_line() {
    let today = CalendarDate { year: 2099, month: 1, day: 1 };
    let store: Vec<String> =
        ["01.01.2099", "garbage", "01.01.2000", "02.01.2099", "1.1.2099"].iter().map(|l| l.to_string()).collect();
    let plan = reminder().plan_cycle(&store, &today);
    assert_eq!(plan.store, vec!["02.01.2099".to_string()]);
    assert_eq!(plan.malformed, vec!["garbage".to_string()]);
    assert_eq!(plan.notifications, vec!["<b>Tomorrow is paper collection day!</b>".to_string(); 2]);
}

#[test]
fn reminder_with_an_empty_store_does_nothing() {
    let today = CalendarDate { year: 2099, month: 1, day: 1 };
    let plan = reminder().plan_cycle(&Vec::new(), &today);
    assert!(plan.store.is_empty());
    assert!(plan.notifications.is_empty());
    assert!(plan.malformed.is_empty());
}

#[test]
fn dinner_job_wakes_at_eight_and_follows_the_lifecycle() {
    let job = DinnerService::new(5);
    assert_eq!(job.chat_id(), 5);
    assert_eq!(job.wake_time(), ClockTime::new(8, 0, 0));
    let (state, action) = job.start();
    assert_eq!(action, DinnerAction::SleepUntil(ClockTime::new(8, 0, 0)));
    let (state, action) = job.step(state, DinnerEvent::Woke(6));
    assert_eq!(action, DinnerAction::OpenPoll(PollKind::Schedule));
    assert_eq!(job.poll(PollKind::Schedule).options.len(), 5);
    assert_eq!(job.poll(PollKind::Attendance).options.len(), 3);
    let (state, action) = job.step(state, DinnerEvent::OpenFailed);
    assert_eq!(state, DinnerState::Waiting);
    assert_eq!(action, DinnerAction::SleepUntil(ClockTime::new(8, 0, 0)));
}
