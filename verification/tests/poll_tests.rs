use caseus_foratus_helveticus::poll::{
    attendance_poll, dinner_start, dinner_step, draw_poll, palette_entry, poll_for_weekday,
    schedule_poll, DinnerAction, DinnerEvent, DinnerState, PollKind, PALETTE_SIZE,
};
use caseus_foratus_helveticus::ClockTime;

fn sleep_until_morning() -> (DinnerState, DinnerAction) {
    (DinnerState::Waiting, DinnerAction::SleepUntil(ClockTime::new(8, 0, 0)))
}

#[test]
fn job_starts_asleep_until_the_morning() {
    assert_eq!(dinner_start(), sleep_until_morning());
}

#[test]
fn weekdays_map_to_their_polls() {
    for weekday in 0..=3 {
        assert_eq!(poll_for_weekday(weekday), Some(PollKind::Attendance));
    }
    assert_eq!(poll_for_weekday(4), None);
    assert_eq!(poll_for_weekday(5), None);
    assert_eq!(poll_for_weekday(6), Some(PollKind::Schedule));
    assert_eq!(poll_for_weekday(7), None);
}

#[test]
fn friday_and_saturday_open_and_close_nothing() {
    assert_eq!(dinner_step(DinnerState::Waiting, DinnerEvent::Woke(4)), sleep_until_morning());
    assert_eq!(dinner_step(DinnerState::Waiting, DinnerEvent::Woke(5)), sleep_until_morning());
}

#[test]
fn sunday_opens_the_schedule_poll_and_closes_it_at_midnight() {
    let (state, action) = dinner_step(DinnerState::Waiting, DinnerEvent::Woke(6));
    assert_eq!(action, DinnerAction::OpenPoll(PollKind::Schedule));
    assert_eq!(draw_poll(PollKind::Schedule).options.len(), 5);
    let (state, action) = dinner_step(state, DinnerEvent::Opened(41));
    assert_eq!(state, DinnerState::Holding(PollKind::Schedule, 41));
    assert_eq!(action, DinnerAction::SleepUntil(ClockTime::new(0, 0, 0)));
    let (state, action) = dinner_step(state, DinnerEvent::Woke(0));
    assert_eq!(action, DinnerAction::ClosePoll(41));
    assert_eq!(dinner_step(state, DinnerEvent::Closed), sleep_until_morning());
}

#[test]
fn weekday_opens_the_attendance_poll_and_closes_it_in_the_afternoon() {
    let (state, action) = dinner_step(DinnerState::Waiting, DinnerEvent::Woke(2));
    assert_eq!(state, DinnerState::Opening(PollKind::Attendance));
    assert_eq!(action, DinnerAction::OpenPoll(PollKind::Attendance));
    let (state, action) = dinner_step(state, DinnerEvent::Opened(-7));
    assert_eq!(action, DinnerAction::SleepUntil(ClockTime::new(16, 0, 0)));
    let (state, action) = dinner_step(state, DinnerEvent::Woke(2));
    assert_eq!(state, DinnerState::Closing);
    assert_eq!(action, DinnerAction::ClosePoll(-7));
    assert_eq!(dinner_step(state, DinnerEvent::CloseFailed), sleep_until_morning());
}

#[test]
fn failed_open_is_never_closed() {
    let (state, _) = dinner_step(DinnerState::Waiting, DinnerEvent::Woke(0));
    let (state, action) = dinner_step(state, DinnerEvent::OpenFailed);
    assert_eq!((state, action), sleep_until_morning());
    let events = [
        DinnerEvent::Woke(0),
        DinnerEvent::Woke(5),
        DinnerEvent::Opened(3),
        DinnerEvent::OpenFailed,
        DinnerEvent::Closed,
        DinnerEvent::CloseFailed,
    ];
    for event in events.iter() {
        let (_, action) = dinner_step(state, *event);
        assert!(!matches!(action, DinnerAction::ClosePoll(_)));
    }
}

#[test]
fn unexpected_events_abandon_the_cycle() {
    assert_eq!(dinner_step(DinnerState::Waiting, DinnerEvent::Opened(1)), sleep_until_morning());
    assert_eq!(dinner_step(DinnerState::Opening(PollKind::Schedule), DinnerEvent::Woke(6)), sleep_until_morning());
    assert_eq!(dinner_step(DinnerState::Holding(PollKind::Schedule, 9), DinnerEvent::Closed), sleep_until_morning());
    assert_eq!(dinner_step(DinnerState::Closing, DinnerEvent::Woke(1)), sleep_until_morning());
}

#[test]
fn attendance_poll_shows_the_chosen_emoji() {
    let poll = attendance_poll(1);
    assert_eq!(
        poll.question,
        "Who's joining for dinner tonight? 🍕\nLet our cook know how many people to expect! 👩‍🍳"
    );
    assert_eq!(
        poll.options,
        vec!["I'll be there! 🍽".to_string(), "I'll bring a friend! 🍽🍽".to_string(), "Not tonight...".to_string()]
    );
    assert!(!poll.anonymous);
}

#[test]
fn palette_holds_twelve_emoji() {
    let expected = ["🍔", "🍕", "🌮", "🌯", "🥙", "🥘", "🍝", "🫕", "🥗", "🍲", "🍛", "🍜"];
    assert_eq!(PALETTE_SIZE, 12);
    for index in 0..PALETTE_SIZE {
        assert_eq!(palette_entry(index), expected[index]);
    }
}

#[test]
fn schedule_poll_has_its_five_options() {
    let poll = schedule_poll();
    assert_eq!(
        poll.question,
        "🗓 Let's define this week's dinner schedule!\nPick the day which fits you the best."
    );
    assert_eq!(
        poll.options,
        vec![
            "I'll cook on Monday! 🌻".to_string(),
            "I'll cook on Tuesday! 🦦".to_string(),
            "I'll cook on Wednsday! 🌈".to_string(),
            "I'll cook on Thursday! 🐙".to_string(),
            "I'd rather not cook this week. 👀".to_string(),
        ]
    );
    assert!(!poll.anonymous);
}

#[test]
fn drawn_attendance_poll_shows_an_emoji_of_the_palette() {
    for _ in 0..50 {
        let poll = draw_poll(PollKind::Attendance);
        let found = (0..PALETTE_SIZE).any(|index| poll.question == attendance_poll(index).question);
        assert!(found);
        assert_eq!(poll.options.len(), 3);
        assert!(!poll.anonymous);
    }
}
