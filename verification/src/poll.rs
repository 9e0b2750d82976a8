//! The dinner polls: which poll opens on which weekday, what it asks, and
//! the lifecycle that opens a poll, holds it and closes it.

use vstd::prelude::*;
use rand::Rng;
use crate::clock::ClockTime;

verus! {

/// The two polls of the dinner job.
#[derive(Clone, Copy, Debug, PartialEq, Eq, Structural)]
pub enum PollKind {
    /// Who joins for dinner tonight: Monday to Thursday.
    Attendance,
    /// Who cooks on which day of the coming week: Sunday.
    Schedule,
}

/// The poll that opens on a weekday, counted in days since Monday.
pub open spec fn poll_on_weekday(weekday: u32) -> Option<PollKind> {
    if weekday <= 3 {
        Some(PollKind::Attendance)
    } else if weekday == 6 {
        Some(PollKind::Schedule)
    } else {
        None
    }
}

/// The poll that opens on a weekday, counted in days since Monday.
pub fn poll_for_weekday(weekday: u32) -> (kind: Option<PollKind>)
    ensures
        kind == poll_on_weekday(weekday),
{
    if weekday <= 3 {
        Some(PollKind::Attendance)
    } else if weekday == 6 {
        Some(PollKind::Schedule)
    } else {
        None
    }
}

/// The time of day at which every cycle of the dinner job starts.
pub open spec fn morning() -> ClockTime {
    ClockTime::spec_new(8, 0, 0)
}

/// The time of day at which a poll of the given kind closes.
pub open spec fn closing_time(kind: PollKind) -> ClockTime {
    match kind {
        PollKind::Attendance => ClockTime::spec_new(16, 0, 0),
        PollKind::Schedule => ClockTime::spec_new(0, 0, 0),
    }
}

/// Where the dinner job stands.
#[derive(Clone, Copy, Debug, PartialEq, Eq, Structural)]
pub enum DinnerState {
    /// Asleep until the morning.
    Waiting,
    /// A poll of this kind was asked for; the answer is awaited.
    Opening(PollKind),
    /// A poll of this kind is open under this handle; asleep until it closes.
    Holding(PollKind, i32),
    /// The close of the poll was asked for; the answer is awaited.
    Closing,
}

/// What happened outside the dinner job.
#[derive(Clone, Copy, Debug, PartialEq, Eq, Structural)]
pub enum DinnerEvent {
    /// The sleep ended, on this weekday (days since Monday).
    Woke(u32),
    /// The poll was opened, under this handle.
    Opened(i32),
    /// The poll could not be opened.
    OpenFailed,
    /// The poll was closed.
    Closed,
    /// The poll could not be closed.
    CloseFailed,
}

/// What the dinner job asks to be done next.
#[derive(Clone, Copy, Debug, PartialEq, Eq, Structural)]
pub enum DinnerAction {
    /// Sleep until the next occurrence of this time of day.
    SleepUntil(ClockTime),
    /// Open a poll of this kind.
    OpenPoll(PollKind),
    /// Close the poll with this handle.
    ClosePoll(i32),
}

/// The state and the action that follow an event. An event that the state
/// does not await abandons the cycle: the job goes back to sleep until the
/// morning.
pub open spec fn next_step(state: DinnerState, event: DinnerEvent) -> (DinnerState, DinnerAction) {
    match (state, event) {
        (DinnerState::Waiting, DinnerEvent::Woke(weekday)) => match poll_on_weekday(weekday) {
            Some(kind) => (DinnerState::Opening(kind), DinnerAction::OpenPoll(kind)),
            None => (DinnerState::Waiting, DinnerAction::SleepUntil(morning())),
        },
        (DinnerState::Opening(kind), DinnerEvent::Opened(handle)) => (
            DinnerState::Holding(kind, handle),
            DinnerAction::SleepUntil(closing_time(kind)),
        ),
        (DinnerState::Holding(_, handle), DinnerEvent::Woke(_)) => (
            DinnerState::Closing,
            DinnerAction::ClosePoll(handle),
        ),
        _ => (DinnerState::Waiting, DinnerAction::SleepUntil(morning())),
    }
}

/// The state and the action with which the dinner job starts.
pub fn dinner_start() -> (r: (DinnerState, DinnerAction))
    ensures
        r == (DinnerState::Waiting, DinnerAction::SleepUntil(morning())),
{
    (DinnerState::Waiting, DinnerAction::SleepUntil(ClockTime::new(8, 0, 0)))
}

/// Takes the dinner job one step on: from a state and an event to the next
/// state and the action to perform.
pub fn dinner_step(state: DinnerState, event: DinnerEvent) -> (r: (DinnerState, DinnerAction))
    ensures
        r == next_step(state, event),
{
    match state {
        DinnerState::Waiting => {
            if let DinnerEvent::Woke(weekday) = event {
                if let Some(kind) = poll_for_weekday(weekday) {
                    return (DinnerState::Opening(kind), DinnerAction::OpenPoll(kind));
                }
            }
        },
        DinnerState::Opening(kind) => {
            if let DinnerEvent::Opened(handle) = event {
                let close_at = match kind {
                    PollKind::Attendance => ClockTime::new(16, 0, 0),
                    PollKind::Schedule => ClockTime::new(0, 0, 0),
                };
                return (DinnerState::Holding(kind, handle), DinnerAction::SleepUntil(close_at));
            }
        },
        DinnerState::Holding(_, handle) => {
            if let DinnerEvent::Woke(_) = event {
                return (DinnerState::Closing, DinnerAction::ClosePoll(handle));
            }
        },
        DinnerState::Closing => {},
    }
    (DinnerState::Waiting, DinnerAction::SleepUntil(ClockTime::new(8, 0, 0)))
}

/// The state that a run of events leads to, from a given state.
pub open spec fn state_after(state: DinnerState, events: Seq<DinnerEvent>) -> DinnerState
    decreases events.len(),
{
    if events.len() == 0 {
        state
    } else {
        next_step(state_after(state, events.drop_last()), events.last()).0
    }
}

/// The handle of the poll that is held in a state, if one is.
pub open spec fn held_handle(state: DinnerState) -> Option<i32> {
    match state {
        DinnerState::Holding(_, handle) => Some(handle),
        _ => None,
    }
}

/// A close is asked only for a poll that is held, and under its handle; a
/// poll is held only after the answer that it was opened, under the handle
/// that the answer gave.
pub proof fn lemma_close_follows_open(state: DinnerState, event: DinnerEvent, handle: i32)
    ensures
        next_step(state, event).1 == DinnerAction::ClosePoll(handle) ==> held_handle(state)
            == Some(handle) && event is Woke,
        held_handle(next_step(state, event).0) == Some(handle) ==> state is Opening && event
            == DinnerEvent::Opened(handle),
{
}

/// After a failed open the job sleeps until the morning, and whatever
/// happens next, no close is asked for.
pub proof fn lemma_failed_open_is_never_closed(state: DinnerState, next: DinnerEvent)
    ensures
        next_step(state, DinnerEvent::OpenFailed) == (
            DinnerState::Waiting,
            DinnerAction::SleepUntil(morning()),
        ),
        !(next_step(next_step(state, DinnerEvent::OpenFailed).0, next).1 is ClosePoll),
{
}

/// In a run of events that starts asleep, a close is asked for only on
/// waking from the sleep that followed a successful open: the event before
/// the wake-up is the answer that gave the handle, and the event before
/// that is the wake-up of the morning.
pub proof fn lemma_close_in_run(events: Seq<DinnerEvent>, handle: i32)
    requires
        events.len() > 0,
        next_step(state_after(DinnerState::Waiting, events.drop_last()), events.last()).1
            == DinnerAction::ClosePoll(handle),
    ensures
        events.len() >= 3,
        events[events.len() - 2] == DinnerEvent::Opened(handle),
        events[events.len() - 3] is Woke,
        events.last() is Woke,
{
    let before = events.drop_last();
    let held = state_after(DinnerState::Waiting, before);
    lemma_close_follows_open(held, events.last(), handle);
    assert(before.len() > 0);
    let opening = state_after(DinnerState::Waiting, before.drop_last());
    lemma_close_follows_open(opening, before.last(), handle);
    assert(before.last() == events[events.len() - 2]);
    let earlier = before.drop_last();
    assert(earlier.len() > 0);
    let asleep = state_after(DinnerState::Waiting, earlier.drop_last());
    assert(opening == next_step(asleep, earlier.last()).0);
    assert(earlier.last() == events[events.len() - 3]);
}

/// On a Friday and on a Saturday the job asks for no poll and goes back to
/// sleep. On a Sunday it opens the schedule poll, holds it until midnight
/// and closes that very poll. From Monday to Thursday it opens the
/// attendance poll and holds it until the afternoon.
pub proof fn lemma_weekday_cycles(handle: i32, woke_on: u32)
    ensures
        next_step(DinnerState::Waiting, DinnerEvent::Woke(4)) == (
            DinnerState::Waiting,
            DinnerAction::SleepUntil(morning()),
        ),
        next_step(DinnerState::Waiting, DinnerEvent::Woke(5)) == (
            DinnerState::Waiting,
            DinnerAction::SleepUntil(morning()),
        ),
        next_step(DinnerState::Waiting, DinnerEvent::Woke(6)) == (
            DinnerState::Opening(PollKind::Schedule),
            DinnerAction::OpenPoll(PollKind::Schedule),
        ),
        next_step(DinnerState::Opening(PollKind::Schedule), DinnerEvent::Opened(handle)) == (
            DinnerState::Holding(PollKind::Schedule, handle),
            DinnerAction::SleepUntil(ClockTime::spec_new(0, 0, 0)),
        ),
        next_step(DinnerState::Holding(PollKind::Schedule, handle), DinnerEvent::Woke(woke_on))
            == (DinnerState::Closing, DinnerAction::ClosePoll(handle)),
        woke_on <= 3 ==> next_step(DinnerState::Waiting, DinnerEvent::Woke(woke_on)) == (
            DinnerState::Opening(PollKind::Attendance),
            DinnerAction::OpenPoll(PollKind::Attendance),
        ),
        next_step(DinnerState::Opening(PollKind::Attendance), DinnerEvent::Opened(handle)) == (
            DinnerState::Holding(PollKind::Attendance, handle),
            DinnerAction::SleepUntil(ClockTime::spec_new(16, 0, 0)),
        ),
{
}

/// A poll as the notification sink takes it.
pub struct Poll {
    pub question: String,
    pub options: Vec<String>,
    pub anonymous: bool,
}

/// Number of emoji that an attendance poll's question chooses from.
pub const PALETTE_SIZE: usize = 12;

/// The emoji of the palette, by index.
pub open spec fn palette_text(index: int) -> Seq<char> {
    if index == 0 {
        "🍔"@
    } else if index == 1 {
        "🍕"@
    } else if index == 2 {
        "🌮"@
    } else if index == 3 {
        "🌯"@
    } else if index == 4 {
        "🥙"@
    } else if index == 5 {
        "🥘"@
    } else if index == 6 {
        "🍝"@
    } else if index == 7 {
        "🫕"@
    } else if index == 8 {
        "🥗"@
    } else if index == 9 {
        "🍲"@
    } else if index == 10 {
        "🍛"@
    } else {
        "🍜"@
    }
}

/// The emoji of the palette, by index.
pub fn palette_entry(index: usize) -> (emoji: &'static str)
    requires
        index < PALETTE_SIZE,
    ensures
        emoji@ == palette_text(index as int),
{
    if index == 0 {
        "🍔"
    } else if index == 1 {
        "🍕"
    } else if index == 2 {
        "🌮"
    } else if index == 3 {
        "🌯"
    } else if index == 4 {
        "🥙"
    } else if index == 5 {
        "🥘"
    } else if index == 6 {
        "🍝"
    } else if index == 7 {
        "🫕"
    } else if index == 8 {
        "🥗"
    } else if index == 9 {
        "🍲"
    } else if index == 10 {
        "🍛"
    } else {
        "🍜"
    }
}

/// The question of an attendance poll that shows the given emoji.
pub open spec fn attendance_question(emoji: Seq<char>) -> Seq<char> {
    "Who's joining for dinner tonight? "@ + emoji
        + "\nLet our cook know how many people to expect! 👩‍🍳"@
}

pub open spec fn attendance_options() -> Seq<Seq<char>> {
    seq!["I'll be there! 🍽"@, "I'll bring a friend! 🍽🍽"@, "Not tonight..."@]
}

pub open spec fn schedule_question() -> Seq<char> {
    "🗓 Let's define this week's dinner schedule!\nPick the day which fits you the best."@
}

pub open spec fn schedule_options() -> Seq<Seq<char>> {
    seq![
        "I'll cook on Monday! 🌻"@,
        "I'll cook on Tuesday! 🦦"@,
        "I'll cook on Wednsday! 🌈"@,
        "I'll cook on Thursday! 🐙"@,
        "I'd rather not cook this week. 👀"@,
    ]
}

/// The text of each option.
pub open spec fn option_texts(options: Seq<String>) -> Seq<Seq<char>> {
    options.map_values(|option: String| option@)
}

/// The attendance poll whose question shows the palette's emoji at `choice`.
pub fn attendance_poll(choice: usize) -> (poll: Poll)
    requires
        choice < PALETTE_SIZE,
    ensures
        poll.question@ == attendance_question(palette_text(choice as int)),
        option_texts(poll.options@) == attendance_options(),
        !poll.anonymous,
{
    let question = String::from_str("Who's joining for dinner tonight? ").concat(
        palette_entry(choice),
    ).concat("\nLet our cook know how many people to expect! 👩‍🍳");
    let mut options: Vec<String> = Vec::new();
    options.push(String::from_str("I'll be there! 🍽"));
    options.push(String::from_str("I'll bring a friend! 🍽🍽"));
    options.push(String::from_str("Not tonight..."));
    assert(option_texts(options@) =~= attendance_options());
    Poll { question, options, anonymous: false }
}

/// The weekly schedule poll.
pub fn schedule_poll() -> (poll: Poll)
    ensures
        poll.question@ == schedule_question(),
        option_texts(poll.options@) == schedule_options(),
        poll.options@.len() == 5,
        !poll.anonymous,
{
    let question = String::from_str(
        "🗓 Let's define this week's dinner schedule!\nPick the day which fits you the best.",
    );
    let mut options: Vec<String> = Vec::new();
    options.push(String::from_str("I'll cook on Monday! 🌻"));
    options.push(String::from_str("I'll cook on Tuesday! 🦦"));
    options.push(String::from_str("I'll cook on Wednsday! 🌈"));
    options.push(String::from_str("I'll cook on Thursday! 🐙"));
    options.push(String::from_str("I'd rather not cook this week. 👀"));
    assert(option_texts(options@) =~= schedule_options());
    Poll { question, options, anonymous: false }
}

/// The poll of the given kind; an attendance poll shows the palette's emoji
/// at `choice`.
pub fn poll_of_kind(kind: PollKind, choice: usize) -> (poll: Poll)
    requires
        choice < PALETTE_SIZE,
    ensures
        !poll.anonymous,
        kind == PollKind::Attendance ==> poll.question@ == attendance_question(
            palette_text(choice as int),
        ) && option_texts(poll.options@) == attendance_options(),
        kind == PollKind::Schedule ==> poll.question@ == schedule_question() && option_texts(
            poll.options@,
        ) == schedule_options(),
{
    match kind {
        PollKind::Attendance => attendance_poll(choice),
        PollKind::Schedule => schedule_poll(),
    }
}

/// Draws an index below `bound` from the thread's random number generator
/// (`rand::thread_rng`, `Rng::gen_range` on the range from 0 up to, not
/// including, `bound`). Which index comes is left open.
#[verifier::external_body]
fn random_below(bound: usize) -> (index: usize)
    requires
        bound > 0,
    ensures
        index < bound,
{
    rand::thread_rng().gen_range(0..bound)
}

/// The poll of the given kind, an attendance poll with an emoji of the
/// palette drawn at random.
pub fn draw_poll(kind: PollKind) -> (poll: Poll)
    ensures
        !poll.anonymous,
        kind == PollKind::Attendance ==> exists|choice: int|
            0 <= choice < PALETTE_SIZE && poll.question@ == attendance_question(
                #[trigger] palette_text(choice),
            ) && option_texts(poll.options@) == attendance_options(),
        kind == PollKind::Schedule ==> poll.question@ == schedule_question() && option_texts(
            poll.options@,
        ) == schedule_options(),
{
    let choice = random_below(PALETTE_SIZE);
    let poll = poll_of_kind(kind, choice);
    assert(kind == PollKind::Attendance ==> poll.question@ == attendance_question(
        palette_text(choice as int),
    ));
    poll
}

} // verus!
