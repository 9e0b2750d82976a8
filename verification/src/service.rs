//! The recurring jobs: each wakes once a day at its own time of day and
//! decides what is to be sent.

use vstd::prelude::*;
use crate::clock::ClockTime;
use crate::dates::CalendarDate;
use crate::greeting::{Greeting, greeting_of, greeting_text, json_member_rendering,
    json_member_string, payload_is_complete, read_payload, url_parses};
use crate::poll::{DinnerAction, DinnerEvent, DinnerState, Poll, PollKind, attendance_options,
    attendance_question, dinner_start, dinner_step, draw_poll, morning, next_step, option_texts,
    palette_text, schedule_options, schedule_question, PALETTE_SIZE};
use crate::store::{LineOutcome, compact, line_outcome, lines_with_outcome, texts};

verus! {

/// What every recurring job has: the time of day at which its cycle starts.
pub trait Service {
    /// The job was built from valid parts.
    spec fn wf(&self) -> bool;

    spec fn spec_wake_time(&self) -> ClockTime;

    /// The time of day at which each cycle of the job starts.
    fn wake_time(&self) -> (t: ClockTime)
        requires
            self.wf(),
        ensures
            t.wf(),
            t == self.spec_wake_time(),
    ;
}

/// The job that greets the chat every morning with the picture of the day.
pub struct GreeterService {
    chat_id: i64,
}

impl GreeterService {
    pub closed spec fn spec_chat_id(&self) -> i64 {
        self.chat_id
    }

    pub fn new(chat_id: i64) -> (job: Self)
        ensures
            job.spec_chat_id() == chat_id,
    {
        Self { chat_id }
    }

    pub fn chat_id(&self) -> (id: i64)
        ensures
            id == self.spec_chat_id(),
    {
        self.chat_id
    }

    /// The greeting for the text that the content source sent; nothing where
    /// the text lacks a member that the greeting needs, or where the
    /// picture's address does not read as a URL.
    pub fn greeting(&self, body: &str) -> (greeting: Option<Greeting>)
        ensures
            greeting.is_some() <==> payload_is_complete(body@) && url_parses(
                json_member_string(body@, "hdurl"@).unwrap(),
            ),
            greeting.is_some() ==> greeting.unwrap().image_url@ == json_member_string(
                body@,
                "hdurl"@,
            ).unwrap() && greeting.unwrap().message@ == greeting_text(
                json_member_rendering(body@, "title"@).unwrap(),
                json_member_rendering(body@, "explanation"@).unwrap(),
            ),
    {
        match read_payload(body) {
            Some(payload) => greeting_of(payload),
            None => None,
        }
    }
}

impl Service for GreeterService {
    open spec fn wf(&self) -> bool {
        true
    }

    open spec fn spec_wake_time(&self) -> ClockTime {
        ClockTime::spec_new(7, 0, 0)
    }

    fn wake_time(&self) -> (t: ClockTime) {
        ClockTime::new(7, 0, 0)
    }
}

/// The job that runs the dinner polls.
pub struct DinnerService {
    chat_id: i64,
}

impl DinnerService {
    pub closed spec fn spec_chat_id(&self) -> i64 {
        self.chat_id
    }

    pub fn new(chat_id: i64) -> (job: Self)
        ensures
            job.spec_chat_id() == chat_id,
    {
        Self { chat_id }
    }

    pub fn chat_id(&self) -> (id: i64)
        ensures
            id == self.spec_chat_id(),
    {
        self.chat_id
    }

    /// The state and the action with which the job starts.
    pub fn start(&self) -> (r: (DinnerState, DinnerAction))
        ensures
            r == (DinnerState::Waiting, DinnerAction::SleepUntil(morning())),
    {
        dinner_start()
    }

    /// The state and the action that follow an event.
    pub fn step(&self, state: DinnerState, event: DinnerEvent) -> (r: (DinnerState, DinnerAction))
        ensures
            r == next_step(state, event),
    {
        dinner_step(state, event)
    }

    /// The poll to open for an action that asks for one.
    pub fn poll(&self, kind: PollKind) -> (poll: Poll)
        ensures
            !poll.anonymous,
            kind == PollKind::Attendance ==> exists|choice: int|
                0 <= choice < PALETTE_SIZE && poll.question@ == attendance_question(
                    #[trigger] palette_text(choice),
                ) && option_texts(poll.options@) == attendance_options(),
            kind == PollKind::Schedule ==> poll.question@ == schedule_question() && option_texts(
                poll.options@,
            ) == schedule_options(),
    {
        draw_poll(kind)
    }
}

impl Service for DinnerService {
    open spec fn wf(&self) -> bool {
        true
    }

    open spec fn spec_wake_time(&self) -> ClockTime {
        morning()
    }

    fn wake_time(&self) -> (t: ClockTime) {
        ClockTime::new(8, 0, 0)
    }
}

/// The job that reminds the chat of the days in its date store.
pub struct ReminderService {
    chat_id: i64,
    message: String,
    dates_filename: String,
    clock_time: ClockTime,
}

/// What one cycle of a reminder job does.
pub struct ReminderPlan {
    /// The lines to write back to the store, in this order.
    pub store: Vec<String>,
    /// The messages to send, one for each line that names today.
    pub notifications: Vec<String>,
    /// The lines that name no day and are written back no more.
    pub malformed: Vec<String>,
}

impl ReminderService {
    pub closed spec fn spec_chat_id(&self) -> i64 {
        self.chat_id
    }

    pub closed spec fn spec_message(&self) -> Seq<char> {
        self.message@
    }

    pub closed spec fn spec_dates_filename(&self) -> Seq<char> {
        self.dates_filename@
    }

    pub closed spec fn spec_clock_time(&self) -> ClockTime {
        self.clock_time
    }

    pub fn new(
        chat_id: i64,
        message: String,
        dates_filename: String,
        clock_time: ClockTime,
    ) -> (job: Self)
        ensures
            job.spec_chat_id() == chat_id,
            job.spec_message() == message@,
            job.spec_dates_filename() == dates_filename@,
            job.spec_clock_time() == clock_time,
            job.spec_wake_time() == clock_time,
            job.wf() == clock_time.wf(),
    {
        Self { chat_id, message, dates_filename, clock_time }
    }

    pub fn chat_id(&self) -> (id: i64)
        ensures
            id == self.spec_chat_id(),
    {
        self.chat_id
    }

    pub fn message(&self) -> (text: &str)
        ensures
            text@ == self.spec_message(),
    {
        self.message.as_str()
    }

    pub fn dates_filename(&self) -> (name: &str)
        ensures
            name@ == self.spec_dates_filename(),
    {
        self.dates_filename.as_str()
    }

    pub fn clock_time(&self) -> (t: ClockTime)
        ensures
            t == self.spec_clock_time(),
    {
        self.clock_time
    }

    /// What the job does on the day `today` with the lines of its store: the
    /// lines that name a later day go back to the store, in their order, and
    /// the job's message is sent once for each line that names today.
    pub fn plan_cycle(&self, lines: &Vec<String>, today: &CalendarDate) -> (plan: ReminderPlan)
        ensures
            texts(plan.store@) == lines_with_outcome(texts(lines@), *today, LineOutcome::Pending),
            texts(plan.malformed@) == lines_with_outcome(
                texts(lines@),
                *today,
                LineOutcome::Malformed,
            ),
            plan.notifications@.len() == lines_with_outcome(
                texts(lines@),
                *today,
                LineOutcome::Due,
            ).len(),
            forall|i: int|
                0 <= i < plan.notifications@.len() ==> (#[trigger] plan.notifications@[i])@
                    == self.spec_message(),
            forall|i: int|
                0 <= i < plan.store@.len() ==> line_outcome(#[trigger] plan.store@[i]@, *today)
                    == LineOutcome::Pending,
    {
        let compaction = compact(lines, today);
        let mut notifications: Vec<String> = Vec::new();
        let mut sent: usize = 0;
        while sent < compaction.fired
            invariant
                sent <= compaction.fired,
                notifications@.len() == sent,
                forall|i: int|
                    0 <= i < notifications@.len() ==> (#[trigger] notifications@[i])@
                        == self.spec_message(),
            decreases compaction.fired - sent,
        {
            notifications.push(self.message.clone());
            sent = sent + 1;
        }
        ReminderPlan { store: compaction.kept, notifications, malformed: compaction.malformed }
    }
}

impl Service for ReminderService {
    closed spec fn wf(&self) -> bool {
        self.clock_time.wf()
    }

    closed spec fn spec_wake_time(&self) -> ClockTime {
        self.clock_time
    }

    fn wake_time(&self) -> (t: ClockTime) {
        self.clock_time
    }
}

} // verus!
