//! Scheduling core of a small household bot: wall-clock wake-ups in a fixed
//! UTC+2 reference clock, the daily poll lifecycle, and the self-pruning
//! store of pending reminder dates.

pub mod clock;
pub mod dates;
pub mod greeting;
pub mod poll;
pub mod service;
pub mod store;

pub use clock::{ClockTime, Delay, ReferenceInstant};
pub use dates::CalendarDate;
pub use service::{DinnerService, GreeterService, ReminderService, Service};
