//! Backend logic for a small calendar service: configuration validation,
//! the calendar and event response shapes, and the mapping from upstream
//! fetch outcomes to HTTP-level results.

mod calendar;
mod config;
mod error;
mod event;

pub use calendar::Calendar;
pub use calendar::CalendarRecord;
pub use calendar::calendar_of;
pub use calendar::get_calendars;
pub use config::Config;
pub use config::ConfigError;
pub use config::Credentials;
pub use config::url_well_formed;
pub use error::UpstreamError;
pub use error::lemma_upstream_error_always_surfaced;
pub use event::Event;
pub use event::get_events;
