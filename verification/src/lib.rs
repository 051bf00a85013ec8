//! Verified core of an administrative event-reporting endpoint for a
//! federated messaging server.
//!
//! A participant reports a previously delivered room event as inappropriate,
//! optionally with a severity score and a free-text reason.  The core
//! validates the report, resolves the referenced event, composes a dual-form
//! (plain and rich-markup) notification for the server administrators, hands
//! it to the admin channel, and confirms durability before acknowledging.
//!
//! The surrounding transport, authentication and storage backends are out of
//! scope: the reporter identity arrives already authenticated, the event
//! store is a read-only lookup structure, and the admin channel is a bounded
//! fire-and-forget queue.

pub mod channel;
pub mod escape;
pub mod notification;
pub mod report;
pub mod store;

pub use channel::AdminChannel;
pub use channel::DurabilityBarrier;
pub use escape::escape_markup;
pub use notification::Notification;
pub use notification::compose_notification;
pub use report::Ack;
pub use report::ReportError;
pub use report::handle_report;
pub use store::EventRecord;
pub use store::EventStore;
