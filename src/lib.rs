//! Notifications about an agent session's lifecycle, rendered as JSON and
//! handed to a program that the user configured.
pub mod json;
pub mod notification;
pub mod notifier;

pub use notification::{ApprovalType, SerializeError, UserNotification};
pub use notifier::{NotifyAction, UserNotifier};
