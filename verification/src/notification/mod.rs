//! Alerts to the people who watch the loop.

use vstd::prelude::*;

pub mod dingtalk;

verus! {

/// Anything that can be written out as an alert.
pub trait NotificationMessage {
    fn to_notification_message(&self) -> String;
}

} // verus!
