//! Plain data exchanged with the engine's collaborators: observed queue
//! statistics on the way in, notification messages on the way out.

use vstd::prelude::*;

verus! {

/// One observed metric for one queue, as supplied by the metrics source once
/// per poll cycle. `value` is a count or a byte size depending on
/// `stat_name`.
pub struct QueueStat {
    pub queue_name: String,
    pub stat_name: String,
    pub value: u64,
}

/// Fixed per-process notification settings, applied identically to every
/// message produced in a run.
pub struct NotificationSettings {
    pub username: String,
    pub channel: String,
    pub icon_url: Option<String>,
    pub icon_emoji: Option<String>,
}

/// One outbound alert payload, handed to the delivery collaborator.
pub struct NotificationMessage {
    pub username: String,
    pub channel: String,
    pub text: String,
    pub icon_url: Option<String>,
    pub icon_emoji: Option<String>,
}

/// The view of an optional string: its characters, if it is present.
pub open spec fn opt_str_view(o: Option<String>) -> Option<Seq<char>> {
    match o {
        Some(s) => Some(s@),
        None => None,
    }
}

} // verus!
