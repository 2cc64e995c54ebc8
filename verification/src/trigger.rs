//! Trigger configuration: one threshold rule per watched metric kind.

use vstd::prelude::*;

verus! {

/// Payload shared by every trigger variant: the threshold the observed value
/// must strictly exceed for the trigger to fire, and an optional queue scope.
/// A trigger with no scope applies to every queue reporting its field.
pub struct TriggerData {
    pub threshold: u64,
    pub queue: Option<String>,
}

/// One configured alerting rule. The set of watched metric kinds is closed:
/// each variant carries the same payload and resolves to a fixed broker field
/// name and a fixed human-readable display name.
pub enum Trigger {
    ConsumersTotal(TriggerData),
    MemoryTotal(TriggerData),
    MessagesTotal(TriggerData),
    ReadyMsgs(TriggerData),
    UnacknowledgedMsgs(TriggerData),
}

impl Trigger {
    /// The payload of this trigger, whichever variant it is.
    pub open spec fn spec_data(self) -> TriggerData {
        match self {
            Trigger::ConsumersTotal(d) => d,
            Trigger::MemoryTotal(d) => d,
            Trigger::MessagesTotal(d) => d,
            Trigger::ReadyMsgs(d) => d,
            Trigger::UnacknowledgedMsgs(d) => d,
        }
    }

    pub open spec fn spec_threshold(self) -> u64 {
        self.spec_data().threshold
    }

    /// The queue scope, as a sequence of characters, if the trigger has one.
    pub open spec fn spec_queue(self) -> Option<Seq<char>> {
        match self.spec_data().queue {
            Some(q) => Some(q@),
            None => None,
        }
    }

    /// The broker stat field this trigger watches.
    pub open spec fn spec_field_name(self) -> Seq<char> {
        match self {
            Trigger::ConsumersTotal(_) => "consumers"@,
            Trigger::MemoryTotal(_) => "memory"@,
            Trigger::MessagesTotal(_) => "messages"@,
            Trigger::ReadyMsgs(_) => "messages_ready"@,
            Trigger::UnacknowledgedMsgs(_) => "messages_unacknowledged"@,
        }
    }

    /// The human-readable name used in alert text.
    pub open spec fn spec_display_name(self) -> Seq<char> {
        match self {
            Trigger::ConsumersTotal(_) => "total number of consumers"@,
            Trigger::MemoryTotal(_) => "memory consumption"@,
            Trigger::MessagesTotal(_) => "total number of messages"@,
            Trigger::ReadyMsgs(_) => "ready messages"@,
            Trigger::UnacknowledgedMsgs(_) => "unacknowledged messages"@,
        }
    }

    pub fn data(&self) -> (d: &TriggerData)
        ensures
            *d == self.spec_data(),
    {
        match self {
            Trigger::ConsumersTotal(data) => data,
            Trigger::MemoryTotal(data) => data,
            Trigger::MessagesTotal(data) => data,
            Trigger::ReadyMsgs(data) => data,
            Trigger::UnacknowledgedMsgs(data) => data,
        }
    }

    pub fn field_name(&self) -> (r: &'static str)
        ensures
            r@ == self.spec_field_name(),
    {
        match *self {
            Trigger::ConsumersTotal(_) => "consumers",
            Trigger::MemoryTotal(_) => "memory",
            Trigger::MessagesTotal(_) => "messages",
            Trigger::ReadyMsgs(_) => "messages_ready",
            Trigger::UnacknowledgedMsgs(_) => "messages_unacknowledged",
        }
    }

    pub fn name(&self) -> (r: &'static str)
        ensures
            r@ == self.spec_display_name(),
    {
        match *self {
            Trigger::ConsumersTotal(_) => "total number of consumers",
            Trigger::MemoryTotal(_) => "memory consumption",
            Trigger::MessagesTotal(_) => "total number of messages",
            Trigger::ReadyMsgs(_) => "ready messages",
            Trigger::UnacknowledgedMsgs(_) => "unacknowledged messages",
        }
    }
}

} // verus!
