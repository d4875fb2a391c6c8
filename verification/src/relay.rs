//! What the server does, and in which order, when a visitor sends a text.
//!
//! The server itself owns the sockets and the lock around the board. This
//! module tells it which steps to take: what to pass on to the other
//! visitors, when to take the lock, and when to store the text.

use vstd::prelude::*;

verus! {

/// The event on which visitors send a text.
pub const TEXT_INPUT: &'static str = "TEXT_INPUT";

/// An event on which the server passes a text on to the other visitors.
#[derive(Debug, Clone, Copy, PartialEq, Eq)]
pub enum Topic {
    /// Goes out for every text that comes in.
    TextBroadcastPersistent,
    /// Goes out for a text meant for the current paste.
    TextBroadcast,
}

/// One thing the server does for a text that came in.
#[derive(Debug, Clone, Copy, PartialEq, Eq)]
pub enum Step {
    /// Pass the message on, unchanged, to all visitors but the sender.
    Broadcast(Topic),
    /// Take the lock on the board for writing, and hold it to the end.
    Lock,
    /// Read the configured lifetime from the environment.
    ReadSetting,
    /// Hand the message to the board, with the setting if one was read.
    Store,
}

impl Topic {
    /// The event's name on the wire.
    pub open spec fn name_of(self) -> Seq<char> {
        match self {
            Topic::TextBroadcastPersistent => "TEXT_BROADCAST_PERSISTENT"@,
            Topic::TextBroadcast => "TEXT_BROADCAST"@,
        }
    }

    /// The event's name on the wire.
    pub fn name(&self) -> (r: &'static str)
        ensures
            r@ == self.name_of(),
    {
        match self {
            Topic::TextBroadcastPersistent => "TEXT_BROADCAST_PERSISTENT",
            Topic::TextBroadcast => "TEXT_BROADCAST",
        }
    }
}

/// The steps for a text, in order.
///
/// Every text goes out on [`Topic::TextBroadcastPersistent`] before the lock
/// is taken. A text for the current paste goes out a second time, on
/// [`Topic::TextBroadcast`], under the lock; then the lifetime is looked up
/// and the text is stored.
pub open spec fn steps_for(persistent: bool) -> Seq<Step> {
    if persistent {
        seq![Step::Broadcast(Topic::TextBroadcastPersistent), Step::Lock, Step::Store]
    } else {
        seq![
            Step::Broadcast(Topic::TextBroadcastPersistent),
            Step::Lock,
            Step::Broadcast(Topic::TextBroadcast),
            Step::ReadSetting,
            Step::Store,
        ]
    }
}

/// The steps that the server takes for a text, in order.
pub fn on_text_input(persistent: bool) -> (r: Vec<Step>)
    ensures
        r@ == steps_for(persistent),
{
    let mut steps: Vec<Step> = Vec::new();
    steps.push(Step::Broadcast(Topic::TextBroadcastPersistent));
    steps.push(Step::Lock);
    if !persistent {
        steps.push(Step::Broadcast(Topic::TextBroadcast));
        steps.push(Step::ReadSetting);
    }
    steps.push(Step::Store);
    steps
}

} // verus!
