//! What a reader of the upstream service does next: when it connects, how
//! long it waits after a failure, and when it hands a report on.

use crate::moderator::Moderator;
use vstd::prelude::*;

verus! {

/// Number of readers that run side by side.
pub const WNI_THREAD_COUNT: u32 = 4;

/// Number of reports that may wait for the supervisor at a time; what
/// arrives beyond that is dropped.
pub const INGEST_CHANNEL_SIZE: usize = 32;

/// Number of earthquakes that the history remembers.
pub const EEW_HISTORY_CAPACITY: usize = 128;

/// What happened to a reader.
#[derive(Copy, Clone, Eq, PartialEq, Debug, Structural)]
pub enum ReaderEvent {
    /// The reader was started.
    Started,
    /// An attempt to connect failed.
    ConnectFailed,
    /// An attempt to connect succeeded.
    Connected,
    /// A telegram arrived and was read.
    TelegramReceived,
    /// Waiting for a telegram ended in an error.
    StreamFailed,
}

/// What a reader does next.
#[derive(Copy, Clone, Eq, PartialEq, Debug, Structural)]
pub enum ReaderAction {
    /// Connect to a server.
    Connect,
    /// Wait this many seconds, then connect to a server.
    SleepThenConnect(u32),
    /// Wait for the next telegram.
    WaitForTelegram,
    /// Hand the report on, then wait for the next telegram.
    ForwardThenWait,
}

/// The number of failures that the moderator has counted after `event`.
pub open spec fn count_after(count: nat, max_count: nat, event: ReaderEvent) -> nat {
    match event {
        ReaderEvent::ConnectFailed => if count < max_count {
            count + 1
        } else {
            count
        },
        ReaderEvent::Connected => 0,
        _ => count,
    }
}

/// Decides what a reader does after `event`. A failed attempt to connect is
/// followed by a pause that grows with the number of failures counted so
/// far and is then counted itself; a success clears the count. A stream
/// that fails is followed by a new attempt at once.
pub fn reader_step(moderator: &mut Moderator, event: ReaderEvent) -> (action: ReaderAction)
    requires
        old(moderator).is_default_paced(),
    ensures
        final(moderator).is_default_paced(),
        final(moderator).count() == count_after(
            old(moderator).count(),
            old(moderator).max_count(),
            event,
        ),
        action == match event {
            ReaderEvent::Started => ReaderAction::Connect,
            ReaderEvent::ConnectFailed => ReaderAction::SleepThenConnect(
                old(moderator).interval() as u32,
            ),
            ReaderEvent::Connected => ReaderAction::WaitForTelegram,
            ReaderEvent::TelegramReceived => ReaderAction::ForwardThenWait,
            ReaderEvent::StreamFailed => ReaderAction::Connect,
        },
{
    match event {
        ReaderEvent::Started => ReaderAction::Connect,
        ReaderEvent::ConnectFailed => {
            proof {
                moderator.lemma_default_interval_is_bounded();
            }
            let secs = moderator.compute_next_interval();
            moderator.add_count();
            ReaderAction::SleepThenConnect(secs)
        },
        ReaderEvent::Connected => {
            moderator.reset();
            ReaderAction::WaitForTelegram
        },
        ReaderEvent::TelegramReceived => ReaderAction::ForwardThenWait,
        ReaderEvent::StreamFailed => ReaderAction::Connect,
    }
}

} // verus!
