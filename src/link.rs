//! Decisions of the reader task, which polls the device over a transport.
//!
//! The task itself (writing, blocking reads, handing samples over) runs
//! outside this library; each step asks these functions what to do next.

use vstd::prelude::*;
use crate::framing::{emitted, pending_after, FrameDecoder, RawSample};
use crate::wire::{drone_state_of, DroneState, DRONE_STATE_BYTES};

verus! {

/// How one read from the transport ended.
pub enum ReadEvent {
    /// These bytes arrived.
    Data(Vec<u8>),
    /// Nothing arrived before the read timeout; not an error.
    TimedOut,
    /// Any other transport error: the link is dead.
    Failed,
}

/// What the reader does after a read of a [`DroneState`] record.
#[derive(Clone, Copy, Debug, PartialEq, Eq, Structural)]
pub enum StateAction {
    /// Hand this record to the consumer.
    Publish(DroneState),
    /// Poll again.
    Continue,
    /// Stop the process: a broken transport is not repaired here.
    Terminate,
}

/// What the reader does after a read of the framed sample stream.
pub enum StreamAction {
    /// Hand over the samples completed by the bytes (possibly none).
    Publish(Vec<RawSample>),
    /// Poll again.
    Continue,
    /// Stop the process.
    Terminate,
}

/// Decides on a read of one fixed-size record: a record of the right size is
/// published, a short or long one dropped, a timeout retried, and any other
/// failure ends the process.
pub fn after_state_read(event: ReadEvent) -> (r: StateAction)
    ensures
        match event {
            ReadEvent::Data(b) => if b@.len() == DRONE_STATE_BYTES {
                r == StateAction::Publish(drone_state_of(b@))
            } else {
                r == StateAction::Continue
            },
            ReadEvent::TimedOut => r == StateAction::Continue,
            ReadEvent::Failed => r == StateAction::Terminate,
        },
{
    match event {
        ReadEvent::Data(b) => match DroneState::decode(b.as_slice()) {
            Some(s) => StateAction::Publish(s),
            None => StateAction::Continue,
        },
        ReadEvent::TimedOut => StateAction::Continue,
        ReadEvent::Failed => StateAction::Terminate,
    }
}

/// Decides on a read of the framed stream: arrived bytes go through the
/// decoder, a timeout leaves it untouched, and any other failure ends the
/// process.
pub fn after_stream_read(decoder: &mut FrameDecoder, event: ReadEvent) -> (r: StreamAction)
    requires
        old(decoder).wf(),
    ensures
        final(decoder).wf(),
        match event {
            ReadEvent::Data(b) => {
                &&& r matches StreamAction::Publish(samples) && samples@ == emitted(
                    old(decoder)@,
                    b@,
                )
                &&& final(decoder)@ == pending_after(old(decoder)@, b@)
            },
            ReadEvent::TimedOut => r is Continue && final(decoder)@ == old(decoder)@,
            ReadEvent::Failed => r is Terminate && final(decoder)@ == old(decoder)@,
        },
{
    match event {
        ReadEvent::Data(b) => StreamAction::Publish(decoder.feed(b.as_slice())),
        ReadEvent::TimedOut => StreamAction::Continue,
        ReadEvent::Failed => StreamAction::Terminate,
    }
}

} // verus!
