use vstd::prelude::*;

use crate::error::Error;
use crate::wire::be_val;

verus! {

/// How one attempt to read an exact number of bytes from the transport
/// ended. The shell around the library performs the read and reports it
/// here; the distinction between a close with zero bytes transferred and a
/// close after partial bytes is the heart of the protocol.
#[derive(Clone, Copy, Debug, PartialEq, Eq, Structural)]
pub enum ReadEvent {
    /// Every requested byte arrived.
    Complete,
    /// The peer closed the connection before any byte of this read arrived.
    CleanClose,
    /// The peer closed the connection after some, but not all, bytes.
    MidClose,
    /// The transport reported an I/O failure.
    Failed,
}

/// What a receive does after the read of the four-byte length prefix.
#[derive(Clone, Copy, Debug, PartialEq, Eq, Structural)]
pub enum PrefixOutcome {
    /// Clean end of stream at a frame boundary: no message, not an error.
    NoMessage,
    /// The prefix arrived whole; read this many payload bytes next.
    NeedPayload(u32),
    /// The frame was cut short or the transport failed.
    Fail(Error),
}

/// What a receive does after the read of the payload bytes.
#[derive(Clone, Copy, Debug, PartialEq, Eq, Structural)]
pub enum PayloadOutcome {
    /// The payload arrived whole; hand it to the codec.
    Decode,
    /// The frame was cut short or the transport failed.
    Fail(Error),
}

/// Classifies one exact-length read from the transport by how far it got:
/// every requested byte arrived, the peer closed before any byte arrived,
/// the peer closed part-way through, or the transport failed outright.
pub fn classify_read(requested: usize, got: usize, failed: bool) -> (ev: ReadEvent)
    requires
        got <= requested,
    ensures
        failed ==> ev is Failed,
        !failed && got == requested ==> ev is Complete,
        !failed && got == 0 && requested > 0 ==> ev is CleanClose,
        !failed && 0 < got < requested ==> ev is MidClose,
{
    if failed {
        ReadEvent::Failed
    } else if got == requested {
        ReadEvent::Complete
    } else if got == 0 {
        ReadEvent::CleanClose
    } else {
        ReadEvent::MidClose
    }
}

/// Decides a receive at the frame boundary, after the length prefix was
/// read. Only a close with zero bytes transferred here is a clean end of
/// stream; a partial prefix is a transport error.
pub fn on_prefix_read(ev: &ReadEvent, prefix: &Vec<u8>) -> (r: PrefixOutcome)
    requires
        *ev is Complete ==> prefix@.len() == 4,
    ensures
        *ev is Complete ==> r == PrefixOutcome::NeedPayload(be_val(prefix@)),
        *ev is CleanClose ==> r == PrefixOutcome::NoMessage,
        *ev is MidClose ==> r == PrefixOutcome::Fail(Error::Transport),
        *ev is Failed ==> r == PrefixOutcome::Fail(Error::Transport),
{
    match ev {
        ReadEvent::Complete => PrefixOutcome::NeedPayload(crate::wire::u32_from_be_bytes(prefix)),
        ReadEvent::CleanClose => PrefixOutcome::NoMessage,
        ReadEvent::MidClose => PrefixOutcome::Fail(Error::Transport),
        ReadEvent::Failed => PrefixOutcome::Fail(Error::Transport),
    }
}

/// Decides a receive after the payload read. The length prefix is already
/// consumed, so any close here — even one with zero payload bytes — is
/// mid-frame and therefore a transport error, never "no message".
pub fn on_payload_read(ev: &ReadEvent) -> (r: PayloadOutcome)
    ensures
        *ev is Complete ==> r == PayloadOutcome::Decode,
        !(*ev is Complete) ==> r == PayloadOutcome::Fail(Error::Transport),
{
    match ev {
        ReadEvent::Complete => PayloadOutcome::Decode,
        ReadEvent::CleanClose => PayloadOutcome::Fail(Error::Transport),
        ReadEvent::MidClose => PayloadOutcome::Fail(Error::Transport),
        ReadEvent::Failed => PayloadOutcome::Fail(Error::Transport),
    }
}

/// What a blocking receive does with the outcome of one non-blocking
/// receive: poll again after a clean "no message", deliver a value, or
/// propagate an error at once.
#[derive(Clone, Copy, Debug, PartialEq, Eq, Structural)]
pub enum BlockingStep {
    Retry,
    Deliver(u32),
    Fail(Error),
}

/// Decides one turn of the blocking receive loop.
pub fn blocking_step(r: &Result<Option<u32>, Error>) -> (s: BlockingStep)
    ensures
        *r matches Ok(Some(v)) ==> s == BlockingStep::Deliver(v),
        *r matches Ok(o) && o is None ==> s == BlockingStep::Retry,
        *r matches Err(e) ==> s == BlockingStep::Fail(e),
{
    match r {
        Ok(Some(v)) => BlockingStep::Deliver(*v),
        Ok(None) => BlockingStep::Retry,
        Err(e) => BlockingStep::Fail(*e),
    }
}

} // verus!
