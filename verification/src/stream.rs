//! The asynchronous streaming adapter's decision core.
//!
//! A [`PacketStream`] layers a lazy sequence of decoded packets over a
//! capture handle that is already in non-blocking mode.  The reactor that
//! watches the handle's selectable descriptor is an external collaborator:
//! its readiness verdict enters [`PacketStream::poll_step`] as a plain
//! `bool`, and the step's result says whether to yield an item, or to
//! suspend — and whether a stale readiness notification must be cleared
//! first, so a spurious wake cannot spin.  The embedding layer registers
//! the descriptor, drives the polls and acts on those instructions.

use vstd::prelude::*;

use crate::capture::Activated;
use crate::capture::Capture;
use crate::capture::EngineModel;
use crate::capture::read_result;
use crate::capture::read_step;
use crate::error::Error;
use crate::error::ErrorModel;
use crate::error::IoKind;
use crate::packet::Packet;

verus! {

/// Decides how each successfully retrieved packet is turned into one
/// consumer-facing item.  Implemented by the stream's users; the stream
/// runs the codec exactly once per retrieved packet, before the item is
/// yielded downstream.
pub trait PacketCodec {
    type Type;

    /// Produces one item from a packet, or fails.
    fn decode(&mut self, packet: Packet) -> Result<Self::Type, Error>;
}

impl<T: Activated> Capture<T> {
    /// One non-blocking read step, driven by the reactor's readiness
    /// verdict.
    ///
    /// A not-ready handle is not touched and reports "would block".  A
    /// ready handle performs one (immediately returning) read: a
    /// timeout-style result means the wake was spurious, so "would block"
    /// is reported again together with the instruction — the second half of
    /// the returned pair — to clear the descriptor's stale read-readiness
    /// with the reactor before suspending.  A packet or any other error is
    /// passed through.
    pub fn next_noblock(&mut self, ready: bool) -> (r: (Result<Packet, Error>, bool))
        requires
            old(self).is_open(),
            old(self).nonblocking(),
        ensures
            final(self).is_open(),
            final(self).nonblocking(),
            !ready ==> (r.0 matches Err(e) && e@ == ErrorModel::IoError(IoKind::WouldBlock)
                && !r.1 && *final(self) == *old(self)),
            ready ==> final(self).engine() == read_step(old(self).engine()) && match read_result(
                old(self).engine(),
            ) {
                Ok(p) => (r.0 matches Ok(q) && q@ == p && !r.1),
                Err(e) => if e is TimeoutExpired {
                    (r.0 matches Err(err) && err@ == ErrorModel::IoError(IoKind::WouldBlock)
                        && r.1)
                } else {
                    (r.0 matches Err(err) && err@ == e && !r.1)
                },
            },
    {
        if !ready {
            (Err(Error::IoError(IoKind::WouldBlock)), false)
        } else {
            match self.next() {
                Ok(p) => (Ok(p), false),
                Err(e) => match e {
                    Error::TimeoutExpired => (Err(Error::IoError(IoKind::WouldBlock)), true),
                    other => (Err(other), false),
                },
            }
        }
    }

    /// Turns the handle into a stream of decoded packets.
    ///
    /// The handle must already have been switched to non-blocking mode:
    /// otherwise the construction fails immediately with
    /// [`Error::NonNonBlock`], nothing is registered with the reactor, and
    /// the consumed handle is released.
    pub fn stream<C: PacketCodec>(self, codec: C) -> (r: Result<PacketStream<T, C>, Error>)
        requires
            self.is_open(),
        ensures
            self.nonblocking() ==> (r matches Ok(s) && s.wf() && s.engine() == self.engine()),
            !self.nonblocking() ==> (r matches Err(e) && e@ == ErrorModel::NonNonBlock),
    {
        if !self.is_nonblocking() {
            return Err(Error::NonNonBlock);
        }
        Ok(PacketStream { capture: self, codec })
    }
}

/// A lazy, single-consumer sequence of decoded packets over a non-blocking
/// capture handle: finite for file-backed sources, conceptually infinite
/// for live ones.  It owns the handle, so dropping the stream releases the
/// capture; there is no separate cancellation step.
pub struct PacketStream<T: Activated, C: PacketCodec> {
    capture: Capture<T>,
    codec: C,
}

/// What one poll of a [`PacketStream`] decides.
pub enum StreamPoll<I> {
    /// Nothing can be produced now; the caller suspends until the reactor
    /// reports readiness again.  When `clear_readiness` is set, the wake
    /// was spurious and the embedding layer must clear the descriptor's
    /// read-readiness with the reactor before suspending.
    Pending { clear_readiness: bool },
    /// One item for the consumer: a decoded packet, or the error that ends
    /// the stream.
    Item(Result<I, Error>),
}

impl<T: Activated, C: PacketCodec> PacketStream<T, C> {
    /// Whether the stream's capture handle is usable: open and in
    /// non-blocking mode.
    pub closed spec fn wf(self) -> bool {
        self.capture.is_open() && self.capture.nonblocking()
    }

    /// The engine-side state of the owned capture handle.
    pub closed spec fn engine(self) -> EngineModel {
        self.capture.engine()
    }

    /// One poll step, driven by the reactor's readiness verdict.
    ///
    /// Not ready: suspend without touching the engine.  Ready with a
    /// timeout-style result (a spurious wake): ask for the readiness to be
    /// cleared and suspend.  Ready with a packet: run the codec on it and
    /// yield its result.  Ready with any other error: yield that error,
    /// which terminates the stream.
    pub fn poll_step(&mut self, ready: bool) -> (r: StreamPoll<C::Type>)
        requires
            old(self).wf(),
        ensures
            final(self).wf(),
            !ready ==> (r matches StreamPoll::Pending { clear_readiness } && !clear_readiness
                && *final(self) == *old(self)),
            ready ==> final(self).engine() == read_step(old(self).engine()) && match read_result(
                old(self).engine(),
            ) {
                Ok(p) => r is Item,
                Err(e) => if e is TimeoutExpired {
                    (r matches StreamPoll::Pending { clear_readiness } && clear_readiness)
                } else {
                    (r matches StreamPoll::Item(item) && item matches Err(err) && err@ == e)
                },
            },
    {
        let (res, clear) = self.capture.next_noblock(ready);
        match res {
            Ok(p) => StreamPoll::Item(self.codec.decode(p)),
            Err(e) => match e {
                Error::IoError(IoKind::WouldBlock) => StreamPoll::Pending {
                    clear_readiness: clear,
                },
                other => StreamPoll::Item(Err(other)),
            },
        }
    }
}

} // verus!
