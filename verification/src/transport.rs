//! The capability that carries one frame to the device and brings one
//! frame back.  The command layer is generic over it, so the same
//! verified logic runs against the real HID-backed transport of an
//! embedding application and against the scripted in-memory transport
//! below.
//!
//! Each transport keeps a ghost history of every exchange it performed,
//! oldest first.  The command layer's contracts are stated over that
//! history: which requests an operation sends, in which order, and on
//! which replies it reports success.

use vstd::prelude::*;

use crate::error::Error;
use crate::packet::{pad_args, FrameView, Packet, ARGS_LEN};

verus! {

/// One completed call into a transport: the request that went out and,
/// when the transport-level exchange succeeded, the frame that came
/// back.  A `None` response records a transport failure; a `Some`
/// response may still be rejected later by response validation.
pub struct Exchange {
    pub request: FrameView,
    pub response: Option<FrameView>,
}

/// A connection to one device: exclusive ownership of one physical unit,
/// exchanging exactly one request and one reply per call.
pub trait Transport {
    /// Every exchange performed so far, oldest first.
    spec fn history(&self) -> Seq<Exchange>;

    /// Carries `request` to the device and returns the device's reply
    /// without validating its content.  Exactly one exchange is
    /// appended to the history, successful or not; nothing is promised
    /// about the reply beyond its well-formedness.
    fn exchange(&mut self, request: &Packet) -> (r: Result<Packet, Error>)
        requires
            request.wf(),
        ensures
            final(self).history().len() == old(self).history().len() + 1,
            final(self).history().take(old(self).history().len() as int) == old(self).history(),
            final(self).history().last().request == request@,
            (match r {
                Ok(p) => p.wf() && final(self).history().last().response == Some(p@),
                Err(_) => final(self).history().last().response is None,
            }),
    ;
}

/// One scripted reply of the [`MockTransport`]: the status byte the
/// simulated firmware answers with and the payload it fills in.
pub struct MockReply {
    pub status: u8,
    pub args: Vec<u8>,
}

/// One record of the [`MockTransport`] log, mirroring an [`Exchange`]
/// with executable values so that tests can inspect it.
pub struct LogEntry {
    pub request: Packet,
    pub response: Option<Packet>,
}

/// The ghost exchange that a log record stands for.
pub open spec fn log_entry_view(e: LogEntry) -> Exchange {
    Exchange {
        request: e.request@,
        response: match e.response {
            Some(p) => Some(p@),
            None => None,
        },
    }
}

/// The scripted payload, clipped to the payload capacity and
/// zero-padded up to it.
pub open spec fn clipped_args(src: Seq<u8>) -> Seq<u8> {
    if src.len() <= ARGS_LEN {
        pad_args(src)
    } else {
        src.take(ARGS_LEN as int)
    }
}

/// An in-memory transport that plays a fixed script.  It behaves like a
/// well-behaved firmware: each reply echoes the request's correlation
/// fields, remaining-packets field, protocol type and declared size,
/// answers with the scripted status byte, and fills the payload from
/// the script.  Once the script is exhausted every further exchange
/// fails at the transport level.
pub struct MockTransport {
    /// The replies still to be played, in order.
    pub script: Vec<MockReply>,
    /// How many script entries have been consumed.
    pub cursor: usize,
    /// Every exchange performed, oldest first.
    pub log: Vec<LogEntry>,
}

impl MockTransport {
    /// A transport that will play the given replies in order.
    pub fn new(script: Vec<MockReply>) -> (r: MockTransport)
        ensures
            r.history() == Seq::<Exchange>::empty(),
            r.script@ == script@,
            r.cursor == 0,
    {
        let r = MockTransport { script, cursor: 0, log: Vec::new() };
        proof {
            assert(r.log@.map_values(|e: LogEntry| log_entry_view(e)) =~= Seq::<
                Exchange,
            >::empty());
        }
        r
    }

    /// How many exchanges have been performed.
    pub fn exchange_count(&self) -> (r: usize)
        ensures
            r == self.history().len(),
    {
        self.log.len()
    }

    /// The request of the `i`-th exchange, for inspection by tests.
    pub fn sent_request(&self, i: usize) -> (r: &Packet)
        requires
            i < self.history().len(),
        ensures
            r@ == self.history()[i as int].request,
    {
        &self.log[i].request
    }
}

impl Transport for MockTransport {
    open spec fn history(&self) -> Seq<Exchange> {
        self.log@.map_values(|e: LogEntry| log_entry_view(e))
    }

    fn exchange(&mut self, request: &Packet) -> (r: Result<Packet, Error>) {
        let ghost old_history = self.history();
        if self.cursor < self.script.len() {
            let status = self.script[self.cursor].status;
            let mut args: Vec<u8> = Vec::new();
            let source = &self.script[self.cursor].args;
            let take_n: usize = if source.len() < ARGS_LEN {
                source.len()
            } else {
                ARGS_LEN
            };
            let mut i: usize = 0;
            while i < take_n
                invariant
                    i <= take_n,
                    take_n <= source@.len(),
                    take_n <= ARGS_LEN,
                    args@ == source@.take(i as int),
                decreases take_n - i,
            {
                args.push(source[i]);
                i = i + 1;
            }
            while args.len() < ARGS_LEN
                invariant
                    take_n <= args@.len() <= ARGS_LEN,
                    take_n <= source@.len(),
                    args@.take(take_n as int) == source@.take(take_n as int),
                    forall|j: int| take_n <= j < args@.len() ==> args@[j] == 0u8,
                decreases ARGS_LEN - args@.len(),
            {
                args.push(0u8);
                proof {
                    assert(args@.take(take_n as int) =~= source@.take(take_n as int));
                }
            }
            proof {
                if source@.len() <= ARGS_LEN {
                    assert(source@.take(take_n as int) =~= source@);
                    assert(args@ =~= pad_args(source@));
                } else {
                    assert(args@ =~= source@.take(ARGS_LEN as int));
                }
                assert(args@ =~= clipped_args(source@));
            }
            let reply = Packet {
                status,
                id: request.id,
                remaining_packets: request.remaining_packets,
                protocol_type: request.protocol_type,
                data_size: request.data_size,
                command_class: request.command_class,
                command_id: request.command_id,
                args,
                crc: 0,
                reserved: 0,
            };
            self.cursor = self.cursor + 1;
            let entry = LogEntry { request: request.clone(), response: Some(reply.clone()) };
            let ghost entry_view = log_entry_view(entry);
            self.log.push(entry);
            proof {
                assert(self.history() =~= old_history.push(entry_view));
                assert(self.history().take(old_history.len() as int) =~= old_history);
            }
            Ok(reply)
        } else {
            let entry = LogEntry { request: request.clone(), response: None };
            let ghost entry_view = log_entry_view(entry);
            self.log.push(entry);
            proof {
                assert(self.history() =~= old_history.push(entry_view));
                assert(self.history().take(old_history.len() as int) =~= old_history);
            }
            Err(Error::Io)
        }
    }
}

} // verus!
