//! The fixed-size binary frame exchanged with the device, its byte
//! layout, and the rules that decide whether a received frame is a
//! legitimate reply to a sent frame.
//!
//! Every frame, request or response, occupies exactly [`FRAME_LEN`] bytes
//! on the wire.  The trailing `crc` byte is carried but neither computed
//! by the sender nor checked by the receiver; this reproduces the
//! observed firmware behaviour and is a known, deliberate gap rather
//! than an oversight.

use vstd::prelude::*;

use crate::error::Error;

verus! {

/// Capacity of the argument payload of one frame, in bytes.
pub const ARGS_LEN: usize = 80;

/// Total wire size of one frame, in bytes.
pub const FRAME_LEN: usize = 90;

/// Status byte of a freshly built request.
pub const STATUS_NEW: u8 = 0x00;

/// Status byte of a response whose command the firmware carried out.
pub const STATUS_SUCCESSFUL: u8 = 0x02;

/// Status byte of a response whose command the firmware rejected as
/// unsupported on this model.
pub const STATUS_NOT_SUPPORTED: u8 = 0x05;

/// Mathematical model of one frame: the fields as plain values, with the
/// argument payload as a sequence of exactly [`ARGS_LEN`] bytes.
pub struct FrameView {
    pub status: u8,
    pub id: u8,
    pub remaining_packets: u16,
    pub protocol_type: u8,
    pub data_size: u8,
    pub command_class: u8,
    pub command_id: u8,
    pub args: Seq<u8>,
    pub crc: u8,
    pub reserved: u8,
}

impl FrameView {
    /// A frame is well formed when its payload buffer has exactly the
    /// fixed capacity.
    pub open spec fn wf(self) -> bool {
        self.args.len() == ARGS_LEN
    }
}

/// One protocol frame.  `args` always holds exactly [`ARGS_LEN`] bytes;
/// [`Packet::wf`] states that invariant and every constructor
/// establishes it.
#[derive(Debug)]
pub struct Packet {
    pub status: u8,
    pub id: u8,
    pub remaining_packets: u16,
    pub protocol_type: u8,
    pub data_size: u8,
    pub command_class: u8,
    pub command_id: u8,
    pub args: Vec<u8>,
    pub crc: u8,
    pub reserved: u8,
}

impl View for Packet {
    type V = FrameView;

    open spec fn view(&self) -> FrameView {
        FrameView {
            status: self.status,
            id: self.id,
            remaining_packets: self.remaining_packets,
            protocol_type: self.protocol_type,
            data_size: self.data_size,
            command_class: self.command_class,
            command_id: self.command_id,
            args: self.args@,
            crc: self.crc,
            reserved: self.reserved,
        }
    }
}

impl Clone for Packet {
    fn clone(&self) -> (res: Self)
        ensures
            res@ == self@,
    {
        let mut args: Vec<u8> = Vec::new();
        let mut i: usize = 0;
        while i < self.args.len()
            invariant
                i <= self.args@.len(),
                args@ == self.args@.take(i as int),
            decreases self.args@.len() - i,
        {
            args.push(self.args[i]);
            i = i + 1;
        }
        proof {
            assert(args@ =~= self.args@);
        }
        Packet {
            status: self.status,
            id: self.id,
            remaining_packets: self.remaining_packets,
            protocol_type: self.protocol_type,
            data_size: self.data_size,
            command_class: self.command_class,
            command_id: self.command_id,
            args,
            crc: self.crc,
            reserved: self.reserved,
        }
    }
}

/// The given payload, zero-padded to the fixed capacity.
pub open spec fn pad_args(args: Seq<u8>) -> Seq<u8>
    recommends
        args.len() <= ARGS_LEN,
{
    args + Seq::new((ARGS_LEN - args.len()) as nat, |i: int| 0u8)
}

/// Zero-padding only appends: the padded payload begins with the
/// given bytes.
pub proof fn lemma_pad_args_prefix(args: Seq<u8>)
    requires
        args.len() <= ARGS_LEN,
    ensures
        pad_args(args).len() == ARGS_LEN,
        pad_args(args).take(args.len() as int) == args,
{
    assert(pad_args(args).take(args.len() as int) =~= args);
}

/// What a freshly built request for `command` with payload `args` looks
/// like: everything is pinned except the correlation id, which the
/// sender draws at random.
pub open spec fn is_request(f: FrameView, command: u16, args: Seq<u8>) -> bool {
    &&& args.len() <= ARGS_LEN
    &&& f.status == STATUS_NEW
    &&& f.remaining_packets == 0
    &&& f.protocol_type == 0
    &&& f.data_size == args.len()
    &&& f.command_class == command / 256
    &&& f.command_id == command % 256
    &&& f.args == pad_args(args)
    &&& f.crc == 0
    &&& f.reserved == 0
}

/// The exact wire layout: one byte per field in declaration order, the
/// sixteen-bit remaining-packets field in little-endian order, and the
/// payload in the middle.
pub open spec fn frame_bytes(f: FrameView) -> Seq<u8> {
    seq![
        f.status,
        f.id,
        (f.remaining_packets % 256) as u8,
        (f.remaining_packets / 256) as u8,
        f.protocol_type,
        f.data_size,
        f.command_class,
        f.command_id,
    ] + f.args + seq![f.crc, f.reserved]
}

/// The frame encoded by a buffer of exactly [`FRAME_LEN`] bytes.
pub open spec fn parse_frame(b: Seq<u8>) -> FrameView
    recommends
        b.len() == FRAME_LEN,
{
    FrameView {
        status: b[0],
        id: b[1],
        remaining_packets: (b[2] + 256 * b[3]) as u16,
        protocol_type: b[4],
        data_size: b[5],
        command_class: b[6],
        command_id: b[7],
        args: b.subrange(8, 8 + ARGS_LEN as int),
        crc: b[8 + ARGS_LEN as int],
        reserved: b[9 + ARGS_LEN as int],
    }
}

/// Serialization loses nothing: parsing the bytes of any well-formed
/// frame gives back exactly that frame.
pub proof fn lemma_frame_round_trip(f: FrameView)
    requires
        f.wf(),
    ensures
        frame_bytes(f).len() == FRAME_LEN,
        parse_frame(frame_bytes(f)) == f,
{
    let b = frame_bytes(f);
    assert(b.len() == FRAME_LEN);
    assert((b[2] + 256 * b[3]) as u16 == f.remaining_packets) by {
        assert(f.remaining_packets % 256 + 256 * (f.remaining_packets / 256)
            == f.remaining_packets);
    }
    assert(b.subrange(8, 8 + ARGS_LEN as int) =~= f.args);
    assert(parse_frame(b) == f);
}

/// Response and request agree on the fields that correlate a reply with
/// the request it answers.
pub open spec fn correlated(resp: FrameView, req: FrameView) -> bool {
    &&& resp.command_class == req.command_class
    &&& resp.command_id == req.command_id
    &&& resp.id == req.id
}

/// The two commands whose firmware replies intentionally do not echo the
/// remaining-packets field: the battery-care query and the
/// max-fan-speed query.
pub open spec fn remaining_packets_exempt(f: FrameView) -> bool {
    ||| f.command_class == 0x07 && f.command_id == 0x92
    ||| f.command_class == 0x07 && f.command_id == 0x8f
}

/// The remaining-packets field either matches the request or belongs to
/// one of the two carved-out commands.
pub open spec fn remaining_packets_ok(resp: FrameView, req: FrameView) -> bool {
    resp.remaining_packets == req.remaining_packets || remaining_packets_exempt(resp)
}

/// A response that passes every check of [`Packet::ensure_matches_report`]:
/// correlated, consistent remaining-packets, and a successful status.
pub open spec fn valid_reply(resp: FrameView, req: FrameView) -> bool {
    &&& correlated(resp, req)
    &&& remaining_packets_ok(resp, req)
    &&& resp.status == STATUS_SUCCESSFUL
}

/// Relies on rand::random: draws one byte; nothing is promised of its
/// value, and two draws may differ.
#[verifier::external_body]
fn fresh_id() -> u8 {
    rand::random::<u8>()
}

impl Packet {
    /// The payload buffer always holds exactly the fixed capacity.
    pub open spec fn wf(self) -> bool {
        self@.wf()
    }

    /// Builds a request frame for `command` carrying `args`: status new,
    /// a freshly drawn correlation id, the command split into class and
    /// id bytes, and the payload zero-padded to capacity.
    pub fn new(command: u16, args: &Vec<u8>) -> (p: Packet)
        requires
            args@.len() <= ARGS_LEN,
        ensures
            p.wf(),
            is_request(p@, command, args@),
    {
        let mut buffer: Vec<u8> = Vec::new();
        let mut i: usize = 0;
        while i < args.len()
            invariant
                i <= args@.len(),
                buffer@ == args@.take(i as int),
            decreases args@.len() - i,
        {
            buffer.push(args[i]);
            i = i + 1;
        }
        while buffer.len() < ARGS_LEN
            invariant
                args@.len() <= buffer@.len() <= ARGS_LEN,
                buffer@.take(args@.len() as int) == args@,
                forall|j: int| args@.len() <= j < buffer@.len() ==> buffer@[j] == 0u8,
            decreases ARGS_LEN - buffer@.len(),
        {
            buffer.push(0u8);
        }
        proof {
            assert(buffer@ =~= pad_args(args@));
        }
        Packet {
            status: STATUS_NEW,
            id: fresh_id(),
            remaining_packets: 0,
            protocol_type: 0,
            data_size: args.len() as u8,
            command_class: (command / 256) as u8,
            command_id: (command % 256) as u8,
            args: buffer,
            crc: 0,
            reserved: 0,
        }
    }

    /// Overwrites the first `args.len()` payload bytes, leaving the rest
    /// of the payload and every other field unchanged.
    pub fn set_args(&mut self, args: &Vec<u8>)
        requires
            old(self).wf(),
            args@.len() <= ARGS_LEN,
        ensures
            final(self).wf(),
            final(self)@.args == args@ + old(self)@.args.skip(args@.len() as int),
            final(self)@ == (FrameView { args: final(self)@.args, ..old(self)@ }),
    {
        let mut i: usize = 0;
        while i < args.len()
            invariant
                i <= args@.len(),
                args@.len() <= ARGS_LEN,
                self.args@.len() == ARGS_LEN,
                old(self).args@.len() == ARGS_LEN,
                self.args@.take(i as int) == args@.take(i as int),
                self.args@.skip(args@.len() as int) == old(self).args@.skip(args@.len() as int),
                forall|j: int| i <= j < args@.len() ==> self.args@[j] == old(self).args@[j],
                self.status == old(self).status,
                self.id == old(self).id,
                self.remaining_packets == old(self).remaining_packets,
                self.protocol_type == old(self).protocol_type,
                self.data_size == old(self).data_size,
                self.command_class == old(self).command_class,
                self.command_id == old(self).command_id,
                self.crc == old(self).crc,
                self.reserved == old(self).reserved,
            decreases args@.len() - i,
        {
            let value = args[i];
            self.args.set(i, value);
            proof {
                assert(self.args@.take(i + 1) =~= args@.take(i + 1));
                assert(self.args@.skip(args@.len() as int)
                    =~= old(self).args@.skip(args@.len() as int));
            }
            i = i + 1;
        }
        proof {
            assert(args@.take(args@.len() as int) =~= args@);
            assert(self.args@ =~= args@ + old(self).args@.skip(args@.len() as int));
        }
    }

    /// The full payload buffer, padding included.
    pub fn get_args(&self) -> (r: &Vec<u8>)
        ensures
            r@ == self@.args,
    {
        &self.args
    }

    /// Whether the payload begins with exactly the bytes of `prefix`.
    pub fn args_start_with(&self, prefix: &Vec<u8>) -> (r: bool)
        requires
            self.wf(),
            prefix@.len() <= ARGS_LEN,
        ensures
            r == (self@.args.take(prefix@.len() as int) == prefix@),
    {
        let mut i: usize = 0;
        while i < prefix.len()
            invariant
                i <= prefix@.len(),
                prefix@.len() <= ARGS_LEN,
                self.args@.len() == ARGS_LEN,
                self.args@.take(i as int) == prefix@.take(i as int),
            decreases prefix@.len() - i,
        {
            if self.args[i] != prefix[i] {
                return false;
            }
            proof {
                assert(self.args@.take(i + 1) =~= prefix@.take(i + 1));
            }
            i = i + 1;
        }
        proof {
            assert(self.args@.take(prefix@.len() as int) =~= prefix@);
        }
        true
    }

    /// Serializes the frame into its exact wire bytes.
    pub fn to_bytes(&self) -> (r: Vec<u8>)
        requires
            self.wf(),
        ensures
            r@.len() == FRAME_LEN,
            r@ == frame_bytes(self@),
    {
        let mut out: Vec<u8> = Vec::new();
        out.push(self.status);
        out.push(self.id);
        out.push((self.remaining_packets % 256) as u8);
        out.push((self.remaining_packets / 256) as u8);
        out.push(self.protocol_type);
        out.push(self.data_size);
        out.push(self.command_class);
        out.push(self.command_id);
        let ghost header = out@;
        let mut i: usize = 0;
        while i < self.args.len()
            invariant
                i <= self.args@.len(),
                out@ == header + self.args@.take(i as int),
            decreases self.args@.len() - i,
        {
            out.push(self.args[i]);
            proof {
                assert(out@ =~= header + self.args@.take(i + 1));
            }
            i = i + 1;
        }
        out.push(self.crc);
        out.push(self.reserved);
        proof {
            assert(self.args@.take(self.args@.len() as int) =~= self.args@);
            assert(out@ =~= frame_bytes(self@));
        }
        out
    }

    /// Pure deserialization: fails exactly when the buffer is not one
    /// whole frame long, and otherwise reproduces the encoded frame with
    /// no further validation.
    pub fn from_bytes(data: &Vec<u8>) -> (r: Result<Packet, Error>)
        ensures
            data@.len() != FRAME_LEN ==> r == Err::<Packet, Error>(Error::WrongSize),
            data@.len() == FRAME_LEN ==> (r matches Ok(p) && p.wf() && p@ == parse_frame(data@)),
    {
        if data.len() != FRAME_LEN {
            return Err(Error::WrongSize);
        }
        let mut args: Vec<u8> = Vec::new();
        let mut i: usize = 0;
        while i < ARGS_LEN
            invariant
                i <= ARGS_LEN,
                data@.len() == FRAME_LEN,
                args@ == data@.subrange(8, 8 + i as int),
            decreases ARGS_LEN - i,
        {
            args.push(data[8 + i]);
            proof {
                assert(args@ =~= data@.subrange(8, 8 + (i + 1)));
            }
            i = i + 1;
        }
        let remaining_low = data[2];
        let remaining_high = data[3];
        let p = Packet {
            status: data[0],
            id: data[1],
            remaining_packets: remaining_low as u16 + 256u16 * (remaining_high as u16),
            protocol_type: data[4],
            data_size: data[5],
            command_class: data[6],
            command_id: data[7],
            args,
            crc: data[88],
            reserved: data[89],
        };
        Ok(p)
    }

    /// Decides whether `self`, a decoded response, legitimately answers
    /// `report`, the request that was sent.  The decision is total over
    /// every pair of frames:
    /// - a correlation-field mismatch is rejected first;
    /// - then a remaining-packets mismatch, unless the command is one of
    ///   the two carved-out queries;
    /// - then the firmware's explicit not-supported status;
    /// - then any other status byte that is not the success status,
    ///   which is surfaced with the raw byte;
    /// - otherwise the response is returned as trusted.
    pub fn ensure_matches_report(self, report: &Packet) -> (r: Result<Packet, Error>)
        ensures
            !correlated(self@, report@) ==> r == Err::<Packet, Error>(Error::CorrelationMismatch),
            correlated(self@, report@) && !remaining_packets_ok(self@, report@)
                ==> r == Err::<Packet, Error>(Error::RemainingPacketsMismatch),
            correlated(self@, report@) && remaining_packets_ok(self@, report@)
                && self@.status == STATUS_NOT_SUPPORTED
                ==> r == Err::<Packet, Error>(Error::CommandNotSupported),
            correlated(self@, report@) && remaining_packets_ok(self@, report@)
                && self@.status != STATUS_NOT_SUPPORTED && self@.status != STATUS_SUCCESSFUL
                ==> r == Err::<Packet, Error>(Error::UnknownStatus(self@.status)),
            valid_reply(self@, report@) ==> (r matches Ok(p) && p@ == self@),
            r matches Ok(p) ==> (p@ == self@ && valid_reply(self@, report@)),
    {
        if !(self.command_class == report.command_class
            && self.command_id == report.command_id
            && self.id == report.id) {
            return Err(Error::CorrelationMismatch);
        }
        let exempt = (self.command_class == 0x07 && self.command_id == 0x92)
            || (self.command_class == 0x07 && self.command_id == 0x8f);
        if self.remaining_packets != report.remaining_packets && !exempt {
            return Err(Error::RemainingPacketsMismatch);
        }
        if self.status == STATUS_NOT_SUPPORTED {
            return Err(Error::CommandNotSupported);
        }
        if self.status != STATUS_SUCCESSFUL {
            return Err(Error::UnknownStatus(self.status));
        }
        Ok(self)
    }
}

} // verus!
