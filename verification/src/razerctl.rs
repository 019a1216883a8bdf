//! The earlier, lower-level control surface: one device handle with
//! direct power-mode, boost, and fan operations, together with the data
//! types of its command-line front end.  It speaks the same frame
//! protocol as [`crate::command`], but with the older request layouts
//! (a zero lead byte on mode writes) and without the echo contract.

use vstd::prelude::*;

use vstd::utf8::encode_utf8;

use crate::command::{
    appended, arg2, arg3, arg4, exchange_validated, is_mode_query, lemma_history_extends,
    reply_args, CMD_GET_BOOST, CMD_GET_PERF_MODE, CMD_SET_BOOST, CMD_SET_FAN_RPM,
    CMD_SET_MAX_FAN_SPEED, CMD_SET_PERF_MODE,
};
use crate::error::Error;
use crate::packet::{is_request, FrameView, Packet};
use crate::transport::{Exchange, Transport};

verus! {

/// Product id of the model this tool was first written for, used when
/// no product id is given on the command line.
pub const RAZER_BLADE_16_2023_PID: u16 = 0x029f;

/// Whether the fans run under firmware control or at a fixed speed, in
/// revolutions per minute.
#[derive(Clone, Copy, Debug, PartialEq, Eq, Structural)]
pub enum FanMode {
    Auto,
    Manual(u16),
}

impl FanMode {
    pub open spec fn spec_wire(self) -> u8 {
        match self {
            FanMode::Auto => 0x00,
            FanMode::Manual(_) => 0x01,
        }
    }

    pub fn wire(self) -> (r: u8)
        ensures
            r == self.spec_wire(),
    {
        match self {
            FanMode::Auto => 0x00,
            FanMode::Manual(_) => 0x01,
        }
    }
}

/// CPU power level while in the custom power mode.
#[derive(Clone, Copy, Debug, PartialEq, Eq, Structural)]
pub enum CpuBoost {
    Low,
    Medium,
    High,
    Boost,
    Overclock,
}

impl CpuBoost {
    pub open spec fn spec_wire(self) -> u8 {
        match self {
            CpuBoost::Low => 0x00,
            CpuBoost::Medium => 0x01,
            CpuBoost::High => 0x02,
            CpuBoost::Boost => 0x03,
            CpuBoost::Overclock => 0x04,
        }
    }

    pub open spec fn spec_from_wire(value: u8) -> Option<CpuBoost> {
        if value == 0x00 {
            Some(CpuBoost::Low)
        } else if value == 0x01 {
            Some(CpuBoost::Medium)
        } else if value == 0x02 {
            Some(CpuBoost::High)
        } else if value == 0x03 {
            Some(CpuBoost::Boost)
        } else if value == 0x04 {
            Some(CpuBoost::Overclock)
        } else {
            None
        }
    }

    pub fn wire(self) -> (r: u8)
        ensures
            r == self.spec_wire(),
    {
        match self {
            CpuBoost::Low => 0x00,
            CpuBoost::Medium => 0x01,
            CpuBoost::High => 0x02,
            CpuBoost::Boost => 0x03,
            CpuBoost::Overclock => 0x04,
        }
    }

    pub fn from_wire(value: u8) -> (r: Option<CpuBoost>)
        ensures
            r == CpuBoost::spec_from_wire(value),
    {
        match value {
            0x00 => Some(CpuBoost::Low),
            0x01 => Some(CpuBoost::Medium),
            0x02 => Some(CpuBoost::High),
            0x03 => Some(CpuBoost::Boost),
            0x04 => Some(CpuBoost::Overclock),
            _ => None,
        }
    }
}

/// GPU power level while in the custom power mode.
#[derive(Clone, Copy, Debug, PartialEq, Eq, Structural)]
pub enum GpuBoost {
    Low,
    Medium,
    High,
}

impl GpuBoost {
    pub open spec fn spec_wire(self) -> u8 {
        match self {
            GpuBoost::Low => 0x00,
            GpuBoost::Medium => 0x01,
            GpuBoost::High => 0x02,
        }
    }

    pub open spec fn spec_from_wire(value: u8) -> Option<GpuBoost> {
        if value == 0x00 {
            Some(GpuBoost::Low)
        } else if value == 0x01 {
            Some(GpuBoost::Medium)
        } else if value == 0x02 {
            Some(GpuBoost::High)
        } else {
            None
        }
    }

    pub fn wire(self) -> (r: u8)
        ensures
            r == self.spec_wire(),
    {
        match self {
            GpuBoost::Low => 0x00,
            GpuBoost::Medium => 0x01,
            GpuBoost::High => 0x02,
        }
    }

    pub fn from_wire(value: u8) -> (r: Option<GpuBoost>)
        ensures
            r == GpuBoost::spec_from_wire(value),
    {
        match value {
            0x00 => Some(GpuBoost::Low),
            0x01 => Some(GpuBoost::Medium),
            0x02 => Some(GpuBoost::High),
            _ => None,
        }
    }
}

/// Overall power mode, with the boost pair carried inside the custom
/// variant.
#[derive(Clone, Copy, Debug, PartialEq, Eq, Structural)]
pub enum PowerMode {
    Balanced,
    Silent,
    Custom(CpuBoost, GpuBoost),
}

impl PowerMode {
    pub open spec fn spec_wire(self) -> u8 {
        match self {
            PowerMode::Balanced => 0x00,
            PowerMode::Silent => 0x05,
            PowerMode::Custom(_, _) => 0x04,
        }
    }

    pub fn wire(self) -> (r: u8)
        ensures
            r == self.spec_wire(),
    {
        match self {
            PowerMode::Balanced => 0x00,
            PowerMode::Silent => 0x05,
            PowerMode::Custom(_, _) => 0x04,
        }
    }
}

/// A compute cluster addressed by the boost commands.
#[derive(Clone, Copy, Debug, PartialEq, Eq, Structural)]
pub enum Zone {
    Cpu,
    Gpu,
}

impl Zone {
    pub open spec fn spec_wire(self) -> u8 {
        match self {
            Zone::Cpu => 0x01,
            Zone::Gpu => 0x02,
        }
    }

    pub fn wire(self) -> (r: u8)
        ensures
            r == self.spec_wire(),
    {
        match self {
            Zone::Cpu => 0x01,
            Zone::Gpu => 0x02,
        }
    }
}

/// The value of one hexadecimal digit byte, if it is one.
pub open spec fn hex_digit_value(b: u8) -> Option<u8> {
    if 0x30 <= b <= 0x39 {
        Some((b - 0x30) as u8)
    } else if 0x61 <= b <= 0x66 {
        Some((b - 0x61 + 10) as u8)
    } else if 0x41 <= b <= 0x46 {
        Some((b - 0x41 + 10) as u8)
    } else {
        None
    }
}

/// The value of a most-significant-first sequence of hexadecimal digit
/// bytes; an empty sequence or any non-digit byte gives nothing.
pub open spec fn hex_value(s: Seq<u8>) -> Option<int>
    decreases s.len(),
{
    if s.len() == 0 {
        None
    } else if s.len() == 1 {
        match hex_digit_value(s[0]) {
            Some(d) => Some(d as int),
            None => None,
        }
    } else {
        match (hex_value(s.drop_last()), hex_digit_value(s.last())) {
            (Some(h), Some(d)) => Some(16 * h + d),
            _ => None,
        }
    }
}

/// A non-empty digit prefix that already fails to parse cannot be
/// repaired by further digits.
proof fn lemma_hex_value_none_extends(s: Seq<u8>, i: int)
    requires
        1 <= i <= s.len(),
        hex_value(s.take(i)) is None,
    ensures
        hex_value(s) is None,
    decreases s.len(),
{
    if s.len() > i {
        assert(s.drop_last().take(i) =~= s.take(i));
        lemma_hex_value_none_extends(s.drop_last(), i);
    } else {
        assert(s.take(i) =~= s);
    }
}

/// The product id a command-line string names: an optional lower-case
/// hexadecimal prefix marker followed by hexadecimal digits whose value
/// fits sixteen bits.
pub open spec fn spec_parse_pid(s: Seq<u8>) -> Option<u16> {
    let digits = if s.len() >= 2 && s[0] == 0x30 && s[1] == 0x78 {
        s.skip(2)
    } else {
        s
    };
    match hex_value(digits) {
        Some(v) => if v <= 0xffff {
            Some(v as u16)
        } else {
            None
        },
        None => None,
    }
}

/// The value of one hexadecimal digit byte, if it is one.
fn hex_digit(b: u8) -> (r: Option<u8>)
    ensures
        r == hex_digit_value(b),
{
    if 0x30 <= b && b <= 0x39 {
        Some(b - 0x30)
    } else if 0x61 <= b && b <= 0x66 {
        Some(b - 0x61 + 10)
    } else if 0x41 <= b && b <= 0x46 {
        Some(b - 0x41 + 10)
    } else {
        None
    }
}

/// Parses the product id given on the command line: absent means the
/// default model, otherwise the string must be hexadecimal digits with
/// an optional lower-case prefix marker and must fit sixteen bits.
#[verifier::loop_isolation(false)]
pub fn parse_pid(pid: &Option<String>) -> (r: Option<u16>)
    ensures
        pid is None ==> r == Some(RAZER_BLADE_16_2023_PID),
        (pid matches Some(s) ==> r == spec_parse_pid(encode_utf8(s@))),
{
    let s = match pid {
        Some(s) => s,
        None => {
            return Some(RAZER_BLADE_16_2023_PID);
        },
    };
    let bytes = s.as_str().as_bytes();
    let ghost all = bytes@;
    let start: usize = if bytes.len() >= 2 && bytes[0] == 0x30 && bytes[1] == 0x78 {
        2
    } else {
        0
    };
    let ghost digits = all.skip(start as int);
    proof {
        assert(digits =~= if all.len() >= 2 && all[0] == 0x30 && all[1] == 0x78 {
            all.skip(2)
        } else {
            all
        });
    }
    if start >= bytes.len() {
        return None;
    }
    let mut acc: u32 = 0;
    let mut i: usize = start;
    while i < bytes.len()
        invariant
            start < bytes@.len(),
            start <= i <= bytes@.len(),
            acc <= 0x10000,
            digits == bytes@.skip(start as int),
            (i == start ==> acc == 0),
            (i > start ==> (match hex_value(bytes@.subrange(start as int, i as int)) {
                Some(v) => (v <= 0x10000 && acc == v) || (v > 0x10000 && acc == 0x10000),
                None => false,
            })),
        decreases bytes@.len() - i,
    {
        let d = match hex_digit(bytes[i]) {
            Some(d) => d,
            None => {
                proof {
                    let bad = bytes@.subrange(start as int, i + 1);
                    assert(bad.last() == bytes@[i as int]);
                    assert(bad.drop_last() =~= bytes@.subrange(start as int, i as int));
                    assert(hex_value(bad) is None);
                    assert(digits.take(i + 1 - start) =~= bad);
                    lemma_hex_value_none_extends(digits, i + 1 - start);
                }
                return None;
            },
        };
        let ghost prev = bytes@.subrange(start as int, i as int);
        let next: u32 = 16 * acc + d as u32;
        proof {
            let cur = bytes@.subrange(start as int, i + 1);
            assert(cur.last() == bytes@[i as int]);
            assert(cur.drop_last() =~= prev);
            if i > start {
                let v = hex_value(prev).unwrap();
                assert(hex_value(cur) == Some(16 * v + d as int));
                if v > 0x10000 {
                    assert(16 * v + d >= 16 * v);
                    assert(16 * v > 0x10000);
                }
            } else {
                assert(prev.len() == 0);
                assert(cur.len() == 1);
                assert(hex_value(cur) == Some(d as int));
            }
        }
        acc = if next > 0x10000 {
            0x10000
        } else {
            next
        };
        i = i + 1;
    }
    proof {
        assert(bytes@.subrange(start as int, bytes@.len() as int) =~= digits);
    }
    if acc > 0xffff {
        return None;
    }
    Some(acc as u16)
}

/// A mode write of the older layout: zero lead byte, the zone, the raw
/// power byte, and the fan-mode byte.
pub open spec fn is_legacy_mode_set(f: FrameView, zone: u8, power: u8, fan: u8) -> bool {
    is_request(f, CMD_SET_PERF_MODE, seq![0u8, zone, power, fan])
}

/// A fan-speed write of the older layout.
pub open spec fn is_legacy_rpm_set(f: FrameView, zone: u8, value: u8) -> bool {
    is_request(f, CMD_SET_FAN_RPM, seq![0u8, zone, value])
}

/// The raw byte a validated query reply reports at the value index.
pub open spec fn power_byte_read(e: Exchange) -> Option<u8> {
    if exchange_validated(e) {
        Some(reply_args(e)[2])
    } else {
        None
    }
}

/// Behaviour of the legacy power read: both zones queried in order,
/// stopping at the first failed exchange; equal bytes decode to the
/// mode, with the two boost levels read as well when the device is in
/// the custom power mode.
pub open spec fn legacy_power_read_behavior(
    h0: Seq<Exchange>,
    h1: Seq<Exchange>,
    r: Result<PowerMode, Error>,
) -> bool {
    let n = h0.len() as int;
    &&& h0.len() + 1 <= h1.len() <= h0.len() + 4
    &&& h1.take(n) == h0
    &&& is_mode_query(h1[n].request, 1)
    &&& (match power_byte_read(h1[n]) {
        None => h1.len() == h0.len() + 1 && r is Err,
        Some(b1) => {
            &&& h1.len() >= h0.len() + 2
            &&& is_mode_query(h1[n + 1].request, 2)
            &&& (match power_byte_read(h1[n + 1]) {
                None => h1.len() == h0.len() + 2 && r is Err,
                Some(b2) => if b1 != b2 {
                    h1.len() == h0.len() + 2 && r == Err::<PowerMode, Error>(Error::ModesMismatch)
                } else if b1 == 0 {
                    h1.len() == h0.len() + 2 && r == Ok::<PowerMode, Error>(PowerMode::Balanced)
                } else if b1 == 5 {
                    h1.len() == h0.len() + 2 && r == Ok::<PowerMode, Error>(PowerMode::Silent)
                } else if b1 == 4 {
                    &&& h1.len() >= h0.len() + 3
                    &&& is_request(h1[n + 2].request, CMD_GET_BOOST, seq![0u8, 1u8, 0u8])
                    &&& (match power_byte_read(h1[n + 2]) {
                        None => h1.len() == h0.len() + 3 && r is Err,
                        Some(cb) => match CpuBoost::spec_from_wire(cb) {
                            None => h1.len() == h0.len() + 3 && r == Err::<PowerMode, Error>(
                                Error::InvalidWireValue(cb),
                            ),
                            Some(c) => {
                                &&& h1.len() == h0.len() + 4
                                &&& is_request(h1[n + 3].request, CMD_GET_BOOST, seq![0u8, 2u8, 0u8])
                                &&& (match power_byte_read(h1[n + 3]) {
                                    None => r is Err,
                                    Some(gb) => match GpuBoost::spec_from_wire(gb) {
                                        None => r == Err::<PowerMode, Error>(
                                            Error::InvalidWireValue(gb),
                                        ),
                                        Some(g) => r == Ok::<PowerMode, Error>(
                                            PowerMode::Custom(c, g),
                                        ),
                                    },
                                })
                            },
                        },
                    })
                } else {
                    h1.len() == h0.len() + 2 && r == Err::<PowerMode, Error>(
                        Error::InvalidWireValue(b1),
                    )
                },
            })
        },
    })
}

/// The request kinds of the legacy power write, by position: a read
/// then a write per zone, and for the custom mode a read then a write
/// per cluster after that.
pub open spec fn legacy_power_write_frames(
    h: Seq<Exchange>,
    n: int,
    pm: PowerMode,
    fm: FanMode,
) -> bool {
    let k = h.len() - n;
    &&& (k >= 1 ==> is_mode_query(h[n].request, 1))
    &&& (k >= 2 ==> is_legacy_mode_set(h[n + 1].request, 1, pm.spec_wire(), fm.spec_wire()))
    &&& (k >= 3 ==> is_mode_query(h[n + 2].request, 2))
    &&& (k >= 4 ==> is_legacy_mode_set(h[n + 3].request, 2, pm.spec_wire(), fm.spec_wire()))
    &&& (k >= 5 ==> is_request(h[n + 4].request, CMD_GET_BOOST, seq![0u8, 1u8, 0u8]))
    &&& (k >= 6 ==> (pm matches PowerMode::Custom(c, _) && is_request(
        h[n + 5].request,
        CMD_SET_BOOST,
        seq![0u8, 1u8, c.spec_wire()],
    )))
    &&& (k >= 7 ==> is_request(h[n + 6].request, CMD_GET_BOOST, seq![0u8, 2u8, 0u8]))
    &&& (k >= 8 ==> (pm matches PowerMode::Custom(_, g) && is_request(
        h[n + 7].request,
        CMD_SET_BOOST,
        seq![0u8, 2u8, g.spec_wire()],
    )))
}

/// How many exchanges a fully successful legacy power write performs.
pub open spec fn legacy_power_write_len(pm: PowerMode) -> int {
    match pm {
        PowerMode::Custom(_, _) => 8,
        _ => 4,
    }
}

/// Behaviour of the legacy power write: the fixed read/write sequence
/// of [`legacy_power_write_frames`], stopping at the first failed
/// exchange, succeeding exactly when the whole sequence validated.
pub open spec fn legacy_power_write_behavior(
    h0: Seq<Exchange>,
    h1: Seq<Exchange>,
    r: Result<(), Error>,
    pm: PowerMode,
    fm: FanMode,
) -> bool {
    let n = h0.len() as int;
    &&& h0.len() + 1 <= h1.len() <= h0.len() + legacy_power_write_len(pm)
    &&& h1.take(n) == h0
    &&& legacy_power_write_frames(h1, n, pm, fm)
    &&& (forall|i: int| n <= i < h1.len() - 1 ==> exchange_validated(h1[i]))
    &&& ((r is Ok) <==> (h1.len() == h0.len() + legacy_power_write_len(pm) && exchange_validated(
        h1.last(),
    )))
}

/// How many exchanges one zone of the legacy fan write performs: a
/// read and a mode write, plus a speed write when the fan is manual.
pub open spec fn legacy_fan_block_len(fan_mode: FanMode) -> int {
    match fan_mode {
        FanMode::Auto => 2,
        FanMode::Manual(_) => 3,
    }
}

/// The speed byte of a legacy fan write: the requested speed in steps
/// of one hundred, truncated to a byte.
pub open spec fn legacy_rpm_byte(fan_mode: FanMode) -> u8 {
    match fan_mode {
        FanMode::Auto => 0,
        FanMode::Manual(rpm) => ((rpm / 100) % 256) as u8,
    }
}

/// An automatic fan needs no speed; a fixed speed must lie in the
/// supported band.
pub open spec fn legacy_rpm_in_range(fan_mode: FanMode) -> bool {
    match fan_mode {
        FanMode::Auto => true,
        FanMode::Manual(rpm) => crate::command::MIN_FAN_RPM <= rpm <= crate::command::MAX_FAN_RPM,
    }
}

/// The request kinds of the legacy fan write, by position.  Each zone
/// is read first -- always through the first zone's query, a quirk this
/// layer keeps for wire compatibility -- then the raw power byte read
/// back is written together with the new fan-mode byte, and a manual
/// fan adds a speed write.  No mode write is issued with an unknown
/// power byte, and a manual fan is written only while the device
/// reports the balanced power mode.
pub open spec fn legacy_fan_write_frames(h: Seq<Exchange>, n: int, fan_mode: FanMode) -> bool {
    let s = legacy_fan_block_len(fan_mode);
    let k = h.len() - n;
    &&& (k >= 1 ==> is_mode_query(h[n].request, 1))
    &&& (k >= 2 ==> (match power_byte_read(h[n]) {
        Some(pb) => {
            &&& is_legacy_mode_set(h[n + 1].request, 1, pb, fan_mode.spec_wire())
            &&& (pb == 0 || pb == 4 || pb == 5)
            &&& (fan_mode matches FanMode::Manual(_) ==> pb == 0)
        },
        None => false,
    }))
    &&& ((fan_mode matches FanMode::Manual(_)) && k >= 3 ==> is_legacy_rpm_set(
        h[n + 2].request,
        1,
        legacy_rpm_byte(fan_mode),
    ))
    &&& (k >= s + 1 ==> is_mode_query(h[n + s].request, 1))
    &&& (k >= s + 2 ==> (match power_byte_read(h[n + s]) {
        Some(pb) => {
            &&& is_legacy_mode_set(h[n + s + 1].request, 2, pb, fan_mode.spec_wire())
            &&& (pb == 0 || pb == 4 || pb == 5)
            &&& (fan_mode matches FanMode::Manual(_) ==> pb == 0)
        },
        None => false,
    }))
    &&& ((fan_mode matches FanMode::Manual(_)) && k >= s + 3 ==> is_legacy_rpm_set(
        h[n + s + 2].request,
        2,
        legacy_rpm_byte(fan_mode),
    ))
}

/// Behaviour of the legacy fan write: the per-zone sequence of
/// [`legacy_fan_write_frames`], stopping at the first failed exchange
/// or refused precondition, succeeding exactly when both zones' whole
/// sequences validated.
pub open spec fn legacy_fan_write_behavior(
    h0: Seq<Exchange>,
    h1: Seq<Exchange>,
    r: Result<(), Error>,
    fan_mode: FanMode,
) -> bool {
    let n = h0.len() as int;
    let s = legacy_fan_block_len(fan_mode);
    &&& h0.len() + 1 <= h1.len() <= h0.len() + 2 * s
    &&& h1.take(n) == h0
    &&& legacy_fan_write_frames(h1, n, fan_mode)
    &&& (forall|i: int| n <= i < h1.len() - 1 ==> exchange_validated(h1[i]))
    &&& ((r is Ok) <==> (h1.len() == h0.len() + 2 * s && exchange_validated(h1.last())))
}

/// One device handle of the legacy tool, over any transport.
pub struct Device0<T: Transport> {
    pub device: T,
}

impl<T: Transport> Device0<T> {
    /// Wraps an open transport.
    pub fn new(device: T) -> (r: Device0<T>)
        ensures
            r.device == device,
    {
        Device0 { device }
    }

    /// Exchanges one report and validates the reply against it.
    fn send_report(&mut self, report: Packet) -> (r: Result<Packet, Error>)
        requires
            report.wf(),
        ensures
            appended(old(self).device.history(), final(self).device.history(), 1),
            final(self).device.history().last().request == report@,
            (r matches Ok(p) ==> (p.wf() && final(self).device.history().last().response == Some(
                p@,
            ))),
            (r is Ok) <==> exchange_validated(final(self).device.history().last()),
    {
        let response = match self.device.exchange(&report) {
            Ok(p) => p,
            Err(e) => {
                return Err(e);
            },
        };
        response.ensure_matches_report(&report)
    }

    /// Reads one zone's raw power-mode byte.
    fn get_power_mode_command(&mut self, zone: u8) -> (r: Result<u8, Error>)
        requires
            zone == 1 || zone == 2,
        ensures
            appended(old(self).device.history(), final(self).device.history(), 1),
            is_mode_query(final(self).device.history().last().request, zone),
            (r matches Ok(v) ==> power_byte_read(final(self).device.history().last()) == Some(v)),
            (power_byte_read(final(self).device.history().last()) matches Some(v) ==> r == Ok::<
                u8,
                Error,
            >(v)),
    {
        let mut report = Packet::new(CMD_GET_PERF_MODE, &arg4(0, 0, 0, 0));
        report.set_args(&arg2(0, zone));
        proof {
            assert(report@.args =~= crate::packet::pad_args(seq![0u8, zone, 0u8, 0u8]));
        }
        let response = match self.send_report(report) {
            Ok(p) => p,
            Err(e) => {
                return Err(e);
            },
        };
        Ok(response.args[2])
    }

    /// Reads one cluster's raw boost byte.
    fn get_boost_command(&mut self, zone: u8) -> (r: Result<u8, Error>)
        requires
            zone == 1 || zone == 2,
        ensures
            appended(old(self).device.history(), final(self).device.history(), 1),
            is_request(
                final(self).device.history().last().request,
                CMD_GET_BOOST,
                seq![0u8, zone, 0u8],
            ),
            (r matches Ok(v) ==> power_byte_read(final(self).device.history().last()) == Some(v)),
            (power_byte_read(final(self).device.history().last()) matches Some(v) ==> r == Ok::<
                u8,
                Error,
            >(v)),
    {
        let mut report = Packet::new(CMD_GET_BOOST, &arg3(0, 0, 0));
        report.set_args(&arg2(0, zone));
        proof {
            assert(report@.args =~= crate::packet::pad_args(seq![0u8, zone, 0u8]));
        }
        let response = match self.send_report(report) {
            Ok(p) => p,
            Err(e) => {
                return Err(e);
            },
        };
        Ok(response.args[2])
    }

    /// Reads the power mode, requiring both zones to agree, and the
    /// boost pair when the device is in the custom power mode.
    pub fn get_power_mode(&mut self) -> (r: Result<PowerMode, Error>)
        ensures
            legacy_power_read_behavior(
                old(self).device.history(),
                final(self).device.history(),
                r,
            ),
    {
        let ghost h0 = self.device.history();
        let cpu_power_mode = match self.get_power_mode_command(1) {
            Ok(v) => v,
            Err(e) => {
                return Err(e);
            },
        };
        let ghost h1 = self.device.history();
        let gpu_power_mode = match self.get_power_mode_command(2) {
            Ok(v) => v,
            Err(e) => {
                proof {
                    lemma_history_extends(h0, h1, self.device.history());
                }
                return Err(e);
            },
        };
        let ghost h2 = self.device.history();
        proof {
            lemma_history_extends(h0, h1, h2);
        }
        if cpu_power_mode != gpu_power_mode {
            return Err(Error::ModesMismatch);
        }
        if cpu_power_mode == 0 {
            return Ok(PowerMode::Balanced);
        }
        if cpu_power_mode == 5 {
            return Ok(PowerMode::Silent);
        }
        if cpu_power_mode != 4 {
            return Err(Error::InvalidWireValue(cpu_power_mode));
        }
        let cpu_byte = match self.get_boost_command(1) {
            Ok(v) => v,
            Err(e) => {
                proof {
                    lemma_history_extends(h0, h2, self.device.history());
                }
                return Err(e);
            },
        };
        let ghost h3 = self.device.history();
        proof {
            lemma_history_extends(h0, h2, h3);
        }
        let cpu_boost = match CpuBoost::from_wire(cpu_byte) {
            Some(c) => c,
            None => {
                return Err(Error::InvalidWireValue(cpu_byte));
            },
        };
        let gpu_byte = match self.get_boost_command(2) {
            Ok(v) => v,
            Err(e) => {
                proof {
                    lemma_history_extends(h0, h3, self.device.history());
                }
                return Err(e);
            },
        };
        proof {
            lemma_history_extends(h0, h3, self.device.history());
        }
        let gpu_boost = match GpuBoost::from_wire(gpu_byte) {
            Some(g) => g,
            None => {
                return Err(Error::InvalidWireValue(gpu_byte));
            },
        };
        Ok(PowerMode::Custom(cpu_boost, gpu_boost))
    }

    /// Writes one zone's mode pair with the older layout.
    fn set_power_mode_command(&mut self, zone: u8, power_mode: u8, fan_mode: u8) -> (r: Result<
        (),
        Error,
    >)
        requires
            zone == 1 || zone == 2,
            power_mode == 0 || power_mode == 4 || power_mode == 5,
        ensures
            appended(old(self).device.history(), final(self).device.history(), 1),
            is_legacy_mode_set(
                final(self).device.history().last().request,
                zone,
                power_mode,
                fan_mode,
            ),
            (r is Ok) <==> exchange_validated(final(self).device.history().last()),
    {
        let report = Packet::new(CMD_SET_PERF_MODE, &arg4(0, zone, power_mode, fan_mode));
        match self.send_report(report) {
            Ok(_) => Ok(()),
            Err(e) => Err(e),
        }
    }

    /// Writes one cluster's boost byte.
    fn set_boost_command(&mut self, zone: u8, boost: u8) -> (r: Result<(), Error>)
        ensures
            appended(old(self).device.history(), final(self).device.history(), 1),
            is_request(
                final(self).device.history().last().request,
                CMD_SET_BOOST,
                seq![0u8, zone, boost],
            ),
            (r is Ok) <==> exchange_validated(final(self).device.history().last()),
    {
        let report = Packet::new(CMD_SET_BOOST, &arg3(0, zone, boost));
        match self.send_report(report) {
            Ok(_) => Ok(()),
            Err(e) => Err(e),
        }
    }

    /// Writes one zone's fan speed byte.
    fn set_rpm_command(&mut self, zone: u8, rpm: u8) -> (r: Result<(), Error>)
        ensures
            appended(old(self).device.history(), final(self).device.history(), 1),
            is_legacy_rpm_set(final(self).device.history().last().request, zone, rpm),
            (r is Ok) <==> exchange_validated(final(self).device.history().last()),
    {
        let report = Packet::new(CMD_SET_FAN_RPM, &arg3(0, zone, rpm));
        match self.send_report(report) {
            Ok(_) => Ok(()),
            Err(e) => Err(e),
        }
    }

    /// Writes the power mode to both zones, reading each zone before
    /// writing it, and the boost pair after that when the target mode
    /// is custom.  The first failed exchange stops the sequence.
    pub fn set_power_mode(&mut self, power_mode: PowerMode, fan_mode: FanMode) -> (r: Result<
        (),
        Error,
    >)
        ensures
            legacy_power_write_behavior(
                old(self).device.history(),
                final(self).device.history(),
                r,
                power_mode,
                fan_mode,
            ),
    {
        let ghost h0 = self.device.history();
        match self.get_power_mode_command(1) {
            Ok(_) => {},
            Err(e) => {
                return Err(e);
            },
        }
        let ghost h1 = self.device.history();
        match self.set_power_mode_command(1, power_mode.wire(), fan_mode.wire()) {
            Ok(_) => {},
            Err(e) => {
                proof {
                    lemma_history_extends(h0, h1, self.device.history());
                }
                return Err(e);
            },
        }
        let ghost h2 = self.device.history();
        proof {
            lemma_history_extends(h0, h1, h2);
        }
        match self.get_power_mode_command(2) {
            Ok(_) => {},
            Err(e) => {
                proof {
                    lemma_history_extends(h0, h2, self.device.history());
                }
                return Err(e);
            },
        }
        let ghost h3 = self.device.history();
        proof {
            lemma_history_extends(h0, h2, h3);
        }
        match self.set_power_mode_command(2, power_mode.wire(), fan_mode.wire()) {
            Ok(_) => {},
            Err(e) => {
                proof {
                    lemma_history_extends(h0, h3, self.device.history());
                }
                return Err(e);
            },
        }
        let ghost h4 = self.device.history();
        proof {
            lemma_history_extends(h0, h3, h4);
        }
        let (cpu_boost, gpu_boost) = match power_mode {
            PowerMode::Custom(c, g) => (c, g),
            _ => {
                return Ok(());
            },
        };
        match self.get_boost_command(1) {
            Ok(_) => {},
            Err(e) => {
                proof {
                    lemma_history_extends(h0, h4, self.device.history());
                }
                return Err(e);
            },
        }
        let ghost h5 = self.device.history();
        proof {
            lemma_history_extends(h0, h4, h5);
        }
        match self.set_boost_command(1, cpu_boost.wire()) {
            Ok(_) => {},
            Err(e) => {
                proof {
                    lemma_history_extends(h0, h5, self.device.history());
                }
                return Err(e);
            },
        }
        let ghost h6 = self.device.history();
        proof {
            lemma_history_extends(h0, h5, h6);
        }
        match self.get_boost_command(2) {
            Ok(_) => {},
            Err(e) => {
                proof {
                    lemma_history_extends(h0, h6, self.device.history());
                }
                return Err(e);
            },
        }
        let ghost h7 = self.device.history();
        proof {
            lemma_history_extends(h0, h6, h7);
        }
        let r = self.set_boost_command(2, gpu_boost.wire());
        proof {
            lemma_history_extends(h0, h7, self.device.history());
        }
        match r {
            Ok(_) => Ok(()),
            Err(e) => Err(e),
        }
    }

    /// Switches both zones between automatic fan control and a fixed
    /// speed, keeping each zone's power mode as read back immediately
    /// before its write.  A fixed speed must lie in the supported band
    /// and is refused before any exchange otherwise; it is also refused
    /// before a zone's mode write unless that zone reads back the
    /// balanced power mode, where alone the firmware accepts a manual
    /// fan.
    pub fn set_fan_mode(&mut self, fan_mode: FanMode) -> (r: Result<(), Error>)
        ensures
            !legacy_rpm_in_range(fan_mode) ==> (final(self).device.history() == old(
                self,
            ).device.history() && (fan_mode matches FanMode::Manual(rpm) ==> r == Err::<(), Error>(
                (Error::RpmOutOfRange { rpm }),
            ))),
            legacy_rpm_in_range(fan_mode) ==> legacy_fan_write_behavior(
                old(self).device.history(),
                final(self).device.history(),
                r,
                fan_mode,
            ),
    {
        let ghost h0 = self.device.history();
        let manual = match fan_mode {
            FanMode::Manual(_) => true,
            FanMode::Auto => false,
        };
        match fan_mode {
            FanMode::Manual(rpm) => {
                if !(crate::command::MIN_FAN_RPM <= rpm && rpm <= crate::command::MAX_FAN_RPM) {
                    return Err(Error::RpmOutOfRange { rpm });
                }
            },
            FanMode::Auto => {},
        }
        let rpm_byte: u8 = match fan_mode {
            FanMode::Manual(rpm) => ((rpm / 100) % 256) as u8,
            FanMode::Auto => 0,
        };
        let pb1 = match self.get_power_mode_command(1) {
            Ok(v) => v,
            Err(e) => {
                return Err(e);
            },
        };
        let ghost h1 = self.device.history();
        if !(pb1 == 0 || pb1 == 4 || pb1 == 5) {
            return Err(Error::InvalidWireValue(pb1));
        }
        if manual && pb1 != 0 {
            return Err(Error::ManualFanRequiresBalanced);
        }
        match self.set_power_mode_command(1, pb1, fan_mode.wire()) {
            Ok(_) => {},
            Err(e) => {
                proof {
                    lemma_history_extends(h0, h1, self.device.history());
                }
                return Err(e);
            },
        }
        let ghost h2 = self.device.history();
        proof {
            lemma_history_extends(h0, h1, h2);
        }
        if manual {
            match self.set_rpm_command(1, rpm_byte) {
                Ok(_) => {},
                Err(e) => {
                    proof {
                        lemma_history_extends(h0, h2, self.device.history());
                    }
                    return Err(e);
                },
            }
        }
        let ghost h3 = self.device.history();
        proof {
            if manual {
                lemma_history_extends(h0, h2, h3);
            }
        }
        let pb2 = match self.get_power_mode_command(1) {
            Ok(v) => v,
            Err(e) => {
                proof {
                    lemma_history_extends(h0, h3, self.device.history());
                }
                return Err(e);
            },
        };
        let ghost h4 = self.device.history();
        proof {
            lemma_history_extends(h0, h3, h4);
        }
        if !(pb2 == 0 || pb2 == 4 || pb2 == 5) {
            return Err(Error::InvalidWireValue(pb2));
        }
        if manual && pb2 != 0 {
            return Err(Error::ManualFanRequiresBalanced);
        }
        match self.set_power_mode_command(2, pb2, fan_mode.wire()) {
            Ok(_) => {},
            Err(e) => {
                proof {
                    lemma_history_extends(h0, h4, self.device.history());
                }
                return Err(e);
            },
        }
        let ghost h5 = self.device.history();
        proof {
            lemma_history_extends(h0, h4, h5);
        }
        if manual {
            let r6 = self.set_rpm_command(2, rpm_byte);
            proof {
                lemma_history_extends(h0, h5, self.device.history());
            }
            match r6 {
                Ok(_) => Ok(()),
                Err(e) => Err(e),
            }
        } else {
            Ok(())
        }
    }

    /// Sends the undocumented command with one argument byte.
    pub fn set_undocumented(&mut self, value: u8) -> (r: Result<(), Error>)
        ensures
            appended(old(self).device.history(), final(self).device.history(), 1),
            is_request(
                final(self).device.history().last().request,
                CMD_SET_MAX_FAN_SPEED,
                seq![value],
            ),
            (r is Ok) <==> exchange_validated(final(self).device.history().last()),
    {
        let mut args: Vec<u8> = Vec::new();
        args.push(value);
        proof {
            assert(args@ =~= seq![value]);
        }
        let report = Packet::new(CMD_SET_MAX_FAN_SPEED, &args);
        match self.send_report(report) {
            Ok(_) => Ok(()),
            Err(e) => Err(e),
        }
    }
}

/// The command-line surface of the legacy tool.
#[derive(Debug)]
pub struct Razerctl {
    pub command: RazerCtlCommand,
    pub pid: Option<String>,
}

/// The legacy tool's top-level commands.
#[derive(Debug)]
pub enum RazerCtlCommand {
    Enumerate,
    Power(PowerCommand),
    Fan(FanCommand),
    Undocumented { value: u8 },
}

/// The power command group.
#[derive(Debug)]
pub struct PowerCommand {
    pub subcommand: PowerSubcommand,
}

/// Reading or writing the power mode.
#[derive(Debug)]
pub enum PowerSubcommand {
    Get,
    SetMode(PowerSetSubcommand),
}

/// The power write command group.
#[derive(Debug)]
pub struct PowerSetSubcommand {
    pub subcommand: PowerSetSubcommandArgs,
}

/// The target of a power write.
#[derive(Debug)]
pub enum PowerSetSubcommandArgs {
    Balanced,
    Silent,
    Custom { cpu_boost: CpuBoost, gpu_boost: GpuBoost },
}

/// The fan command group.
#[derive(Debug)]
pub struct FanCommand {
    pub subcommand: FanSubcommand,
}

/// The target of a fan write.
#[derive(Debug)]
pub enum FanSubcommand {
    Auto,
    SetRpm { rpm: u16 },
}

} // verus!
