//! One operation per firmware feature.  Every operation builds a request
//! frame, exchanges it through a [`Transport`], validates the reply, and
//! enforces the firmware's mode preconditions before writing anything.
//!
//! Each contract is stated over the transport's exchange history: which
//! requests the operation appends, in which order, which replies let it
//! report success, and that precondition failures happen before the
//! guarded write is attempted.

use vstd::prelude::*;

use crate::error::{Error, ModeRequirement};
use crate::packet::{is_request, valid_reply, FrameView, Packet, ARGS_LEN};
use crate::transport::{Exchange, Transport};
use crate::types::{
    BatteryCare, Cluster, CpuBoost, FanMode, FanZone, GpuBoost, LightsAlwaysOn, LogoMode,
    MaxFanSpeedMode, PerfMode,
};

verus! {

/// Sets the fan speed of one zone.
pub const CMD_SET_FAN_RPM: u16 = 0x0d01;

/// Writes the performance/fan mode pair of one zone.
pub const CMD_SET_PERF_MODE: u16 = 0x0d02;

/// Writes the boost level of one cluster.
pub const CMD_SET_BOOST: u16 = 0x0d07;

/// Reads the fan speed of one zone.
pub const CMD_GET_FAN_RPM: u16 = 0x0d81;

/// Reads the performance/fan mode pair of one zone.
pub const CMD_GET_PERF_MODE: u16 = 0x0d82;

/// Reads the boost level of one cluster.
pub const CMD_GET_BOOST: u16 = 0x0d87;

/// Powers the lid logo on or off.
pub const CMD_SET_LOGO_POWER: u16 = 0x0300;

/// Writes the stored lid-logo animation mode.
pub const CMD_SET_LOGO_ANIMATION: u16 = 0x0302;

/// Reads the lid-logo power state.
pub const CMD_GET_LOGO_POWER: u16 = 0x0380;

/// Reads the stored lid-logo animation mode.
pub const CMD_GET_LOGO_ANIMATION: u16 = 0x0382;

/// Writes the keyboard backlight brightness.
pub const CMD_SET_KBD_BRIGHTNESS: u16 = 0x0303;

/// Reads the keyboard backlight brightness.
pub const CMD_GET_KBD_BRIGHTNESS: u16 = 0x0383;

/// Writes the lights-always-on switch.
pub const CMD_SET_LIGHTS_ALWAYS_ON: u16 = 0x0004;

/// Reads the lights-always-on switch.
pub const CMD_GET_LIGHTS_ALWAYS_ON: u16 = 0x0084;

/// Writes the battery-care switch.
pub const CMD_SET_BATTERY_CARE: u16 = 0x0712;

/// Reads the battery-care switch.
pub const CMD_GET_BATTERY_CARE: u16 = 0x0792;

/// Writes the max-fan-speed switch.
pub const CMD_SET_MAX_FAN_SPEED: u16 = 0x070f;

/// Reads the max-fan-speed switch.
pub const CMD_GET_MAX_FAN_SPEED: u16 = 0x078f;

/// Lowest settable fan speed, in revolutions per minute.
pub const MIN_FAN_RPM: u16 = 2000;

/// Highest settable fan speed, in revolutions per minute.
pub const MAX_FAN_RPM: u16 = 5000;

/// `h1` is `h0` with exactly `k` exchanges appended.
pub open spec fn appended(h0: Seq<Exchange>, h1: Seq<Exchange>, k: int) -> bool {
    &&& h1.len() == h0.len() + k
    &&& h1.take(h0.len() as int) == h0
}

/// Appending preserves every earlier history entry.
pub proof fn lemma_appended_index(h0: Seq<Exchange>, h1: Seq<Exchange>, k: int, i: int)
    requires
        appended(h0, h1, k),
        k >= 0,
        0 <= i < h0.len(),
    ensures
        h1[i] == h0[i],
{
    assert(h1.take(h0.len() as int)[i] == h0[i]);
}

/// Two appends in a row are one longer append.
pub proof fn lemma_appended_trans(
    h0: Seq<Exchange>,
    h1: Seq<Exchange>,
    h2: Seq<Exchange>,
    k1: int,
    k2: int,
)
    requires
        k1 >= 0,
        k2 >= 0,
        appended(h0, h1, k1),
        appended(h1, h2, k2),
    ensures
        appended(h0, h2, k1 + k2),
{
    assert forall|i: int| 0 <= i < h0.len() implies h2.take(h0.len() as int)[i] == h0[i] by {
        assert(h1.take(h0.len() as int)[i] == h0[i]);
        assert(h2.take(h1.len() as int)[i] == h1[i]);
    }
    assert(h2.take(h0.len() as int) =~= h0);
}

/// The payload of the reply of an exchange, or the empty sequence when
/// the transport failed.
pub open spec fn reply_args(e: Exchange) -> Seq<u8> {
    match e.response {
        Some(v) => v.args,
        None => Seq::empty(),
    }
}

/// The exchange brought back a reply that passes response validation:
/// correlated with the request, consistent remaining-packets field, and
/// a successful status byte.
pub open spec fn exchange_validated(e: Exchange) -> bool {
    match e.response {
        Some(v) => valid_reply(v, e.request),
        None => false,
    }
}

/// The exchange brought back a validated reply whose first `n` payload
/// bytes echo the request.
pub open spec fn exchange_succeeded(e: Exchange, n: int) -> bool {
    exchange_validated(e) && reply_args(e).take(n) == e.request.args.take(n)
}

/// The mode query sent to one zone.
pub open spec fn is_mode_query(f: FrameView, zone: u8) -> bool {
    is_request(f, CMD_GET_PERF_MODE, seq![0u8, zone, 0u8, 0u8])
}

/// The payload of a mode write to one zone.
pub open spec fn mode_set_args(zone: u8, perf_mode: PerfMode, fan_mode: FanMode) -> Seq<u8> {
    seq![1u8, zone, perf_mode.spec_wire(), fan_mode.spec_wire()]
}

/// The boost query sent to one cluster.
pub open spec fn is_boost_query(f: FrameView, cluster: Cluster) -> bool {
    is_request(f, CMD_GET_BOOST, seq![0u8, cluster.spec_wire(), 0u8])
}

/// The boost write sent to one cluster.
pub open spec fn is_boost_set(f: FrameView, cluster: Cluster, boost: u8) -> bool {
    is_request(f, CMD_SET_BOOST, seq![0u8, cluster.spec_wire(), boost])
}

/// The payload of a fan-speed write to one zone; the firmware encodes
/// speed in steps of one hundred revolutions per minute, so the
/// requested speed is truncated to the nearest lower multiple.
pub open spec fn rpm_set_args(zone: u8, rpm: u16) -> Seq<u8>
    recommends
        MIN_FAN_RPM <= rpm <= MAX_FAN_RPM,
{
    seq![0u8, zone, (rpm / 100) as u8]
}

/// What a mode-query reply decodes to, read from the third and fourth
/// payload bytes.
pub open spec fn spec_interpret_mode_reply(args: Seq<u8>) -> Result<(PerfMode, FanMode), Error> {
    match PerfMode::spec_from_wire(args[2]) {
        None => Err(Error::InvalidWireValue(args[2])),
        Some(p) => match FanMode::spec_from_wire(args[3]) {
            None => Err(Error::InvalidWireValue(args[3])),
            Some(f) => Ok((p, f)),
        },
    }
}

/// The mode pair a validated mode-query exchange reports, when its reply
/// decodes.
pub open spec fn mode_reply_value(e: Exchange) -> Option<(PerfMode, FanMode)> {
    if exchange_validated(e) {
        match spec_interpret_mode_reply(reply_args(e)) {
            Ok(m) => Some(m),
            Err(_) => None,
        }
    } else {
        None
    }
}

/// The mode pair a dual-zone read reports: both exchanges validated,
/// both replies decoded, and both zones in agreement.
pub open spec fn mode_read_value(e1: Exchange, e2: Exchange) -> Option<(PerfMode, FanMode)> {
    match (mode_reply_value(e1), mode_reply_value(e2)) {
        (Some(m1), Some(m2)) => if m1 == m2 {
            Some(m1)
        } else {
            None
        },
        _ => None,
    }
}

/// Behaviour of a dual-zone mode read: exactly one query per zone, in
/// zone order, success exactly when both zones validated, decoded, and
/// agreed, and a distinguished error when they decoded but disagreed.
pub open spec fn mode_read_behavior(
    h0: Seq<Exchange>,
    h1: Seq<Exchange>,
    r: Result<(PerfMode, FanMode), Error>,
) -> bool {
    let n = h0.len() as int;
    &&& appended(h0, h1, 2)
    &&& is_mode_query(h1[n].request, 1)
    &&& is_mode_query(h1[n + 1].request, 2)
    &&& (match r {
        Ok(m) => mode_read_value(h1[n], h1[n + 1]) == Some(m),
        Err(_) => mode_read_value(h1[n], h1[n + 1]) is None,
    })
    &&& (match mode_read_value(h1[n], h1[n + 1]) {
        Some(m) => r == Ok::<(PerfMode, FanMode), Error>(m),
        None => r is Err,
    })
    &&& (match (mode_reply_value(h1[n]), mode_reply_value(h1[n + 1])) {
        (Some(m1), Some(m2)) => m1 != m2 ==> r == Err::<(PerfMode, FanMode), Error>(
            Error::ModesMismatch,
        ),
        _ => true,
    })
}

/// Behaviour of a write issued to both zones in order: the first zone's
/// frame always goes out, the second goes out only once the first zone's
/// reply validated and echoed, and the operation succeeds exactly when
/// both did.  A failure between the two writes is surfaced, not rolled
/// back.
pub open spec fn dual_zone_write_behavior(
    h0: Seq<Exchange>,
    h1: Seq<Exchange>,
    ok: bool,
    command: u16,
    a1: Seq<u8>,
    a2: Seq<u8>,
) -> bool {
    let n = h0.len() as int;
    &&& h0.len() + 1 <= h1.len() <= h0.len() + 2
    &&& h1.take(n) == h0
    &&& is_request(h1[n].request, command, a1)
    &&& (h1.len() == h0.len() + 2 ==> exchange_succeeded(h1[n], a1.len() as int) && is_request(
        h1[n + 1].request,
        command,
        a2,
    ))
    &&& (h1.len() == h0.len() + 1 ==> !exchange_succeeded(h1[n], a1.len() as int))
    &&& (ok <==> h1.len() == h0.len() + 2 && exchange_succeeded(h1[n + 1], a2.len() as int))
}

/// Builds a one-byte payload.
pub(crate) fn arg1(a0: u8) -> (r: Vec<u8>)
    ensures
        r@ == seq![a0],
{
    let mut v: Vec<u8> = Vec::new();
    v.push(a0);
    proof {
        assert(v@ =~= seq![a0]);
    }
    v
}

/// Builds a two-byte payload.
pub(crate) fn arg2(a0: u8, a1: u8) -> (r: Vec<u8>)
    ensures
        r@ == seq![a0, a1],
{
    let mut v: Vec<u8> = Vec::new();
    v.push(a0);
    v.push(a1);
    proof {
        assert(v@ =~= seq![a0, a1]);
    }
    v
}

/// Builds a three-byte payload.
pub(crate) fn arg3(a0: u8, a1: u8, a2: u8) -> (r: Vec<u8>)
    ensures
        r@ == seq![a0, a1, a2],
{
    let mut v: Vec<u8> = Vec::new();
    v.push(a0);
    v.push(a1);
    v.push(a2);
    proof {
        assert(v@ =~= seq![a0, a1, a2]);
    }
    v
}

/// Builds a four-byte payload.
pub(crate) fn arg4(a0: u8, a1: u8, a2: u8, a3: u8) -> (r: Vec<u8>)
    ensures
        r@ == seq![a0, a1, a2, a3],
{
    let mut v: Vec<u8> = Vec::new();
    v.push(a0);
    v.push(a1);
    v.push(a2);
    v.push(a3);
    proof {
        assert(v@ =~= seq![a0, a1, a2, a3]);
    }
    v
}

/// Builds a request, exchanges it, and validates the reply against the
/// request, with no echo check: the primitive behind the query
/// operations whose replies carry fresh data instead of an echo.
fn send_packet<T: Transport>(t: &mut T, command: u16, args: &Vec<u8>) -> (r: Result<Packet, Error>)
    requires
        args@.len() <= ARGS_LEN,
    ensures
        appended(old(t).history(), final(t).history(), 1),
        is_request(final(t).history().last().request, command, args@),
        (r matches Ok(p) ==> (p.wf() && final(t).history().last().response == Some(p@))),
        (r is Ok) <==> exchange_validated(final(t).history().last()),
{
    let request = Packet::new(command, args);
    match t.exchange(&request) {
        Ok(response) => response.ensure_matches_report(&request),
        Err(e) => Err(e),
    }
}

/// Sends a command whose reply must begin with the exact bytes that were
/// sent: the echo contract most write operations follow.
fn send_command<T: Transport>(t: &mut T, command: u16, args: &Vec<u8>) -> (r: Result<Packet, Error>)
    requires
        args@.len() <= ARGS_LEN,
    ensures
        appended(old(t).history(), final(t).history(), 1),
        is_request(final(t).history().last().request, command, args@),
        (r matches Ok(p) ==> (p.wf() && final(t).history().last().response == Some(p@))),
        (r is Ok) <==> exchange_succeeded(final(t).history().last(), args@.len() as int),
{
    let response = match send_packet(t, command, args) {
        Ok(p) => p,
        Err(e) => {
            return Err(e);
        },
    };
    proof {
        crate::packet::lemma_pad_args_prefix(args@);
    }
    if response.args_start_with(args) {
        Ok(response)
    } else {
        Err(Error::EchoMismatch)
    }
}

/// Decodes the mode pair out of one zone's validated mode-query reply.
/// This is the whole interpretation of such a reply, total over every
/// possible payload.
pub fn interpret_mode_reply(response: &Packet) -> (r: Result<(PerfMode, FanMode), Error>)
    requires
        response.wf(),
    ensures
        r == spec_interpret_mode_reply(response@.args),
{
    let perf_byte = response.args[2];
    let fan_byte = response.args[3];
    match PerfMode::from_wire(perf_byte) {
        None => Err(Error::InvalidWireValue(perf_byte)),
        Some(p) => match FanMode::from_wire(fan_byte) {
            None => Err(Error::InvalidWireValue(fan_byte)),
            Some(f) => Ok((p, f)),
        },
    }
}

/// Reads the performance/fan mode pair from both zones and requires them
/// to be identical; a disagreement means the device is in an
/// inconsistent, unsupported state and is a hard error.
pub fn get_perf_mode<T: Transport>(t: &mut T) -> (r: Result<(PerfMode, FanMode), Error>)
    ensures
        mode_read_behavior(old(t).history(), final(t).history(), r),
{
    let ghost h0 = t.history();
    let args1 = arg4(0, 1, 0, 0);
    let r1 = send_packet(t, CMD_GET_PERF_MODE, &args1);
    let ghost h1 = t.history();
    let args2 = arg4(0, 2, 0, 0);
    let r2 = send_packet(t, CMD_GET_PERF_MODE, &args2);
    let ghost h2 = t.history();
    proof {
        lemma_appended_trans(h0, h1, h2, 1, 1);
        lemma_appended_index(h1, h2, 1, h0.len() as int);
        assert(h2[h0.len() as int] == h1.last());
    }
    let p1 = match r1 {
        Ok(p) => p,
        Err(e) => {
            return Err(e);
        },
    };
    let p2 = match r2 {
        Ok(p) => p,
        Err(e) => {
            return Err(e);
        },
    };
    let m1 = match interpret_mode_reply(&p1) {
        Ok(m) => m,
        Err(e) => {
            return Err(e);
        },
    };
    let m2 = match interpret_mode_reply(&p2) {
        Ok(m) => m,
        Err(e) => {
            return Err(e);
        },
    };
    if m1.0 == m2.0 && m1.1 == m2.1 {
        Ok(m1)
    } else {
        Err(Error::ModesMismatch)
    }
}

/// Writes the given performance mode together with a fan mode to both
/// zones.  A manual fan mode is legal only in the balanced performance
/// mode and is refused before any exchange otherwise.
fn set_perf_mode_with_fan<T: Transport>(
    t: &mut T,
    perf_mode: PerfMode,
    fan_mode: FanMode,
) -> (r: Result<(), Error>)
    ensures
        fan_mode == FanMode::Manual && perf_mode != PerfMode::Balanced ==> (r == Err::<(), Error>(
            Error::ManualFanRequiresBalanced,
        ) && final(t).history() == old(t).history()),
        !(fan_mode == FanMode::Manual && perf_mode != PerfMode::Balanced)
            ==> dual_zone_write_behavior(
            old(t).history(),
            final(t).history(),
            r is Ok,
            CMD_SET_PERF_MODE,
            mode_set_args(1, perf_mode, fan_mode),
            mode_set_args(2, perf_mode, fan_mode),
        ),
{
    if fan_mode == FanMode::Manual && perf_mode != PerfMode::Balanced {
        return Err(Error::ManualFanRequiresBalanced);
    }
    let ghost h0 = t.history();
    let args1 = arg4(1, 1, perf_mode.wire(), fan_mode.wire());
    match send_command(t, CMD_SET_PERF_MODE, &args1) {
        Ok(_) => {},
        Err(e) => {
            return Err(e);
        },
    }
    let ghost h1 = t.history();
    let args2 = arg4(1, 2, perf_mode.wire(), fan_mode.wire());
    let r2 = send_command(t, CMD_SET_PERF_MODE, &args2);
    proof {
        lemma_appended_trans(h0, h1, t.history(), 1, 1);
        lemma_appended_index(h1, t.history(), 1, h0.len() as int);
    }
    match r2 {
        Ok(_) => Ok(()),
        Err(e) => Err(e),
    }
}

/// Writes the given performance mode to both zones, with the fan in
/// automatic mode.
pub fn set_perf_mode<T: Transport>(t: &mut T, perf_mode: PerfMode) -> (r: Result<(), Error>)
    ensures
        dual_zone_write_behavior(
            old(t).history(),
            final(t).history(),
            r is Ok,
            CMD_SET_PERF_MODE,
            mode_set_args(1, perf_mode, FanMode::Auto),
            mode_set_args(2, perf_mode, FanMode::Auto),
        ),
{
    set_perf_mode_with_fan(t, perf_mode, FanMode::Auto)
}

/// Behaviour of the fan-mode toggle: a fresh dual-zone mode read, a
/// precondition check that the device is in the balanced performance
/// mode, and only then the dual-zone mode write with the new fan mode.
pub open spec fn fan_mode_write_behavior(
    h0: Seq<Exchange>,
    h1: Seq<Exchange>,
    r: Result<(), Error>,
    mode: FanMode,
) -> bool {
    let n = h0.len() as int;
    &&& h0.len() + 2 <= h1.len() <= h0.len() + 4
    &&& h1.take(n) == h0
    &&& is_mode_query(h1[n].request, 1)
    &&& is_mode_query(h1[n + 1].request, 2)
    &&& (match mode_read_value(h1[n], h1[n + 1]) {
        Some(m) => if m.0 == PerfMode::Balanced {
            dual_zone_write_behavior(
                h1.take(n + 2),
                h1,
                r is Ok,
                CMD_SET_PERF_MODE,
                mode_set_args(1, PerfMode::Balanced, mode),
                mode_set_args(2, PerfMode::Balanced, mode),
            )
        } else {
            h1.len() == h0.len() + 2 && r == Err::<(), Error>(
                (Error::ModePrecondition {
                    required: ModeRequirement::BalancedPerf,
                    actual_perf: m.0,
                    actual_fan: m.1,
                }),
            )
        },
        None => h1.len() == h0.len() + 2 && r is Err,
    })
}

/// Switches the fan between automatic and manual control.  Legal only
/// while the performance mode is balanced; the current mode is read
/// fresh from the device immediately before the write.
pub fn set_fan_mode<T: Transport>(t: &mut T, mode: FanMode) -> (r: Result<(), Error>)
    ensures
        fan_mode_write_behavior(old(t).history(), final(t).history(), r, mode),
{
    let ghost h0 = t.history();
    let m = match get_perf_mode(t) {
        Ok(m) => m,
        Err(e) => {
            return Err(e);
        },
    };
    let ghost h1 = t.history();
    if m.0 != PerfMode::Balanced {
        return Err(Error::ModePrecondition {
            required: ModeRequirement::BalancedPerf,
            actual_perf: m.0,
            actual_fan: m.1,
        });
    }
    let r = set_perf_mode_with_fan(t, PerfMode::Balanced, mode);
    proof {
        let n = h0.len() as int;
        assert(t.history().take(n + 2) =~= h1);
        lemma_appended_index(h1, t.history(), t.history().len() - h1.len(), n);
        lemma_appended_index(h1, t.history(), t.history().len() - h1.len(), n + 1);
        assert forall|i: int| 0 <= i < n implies t.history().take(n)[i] == h0[i] by {
            assert(h1.take(n)[i] == h0[i]);
            assert(t.history().take(h1.len() as int)[i] == h1[i]);
        }
        assert(t.history().take(n) =~= h0);
    }
    r
}

/// Behaviour of the fan-speed write: a fresh dual-zone mode read, a
/// precondition check that the device is exactly in balanced mode with
/// manual fan, and only then one speed write per fan zone.
pub open spec fn fan_rpm_write_behavior(
    h0: Seq<Exchange>,
    h1: Seq<Exchange>,
    r: Result<(), Error>,
    rpm: u16,
) -> bool {
    let n = h0.len() as int;
    &&& h0.len() + 2 <= h1.len() <= h0.len() + 4
    &&& h1.take(n) == h0
    &&& is_mode_query(h1[n].request, 1)
    &&& is_mode_query(h1[n + 1].request, 2)
    &&& (match mode_read_value(h1[n], h1[n + 1]) {
        Some(m) => if m == (PerfMode::Balanced, FanMode::Manual) {
            dual_zone_write_behavior(
                h1.take(n + 2),
                h1,
                r is Ok,
                CMD_SET_FAN_RPM,
                rpm_set_args(1, rpm),
                rpm_set_args(2, rpm),
            )
        } else {
            h1.len() == h0.len() + 2 && r == Err::<(), Error>(
                (Error::ModePrecondition {
                    required: ModeRequirement::BalancedManual,
                    actual_perf: m.0,
                    actual_fan: m.1,
                }),
            )
        },
        None => h1.len() == h0.len() + 2 && r is Err,
    })
}

/// Sets the fan speed of both fan zones.  The speed must lie in
/// `[MIN_FAN_RPM, MAX_FAN_RPM]` and is refused before any exchange
/// otherwise; the firmware encodes speed in steps of one hundred, so
/// the requested value is truncated to the nearest lower multiple.
/// Legal only while the device is in balanced mode with manual fan,
/// read fresh from the device immediately before the writes.
pub fn set_fan_rpm<T: Transport>(t: &mut T, rpm: u16) -> (r: Result<(), Error>)
    ensures
        !(MIN_FAN_RPM <= rpm <= MAX_FAN_RPM) ==> (r == Err::<(), Error>(
            (Error::RpmOutOfRange { rpm }),
        ) && final(t).history() == old(t).history()),
        MIN_FAN_RPM <= rpm <= MAX_FAN_RPM ==> fan_rpm_write_behavior(
            old(t).history(),
            final(t).history(),
            r,
            rpm,
        ),
{
    if !(MIN_FAN_RPM <= rpm && rpm <= MAX_FAN_RPM) {
        return Err(Error::RpmOutOfRange { rpm });
    }
    let ghost h0 = t.history();
    let m = match get_perf_mode(t) {
        Ok(m) => m,
        Err(e) => {
            return Err(e);
        },
    };
    let ghost h1 = t.history();
    if !(m.0 == PerfMode::Balanced && m.1 == FanMode::Manual) {
        return Err(Error::ModePrecondition {
            required: ModeRequirement::BalancedManual,
            actual_perf: m.0,
            actual_fan: m.1,
        });
    }
    let value = (rpm / 100) as u8;
    let ghost n = h0.len() as int;
    let args1 = arg3(0, 1, value);
    match send_command(t, CMD_SET_FAN_RPM, &args1) {
        Ok(_) => {},
        Err(e) => {
            proof {
                read_then_write_prefix_proof(h0, h1, t.history());
            }
            return Err(e);
        },
    }
    let ghost h2 = t.history();
    let args2 = arg3(0, 2, value);
    let r2 = send_command(t, CMD_SET_FAN_RPM, &args2);
    proof {
        lemma_appended_trans(h1, h2, t.history(), 1, 1);
        lemma_appended_index(h2, t.history(), 1, h1.len() as int);
        read_then_write_prefix_proof(h0, h1, t.history());
    }
    match r2 {
        Ok(_) => Ok(()),
        Err(e) => Err(e),
    }
}

/// Extending a history preserves its prefix and every already-recorded
/// entry.
pub(crate) proof fn lemma_history_extends(h0: Seq<Exchange>, h1: Seq<Exchange>, h2: Seq<Exchange>)
    requires
        h0.len() <= h1.len() <= h2.len(),
        h1.take(h0.len() as int) == h0,
        h2.take(h1.len() as int) == h1,
    ensures
        h2.take(h0.len() as int) == h0,
        forall|i: int| 0 <= i < h1.len() ==> h2[i] == h1[i],
{
    assert forall|i: int| 0 <= i < h1.len() implies h2[i] == h1[i] by {
        assert(h2.take(h1.len() as int)[i] == h2[i]);
    }
    assert forall|i: int| 0 <= i < h0.len() implies h2.take(h0.len() as int)[i] == h0[i] by {
        assert(h1.take(h0.len() as int)[i] == h0[i]);
    }
    assert(h2.take(h0.len() as int) =~= h0);
}

/// The prefix bookkeeping shared by the exits of a read-then-write
/// operation after its mode read: the queries stay at their positions
/// and the history up to them is unchanged.
proof fn read_then_write_prefix_proof(h0: Seq<Exchange>, h1: Seq<Exchange>, h2: Seq<Exchange>)
    requires
        appended(h0, h1, 2),
        h2.len() >= h1.len(),
        h2.take(h1.len() as int) == h1,
    ensures
        h2.take(h0.len() as int) == h0,
        h2[h0.len() as int] == h1[h0.len() as int],
        h2[h0.len() as int + 1] == h1[h0.len() as int + 1],
        h2.take(h0.len() as int + 2) == h1,
{
    let n = h0.len() as int;
    assert forall|i: int| 0 <= i < h1.len() implies h2[i] == h1[i] by {
        assert(h2.take(h1.len() as int)[i] == h2[i]);
    }
    assert forall|i: int| 0 <= i < n implies h2.take(n)[i] == h0[i] by {
        assert(h1.take(n)[i] == h0[i]);
    }
    assert(h2.take(n) =~= h0);
    assert(h2.take(n + 2) =~= h1);
}

/// The fan speed a validated fan-speed query exchange reports, when
/// its reply carries the queried zone's discriminant: the reply byte in
/// steps of one hundred revolutions per minute.
pub open spec fn fan_rpm_read_value(e: Exchange, zone: FanZone) -> Option<u16> {
    if exchange_validated(e) && reply_args(e)[1] == zone.spec_wire() {
        Some((reply_args(e)[2] * 100) as u16)
    } else {
        None
    }
}

/// Reads the fan speed of one zone, in revolutions per minute.  The
/// reply must carry the queried zone's discriminant byte; the speed
/// comes back in steps of one hundred.
pub fn get_fan_rpm<T: Transport>(t: &mut T, fan_zone: FanZone) -> (r: Result<u16, Error>)
    ensures
        appended(old(t).history(), final(t).history(), 1),
        is_request(
            final(t).history().last().request,
            CMD_GET_FAN_RPM,
            seq![0u8, fan_zone.spec_wire(), 0u8],
        ),
        (r matches Ok(v) ==> fan_rpm_read_value(final(t).history().last(), fan_zone) == Some(v)),
        (fan_rpm_read_value(final(t).history().last(), fan_zone) matches Some(v) ==> r == Ok::<
            u16,
            Error,
        >(v)),
{
    let args = arg3(0, fan_zone.wire(), 0);
    let response = match send_packet(t, CMD_GET_FAN_RPM, &args) {
        Ok(p) => p,
        Err(e) => {
            return Err(e);
        },
    };
    let zone_byte = response.args[1];
    if zone_byte != fan_zone.wire() {
        return Err(Error::DiscriminantMismatch(zone_byte));
    }
    Ok(response.args[2] as u16 * 100)
}


/// Behaviour of a boost write: a fresh dual-zone mode read, a
/// precondition check that the device is exactly in the custom
/// performance mode with automatic fan, and only then one boost write
/// to the addressed cluster.
pub open spec fn boost_write_behavior(
    h0: Seq<Exchange>,
    h1: Seq<Exchange>,
    r: Result<(), Error>,
    cluster: Cluster,
    boost: u8,
) -> bool {
    let n = h0.len() as int;
    &&& h0.len() + 2 <= h1.len() <= h0.len() + 3
    &&& h1.take(n) == h0
    &&& is_mode_query(h1[n].request, 1)
    &&& is_mode_query(h1[n + 1].request, 2)
    &&& (match mode_read_value(h1[n], h1[n + 1]) {
        Some(m) => if m == (PerfMode::Custom, FanMode::Auto) {
            &&& h1.len() == h0.len() + 3
            &&& is_boost_set(h1[n + 2].request, cluster, boost)
            &&& ((r is Ok) <==> exchange_succeeded(h1[n + 2], 3))
        } else {
            h1.len() == h0.len() + 2 && r == Err::<(), Error>(
                (Error::ModePrecondition {
                    required: ModeRequirement::CustomAuto,
                    actual_perf: m.0,
                    actual_fan: m.1,
                }),
            )
        },
        None => h1.len() == h0.len() + 2 && r is Err,
    })
}

/// Writes one cluster's boost level.  Legal only while the device is
/// exactly in the custom performance mode with automatic fan, read
/// fresh from the device immediately before the write.
fn set_boost<T: Transport>(t: &mut T, cluster: Cluster, boost: u8) -> (r: Result<(), Error>)
    ensures
        boost_write_behavior(old(t).history(), final(t).history(), r, cluster, boost),
{
    let ghost h0 = t.history();
    let m = match get_perf_mode(t) {
        Ok(m) => m,
        Err(e) => {
            return Err(e);
        },
    };
    let ghost h1 = t.history();
    if !(m.0 == PerfMode::Custom && m.1 == FanMode::Auto) {
        return Err(Error::ModePrecondition {
            required: ModeRequirement::CustomAuto,
            actual_perf: m.0,
            actual_fan: m.1,
        });
    }
    let args = arg3(0, cluster.wire(), boost);
    let r2 = send_command(t, CMD_SET_BOOST, &args);
    proof {
        read_then_write_prefix_proof(h0, h1, t.history());
    }
    match r2 {
        Ok(_) => Ok(()),
        Err(e) => Err(e),
    }
}

/// Writes the CPU boost level; see [`boost_write_behavior`] for the
/// precondition handling.
pub fn set_cpu_boost<T: Transport>(t: &mut T, boost: CpuBoost) -> (r: Result<(), Error>)
    ensures
        boost_write_behavior(
            old(t).history(),
            final(t).history(),
            r,
            Cluster::Cpu,
            boost.spec_wire(),
        ),
{
    set_boost(t, Cluster::Cpu, boost.wire())
}

/// Writes the GPU boost level; see [`boost_write_behavior`] for the
/// precondition handling.
pub fn set_gpu_boost<T: Transport>(t: &mut T, boost: GpuBoost) -> (r: Result<(), Error>)
    ensures
        boost_write_behavior(
            old(t).history(),
            final(t).history(),
            r,
            Cluster::Gpu,
            boost.spec_wire(),
        ),
{
    set_boost(t, Cluster::Gpu, boost.wire())
}

/// Reads one cluster's raw boost byte; the reply must carry the queried
/// cluster's discriminant byte.
fn get_boost<T: Transport>(t: &mut T, cluster: Cluster) -> (r: Result<u8, Error>)
    ensures
        appended(old(t).history(), final(t).history(), 1),
        is_boost_query(final(t).history().last().request, cluster),
        (r matches Ok(v) ==> (exchange_validated(final(t).history().last()) && reply_args(
            final(t).history().last(),
        )[1] == cluster.spec_wire() && v == reply_args(final(t).history().last())[2])),
        (exchange_validated(final(t).history().last()) && reply_args(final(t).history().last())[1]
            == cluster.spec_wire()) ==> r == Ok::<u8, Error>(
            reply_args(final(t).history().last())[2],
        ),
{
    let args = arg3(0, cluster.wire(), 0);
    let response = match send_packet(t, CMD_GET_BOOST, &args) {
        Ok(p) => p,
        Err(e) => {
            return Err(e);
        },
    };
    let cluster_byte = response.args[1];
    if cluster_byte != cluster.wire() {
        return Err(Error::DiscriminantMismatch(cluster_byte));
    }
    Ok(response.args[2])
}

/// The CPU boost level a validated boost-query exchange reports, when
/// its reply carries the CPU discriminant and decodes.
pub open spec fn cpu_boost_read_value(e: Exchange) -> Option<CpuBoost> {
    if exchange_validated(e) && reply_args(e)[1] == Cluster::Cpu.spec_wire() {
        CpuBoost::spec_from_wire(reply_args(e)[2])
    } else {
        None
    }
}

/// The GPU boost level a validated boost-query exchange reports, when
/// its reply carries the GPU discriminant and decodes.
pub open spec fn gpu_boost_read_value(e: Exchange) -> Option<GpuBoost> {
    if exchange_validated(e) && reply_args(e)[1] == Cluster::Gpu.spec_wire() {
        GpuBoost::spec_from_wire(reply_args(e)[2])
    } else {
        None
    }
}

/// Reads the CPU boost level.
pub fn get_cpu_boost<T: Transport>(t: &mut T) -> (r: Result<CpuBoost, Error>)
    ensures
        appended(old(t).history(), final(t).history(), 1),
        is_boost_query(final(t).history().last().request, Cluster::Cpu),
        (r matches Ok(b) ==> cpu_boost_read_value(final(t).history().last()) == Some(b)),
        (cpu_boost_read_value(final(t).history().last()) matches Some(b) ==> r == Ok::<
            CpuBoost,
            Error,
        >(b)),
{
    let v = match get_boost(t, Cluster::Cpu) {
        Ok(v) => v,
        Err(e) => {
            return Err(e);
        },
    };
    match CpuBoost::from_wire(v) {
        Some(b) => Ok(b),
        None => Err(Error::InvalidWireValue(v)),
    }
}

/// Reads the GPU boost level.
pub fn get_gpu_boost<T: Transport>(t: &mut T) -> (r: Result<GpuBoost, Error>)
    ensures
        appended(old(t).history(), final(t).history(), 1),
        is_boost_query(final(t).history().last().request, Cluster::Gpu),
        (r matches Ok(b) ==> gpu_boost_read_value(final(t).history().last()) == Some(b)),
        (gpu_boost_read_value(final(t).history().last()) matches Some(b) ==> r == Ok::<
            GpuBoost,
            Error,
        >(b)),
{
    let v = match get_boost(t, Cluster::Gpu) {
        Ok(v) => v,
        Err(e) => {
            return Err(e);
        },
    };
    match GpuBoost::from_wire(v) {
        Some(b) => Ok(b),
        None => Err(Error::InvalidWireValue(v)),
    }
}

/// The stricter precondition of the max-fan-speed write, as the later
/// firmware revisions enforce it: the CPU boost must be at least
/// `Boost` and the GPU boost must be `High`.  It is kept as one named
/// predicate so that it can be revisited per target hardware.
pub open spec fn max_fan_speed_boost_precondition(cpu: CpuBoost, gpu: GpuBoost) -> bool {
    (cpu == CpuBoost::Boost || cpu == CpuBoost::Overclock) && gpu == GpuBoost::High
}

/// Behaviour of the max-fan-speed write: a fresh dual-zone mode read
/// requiring the custom performance mode, then fresh reads of both
/// boost levels requiring [`max_fan_speed_boost_precondition`], and
/// only then the single write.
pub open spec fn max_fan_write_behavior(
    h0: Seq<Exchange>,
    h1: Seq<Exchange>,
    r: Result<(), Error>,
    mode: MaxFanSpeedMode,
) -> bool {
    let n = h0.len() as int;
    &&& h0.len() + 2 <= h1.len() <= h0.len() + 5
    &&& h1.take(n) == h0
    &&& is_mode_query(h1[n].request, 1)
    &&& is_mode_query(h1[n + 1].request, 2)
    &&& (match mode_read_value(h1[n], h1[n + 1]) {
        Some(m) => if m.0 == PerfMode::Custom {
            &&& h1.len() >= h0.len() + 3
            &&& is_boost_query(h1[n + 2].request, Cluster::Cpu)
            &&& (match cpu_boost_read_value(h1[n + 2]) {
                Some(cb) => if cb == CpuBoost::Boost || cb == CpuBoost::Overclock {
                    &&& h1.len() >= h0.len() + 4
                    &&& is_boost_query(h1[n + 3].request, Cluster::Gpu)
                    &&& (match gpu_boost_read_value(h1[n + 3]) {
                        Some(gb) => if gb == GpuBoost::High {
                            &&& h1.len() == h0.len() + 5
                            &&& is_request(
                                h1[n + 4].request,
                                CMD_SET_MAX_FAN_SPEED,
                                seq![mode.spec_wire()],
                            )
                            &&& ((r is Ok) <==> exchange_succeeded(h1[n + 4], 1))
                        } else {
                            h1.len() == h0.len() + 4 && r == Err::<(), Error>(
                                (Error::GpuBoostPrecondition { actual_gpu: gb }),
                            )
                        },
                        None => h1.len() == h0.len() + 4 && r is Err,
                    })
                } else {
                    h1.len() == h0.len() + 3 && r == Err::<(), Error>(
                        (Error::CpuBoostPrecondition { actual_cpu: cb }),
                    )
                },
                None => h1.len() == h0.len() + 3 && r is Err,
            })
        } else {
            h1.len() == h0.len() + 2 && r == Err::<(), Error>(
                (Error::ModePrecondition {
                    required: ModeRequirement::CustomPerf,
                    actual_perf: m.0,
                    actual_fan: m.1,
                }),
            )
        },
        None => h1.len() == h0.len() + 2 && r is Err,
    })
}

/// Switches the max-fan-speed mode.  Legal only while the device is in
/// the custom performance mode and, per the stricter later firmware
/// revisions, while the boost levels read back fresh from the device
/// satisfy [`max_fan_speed_boost_precondition`].
pub fn set_max_fan_speed_mode<T: Transport>(t: &mut T, mode: MaxFanSpeedMode) -> (r: Result<
    (),
    Error,
>)
    ensures
        max_fan_write_behavior(old(t).history(), final(t).history(), r, mode),
{
    let ghost h0 = t.history();
    let m = match get_perf_mode(t) {
        Ok(m) => m,
        Err(e) => {
            return Err(e);
        },
    };
    let ghost h1 = t.history();
    if m.0 != PerfMode::Custom {
        return Err(Error::ModePrecondition {
            required: ModeRequirement::CustomPerf,
            actual_perf: m.0,
            actual_fan: m.1,
        });
    }
    let cb = match get_cpu_boost(t) {
        Ok(b) => b,
        Err(e) => {
            proof {
                lemma_history_extends(h0, h1, t.history());
            }
            return Err(e);
        },
    };
    let ghost h2 = t.history();
    proof {
        lemma_history_extends(h0, h1, h2);
    }
    if !(cb == CpuBoost::Boost || cb == CpuBoost::Overclock) {
        return Err(Error::CpuBoostPrecondition { actual_cpu: cb });
    }
    let gb = match get_gpu_boost(t) {
        Ok(b) => b,
        Err(e) => {
            proof {
                lemma_history_extends(h0, h2, t.history());
            }
            return Err(e);
        },
    };
    let ghost h3 = t.history();
    proof {
        lemma_history_extends(h0, h2, h3);
    }
    if gb != GpuBoost::High {
        return Err(Error::GpuBoostPrecondition { actual_gpu: gb });
    }
    let args = arg1(mode.wire());
    let r4 = send_command(t, CMD_SET_MAX_FAN_SPEED, &args);
    proof {
        lemma_history_extends(h0, h3, t.history());
    }
    match r4 {
        Ok(_) => Ok(()),
        Err(e) => Err(e),
    }
}

/// The payload of a logo power write: off for `Off`, on for either
/// stored animation mode.
pub open spec fn logo_power_args(mode: LogoMode) -> Seq<u8> {
    match mode {
        LogoMode::Off => seq![1u8, 4u8, 0u8],
        _ => seq![1u8, 4u8, 1u8],
    }
}

/// The payload of a logo animation write.
pub open spec fn logo_animation_args(mode: LogoMode) -> Seq<u8>
    recommends
        mode != LogoMode::Off,
{
    match mode {
        LogoMode::Breathing => seq![1u8, 4u8, 2u8],
        _ => seq![1u8, 4u8, 0u8],
    }
}

/// Writes the logo power sub-command for the given target mode.
fn set_logo_power<T: Transport>(t: &mut T, mode: LogoMode) -> (r: Result<Packet, Error>)
    ensures
        appended(old(t).history(), final(t).history(), 1),
        is_request(final(t).history().last().request, CMD_SET_LOGO_POWER, logo_power_args(mode)),
        (r is Ok) <==> exchange_succeeded(final(t).history().last(), 3),
{
    match mode {
        LogoMode::Off => send_command(t, CMD_SET_LOGO_POWER, &arg3(1, 4, 0)),
        LogoMode::Static => send_command(t, CMD_SET_LOGO_POWER, &arg3(1, 4, 1)),
        LogoMode::Breathing => send_command(t, CMD_SET_LOGO_POWER, &arg3(1, 4, 1)),
    }
}

/// Writes the logo animation sub-command.  `Off` is not a stored
/// animation mode and is refused before any exchange.
fn set_logo_animation<T: Transport>(t: &mut T, mode: LogoMode) -> (r: Result<Packet, Error>)
    ensures
        mode == LogoMode::Off ==> (r == Err::<Packet, Error>(Error::InvalidLogoMode)
            && final(t).history() == old(t).history()),
        mode != LogoMode::Off ==> (appended(old(t).history(), final(t).history(), 1) && is_request(
            final(t).history().last().request,
            CMD_SET_LOGO_ANIMATION,
            logo_animation_args(mode),
        ) && ((r is Ok) <==> exchange_succeeded(final(t).history().last(), 3))),
{
    match mode {
        LogoMode::Static => send_command(t, CMD_SET_LOGO_ANIMATION, &arg3(1, 4, 0)),
        LogoMode::Breathing => send_command(t, CMD_SET_LOGO_ANIMATION, &arg3(1, 4, 2)),
        LogoMode::Off => Err(Error::InvalidLogoMode),
    }
}

/// Behaviour of the logo write.  Turning the logo off issues only the
/// power sub-command; turning it on writes the animation mode first and
/// the power sub-command second, because powering on with a stale mode
/// byte is observably wrong on hardware.
pub open spec fn logo_write_behavior(
    h0: Seq<Exchange>,
    h1: Seq<Exchange>,
    ok: bool,
    mode: LogoMode,
) -> bool {
    let n = h0.len() as int;
    &&& h1.take(n) == h0
    &&& (if mode == LogoMode::Off {
        &&& appended(h0, h1, 1)
        &&& is_request(h1[n].request, CMD_SET_LOGO_POWER, logo_power_args(mode))
        &&& (ok <==> exchange_succeeded(h1[n], 3))
    } else {
        &&& h0.len() + 1 <= h1.len() <= h0.len() + 2
        &&& is_request(h1[n].request, CMD_SET_LOGO_ANIMATION, logo_animation_args(mode))
        &&& (h1.len() == h0.len() + 2 ==> exchange_succeeded(h1[n], 3) && is_request(
            h1[n + 1].request,
            CMD_SET_LOGO_POWER,
            logo_power_args(mode),
        ))
        &&& (h1.len() == h0.len() + 1 ==> !exchange_succeeded(h1[n], 3))
        &&& (ok <==> h1.len() == h0.len() + 2 && exchange_succeeded(h1[n + 1], 3))
    })
}

/// Sets the lid logo mode; see [`logo_write_behavior`] for the exact
/// order of sub-commands.
pub fn set_logo_mode<T: Transport>(t: &mut T, mode: LogoMode) -> (r: Result<(), Error>)
    ensures
        logo_write_behavior(old(t).history(), final(t).history(), r is Ok, mode),
{
    let ghost h0 = t.history();
    if mode != LogoMode::Off {
        match set_logo_animation(t, mode) {
            Ok(_) => {},
            Err(e) => {
                return Err(e);
            },
        }
        let ghost h1 = t.history();
        let r2 = set_logo_power(t, mode);
        proof {
            lemma_history_extends(h0, h1, t.history());
        }
        match r2 {
            Ok(_) => Ok(()),
            Err(e) => Err(e),
        }
    } else {
        match set_logo_power(t, mode) {
            Ok(_) => Ok(()),
            Err(e) => Err(e),
        }
    }
}

/// The logo power state a validated power-query exchange reports, when
/// its reply byte decodes.
pub open spec fn logo_power_read_value(e: Exchange) -> Option<bool> {
    if exchange_validated(e) {
        if reply_args(e)[2] == 0 {
            Some(false)
        } else if reply_args(e)[2] == 1 {
            Some(true)
        } else {
            None
        }
    } else {
        None
    }
}

/// The stored animation mode a validated animation-query exchange
/// reports, when its reply byte decodes.
pub open spec fn logo_animation_read_value(e: Exchange) -> Option<LogoMode> {
    if exchange_validated(e) {
        if reply_args(e)[2] == 0 {
            Some(LogoMode::Static)
        } else if reply_args(e)[2] == 2 {
            Some(LogoMode::Breathing)
        } else {
            None
        }
    } else {
        None
    }
}

/// Reads the logo power state.
fn get_logo_power<T: Transport>(t: &mut T) -> (r: Result<bool, Error>)
    ensures
        appended(old(t).history(), final(t).history(), 1),
        is_request(final(t).history().last().request, CMD_GET_LOGO_POWER, seq![1u8, 4u8, 0u8]),
        (r matches Ok(b) ==> logo_power_read_value(final(t).history().last()) == Some(b)),
        (logo_power_read_value(final(t).history().last()) matches Some(b) ==> r == Ok::<
            bool,
            Error,
        >(b)),
{
    let response = match send_packet(t, CMD_GET_LOGO_POWER, &arg3(1, 4, 0)) {
        Ok(p) => p,
        Err(e) => {
            return Err(e);
        },
    };
    let v = response.args[2];
    if v == 0 {
        Ok(false)
    } else if v == 1 {
        Ok(true)
    } else {
        Err(Error::InvalidWireValue(v))
    }
}

/// Reads the stored logo animation mode.
fn get_logo_animation<T: Transport>(t: &mut T) -> (r: Result<LogoMode, Error>)
    ensures
        appended(old(t).history(), final(t).history(), 1),
        is_request(final(t).history().last().request, CMD_GET_LOGO_ANIMATION, seq![1u8, 4u8, 0u8]),
        (r matches Ok(m) ==> logo_animation_read_value(final(t).history().last()) == Some(m)),
        (logo_animation_read_value(final(t).history().last()) matches Some(m) ==> r == Ok::<
            LogoMode,
            Error,
        >(m)),
{
    let response = match send_packet(t, CMD_GET_LOGO_ANIMATION, &arg3(1, 4, 0)) {
        Ok(p) => p,
        Err(e) => {
            return Err(e);
        },
    };
    let v = response.args[2];
    if v == 0 {
        Ok(LogoMode::Static)
    } else if v == 2 {
        Ok(LogoMode::Breathing)
    } else {
        Err(Error::InvalidWireValue(v))
    }
}

/// Behaviour of the logo read: the power state is queried first; while
/// the logo is powered off the effective mode is `Off` regardless of
/// the stored animation byte, and only a powered-on logo has its stored
/// mode queried and reported.
pub open spec fn logo_read_behavior(
    h0: Seq<Exchange>,
    h1: Seq<Exchange>,
    r: Result<LogoMode, Error>,
) -> bool {
    let n = h0.len() as int;
    &&& h0.len() + 1 <= h1.len() <= h0.len() + 2
    &&& h1.take(n) == h0
    &&& is_request(h1[n].request, CMD_GET_LOGO_POWER, seq![1u8, 4u8, 0u8])
    &&& (match logo_power_read_value(h1[n]) {
        Some(false) => h1.len() == h0.len() + 1 && r == Ok::<LogoMode, Error>(LogoMode::Off),
        Some(true) => {
            &&& h1.len() == h0.len() + 2
            &&& is_request(h1[n + 1].request, CMD_GET_LOGO_ANIMATION, seq![1u8, 4u8, 0u8])
            &&& (match logo_animation_read_value(h1[n + 1]) {
                Some(m) => r == Ok::<LogoMode, Error>(m),
                None => r is Err,
            })
        },
        None => h1.len() == h0.len() + 1 && r is Err,
    })
}

/// Reads the effective lid logo mode; see [`logo_read_behavior`].
pub fn get_logo_mode<T: Transport>(t: &mut T) -> (r: Result<LogoMode, Error>)
    ensures
        logo_read_behavior(old(t).history(), final(t).history(), r),
{
    let ghost h0 = t.history();
    let power = match get_logo_power(t) {
        Ok(b) => b,
        Err(e) => {
            return Err(e);
        },
    };
    if !power {
        return Ok(LogoMode::Off);
    }
    let ghost h1 = t.history();
    let r2 = get_logo_animation(t);
    proof {
        lemma_history_extends(h0, h1, t.history());
    }
    r2
}

/// The brightness a validated backlight query exchange reports, when
/// its reply carries the backlight discriminant.
pub open spec fn brightness_read_value(e: Exchange) -> Option<u8> {
    if exchange_validated(e) && reply_args(e)[1] == 5 {
        Some(reply_args(e)[2])
    } else {
        None
    }
}

/// Reads the keyboard backlight brightness; the reply must carry the
/// backlight discriminant byte.
pub fn get_keyboard_brightness<T: Transport>(t: &mut T) -> (r: Result<u8, Error>)
    ensures
        appended(old(t).history(), final(t).history(), 1),
        is_request(final(t).history().last().request, CMD_GET_KBD_BRIGHTNESS, seq![1u8, 5u8, 0u8]),
        (r matches Ok(v) ==> brightness_read_value(final(t).history().last()) == Some(v)),
        (brightness_read_value(final(t).history().last()) matches Some(v) ==> r == Ok::<u8, Error>(
            v,
        )),
{
    let response = match send_packet(t, CMD_GET_KBD_BRIGHTNESS, &arg3(1, 5, 0)) {
        Ok(p) => p,
        Err(e) => {
            return Err(e);
        },
    };
    let discriminant = response.args[1];
    if discriminant != 5 {
        return Err(Error::DiscriminantMismatch(discriminant));
    }
    Ok(response.args[2])
}

/// Writes the keyboard backlight brightness.
pub fn set_keyboard_brightness<T: Transport>(t: &mut T, brightness: u8) -> (r: Result<(), Error>)
    ensures
        appended(old(t).history(), final(t).history(), 1),
        is_request(
            final(t).history().last().request,
            CMD_SET_KBD_BRIGHTNESS,
            seq![1u8, 5u8, brightness],
        ),
        (r is Ok) <==> exchange_succeeded(final(t).history().last(), 3),
{
    match send_command(t, CMD_SET_KBD_BRIGHTNESS, &arg3(1, 5, brightness)) {
        Ok(_) => Ok(()),
        Err(e) => Err(e),
    }
}

/// The lights-always-on switch a validated query exchange reports, when
/// its reply byte decodes.
pub open spec fn lights_read_value(e: Exchange) -> Option<LightsAlwaysOn> {
    if exchange_validated(e) {
        LightsAlwaysOn::spec_from_wire(reply_args(e)[0])
    } else {
        None
    }
}

/// Reads the lights-always-on switch.
pub fn get_lights_always_on<T: Transport>(t: &mut T) -> (r: Result<LightsAlwaysOn, Error>)
    ensures
        appended(old(t).history(), final(t).history(), 1),
        is_request(final(t).history().last().request, CMD_GET_LIGHTS_ALWAYS_ON, seq![0u8, 0u8]),
        (r matches Ok(b) ==> lights_read_value(final(t).history().last()) == Some(b)),
        (lights_read_value(final(t).history().last()) matches Some(b) ==> r == Ok::<
            LightsAlwaysOn,
            Error,
        >(b)),
{
    let response = match send_packet(t, CMD_GET_LIGHTS_ALWAYS_ON, &arg2(0, 0)) {
        Ok(p) => p,
        Err(e) => {
            return Err(e);
        },
    };
    let v = response.args[0];
    match LightsAlwaysOn::from_wire(v) {
        Some(b) => Ok(b),
        None => Err(Error::InvalidWireValue(v)),
    }
}

/// Writes the lights-always-on switch.
pub fn set_lights_always_on<T: Transport>(
    t: &mut T,
    lights_always_on: LightsAlwaysOn,
) -> (r: Result<(), Error>)
    ensures
        appended(old(t).history(), final(t).history(), 1),
        is_request(
            final(t).history().last().request,
            CMD_SET_LIGHTS_ALWAYS_ON,
            seq![lights_always_on.spec_wire(), 0u8],
        ),
        (r is Ok) <==> exchange_succeeded(final(t).history().last(), 2),
{
    match send_command(t, CMD_SET_LIGHTS_ALWAYS_ON, &arg2(lights_always_on.wire(), 0)) {
        Ok(_) => Ok(()),
        Err(e) => Err(e),
    }
}

/// The battery-care switch a validated query exchange reports, when its
/// reply byte decodes.
pub open spec fn battery_care_read_value(e: Exchange) -> Option<BatteryCare> {
    if exchange_validated(e) {
        BatteryCare::spec_from_wire(reply_args(e)[0])
    } else {
        None
    }
}

/// Reads the battery-care switch.
pub fn get_battery_care<T: Transport>(t: &mut T) -> (r: Result<BatteryCare, Error>)
    ensures
        appended(old(t).history(), final(t).history(), 1),
        is_request(final(t).history().last().request, CMD_GET_BATTERY_CARE, seq![0u8]),
        (r matches Ok(b) ==> battery_care_read_value(final(t).history().last()) == Some(b)),
        (battery_care_read_value(final(t).history().last()) matches Some(b) ==> r == Ok::<
            BatteryCare,
            Error,
        >(b)),
{
    let response = match send_packet(t, CMD_GET_BATTERY_CARE, &arg1(0)) {
        Ok(p) => p,
        Err(e) => {
            return Err(e);
        },
    };
    let v = response.args[0];
    match BatteryCare::from_wire(v) {
        Some(b) => Ok(b),
        None => Err(Error::InvalidWireValue(v)),
    }
}

/// Writes the battery-care switch.
pub fn set_battery_care<T: Transport>(t: &mut T, mode: BatteryCare) -> (r: Result<(), Error>)
    ensures
        appended(old(t).history(), final(t).history(), 1),
        is_request(
            final(t).history().last().request,
            CMD_SET_BATTERY_CARE,
            seq![mode.spec_wire()],
        ),
        (r is Ok) <==> exchange_succeeded(final(t).history().last(), 1),
{
    match send_command(t, CMD_SET_BATTERY_CARE, &arg1(mode.wire())) {
        Ok(_) => Ok(()),
        Err(e) => Err(e),
    }
}

/// The max-fan-speed switch a validated query exchange reports, when
/// its reply byte decodes.
pub open spec fn max_fan_read_value(e: Exchange) -> Option<MaxFanSpeedMode> {
    if exchange_validated(e) {
        MaxFanSpeedMode::spec_from_wire(reply_args(e)[0])
    } else {
        None
    }
}

/// Reads the max-fan-speed switch.
pub fn get_max_fan_speed_mode<T: Transport>(t: &mut T) -> (r: Result<MaxFanSpeedMode, Error>)
    ensures
        appended(old(t).history(), final(t).history(), 1),
        is_request(final(t).history().last().request, CMD_GET_MAX_FAN_SPEED, seq![0u8]),
        (r matches Ok(b) ==> max_fan_read_value(final(t).history().last()) == Some(b)),
        (max_fan_read_value(final(t).history().last()) matches Some(b) ==> r == Ok::<
            MaxFanSpeedMode,
            Error,
        >(b)),
{
    let response = match send_packet(t, CMD_GET_MAX_FAN_SPEED, &arg1(0)) {
        Ok(p) => p,
        Err(e) => {
            return Err(e);
        },
    };
    let v = response.args[0];
    match MaxFanSpeedMode::from_wire(v) {
        Some(b) => Ok(b),
        None => Err(Error::InvalidWireValue(v)),
    }
}

/// Sends an arbitrary command with an arbitrary payload and hands back
/// the validated reply.  The payload must fit the frame's capacity.
pub fn custom_command<T: Transport>(t: &mut T, command: u16, args: &Vec<u8>) -> (r: Result<
    Packet,
    Error,
>)
    requires
        args@.len() <= ARGS_LEN,
    ensures
        appended(old(t).history(), final(t).history(), 1),
        is_request(final(t).history().last().request, command, args@),
        (r matches Ok(p) ==> (p.wf() && final(t).history().last().response == Some(p@))),
        (r is Ok) <==> exchange_validated(final(t).history().last()),
{
    send_packet(t, command, args)
}

} // verus!
