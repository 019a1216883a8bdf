//! A snapshot of every setting the library controls, as one value: the
//! performance subsystem, the lighting, and battery care.  An embedding
//! application keeps one of these as its desired state, reads the
//! device into it, and applies it back after a change.

use vstd::prelude::*;

use crate::command;
use crate::command::{
    appended, battery_care_read_value, boost_write_behavior, brightness_read_value,
    cpu_boost_read_value, dual_zone_write_behavior, exchange_succeeded, fan_mode_write_behavior,
    fan_rpm_read_value, fan_rpm_write_behavior, gpu_boost_read_value, is_boost_query,
    lemma_history_extends, lights_read_value, logo_read_behavior,
    logo_write_behavior, max_fan_read_value, max_fan_write_behavior, mode_read_behavior,
    mode_set_args, CMD_GET_BATTERY_CARE, CMD_GET_FAN_RPM, CMD_GET_KBD_BRIGHTNESS,
    CMD_GET_LIGHTS_ALWAYS_ON, CMD_GET_MAX_FAN_SPEED, CMD_SET_BATTERY_CARE, CMD_SET_KBD_BRIGHTNESS,
    CMD_SET_LIGHTS_ALWAYS_ON, CMD_SET_PERF_MODE, MAX_FAN_RPM, MIN_FAN_RPM,
};
use crate::error::Error;
use crate::packet::is_request;
use crate::transport::{Exchange, Transport};
use crate::types::{
    BatteryCare, Cluster, CpuBoost, FanZone, GpuBoost, LightsAlwaysOn, LogoMode, MaxFanSpeedMode,
};

verus! {

/// Whether the fans run under firmware control or at a fixed speed.
#[derive(Clone, Copy, Debug, PartialEq, Eq, Structural)]
pub enum FanSpeed {
    Auto,
    Manual(u16),
}

/// The performance subsystem's state: silent, balanced with a fan
/// speed, or custom with boost levels and the max-fan-speed switch.
#[derive(Clone, Copy, Debug, PartialEq, Eq, Structural)]
pub enum PerfMode {
    Silent,
    Balanced(FanSpeed),
    Custom(CpuBoost, GpuBoost, MaxFanSpeedMode),
}

/// The lighting settings.
#[derive(Clone, Copy, Debug, PartialEq, Eq, Structural)]
pub struct LightsMode {
    pub logo_mode: LogoMode,
    pub keyboard_brightness: u8,
    pub always_on: LightsAlwaysOn,
}

/// One full snapshot of the device's settings.
#[derive(Clone, Copy, Debug, PartialEq, Eq, Structural)]
pub struct DeviceState {
    pub perf_mode: PerfMode,
    pub lights_mode: LightsMode,
    pub battery_care: BatteryCare,
}

/// The option's value, or the default where it is absent.
pub open spec fn option_or<A>(o: Option<A>, d: A) -> A {
    match o {
        Some(v) => v,
        None => d,
    }
}

/// The performance-detail phase of [`DeviceState::read`], after the
/// dual-zone mode read reported `m`: silent and balanced-automatic need
/// no further reads; balanced-manual reads the first zone's fan speed;
/// custom reads the CPU boost, the GPU boost and the max-fan-speed
/// switch, in that order, stopping at the first failed read.  `pm` is
/// the decoded performance state, or nothing when a read failed.
pub open spec fn perf_read_behavior(
    ha: Seq<Exchange>,
    hb: Seq<Exchange>,
    pm: Option<PerfMode>,
    m: (crate::types::PerfMode, crate::types::FanMode),
) -> bool {
    let n = ha.len() as int;
    match m {
        (crate::types::PerfMode::Silent, _) => hb == ha && pm == Some(PerfMode::Silent),
        (crate::types::PerfMode::Balanced, crate::types::FanMode::Auto) => hb == ha && pm == Some(
            PerfMode::Balanced(FanSpeed::Auto),
        ),
        (crate::types::PerfMode::Balanced, crate::types::FanMode::Manual) => {
            &&& appended(ha, hb, 1)
            &&& is_request(hb[n].request, CMD_GET_FAN_RPM, seq![0u8, 1u8, 0u8])
            &&& (match fan_rpm_read_value(hb[n], FanZone::Zone1) {
                Some(v) => pm == Some(PerfMode::Balanced(FanSpeed::Manual(v))),
                None => pm is None,
            })
        },
        (crate::types::PerfMode::Custom, _) => {
            &&& hb.take(n) == ha
            &&& ha.len() + 1 <= hb.len() <= ha.len() + 3
            &&& is_boost_query(hb[n].request, Cluster::Cpu)
            &&& (match cpu_boost_read_value(hb[n]) {
                None => hb.len() == ha.len() + 1 && pm is None,
                Some(cb) => {
                    &&& hb.len() >= ha.len() + 2
                    &&& is_boost_query(hb[n + 1].request, Cluster::Gpu)
                    &&& (match gpu_boost_read_value(hb[n + 1]) {
                        None => hb.len() == ha.len() + 2 && pm is None,
                        Some(gb) => {
                            &&& hb.len() == ha.len() + 3
                            &&& is_request(hb[n + 2].request, CMD_GET_MAX_FAN_SPEED, seq![0u8])
                            &&& (match max_fan_read_value(hb[n + 2]) {
                                None => pm is None,
                                Some(mf) => pm == Some(PerfMode::Custom(cb, gb, mf)),
                            })
                        },
                    })
                },
            })
        },
    }
}

/// The trailing reads of [`DeviceState::read`]: keyboard brightness,
/// lights-always-on and battery care, in that order, the first failed
/// read stopping the sequence; when all three decode, the result is
/// exactly the assembled snapshot.
pub open spec fn read_tail_behavior(
    hc: Seq<Exchange>,
    h1: Seq<Exchange>,
    r: Result<DeviceState, Error>,
    perf: PerfMode,
    logo: LogoMode,
) -> bool {
    let n = hc.len() as int;
    &&& h1.take(n) == hc
    &&& hc.len() + 1 <= h1.len() <= hc.len() + 3
    &&& is_request(h1[n].request, CMD_GET_KBD_BRIGHTNESS, seq![1u8, 5u8, 0u8])
    &&& (match brightness_read_value(h1[n]) {
        None => h1.len() == hc.len() + 1 && r is Err,
        Some(kb) => {
            &&& h1.len() >= hc.len() + 2
            &&& is_request(h1[n + 1].request, CMD_GET_LIGHTS_ALWAYS_ON, seq![0u8, 0u8])
            &&& (match lights_read_value(h1[n + 1]) {
                None => h1.len() == hc.len() + 2 && r is Err,
                Some(ao) => {
                    &&& h1.len() == hc.len() + 3
                    &&& is_request(h1[n + 2].request, CMD_GET_BATTERY_CARE, seq![0u8])
                    &&& (match battery_care_read_value(h1[n + 2]) {
                        None => r is Err,
                        Some(bc) => r == Ok::<DeviceState, Error>(
                            (DeviceState {
                                perf_mode: perf,
                                lights_mode: (LightsMode {
                                    logo_mode: logo,
                                    keyboard_brightness: kb,
                                    always_on: ao,
                                }),
                                battery_care: bc,
                            }),
                        ),
                    })
                },
            })
        },
    })
}

/// Behaviour of the full state read: the dual-zone mode read, the
/// mode-dependent detail reads, the logo read, and the trailing reads,
/// each step's failure stopping the sequence and surfacing as the
/// error; `Ok` carries exactly the snapshot the replies decode to.
pub open spec fn state_read_behavior(
    h0: Seq<Exchange>,
    h1: Seq<Exchange>,
    r: Result<DeviceState, Error>,
) -> bool {
    exists|ha: Seq<Exchange>, rm: Result<(crate::types::PerfMode, crate::types::FanMode), Error>|
        {
            &&& #[trigger] mode_read_behavior(h0, ha, rm)
            &&& (match rm {
                Err(_) => h1 == ha && r is Err,
                Ok(m) => exists|hb: Seq<Exchange>, pm: Option<PerfMode>|
                    {
                        &&& #[trigger] perf_read_behavior(ha, hb, pm, m)
                        &&& (match pm {
                            None => h1 == hb && r is Err,
                            Some(perf) => exists|hc: Seq<Exchange>, rl: Result<LogoMode, Error>|
                                {
                                    &&& #[trigger] logo_read_behavior(hb, hc, rl)
                                    &&& (match rl {
                                        Err(_) => h1 == hc && r is Err,
                                        Ok(logo) => read_tail_behavior(hc, h1, r, perf, logo),
                                    })
                                },
                        })
                    },
            })
        }
}

/// The performance phase of [`DeviceState::apply`]: the dual-zone mode
/// write alone for the silent and balanced-automatic states; for
/// balanced-manual, the mode write, the fan-mode toggle, then the
/// fan-speed write; for custom, the mode write, one boost write per
/// cluster, then the max-fan-speed write.  Each step's failure stops
/// the phase; `ok` states that the whole phase succeeded.
pub open spec fn apply_perf_behavior(
    h0: Seq<Exchange>,
    h1: Seq<Exchange>,
    ok: bool,
    perf: PerfMode,
) -> bool {
    match perf {
        PerfMode::Silent => dual_zone_write_behavior(
            h0,
            h1,
            ok,
            CMD_SET_PERF_MODE,
            mode_set_args(1, crate::types::PerfMode::Silent, crate::types::FanMode::Auto),
            mode_set_args(2, crate::types::PerfMode::Silent, crate::types::FanMode::Auto),
        ),
        PerfMode::Balanced(FanSpeed::Auto) => dual_zone_write_behavior(
            h0,
            h1,
            ok,
            CMD_SET_PERF_MODE,
            mode_set_args(1, crate::types::PerfMode::Balanced, crate::types::FanMode::Auto),
            mode_set_args(2, crate::types::PerfMode::Balanced, crate::types::FanMode::Auto),
        ),
        PerfMode::Balanced(FanSpeed::Manual(rpm)) => exists|ha: Seq<Exchange>, aok: bool|
            {
                &&& #[trigger] dual_zone_write_behavior(
                    h0,
                    ha,
                    aok,
                    CMD_SET_PERF_MODE,
                    mode_set_args(1, crate::types::PerfMode::Balanced, crate::types::FanMode::Auto),
                    mode_set_args(2, crate::types::PerfMode::Balanced, crate::types::FanMode::Auto),
                )
                &&& (if !aok {
                    h1 == ha && !ok
                } else {
                    exists|hb: Seq<Exchange>, rb: Result<(), Error>|
                        {
                            &&& #[trigger] fan_mode_write_behavior(
                                ha,
                                hb,
                                rb,
                                crate::types::FanMode::Manual,
                            )
                            &&& (match rb {
                                Err(_) => h1 == hb && !ok,
                                Ok(_) => if !(MIN_FAN_RPM <= rpm <= MAX_FAN_RPM) {
                                    h1 == hb && !ok
                                } else {
                                    exists|rc: Result<(), Error>|
                                        #[trigger] fan_rpm_write_behavior(hb, h1, rc, rpm) && (ok
                                            <==> rc is Ok)
                                },
                            })
                        }
                })
            },
        PerfMode::Custom(c, g, m) => exists|ha: Seq<Exchange>, aok: bool|
            {
                &&& #[trigger] dual_zone_write_behavior(
                    h0,
                    ha,
                    aok,
                    CMD_SET_PERF_MODE,
                    mode_set_args(1, crate::types::PerfMode::Custom, crate::types::FanMode::Auto),
                    mode_set_args(2, crate::types::PerfMode::Custom, crate::types::FanMode::Auto),
                )
                &&& (if !aok {
                    h1 == ha && !ok
                } else {
                    exists|hb: Seq<Exchange>, rb: Result<(), Error>|
                        {
                            &&& #[trigger] boost_write_behavior(ha, hb, rb, Cluster::Cpu, c.spec_wire())
                            &&& (match rb {
                                Err(_) => h1 == hb && !ok,
                                Ok(_) => exists|hc: Seq<Exchange>, rc: Result<(), Error>|
                                    {
                                        &&& #[trigger] boost_write_behavior(
                                            hb,
                                            hc,
                                            rc,
                                            Cluster::Gpu,
                                            g.spec_wire(),
                                        )
                                        &&& (match rc {
                                            Err(_) => h1 == hc && !ok,
                                            Ok(_) => exists|rd: Result<(), Error>|
                                                #[trigger] max_fan_write_behavior(hc, h1, rd, m)
                                                    && (ok <==> rd is Ok),
                                        })
                                    },
                            })
                        }
                })
            },
    }
}

/// The trailing writes of [`DeviceState::apply`]: keyboard brightness,
/// lights-always-on and battery care, in that order, each with its echo
/// contract, the first failure stopping the sequence.
pub open spec fn apply_tail_behavior(
    hb: Seq<Exchange>,
    h1: Seq<Exchange>,
    r: Result<(), Error>,
    s: DeviceState,
) -> bool {
    let n = hb.len() as int;
    &&& h1.take(n) == hb
    &&& hb.len() + 1 <= h1.len() <= hb.len() + 3
    &&& is_request(
        h1[n].request,
        CMD_SET_KBD_BRIGHTNESS,
        seq![1u8, 5u8, s.lights_mode.keyboard_brightness],
    )
    &&& (!exchange_succeeded(h1[n], 3) ==> h1.len() == hb.len() + 1 && r is Err)
    &&& (exchange_succeeded(h1[n], 3) ==> {
        &&& h1.len() >= hb.len() + 2
        &&& is_request(
            h1[n + 1].request,
            CMD_SET_LIGHTS_ALWAYS_ON,
            seq![s.lights_mode.always_on.spec_wire(), 0u8],
        )
        &&& (!exchange_succeeded(h1[n + 1], 2) ==> h1.len() == hb.len() + 2 && r is Err)
        &&& (exchange_succeeded(h1[n + 1], 2) ==> {
            &&& h1.len() == hb.len() + 3
            &&& is_request(h1[n + 2].request, CMD_SET_BATTERY_CARE, seq![s.battery_care.spec_wire()])
            &&& ((r is Ok) <==> exchange_succeeded(h1[n + 2], 1))
        })
    })
}

/// Behaviour of the full state write: the performance phase, the logo
/// write, and the trailing writes, the first failure stopping the
/// sequence; `Ok` exactly when every write succeeded.
pub open spec fn state_apply_behavior(
    h0: Seq<Exchange>,
    h1: Seq<Exchange>,
    r: Result<(), Error>,
    s: DeviceState,
) -> bool {
    exists|ha: Seq<Exchange>, aok: bool|
        {
            &&& #[trigger] apply_perf_behavior(h0, ha, aok, s.perf_mode)
            &&& (if !aok {
                h1 == ha && r is Err
            } else {
                exists|hb: Seq<Exchange>, bok: bool|
                    {
                        &&& #[trigger] logo_write_behavior(ha, hb, bok, s.lights_mode.logo_mode)
                        &&& (if !bok {
                            h1 == hb && r is Err
                        } else {
                            apply_tail_behavior(hb, h1, r, s)
                        })
                    }
            })
        }
}

impl DeviceState {
    /// What [`DeviceState::perf_delta`] returns: a custom performance
    /// profile built from the supplied properties, falling back to the
    /// current custom profile or, from any other mode, to the boost
    /// defaults with max-fan-speed disabled.
    pub open spec fn spec_perf_delta(
        self,
        cpu_boost: Option<CpuBoost>,
        gpu_boost: Option<GpuBoost>,
        max_fan_speed: Option<MaxFanSpeedMode>,
    ) -> DeviceState {
        let (base_cpu, base_gpu, base_mfs) = match self.perf_mode {
            PerfMode::Custom(cb, gb, mfs) => (cb, gb, mfs),
            _ => (CpuBoost::Boost, GpuBoost::High, MaxFanSpeedMode::Disable),
        };
        DeviceState {
            perf_mode: PerfMode::Custom(
                option_or(cpu_boost, base_cpu),
                option_or(gpu_boost, base_gpu),
                option_or(max_fan_speed, base_mfs),
            ),
            ..self
        }
    }
}

impl DeviceState {
    /// Reads the whole device state: the mode pair first, then whatever
    /// detail the mode calls for (fan speed while manual, boost levels
    /// and max-fan-speed while custom), then lighting and battery care.
    /// [`state_read_behavior`] ties every field of an `Ok` snapshot to
    /// the replies it was decoded from; a manual fan speed is always a
    /// multiple of one hundred within the byte range.
    pub fn read<T: Transport>(device: &mut T) -> (r: Result<DeviceState, Error>)
        ensures
            state_read_behavior(old(device).history(), final(device).history(), r),
            (r matches Ok(s) ==> (s.perf_mode matches PerfMode::Balanced(FanSpeed::Manual(rpm))
                ==> rpm % 100 == 0 && rpm <= 25500)),
    {
        let ghost h0 = device.history();
        let mode_result = command::get_perf_mode(device);
        let ghost ha = device.history();
        proof {
            assert(mode_read_behavior(h0, ha, mode_result));
        }
        let mode = match mode_result {
            Ok(m) => m,
            Err(e) => {
                return Err(e);
            },
        };
        let perf_mode: PerfMode = match mode {
            (crate::types::PerfMode::Silent, _) => PerfMode::Silent,
            (crate::types::PerfMode::Balanced, crate::types::FanMode::Auto) => PerfMode::Balanced(
                FanSpeed::Auto,
            ),
            (crate::types::PerfMode::Balanced, crate::types::FanMode::Manual) => {
                let rpm_result = command::get_fan_rpm(device, FanZone::Zone1);
                match rpm_result {
                    Ok(v) => PerfMode::Balanced(FanSpeed::Manual(v)),
                    Err(e) => {
                        proof {
                            assert(perf_read_behavior(
                                ha,
                                device.history(),
                                None::<PerfMode>,
                                mode,
                            ));
                        }
                        return Err(e);
                    },
                }
            },
            (crate::types::PerfMode::Custom, _) => {
                let cpu_result = command::get_cpu_boost(device);
                let ghost hq1 = device.history();
                let cpu_boost = match cpu_result {
                    Ok(v) => v,
                    Err(e) => {
                        proof {
                            assert(perf_read_behavior(
                                ha,
                                device.history(),
                                None::<PerfMode>,
                                mode,
                            ));
                        }
                        return Err(e);
                    },
                };
                let gpu_result = command::get_gpu_boost(device);
                let ghost hq2 = device.history();
                proof {
                    lemma_history_extends(ha, hq1, hq2);
                }
                let gpu_boost = match gpu_result {
                    Ok(v) => v,
                    Err(e) => {
                        proof {
                            assert(perf_read_behavior(
                                ha,
                                device.history(),
                                None::<PerfMode>,
                                mode,
                            ));
                        }
                        return Err(e);
                    },
                };
                let max_fan_result = command::get_max_fan_speed_mode(device);
                proof {
                    lemma_history_extends(ha, hq2, device.history());
                    lemma_history_extends(hq1, hq2, device.history());
                }
                let max_fan_speed = match max_fan_result {
                    Ok(v) => v,
                    Err(e) => {
                        proof {
                            assert(perf_read_behavior(
                                ha,
                                device.history(),
                                None::<PerfMode>,
                                mode,
                            ));
                        }
                        return Err(e);
                    },
                };
                PerfMode::Custom(cpu_boost, gpu_boost, max_fan_speed)
            },
        };
        let ghost hb = device.history();
        proof {
            assert(perf_read_behavior(ha, hb, Some(perf_mode), mode));
        }
        let logo_result = command::get_logo_mode(device);
        let ghost hc = device.history();
        proof {
            assert(logo_read_behavior(hb, hc, logo_result));
        }
        let logo_mode = match logo_result {
            Ok(v) => v,
            Err(e) => {
                return Err(e);
            },
        };
        let brightness_result = command::get_keyboard_brightness(device);
        let ghost ht1 = device.history();
        let keyboard_brightness = match brightness_result {
            Ok(v) => v,
            Err(e) => {
                proof {
                    assert(read_tail_behavior(
                        hc,
                        device.history(),
                        Err::<DeviceState, Error>(e),
                        perf_mode,
                        logo_mode,
                    ));
                }
                return Err(e);
            },
        };
        let lights_result = command::get_lights_always_on(device);
        let ghost ht2 = device.history();
        proof {
            lemma_history_extends(hc, ht1, ht2);
        }
        let always_on = match lights_result {
            Ok(v) => v,
            Err(e) => {
                proof {
                    assert(read_tail_behavior(
                        hc,
                        device.history(),
                        Err::<DeviceState, Error>(e),
                        perf_mode,
                        logo_mode,
                    ));
                }
                return Err(e);
            },
        };
        let battery_result = command::get_battery_care(device);
        proof {
            lemma_history_extends(hc, ht2, device.history());
            lemma_history_extends(ht1, ht2, device.history());
        }
        let battery_care = match battery_result {
            Ok(v) => v,
            Err(e) => {
                proof {
                    assert(read_tail_behavior(
                        hc,
                        device.history(),
                        Err::<DeviceState, Error>(e),
                        perf_mode,
                        logo_mode,
                    ));
                }
                return Err(e);
            },
        };
        let snapshot = DeviceState {
            perf_mode,
            lights_mode: LightsMode { logo_mode, keyboard_brightness, always_on },
            battery_care,
        };
        proof {
            assert(read_tail_behavior(
                hc,
                device.history(),
                Ok::<DeviceState, Error>(snapshot),
                perf_mode,
                logo_mode,
            ));
        }
        Ok(snapshot)
    }

    /// Writes the whole state to the device, performance subsystem
    /// first, then logo, brightness, lights-always-on and battery care.
    /// [`state_apply_behavior`] fixes the operations issued per
    /// variant, their order and their arguments; the first failing
    /// write stops the sequence, and settings already written are not
    /// rolled back.
    #[verifier::rlimit(100)]
    pub fn apply<T: Transport>(&self, device: &mut T) -> (r: Result<(), Error>)
        ensures
            state_apply_behavior(old(device).history(), final(device).history(), r, *self),
            final(device).history().len() > old(device).history().len(),
            r is Ok ==> final(device).history().len() >= old(device).history().len() + 6,
    {
        let ghost h0 = device.history();
        let perf_result: Result<(), Error> = match self.perf_mode {
            PerfMode::Silent => {
                let r1 = command::set_perf_mode(device, crate::types::PerfMode::Silent);
                proof {
                    assert(apply_perf_behavior(h0, device.history(), r1 is Ok, self.perf_mode));
                }
                r1
            },
            PerfMode::Balanced(FanSpeed::Auto) => {
                let r1 = command::set_perf_mode(device, crate::types::PerfMode::Balanced);
                proof {
                    assert(apply_perf_behavior(h0, device.history(), r1 is Ok, self.perf_mode));
                }
                r1
            },
            PerfMode::Balanced(FanSpeed::Manual(rpm)) => {
                let r1 = command::set_perf_mode(device, crate::types::PerfMode::Balanced);
                let ghost hp1 = device.history();
                match r1 {
                    Err(e) => {
                        proof {
                            assert(apply_perf_behavior(h0, hp1, false, self.perf_mode));
                        }
                        Err(e)
                    },
                    Ok(_) => {
                        let r2 = command::set_fan_mode(device, crate::types::FanMode::Manual);
                        let ghost hp2 = device.history();
                        match r2 {
                            Err(e) => {
                                proof {
                                    assert(fan_mode_write_behavior(
                                        hp1,
                                        hp2,
                                        r2,
                                        crate::types::FanMode::Manual,
                                    ));
                                    assert(apply_perf_behavior(h0, hp2, false, self.perf_mode));
                                }
                                Err(e)
                            },
                            Ok(_) => {
                                let r3 = command::set_fan_rpm(device, rpm);
                                proof {
                                    assert(fan_mode_write_behavior(
                                        hp1,
                                        hp2,
                                        r2,
                                        crate::types::FanMode::Manual,
                                    ));
                                    assert(apply_perf_behavior(
                                        h0,
                                        device.history(),
                                        r3 is Ok,
                                        self.perf_mode,
                                    ));
                                }
                                r3
                            },
                        }
                    },
                }
            },
            PerfMode::Custom(cpu_boost, gpu_boost, max_fan_speed) => {
                let r1 = command::set_perf_mode(device, crate::types::PerfMode::Custom);
                let ghost hp1 = device.history();
                match r1 {
                    Err(e) => {
                        proof {
                            assert(apply_perf_behavior(h0, hp1, false, self.perf_mode));
                        }
                        Err(e)
                    },
                    Ok(_) => {
                        let r2 = command::set_cpu_boost(device, cpu_boost);
                        let ghost hp2 = device.history();
                        match r2 {
                            Err(e) => {
                                proof {
                                    assert(boost_write_behavior(
                                        hp1,
                                        hp2,
                                        r2,
                                        Cluster::Cpu,
                                        cpu_boost.spec_wire(),
                                    ));
                                    assert(apply_perf_behavior(h0, hp2, false, self.perf_mode));
                                }
                                Err(e)
                            },
                            Ok(_) => {
                                let r3 = command::set_gpu_boost(device, gpu_boost);
                                let ghost hp3 = device.history();
                                match r3 {
                                    Err(e) => {
                                        proof {
                                            assert(boost_write_behavior(
                                                hp1,
                                                hp2,
                                                r2,
                                                Cluster::Cpu,
                                                cpu_boost.spec_wire(),
                                            ));
                                            assert(boost_write_behavior(
                                                hp2,
                                                hp3,
                                                r3,
                                                Cluster::Gpu,
                                                gpu_boost.spec_wire(),
                                            ));
                                            assert(apply_perf_behavior(
                                                h0,
                                                hp3,
                                                false,
                                                self.perf_mode,
                                            ));
                                        }
                                        Err(e)
                                    },
                                    Ok(_) => {
                                        let r4 = command::set_max_fan_speed_mode(
                                            device,
                                            max_fan_speed,
                                        );
                                        proof {
                                            assert(boost_write_behavior(
                                                hp1,
                                                hp2,
                                                r2,
                                                Cluster::Cpu,
                                                cpu_boost.spec_wire(),
                                            ));
                                            assert(boost_write_behavior(
                                                hp2,
                                                hp3,
                                                r3,
                                                Cluster::Gpu,
                                                gpu_boost.spec_wire(),
                                            ));
                                            assert(apply_perf_behavior(
                                                h0,
                                                device.history(),
                                                r4 is Ok,
                                                self.perf_mode,
                                            ));
                                        }
                                        r4
                                    },
                                }
                            },
                        }
                    },
                }
            },
        };
        let ghost hperf = device.history();
        match perf_result {
            Ok(_) => {},
            Err(e) => {
                return Err(e);
            },
        }
        let logo_result = command::set_logo_mode(device, self.lights_mode.logo_mode);
        let ghost hlogo = device.history();
        proof {
            assert(logo_write_behavior(
                hperf,
                hlogo,
                logo_result is Ok,
                self.lights_mode.logo_mode,
            ));
        }
        match logo_result {
            Ok(_) => {},
            Err(e) => {
                return Err(e);
            },
        }
        let brightness_result = command::set_keyboard_brightness(
            device,
            self.lights_mode.keyboard_brightness,
        );
        let ghost ht1 = device.history();
        match brightness_result {
            Ok(_) => {},
            Err(e) => {
                proof {
                    assert(apply_tail_behavior(
                        hlogo,
                        device.history(),
                        Err::<(), Error>(e),
                        *self,
                    ));
                }
                return Err(e);
            },
        }
        let lights_result = command::set_lights_always_on(device, self.lights_mode.always_on);
        let ghost ht2 = device.history();
        proof {
            lemma_history_extends(hlogo, ht1, ht2);
        }
        match lights_result {
            Ok(_) => {},
            Err(e) => {
                proof {
                    assert(apply_tail_behavior(
                        hlogo,
                        device.history(),
                        Err::<(), Error>(e),
                        *self,
                    ));
                }
                return Err(e);
            },
        }
        let battery_result = command::set_battery_care(device, self.battery_care);
        proof {
            lemma_history_extends(hlogo, ht2, device.history());
            lemma_history_extends(ht1, ht2, device.history());
            assert(apply_tail_behavior(hlogo, device.history(), battery_result, *self));
        }
        battery_result
    }

    /// A copy of this state whose performance mode is custom, with the
    /// given boost levels and max-fan-speed where they are supplied:
    /// absent ones keep their current value when the state is already
    /// custom and otherwise fall back to the boost defaults with
    /// max-fan-speed disabled.
    pub fn perf_delta(
        &self,
        cpu_boost: Option<CpuBoost>,
        gpu_boost: Option<GpuBoost>,
        max_fan_speed: Option<MaxFanSpeedMode>,
    ) -> (r: DeviceState)
        ensures
            r == self.spec_perf_delta(cpu_boost, gpu_boost, max_fan_speed),
    {
        let (base_cpu, base_gpu, base_mfs) = match self.perf_mode {
            PerfMode::Custom(cb, gb, mfs) => (cb, gb, mfs),
            _ => (CpuBoost::Boost, GpuBoost::High, MaxFanSpeedMode::Disable),
        };
        let cpu = match cpu_boost {
            Some(v) => v,
            None => base_cpu,
        };
        let gpu = match gpu_boost {
            Some(v) => v,
            None => base_gpu,
        };
        let mfs = match max_fan_speed {
            Some(v) => v,
            None => base_mfs,
        };
        DeviceState { perf_mode: PerfMode::Custom(cpu, gpu, mfs), ..*self }
    }

    /// The state one click of the mode rotation moves to: silent to
    /// balanced with automatic fan, balanced to the default custom
    /// profile, custom back to silent.  Only the performance mode
    /// changes.
    pub fn get_next_perf_mode(&self) -> (r: DeviceState)
        ensures
            r.lights_mode == self.lights_mode,
            r.battery_care == self.battery_care,
            (match self.perf_mode {
                PerfMode::Silent => r.perf_mode == PerfMode::Balanced(FanSpeed::Auto),
                PerfMode::Balanced(_) => r.perf_mode == PerfMode::Custom(
                    CpuBoost::Boost,
                    GpuBoost::High,
                    MaxFanSpeedMode::Disable,
                ),
                PerfMode::Custom(..) => r.perf_mode == PerfMode::Silent,
            }),
    {
        DeviceState {
            perf_mode: match self.perf_mode {
                PerfMode::Silent => PerfMode::Balanced(FanSpeed::Auto),
                PerfMode::Balanced(_) => PerfMode::Custom(
                    CpuBoost::Boost,
                    GpuBoost::High,
                    MaxFanSpeedMode::Disable,
                ),
                PerfMode::Custom(..) => PerfMode::Silent,
            },
            ..*self
        }
    }
}

impl Default for DeviceState {
    /// Balanced with automatic fan, all lighting off, battery care off.
    fn default() -> (r: Self)
        ensures
            r.perf_mode == PerfMode::Balanced(FanSpeed::Auto),
            r.lights_mode.logo_mode == LogoMode::Off,
            r.lights_mode.keyboard_brightness == 0,
            r.lights_mode.always_on == LightsAlwaysOn::Disable,
            r.battery_care == BatteryCare::Disable,
    {
        DeviceState {
            perf_mode: PerfMode::Balanced(FanSpeed::Auto),
            lights_mode: LightsMode {
                logo_mode: LogoMode::Off,
                keyboard_brightness: 0,
                always_on: LightsAlwaysOn::Disable,
            },
            battery_care: BatteryCare::Disable,
        }
    }
}

/// One property of the custom performance profile, folded into a state.
pub trait DeviceStateDelta<T> {
    /// A copy of this state with the given property folded into its
    /// custom performance profile.
    fn delta(&self, property: T) -> DeviceState;
}

impl DeviceStateDelta<CpuBoost> for DeviceState {
    fn delta(&self, cpu_boost: CpuBoost) -> (r: DeviceState)
        ensures
            r == self.spec_perf_delta(Some(cpu_boost), None, None),
    {
        self.perf_delta(Some(cpu_boost), None, None)
    }
}

impl DeviceStateDelta<GpuBoost> for DeviceState {
    fn delta(&self, gpu_boost: GpuBoost) -> (r: DeviceState)
        ensures
            r == self.spec_perf_delta(None, Some(gpu_boost), None),
    {
        self.perf_delta(None, Some(gpu_boost), None)
    }
}

impl DeviceStateDelta<MaxFanSpeedMode> for DeviceState {
    fn delta(&self, max_fan_speed_mode: MaxFanSpeedMode) -> (r: DeviceState)
        ensures
            r == self.spec_perf_delta(None, None, Some(max_fan_speed_mode)),
    {
        self.perf_delta(None, None, Some(max_fan_speed_mode))
    }
}

} // verus!
