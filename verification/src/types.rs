//! Value objects of the protocol: small closed sets of named states with
//! explicit numeric wire encodings.  Every mapping from a wire byte back to
//! a variant is total over the bytes the firmware may legally send and
//! fails for every other byte.

use vstd::prelude::*;

verus! {

/// A compute cluster addressed by the boost commands.
#[derive(Clone, Copy, Debug, PartialEq, Eq, Structural)]
pub enum Cluster {
    Cpu,
    Gpu,
}

impl Cluster {
    pub open spec fn spec_wire(self) -> u8 {
        match self {
            Cluster::Cpu => 0x01,
            Cluster::Gpu => 0x02,
        }
    }

    pub fn wire(self) -> (r: u8)
        ensures
            r == self.spec_wire(),
    {
        match self {
            Cluster::Cpu => 0x01,
            Cluster::Gpu => 0x02,
        }
    }
}

/// A physical fan zone addressed by the fan-speed commands.
#[derive(Clone, Copy, Debug, PartialEq, Eq, Structural)]
pub enum FanZone {
    Zone1,
    Zone2,
}

impl FanZone {
    pub open spec fn spec_wire(self) -> u8 {
        match self {
            FanZone::Zone1 => 0x01,
            FanZone::Zone2 => 0x02,
        }
    }

    pub fn wire(self) -> (r: u8)
        ensures
            r == self.spec_wire(),
    {
        match self {
            FanZone::Zone1 => 0x01,
            FanZone::Zone2 => 0x02,
        }
    }
}

/// Overall performance mode of the machine.
#[derive(Clone, Copy, Debug, PartialEq, Eq, Structural)]
pub enum PerfMode {
    Balanced,
    Silent,
    Custom,
}

impl PerfMode {
    pub open spec fn spec_wire(self) -> u8 {
        match self {
            PerfMode::Balanced => 0x00,
            PerfMode::Silent => 0x05,
            PerfMode::Custom => 0x04,
        }
    }

    pub open spec fn spec_from_wire(value: u8) -> Option<PerfMode> {
        if value == 0x00 {
            Some(PerfMode::Balanced)
        } else if value == 0x05 {
            Some(PerfMode::Silent)
        } else if value == 0x04 {
            Some(PerfMode::Custom)
        } else {
            None
        }
    }

    pub fn wire(self) -> (r: u8)
        ensures
            r == self.spec_wire(),
    {
        match self {
            PerfMode::Balanced => 0x00,
            PerfMode::Silent => 0x05,
            PerfMode::Custom => 0x04,
        }
    }

    pub fn from_wire(value: u8) -> (r: Option<PerfMode>)
        ensures
            r == PerfMode::spec_from_wire(value),
    {
        match value {
            0x00 => Some(PerfMode::Balanced),
            0x05 => Some(PerfMode::Silent),
            0x04 => Some(PerfMode::Custom),
            _ => None,
        }
    }
}

/// Whether the firmware drives the fans at their maximum speed while in
/// the custom performance mode.
#[derive(Clone, Copy, Debug, PartialEq, Eq, Structural)]
pub enum MaxFanSpeedMode {
    Enable,
    Disable,
}

impl MaxFanSpeedMode {
    pub open spec fn spec_wire(self) -> u8 {
        match self {
            MaxFanSpeedMode::Enable => 0x02,
            MaxFanSpeedMode::Disable => 0x00,
        }
    }

    pub open spec fn spec_from_wire(value: u8) -> Option<MaxFanSpeedMode> {
        if value == 0x02 {
            Some(MaxFanSpeedMode::Enable)
        } else if value == 0x00 {
            Some(MaxFanSpeedMode::Disable)
        } else {
            None
        }
    }

    pub fn wire(self) -> (r: u8)
        ensures
            r == self.spec_wire(),
    {
        match self {
            MaxFanSpeedMode::Enable => 0x02,
            MaxFanSpeedMode::Disable => 0x00,
        }
    }

    pub fn from_wire(value: u8) -> (r: Option<MaxFanSpeedMode>)
        ensures
            r == MaxFanSpeedMode::spec_from_wire(value),
    {
        match value {
            0x02 => Some(MaxFanSpeedMode::Enable),
            0x00 => Some(MaxFanSpeedMode::Disable),
            _ => None,
        }
    }
}

/// Whether fan speed is chosen by the firmware or set by the caller.
#[derive(Clone, Copy, Debug, PartialEq, Eq, Structural)]
pub enum FanMode {
    Auto,
    Manual,
}

impl FanMode {
    pub open spec fn spec_wire(self) -> u8 {
        match self {
            FanMode::Auto => 0x00,
            FanMode::Manual => 0x01,
        }
    }

    pub open spec fn spec_from_wire(value: u8) -> Option<FanMode> {
        if value == 0x00 {
            Some(FanMode::Auto)
        } else if value == 0x01 {
            Some(FanMode::Manual)
        } else {
            None
        }
    }

    pub fn wire(self) -> (r: u8)
        ensures
            r == self.spec_wire(),
    {
        match self {
            FanMode::Auto => 0x00,
            FanMode::Manual => 0x01,
        }
    }

    pub fn from_wire(value: u8) -> (r: Option<FanMode>)
        ensures
            r == FanMode::spec_from_wire(value),
    {
        match value {
            0x00 => Some(FanMode::Auto),
            0x01 => Some(FanMode::Manual),
            _ => None,
        }
    }
}

/// CPU power level while in the custom performance mode.
#[derive(Clone, Copy, Debug, PartialEq, Eq, Structural)]
pub enum CpuBoost {
    Low,
    Medium,
    High,
    Boost,
    Overclock,
}

impl CpuBoost {
    pub open spec fn spec_wire(self) -> u8 {
        match self {
            CpuBoost::Low => 0x00,
            CpuBoost::Medium => 0x01,
            CpuBoost::High => 0x02,
            CpuBoost::Boost => 0x03,
            CpuBoost::Overclock => 0x04,
        }
    }

    pub open spec fn spec_from_wire(value: u8) -> Option<CpuBoost> {
        if value == 0x00 {
            Some(CpuBoost::Low)
        } else if value == 0x01 {
            Some(CpuBoost::Medium)
        } else if value == 0x02 {
            Some(CpuBoost::High)
        } else if value == 0x03 {
            Some(CpuBoost::Boost)
        } else if value == 0x04 {
            Some(CpuBoost::Overclock)
        } else {
            None
        }
    }

    pub fn wire(self) -> (r: u8)
        ensures
            r == self.spec_wire(),
    {
        match self {
            CpuBoost::Low => 0x00,
            CpuBoost::Medium => 0x01,
            CpuBoost::High => 0x02,
            CpuBoost::Boost => 0x03,
            CpuBoost::Overclock => 0x04,
        }
    }

    pub fn from_wire(value: u8) -> (r: Option<CpuBoost>)
        ensures
            r == CpuBoost::spec_from_wire(value),
    {
        match value {
            0x00 => Some(CpuBoost::Low),
            0x01 => Some(CpuBoost::Medium),
            0x02 => Some(CpuBoost::High),
            0x03 => Some(CpuBoost::Boost),
            0x04 => Some(CpuBoost::Overclock),
            _ => None,
        }
    }
}

/// GPU power level while in the custom performance mode.
#[derive(Clone, Copy, Debug, PartialEq, Eq, Structural)]
pub enum GpuBoost {
    Low,
    Medium,
    High,
}

impl GpuBoost {
    pub open spec fn spec_wire(self) -> u8 {
        match self {
            GpuBoost::Low => 0x00,
            GpuBoost::Medium => 0x01,
            GpuBoost::High => 0x02,
        }
    }

    pub open spec fn spec_from_wire(value: u8) -> Option<GpuBoost> {
        if value == 0x00 {
            Some(GpuBoost::Low)
        } else if value == 0x01 {
            Some(GpuBoost::Medium)
        } else if value == 0x02 {
            Some(GpuBoost::High)
        } else {
            None
        }
    }

    pub fn wire(self) -> (r: u8)
        ensures
            r == self.spec_wire(),
    {
        match self {
            GpuBoost::Low => 0x00,
            GpuBoost::Medium => 0x01,
            GpuBoost::High => 0x02,
        }
    }

    pub fn from_wire(value: u8) -> (r: Option<GpuBoost>)
        ensures
            r == GpuBoost::spec_from_wire(value),
    {
        match value {
            0x00 => Some(GpuBoost::Low),
            0x01 => Some(GpuBoost::Medium),
            0x02 => Some(GpuBoost::High),
            _ => None,
        }
    }
}

/// Effective state of the lid logo.  The firmware models it as two
/// sub-commands, power and mode; `Off` means power is off, the other two
/// variants name the stored animation mode while power is on.
#[derive(Clone, Copy, Debug, PartialEq, Eq, Structural)]
pub enum LogoMode {
    Off,
    Breathing,
    Static,
}

/// Whether the lighting stays on while the lid is closed.
#[derive(Clone, Copy, Debug, PartialEq, Eq, Structural)]
pub enum LightsAlwaysOn {
    Enable,
    Disable,
}

impl LightsAlwaysOn {
    pub open spec fn spec_wire(self) -> u8 {
        match self {
            LightsAlwaysOn::Enable => 0x03,
            LightsAlwaysOn::Disable => 0x00,
        }
    }

    pub open spec fn spec_from_wire(value: u8) -> Option<LightsAlwaysOn> {
        if value == 0x00 {
            Some(LightsAlwaysOn::Disable)
        } else if value == 0x03 {
            Some(LightsAlwaysOn::Enable)
        } else {
            None
        }
    }

    pub fn wire(self) -> (r: u8)
        ensures
            r == self.spec_wire(),
    {
        match self {
            LightsAlwaysOn::Enable => 0x03,
            LightsAlwaysOn::Disable => 0x00,
        }
    }

    pub fn from_wire(value: u8) -> (r: Option<LightsAlwaysOn>)
        ensures
            r == LightsAlwaysOn::spec_from_wire(value),
    {
        match value {
            0x00 => Some(LightsAlwaysOn::Disable),
            0x03 => Some(LightsAlwaysOn::Enable),
            _ => None,
        }
    }
}

/// Whether the firmware limits the battery charge level to preserve
/// battery health.
#[derive(Clone, Copy, Debug, PartialEq, Eq, Structural)]
pub enum BatteryCare {
    Disable,
    Enable,
}

impl BatteryCare {
    pub open spec fn spec_wire(self) -> u8 {
        match self {
            BatteryCare::Disable => 0x50,
            BatteryCare::Enable => 0xd0,
        }
    }

    pub open spec fn spec_from_wire(value: u8) -> Option<BatteryCare> {
        if value == 0x50 {
            Some(BatteryCare::Disable)
        } else if value == 0xd0 {
            Some(BatteryCare::Enable)
        } else {
            None
        }
    }

    pub fn wire(self) -> (r: u8)
        ensures
            r == self.spec_wire(),
    {
        match self {
            BatteryCare::Disable => 0x50,
            BatteryCare::Enable => 0xd0,
        }
    }

    pub fn from_wire(value: u8) -> (r: Option<BatteryCare>)
        ensures
            r == BatteryCare::spec_from_wire(value),
    {
        match value {
            0x50 => Some(BatteryCare::Disable),
            0xd0 => Some(BatteryCare::Enable),
            _ => None,
        }
    }
}

} // verus!
