use librazer::packet::STATUS_SUCCESSFUL;
use librazer::state::{DeviceState, DeviceStateDelta, FanSpeed, LightsMode, PerfMode};
use librazer::transport::{MockReply, MockTransport};
use librazer::types::{BatteryCare, CpuBoost, GpuBoost, LightsAlwaysOn, LogoMode, MaxFanSpeedMode};

fn mock(replies: Vec<Vec<u8>>) -> MockTransport {
    let script = replies
        .into_iter()
        .map(|args| MockReply { status: STATUS_SUCCESSFUL, args })
        .collect();
    MockTransport::new(script)
}

fn custom_state() -> DeviceState {
    DeviceState {
        perf_mode: PerfMode::Custom(CpuBoost::Medium, GpuBoost::Low, MaxFanSpeedMode::Enable),
        lights_mode: LightsMode {
            logo_mode: LogoMode::Static,
            keyboard_brightness: 10,
            always_on: LightsAlwaysOn::Enable,
        },
        battery_care: BatteryCare::Enable,
    }
}

#[test]
fn default_state_is_balanced_auto_everything_off() {
    let s = DeviceState::default();
    assert_eq!(s.perf_mode, PerfMode::Balanced(FanSpeed::Auto));
    assert_eq!(s.lights_mode.logo_mode, LogoMode::Off);
    assert_eq!(s.lights_mode.keyboard_brightness, 0);
    assert_eq!(s.lights_mode.always_on, LightsAlwaysOn::Disable);
    assert_eq!(s.battery_care, BatteryCare::Disable);
}

#[test]
fn perf_delta_keeps_existing_custom_profile() {
    let s = custom_state();
    let d = s.perf_delta(Some(CpuBoost::Overclock), None, None);
    assert_eq!(
        d.perf_mode,
        PerfMode::Custom(CpuBoost::Overclock, GpuBoost::Low, MaxFanSpeedMode::Enable)
    );
    assert_eq!(d.lights_mode, s.lights_mode);
    assert_eq!(d.battery_care, s.battery_care);
}

#[test]
fn perf_delta_falls_back_to_defaults_from_other_modes() {
    let s = DeviceState::default();
    let d = s.perf_delta(None, Some(GpuBoost::Medium), None);
    assert_eq!(
        d.perf_mode,
        PerfMode::Custom(CpuBoost::Boost, GpuBoost::Medium, MaxFanSpeedMode::Disable)
    );
}

#[test]
fn delta_folds_one_property_each() {
    let s = custom_state();
    assert_eq!(
        DeviceStateDelta::<CpuBoost>::delta(&s, CpuBoost::Low).perf_mode,
        PerfMode::Custom(CpuBoost::Low, GpuBoost::Low, MaxFanSpeedMode::Enable)
    );
    assert_eq!(
        DeviceStateDelta::<GpuBoost>::delta(&s, GpuBoost::High).perf_mode,
        PerfMode::Custom(CpuBoost::Medium, GpuBoost::High, MaxFanSpeedMode::Enable)
    );
    assert_eq!(
        DeviceStateDelta::<MaxFanSpeedMode>::delta(&s, MaxFanSpeedMode::Disable).perf_mode,
        PerfMode::Custom(CpuBoost::Medium, GpuBoost::Low, MaxFanSpeedMode::Disable)
    );
}

#[test]
fn next_perf_mode_rotates_through_the_three_modes() {
    let mut s = DeviceState::default();
    s.perf_mode = PerfMode::Silent;
    let s2 = s.get_next_perf_mode();
    assert_eq!(s2.perf_mode, PerfMode::Balanced(FanSpeed::Auto));
    let s3 = s2.get_next_perf_mode();
    assert_eq!(
        s3.perf_mode,
        PerfMode::Custom(CpuBoost::Boost, GpuBoost::High, MaxFanSpeedMode::Disable)
    );
    let s4 = s3.get_next_perf_mode();
    assert_eq!(s4.perf_mode, PerfMode::Silent);
    assert_eq!(s4.lights_mode, s.lights_mode);
    assert_eq!(s4.battery_care, s.battery_care);
}

#[test]
fn read_assembles_a_silent_snapshot() {
    let mut t = mock(vec![
        vec![0, 1, 5, 0],    // zone 1: silent
        vec![0, 2, 5, 0],    // zone 2: silent
        vec![1, 4, 0],       // logo power off
        vec![1, 5, 77],      // keyboard brightness
        vec![3, 0],          // lights always on
        vec![0xd0],          // battery care
    ]);
    let s = DeviceState::read(&mut t).unwrap();
    assert_eq!(s.perf_mode, PerfMode::Silent);
    assert_eq!(s.lights_mode.logo_mode, LogoMode::Off);
    assert_eq!(s.lights_mode.keyboard_brightness, 77);
    assert_eq!(s.lights_mode.always_on, LightsAlwaysOn::Enable);
    assert_eq!(s.battery_care, BatteryCare::Enable);
    assert_eq!(t.exchange_count(), 6);
}

#[test]
fn read_fetches_fan_speed_in_manual_mode() {
    let mut t = mock(vec![
        vec![0, 1, 0, 1],    // zone 1: balanced, manual
        vec![0, 2, 0, 1],    // zone 2: balanced, manual
        vec![0, 1, 42],      // fan speed zone 1
        vec![1, 4, 0],       // logo power off
        vec![1, 5, 0],       // keyboard brightness
        vec![0, 0],          // lights always on
        vec![0x50],          // battery care
    ]);
    let s = DeviceState::read(&mut t).unwrap();
    assert_eq!(s.perf_mode, PerfMode::Balanced(FanSpeed::Manual(4200)));
    assert_eq!(t.exchange_count(), 7);
}

#[test]
fn read_fetches_boosts_in_custom_mode() {
    let mut t = mock(vec![
        vec![0, 1, 4, 0],    // zone 1: custom
        vec![0, 2, 4, 0],    // zone 2: custom
        vec![0, 1, 3],       // cpu boost
        vec![0, 2, 2],       // gpu boost
        vec![2],             // max fan speed
        vec![1, 4, 1],       // logo power on
        vec![1, 4, 2],       // logo animation: breathing
        vec![1, 5, 9],       // keyboard brightness
        vec![0, 0],          // lights always on
        vec![0x50],          // battery care
    ]);
    let s = DeviceState::read(&mut t).unwrap();
    assert_eq!(
        s.perf_mode,
        PerfMode::Custom(CpuBoost::Boost, GpuBoost::High, MaxFanSpeedMode::Enable)
    );
    assert_eq!(s.lights_mode.logo_mode, LogoMode::Breathing);
    assert_eq!(t.exchange_count(), 10);
}

#[test]
fn apply_writes_a_silent_snapshot_in_order() {
    let state = DeviceState {
        perf_mode: PerfMode::Silent,
        lights_mode: LightsMode {
            logo_mode: LogoMode::Off,
            keyboard_brightness: 33,
            always_on: LightsAlwaysOn::Disable,
        },
        battery_care: BatteryCare::Enable,
    };
    let mut t = mock(vec![
        vec![1, 1, 5, 0],    // perf write zone 1
        vec![1, 2, 5, 0],    // perf write zone 2
        vec![1, 4, 0],       // logo power off
        vec![1, 5, 33],      // keyboard brightness
        vec![0, 0],          // lights always on
        vec![0xd0],          // battery care
    ]);
    state.apply(&mut t).unwrap();
    assert_eq!(t.exchange_count(), 6);
    let battery_write = t.sent_request(5);
    assert_eq!(
        (battery_write.command_class, battery_write.command_id),
        (0x07, 0x12)
    );
    assert_eq!(battery_write.args[0], 0xd0);
}

#[test]
fn apply_sets_mode_then_fan_then_speed_for_manual_fan() {
    let state = DeviceState {
        perf_mode: PerfMode::Balanced(FanSpeed::Manual(2500)),
        ..DeviceState::default()
    };
    let mut t = mock(vec![
        vec![1, 1, 0, 0],    // perf write zone 1 (balanced, auto)
        vec![1, 2, 0, 0],    // perf write zone 2
        vec![0, 1, 0, 0],    // mode query zone 1 for set_fan_mode
        vec![0, 2, 0, 0],    // mode query zone 2
        vec![1, 1, 0, 1],    // fan mode write zone 1
        vec![1, 2, 0, 1],    // fan mode write zone 2
        vec![0, 1, 0, 1],    // mode query zone 1 for set_fan_rpm
        vec![0, 2, 0, 1],    // mode query zone 2
        vec![0, 1, 25],      // rpm write zone 1
        vec![0, 2, 25],      // rpm write zone 2
        vec![1, 4, 0],       // logo power off
        vec![1, 5, 0],       // keyboard brightness
        vec![0, 0],          // lights always on
        vec![0x50],          // battery care
    ]);
    state.apply(&mut t).unwrap();
    assert_eq!(t.exchange_count(), 14);
    assert_eq!(t.sent_request(8).args[2], 25);
}
