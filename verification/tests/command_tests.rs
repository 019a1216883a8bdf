use librazer::command;
use librazer::error::{Error, ModeRequirement};
use librazer::packet::{STATUS_NOT_SUPPORTED, STATUS_SUCCESSFUL};
use librazer::transport::{MockReply, MockTransport};
use librazer::types::{
    BatteryCare, CpuBoost, FanMode, FanZone, GpuBoost, LightsAlwaysOn, LogoMode, MaxFanSpeedMode,
    PerfMode,
};

fn mock(replies: Vec<(u8, Vec<u8>)>) -> MockTransport {
    let script = replies
        .into_iter()
        .map(|(status, args)| MockReply { status, args })
        .collect();
    MockTransport::new(script)
}

fn ok_reply(args: Vec<u8>) -> (u8, Vec<u8>) {
    (STATUS_SUCCESSFUL, args)
}

#[test]
fn get_perf_mode_requires_zone_agreement() {
    // zone 1 reports balanced, zone 2 reports custom: a hard error.
    let mut t = mock(vec![ok_reply(vec![0, 1, 0, 0]), ok_reply(vec![0, 2, 4, 0])]);
    assert_eq!(command::get_perf_mode(&mut t).unwrap_err(), Error::ModesMismatch);
    assert_eq!(t.exchange_count(), 2);
}

#[test]
fn get_perf_mode_reads_both_zones() {
    let mut t = mock(vec![ok_reply(vec![0, 1, 5, 0]), ok_reply(vec![0, 2, 5, 0])]);
    assert_eq!(command::get_perf_mode(&mut t).unwrap(), (PerfMode::Silent, FanMode::Auto));
    assert_eq!(t.exchange_count(), 2);
    let q1 = t.sent_request(0);
    assert_eq!((q1.command_class, q1.command_id), (0x0d, 0x82));
    assert_eq!(&q1.args[..4], &[0, 1, 0, 0]);
    let q2 = t.sent_request(1);
    assert_eq!(&q2.args[..4], &[0, 2, 0, 0]);
}

#[test]
fn get_perf_mode_rejects_unknown_mode_byte() {
    let mut t = mock(vec![ok_reply(vec![0, 1, 7, 0]), ok_reply(vec![0, 2, 7, 0])]);
    assert_eq!(command::get_perf_mode(&mut t).unwrap_err(), Error::InvalidWireValue(7));
}

#[test]
fn set_perf_mode_writes_both_zones() {
    let mut t = mock(vec![ok_reply(vec![1, 1, 5, 0]), ok_reply(vec![1, 2, 5, 0])]);
    command::set_perf_mode(&mut t, PerfMode::Silent).unwrap();
    assert_eq!(t.exchange_count(), 2);
    let w1 = t.sent_request(0);
    assert_eq!((w1.command_class, w1.command_id), (0x0d, 0x02));
    assert_eq!(&w1.args[..4], &[1, 1, 5, 0]);
    let w2 = t.sent_request(1);
    assert_eq!(&w2.args[..4], &[1, 2, 5, 0]);
}

#[test]
fn set_perf_mode_stops_after_first_zone_failure() {
    let mut t = mock(vec![(STATUS_NOT_SUPPORTED, vec![1, 1, 5, 0])]);
    assert_eq!(
        command::set_perf_mode(&mut t, PerfMode::Silent).unwrap_err(),
        Error::CommandNotSupported
    );
    assert_eq!(t.exchange_count(), 1);
}

#[test]
fn set_fan_rpm_rejects_out_of_range_before_any_exchange() {
    let mut t = mock(vec![]);
    assert_eq!(
        command::set_fan_rpm(&mut t, 1999).unwrap_err(),
        Error::RpmOutOfRange { rpm: 1999 }
    );
    assert_eq!(
        command::set_fan_rpm(&mut t, 5001).unwrap_err(),
        Error::RpmOutOfRange { rpm: 5001 }
    );
    assert_eq!(t.exchange_count(), 0);
}

#[test]
fn set_fan_rpm_fails_without_writes_in_wrong_mode() {
    // the device reports (custom, auto): the two mode queries happen,
    // the two zone writes do not.
    let mut t = mock(vec![ok_reply(vec![0, 1, 4, 0]), ok_reply(vec![0, 2, 4, 0])]);
    assert_eq!(
        command::set_fan_rpm(&mut t, 3000).unwrap_err(),
        Error::ModePrecondition {
            required: ModeRequirement::BalancedManual,
            actual_perf: PerfMode::Custom,
            actual_fan: FanMode::Auto,
        }
    );
    assert_eq!(t.exchange_count(), 2);
}

#[test]
fn set_fan_rpm_writes_both_zones_in_balanced_manual() {
    let mut t = mock(vec![
        ok_reply(vec![0, 1, 0, 1]),
        ok_reply(vec![0, 2, 0, 1]),
        ok_reply(vec![0, 1, 30]),
        ok_reply(vec![0, 2, 30]),
    ]);
    command::set_fan_rpm(&mut t, 3000).unwrap();
    assert_eq!(t.exchange_count(), 4);
    let w1 = t.sent_request(2);
    assert_eq!((w1.command_class, w1.command_id), (0x0d, 0x01));
    assert_eq!(&w1.args[..3], &[0, 1, 30]);
    let w2 = t.sent_request(3);
    assert_eq!(&w2.args[..3], &[0, 2, 30]);
}

#[test]
fn set_fan_rpm_truncates_to_lower_hundred() {
    let mut t = mock(vec![
        ok_reply(vec![0, 1, 0, 1]),
        ok_reply(vec![0, 2, 0, 1]),
        ok_reply(vec![0, 1, 20]),
        ok_reply(vec![0, 2, 20]),
    ]);
    command::set_fan_rpm(&mut t, 2050).unwrap();
    assert_eq!(t.sent_request(2).args[2], 20);
    assert_eq!(t.sent_request(3).args[2], 20);
}

#[test]
fn get_fan_rpm_scales_by_hundred() {
    let mut t = mock(vec![ok_reply(vec![0, 2, 35])]);
    assert_eq!(command::get_fan_rpm(&mut t, FanZone::Zone2).unwrap(), 3500);
    let q = t.sent_request(0);
    assert_eq!((q.command_class, q.command_id), (0x0d, 0x81));
    assert_eq!(&q.args[..3], &[0, 2, 0]);
}

#[test]
fn get_fan_rpm_checks_zone_discriminant() {
    let mut t = mock(vec![ok_reply(vec![0, 2, 35])]);
    assert_eq!(
        command::get_fan_rpm(&mut t, FanZone::Zone1).unwrap_err(),
        Error::DiscriminantMismatch(2)
    );
}

#[test]
fn set_cpu_boost_requires_custom_auto() {
    let mut t = mock(vec![ok_reply(vec![0, 1, 0, 0]), ok_reply(vec![0, 2, 0, 0])]);
    assert_eq!(
        command::set_cpu_boost(&mut t, CpuBoost::High).unwrap_err(),
        Error::ModePrecondition {
            required: ModeRequirement::CustomAuto,
            actual_perf: PerfMode::Balanced,
            actual_fan: FanMode::Auto,
        }
    );
    assert_eq!(t.exchange_count(), 2);
}

#[test]
fn set_cpu_boost_writes_after_fresh_mode_read() {
    let mut t = mock(vec![
        ok_reply(vec![0, 1, 4, 0]),
        ok_reply(vec![0, 2, 4, 0]),
        ok_reply(vec![0, 1, 3]),
    ]);
    command::set_cpu_boost(&mut t, CpuBoost::Boost).unwrap();
    assert_eq!(t.exchange_count(), 3);
    let w = t.sent_request(2);
    assert_eq!((w.command_class, w.command_id), (0x0d, 0x07));
    assert_eq!(&w.args[..3], &[0, 1, 3]);
}

#[test]
fn set_gpu_boost_addresses_gpu_cluster() {
    let mut t = mock(vec![
        ok_reply(vec![0, 1, 4, 0]),
        ok_reply(vec![0, 2, 4, 0]),
        ok_reply(vec![0, 2, 2]),
    ]);
    command::set_gpu_boost(&mut t, GpuBoost::High).unwrap();
    assert_eq!(&t.sent_request(2).args[..3], &[0, 2, 2]);
}

#[test]
fn get_cpu_boost_decodes_reply() {
    let mut t = mock(vec![ok_reply(vec![0, 1, 4])]);
    assert_eq!(command::get_cpu_boost(&mut t).unwrap(), CpuBoost::Overclock);
}

#[test]
fn get_gpu_boost_checks_cluster_discriminant() {
    let mut t = mock(vec![ok_reply(vec![0, 1, 2])]);
    assert_eq!(command::get_gpu_boost(&mut t).unwrap_err(), Error::DiscriminantMismatch(1));
}

#[test]
fn set_max_fan_speed_mode_needs_custom_mode() {
    let mut t = mock(vec![ok_reply(vec![0, 1, 0, 0]), ok_reply(vec![0, 2, 0, 0])]);
    assert_eq!(
        command::set_max_fan_speed_mode(&mut t, MaxFanSpeedMode::Enable).unwrap_err(),
        Error::ModePrecondition {
            required: ModeRequirement::CustomPerf,
            actual_perf: PerfMode::Balanced,
            actual_fan: FanMode::Auto,
        }
    );
    assert_eq!(t.exchange_count(), 2);
}

#[test]
fn set_max_fan_speed_mode_needs_high_boost_levels() {
    // custom mode, but the CPU boost reads back too low: refused after
    // the boost read, before any write.
    let mut t = mock(vec![
        ok_reply(vec![0, 1, 4, 0]),
        ok_reply(vec![0, 2, 4, 0]),
        ok_reply(vec![0, 1, 0]),
    ]);
    assert_eq!(
        command::set_max_fan_speed_mode(&mut t, MaxFanSpeedMode::Enable).unwrap_err(),
        Error::CpuBoostPrecondition { actual_cpu: CpuBoost::Low }
    );
    assert_eq!(t.exchange_count(), 3);
}

#[test]
fn set_max_fan_speed_mode_checks_gpu_boost_too() {
    let mut t = mock(vec![
        ok_reply(vec![0, 1, 4, 0]),
        ok_reply(vec![0, 2, 4, 0]),
        ok_reply(vec![0, 1, 3]),
        ok_reply(vec![0, 2, 1]),
    ]);
    assert_eq!(
        command::set_max_fan_speed_mode(&mut t, MaxFanSpeedMode::Enable).unwrap_err(),
        Error::GpuBoostPrecondition { actual_gpu: GpuBoost::Medium }
    );
    assert_eq!(t.exchange_count(), 4);
}

#[test]
fn set_max_fan_speed_mode_writes_after_all_checks() {
    let mut t = mock(vec![
        ok_reply(vec![0, 1, 4, 0]),
        ok_reply(vec![0, 2, 4, 0]),
        ok_reply(vec![0, 1, 3]),
        ok_reply(vec![0, 2, 2]),
        ok_reply(vec![2]),
    ]);
    command::set_max_fan_speed_mode(&mut t, MaxFanSpeedMode::Enable).unwrap();
    assert_eq!(t.exchange_count(), 5);
    let w = t.sent_request(4);
    assert_eq!((w.command_class, w.command_id), (0x07, 0x0f));
    assert_eq!(w.args[0], 2);
}

#[test]
fn set_fan_mode_requires_balanced() {
    let mut t = mock(vec![ok_reply(vec![0, 1, 5, 0]), ok_reply(vec![0, 2, 5, 0])]);
    assert_eq!(
        command::set_fan_mode(&mut t, FanMode::Manual).unwrap_err(),
        Error::ModePrecondition {
            required: ModeRequirement::BalancedPerf,
            actual_perf: PerfMode::Silent,
            actual_fan: FanMode::Auto,
        }
    );
    assert_eq!(t.exchange_count(), 2);
}

#[test]
fn set_fan_mode_rewrites_balanced_with_new_fan_mode() {
    let mut t = mock(vec![
        ok_reply(vec![0, 1, 0, 0]),
        ok_reply(vec![0, 2, 0, 0]),
        ok_reply(vec![1, 1, 0, 1]),
        ok_reply(vec![1, 2, 0, 1]),
    ]);
    command::set_fan_mode(&mut t, FanMode::Manual).unwrap();
    assert_eq!(t.exchange_count(), 4);
    assert_eq!(&t.sent_request(2).args[..4], &[1, 1, 0, 1]);
    assert_eq!(&t.sent_request(3).args[..4], &[1, 2, 0, 1]);
}

#[test]
fn logo_off_issues_only_the_power_sub_command() {
    let mut t = mock(vec![ok_reply(vec![1, 4, 0])]);
    command::set_logo_mode(&mut t, LogoMode::Off).unwrap();
    assert_eq!(t.exchange_count(), 1);
    let w = t.sent_request(0);
    assert_eq!((w.command_class, w.command_id), (0x03, 0x00));
    assert_eq!(&w.args[..3], &[1, 4, 0]);
}

#[test]
fn logo_static_issues_mode_then_power() {
    let mut t = mock(vec![ok_reply(vec![1, 4, 0]), ok_reply(vec![1, 4, 1])]);
    command::set_logo_mode(&mut t, LogoMode::Static).unwrap();
    assert_eq!(t.exchange_count(), 2);
    let mode_write = t.sent_request(0);
    assert_eq!((mode_write.command_class, mode_write.command_id), (0x03, 0x02));
    assert_eq!(&mode_write.args[..3], &[1, 4, 0]);
    let power_write = t.sent_request(1);
    assert_eq!((power_write.command_class, power_write.command_id), (0x03, 0x00));
    assert_eq!(&power_write.args[..3], &[1, 4, 1]);
}

#[test]
fn logo_breathing_issues_mode_then_power() {
    let mut t = mock(vec![ok_reply(vec![1, 4, 2]), ok_reply(vec![1, 4, 1])]);
    command::set_logo_mode(&mut t, LogoMode::Breathing).unwrap();
    assert_eq!(t.exchange_count(), 2);
    assert_eq!(&t.sent_request(0).args[..3], &[1, 4, 2]);
    assert_eq!(&t.sent_request(1).args[..3], &[1, 4, 1]);
}

#[test]
fn get_logo_mode_reports_off_without_mode_query() {
    let mut t = mock(vec![ok_reply(vec![1, 4, 0])]);
    assert_eq!(command::get_logo_mode(&mut t).unwrap(), LogoMode::Off);
    assert_eq!(t.exchange_count(), 1);
}

#[test]
fn get_logo_mode_composes_power_and_animation() {
    let mut t = mock(vec![ok_reply(vec![1, 4, 1]), ok_reply(vec![1, 4, 2])]);
    assert_eq!(command::get_logo_mode(&mut t).unwrap(), LogoMode::Breathing);
    assert_eq!(t.exchange_count(), 2);
}

#[test]
fn keyboard_brightness_round_trip() {
    let mut t = mock(vec![ok_reply(vec![1, 5, 0x80]), ok_reply(vec![1, 5, 0x40])]);
    assert_eq!(command::get_keyboard_brightness(&mut t).unwrap(), 0x80);
    command::set_keyboard_brightness(&mut t, 0x40).unwrap();
    assert_eq!(&t.sent_request(1).args[..3], &[1, 5, 0x40]);
}

#[test]
fn keyboard_brightness_echo_mismatch_is_an_error() {
    let mut t = mock(vec![ok_reply(vec![1, 5, 0x41])]);
    assert_eq!(
        command::set_keyboard_brightness(&mut t, 0x40).unwrap_err(),
        Error::EchoMismatch
    );
}

#[test]
fn not_supported_status_is_distinguished() {
    let mut t = mock(vec![(STATUS_NOT_SUPPORTED, vec![1, 5, 0])]);
    assert_eq!(
        command::get_keyboard_brightness(&mut t).unwrap_err(),
        Error::CommandNotSupported
    );
}

#[test]
fn unknown_status_carries_the_raw_byte() {
    let mut t = mock(vec![(0x17, vec![1, 5, 0])]);
    assert_eq!(
        command::get_keyboard_brightness(&mut t).unwrap_err(),
        Error::UnknownStatus(0x17)
    );
}

#[test]
fn lights_always_on_round_trip() {
    let mut t = mock(vec![ok_reply(vec![3, 0]), ok_reply(vec![0, 0])]);
    assert_eq!(command::get_lights_always_on(&mut t).unwrap(), LightsAlwaysOn::Enable);
    command::set_lights_always_on(&mut t, LightsAlwaysOn::Disable).unwrap();
    let w = t.sent_request(1);
    assert_eq!((w.command_class, w.command_id), (0x00, 0x04));
    assert_eq!(&w.args[..2], &[0, 0]);
}

#[test]
fn lights_always_on_rejects_unknown_byte() {
    let mut t = mock(vec![ok_reply(vec![7, 0])]);
    assert_eq!(
        command::get_lights_always_on(&mut t).unwrap_err(),
        Error::InvalidWireValue(7)
    );
}

#[test]
fn battery_care_round_trip() {
    let mut t = mock(vec![ok_reply(vec![0xd0]), ok_reply(vec![0x50])]);
    assert_eq!(command::get_battery_care(&mut t).unwrap(), BatteryCare::Enable);
    command::set_battery_care(&mut t, BatteryCare::Disable).unwrap();
    let w = t.sent_request(1);
    assert_eq!((w.command_class, w.command_id), (0x07, 0x12));
    assert_eq!(w.args[0], 0x50);
}

#[test]
fn max_fan_speed_query_decodes_reply() {
    let mut t = mock(vec![ok_reply(vec![2])]);
    assert_eq!(
        command::get_max_fan_speed_mode(&mut t).unwrap(),
        MaxFanSpeedMode::Enable
    );
    let q = t.sent_request(0);
    assert_eq!((q.command_class, q.command_id), (0x07, 0x8f));
}

#[test]
fn exhausted_transport_reports_io_failure() {
    let mut t = mock(vec![]);
    assert_eq!(command::get_battery_care(&mut t).unwrap_err(), Error::Io);
    assert_eq!(t.exchange_count(), 1);
}

#[test]
fn custom_command_returns_validated_reply() {
    let mut t = mock(vec![ok_reply(vec![9, 9])]);
    let reply = command::custom_command(&mut t, 0x0d82, &vec![0u8, 1]).unwrap();
    assert_eq!(reply.args[0], 9);
    let q = t.sent_request(0);
    assert_eq!((q.command_class, q.command_id), (0x0d, 0x82));
    assert_eq!(q.data_size, 2);
}
