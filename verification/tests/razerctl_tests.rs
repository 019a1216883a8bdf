use librazer::error::Error;
use librazer::packet::{STATUS_NOT_SUPPORTED, STATUS_SUCCESSFUL};
use librazer::razerctl::{
    parse_pid, CpuBoost, Device0, FanMode, GpuBoost, PowerMode, Zone, RAZER_BLADE_16_2023_PID,
};
use librazer::transport::{MockReply, MockTransport};

fn device(replies: Vec<Vec<u8>>) -> Device0<MockTransport> {
    let script = replies
        .into_iter()
        .map(|args| MockReply { status: STATUS_SUCCESSFUL, args })
        .collect();
    Device0::new(MockTransport::new(script))
}

#[test]
fn parse_pid_defaults_when_absent() {
    assert_eq!(parse_pid(&None), Some(RAZER_BLADE_16_2023_PID));
    assert_eq!(parse_pid(&None), Some(0x029f));
}

#[test]
fn parse_pid_accepts_plain_and_prefixed_hex() {
    assert_eq!(parse_pid(&Some("029f".to_string())), Some(0x029f));
    assert_eq!(parse_pid(&Some("0x029f".to_string())), Some(0x029f));
    assert_eq!(parse_pid(&Some("0x1A2b".to_string())), Some(0x1a2b));
    assert_eq!(parse_pid(&Some("ffff".to_string())), Some(0xffff));
    assert_eq!(parse_pid(&Some("0".to_string())), Some(0));
    assert_eq!(parse_pid(&Some("00010000".to_string())), None);
}

#[test]
fn parse_pid_rejects_junk() {
    assert_eq!(parse_pid(&Some("".to_string())), None);
    assert_eq!(parse_pid(&Some("0x".to_string())), None);
    assert_eq!(parse_pid(&Some("29fz".to_string())), None);
    assert_eq!(parse_pid(&Some("10000".to_string())), None);
    assert_eq!(parse_pid(&Some("-1".to_string())), None);
}

#[test]
fn zone_wire_bytes() {
    assert_eq!(Zone::Cpu.wire(), 1);
    assert_eq!(Zone::Gpu.wire(), 2);
    assert_eq!(PowerMode::Balanced.wire(), 0);
    assert_eq!(PowerMode::Silent.wire(), 5);
    assert_eq!(PowerMode::Custom(CpuBoost::Low, GpuBoost::Low).wire(), 4);
    assert_eq!(FanMode::Auto.wire(), 0);
    assert_eq!(FanMode::Manual(3000).wire(), 1);
}

#[test]
fn legacy_get_power_mode_reads_both_zones() {
    let mut d = device(vec![vec![0, 1, 5, 0], vec![0, 1, 5, 0]]);
    assert_eq!(d.get_power_mode().unwrap(), PowerMode::Silent);
    assert_eq!(d.device.exchange_count(), 2);
    let q1 = d.device.sent_request(0);
    assert_eq!((q1.command_class, q1.command_id), (0x0d, 0x82));
    assert_eq!(&q1.args[..4], &[0, 1, 0, 0]);
    assert_eq!(q1.data_size, 4);
    let q2 = d.device.sent_request(1);
    assert_eq!(&q2.args[..4], &[0, 2, 0, 0]);
}

#[test]
fn legacy_get_power_mode_rejects_disagreeing_zones() {
    let mut d = device(vec![vec![0, 1, 0, 0], vec![0, 2, 5, 0]]);
    assert_eq!(d.get_power_mode().unwrap_err(), Error::ModesMismatch);
}

#[test]
fn legacy_get_power_mode_reads_boosts_in_custom() {
    let mut d = device(vec![
        vec![0, 1, 4, 0],
        vec![0, 2, 4, 0],
        vec![0, 1, 3],
        vec![0, 2, 1],
    ]);
    assert_eq!(
        d.get_power_mode().unwrap(),
        PowerMode::Custom(CpuBoost::Boost, GpuBoost::Medium)
    );
    assert_eq!(d.device.exchange_count(), 4);
    let bq = d.device.sent_request(2);
    assert_eq!((bq.command_class, bq.command_id), (0x0d, 0x87));
    assert_eq!(&bq.args[..3], &[0, 1, 0]);
    assert_eq!(bq.data_size, 3);
}

#[test]
fn legacy_get_power_mode_rejects_unknown_byte() {
    let mut d = device(vec![vec![0, 1, 9, 0], vec![0, 2, 9, 0]]);
    assert_eq!(d.get_power_mode().unwrap_err(), Error::InvalidWireValue(9));
}

#[test]
fn legacy_set_power_mode_reads_then_writes_each_zone() {
    let mut d = device(vec![
        vec![0, 1, 0, 0],
        vec![],
        vec![0, 2, 0, 0],
        vec![],
    ]);
    d.set_power_mode(PowerMode::Silent, FanMode::Auto).unwrap();
    assert_eq!(d.device.exchange_count(), 4);
    let w1 = d.device.sent_request(1);
    assert_eq!((w1.command_class, w1.command_id), (0x0d, 0x02));
    assert_eq!(&w1.args[..4], &[0, 1, 5, 0]);
    let w2 = d.device.sent_request(3);
    assert_eq!(&w2.args[..4], &[0, 2, 5, 0]);
}

#[test]
fn legacy_set_power_mode_custom_writes_boosts_too() {
    let mut d = device(vec![
        vec![0, 1, 0, 0],
        vec![],
        vec![0, 2, 0, 0],
        vec![],
        vec![0, 1, 0],
        vec![],
        vec![0, 2, 0],
        vec![],
    ]);
    d.set_power_mode(
        PowerMode::Custom(CpuBoost::Overclock, GpuBoost::High),
        FanMode::Auto,
    )
    .unwrap();
    assert_eq!(d.device.exchange_count(), 8);
    let cpu_write = d.device.sent_request(5);
    assert_eq!((cpu_write.command_class, cpu_write.command_id), (0x0d, 0x07));
    assert_eq!(&cpu_write.args[..3], &[0, 1, 4]);
    let gpu_write = d.device.sent_request(7);
    assert_eq!(&gpu_write.args[..3], &[0, 2, 2]);
}

#[test]
fn legacy_set_power_mode_stops_on_first_failure() {
    let mut d = Device0::new(MockTransport::new(vec![
        MockReply { status: STATUS_SUCCESSFUL, args: vec![0, 1, 0, 0] },
        MockReply { status: STATUS_NOT_SUPPORTED, args: vec![] },
    ]));
    assert_eq!(
        d.set_power_mode(PowerMode::Balanced, FanMode::Auto).unwrap_err(),
        Error::CommandNotSupported
    );
    assert_eq!(d.device.exchange_count(), 2);
}

#[test]
fn legacy_set_fan_mode_auto_rewrites_the_read_power_byte() {
    let mut d = device(vec![
        vec![0, 1, 5, 0],
        vec![],
        vec![0, 1, 5, 0],
        vec![],
    ]);
    d.set_fan_mode(FanMode::Auto).unwrap();
    assert_eq!(d.device.exchange_count(), 4);
    let w1 = d.device.sent_request(1);
    assert_eq!(&w1.args[..4], &[0, 1, 5, 0]);
    let w2 = d.device.sent_request(3);
    assert_eq!(&w2.args[..4], &[0, 2, 5, 0]);
}

#[test]
fn legacy_set_fan_mode_manual_adds_speed_writes() {
    let mut d = device(vec![
        vec![0, 1, 0, 0],
        vec![],
        vec![],
        vec![0, 1, 0, 0],
        vec![],
        vec![],
    ]);
    d.set_fan_mode(FanMode::Manual(2550)).unwrap();
    assert_eq!(d.device.exchange_count(), 6);
    let mode_w1 = d.device.sent_request(1);
    assert_eq!(&mode_w1.args[..4], &[0, 1, 0, 1]);
    let rpm_w1 = d.device.sent_request(2);
    assert_eq!((rpm_w1.command_class, rpm_w1.command_id), (0x0d, 0x01));
    assert_eq!(&rpm_w1.args[..3], &[0, 1, 25]);
    let rpm_w2 = d.device.sent_request(5);
    assert_eq!(&rpm_w2.args[..3], &[0, 2, 25]);
}

#[test]
fn legacy_set_fan_mode_manual_refused_in_custom_power() {
    let mut d = device(vec![vec![0, 1, 4, 0]]);
    assert_eq!(
        d.set_fan_mode(FanMode::Manual(3000)).unwrap_err(),
        Error::ManualFanRequiresBalanced
    );
    assert_eq!(d.device.exchange_count(), 1);
}

#[test]
fn legacy_set_fan_mode_manual_refused_in_silent_power() {
    let mut d = device(vec![vec![0, 1, 5, 0]]);
    assert_eq!(
        d.set_fan_mode(FanMode::Manual(3000)).unwrap_err(),
        Error::ManualFanRequiresBalanced
    );
    assert_eq!(d.device.exchange_count(), 1);
}

#[test]
fn legacy_set_fan_mode_rejects_out_of_range_before_any_exchange() {
    let mut d = device(vec![]);
    assert_eq!(
        d.set_fan_mode(FanMode::Manual(1999)).unwrap_err(),
        Error::RpmOutOfRange { rpm: 1999 }
    );
    assert_eq!(
        d.set_fan_mode(FanMode::Manual(5001)).unwrap_err(),
        Error::RpmOutOfRange { rpm: 5001 }
    );
    assert_eq!(d.device.exchange_count(), 0);
}

#[test]
fn legacy_set_undocumented_sends_one_frame() {
    let mut d = device(vec![vec![2]]);
    d.set_undocumented(2).unwrap();
    assert_eq!(d.device.exchange_count(), 1);
    let w = d.device.sent_request(0);
    assert_eq!((w.command_class, w.command_id), (0x07, 0x0f));
    assert_eq!(w.args[0], 2);
    assert_eq!(w.data_size, 1);
}
