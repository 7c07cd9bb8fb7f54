//! Packet codec, transport retry policy, and device command set.

use razer_control::comms::{DaemonCommand, DaemonResponse};
use razer_control::config::Configuration;
use razer_control::daemon::{
    conclude_client_request, process_client_request, DeviceManager, PendingReply,
};
use razer_control::device::{
    bho_to_byte, byte_to_bho, match_supported_device, parse_hex_u16, valid_bho_threshold,
    RazerLaptop, SupportedDevice,
};
use razer_control::kbd::EffectManager;
use razer_control::packet::RazerPacket;
use razer_control::transport::{ExchangeState, ReportExchange, Verdict};

fn test_laptop(features: Vec<&str>) -> RazerLaptop {
    RazerLaptop::new(
        "Test Blade".to_string(),
        features.into_iter().map(|s| s.to_string()).collect(),
        vec![3500u16, 5000u16],
    )
}

fn success_response_for(request: &RazerPacket) -> Vec<u8> {
    let mut resp = RazerPacket::new(request.command_class, request.command_id, request.data_size);
    resp.status = 0x02;
    resp.calc_crc()
}

#[test]
fn packet_new_layout() {
    let p = RazerPacket::new(0x0d, 0x02, 0x04);
    assert_eq!(p.report, 0x00);
    assert_eq!(p.status, 0x00);
    assert_eq!(p.id, 0x1f);
    assert_eq!(p.remaining_packets, 0);
    assert_eq!(p.data_size, 0x04);
    assert_eq!(p.command_class, 0x0d);
    assert_eq!(p.command_id, 0x02);
    assert_eq!(p.args.len(), 80);
    assert!(p.args.iter().all(|&b| b == 0));
}

#[test]
fn packet_crc_is_xor_of_window() {
    let mut p = RazerPacket::new(0x03, 0x0a, 80);
    p.args[0] = 0x06;
    p.args[1] = 0xff;
    p.args[2] = 0x10;
    let buf = p.calc_crc();
    assert_eq!(buf.len(), 91);
    let mut crc = 0u8;
    for i in 2..88 {
        crc ^= buf[i];
    }
    assert_eq!(buf[89], crc);
    assert_eq!(p.crc, crc);
}

#[test]
fn packet_encode_decode_round_trip() {
    let mut p = RazerPacket::new(0x0d, 0x82, 0x04);
    p.args[1] = 0x01;
    p.remaining_packets = 0x1234;
    let buf = p.calc_crc();
    let q = RazerPacket::decode(&buf).expect("a full buffer parses");
    assert_eq!(q.report, p.report);
    assert_eq!(q.status, p.status);
    assert_eq!(q.id, p.id);
    assert_eq!(q.remaining_packets, 0x1234);
    assert_eq!(q.protocol_type, p.protocol_type);
    assert_eq!(q.data_size, p.data_size);
    assert_eq!(q.command_class, p.command_class);
    assert_eq!(q.command_id, p.command_id);
    assert_eq!(q.args, p.args);
    assert_eq!(q.crc, p.crc);
    assert_eq!(q.reserved, p.reserved);
    // the little-endian placement of the only multi-byte field
    assert_eq!(buf[3], 0x34);
    assert_eq!(buf[4], 0x12);
}

#[test]
fn packet_decode_rejects_wrong_length() {
    assert!(RazerPacket::decode(&vec![0u8; 90]).is_none());
    assert!(RazerPacket::decode(&vec![0u8; 92]).is_none());
    assert!(RazerPacket::decode(&vec![0u8; 0]).is_none());
}

#[test]
fn bho_byte_round_trip() {
    assert_eq!(bho_to_byte(true, 80), 0xd0);
    assert_eq!(bho_to_byte(false, 80), 80);
    for &t in &[0u8, 50, 65, 80, 127] {
        assert_eq!(byte_to_bho(bho_to_byte(true, t)), (true, t));
        assert_eq!(byte_to_bho(bho_to_byte(false, t)), (false, t));
    }
}

#[test]
fn bho_threshold_validation() {
    for t in 0u8..=255 {
        let expected = t % 5 == 0 && (50..=80).contains(&t);
        assert_eq!(valid_bho_threshold(t), expected, "threshold {}", t);
    }
}

#[test]
fn hex_pid_parsing() {
    assert_eq!(parse_hex_u16("1f"), Some(0x1f));
    assert_eq!(parse_hex_u16("0233"), Some(0x0233));
    assert_eq!(parse_hex_u16("FFFF"), Some(0xffff));
    assert_eq!(parse_hex_u16(""), None);
    assert_eq!(parse_hex_u16("12345"), None);
    assert_eq!(parse_hex_u16("g1"), None);
}

#[test]
fn catalog_matching() {
    let devices = vec![
        SupportedDevice {
            name: "One".to_string(),
            vid: "1532".to_string(),
            pid: "0233".to_string(),
            features: vec![],
            fan: vec![3500, 5000],
        },
        SupportedDevice {
            name: "Two".to_string(),
            vid: "1532".to_string(),
            pid: "024a".to_string(),
            features: vec![],
            fan: vec![3500, 5000],
        },
    ];
    assert_eq!(match_supported_device(&devices, 0x024a), Some(1));
    assert_eq!(match_supported_device(&devices, 0x0233), Some(0));
    assert_eq!(match_supported_device(&devices, 0x9999), None);
}

#[test]
fn features_and_boost_capability() {
    let d = SupportedDevice {
        name: "One".to_string(),
        vid: "1532".to_string(),
        pid: "0233".to_string(),
        features: vec!["bho".to_string(), "logo".to_string()],
        fan: vec![3500, 5000],
    };
    assert!(d.has_feature("bho"));
    assert!(d.has_logo());
    assert!(!d.can_boost());
}

#[test]
fn fan_rpm_clamping() {
    let mut l = test_laptop(vec![]);
    // below the range: clamped up to the minimum
    let (ok, _) = l.set_fan_rpm(400);
    assert!(ok);
    assert_eq!(l.get_fan_rpm(), 3500);
    // above the range: clamped down to the maximum
    let (ok, _) = l.set_fan_rpm(6000);
    assert!(ok);
    assert_eq!(l.get_fan_rpm(), 5000);
    // inside the range: kept (in hundreds)
    let (ok, _) = l.set_fan_rpm(4321);
    assert!(ok);
    assert_eq!(l.get_fan_rpm(), 4300);
    // zero selects the automatic fan and sends no fan-speed packets
    let (ok, pkts) = l.set_fan_rpm(0);
    assert!(ok);
    assert_eq!(l.get_fan_rpm(), 0);
    assert_eq!(pkts.len(), 4);
    assert!(pkts.iter().all(|p| p.command_id != 0x01));
}

#[test]
fn fan_rpm_ignored_in_custom_mode() {
    let mut l = test_laptop(vec![]);
    let (_, _) = l.set_power_mode(4, 1, 1);
    let (ok, pkts) = l.set_fan_rpm(4000);
    assert!(ok);
    assert!(pkts.is_empty());
    assert_eq!(l.get_fan_rpm(), 0);
}

#[test]
fn power_mode_preset_packets() {
    let mut l = test_laptop(vec![]);
    let (ok, pkts) = l.set_power_mode(2, 0, 0);
    assert!(ok);
    assert_eq!(pkts.len(), 2);
    for (i, p) in pkts.iter().enumerate() {
        assert_eq!(p.command_class, 0x0d);
        assert_eq!(p.command_id, 0x02);
        assert_eq!(p.args[1], (i + 1) as u8);
        assert_eq!(p.args[2], 2);
        assert_eq!(p.args[3], 0);
    }
}

#[test]
fn custom_mode_boost_clamp_without_capability() {
    // requesting the highest CPU boost on a device without the capability
    // transmits the next level down
    let mut l = test_laptop(vec![]);
    let (ok, pkts) = l.set_power_mode(4, 3, 1);
    assert!(ok);
    assert_eq!(pkts.len(), 8);
    let cpu_boost = &pkts[3];
    assert_eq!(cpu_boost.command_id, 0x07);
    assert_eq!(cpu_boost.args[1], 0x01);
    assert_eq!(cpu_boost.args[2], 2);
    let gpu_boost = &pkts[5];
    assert_eq!(gpu_boost.args[1], 0x02);
    assert_eq!(gpu_boost.args[2], 1);
}

#[test]
fn custom_mode_boost_clamp_only_hits_top_level() {
    // lower boost levels pass through unchanged on the same device
    let mut l = test_laptop(vec![]);
    let (_, pkts) = l.set_power_mode(4, 2, 1);
    assert_eq!(pkts[3].args[2], 2);
    // and a device with the capability keeps the top level
    let mut lb = test_laptop(vec!["boost"]);
    let (_, pkts) = lb.set_power_mode(4, 3, 1);
    assert_eq!(pkts[3].args[2], 3);
}

#[test]
fn logo_packets_follow_mode() {
    let l = test_laptop(vec![]);
    let off = l.set_logo_led_state(0);
    assert_eq!(off.len(), 1);
    assert_eq!(off[0].args[2], 0);
    let on = l.set_logo_led_state(1);
    assert_eq!(on.len(), 2);
    assert_eq!(on[0].command_id, 0x02);
    assert_eq!(on[0].args[2], 0x00);
    assert_eq!(on[1].args[2], 1);
    let breathing = l.set_logo_led_state(2);
    assert_eq!(breathing.len(), 2);
    assert_eq!(breathing[0].args[2], 0x02);
    // the enable byte is clamped to one even for the breathing sub-mode
    assert_eq!(breathing[1].args[2], 1);
}

#[test]
fn bho_commands_gated_by_capability() {
    let plain = test_laptop(vec![]);
    assert!(plain.get_bho().is_none());
    assert!(plain.set_bho(true, 80).is_none());
    let bho = test_laptop(vec!["bho"]);
    let q = bho.get_bho().expect("capability present");
    assert_eq!(q.command_class, 0x07);
    assert_eq!(q.command_id, 0x92);
    let s = bho.set_bho(true, 75).expect("valid threshold");
    assert_eq!(s.command_id, 0x12);
    assert_eq!(s.args[0], 75 | 0x80);
    // an invalid threshold is rejected before any exchange
    assert!(bho.set_bho(true, 52).is_none());
}

#[test]
fn retry_succeeds_on_third_attempt() {
    let request = RazerPacket::new(0x0d, 0x02, 0x04);
    let good = success_response_for(&request);
    let mut exchange = ReportExchange::begin(request);
    assert_eq!(exchange.state, ExchangeState::Exchanging);
    exchange.on_attempt(None);
    assert_eq!(exchange.state, ExchangeState::Exchanging);
    exchange.on_attempt(Some(vec![0u8; 13]));
    assert_eq!(exchange.state, ExchangeState::Exchanging);
    exchange.on_attempt(Some(good));
    assert_eq!(exchange.state, ExchangeState::RateLimit);
    exchange.delay_elapsed();
    assert_eq!(exchange.state, ExchangeState::Done);
    let resp = exchange.into_result().expect("third attempt accepted");
    assert_eq!(resp.status, 0x02);
}

#[test]
fn retry_fails_after_three_attempts() {
    let request = RazerPacket::new(0x0d, 0x02, 0x04);
    // a response that does not correlate: different command id, status new
    let mismatched = RazerPacket::new(0x0d, 0x05, 0x04).calc_crc();
    let mut exchange = ReportExchange::begin(request);
    exchange.on_attempt(Some(mismatched.clone()));
    exchange.on_attempt(Some(mismatched));
    assert_eq!(exchange.state, ExchangeState::Exchanging);
    exchange.on_attempt(None);
    // decided, but the inter-command delay is still owed
    assert_eq!(exchange.state, ExchangeState::RateLimit);
    exchange.delay_elapsed();
    assert!(exchange.into_result().is_none());
}

#[test]
fn unsupported_response_stops_retrying() {
    let request = RazerPacket::new(0x0d, 0x02, 0x04);
    let mut refused = RazerPacket::new(0x0d, 0x02, 0x04);
    refused.status = 0x05;
    let mut exchange = ReportExchange::begin(request);
    exchange.on_attempt(Some(refused.calc_crc()));
    assert_eq!(exchange.state, ExchangeState::RateLimit);
    exchange.delay_elapsed();
    assert!(exchange.into_result().is_none());
}

#[test]
fn bho_query_accepted_out_of_band() {
    // the firmware answers the battery-health query under its own command
    // id; such a response is accepted whatever was sent
    let request = RazerPacket::new(0x07, 0x12, 0x01);
    let mut response = RazerPacket::new(0x00, 0x92, 0x01);
    response.status = 0x00;
    assert_eq!(razer_control::transport::correlate(&request, &response), Verdict::Accept);
}

fn manager_with_device(features: Vec<&str>, ac: bool) -> DeviceManager {
    let mut m = DeviceManager::from_catalog(Vec::new(), Configuration::new());
    let mut l = test_laptop(features);
    let _ = l.set_ac_state(ac);
    m.device = Some(l);
    m
}

#[test]
fn end_to_end_power_mode_on_non_boost_device() {
    let mut m = manager_with_device(vec![], true);
    let mut fx = EffectManager::new();
    // the boost clamp only applies to the top level: a request of 2 is kept
    let out = process_client_request(
        &mut m,
        &mut fx,
        DaemonCommand::SetPowerMode { ac: 1, pwr: 4, cpu: 2, gpu: 1 },
    );
    assert_eq!(out.packets.len(), 8);
    assert_eq!(out.packets[3].args[2], 2);
    assert!(out.save_config);
    // a request of 3 on the same device is lowered to 2
    let out = process_client_request(
        &mut m,
        &mut fx,
        DaemonCommand::SetPowerMode { ac: 1, pwr: 4, cpu: 3, gpu: 1 },
    );
    assert_eq!(out.packets[3].args[2], 2);
    match conclude_client_request(out.pending, &Vec::new()) {
        Some(DaemonResponse::SetPowerMode { result }) => assert!(result),
        other => panic!("unexpected reply {:?}", other),
    }
}

#[test]
fn end_to_end_standard_effect_encoding() {
    let mut m = manager_with_device(vec![], false);
    let mut fx = EffectManager::new();
    let out = process_client_request(
        &mut m,
        &mut fx,
        DaemonCommand::SetStandardEffect {
            name: "breathing".to_string(),
            params: vec![2, 255, 0, 0, 0, 0, 255],
        },
    );
    assert_eq!(out.packets.len(), 1);
    let p = &out.packets[0];
    assert_eq!(p.command_class, 0x03);
    assert_eq!(p.command_id, 0x0a);
    assert_eq!(p.data_size, 80);
    assert_eq!(
        &p.args[0..9],
        &[0x03, 2, 255, 0, 0, 0, 0, 255, 0],
    );
    assert!(p.args[9..].iter().all(|&b| b == 0));
}

#[test]
fn power_mode_command_for_other_power_source_skips_hardware() {
    let mut m = manager_with_device(vec![], true);
    let mut fx = EffectManager::new();
    let out = process_client_request(
        &mut m,
        &mut fx,
        DaemonCommand::SetPowerMode { ac: 0, pwr: 1, cpu: 0, gpu: 0 },
    );
    assert!(out.packets.is_empty());
    match conclude_client_request(out.pending, &Vec::new()) {
        Some(DaemonResponse::SetPowerMode { result }) => assert!(result),
        other => panic!("unexpected reply {:?}", other),
    }
    // the stored settings still took the value
    assert_eq!(m.config.as_ref().unwrap().power[0].power_mode, 1);
}

#[test]
fn commands_without_device_report_failure() {
    let mut m = DeviceManager::from_catalog(Vec::new(), Configuration::new());
    let mut fx = EffectManager::new();
    let out = process_client_request(
        &mut m,
        &mut fx,
        DaemonCommand::SetFanSpeed { ac: 0, rpm: 4000 },
    );
    assert!(out.packets.is_empty());
    match conclude_client_request(out.pending, &Vec::new()) {
        Some(DaemonResponse::SetFanSpeed { result }) => assert!(!result),
        other => panic!("unexpected reply {:?}", other),
    }
}

#[test]
fn brightness_round_trips_through_percent() {
    let mut m = manager_with_device(vec![], false);
    let mut fx = EffectManager::new();
    let out = process_client_request(
        &mut m,
        &mut fx,
        DaemonCommand::SetBrightness { ac: 0, val: 50 },
    );
    // 50 percent maps to device unit 127
    assert_eq!(out.packets.len(), 1);
    assert_eq!(out.packets[0].args[2], 127);
    // a successful exchange reports success
    let resp = RazerPacket::decode(&success_response_for(&out.packets[0])).unwrap();
    match conclude_client_request(out.pending, &vec![Some(resp)]) {
        Some(DaemonResponse::SetBrightness { result }) => assert!(result),
        other => panic!("unexpected reply {:?}", other),
    }
    // reading it back from hardware: a response carrying 128 reads as 50
    let out = process_client_request(&mut m, &mut fx, DaemonCommand::GetBrightness { ac: 0 });
    assert_eq!(out.packets.len(), 1);
    let mut hw = RazerPacket::new(0x03, 0x83, 0x03);
    hw.args[2] = 128;
    match conclude_client_request(out.pending, &vec![Some(hw)]) {
        Some(DaemonResponse::GetBrightness { result }) => assert_eq!(result, 50),
        other => panic!("unexpected reply {:?}", other),
    }
}

#[test]
fn bho_query_reply_unpacks_status_byte() {
    let mut m = manager_with_device(vec!["bho"], false);
    let mut fx = EffectManager::new();
    let out = process_client_request(&mut m, &mut fx, DaemonCommand::GetBatteryHealthOptimizer());
    assert_eq!(out.packets.len(), 1);
    let mut hw = RazerPacket::new(0x07, 0x92, 0x01);
    hw.args[0] = 80 | 0x80;
    match conclude_client_request(out.pending, &vec![Some(hw)]) {
        Some(DaemonResponse::GetBatteryHealthOptimizer { is_on, threshold }) => {
            assert!(is_on);
            assert_eq!(threshold, 80);
        },
        other => panic!("unexpected reply {:?}", other),
    }
    // a failed exchange yields no reply at all
    let out = process_client_request(&mut m, &mut fx, DaemonCommand::GetBatteryHealthOptimizer());
    assert!(matches!(out.pending, PendingReply::BhoGet));
    assert!(conclude_client_request(out.pending, &vec![None]).is_none());
}

#[test]
fn bho_set_validates_at_command_boundary() {
    let mut m = manager_with_device(vec!["bho"], false);
    let mut fx = EffectManager::new();
    let out = process_client_request(
        &mut m,
        &mut fx,
        DaemonCommand::SetBatteryHealthOptimizer { is_on: true, threshold: 52 },
    );
    assert!(out.packets.is_empty());
    match conclude_client_request(out.pending, &Vec::new()) {
        Some(DaemonResponse::SetBatteryHealthOptimizer { result }) => assert!(!result),
        other => panic!("unexpected reply {:?}", other),
    }
}

#[test]
fn sync_copies_active_slot() {
    let mut m = manager_with_device(vec![], true);
    let mut fx = EffectManager::new();
    {
        let c = m.config.as_mut().unwrap();
        c.power[1].brightness = 200;
        c.power[1].logo_state = 2;
        c.power[1].idle = 15;
    }
    let out = process_client_request(&mut m, &mut fx, DaemonCommand::SetSync { sync: true });
    assert!(out.save_config);
    let c = m.config.as_ref().unwrap();
    assert!(c.sync);
    assert_eq!(c.power[0].brightness, 200);
    assert_eq!(c.power[0].logo_state, 2);
    assert_eq!(c.power[0].idle, 15);
}

#[test]
fn idle_change_arms_watch_only_on_real_change() {
    let mut m = manager_with_device(vec![], false);
    let mut fx = EffectManager::new();
    let out = process_client_request(&mut m, &mut fx, DaemonCommand::SetIdle { ac: 0, val: 10 });
    assert!(out.save_config);
    assert!(m.change_idle);
    m.change_idle = false;
    let out = process_client_request(&mut m, &mut fx, DaemonCommand::SetIdle { ac: 0, val: 10 });
    assert!(!out.save_config);
    assert!(!m.change_idle);
}

#[test]
fn device_name_falls_back_when_unbound() {
    let mut m = DeviceManager::new();
    let mut fx = EffectManager::new();
    let out = process_client_request(&mut m, &mut fx, DaemonCommand::GetDeviceName);
    match conclude_client_request(out.pending, &Vec::new()) {
        Some(DaemonResponse::GetDeviceName { name }) => assert_eq!(name, "Unknown Device"),
        other => panic!("unexpected reply {:?}", other),
    }
}

#[test]
fn out_of_range_power_source_is_rejected() {
    let mut m = manager_with_device(vec![], false);
    let mut fx = EffectManager::new();
    let out = process_client_request(&mut m, &mut fx, DaemonCommand::GetBrightness { ac: 7 });
    assert!(out.packets.is_empty());
    assert!(conclude_client_request(out.pending, &Vec::new()).is_none());
}

#[test]
fn set_effect_replaces_the_top_layer() {
    let mut m = manager_with_device(vec![], false);
    let mut fx = EffectManager::new();
    fx.push_effect(
        razer_control::kbd::Effect::Static {
            color: razer_control::kbd::Color { r: 1, g: 1, b: 1 },
        },
        vec![true; 90],
    );
    let out = process_client_request(
        &mut m,
        &mut fx,
        DaemonCommand::SetEffect { name: "static".to_string(), params: vec![0, 255, 0] },
    );
    assert!(out.packets.is_empty());
    match conclude_client_request(out.pending, &Vec::new()) {
        Some(DaemonResponse::SetEffect { result }) => assert!(result),
        other => panic!("unexpected reply {:?}", other),
    }
    assert_eq!(fx.layers.len(), 1);
    assert_eq!(
        fx.layers[0].effect,
        razer_control::kbd::Effect::Static {
            color: razer_control::kbd::Color { r: 0, g: 255, b: 0 },
        }
    );
}

#[test]
fn set_effect_rejects_unknown_names() {
    let mut m = manager_with_device(vec![], false);
    let mut fx = EffectManager::new();
    let out = process_client_request(
        &mut m,
        &mut fx,
        DaemonCommand::SetEffect { name: "sparkle".to_string(), params: vec![0, 255, 0] },
    );
    match conclude_client_request(out.pending, &Vec::new()) {
        Some(DaemonResponse::SetEffect { result }) => assert!(!result),
        other => panic!("unexpected reply {:?}", other),
    }
    assert!(fx.layers.is_empty());
}

#[test]
fn standard_effect_unknown_name_still_pops() {
    let mut m = manager_with_device(vec![], false);
    let mut fx = EffectManager::new();
    fx.push_effect(
        razer_control::kbd::Effect::Static {
            color: razer_control::kbd::Color { r: 1, g: 1, b: 1 },
        },
        vec![true; 90],
    );
    let out = process_client_request(
        &mut m,
        &mut fx,
        DaemonCommand::SetStandardEffect { name: "rainbow".to_string(), params: vec![] },
    );
    assert!(out.packets.is_empty());
    match conclude_client_request(out.pending, &Vec::new()) {
        Some(DaemonResponse::SetStandardEffect { result }) => assert!(!result),
        other => panic!("unexpected reply {:?}", other),
    }
    assert!(fx.layers.is_empty(), "the previous custom layer is removed first");
}

#[test]
fn fan_speed_query_prefers_cached_session() {
    let mut m = manager_with_device(vec![], false);
    let mut fx = EffectManager::new();
    m.config.as_mut().unwrap().power[0].fan_rpm = 1234;
    m.config.as_mut().unwrap().power[1].fan_rpm = 5678;
    if let Some(l) = m.device.as_mut() {
        let _ = l.set_fan_rpm(4000);
    }
    // matching power source: the session's cached value
    let out = process_client_request(&mut m, &mut fx, DaemonCommand::GetFanSpeed { ac: 0 });
    match conclude_client_request(out.pending, &Vec::new()) {
        Some(DaemonResponse::GetFanSpeed { rpm }) => assert_eq!(rpm, 4000),
        other => panic!("unexpected reply {:?}", other),
    }
    // the other power source: the stored setting
    let out = process_client_request(&mut m, &mut fx, DaemonCommand::GetFanSpeed { ac: 1 });
    match conclude_client_request(out.pending, &Vec::new()) {
        Some(DaemonResponse::GetFanSpeed { rpm }) => assert_eq!(rpm, 5678),
        other => panic!("unexpected reply {:?}", other),
    }
}

#[test]
fn power_level_query_goes_to_hardware_when_bound() {
    let mut m = manager_with_device(vec![], false);
    let mut fx = EffectManager::new();
    let out = process_client_request(&mut m, &mut fx, DaemonCommand::GetPwrLevel { ac: 0 });
    assert_eq!(out.packets.len(), 1);
    assert_eq!(out.packets[0].command_id, 0x82);
    let mut hw = RazerPacket::new(0x0d, 0x82, 0x04);
    hw.args[2] = 4;
    match conclude_client_request(out.pending, &vec![Some(hw)]) {
        Some(DaemonResponse::GetPwrLevel { pwr }) => assert_eq!(pwr, 4),
        other => panic!("unexpected reply {:?}", other),
    }
    // a failed exchange reads as zero
    let out = process_client_request(&mut m, &mut fx, DaemonCommand::GetPwrLevel { ac: 0 });
    match conclude_client_request(out.pending, &vec![None]) {
        Some(DaemonResponse::GetPwrLevel { pwr }) => assert_eq!(pwr, 0),
        other => panic!("unexpected reply {:?}", other),
    }
}

#[test]
fn logo_state_query_reads_stored_settings() {
    let mut m = manager_with_device(vec![], false);
    let mut fx = EffectManager::new();
    m.config.as_mut().unwrap().power[1].logo_state = 2;
    let out = process_client_request(&mut m, &mut fx, DaemonCommand::GetLogoLedState { ac: 1 });
    match conclude_client_request(out.pending, &Vec::new()) {
        Some(DaemonResponse::GetLogoLedState { logo_state }) => assert_eq!(logo_state, 2),
        other => panic!("unexpected reply {:?}", other),
    }
}

#[test]
fn keyboard_rgb_query_reads_one_layer() {
    let mut m = manager_with_device(vec![], false);
    let mut fx = EffectManager::new();
    fx.push_effect(
        razer_control::kbd::Effect::Static {
            color: razer_control::kbd::Color { r: 7, g: 7, b: 7 },
        },
        vec![true; 90],
    );
    let out = process_client_request(&mut m, &mut fx, DaemonCommand::GetKeyboardRGB { layer: 0 });
    match conclude_client_request(out.pending, &Vec::new()) {
        Some(DaemonResponse::GetKeyboardRGB { layer, rgbdata }) => {
            assert_eq!(layer, 0);
            assert_eq!(rgbdata.len(), 270);
            assert_eq!(&rgbdata[0..3], &[7, 7, 7]);
        },
        other => panic!("unexpected reply {:?}", other),
    }
}

#[test]
fn light_off_and_restore_replay_stored_lighting() {
    let mut m = manager_with_device(vec![], false);
    {
        let c = m.config.as_mut().unwrap();
        c.power[0].brightness = 99;
        c.power[0].logo_state = 1;
    }
    let off = m.light_off();
    assert_eq!(off.len(), 2);
    assert_eq!(off[0].command_id, 0x03);
    assert_eq!(off[0].args[2], 0);
    assert!(m.device.as_ref().unwrap().screensaver);
    let back = m.restore_light();
    assert_eq!(back.len(), 3, "brightness plus the two logo packets");
    assert_eq!(back[0].args[2], 99);
    assert_eq!(back[2].args[2], 1);
    assert!(!m.device.as_ref().unwrap().screensaver);
}

#[test]
fn ac_state_change_replays_the_slot() {
    let mut m = manager_with_device(vec![], false);
    {
        let c = m.config.as_mut().unwrap();
        c.power[1].brightness = 44;
        c.power[1].power_mode = 1;
    }
    let pkts = m.set_ac_state(true);
    assert!(m.change_idle);
    let l = m.device.as_ref().unwrap();
    assert_eq!(l.ac_state, 1);
    assert_eq!(l.power, 1);
    // brightness, logo, two power-zone packets, and the fan replay
    assert_eq!(pkts[0].args[2], 44);
    assert!(pkts.len() >= 7);
}

#[test]
fn standard_effect_restored_from_settings() {
    let mut m = manager_with_device(vec![], false);
    {
        let c = m.config.as_mut().unwrap();
        c.standard_effect = 0x04;
        c.standard_effect_params = vec![];
    }
    let p = m.restore_standard_effect().expect("device and settings present");
    assert_eq!(p.command_id, 0x0a);
    assert_eq!(p.args[0], 0x04);
}

#[test]
fn idle_timeout_scales_minutes() {
    let mut m = manager_with_device(vec![], false);
    m.config.as_mut().unwrap().power[0].idle = 5;
    assert_eq!(m.idle_timeout_ms(), 5 * 60 * 1000);
}

#[test]
fn standard_effect_parameters_must_fit_the_packet() {
    let mut m = manager_with_device(vec![], false);
    let mut fx = EffectManager::new();
    // 79 parameter bytes fill the argument buffer exactly behind the id
    let out = process_client_request(
        &mut m,
        &mut fx,
        DaemonCommand::SetStandardEffect { name: "static".to_string(), params: vec![7; 79] },
    );
    assert_eq!(out.packets.len(), 1);
    assert_eq!(out.packets[0].args[79], 7);
    // one more byte cannot fit and is rejected before any exchange
    let out = process_client_request(
        &mut m,
        &mut fx,
        DaemonCommand::SetStandardEffect { name: "static".to_string(), params: vec![7; 80] },
    );
    assert!(out.packets.is_empty());
    match conclude_client_request(out.pending, &Vec::new()) {
        Some(DaemonResponse::SetStandardEffect { result }) => assert!(!result),
        other => panic!("unexpected reply {:?}", other),
    }
}
