//! Effect model, compositor, save format, and command-line validation.

use razer_control::cli::{
    validate_and_write_bho, write_bho, write_pwr_mode, BhoArgError, OnOff, PowerArgError,
    cpu_boost_name, gpu_boost_name, logo_state_name, power_mode_name,
};
use razer_control::comms::DaemonCommand;
use razer_control::kbd::{
    Color, Effect, EffectManager, ANIMATION_SLEEP_MS, SAVE_BREATH_SINGLE, SAVE_STATIC,
    SAVE_STATIC_GRADIENT, SAVE_WAVE_GRADIENT,
};

fn mask_range(from: usize, to: usize) -> Vec<bool> {
    (0..90).map(|i| i >= from && i < to).collect()
}

fn full_mask() -> Vec<bool> {
    vec![true; 90]
}

#[test]
fn effect_constructors_check_parameter_counts() {
    assert!(Effect::new_static(&vec![0, 255]).is_none());
    assert_eq!(
        Effect::new_static(&vec![0, 255, 0]),
        Some(Effect::Static { color: Color { r: 0, g: 255, b: 0 } })
    );
    assert!(Effect::new_static_gradient(&vec![1, 2, 3, 4, 5]).is_none());
    assert_eq!(
        Effect::new_static_gradient(&vec![1, 2, 3, 4, 5, 6]),
        Some(Effect::StaticGradient {
            start: Color { r: 1, g: 2, b: 3 },
            end: Color { r: 4, g: 5, b: 6 },
        })
    );
    assert!(Effect::new_breath_single(&vec![9, 9, 9]).is_none());
    assert_eq!(
        Effect::new_breath_single(&vec![9, 8, 7, 20]),
        Some(Effect::BreathSingle { color: Color { r: 9, g: 8, b: 7 }, duration: 20 })
    );
}

#[test]
fn effect_names_match_protocol() {
    assert!(Effect::from_name(&"static".to_string(), &vec![1, 2, 3]).is_some());
    assert!(Effect::from_name(&"static_gradient".to_string(), &vec![1, 2, 3, 4, 5, 6]).is_some());
    assert!(Effect::from_name(&"wave_gradient".to_string(), &vec![1, 2, 3, 4, 5, 6]).is_some());
    assert!(Effect::from_name(&"breathing_single".to_string(), &vec![1, 2, 3, 4]).is_some());
    assert!(Effect::from_name(&"sparkle".to_string(), &vec![1, 2, 3]).is_none());
}

#[test]
fn static_effect_ignores_tick_and_position() {
    let e = Effect::Static { color: Color { r: 10, g: 20, b: 30 } };
    assert_eq!(e.render(0, 0), Color { r: 10, g: 20, b: 30 });
    assert_eq!(e.render(12345, 89), Color { r: 10, g: 20, b: 30 });
}

#[test]
fn gradient_hits_both_endpoints() {
    let e = Effect::StaticGradient {
        start: Color { r: 0, g: 100, b: 200 },
        end: Color { r: 140, g: 240, b: 60 },
    };
    // column 0 shows the start color, column 14 the end color, on any row
    assert_eq!(e.render(0, 0), Color { r: 0, g: 100, b: 200 });
    assert_eq!(e.render(0, 14), Color { r: 140, g: 240, b: 60 });
    assert_eq!(e.render(0, 15), Color { r: 0, g: 100, b: 200 });
    assert_eq!(e.render(0, 89), Color { r: 140, g: 240, b: 60 });
    // halfway across: the midpoint, by integer division
    assert_eq!(e.render(7, 7), Color { r: 70, g: 170, b: 130 });
}

#[test]
fn wave_gradient_slides_with_ticks() {
    let e = Effect::WaveGradient {
        start: Color { r: 0, g: 0, b: 0 },
        end: Color { r: 140, g: 140, b: 140 },
    };
    // after one tick, column 13 shows what column 14 showed at tick zero
    assert_eq!(e.render(1, 13), e.render(0, 14));
    // and the pattern is periodic in fifteen ticks
    assert_eq!(e.render(15, 4), e.render(0, 4));
}

#[test]
fn breathing_is_periodic_and_dark_at_phase_zero() {
    let c = Color { r: 200, g: 100, b: 50 };
    let e = Effect::BreathSingle { color: c, duration: 33 };
    // period 3300 ms = 100 ticks of 33 ms
    let period_ticks = (33u64 * 100) / ANIMATION_SLEEP_MS;
    assert_eq!(e.render(0, 0), Color { r: 0, g: 0, b: 0 });
    assert_eq!(e.render(period_ticks, 5), e.render(0, 5));
    assert_eq!(e.render(period_ticks + 7, 5), e.render(7, 5));
    // mid-period is bright
    let mid = e.render(period_ticks / 2, 0);
    assert!(mid.r > 190);
    // a zero duration renders the full color
    let z = Effect::BreathSingle { color: c, duration: 0 };
    assert_eq!(z.render(42, 42), c);
}

#[test]
fn compositing_topmost_layer_wins() {
    let mut fx = EffectManager::new();
    let a = Color { r: 1, g: 2, b: 3 };
    let b = Color { r: 9, g: 8, b: 7 };
    fx.push_effect(Effect::Static { color: a }, mask_range(0, 45));
    fx.push_effect(Effect::Static { color: b }, mask_range(40, 90));
    let frame = fx.render_frame();
    assert_eq!(frame.len(), 90);
    assert_eq!(frame[42], b, "overlap goes to the layer pushed last");
    assert_eq!(frame[10], a);
    assert_eq!(frame[89], b);
}

#[test]
fn compositing_uncovered_keys_stay_dark() {
    let mut fx = EffectManager::new();
    fx.push_effect(Effect::Static { color: Color { r: 5, g: 5, b: 5 } }, mask_range(10, 20));
    let frame = fx.render_frame();
    assert_eq!(frame[0], Color { r: 0, g: 0, b: 0 });
    assert_eq!(frame[15], Color { r: 5, g: 5, b: 5 });
    assert_eq!(frame[25], Color { r: 0, g: 0, b: 0 });
}

#[test]
fn update_plans_six_rows_and_a_commit() {
    let mut fx = EffectManager::new();
    fx.push_effect(Effect::Static { color: Color { r: 17, g: 34, b: 51 } }, full_mask());
    let pkts = fx.update();
    assert_eq!(pkts.len(), 7);
    for (row, p) in pkts[..6].iter().enumerate() {
        assert_eq!(p.command_class, 0x03);
        assert_eq!(p.command_id, 0x0b);
        assert_eq!(p.args[0], 0xff);
        assert_eq!(p.args[1], row as u8);
        assert_eq!(p.args[3], 0x0f);
        // 15 keys of three bytes each, starting at argument byte 7
        assert_eq!(&p.args[7..10], &[17, 34, 51]);
        assert_eq!(&p.args[49..52], &[17, 34, 51]);
    }
    let commit = &pkts[6];
    assert_eq!(commit.command_id, 0x0a);
    assert_eq!(commit.args[0], 0x05);
    assert_eq!(commit.args[1], 0x00);
    // the tick advanced
    assert_eq!(fx.ticks, 1);
}

#[test]
fn get_map_reads_one_layer() {
    let mut fx = EffectManager::new();
    fx.push_effect(Effect::Static { color: Color { r: 3, g: 6, b: 9 } }, mask_range(0, 1));
    let map = fx.get_map(0);
    assert_eq!(map.len(), 270);
    assert_eq!(&map[0..3], &[3, 6, 9]);
    assert_eq!(&map[3..6], &[0, 0, 0]);
    assert!(fx.get_map(1).is_empty());
    assert!(fx.get_map(-1).is_empty());
}

#[test]
fn save_restore_reproduces_the_stack() {
    let mut fx = EffectManager::new();
    fx.push_effect(Effect::Static { color: Color { r: 0, g: 255, b: 0 } }, full_mask());
    fx.push_effect(
        Effect::StaticGradient {
            start: Color { r: 1, g: 2, b: 3 },
            end: Color { r: 4, g: 5, b: 6 },
        },
        mask_range(0, 45),
    );
    fx.push_effect(
        Effect::WaveGradient {
            start: Color { r: 7, g: 8, b: 9 },
            end: Color { r: 10, g: 11, b: 12 },
        },
        mask_range(45, 90),
    );
    fx.push_effect(
        Effect::BreathSingle { color: Color { r: 13, g: 14, b: 15 }, duration: 30 },
        full_mask(),
    );
    let saved = fx.save();
    assert_eq!(saved.len(), 4);
    assert_eq!(saved[0].kind, SAVE_STATIC);
    assert_eq!(saved[1].kind, SAVE_STATIC_GRADIENT);
    assert_eq!(saved[2].kind, SAVE_WAVE_GRADIENT);
    assert_eq!(saved[3].kind, SAVE_BREATH_SINGLE);
    let mut restored = EffectManager::new();
    restored.load_from_save(saved);
    assert_eq!(restored.layers.len(), fx.layers.len());
    for (got, want) in restored.layers.iter().zip(fx.layers.iter()) {
        assert_eq!(got.effect, want.effect);
        assert_eq!(got.mask, want.mask);
    }
}

#[test]
fn damaged_save_records_are_dropped() {
    let mut fx = EffectManager::new();
    fx.push_effect(Effect::Static { color: Color { r: 1, g: 1, b: 1 } }, full_mask());
    let mut saved = fx.save();
    saved[0].mask.pop();
    let mut restored = EffectManager::new();
    restored.load_from_save(saved);
    assert!(restored.layers.is_empty());
}

#[test]
fn pop_effect_removes_the_top_layer() {
    let mut fx = EffectManager::new();
    assert!(fx.pop_effect().is_none());
    fx.push_effect(Effect::Static { color: Color { r: 1, g: 1, b: 1 } }, full_mask());
    fx.push_effect(Effect::Static { color: Color { r: 2, g: 2, b: 2 } }, full_mask());
    let top = fx.pop_effect().expect("two layers pushed");
    assert_eq!(top.effect, Effect::Static { color: Color { r: 2, g: 2, b: 2 } });
    assert_eq!(fx.layers.len(), 1);
}

#[test]
fn onoff_switch() {
    assert!(OnOff::On.is_on());
    assert!(!OnOff::Off.is_on());
}

#[test]
fn write_bho_builds_commands() {
    assert!(matches!(
        write_bho(false, 0),
        Some(DaemonCommand::SetBatteryHealthOptimizer { is_on: false, threshold: 80 })
    ));
    assert!(matches!(
        write_bho(true, 75),
        Some(DaemonCommand::SetBatteryHealthOptimizer { is_on: true, threshold: 75 })
    ));
    assert!(write_bho(true, 52).is_none());
    assert!(write_bho(true, 85).is_none());
}

#[test]
fn validate_and_write_bho_checks_arguments() {
    assert!(matches!(
        validate_and_write_bho(Some(60), OnOff::On),
        Ok(DaemonCommand::SetBatteryHealthOptimizer { is_on: true, threshold: 60 })
    ));
    assert!(matches!(
        validate_and_write_bho(Some(61), OnOff::On),
        Err(BhoArgError::InvalidThreshold)
    ));
    assert!(matches!(
        validate_and_write_bho(None, OnOff::On),
        Err(BhoArgError::MissingThreshold)
    ));
    assert!(matches!(
        validate_and_write_bho(None, OnOff::Off),
        Ok(DaemonCommand::SetBatteryHealthOptimizer { is_on: false, threshold: 80 })
    ));
}

#[test]
fn write_pwr_mode_checks_arguments() {
    assert!(matches!(
        write_pwr_mode(1, 5, None, None),
        Err(PowerArgError::InvalidPowerMode)
    ));
    assert!(matches!(
        write_pwr_mode(1, 4, None, Some(1)),
        Err(PowerArgError::MissingCpuMode)
    ));
    assert!(matches!(
        write_pwr_mode(1, 4, Some(2), None),
        Err(PowerArgError::MissingGpuMode)
    ));
    assert!(matches!(
        write_pwr_mode(1, 4, Some(4), Some(1)),
        Err(PowerArgError::InvalidCpuMode)
    ));
    assert!(matches!(
        write_pwr_mode(1, 4, Some(2), Some(3)),
        Err(PowerArgError::InvalidGpuMode)
    ));
    assert!(matches!(
        write_pwr_mode(1, 2, None, None),
        Ok(DaemonCommand::SetPowerMode { ac: 1, pwr: 2, cpu: 0, gpu: 0 })
    ));
    assert!(matches!(
        write_pwr_mode(0, 4, Some(3), Some(2)),
        Ok(DaemonCommand::SetPowerMode { ac: 0, pwr: 4, cpu: 3, gpu: 2 })
    ));
}

#[test]
fn display_names() {
    assert_eq!(power_mode_name(0), "Balanced");
    assert_eq!(power_mode_name(4), "Custom");
    assert_eq!(power_mode_name(9), "Unknown");
    assert_eq!(cpu_boost_name(3), "Boost");
    assert_eq!(gpu_boost_name(2), "High");
    assert_eq!(logo_state_name(2), "Breathing");
}

#[test]
fn tick_counter_wraps_at_the_top() {
    let mut fx = EffectManager::new();
    fx.push_effect(Effect::Static { color: Color { r: 1, g: 1, b: 1 } }, full_mask());
    fx.ticks = u64::MAX;
    let pkts = fx.update();
    assert_eq!(pkts.len(), 7);
    assert_eq!(fx.ticks, 0);
}
