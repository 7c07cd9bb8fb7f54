//! Per-power-source settings the daemon keeps and replays to the device.
//!
//! A configuration holds one [`PowerConfig`] per power source (index 0:
//! battery, index 1: mains), a flag that keeps the two in sync, and the last
//! standard effect requested. Reading and writing the settings file is the
//! unverified shell's job; it hands the parsed values in here.

use vstd::prelude::*;

verus! {

/// Settings tied to one power source.
#[derive(Clone, Copy, PartialEq, Eq, Structural, Debug)]
pub struct PowerConfig {
    pub power_mode: u8,
    pub cpu_boost: u8,
    pub gpu_boost: u8,
    pub fan_rpm: i32,
    pub brightness: u8,
    pub logo_state: u8,
    pub screensaver: bool,
    pub idle: u32,
}

impl PowerConfig {
    /// Defaults for a power source nothing has been stored for: balanced
    /// power, medium CPU boost, automatic fan, half brightness, logo off.
    pub fn new() -> (r: PowerConfig)
        ensures
            r == (PowerConfig {
                power_mode: 0u8,
                cpu_boost: 1u8,
                gpu_boost: 0u8,
                fan_rpm: 0i32,
                brightness: 128u8,
                logo_state: 0u8,
                screensaver: false,
                idle: 0u32,
            }),
    {
        PowerConfig {
            power_mode: 0,
            cpu_boost: 1,
            gpu_boost: 0,
            fan_rpm: 0,
            brightness: 128,
            logo_state: 0,
            screensaver: false,
            idle: 0,
        }
    }
}

/// Everything the daemon persists between runs, except the effect stack,
/// which has its own save file.
pub struct Configuration {
    /// One entry per power source; always exactly two.
    pub power: Vec<PowerConfig>,
    /// Mirror every lighting setting between battery and mains.
    pub sync: bool,
    /// Identifier of the last standard (firmware) effect requested.
    pub standard_effect: u8,
    /// Raw parameter bytes of that effect.
    pub standard_effect_params: Vec<u8>,
}

impl Configuration {
    /// There is one settings slot per power source.
    pub open spec fn wf(self) -> bool {
        self.power@.len() == 2
    }

    /// A configuration nothing has been stored for.
    pub fn new() -> (r: Configuration)
        ensures
            r.wf(),
            r.power@ == seq![PowerConfig::new_spec(), PowerConfig::new_spec()],
            r.sync == false,
            r.standard_effect == 0,
            r.standard_effect_params@ == Seq::<u8>::empty(),
    {
        let mut power: Vec<PowerConfig> = Vec::new();
        power.push(PowerConfig::new());
        power.push(PowerConfig::new());
        proof {
            assert(power@ =~= seq![PowerConfig::new_spec(), PowerConfig::new_spec()]);
        }
        Configuration { power, sync: false, standard_effect: 0, standard_effect_params: Vec::new() }
    }
}

impl PowerConfig {
    /// The value [`PowerConfig::new`] returns.
    pub open spec fn new_spec() -> PowerConfig {
        PowerConfig {
            power_mode: 0u8,
            cpu_boost: 1u8,
            gpu_boost: 0u8,
            fan_rpm: 0i32,
            brightness: 128u8,
            logo_state: 0u8,
            screensaver: false,
            idle: 0u32,
        }
    }
}

} // verus!
