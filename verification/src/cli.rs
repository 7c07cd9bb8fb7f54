//! The command-line front end's decisions: argument validation and the
//! command each invocation sends, plus the wording of what comes back.
//!
//! Parsing argv and talking to the socket stay in the unverified shell;
//! everything here maps already-parsed values to a [`DaemonCommand`] or to a
//! rejection, and device values to their display names.

use vstd::prelude::*;
use crate::comms::DaemonCommand;
use crate::device::valid_bho_threshold;

verus! {

/// An on/off switch argument.
#[derive(Clone, Copy, PartialEq, Eq, Structural, Debug)]
pub enum OnOff {
    On,
    Off,
}

impl OnOff {
    pub fn is_on(&self) -> (r: bool)
        ensures
            r == (*self is On),
    {
        matches!(self, Self::On)
    }
}

/// Why a battery-health invocation was rejected.
#[derive(Clone, Copy, PartialEq, Eq, Structural, Debug)]
pub enum BhoArgError {
    /// The threshold is not a multiple of five between 50 and 80.
    InvalidThreshold,
    /// Turning the optimizer on without giving a threshold.
    MissingThreshold,
}

/// The command a battery-health write sends: turning the optimizer off
/// always targets the threshold 80; turning it on demands a threshold that
/// passes [`valid_bho_threshold`], and an invalid one sends nothing.
pub fn write_bho(on: bool, threshold: u8) -> (r: Option<DaemonCommand>)
    ensures
        !on ==> (r matches Some(c) && c == (DaemonCommand::SetBatteryHealthOptimizer {
            is_on: false,
            threshold: 80u8,
        })),
        on && (threshold % 5 == 0 && 50 <= threshold <= 80) ==> (r matches Some(c) && c == (
        DaemonCommand::SetBatteryHealthOptimizer { is_on: true, threshold })),
        on && !(threshold % 5 == 0 && 50 <= threshold <= 80) ==> r is None,
{
    if !on {
        return Some(DaemonCommand::SetBatteryHealthOptimizer { is_on: false, threshold: 80 });
    }
    if !valid_bho_threshold(threshold) {
        return None;
    }
    Some(DaemonCommand::SetBatteryHealthOptimizer { is_on: true, threshold })
}

/// Validate a battery-health invocation as the command line takes it: an
/// explicit threshold must pass [`valid_bho_threshold`]; omitting it is
/// allowed only when turning the optimizer off, which targets threshold 80.
pub fn validate_and_write_bho(threshold: Option<u8>, state: OnOff) -> (r: Result<
    DaemonCommand,
    BhoArgError,
>)
    ensures
        match threshold {
            Some(t) => {
                if t % 5 == 0 && 50 <= t <= 80 {
                    r matches Ok(c) && c == (DaemonCommand::SetBatteryHealthOptimizer {
                        is_on: state is On,
                        threshold: t,
                    })
                } else {
                    r matches Err(e) && e == BhoArgError::InvalidThreshold
                }
            },
            None => {
                if state is On {
                    r matches Err(e) && e == BhoArgError::MissingThreshold
                } else {
                    r matches Ok(c) && c == (DaemonCommand::SetBatteryHealthOptimizer {
                        is_on: false,
                        threshold: 80u8,
                    })
                }
            },
        },
{
    match threshold {
        Some(t) => {
            if !valid_bho_threshold(t) {
                return Err(BhoArgError::InvalidThreshold);
            }
            Ok(DaemonCommand::SetBatteryHealthOptimizer { is_on: state.is_on(), threshold: t })
        },
        None => {
            if state.is_on() {
                return Err(BhoArgError::MissingThreshold);
            }
            Ok(DaemonCommand::SetBatteryHealthOptimizer { is_on: false, threshold: 80 })
        },
    }
}

/// Why a power-mode invocation was rejected.
#[derive(Clone, Copy, PartialEq, Eq, Structural, Debug)]
pub enum PowerArgError {
    /// Power modes run from 0 to 4.
    InvalidPowerMode,
    /// CPU boost runs from 0 to 3.
    InvalidCpuMode,
    /// GPU boost runs from 0 to 2.
    InvalidGpuMode,
    /// The custom power mode demands an explicit CPU boost.
    MissingCpuMode,
    /// The custom power mode demands an explicit GPU boost.
    MissingGpuMode,
}

/// The boost levels a power-mode invocation transmits: outside the custom
/// mode an omitted level counts as zero; the custom mode demands both.
pub open spec fn spec_boost_or_default(pwr: u8, given: Option<u8>) -> Option<u8> {
    if pwr == 4 {
        given
    } else {
        match given {
            Some(v) => Some(v),
            None => Some(0u8),
        }
    }
}

/// Validate a power-mode invocation as the command line takes it, and build
/// the command it sends: the mode must be 0 to 4; CPU boost (0 to 3) and GPU
/// boost (0 to 2) default to zero except in the custom mode 4, which demands
/// both explicitly.
pub fn write_pwr_mode(ac: usize, pwr_mode: u8, cpu_mode: Option<u8>, gpu_mode: Option<u8>) -> (r:
    Result<DaemonCommand, PowerArgError>)
    ensures
        pwr_mode > 4 ==> (r matches Err(e) && e == PowerArgError::InvalidPowerMode),
        pwr_mode <= 4 ==> match (spec_boost_or_default(pwr_mode, cpu_mode), spec_boost_or_default(
            pwr_mode,
            gpu_mode,
        )) {
            (None, _) => r matches Err(e) && e == PowerArgError::MissingCpuMode,
            (Some(c), _) if c > 3 => r matches Err(e) && e == PowerArgError::InvalidCpuMode,
            (Some(c), None) => r matches Err(e) && e == PowerArgError::MissingGpuMode,
            (Some(c), Some(g)) if g > 2 => r matches Err(e) && e == PowerArgError::InvalidGpuMode,
            (Some(c), Some(g)) => r matches Ok(cmd) && cmd == (DaemonCommand::SetPowerMode {
                ac,
                pwr: pwr_mode,
                cpu: c,
                gpu: g,
            }),
        },
{
    if pwr_mode > 4 {
        return Err(PowerArgError::InvalidPowerMode);
    }
    let cm: u8 = if pwr_mode == 4 {
        match cpu_mode {
            Some(v) => v,
            None => {
                return Err(PowerArgError::MissingCpuMode);
            },
        }
    } else {
        match cpu_mode {
            Some(v) => v,
            None => 0,
        }
    };
    if cm > 3 {
        return Err(PowerArgError::InvalidCpuMode);
    }
    let gm: u8 = if pwr_mode == 4 {
        match gpu_mode {
            Some(v) => v,
            None => {
                return Err(PowerArgError::MissingGpuMode);
            },
        }
    } else {
        match gpu_mode {
            Some(v) => v,
            None => 0,
        }
    };
    if gm > 2 {
        return Err(PowerArgError::InvalidGpuMode);
    }
    Ok(DaemonCommand::SetPowerMode { ac, pwr: pwr_mode, cpu: cm, gpu: gm })
}

/// Display name of a power mode.
pub fn power_mode_name(pwr: u8) -> (r: &'static str)
    ensures
        pwr == 0 ==> r@ == "Balanced"@,
        pwr == 1 ==> r@ == "Gaming"@,
        pwr == 2 ==> r@ == "Creator"@,
        pwr == 3 ==> r@ == "Silent"@,
        pwr == 4 ==> r@ == "Custom"@,
        pwr > 4 ==> r@ == "Unknown"@,
{
    match pwr {
        0 => "Balanced",
        1 => "Gaming",
        2 => "Creator",
        3 => "Silent",
        4 => "Custom",
        _ => "Unknown",
    }
}

/// Display name of a CPU boost level.
pub fn cpu_boost_name(cpu: u8) -> (r: &'static str)
    ensures
        cpu == 0 ==> r@ == "Low"@,
        cpu == 1 ==> r@ == "Medium"@,
        cpu == 2 ==> r@ == "High"@,
        cpu == 3 ==> r@ == "Boost"@,
        cpu > 3 ==> r@ == "Unknown"@,
{
    match cpu {
        0 => "Low",
        1 => "Medium",
        2 => "High",
        3 => "Boost",
        _ => "Unknown",
    }
}

/// Display name of a GPU boost level.
pub fn gpu_boost_name(gpu: u8) -> (r: &'static str)
    ensures
        gpu == 0 ==> r@ == "Low"@,
        gpu == 1 ==> r@ == "Medium"@,
        gpu == 2 ==> r@ == "High"@,
        gpu > 2 ==> r@ == "Unknown"@,
{
    match gpu {
        0 => "Low",
        1 => "Medium",
        2 => "High",
        _ => "Unknown",
    }
}

/// Display name of a logo LED mode.
pub fn logo_state_name(logo_state: u8) -> (r: &'static str)
    ensures
        logo_state == 0 ==> r@ == "Off"@,
        logo_state == 1 ==> r@ == "On"@,
        logo_state == 2 ==> r@ == "Breathing"@,
        logo_state > 2 ==> r@ == "Unknown"@,
{
    match logo_state {
        0 => "Off",
        1 => "On",
        2 => "Breathing",
        _ => "Unknown",
    }
}

} // verus!
