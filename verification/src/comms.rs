//! The local control protocol's vocabulary: what a client may ask the daemon
//! and what the daemon answers.
//!
//! One request travels as one serialized command value over a local socket
//! and is answered by exactly one serialized response value. The byte
//! framing lives in the unverified shell; this module owns the typed values
//! the daemon's dispatcher works on.

use vstd::prelude::*;

verus! {

/// A request a client sends to the daemon. `ac` selects the power source
/// the setting belongs to: 0 battery, 1 mains.
#[derive(Debug)]
pub enum DaemonCommand {
    SetFanSpeed { ac: usize, rpm: i32 },
    GetFanSpeed { ac: usize },
    SetPowerMode { ac: usize, pwr: u8, cpu: u8, gpu: u8 },
    GetPwrLevel { ac: usize },
    GetCPUBoost { ac: usize },
    GetGPUBoost { ac: usize },
    SetLogoLedState { ac: usize, logo_state: u8 },
    GetLogoLedState { ac: usize },
    GetKeyboardRGB { layer: i32 },
    SetEffect { name: String, params: Vec<u8> },
    SetStandardEffect { name: String, params: Vec<u8> },
    SetBrightness { ac: usize, val: u8 },
    SetIdle { ac: usize, val: u32 },
    GetBrightness { ac: usize },
    SetSync { sync: bool },
    GetSync(),
    SetBatteryHealthOptimizer { is_on: bool, threshold: u8 },
    GetBatteryHealthOptimizer(),
    GetDeviceName,
}

/// The daemon's answer to one command.
#[derive(Debug)]
pub enum DaemonResponse {
    SetFanSpeed { result: bool },
    GetFanSpeed { rpm: i32 },
    SetPowerMode { result: bool },
    GetPwrLevel { pwr: u8 },
    GetCPUBoost { cpu: u8 },
    GetGPUBoost { gpu: u8 },
    SetLogoLedState { result: bool },
    GetLogoLedState { logo_state: u8 },
    GetKeyboardRGB { layer: i32, rgbdata: Vec<u8> },
    SetEffect { result: bool },
    SetStandardEffect { result: bool },
    SetBrightness { result: bool },
    SetIdle { result: bool },
    GetBrightness { result: u8 },
    SetSync { result: bool },
    GetSync { sync: bool },
    SetBatteryHealthOptimizer { result: bool },
    GetBatteryHealthOptimizer { is_on: bool, threshold: u8 },
    GetDeviceName { name: String },
}

} // verus!
