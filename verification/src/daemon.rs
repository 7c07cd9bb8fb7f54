//! The daemon's dispatcher: one client command in, the device packets to
//! exchange and the reply to send back out.
//!
//! The shell serves a request in three steps: it hands the decoded command
//! to [`process_client_request`], which updates the session and settings and
//! returns the packets the device is owed; it pushes each packet through one
//! transport exchange; and it hands what came back to
//! [`conclude_client_request`], which forms the reply. Replies that depend
//! on no exchange are ready immediately.

use vstd::prelude::*;
use vstd::pervasive::VecAdditionalExecFns;
use crate::comms::{DaemonCommand, DaemonResponse};
use crate::config::{Configuration, PowerConfig};
use crate::device::{
    RazerLaptop,
    SupportedDevice,
    EFFECT_BREATHING,
    EFFECT_OFF,
    EFFECT_REACTIVE,
    EFFECT_SPECTRUM,
    EFFECT_STARLIGHT,
    EFFECT_STATIC,
    EFFECT_WAVE,
    byte_to_bho,
    get_bho_packet,
    get_boost_packet,
    get_brightness_packet,
    get_power_packet,
    set_bho_packet,
    rpm_to_u16,
    spec_fan_rpm_packets,
    spec_fan_rpm_state,
    spec_low16,
    spec_logo_packets,
    spec_power_mode_packets,
    spec_power_mode_state,
    standard_effect_packet,
    brightness_packet,
};
use crate::kbd::{
    Effect,
    EffectManager,
    EffectManagerModel,
    LayerModel,
    TOTAL_KEYS,
    spec_effect_from_name,
    spec_layer_map,
};
use crate::packet::{models, PacketModel, RazerPacket};

verus! {

/// The daemon's mutable state apart from the effect stack: the bound laptop
/// session, the supported-device catalog, the loaded settings, and the
/// bookkeeping of the idle watches the shell has registered.
pub struct DeviceManager {
    pub device: Option<RazerLaptop>,
    pub supported_devices: Vec<SupportedDevice>,
    pub config: Option<Configuration>,
    pub idle_id: u32,
    pub active_id: u32,
    pub add_active: bool,
    pub change_idle: bool,
}

impl DeviceManager {
    pub open spec fn wf(self) -> bool {
        &&& (self.device matches Some(l) ==> l.wf())
        &&& (self.config matches Some(c) ==> c.wf())
    }

    /// A manager with nothing bound and nothing loaded.
    pub fn new() -> (r: DeviceManager)
        ensures
            r.device is None,
            r.supported_devices@ == Seq::<SupportedDevice>::empty(),
            r.config is None,
            r.idle_id == 0,
            r.active_id == 0,
            r.add_active == false,
            r.change_idle == false,
            r.wf(),
    {
        let r = DeviceManager {
            device: None,
            supported_devices: Vec::new(),
            config: None,
            idle_id: 0,
            active_id: 0,
            add_active: false,
            change_idle: false,
        };
        proof {
            assert(r.supported_devices@ =~= Seq::<SupportedDevice>::empty());
        }
        r
    }

    /// A manager loaded with the packaged catalog and the stored settings,
    /// before any device is bound.
    pub fn from_catalog(supported_devices: Vec<SupportedDevice>, config: Configuration) -> (r:
        DeviceManager)
        requires
            config.wf(),
        ensures
            r.device is None,
            r.supported_devices == supported_devices,
            r.config == Some(config),
            r.idle_id == 0,
            r.active_id == 0,
            r.add_active == false,
            r.change_idle == false,
            r.wf(),
    {
        DeviceManager {
            device: None,
            supported_devices,
            config: Some(config),
            idle_id: 0,
            active_id: 0,
            add_active: false,
            change_idle: false,
        }
    }
}

/// Copy a byte vector.
fn copy_bytes(v: &Vec<u8>) -> (r: Vec<u8>)
    ensures
        r@ == v@,
{
    let mut r: Vec<u8> = Vec::new();
    let mut i: usize = 0;
    while i < v.len()
        invariant
            i <= v@.len(),
            r@ =~= v@.subrange(0, i as int),
        decreases v@.len() - i,
    {
        r.push(v[i]);
        i = i + 1;
    }
    proof {
        assert(r@ =~= v@);
    }
    r
}

/// The settings slots of two configurations agree except that slot `ac` of
/// the second holds `pc`; every other stored setting agrees too.
pub open spec fn config_slot_set(c0: Configuration, c1: Configuration, ac: int, pc: PowerConfig) -> bool {
    &&& c1.power@ == c0.power@.update(ac, pc)
    &&& c1.sync == c0.sync
    &&& c1.standard_effect == c0.standard_effect
    &&& c1.standard_effect_params@ == c0.standard_effect_params@
}

/// The observable settings of two configurations agree.
pub open spec fn config_eq(c0: Configuration, c1: Configuration) -> bool {
    &&& c1.power@ == c0.power@
    &&& c1.sync == c0.sync
    &&& c1.standard_effect == c0.standard_effect
    &&& c1.standard_effect_params@ == c0.standard_effect_params@
}

/// The catalog and watch bookkeeping of two managers agree.
pub open spec fn same_catalog(m0: DeviceManager, m1: DeviceManager) -> bool {
    &&& m1.supported_devices == m0.supported_devices
    &&& m1.idle_id == m0.idle_id
    &&& m1.active_id == m0.active_id
    &&& m1.add_active == m0.add_active
}

/// The settings slot of one power source with the sync flag honored: when
/// the configurations are kept in sync, the lighting-related fields of the
/// other slot follow the written one.
pub open spec fn config_logo_set(c0: Configuration, c1: Configuration, ac: int, logo_state: u8) -> bool {
    let first = c0.power@.update(ac, PowerConfig { logo_state, ..c0.power@[ac] });
    &&& c1.power@ == (if c0.sync {
        first.update(1 - ac, PowerConfig { logo_state, ..first[1 - ac] })
    } else {
        first
    })
    &&& c1.sync == c0.sync
    &&& c1.standard_effect == c0.standard_effect
    &&& c1.standard_effect_params@ == c0.standard_effect_params@
}

/// Brightness stored for one power source, mirrored to the other when the
/// sync flag is set.
pub open spec fn config_brightness_set(c0: Configuration, c1: Configuration, ac: int, unit: u8) -> bool {
    let first = c0.power@.update(ac, PowerConfig { brightness: unit, ..c0.power@[ac] });
    &&& c1.power@ == (if c0.sync {
        first.update(1 - ac, PowerConfig { brightness: unit, ..first[1 - ac] })
    } else {
        first
    })
    &&& c1.sync == c0.sync
    &&& c1.standard_effect == c0.standard_effect
    &&& c1.standard_effect_params@ == c0.standard_effect_params@
}

/// Idle timeout stored for one power source, mirrored when synced; nothing
/// changes when the stored timeout already matches.
pub open spec fn config_idle_set(c0: Configuration, c1: Configuration, ac: int, val: u32) -> bool {
    if c0.power@[ac].idle == val {
        config_eq(c0, c1)
    } else {
        let first = c0.power@.update(ac, PowerConfig { idle: val, ..c0.power@[ac] });
        &&& c1.power@ == (if c0.sync {
            first.update(1 - ac, PowerConfig { idle: val, ..first[1 - ac] })
        } else {
            first
        })
        &&& c1.sync == c0.sync
        &&& c1.standard_effect == c0.standard_effect
        &&& c1.standard_effect_params@ == c0.standard_effect_params@
    }
}

/// The sync flag stored, and the lighting settings of the active power
/// source copied to the other slot.
pub open spec fn config_sync_set(c0: Configuration, c1: Configuration, ac: int, sync: bool) -> bool {
    let src = c0.power@[ac];
    let other = (ac + 1) % 2;
    &&& c1.power@ == c0.power@.update(
        other,
        PowerConfig {
            brightness: src.brightness,
            logo_state: src.logo_state,
            screensaver: src.screensaver,
            idle: src.idle,
            ..c0.power@[other]
        },
    )
    &&& c1.sync == sync
    &&& c1.standard_effect == c0.standard_effect
    &&& c1.standard_effect_params@ == c0.standard_effect_params@
}

/// The standard effect and its parameters stored.
pub open spec fn config_standard_effect_set(
    c0: Configuration,
    c1: Configuration,
    id: u8,
    params: Seq<u8>,
) -> bool {
    &&& c1.power@ == c0.power@
    &&& c1.sync == c0.sync
    &&& c1.standard_effect == id
    &&& c1.standard_effect_params@ == params
}

/// The configurations of two managers stand in a given relation; everything
/// else but possibly `change_idle` agrees. The relation is `true` of the
/// stored settings exactly when a settings file write is owed.
pub open spec fn config_rel(
    m0: DeviceManager,
    m1: DeviceManager,
    saved: bool,
) -> bool {
    &&& m1.device == m0.device
    &&& same_catalog(m0, m1)
    &&& saved == (m0.config is Some)
    &&& (m0.config is None <==> m1.config is None)
}

impl DeviceManager {
    /// Store a power-mode command's fields for one power source.
    fn store_power_mode(&mut self, ac: usize, pwr: u8, cpu: u8, gpu: u8) -> (saved: bool)
        requires
            old(self).wf(),
            ac < 2,
        ensures
            final(self).wf(),
            config_rel(*old(self), *final(self), saved),
            final(self).change_idle == old(self).change_idle,
            match (old(self).config, final(self).config) {
                (Some(c0), Some(c1)) => config_slot_set(
                    c0,
                    c1,
                    ac as int,
                    (PowerConfig {
                        power_mode: pwr,
                        cpu_boost: cpu,
                        gpu_boost: gpu,
                        ..c0.power@[ac as int]
                    }),
                ),
                (None, None) => true,
                _ => false,
            },
    {
        match &mut self.config {
            Some(c) => {
                let mut pc = c.power[ac];
                pc.power_mode = pwr;
                pc.cpu_boost = cpu;
                pc.gpu_boost = gpu;
                c.power.set(ac, pc);
                true
            },
            None => false,
        }
    }

    /// Store a fan command's requested speed for one power source.
    fn store_fan_rpm(&mut self, ac: usize, rpm: i32) -> (saved: bool)
        requires
            old(self).wf(),
            ac < 2,
        ensures
            final(self).wf(),
            config_rel(*old(self), *final(self), saved),
            final(self).change_idle == old(self).change_idle,
            match (old(self).config, final(self).config) {
                (Some(c0), Some(c1)) => config_slot_set(
                    c0,
                    c1,
                    ac as int,
                    (PowerConfig { fan_rpm: rpm, ..c0.power@[ac as int] }),
                ),
                (None, None) => true,
                _ => false,
            },
    {
        match &mut self.config {
            Some(c) => {
                let mut pc = c.power[ac];
                pc.fan_rpm = rpm;
                c.power.set(ac, pc);
                true
            },
            None => false,
        }
    }

    /// Store a logo command's mode, mirrored to the other power source when
    /// the settings are synced.
    fn store_logo(&mut self, ac: usize, logo_state: u8) -> (saved: bool)
        requires
            old(self).wf(),
            ac < 2,
        ensures
            final(self).wf(),
            config_rel(*old(self), *final(self), saved),
            final(self).change_idle == old(self).change_idle,
            match (old(self).config, final(self).config) {
                (Some(c0), Some(c1)) => config_logo_set(c0, c1, ac as int, logo_state),
                (None, None) => true,
                _ => false,
            },
    {
        match &mut self.config {
            Some(c) => {
                let mut pc = c.power[ac];
                pc.logo_state = logo_state;
                c.power.set(ac, pc);
                if c.sync {
                    let other: usize = (ac + 1) % 2;
                    let mut oc = c.power[other];
                    oc.logo_state = logo_state;
                    c.power.set(other, oc);
                }
                true
            },
            None => false,
        }
    }

    /// Store a brightness command's device unit, mirrored when synced.
    fn store_brightness(&mut self, ac: usize, unit: u8) -> (saved: bool)
        requires
            old(self).wf(),
            ac < 2,
        ensures
            final(self).wf(),
            config_rel(*old(self), *final(self), saved),
            final(self).change_idle == old(self).change_idle,
            match (old(self).config, final(self).config) {
                (Some(c0), Some(c1)) => config_brightness_set(c0, c1, ac as int, unit),
                (None, None) => true,
                _ => false,
            },
    {
        match &mut self.config {
            Some(c) => {
                let mut pc = c.power[ac];
                pc.brightness = unit;
                c.power.set(ac, pc);
                if c.sync {
                    let other: usize = (ac + 1) % 2;
                    let mut oc = c.power[other];
                    oc.brightness = unit;
                    c.power.set(other, oc);
                }
                true
            },
            None => false,
        }
    }

    /// Store an idle timeout, mirrored when synced; a timeout that already
    /// matches changes nothing and owes no file write, and only a real
    /// change asks the shell to re-arm its idle watch.
    pub fn change_idle(&mut self, ac: usize, timeout: u32) -> (r: (bool, bool))
        requires
            old(self).wf(),
            ac < 2,
        ensures
            final(self).wf(),
            r.0 == true,
            final(self).device == old(self).device,
            same_catalog(*old(self), *final(self)),
            match (old(self).config, final(self).config) {
                (Some(c0), Some(c1)) => {
                    &&& config_idle_set(c0, c1, ac as int, timeout)
                    &&& r.1 == (c0.power@[ac as int].idle != timeout)
                    &&& final(self).change_idle == (old(self).change_idle || c0.power@[ac
                        as int].idle != timeout)
                },
                (None, None) => r.1 == false && final(self).change_idle == old(self).change_idle,
                _ => false,
            },
    {
        let mut saved = false;
        let mut arm = false;
        match &mut self.config {
            Some(c) => {
                if c.power[ac].idle != timeout {
                    let mut pc = c.power[ac];
                    pc.idle = timeout;
                    c.power.set(ac, pc);
                    if c.sync {
                        let other: usize = (ac + 1) % 2;
                        let mut oc = c.power[other];
                        oc.idle = timeout;
                        c.power.set(other, oc);
                    }
                    saved = true;
                    arm = true;
                }
            },
            None => {},
        }
        if arm {
            self.change_idle = true;
        }
        (true, saved)
    }

    /// Store the sync flag; setting it copies the active power source's
    /// lighting settings over the other slot.
    pub fn set_sync(&mut self, sync: bool) -> (r: (bool, bool))
        requires
            old(self).wf(),
        ensures
            final(self).wf(),
            r.0 == true,
            final(self).device == old(self).device,
            same_catalog(*old(self), *final(self)),
            final(self).change_idle == old(self).change_idle,
            ({
                let ac: int = match old(self).device {
                    Some(l) => l.ac_state as int,
                    None => 0,
                };
                match (old(self).config, final(self).config) {
                    (Some(c0), Some(c1)) => config_sync_set(c0, c1, if ac < 2 {
                        ac
                    } else {
                        0
                    }, sync) && r.1 == true,
                    (None, None) => r.1 == false,
                    _ => false,
                }
            }),
    {
        let ac: usize = match &self.device {
            Some(l) => {
                let s = l.get_ac_state();
                if s < 2 {
                    s
                } else {
                    0
                }
            },
            None => 0,
        };
        match &mut self.config {
            Some(c) => {
                c.sync = sync;
                let other: usize = (ac + 1) % 2;
                let src = c.power[ac];
                let mut oc = c.power[other];
                oc.brightness = src.brightness;
                oc.logo_state = src.logo_state;
                oc.screensaver = src.screensaver;
                oc.idle = src.idle;
                c.power.set(other, oc);
                (true, true)
            },
            None => (true, false),
        }
    }

    /// Store the standard effect last requested, with its parameters.
    fn store_standard_effect(&mut self, effect_id: u8, params: &Vec<u8>) -> (saved: bool)
        requires
            old(self).wf(),
        ensures
            final(self).wf(),
            config_rel(*old(self), *final(self), saved),
            final(self).change_idle == old(self).change_idle,
            match (old(self).config, final(self).config) {
                (Some(c0), Some(c1)) => config_standard_effect_set(c0, c1, effect_id, params@),
                (None, None) => true,
                _ => false,
            },
    {
        match &mut self.config {
            Some(c) => {
                c.standard_effect = effect_id;
                c.standard_effect_params = copy_bytes(params);
                true
            },
            None => false,
        }
    }
}

/// Brightness as the client sees it: the device's 0-to-255 unit scaled to a
/// percentage, rounded to the nearest.
pub open spec fn spec_brightness_percent(val: u8) -> u8 {
    ((val as int * 10000 / 255 + 50) / 100) as u8
}

/// The device's brightness unit a requested percentage maps to, kept modulo
/// 256 as the one-byte wire field holds it.
pub open spec fn spec_brightness_unit(percent: u8) -> u8 {
    ((percent as int * 255 / 100) % 256) as u8
}

fn brightness_percent(val: u8) -> (r: u8)
    ensures
        r == spec_brightness_percent(val),
{
    let v: u32 = val as u32;
    let perc: u32 = (v * 10000 / 255 + 50) / 100;
    perc as u8
}

fn brightness_unit(percent: u8) -> (r: u8)
    ensures
        r == spec_brightness_unit(percent),
{
    (((percent as u16) * 255 / 100) % 256) as u8
}

/// The firmware effect id a standard-effect name denotes.
pub open spec fn spec_standard_effect_id(name: Seq<char>) -> Option<u8> {
    if name == "off"@ {
        Some(EFFECT_OFF)
    } else if name == "wave"@ {
        Some(EFFECT_WAVE)
    } else if name == "reactive"@ {
        Some(EFFECT_REACTIVE)
    } else if name == "breathing"@ {
        Some(EFFECT_BREATHING)
    } else if name == "spectrum"@ {
        Some(EFFECT_SPECTRUM)
    } else if name == "static"@ {
        Some(EFFECT_STATIC)
    } else if name == "starlight"@ {
        Some(EFFECT_STARLIGHT)
    } else {
        None
    }
}

/// The firmware effect id a standard-effect name denotes.
pub fn standard_effect_id(name: &String) -> (r: Option<u8>)
    ensures
        r == spec_standard_effect_id(name@),
{
    if name.eq(&"off".to_owned()) {
        Some(EFFECT_OFF)
    } else if name.eq(&"wave".to_owned()) {
        Some(EFFECT_WAVE)
    } else if name.eq(&"reactive".to_owned()) {
        Some(EFFECT_REACTIVE)
    } else if name.eq(&"breathing".to_owned()) {
        Some(EFFECT_BREATHING)
    } else if name.eq(&"spectrum".to_owned()) {
        Some(EFFECT_SPECTRUM)
    } else if name.eq(&"static".to_owned()) {
        Some(EFFECT_STATIC)
    } else if name.eq(&"starlight".to_owned()) {
        Some(EFFECT_STARLIGHT)
    } else {
        None
    }
}

/// How the reply to a command still depends on the transport's responses;
/// the exchange each variant reads is the last one planned.
pub enum PendingReply {
    /// Nothing owed to the hardware: the reply (or silence) is ready.
    Ready(Option<DaemonResponse>),
    /// Brightness write: succeeded iff the exchange was accepted.
    BrightnessSet,
    /// Logo write: succeeded iff the final (enable) exchange was accepted.
    LogoSet,
    /// Battery-health write: succeeded iff the exchange was accepted.
    BhoSet,
    /// Brightness query: the percentage of response argument 2, zero when
    /// the exchange failed.
    BrightnessGet,
    /// Power-level query: response argument 2, zero when the exchange
    /// failed.
    PowerGet,
    /// CPU boost query: response argument 2, zero when the exchange failed.
    CpuBoostGet,
    /// GPU boost query: response argument 2, zero when the exchange failed.
    GpuBoostGet,
    /// Battery-health query: the unpacked status byte, or no reply at all
    /// when the exchange failed.
    BhoGet,
}

/// Everything one command leaves for the shell to do: the packets to push
/// through the transport in order, how to form the reply, and whether the
/// settings file must be rewritten.
pub struct RequestOutcome {
    pub packets: Vec<RazerPacket>,
    pub pending: PendingReply,
    pub save_config: bool,
}

/// The models of the responses the transport returned, one per planned
/// packet, in order; a failed exchange is `None`.
pub open spec fn response_models(s: Seq<Option<RazerPacket>>) -> Seq<Option<PacketModel>> {
    s.map_values(
        |o: Option<RazerPacket>|
            match o {
                Some(p) => Some(p@),
                None => None,
            },
    )
}

/// The last response, which the reply-forming variants read.
pub open spec fn spec_last_response(rs: Seq<Option<PacketModel>>) -> Option<PacketModel> {
    if rs.len() > 0 {
        rs.last()
    } else {
        None
    }
}

/// Argument byte 2 of a response, zero for a failed exchange or a response
/// too short to carry it — the fallback the device queries report.
pub open spec fn spec_arg_or_zero(o: Option<PacketModel>, i: int) -> u8 {
    match o {
        Some(p) => if 0 <= i < p.args.len() {
            p.args[i]
        } else {
            0u8
        },
        None => 0u8,
    }
}

/// Form the reply a finished command owes the client from the transport's
/// responses, one entry per planned packet, in order.
pub fn conclude_client_request(pending: PendingReply, responses: &Vec<Option<RazerPacket>>) -> (r:
    Option<DaemonResponse>)
    ensures
        ({
            let last = spec_last_response(response_models(responses@));
            match pending {
                PendingReply::Ready(reply) => r == reply,
                PendingReply::BrightnessSet => r matches Some(
                    DaemonResponse::SetBrightness { result },
                ) && result == (last is Some),
                PendingReply::LogoSet => r matches Some(DaemonResponse::SetLogoLedState { result })
                    && result == (last is Some),
                PendingReply::BhoSet => r matches Some(
                    DaemonResponse::SetBatteryHealthOptimizer { result },
                ) && result == (last is Some),
                PendingReply::BrightnessGet => r matches Some(
                    DaemonResponse::GetBrightness { result },
                ) && result == spec_brightness_percent(spec_arg_or_zero(last, 2)),
                PendingReply::PowerGet => r matches Some(DaemonResponse::GetPwrLevel { pwr })
                    && pwr == spec_arg_or_zero(last, 2),
                PendingReply::CpuBoostGet => r matches Some(DaemonResponse::GetCPUBoost { cpu })
                    && cpu == spec_arg_or_zero(last, 2),
                PendingReply::GpuBoostGet => r matches Some(DaemonResponse::GetGPUBoost { gpu })
                    && gpu == spec_arg_or_zero(last, 2),
                PendingReply::BhoGet => match last {
                    Some(p) => r matches Some(
                        DaemonResponse::GetBatteryHealthOptimizer { is_on, threshold },
                    ) && is_on == (spec_arg_or_zero(last, 0) & 0x80 != 0) && threshold == (
                    spec_arg_or_zero(last, 0) & 0x7f),
                    None => r is None,
                },
            }
        }),
{
    let got: Option<&RazerPacket> = if responses.len() > 0 {
        match &responses[responses.len() - 1] {
            Some(p) => Some(p),
            None => None,
        }
    } else {
        None
    };
    proof {
        let rs = response_models(responses@);
        if responses@.len() > 0 {
            assert(rs.last() == rs[rs.len() - 1]);
        }
    }
    match pending {
        PendingReply::Ready(reply) => reply,
        PendingReply::BrightnessSet => Some(
            DaemonResponse::SetBrightness { result: got.is_some() },
        ),
        PendingReply::LogoSet => Some(DaemonResponse::SetLogoLedState { result: got.is_some() }),
        PendingReply::BhoSet => Some(
            DaemonResponse::SetBatteryHealthOptimizer { result: got.is_some() },
        ),
        PendingReply::BrightnessGet => Some(
            DaemonResponse::GetBrightness { result: brightness_percent(arg_or_zero(got, 2)) },
        ),
        PendingReply::PowerGet => Some(DaemonResponse::GetPwrLevel { pwr: arg_or_zero(got, 2) }),
        PendingReply::CpuBoostGet => Some(DaemonResponse::GetCPUBoost { cpu: arg_or_zero(got, 2) }),
        PendingReply::GpuBoostGet => Some(DaemonResponse::GetGPUBoost { gpu: arg_or_zero(got, 2) }),
        PendingReply::BhoGet => match got {
            Some(p) => {
                let (is_on, threshold) = byte_to_bho(arg_or_zero(Some(p), 0));
                Some(DaemonResponse::GetBatteryHealthOptimizer { is_on, threshold })
            },
            None => None,
        },
    }
}

/// One argument byte of a possibly missing response, zero when missing or
/// short.
fn arg_or_zero(resp: Option<&RazerPacket>, i: usize) -> (r: u8)
    ensures
        r == spec_arg_or_zero(
            match resp {
                Some(p) => Some(p@),
                None => None,
            },
            i as int,
        ),
{
    match resp {
        Some(p) => {
            if i < p.args.len() {
                p.args[i]
            } else {
                0
            }
        },
        None => 0,
    }
}

/// The packets that hold the lighting dark: brightness zero and logo off.
pub open spec fn spec_light_off_packets() -> Seq<PacketModel> {
    seq![brightness_packet(0)] + spec_logo_packets(0)
}

/// The packets restoring one settings slot's lighting: its brightness and
/// its logo mode.
pub open spec fn spec_restore_light_packets(brightness: u8, logo_state: u8) -> Seq<PacketModel> {
    seq![brightness_packet(brightness)] + spec_logo_packets(logo_state)
}

impl DeviceManager {
    /// The stored sync flag; off when nothing is loaded.
    pub fn get_sync(&self) -> (r: bool)
        ensures
            r == match self.config {
                Some(c) => c.sync,
                None => false,
            },
    {
        match &self.config {
            Some(c) => c.sync,
            None => false,
        }
    }

    /// The stored logo mode of one power source; off when nothing is loaded.
    pub fn get_logo_led_state(&self, ac: usize) -> (r: u8)
        requires
            self.wf(),
            ac < 2,
        ensures
            r == match self.config {
                Some(c) => c.power@[ac as int].logo_state,
                None => 0u8,
            },
    {
        match &self.config {
            Some(c) => c.power[ac].logo_state,
            None => 0,
        }
    }

    /// Milliseconds of inactivity before the shell's idle watch fires: the
    /// active power source's stored timeout in minutes, scaled; zero asks
    /// for no watch at all.
    pub fn idle_timeout_ms(&self) -> (r: u64)
        requires
            self.wf(),
        ensures
            ({
                let state: int = match self.device {
                    Some(l) => if l.ac_state < 2 {
                        l.ac_state as int
                    } else {
                        0
                    },
                    None => 0,
                };
                r as int == match self.config {
                    Some(c) => c.power@[state].idle as int * 60 * 1000,
                    None => 0int,
                }
            }),
    {
        let state: usize = match &self.device {
            Some(l) => {
                let s = l.get_ac_state();
                if s < 2 {
                    s
                } else {
                    0
                }
            },
            None => 0,
        };
        match &self.config {
            Some(c) => (c.power[state].idle as u64) * 60 * 1000,
            None => 0,
        }
    }

    /// Blank the lighting for a darkened screen: remember that a user-active
    /// watch is wanted while an idle watch is armed, mark the session
    /// blanked, and plan the packets that turn brightness and logo off.
    pub fn light_off(&mut self) -> (pkts: Vec<RazerPacket>)
        requires
            old(self).wf(),
        ensures
            final(self).wf(),
            final(self).config == old(self).config,
            final(self).supported_devices == old(self).supported_devices,
            final(self).idle_id == old(self).idle_id,
            final(self).active_id == old(self).active_id,
            final(self).change_idle == old(self).change_idle,
            final(self).add_active == (old(self).add_active || old(self).idle_id != 0),
            match old(self).device {
                Some(l0) => final(self).device == Some(
                    (RazerLaptop { screensaver: true, ..l0 }),
                ) && models(pkts@) == spec_light_off_packets(),
                None => final(self).device is None && pkts@.len() == 0,
            },
    {
        if self.idle_id != 0 {
            self.add_active = true;
        }
        let mut pkts: Vec<RazerPacket> = Vec::new();
        match &mut self.device {
            Some(l) => {
                l.set_screensaver(true);
                pkts.push(l.set_brightness(0));
                let mut logo = l.set_logo_led_state(0);
                pkts.append(&mut logo);
                proof {
                    assert(models(pkts@) =~= spec_light_off_packets());
                }
            },
            None => {},
        }
        pkts
    }

    /// Restore the lighting after the screen comes back: forget the wish for
    /// a user-active watch, unmark the session, and plan the packets that
    /// replay the active power source's stored brightness and logo mode.
    pub fn restore_light(&mut self) -> (pkts: Vec<RazerPacket>)
        requires
            old(self).wf(),
        ensures
            final(self).wf(),
            final(self).config == old(self).config,
            final(self).supported_devices == old(self).supported_devices,
            final(self).idle_id == old(self).idle_id,
            final(self).active_id == old(self).active_id,
            final(self).change_idle == old(self).change_idle,
            final(self).add_active == false,
            ({
                let ac: int = match old(self).device {
                    Some(l) => if l.ac_state < 2 {
                        l.ac_state as int
                    } else {
                        0
                    },
                    None => 0,
                };
                let brightness: u8 = match old(self).config {
                    Some(c) => c.power@[ac].brightness,
                    None => 0u8,
                };
                let logo_state: u8 = match old(self).config {
                    Some(c) => c.power@[ac].logo_state,
                    None => 0u8,
                };
                match old(self).device {
                    Some(l0) => final(self).device == Some(
                        (RazerLaptop { screensaver: false, ..l0 }),
                    ) && models(pkts@) == spec_restore_light_packets(brightness, logo_state),
                    None => final(self).device is None && pkts@.len() == 0,
                }
            }),
    {
        self.add_active = false;
        let ac: usize = match &self.device {
            Some(l) => {
                let s = l.get_ac_state();
                if s < 2 {
                    s
                } else {
                    0
                }
            },
            None => 0,
        };
        let (brightness, logo_state): (u8, u8) = match &self.config {
            Some(c) => (c.power[ac].brightness, c.power[ac].logo_state),
            None => (0, 0),
        };
        let mut pkts: Vec<RazerPacket> = Vec::new();
        match &mut self.device {
            Some(l) => {
                l.set_screensaver(false);
                pkts.push(l.set_brightness(brightness));
                let mut logo = l.set_logo_led_state(logo_state);
                pkts.append(&mut logo);
                proof {
                    assert(models(pkts@) =~= spec_restore_light_packets(brightness, logo_state));
                }
            },
            None => {},
        }
        pkts
    }

    /// Replay the stored standard effect at startup; nothing is owed when no
    /// settings or no device are loaded, or when the stored parameters do
    /// not fit a packet.
    pub fn restore_standard_effect(&self) -> (r: Option<RazerPacket>)
        requires
            self.wf(),
        ensures
            match (self.config, self.device) {
                (Some(c), Some(l)) => if c.standard_effect_params@.len() < 80 {
                    r matches Some(p) && p@ == standard_effect_packet(
                        c.standard_effect,
                        c.standard_effect_params@,
                    )
                } else {
                    r is None
                },
                _ => r is None,
            },
    {
        match (&self.config, &self.device) {
            (Some(c), Some(l)) => {
                if c.standard_effect_params.len() < 80 {
                    Some(l.set_standard_effect(c.standard_effect, &c.standard_effect_params))
                } else {
                    None
                }
            },
            _ => None,
        }
    }

    /// Bind the session to a power source: remember it, ask the shell to
    /// re-arm its idle watch, and plan the packets replaying that source's
    /// stored settings.
    pub fn set_ac_state(&mut self, online: bool) -> (pkts: Vec<RazerPacket>)
        requires
            old(self).wf(),
        ensures
            final(self).wf(),
            final(self).config == old(self).config,
            final(self).supported_devices == old(self).supported_devices,
            final(self).idle_id == old(self).idle_id,
            final(self).active_id == old(self).active_id,
            final(self).add_active == old(self).add_active,
            final(self).change_idle == true,
            ({
                let ac: int = if online {
                    1
                } else {
                    0
                };
                match (old(self).device, old(self).config) {
                    (Some(l0), Some(c)) => {
                        let l1 = RazerLaptop { ac_state: ac as u8, ..l0 };
                        final(self).device == Some(
                            crate::device::spec_set_config_state(l1, c.power@[ac]),
                        ) && models(pkts@) == crate::device::spec_set_config_packets(
                            l1,
                            c.power@[ac],
                        )
                    },
                    (Some(l0), None) => final(self).device == Some(
                        (RazerLaptop { ac_state: (if online { 1u8 } else { 0u8 }), ..l0 }),
                    ) && pkts@.len() == 0,
                    (None, _) => final(self).device is None && pkts@.len() == 0,
                }
            }),
    {
        let ac: usize = if online {
            1
        } else {
            0
        };
        let pc: Option<PowerConfig> = match &self.config {
            Some(c) => Some(c.power[ac]),
            None => None,
        };
        self.change_idle = true;
        match &mut self.device {
            Some(l) => {
                let _ = l.set_ac_state(online);
                match pc {
                    Some(p) => l.set_config(p),
                    None => Vec::new(),
                }
            },
            None => Vec::new(),
        }
    }

    /// Plan the battery-health setting against the bound laptop; nothing is
    /// owed without a device, without the capability, or for a threshold
    /// that fails [`crate::device::valid_bho_threshold`].
    pub fn set_bho_handler(&self, is_on: bool, threshold: u8) -> (r: Option<RazerPacket>)
        ensures
            match self.device {
                Some(l) => {
                    if l.spec_has_feature("bho"@) && threshold % 5 == 0 && 50 <= threshold <= 80 {
                        r matches Some(p) && p@ == set_bho_packet(is_on, threshold)
                    } else {
                        r is None
                    }
                },
                None => r is None,
            },
    {
        match &self.device {
            Some(l) => l.set_bho(is_on, threshold),
            None => None,
        }
    }

    /// Plan the battery-health query against the bound laptop; nothing is
    /// owed without a device or without the capability.
    pub fn get_bho_handler(&self) -> (r: Option<RazerPacket>)
        ensures
            match self.device {
                Some(l) => {
                    if l.spec_has_feature("bho"@) {
                        r matches Some(p) && p@ == get_bho_packet()
                    } else {
                        r is None
                    }
                },
                None => r is None,
            },
    {
        match &self.device {
            Some(l) => l.get_bho(),
            None => None,
        }
    }
}

/// The stack with its top layer removed; an empty stack stays empty.
pub open spec fn spec_popped(s: Seq<LayerModel>) -> Seq<LayerModel> {
    if s.len() > 0 {
        s.drop_last()
    } else {
        s
    }
}

/// The mask covering the whole keyboard, which every client-installed
/// effect uses.
pub open spec fn full_mask_spec() -> Seq<bool> {
    Seq::new(TOTAL_KEYS as nat, |i: int| true)
}

/// What serving one command does: how the manager's settings and session
/// change, how the effect stack changes, which packets are owed to the
/// device, how the reply is formed, and whether the settings file must be
/// rewritten. Commands that name a power source other than battery (0) or
/// mains (1) are rejected: nothing changes and no reply is owed.
pub open spec fn spec_processed(
    m0: DeviceManager,
    fx0: EffectManagerModel,
    cmd: DaemonCommand,
    m1: DeviceManager,
    fx1: EffectManagerModel,
    pkts: Seq<PacketModel>,
    pending: PendingReply,
    save: bool,
) -> bool {
    match cmd {
        DaemonCommand::SetPowerMode { ac, pwr, cpu, gpu } => {
            if ac > 1 {
                m1 == m0 && fx1 == fx0 && pkts.len() == 0 && pending == PendingReply::Ready(None)
                    && !save
            } else {
                &&& fx1 == fx0
                &&& same_catalog(m0, m1)
                &&& m1.change_idle == m0.change_idle
                &&& save == (m0.config is Some)
                &&& match (m0.config, m1.config) {
                    (Some(c0), Some(c1)) => config_slot_set(
                        c0,
                        c1,
                        ac as int,
                        (PowerConfig {
                            power_mode: pwr,
                            cpu_boost: cpu,
                            gpu_boost: gpu,
                            ..c0.power@[ac as int]
                        }),
                    ),
                    (None, None) => true,
                    _ => false,
                }
                &&& match m0.device {
                    None => m1.device is None && pkts.len() == 0 && pending == PendingReply::Ready(
                        Some(DaemonResponse::SetPowerMode { result: false }),
                    ),
                    Some(l0) => if l0.ac_state as int != ac as int {
                        m1.device == Some(l0) && pkts.len() == 0 && pending == PendingReply::Ready(
                            Some(DaemonResponse::SetPowerMode { result: true }),
                        )
                    } else {
                        m1.device == Some(spec_power_mode_state(l0, pwr)) && pkts
                            == spec_power_mode_packets(l0, pwr, cpu, gpu) && pending
                            == PendingReply::Ready(
                            Some(DaemonResponse::SetPowerMode { result: true }),
                        )
                    },
                }
            }
        },
        DaemonCommand::SetFanSpeed { ac, rpm } => {
            if ac > 1 {
                m1 == m0 && fx1 == fx0 && pkts.len() == 0 && pending == PendingReply::Ready(None)
                    && !save
            } else {
                let value = spec_low16(rpm as int) as u16;
                &&& fx1 == fx0
                &&& same_catalog(m0, m1)
                &&& m1.change_idle == m0.change_idle
                &&& save == (m0.config is Some)
                &&& match (m0.config, m1.config) {
                    (Some(c0), Some(c1)) => config_slot_set(
                        c0,
                        c1,
                        ac as int,
                        (PowerConfig { fan_rpm: rpm, ..c0.power@[ac as int] }),
                    ),
                    (None, None) => true,
                    _ => false,
                }
                &&& match m0.device {
                    None => m1.device is None && pkts.len() == 0 && pending == PendingReply::Ready(
                        Some(DaemonResponse::SetFanSpeed { result: false }),
                    ),
                    Some(l0) => if l0.ac_state as int != ac as int {
                        m1.device == Some(l0) && pkts.len() == 0 && pending == PendingReply::Ready(
                            Some(DaemonResponse::SetFanSpeed { result: true }),
                        )
                    } else {
                        m1.device == Some(spec_fan_rpm_state(l0, value)) && pkts
                            == spec_fan_rpm_packets(l0, value) && pending == PendingReply::Ready(
                            Some(DaemonResponse::SetFanSpeed { result: true }),
                        )
                    },
                }
            }
        },
        DaemonCommand::SetLogoLedState { ac, logo_state } => {
            if ac > 1 {
                m1 == m0 && fx1 == fx0 && pkts.len() == 0 && pending == PendingReply::Ready(None)
                    && !save
            } else {
                &&& fx1 == fx0
                &&& m1.device == m0.device
                &&& same_catalog(m0, m1)
                &&& m1.change_idle == m0.change_idle
                &&& save == (m0.config is Some)
                &&& match (m0.config, m1.config) {
                    (Some(c0), Some(c1)) => config_logo_set(c0, c1, ac as int, logo_state),
                    (None, None) => true,
                    _ => false,
                }
                &&& match m0.device {
                    None => pkts.len() == 0 && pending == PendingReply::Ready(
                        Some(DaemonResponse::SetLogoLedState { result: false }),
                    ),
                    Some(l0) => if l0.ac_state as int != ac as int {
                        pkts.len() == 0 && pending == PendingReply::Ready(
                            Some(DaemonResponse::SetLogoLedState { result: true }),
                        )
                    } else {
                        pkts == spec_logo_packets(logo_state) && pending == PendingReply::LogoSet
                    },
                }
            }
        },
        DaemonCommand::SetBrightness { ac, val } => {
            if ac > 1 {
                m1 == m0 && fx1 == fx0 && pkts.len() == 0 && pending == PendingReply::Ready(None)
                    && !save
            } else {
                let unit = spec_brightness_unit(val);
                &&& fx1 == fx0
                &&& m1.device == m0.device
                &&& same_catalog(m0, m1)
                &&& m1.change_idle == m0.change_idle
                &&& save == (m0.config is Some)
                &&& match (m0.config, m1.config) {
                    (Some(c0), Some(c1)) => config_brightness_set(c0, c1, ac as int, unit),
                    (None, None) => true,
                    _ => false,
                }
                &&& match m0.device {
                    None => pkts.len() == 0 && pending == PendingReply::Ready(
                        Some(DaemonResponse::SetBrightness { result: false }),
                    ),
                    Some(l0) => if l0.ac_state as int != ac as int {
                        pkts.len() == 0 && pending == PendingReply::Ready(
                            Some(DaemonResponse::SetBrightness { result: true }),
                        )
                    } else {
                        pkts.len() == 1 && pkts[0] == brightness_packet(unit) && pending
                            == PendingReply::BrightnessSet
                    },
                }
            }
        },
        DaemonCommand::SetIdle { ac, val } => {
            if ac > 1 {
                m1 == m0 && fx1 == fx0 && pkts.len() == 0 && pending == PendingReply::Ready(None)
                    && !save
            } else {
                &&& fx1 == fx0
                &&& m1.device == m0.device
                &&& same_catalog(m0, m1)
                &&& pkts.len() == 0
                &&& pending == PendingReply::Ready(Some(DaemonResponse::SetIdle { result: true }))
                &&& match (m0.config, m1.config) {
                    (Some(c0), Some(c1)) => {
                        &&& config_idle_set(c0, c1, ac as int, val)
                        &&& save == (c0.power@[ac as int].idle != val)
                        &&& m1.change_idle == (m0.change_idle || c0.power@[ac as int].idle != val)
                    },
                    (None, None) => !save && m1.change_idle == m0.change_idle,
                    _ => false,
                }
            }
        },
        DaemonCommand::SetSync { sync } => {
            let ac: int = match m0.device {
                Some(l) => if l.ac_state < 2 {
                    l.ac_state as int
                } else {
                    0
                },
                None => 0,
            };
            &&& fx1 == fx0
            &&& m1.device == m0.device
            &&& same_catalog(m0, m1)
            &&& m1.change_idle == m0.change_idle
            &&& pkts.len() == 0
            &&& pending == PendingReply::Ready(Some(DaemonResponse::SetSync { result: true }))
            &&& match (m0.config, m1.config) {
                (Some(c0), Some(c1)) => config_sync_set(c0, c1, ac, sync) && save,
                (None, None) => !save,
                _ => false,
            }
        },
        DaemonCommand::GetBrightness { ac } => {
            if ac > 1 {
                m1 == m0 && fx1 == fx0 && pkts.len() == 0 && pending == PendingReply::Ready(None)
                    && !save
            } else {
                let fallback = match m0.config {
                    Some(c0) => PendingReply::Ready(
                        Some(
                            DaemonResponse::GetBrightness {
                                result: spec_brightness_percent(c0.power@[ac as int].brightness),
                            },
                        ),
                    ),
                    None => PendingReply::Ready(
                        Some(DaemonResponse::GetBrightness { result: 0u8 }),
                    ),
                };
                &&& m1 == m0
                &&& fx1 == fx0
                &&& !save
                &&& match m0.device {
                    Some(l0) => if l0.ac_state as int == ac as int {
                        pkts.len() == 1 && pkts[0] == get_brightness_packet() && pending
                            == PendingReply::BrightnessGet
                    } else {
                        pkts.len() == 0 && pending == fallback
                    },
                    None => pkts.len() == 0 && pending == fallback,
                }
            }
        },
        DaemonCommand::GetLogoLedState { ac } => {
            if ac > 1 {
                m1 == m0 && fx1 == fx0 && pkts.len() == 0 && pending == PendingReply::Ready(None)
                    && !save
            } else {
                &&& m1 == m0
                &&& fx1 == fx0
                &&& !save
                &&& pkts.len() == 0
                &&& pending == PendingReply::Ready(
                    Some(
                        DaemonResponse::GetLogoLedState {
                            logo_state: match m0.config {
                                Some(c0) => c0.power@[ac as int].logo_state,
                                None => 0u8,
                            },
                        },
                    ),
                )
            }
        },
        DaemonCommand::GetKeyboardRGB { layer } => {
            &&& m1 == m0
            &&& fx1 == fx0
            &&& !save
            &&& pkts.len() == 0
            &&& (pending matches PendingReply::Ready(
                Some(DaemonResponse::GetKeyboardRGB { layer: l2, rgbdata }),
            ) && l2 == layer && rgbdata@ == (if 0 <= layer < fx0.layers.len() {
                spec_layer_map(fx0.layers[layer as int], fx0.ticks)
            } else {
                Seq::<u8>::empty()
            }))
        },
        DaemonCommand::GetSync() => {
            &&& m1 == m0
            &&& fx1 == fx0
            &&& !save
            &&& pkts.len() == 0
            &&& pending == PendingReply::Ready(
                Some(
                    DaemonResponse::GetSync {
                        sync: match m0.config {
                            Some(c0) => c0.sync,
                            None => false,
                        },
                    },
                ),
            )
        },
        DaemonCommand::GetFanSpeed { ac } => {
            if ac > 1 {
                m1 == m0 && fx1 == fx0 && pkts.len() == 0 && pending == PendingReply::Ready(None)
                    && !save
            } else {
                let fallback: i32 = match m0.config {
                    Some(c0) => c0.power@[ac as int].fan_rpm,
                    None => 0i32,
                };
                &&& m1 == m0
                &&& fx1 == fx0
                &&& !save
                &&& pkts.len() == 0
                &&& pending == PendingReply::Ready(
                    Some(
                        DaemonResponse::GetFanSpeed {
                            rpm: match m0.device {
                                Some(l0) => if l0.ac_state as int == ac as int {
                                    (l0.fan_rpm * 100) as i32
                                } else {
                                    fallback
                                },
                                None => fallback,
                            },
                        },
                    ),
                )
            }
        },
        DaemonCommand::GetPwrLevel { ac } => {
            if ac > 1 {
                m1 == m0 && fx1 == fx0 && pkts.len() == 0 && pending == PendingReply::Ready(None)
                    && !save
            } else {
                let fallback = PendingReply::Ready(
                    Some(
                        DaemonResponse::GetPwrLevel {
                            pwr: match m0.config {
                                Some(c0) => c0.power@[ac as int].power_mode,
                                None => 0u8,
                            },
                        },
                    ),
                );
                &&& m1 == m0
                &&& fx1 == fx0
                &&& !save
                &&& match m0.device {
                    Some(l0) => if l0.ac_state as int == ac as int {
                        pkts.len() == 1 && pkts[0] == get_power_packet(1) && pending
                            == PendingReply::PowerGet
                    } else {
                        pkts.len() == 0 && pending == fallback
                    },
                    None => pkts.len() == 0 && pending == fallback,
                }
            }
        },
        DaemonCommand::GetCPUBoost { ac } => {
            if ac > 1 {
                m1 == m0 && fx1 == fx0 && pkts.len() == 0 && pending == PendingReply::Ready(None)
                    && !save
            } else {
                let fallback = PendingReply::Ready(
                    Some(
                        DaemonResponse::GetCPUBoost {
                            cpu: match m0.config {
                                Some(c0) => c0.power@[ac as int].cpu_boost,
                                None => 0u8,
                            },
                        },
                    ),
                );
                &&& m1 == m0
                &&& fx1 == fx0
                &&& !save
                &&& match m0.device {
                    Some(l0) => if l0.ac_state as int == ac as int {
                        pkts.len() == 1 && pkts[0] == get_boost_packet(1) && pending
                            == PendingReply::CpuBoostGet
                    } else {
                        pkts.len() == 0 && pending == fallback
                    },
                    None => pkts.len() == 0 && pending == fallback,
                }
            }
        },
        DaemonCommand::GetGPUBoost { ac } => {
            if ac > 1 {
                m1 == m0 && fx1 == fx0 && pkts.len() == 0 && pending == PendingReply::Ready(None)
                    && !save
            } else {
                let fallback = PendingReply::Ready(
                    Some(
                        DaemonResponse::GetGPUBoost {
                            gpu: match m0.config {
                                Some(c0) => c0.power@[ac as int].gpu_boost,
                                None => 0u8,
                            },
                        },
                    ),
                );
                &&& m1 == m0
                &&& fx1 == fx0
                &&& !save
                &&& match m0.device {
                    Some(l0) => if l0.ac_state as int == ac as int {
                        pkts.len() == 1 && pkts[0] == get_boost_packet(2) && pending
                            == PendingReply::GpuBoostGet
                    } else {
                        pkts.len() == 0 && pending == fallback
                    },
                    None => pkts.len() == 0 && pending == fallback,
                }
            }
        },
        DaemonCommand::SetEffect { name, params } => {
            &&& m1 == m0
            &&& !save
            &&& pkts.len() == 0
            &&& match (m0.device, spec_effect_from_name(name@, params@)) {
                (Some(l0), Some(e)) => fx1.ticks == fx0.ticks && fx1.layers == spec_popped(
                    fx0.layers,
                ).push(LayerModel { effect: e, mask: full_mask_spec() }) && pending
                    == PendingReply::Ready(Some(DaemonResponse::SetEffect { result: true })),
                _ => fx1 == fx0 && pending == PendingReply::Ready(
                    Some(DaemonResponse::SetEffect { result: false }),
                ),
            }
        },
        DaemonCommand::SetStandardEffect { name, params } => {
            match m0.device {
                None => m1 == m0 && fx1 == fx0 && pkts.len() == 0 && !save && pending
                    == PendingReply::Ready(
                    Some(DaemonResponse::SetStandardEffect { result: false }),
                ),
                Some(l0) => {
                    &&& m1.device == m0.device
                    &&& same_catalog(m0, m1)
                    &&& m1.change_idle == m0.change_idle
                    &&& fx1.ticks == fx0.ticks
                    &&& fx1.layers == spec_popped(fx0.layers)
                    &&& match spec_standard_effect_id(name@) {
                        Some(id) => if params@.len() < 80 {
                            &&& save == (m0.config is Some)
                            &&& match (m0.config, m1.config) {
                                (Some(c0), Some(c1)) => config_standard_effect_set(
                                    c0,
                                    c1,
                                    id,
                                    params@,
                                ),
                                (None, None) => true,
                                _ => false,
                            }
                            &&& pkts.len() == 1 && pkts[0] == standard_effect_packet(id, params@)
                            &&& pending == PendingReply::Ready(
                                Some(DaemonResponse::SetStandardEffect { result: true }),
                            )
                        } else {
                            m1.config == m0.config && !save && pkts.len() == 0 && pending
                                == PendingReply::Ready(
                                Some(DaemonResponse::SetStandardEffect { result: false }),
                            )
                        },
                        None => m1.config == m0.config && !save && pkts.len() == 0 && pending
                            == PendingReply::Ready(
                            Some(DaemonResponse::SetStandardEffect { result: false }),
                        ),
                    }
                },
            }
        },
        DaemonCommand::SetBatteryHealthOptimizer { is_on, threshold } => {
            &&& m1 == m0
            &&& fx1 == fx0
            &&& !save
            &&& match m0.device {
                Some(l0) => if l0.spec_has_feature("bho"@) && threshold % 5 == 0 && 50 <= threshold
                    <= 80 {
                    pkts.len() == 1 && pkts[0] == set_bho_packet(is_on, threshold) && pending
                        == PendingReply::BhoSet
                } else {
                    pkts.len() == 0 && pending == PendingReply::Ready(
                        Some(DaemonResponse::SetBatteryHealthOptimizer { result: false }),
                    )
                },
                None => pkts.len() == 0 && pending == PendingReply::Ready(
                    Some(DaemonResponse::SetBatteryHealthOptimizer { result: false }),
                ),
            }
        },
        DaemonCommand::GetBatteryHealthOptimizer() => {
            &&& m1 == m0
            &&& fx1 == fx0
            &&& !save
            &&& match m0.device {
                Some(l0) => if l0.spec_has_feature("bho"@) {
                    pkts.len() == 1 && pkts[0] == get_bho_packet() && pending
                        == PendingReply::BhoGet
                } else {
                    pkts.len() == 0 && pending == PendingReply::Ready(None)
                },
                None => pkts.len() == 0 && pending == PendingReply::Ready(None),
            }
        },
        DaemonCommand::GetDeviceName => {
            &&& m1 == m0
            &&& fx1 == fx0
            &&& !save
            &&& pkts.len() == 0
            &&& (pending matches PendingReply::Ready(
                Some(DaemonResponse::GetDeviceName { name }),
            ) && name@ == (match m0.device {
                Some(l) => l.name@,
                None => "Unknown Device"@,
            }))
        },
    }
}

/// Serve one client command: update the session and settings, update the
/// effect stack, and hand back the packets the device is owed together with
/// the recipe for the reply. [`spec_processed`] states the whole effect.
pub fn process_client_request(
    manager: &mut DeviceManager,
    effects: &mut EffectManager,
    cmd: DaemonCommand,
) -> (r: RequestOutcome)
    requires
        old(manager).wf(),
        old(effects)@.wf(),
    ensures
        final(manager).wf(),
        final(effects)@.wf(),
        spec_processed(
            *old(manager),
            old(effects)@,
            cmd,
            *final(manager),
            final(effects)@,
            models(r.packets@),
            r.pending,
            r.save_config,
        ),
{
    match cmd {
        DaemonCommand::SetPowerMode { ac, pwr, cpu, gpu } => {
            if ac > 1 {
                return RequestOutcome {
                    packets: Vec::new(),
                    pending: PendingReply::Ready(None),
                    save_config: false,
                };
            }
            let saved = manager.store_power_mode(ac, pwr, cpu, gpu);
            match &mut manager.device {
                Some(l) => {
                    if l.get_ac_state() == ac {
                        let (res, pkts) = l.set_power_mode(pwr, cpu, gpu);
                        RequestOutcome {
                            packets: pkts,
                            pending: PendingReply::Ready(
                                Some(DaemonResponse::SetPowerMode { result: res }),
                            ),
                            save_config: saved,
                        }
                    } else {
                        RequestOutcome {
                            packets: Vec::new(),
                            pending: PendingReply::Ready(
                                Some(DaemonResponse::SetPowerMode { result: true }),
                            ),
                            save_config: saved,
                        }
                    }
                },
                None => RequestOutcome {
                    packets: Vec::new(),
                    pending: PendingReply::Ready(
                        Some(DaemonResponse::SetPowerMode { result: false }),
                    ),
                    save_config: saved,
                },
            }
        },
        DaemonCommand::SetFanSpeed { ac, rpm } => {
            if ac > 1 {
                return RequestOutcome {
                    packets: Vec::new(),
                    pending: PendingReply::Ready(None),
                    save_config: false,
                };
            }
            let saved = manager.store_fan_rpm(ac, rpm);
            let value = rpm_to_u16(rpm);
            match &mut manager.device {
                Some(l) => {
                    if l.get_ac_state() == ac {
                        let (res, pkts) = l.set_fan_rpm(value);
                        RequestOutcome {
                            packets: pkts,
                            pending: PendingReply::Ready(
                                Some(DaemonResponse::SetFanSpeed { result: res }),
                            ),
                            save_config: saved,
                        }
                    } else {
                        RequestOutcome {
                            packets: Vec::new(),
                            pending: PendingReply::Ready(
                                Some(DaemonResponse::SetFanSpeed { result: true }),
                            ),
                            save_config: saved,
                        }
                    }
                },
                None => RequestOutcome {
                    packets: Vec::new(),
                    pending: PendingReply::Ready(
                        Some(DaemonResponse::SetFanSpeed { result: false }),
                    ),
                    save_config: saved,
                },
            }
        },
        DaemonCommand::SetLogoLedState { ac, logo_state } => {
            if ac > 1 {
                return RequestOutcome {
                    packets: Vec::new(),
                    pending: PendingReply::Ready(None),
                    save_config: false,
                };
            }
            let saved = manager.store_logo(ac, logo_state);
            match &manager.device {
                Some(l) => {
                    if l.get_ac_state() == ac {
                        let pkts = l.set_logo_led_state(logo_state);
                        RequestOutcome {
                            packets: pkts,
                            pending: PendingReply::LogoSet,
                            save_config: saved,
                        }
                    } else {
                        RequestOutcome {
                            packets: Vec::new(),
                            pending: PendingReply::Ready(
                                Some(DaemonResponse::SetLogoLedState { result: true }),
                            ),
                            save_config: saved,
                        }
                    }
                },
                None => RequestOutcome {
                    packets: Vec::new(),
                    pending: PendingReply::Ready(
                        Some(DaemonResponse::SetLogoLedState { result: false }),
                    ),
                    save_config: saved,
                },
            }
        },
        DaemonCommand::SetBrightness { ac, val } => {
            if ac > 1 {
                return RequestOutcome {
                    packets: Vec::new(),
                    pending: PendingReply::Ready(None),
                    save_config: false,
                };
            }
            let unit = brightness_unit(val);
            let saved = manager.store_brightness(ac, unit);
            match &manager.device {
                Some(l) => {
                    if l.get_ac_state() == ac {
                        let pkt = l.set_brightness(unit);
                        let mut pkts: Vec<RazerPacket> = Vec::new();
                        pkts.push(pkt);
                        RequestOutcome {
                            packets: pkts,
                            pending: PendingReply::BrightnessSet,
                            save_config: saved,
                        }
                    } else {
                        RequestOutcome {
                            packets: Vec::new(),
                            pending: PendingReply::Ready(
                                Some(DaemonResponse::SetBrightness { result: true }),
                            ),
                            save_config: saved,
                        }
                    }
                },
                None => RequestOutcome {
                    packets: Vec::new(),
                    pending: PendingReply::Ready(
                        Some(DaemonResponse::SetBrightness { result: false }),
                    ),
                    save_config: saved,
                },
            }
        },
        DaemonCommand::SetIdle { ac, val } => {
            if ac > 1 {
                return RequestOutcome {
                    packets: Vec::new(),
                    pending: PendingReply::Ready(None),
                    save_config: false,
                };
            }
            let (res, saved) = manager.change_idle(ac, val);
            RequestOutcome {
                packets: Vec::new(),
                pending: PendingReply::Ready(Some(DaemonResponse::SetIdle { result: res })),
                save_config: saved,
            }
        },
        DaemonCommand::SetSync { sync } => {
            let (res, saved) = manager.set_sync(sync);
            RequestOutcome {
                packets: Vec::new(),
                pending: PendingReply::Ready(Some(DaemonResponse::SetSync { result: res })),
                save_config: saved,
            }
        },
        DaemonCommand::GetBrightness { ac } => {
            if ac > 1 {
                return RequestOutcome {
                    packets: Vec::new(),
                    pending: PendingReply::Ready(None),
                    save_config: false,
                };
            }
            let hw = match &manager.device {
                Some(l) => l.get_ac_state() == ac,
                None => false,
            };
            if hw {
                let pkt = match &manager.device {
                    Some(l) => l.get_brightness(),
                    None => RazerPacket::new(0x03, 0x83, 0x03),
                };
                let mut pkts: Vec<RazerPacket> = Vec::new();
                pkts.push(pkt);
                RequestOutcome {
                    packets: pkts,
                    pending: PendingReply::BrightnessGet,
                    save_config: false,
                }
            } else {
                let result = match &manager.config {
                    Some(c) => brightness_percent(c.power[ac].brightness),
                    None => 0,
                };
                RequestOutcome {
                    packets: Vec::new(),
                    pending: PendingReply::Ready(Some(DaemonResponse::GetBrightness { result })),
                    save_config: false,
                }
            }
        },
        DaemonCommand::GetLogoLedState { ac } => {
            if ac > 1 {
                return RequestOutcome {
                    packets: Vec::new(),
                    pending: PendingReply::Ready(None),
                    save_config: false,
                };
            }
            let logo_state = match &manager.config {
                Some(c) => c.power[ac].logo_state,
                None => 0,
            };
            RequestOutcome {
                packets: Vec::new(),
                pending: PendingReply::Ready(
                    Some(DaemonResponse::GetLogoLedState { logo_state }),
                ),
                save_config: false,
            }
        },
        DaemonCommand::GetKeyboardRGB { layer } => {
            let rgbdata = effects.get_map(layer);
            RequestOutcome {
                packets: Vec::new(),
                pending: PendingReply::Ready(
                    Some(DaemonResponse::GetKeyboardRGB { layer, rgbdata }),
                ),
                save_config: false,
            }
        },
        DaemonCommand::GetSync() => {
            let sync = match &manager.config {
                Some(c) => c.sync,
                None => false,
            };
            RequestOutcome {
                packets: Vec::new(),
                pending: PendingReply::Ready(Some(DaemonResponse::GetSync { sync })),
                save_config: false,
            }
        },
        DaemonCommand::GetFanSpeed { ac } => {
            if ac > 1 {
                return RequestOutcome {
                    packets: Vec::new(),
                    pending: PendingReply::Ready(None),
                    save_config: false,
                };
            }
            let hw = match &manager.device {
                Some(l) => l.get_ac_state() == ac,
                None => false,
            };
            let rpm: i32 = if hw {
                match &manager.device {
                    Some(l) => l.get_fan_rpm() as i32,
                    None => 0,
                }
            } else {
                match &manager.config {
                    Some(c) => c.power[ac].fan_rpm,
                    None => 0,
                }
            };
            RequestOutcome {
                packets: Vec::new(),
                pending: PendingReply::Ready(Some(DaemonResponse::GetFanSpeed { rpm })),
                save_config: false,
            }
        },
        DaemonCommand::GetPwrLevel { ac } => {
            if ac > 1 {
                return RequestOutcome {
                    packets: Vec::new(),
                    pending: PendingReply::Ready(None),
                    save_config: false,
                };
            }
            let hw = match &manager.device {
                Some(l) => l.get_ac_state() == ac,
                None => false,
            };
            if hw {
                let pkt = match &manager.device {
                    Some(l) => l.get_power_mode(0x01),
                    None => RazerPacket::new(0x0d, 0x82, 0x04),
                };
                let mut pkts: Vec<RazerPacket> = Vec::new();
                pkts.push(pkt);
                RequestOutcome { packets: pkts, pending: PendingReply::PowerGet, save_config: false }
            } else {
                let pwr = match &manager.config {
                    Some(c) => c.power[ac].power_mode,
                    None => 0,
                };
                RequestOutcome {
                    packets: Vec::new(),
                    pending: PendingReply::Ready(Some(DaemonResponse::GetPwrLevel { pwr })),
                    save_config: false,
                }
            }
        },
        DaemonCommand::GetCPUBoost { ac } => {
            if ac > 1 {
                return RequestOutcome {
                    packets: Vec::new(),
                    pending: PendingReply::Ready(None),
                    save_config: false,
                };
            }
            let hw = match &manager.device {
                Some(l) => l.get_ac_state() == ac,
                None => false,
            };
            if hw {
                let pkt = match &manager.device {
                    Some(l) => l.get_cpu_boost(),
                    None => RazerPacket::new(0x0d, 0x87, 0x03),
                };
                let mut pkts: Vec<RazerPacket> = Vec::new();
                pkts.push(pkt);
                RequestOutcome {
                    packets: pkts,
                    pending: PendingReply::CpuBoostGet,
                    save_config: false,
                }
            } else {
                let cpu = match &manager.config {
                    Some(c) => c.power[ac].cpu_boost,
                    None => 0,
                };
                RequestOutcome {
                    packets: Vec::new(),
                    pending: PendingReply::Ready(Some(DaemonResponse::GetCPUBoost { cpu })),
                    save_config: false,
                }
            }
        },
        DaemonCommand::GetGPUBoost { ac } => {
            if ac > 1 {
                return RequestOutcome {
                    packets: Vec::new(),
                    pending: PendingReply::Ready(None),
                    save_config: false,
                };
            }
            let hw = match &manager.device {
                Some(l) => l.get_ac_state() == ac,
                None => false,
            };
            if hw {
                let pkt = match &manager.device {
                    Some(l) => l.get_gpu_boost(),
                    None => RazerPacket::new(0x0d, 0x87, 0x03),
                };
                let mut pkts: Vec<RazerPacket> = Vec::new();
                pkts.push(pkt);
                RequestOutcome {
                    packets: pkts,
                    pending: PendingReply::GpuBoostGet,
                    save_config: false,
                }
            } else {
                let gpu = match &manager.config {
                    Some(c) => c.power[ac].gpu_boost,
                    None => 0,
                };
                RequestOutcome {
                    packets: Vec::new(),
                    pending: PendingReply::Ready(Some(DaemonResponse::GetGPUBoost { gpu })),
                    save_config: false,
                }
            }
        },
        DaemonCommand::SetEffect { name, params } => {
            let mut res = false;
            if manager.device.is_some() {
                match Effect::from_name(&name, &params) {
                    Some(e) => {
                        let _ = effects.pop_effect();
                        effects.push_effect(e, full_mask());
                        res = true;
                    },
                    None => {},
                }
            }
            RequestOutcome {
                packets: Vec::new(),
                pending: PendingReply::Ready(Some(DaemonResponse::SetEffect { result: res })),
                save_config: false,
            }
        },
        DaemonCommand::SetStandardEffect { name, params } => {
            if manager.device.is_some() {
                let _ = effects.pop_effect();
                match standard_effect_id(&name) {
                    Some(id) => {
                        if params.len() < 80 {
                            let saved = manager.store_standard_effect(id, &params);
                            let pkt = crate::device::standard_effect_request(id, &params);
                            let mut pkts: Vec<RazerPacket> = Vec::new();
                            pkts.push(pkt);
                            RequestOutcome {
                                packets: pkts,
                                pending: PendingReply::Ready(
                                    Some(DaemonResponse::SetStandardEffect { result: true }),
                                ),
                                save_config: saved,
                            }
                        } else {
                            RequestOutcome {
                                packets: Vec::new(),
                                pending: PendingReply::Ready(
                                    Some(DaemonResponse::SetStandardEffect { result: false }),
                                ),
                                save_config: false,
                            }
                        }
                    },
                    None => RequestOutcome {
                        packets: Vec::new(),
                        pending: PendingReply::Ready(
                            Some(DaemonResponse::SetStandardEffect { result: false }),
                        ),
                        save_config: false,
                    },
                }
            } else {
                RequestOutcome {
                    packets: Vec::new(),
                    pending: PendingReply::Ready(
                        Some(DaemonResponse::SetStandardEffect { result: false }),
                    ),
                    save_config: false,
                }
            }
        },
        DaemonCommand::SetBatteryHealthOptimizer { is_on, threshold } => {
            match &manager.device {
                Some(l) => {
                    match l.set_bho(is_on, threshold) {
                        Some(pkt) => {
                            let mut pkts: Vec<RazerPacket> = Vec::new();
                            pkts.push(pkt);
                            RequestOutcome {
                                packets: pkts,
                                pending: PendingReply::BhoSet,
                                save_config: false,
                            }
                        },
                        None => RequestOutcome {
                            packets: Vec::new(),
                            pending: PendingReply::Ready(
                                Some(
                                    DaemonResponse::SetBatteryHealthOptimizer { result: false },
                                ),
                            ),
                            save_config: false,
                        },
                    }
                },
                None => RequestOutcome {
                    packets: Vec::new(),
                    pending: PendingReply::Ready(
                        Some(DaemonResponse::SetBatteryHealthOptimizer { result: false }),
                    ),
                    save_config: false,
                },
            }
        },
        DaemonCommand::GetBatteryHealthOptimizer() => {
            match &manager.device {
                Some(l) => {
                    match l.get_bho() {
                        Some(pkt) => {
                            let mut pkts: Vec<RazerPacket> = Vec::new();
                            pkts.push(pkt);
                            RequestOutcome {
                                packets: pkts,
                                pending: PendingReply::BhoGet,
                                save_config: false,
                            }
                        },
                        None => RequestOutcome {
                            packets: Vec::new(),
                            pending: PendingReply::Ready(None),
                            save_config: false,
                        },
                    }
                },
                None => RequestOutcome {
                    packets: Vec::new(),
                    pending: PendingReply::Ready(None),
                    save_config: false,
                },
            }
        },
        DaemonCommand::GetDeviceName => {
            let name = match &manager.device {
                Some(l) => l.get_name(),
                None => "Unknown Device".to_owned(),
            };
            RequestOutcome {
                packets: Vec::new(),
                pending: PendingReply::Ready(Some(DaemonResponse::GetDeviceName { name })),
                save_config: false,
            }
        },
    }
}

/// A mask covering the whole keyboard.
fn full_mask() -> (r: Vec<bool>)
    ensures
        r@.len() == TOTAL_KEYS,
        r@ == Seq::new(TOTAL_KEYS as nat, |i: int| true),
{
    let mut r: Vec<bool> = Vec::new();
    let mut i: usize = 0;
    while i < TOTAL_KEYS
        invariant
            i <= TOTAL_KEYS,
            r@.len() == i,
            r@ =~= Seq::new(i as nat, |j: int| true),
        decreases TOTAL_KEYS - i,
    {
        r.push(true);
        i = i + 1;
    }
    proof {
        assert(r@ =~= Seq::new(TOTAL_KEYS as nat, |i: int| true));
    }
    r
}

} // verus!
