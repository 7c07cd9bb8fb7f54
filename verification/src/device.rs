//! The device command set: the catalog of supported laptops, the session
//! state bound to one open laptop, and the typed operations over it.
//!
//! Every operation here is a pure function from the cached session fields and
//! the requested parameters to the exact command packets that must cross the
//! wire, plus the new cached fields. The unverified shell pushes each planned
//! packet through the transport and feeds any responses back.

use vstd::prelude::*;
use vstd::utf8::encode_utf8;
use crate::packet::{models, PacketModel, RazerPacket};
use crate::config::PowerConfig;

verus! {

/// USB vendor id shared by all supported laptops.
pub const RAZER_VENDOR_ID: u16 = 0x1532;

/// LED storage selector: do not persist across power cycles.
pub const NOSTORE: u8 = 0x00;
/// LED storage selector: persist in the device's variable store.
pub const VARSTORE: u8 = 0x01;
/// LED addressed by logo commands.
pub const LOGO_LED: u8 = 0x04;
/// LED addressed by keyboard backlight commands.
pub const BACKLIGHT_LED: u8 = 0x05;

/// Standard (firmware-computed) effect identifiers.
pub const EFFECT_OFF: u8 = 0x00;
pub const EFFECT_WAVE: u8 = 0x01;
pub const EFFECT_REACTIVE: u8 = 0x02;
pub const EFFECT_BREATHING: u8 = 0x03;
pub const EFFECT_SPECTRUM: u8 = 0x04;
pub const EFFECT_CUSTOMFRAME: u8 = 0x05;
pub const EFFECT_STATIC: u8 = 0x06;
pub const EFFECT_STARLIGHT: u8 = 0x19;

/// Command id the firmware echoes for the battery-health query, regardless
/// of the id that was sent.
pub const BHO_QUERY_COMMAND_ID: u8 = 0x92;

/// Does the sequence of feature names contain exactly this name?
pub open spec fn seq_contains_string(fs: Seq<String>, f: Seq<char>) -> bool {
    exists|j: int| #![trigger fs[j]] 0 <= j < fs.len() && fs[j]@ == f
}

/// Linear scan for a feature name.
fn contains_str(v: &Vec<String>, s: &str) -> (r: bool)
    ensures
        r == seq_contains_string(v@, s@),
{
    let needle: String = s.to_owned();
    let mut i: usize = 0;
    while i < v.len()
        invariant
            i <= v@.len(),
            needle@ == s@,
            forall|j: int| #![trigger v@[j]] 0 <= j < i ==> v@[j]@ != s@,
        decreases v@.len() - i,
    {
        if needle.eq(&v[i]) {
            proof {
                assert(v@[i as int]@ == s@);
            }
            return true;
        }
        i = i + 1;
    }
    false
}

/// One entry of the packaged catalog of supported laptops: its name, its USB
/// ids as hexadecimal strings, its capability set, and its fan range.
#[derive(Debug)]
pub struct SupportedDevice {
    pub name: String,
    pub vid: String,
    pub pid: String,
    pub features: Vec<String>,
    /// Fan RPM range as a two-element list: minimum, then maximum.
    pub fan: Vec<u16>,
}

impl SupportedDevice {
    /// The descriptor names a capability.
    pub open spec fn spec_has_feature(self, f: Seq<char>) -> bool {
        seq_contains_string(self.features@, f)
    }

    pub fn has_feature(&self, feature: &str) -> (r: bool)
        ensures
            r == self.spec_has_feature(feature@),
    {
        contains_str(&self.features, feature)
    }

    /// The device supports the highest CPU boost level.
    pub fn can_boost(&self) -> (r: bool)
        ensures
            r == self.spec_has_feature("boost"@),
    {
        self.has_feature("boost")
    }

    /// The device has a lid logo LED.
    pub fn has_logo(&self) -> (r: bool)
        ensures
            r == self.spec_has_feature("logo"@),
    {
        self.has_feature("logo")
    }
}

/// Split a battery-health status byte: the top bit flags whether the
/// optimizer is on, the low seven bits carry the charge threshold.
pub fn byte_to_bho(u: u8) -> (r: (bool, u8))
    ensures
        r.0 == (u & 0x80 != 0),
        r.1 == u & 0x7f,
{
    (u & 0x80 != 0, u & 0x7f)
}

/// Pack a battery-health setting into the one byte the firmware takes:
/// threshold in the low seven bits, the on flag as the top bit.
pub fn bho_to_byte(is_on: bool, threshold: u8) -> (r: u8)
    ensures
        r == spec_bho_to_byte(is_on, threshold),
{
    if is_on {
        threshold | 0x80
    } else {
        threshold
    }
}

/// The byte [`bho_to_byte`] produces.
pub open spec fn spec_bho_to_byte(is_on: bool, threshold: u8) -> u8 {
    if is_on {
        threshold | 0x80
    } else {
        threshold
    }
}

/// Packing a battery-health setting and splitting the byte again returns the
/// setting, for every threshold that fits in the seven threshold bits.
pub proof fn lemma_bho_byte_round_trip(is_on: bool, threshold: u8)
    requires
        threshold <= 127,
    ensures
        (spec_bho_to_byte(is_on, threshold) & 0x80 != 0) == is_on,
        spec_bho_to_byte(is_on, threshold) & 0x7f == threshold,
{
    if is_on {
        assert((threshold | 0x80) & 0x80 != 0 && (threshold | 0x80) & 0x7f == threshold)
            by (bit_vector)
            requires
                threshold <= 127,
        ;
    } else {
        assert(threshold & 0x80 == 0 && threshold & 0x7f == threshold) by (bit_vector)
            requires
                threshold <= 127,
        ;
    }
}

/// A battery-health charge threshold the command set accepts: a multiple of
/// five between 50 and 80 inclusive, and nothing else.
pub fn valid_bho_threshold(threshold: u8) -> (r: bool)
    ensures
        r == (threshold % 5 == 0 && 50 <= threshold <= 80),
{
    if threshold % 5 != 0 {
        return false;
    }
    if threshold < 50 || threshold > 80 {
        return false;
    }
    true
}

/// Value of one hexadecimal digit, upper or lower case.
pub open spec fn spec_hex_digit(b: u8) -> Option<u8> {
    if 48u8 <= b <= 57u8 {
        Some((b - 48u8) as u8)
    } else if 97u8 <= b <= 102u8 {
        Some((b - 97u8 + 10) as u8)
    } else if 65u8 <= b <= 70u8 {
        Some((b - 65u8 + 10) as u8)
    } else {
        None
    }
}

/// Every byte of the sequence is a hexadecimal digit.
pub open spec fn all_hex_digits(s: Seq<u8>) -> bool {
    forall|i: int| 0 <= i < s.len() ==> #[trigger] spec_hex_digit(s[i]) is Some
}

/// Numeric value of a sequence of hexadecimal digits, most significant
/// first; digits that are not hexadecimal count as zero.
pub open spec fn spec_hex_val(s: Seq<u8>) -> int
    decreases s.len(),
{
    if s.len() == 0 {
        0
    } else {
        spec_hex_val(s.drop_last()) * 16 + spec_hex_digit(s.last()).unwrap_or(0u8)
    }
}

/// What parsing a hexadecimal string yields: the value when the string holds
/// one to four hexadecimal digits, nothing otherwise.
pub open spec fn spec_hex_u16(s: Seq<u8>) -> Option<u16> {
    if 1 <= s.len() <= 4 && all_hex_digits(s) {
        Some(spec_hex_val(s) as u16)
    } else {
        None
    }
}

/// `16^n`, for the bound on parsed hexadecimal values.
pub open spec fn pow16(n: nat) -> int
    decreases n,
{
    if n == 0 {
        1
    } else {
        16 * pow16((n - 1) as nat)
    }
}

/// A string of `n` hexadecimal digits denotes a value below `16^n`.
proof fn lemma_hex_val_bound(s: Seq<u8>)
    ensures
        0 <= spec_hex_val(s) < pow16(s.len()),
    decreases s.len(),
{
    if s.len() > 0 {
        lemma_hex_val_bound(s.drop_last());
    }
}

fn hex_digit(b: u8) -> (r: Option<u8>)
    ensures
        r == spec_hex_digit(b),
{
    if 48u8 <= b && b <= 57u8 {
        Some(b - 48u8)
    } else if 97u8 <= b && b <= 102u8 {
        Some(b - 97u8 + 10)
    } else if 65u8 <= b && b <= 70u8 {
        Some(b - 65u8 + 10)
    } else {
        None
    }
}

/// Parse a product id given as one to four hexadecimal digits, as the
/// catalog writes them.
pub fn parse_hex_u16(s: &str) -> (r: Option<u16>)
    ensures
        r == spec_hex_u16(encode_utf8(s@)),
{
    let bytes: &[u8] = s.as_bytes();
    let ghost bs = encode_utf8(s@);
    if bytes.len() == 0 || bytes.len() > 4 {
        return None;
    }
    let mut val: u16 = 0;
    let mut i: usize = 0;
    while i < bytes.len()
        invariant
            bs == bytes@,
            bs == encode_utf8(s@),
            1 <= bytes@.len() <= 4,
            i <= bytes@.len(),
            all_hex_digits(bs.subrange(0, i as int)),
            val == spec_hex_val(bs.subrange(0, i as int)),
            val < 0x1000 || i == bytes@.len(),
        decreases bytes@.len() - i,
    {
        proof {
            lemma_hex_val_bound(bs.subrange(0, i as int));
            assert(pow16(0) == 1);
            assert(pow16(1) == 16);
            assert(pow16(2) == 256);
            assert(pow16(3) == 4096);
        }
        match hex_digit(bytes[i]) {
            Some(d) => {
                val = val * 16 + (d as u16);
            },
            None => {
                proof {
                    assert(spec_hex_digit(bs[i as int]) is None);
                    assert(!all_hex_digits(bs));
                }
                return None;
            },
        }
        i = i + 1;
        proof {
            assert(bs.subrange(0, i as int).drop_last() =~= bs.subrange(0, i - 1));
        }
    }
    proof {
        assert(bs.subrange(0, i as int) =~= bs);
    }
    Some(val)
}

/// First catalog entry whose product id denotes the probed USB product id.
pub fn match_supported_device(devices: &Vec<SupportedDevice>, product_id: u16) -> (r: Option<
    usize,
>)
    ensures
        r matches Some(i) ==> {
            &&& i < devices@.len()
            &&& spec_hex_u16(encode_utf8(devices@[i as int].pid@)) == Some(product_id)
            &&& forall|j: int|
                0 <= j < i ==> #[trigger] spec_hex_u16(encode_utf8(devices@[j].pid@)) != Some(
                    product_id,
                )
        },
        r is None ==> forall|j: int|
            0 <= j < devices@.len() ==> #[trigger] spec_hex_u16(encode_utf8(devices@[j].pid@))
                != Some(product_id),
{
    let mut i: usize = 0;
    while i < devices.len()
        invariant
            i <= devices@.len(),
            forall|j: int|
                0 <= j < i ==> #[trigger] spec_hex_u16(encode_utf8(devices@[j].pid@)) != Some(
                    product_id,
                ),
        decreases devices@.len() - i,
    {
        match parse_hex_u16(devices[i].pid.as_str()) {
            Some(pid) => {
                if pid == product_id {
                    return Some(i);
                }
            },
            None => {},
        }
        i = i + 1;
    }
    None
}

// ---------------------------------------------------------------------------
// Command packets
// ---------------------------------------------------------------------------

/// Set the power level of one zone; the last argument says whether a manual
/// fan speed is in force.
pub open spec fn set_power_packet(zone: u8, power: u8, fan_rpm: u8) -> PacketModel {
    PacketModel::with_args(
        0x0d,
        0x02,
        0x04,
        seq![0u8, zone, power, if fan_rpm == 0 { 0u8 } else { 1u8 }],
    )
}

/// Query the power level of one zone.
pub open spec fn get_power_packet(zone: u8) -> PacketModel {
    PacketModel::with_args(0x0d, 0x82, 0x04, seq![0u8, zone, 0u8, 0u8])
}

/// Set the boost level of one zone (1: CPU, 2: GPU).
pub open spec fn set_boost_packet(zone: u8, boost: u8) -> PacketModel {
    PacketModel::with_args(0x0d, 0x07, 0x03, seq![0u8, zone, boost])
}

/// Query the boost level of one zone.
pub open spec fn get_boost_packet(zone: u8) -> PacketModel {
    PacketModel::with_args(0x0d, 0x87, 0x03, seq![0u8, zone, 0u8])
}

/// Set the fan speed of one zone, in hundreds of RPM.
pub open spec fn set_rpm_packet(zone: u8, fan_rpm: u8) -> PacketModel {
    PacketModel::with_args(0x0d, 0x01, 0x03, seq![0u8, zone, fan_rpm])
}

/// Select a standard (firmware) effect: the effect id, then its raw
/// parameter bytes.
pub open spec fn standard_effect_packet(effect_id: u8, params: Seq<u8>) -> PacketModel {
    PacketModel::with_args(0x03, 0x0a, 80, seq![effect_id] + params)
}

/// Push the colors of one keyboard row (15 keys, 45 bytes) of a custom
/// frame.
pub open spec fn custom_frame_data_packet(row: u8, data: Seq<u8>) -> PacketModel {
    PacketModel::with_args(0x03, 0x0b, 0x34, seq![0xffu8, row, 0x00u8, 0x0fu8, 0u8, 0u8, 0u8] + data)
}

/// Commit the previously pushed custom frame rows to the keyboard.
pub open spec fn custom_frame_packet() -> PacketModel {
    PacketModel::with_args(0x03, 0x0a, 0x02, seq![EFFECT_CUSTOMFRAME, NOSTORE])
}

/// Build the request carrying one custom-frame row; rows are 15 keys of
/// three bytes each, and anything else is refused.
pub fn custom_frame_data_request(row: u8, data: &Vec<u8>) -> (r: Option<RazerPacket>)
    ensures
        r is Some <==> data@.len() == 45,
        r matches Some(p) ==> p@ == custom_frame_data_packet(row, data@) && p@.wf(),
{
    if data.len() != 45 {
        return None;
    }
    let mut prefix: Vec<u8> = Vec::new();
    prefix.push(0xff);
    prefix.push(row);
    prefix.push(0x00);
    prefix.push(0x0f);
    prefix.push(0x00);
    prefix.push(0x00);
    prefix.push(0x00);
    let mut idx: usize = 0;
    while idx < data.len()
        invariant
            data@.len() == 45,
            idx <= 45,
            prefix@ =~= seq![0xffu8, row, 0x00u8, 0x0fu8, 0u8, 0u8, 0u8] + data@.subrange(
                0,
                idx as int,
            ),
        decreases data@.len() - idx,
    {
        prefix.push(data[idx]);
        idx = idx + 1;
    }
    proof {
        assert(prefix@ =~= seq![0xffu8, row, 0x00u8, 0x0fu8, 0u8, 0u8, 0u8] + data@);
    }
    Some(RazerPacket::with_args(0x03, 0x0b, 0x34, prefix))
}

/// Build the request selecting a standard (firmware) effect: the id byte,
/// then the caller's raw parameter bytes. Parameter-count validation is the
/// caller's duty; only the wire limit is demanded here.
pub fn standard_effect_request(effect_id: u8, params: &Vec<u8>) -> (r: RazerPacket)
    requires
        params@.len() < 80,
    ensures
        r@ == standard_effect_packet(effect_id, params@),
        r@.wf(),
{
    let mut prefix: Vec<u8> = Vec::new();
    prefix.push(effect_id);
    let mut idx: usize = 0;
    while idx < params.len()
        invariant
            params@.len() < 80,
            idx <= params@.len(),
            prefix@ =~= seq![effect_id] + params@.subrange(0, idx as int),
        decreases params@.len() - idx,
    {
        prefix.push(params[idx]);
        idx = idx + 1;
    }
    proof {
        assert(prefix@ =~= seq![effect_id] + params@);
    }
    RazerPacket::with_args(0x03, 0x0a, 80, prefix)
}

/// Build the request committing a pushed custom frame.
pub fn custom_frame_request() -> (r: RazerPacket)
    ensures
        r@ == custom_frame_packet(),
        r@.wf(),
{
    let mut prefix: Vec<u8> = Vec::new();
    prefix.push(EFFECT_CUSTOMFRAME);
    prefix.push(NOSTORE);
    proof {
        assert(prefix@ =~= seq![EFFECT_CUSTOMFRAME, NOSTORE]);
    }
    RazerPacket::with_args(0x03, 0x0a, 0x02, prefix)
}

/// Select the logo sub-mode; sent only before enabling modes above off.
pub open spec fn logo_submode_packet(mode: u8) -> PacketModel {
    PacketModel::with_args(
        0x03,
        0x02,
        0x03,
        seq![VARSTORE, LOGO_LED, if mode == 2 { 0x02u8 } else { 0x00u8 }],
    )
}

/// Enable or disable the logo LED; the enable byte is the mode clamped to
/// zero or one whatever sub-mode was requested.
pub open spec fn logo_state_packet(mode: u8) -> PacketModel {
    PacketModel::with_args(
        0x03,
        0x00,
        0x03,
        seq![VARSTORE, LOGO_LED, if mode > 1 { 1u8 } else { mode }],
    )
}

/// Query the logo LED state.
pub open spec fn get_logo_packet() -> PacketModel {
    PacketModel::with_args(0x03, 0x82, 0x03, seq![VARSTORE, LOGO_LED])
}

/// Set the keyboard backlight brightness (device units, 0 to 255).
pub open spec fn brightness_packet(brightness: u8) -> PacketModel {
    PacketModel::with_args(0x03, 0x03, 0x03, seq![VARSTORE, BACKLIGHT_LED, brightness])
}

/// Query the keyboard backlight brightness.
pub open spec fn get_brightness_packet() -> PacketModel {
    PacketModel::with_args(0x03, 0x83, 0x03, seq![VARSTORE, BACKLIGHT_LED, 0u8])
}

/// Query the battery-health optimizer byte.
pub open spec fn get_bho_packet() -> PacketModel {
    PacketModel::with_args(0x07, 0x92, 0x01, seq![0u8])
}

/// Set the battery-health optimizer byte.
pub open spec fn set_bho_packet(is_on: bool, threshold: u8) -> PacketModel {
    PacketModel::with_args(0x07, 0x12, 0x01, seq![spec_bho_to_byte(is_on, threshold)])
}

// ---------------------------------------------------------------------------
// The laptop session
// ---------------------------------------------------------------------------

/// Requested fan speed clamped into a fan range.
pub open spec fn spec_clamped_rpm(rpm: u16, lo: u16, hi: u16) -> u16 {
    if rpm > hi {
        hi
    } else if rpm < lo {
        lo
    } else {
        rpm
    }
}

/// The fan speed a request targets: zero requests the automatic fan,
/// anything else is clamped into the device's range.
pub open spec fn spec_fan_target(value: u16, lo: u16, hi: u16) -> u16 {
    if value == 0 {
        0
    } else {
        spec_clamped_rpm(value, lo, hi)
    }
}

/// A nonzero requested fan speed is always clamped into the device's range,
/// and a zero request always selects the automatic fan.
pub proof fn lemma_fan_target_clamped(value: u16, lo: u16, hi: u16)
    requires
        lo <= hi,
    ensures
        value != 0 ==> lo <= spec_fan_target(value, lo, hi) <= hi,
        spec_fan_target(0, lo, hi) == 0,
{
}

/// Session state bound to one open laptop: its catalog data plus the cached
/// fields later commands depend on. The open HID handle itself stays with
/// the unverified shell; each method here only plans the packets the shell
/// must exchange.
pub struct RazerLaptop {
    pub name: String,
    pub features: Vec<String>,
    /// Fan RPM range as a two-element list: minimum, then maximum.
    pub fan: Vec<u16>,
    /// Last power mode sent; fan packets re-send it.
    pub power: u8,
    /// Last manual fan speed sent, in hundreds of RPM; zero means automatic.
    pub fan_rpm: u8,
    /// Which power source is active: 0 battery, 1 mains.
    pub ac_state: u8,
    /// The screen is blanked, so lighting is held dark.
    pub screensaver: bool,
}

/// The CPU boost level actually transmitted: the highest level is lowered by
/// one step on devices without the boost capability.
pub open spec fn spec_effective_cpu_boost(l: RazerLaptop, boost: u8) -> u8 {
    if boost == 3 && !l.spec_has_feature("boost"@) {
        2u8
    } else {
        boost
    }
}

/// The session fields after a power-mode command: presets store the mode;
/// the custom mode also resets the manual fan; anything above mode 4 is
/// ignored.
pub open spec fn spec_power_mode_state(l: RazerLaptop, mode: u8) -> RazerLaptop {
    if mode <= 3 {
        RazerLaptop { power: mode, ..l }
    } else if mode == 4 {
        RazerLaptop { power: 4u8, fan_rpm: 0u8, ..l }
    } else {
        l
    }
}

/// The packets a power-mode command exchanges. Presets set both zones; the
/// custom mode round-trips a query before each set and programs both boost
/// zones.
pub open spec fn spec_power_mode_packets(l: RazerLaptop, mode: u8, cpu: u8, gpu: u8) -> Seq<
    PacketModel,
> {
    if mode <= 3 {
        seq![set_power_packet(1, mode, l.fan_rpm), set_power_packet(2, mode, l.fan_rpm)]
    } else if mode == 4 {
        seq![
            get_power_packet(1),
            set_power_packet(1, 4, 0),
            get_boost_packet(1),
            set_boost_packet(1, spec_effective_cpu_boost(l, cpu)),
            get_boost_packet(2),
            set_boost_packet(2, gpu),
            get_power_packet(2),
            set_power_packet(2, 4, 0),
        ]
    } else {
        Seq::empty()
    }
}

/// The stored manual fan field after a fan command: zero verbatim, anything
/// else clamped into range and divided by 100 (kept modulo 256, as the
/// one-byte field holds it).
pub open spec fn spec_stored_fan(l: RazerLaptop, value: u16) -> u8 {
    ((spec_fan_target(value, l.fan@[0], l.fan@[1]) as int / 100) % 256) as u8
}

/// The session fields after a fan command: a no-op while the custom power
/// mode is in force.
pub open spec fn spec_fan_rpm_state(l: RazerLaptop, value: u16) -> RazerLaptop {
    if l.power != 4 {
        RazerLaptop { fan_rpm: spec_stored_fan(l, value), ..l }
    } else {
        l
    }
}

/// The packets a fan command exchanges: for each zone a power query, the
/// power re-send, and — only for a manual speed — the RPM packet.
pub open spec fn spec_fan_rpm_packets(l: RazerLaptop, value: u16) -> Seq<PacketModel> {
    if l.power != 4 {
        let nf = spec_stored_fan(l, value);
        seq![get_power_packet(1), set_power_packet(1, l.power, nf)] + (if value != 0 {
            seq![set_rpm_packet(1, nf)]
        } else {
            Seq::empty()
        }) + seq![get_power_packet(2), set_power_packet(2, l.power, nf)] + (if value != 0 {
            seq![set_rpm_packet(2, nf)]
        } else {
            Seq::empty()
        })
    } else {
        Seq::empty()
    }
}

/// The packets a logo command exchanges: modes above off first select the
/// sub-mode, then every mode sends the enable packet.
pub open spec fn spec_logo_packets(mode: u8) -> Seq<PacketModel> {
    if mode > 0 {
        seq![logo_submode_packet(mode), logo_state_packet(mode)]
    } else {
        seq![logo_state_packet(mode)]
    }
}

/// The low sixteen bits of a requested fan speed, as casting the signed
/// value to the wire's unsigned width keeps them.
pub open spec fn spec_low16(x: int) -> int {
    x % 0x10000
}

/// Reduce a requested fan speed to the unsigned width the session takes.
pub fn rpm_to_u16(rpm: i32) -> (r: u16)
    ensures
        r as int == spec_low16(rpm as int),
{
    let m: i32 = rpm % 0x10000;
    if m < 0 {
        (m + 0x10000) as u16
    } else {
        m as u16
    }
}

/// The packets replaying one power source's stored settings exchanges:
/// brightness and logo first (dark while the screen is blanked), then the
/// power-mode plan, then the fan plan against the session the power-mode
/// command leaves.
pub open spec fn spec_set_config_packets(l: RazerLaptop, config: PowerConfig) -> Seq<PacketModel> {
    let bright = if l.screensaver {
        0u8
    } else {
        config.brightness
    };
    let logo = if l.screensaver {
        0u8
    } else {
        config.logo_state
    };
    seq![brightness_packet(bright)] + spec_logo_packets(logo) + spec_power_mode_packets(
        l,
        config.power_mode,
        config.cpu_boost,
        config.gpu_boost,
    ) + spec_fan_rpm_packets(
        spec_power_mode_state(l, config.power_mode),
        spec_low16(config.fan_rpm as int) as u16,
    )
}

/// The session fields after replaying one power source's stored settings.
pub open spec fn spec_set_config_state(l: RazerLaptop, config: PowerConfig) -> RazerLaptop {
    spec_fan_rpm_state(
        spec_power_mode_state(l, config.power_mode),
        spec_low16(config.fan_rpm as int) as u16,
    )
}

impl RazerLaptop {
    /// The fan range always has its two entries.
    pub open spec fn wf(self) -> bool {
        self.fan@.len() == 2
    }

    /// The session names a capability of the bound laptop.
    pub open spec fn spec_has_feature(self, f: Seq<char>) -> bool {
        seq_contains_string(self.features@, f)
    }

    /// Bind a fresh session: no power mode sent yet, automatic fan, battery
    /// assumed, screen on.
    pub fn new(name: String, features: Vec<String>, fan: Vec<u16>) -> (r: RazerLaptop)
        requires
            fan@.len() == 2,
        ensures
            r == (RazerLaptop {
                name: name,
                features: features,
                fan: fan,
                power: 0u8,
                fan_rpm: 0u8,
                ac_state: 0u8,
                screensaver: false,
            }),
            r.wf(),
    {
        RazerLaptop { name, features, fan, power: 0, fan_rpm: 0, ac_state: 0, screensaver: false }
    }

    /// Remember whether the screen is blanked.
    pub fn set_screensaver(&mut self, active: bool)
        ensures
            *final(self) == (RazerLaptop { screensaver: active, ..*old(self) }),
    {
        self.screensaver = active;
    }

    /// Remember the active power source; returns its settings index.
    pub fn set_ac_state(&mut self, online: bool) -> (r: usize)
        ensures
            *final(self) == (RazerLaptop {
                ac_state: if online { 1u8 } else { 0u8 },
                ..*old(self)
            }),
            r == final(self).ac_state as usize,
    {
        if online {
            self.ac_state = 1;
        } else {
            self.ac_state = 0;
        }
        self.ac_state as usize
    }

    /// Settings index of the active power source.
    pub fn get_ac_state(&self) -> (r: usize)
        ensures
            r == self.ac_state as usize,
    {
        self.ac_state as usize
    }

    /// Display name of the bound laptop.
    pub fn get_name(&self) -> (r: String)
        ensures
            r@ == self.name@,
    {
        self.name.clone()
    }

    /// The bound laptop names a capability.
    pub fn have_feature(&self, fch: &str) -> (r: bool)
        ensures
            r == self.spec_has_feature(fch@),
    {
        contains_str(&self.features, fch)
    }

    /// Clamp a requested fan speed into the device's range and convert it to
    /// the hundreds-of-RPM byte the wire carries.
    pub fn clamp_fan(&self, rpm: u16) -> (r: u8)
        requires
            self.wf(),
        ensures
            r == ((spec_clamped_rpm(rpm, self.fan@[0], self.fan@[1]) as int / 100) % 256) as u8,
    {
        if rpm > self.fan[1] {
            return ((self.fan[1] / 100) % 256) as u8;
        }
        if rpm < self.fan[0] {
            return ((self.fan[0] / 100) % 256) as u8;
        }
        ((rpm / 100) % 256) as u8
    }

    /// Clamp a byte into an inclusive range.
    pub fn clamp_u8(&self, value: u8, min: u8, max: u8) -> (r: u8)
        ensures
            r == (if value > max {
                max
            } else if value < min {
                min
            } else {
                value
            }),
    {
        if value > max {
            return max;
        }
        if value < min {
            return min;
        }
        value
    }

    /// Replay one power source's stored settings to the device: brightness
    /// and logo (held dark while the screen is blanked), then the power mode
    /// with its boost levels, then the fan speed. The cached session fields
    /// change exactly as the power-mode and fan commands say.
    pub fn set_config(&mut self, config: PowerConfig) -> (pkts: Vec<RazerPacket>)
        requires
            old(self).wf(),
        ensures
            final(self).wf(),
            *final(self) == spec_set_config_state(*old(self), config),
            models(pkts@) == spec_set_config_packets(*old(self), config),
    {
        let mut pkts: Vec<RazerPacket> = Vec::new();
        let bright: u8 = if self.screensaver {
            0
        } else {
            config.brightness
        };
        let logo: u8 = if self.screensaver {
            0
        } else {
            config.logo_state
        };
        pkts.push(self.set_brightness(bright));
        let mut logo_pkts = self.set_logo_led_state(logo);
        pkts.append(&mut logo_pkts);
        let (_, mut power_pkts) = self.set_power_mode(
            config.power_mode,
            config.cpu_boost,
            config.gpu_boost,
        );
        pkts.append(&mut power_pkts);
        let (_, mut fan_pkts) = self.set_fan_rpm(rpm_to_u16(config.fan_rpm));
        pkts.append(&mut fan_pkts);
        proof {
            assert(models(pkts@) =~= spec_set_config_packets(*old(self), config));
        }
        pkts
    }

    /// Plan the packet selecting a standard (firmware) effect: the id byte,
    /// then the caller's raw parameter bytes. Parameter-count validation is
    /// the caller's duty; only the wire limit is demanded here.
    pub fn set_standard_effect(&self, effect_id: u8, params: &Vec<u8>) -> (r: RazerPacket)
        requires
            params@.len() < 80,
        ensures
            r@ == standard_effect_packet(effect_id, params@),
            r@.wf(),
    {
        standard_effect_request(effect_id, params)
    }

    /// Plan the packet carrying one custom-frame row; rows are 15 keys of
    /// three bytes each, and anything else is refused.
    pub fn set_custom_frame_data(&self, row: u8, data: &Vec<u8>) -> (r: Option<RazerPacket>)
        ensures
            r is Some <==> data@.len() == 45,
            r matches Some(p) ==> p@ == custom_frame_data_packet(row, data@) && p@.wf(),
    {
        custom_frame_data_request(row, data)
    }

    /// Plan the packet committing a pushed custom frame.
    pub fn set_custom_frame(&self) -> (r: RazerPacket)
        ensures
            r@ == custom_frame_packet(),
            r@.wf(),
    {
        custom_frame_request()
    }

    /// Plan the query for one zone's power level; the response carries the
    /// level in argument byte 2.
    pub fn get_power_mode(&self, zone: u8) -> (r: RazerPacket)
        ensures
            r@ == get_power_packet(zone),
            r@.wf(),
    {
        let mut prefix: Vec<u8> = Vec::new();
        prefix.push(0x00);
        prefix.push(zone);
        prefix.push(0x00);
        prefix.push(0x00);
        proof {
            assert(prefix@ =~= seq![0u8, zone, 0u8, 0u8]);
        }
        RazerPacket::with_args(0x0d, 0x82, 0x04, prefix)
    }

    /// Plan the packet setting one zone's power level from the cached
    /// session fields.
    pub fn set_power(&self, zone: u8) -> (r: RazerPacket)
        ensures
            r@ == set_power_packet(zone, self.power, self.fan_rpm),
            r@.wf(),
    {
        let mut prefix: Vec<u8> = Vec::new();
        prefix.push(0x00);
        prefix.push(zone);
        prefix.push(self.power);
        if self.fan_rpm == 0 {
            prefix.push(0x00);
        } else {
            prefix.push(0x01);
        }
        proof {
            assert(prefix@ =~= seq![
                0u8,
                zone,
                self.power,
                if self.fan_rpm == 0 {
                    0u8
                } else {
                    1u8
                },
            ]);
        }
        RazerPacket::with_args(0x0d, 0x02, 0x04, prefix)
    }

    /// Plan the query for the CPU boost level; the response carries the
    /// level in argument byte 2.
    pub fn get_cpu_boost(&self) -> (r: RazerPacket)
        ensures
            r@ == get_boost_packet(1),
            r@.wf(),
    {
        self.get_boost(0x01)
    }

    /// Plan the query for the GPU boost level; the response carries the
    /// level in argument byte 2.
    pub fn get_gpu_boost(&self) -> (r: RazerPacket)
        ensures
            r@ == get_boost_packet(2),
            r@.wf(),
    {
        self.get_boost(0x02)
    }

    fn get_boost(&self, zone: u8) -> (r: RazerPacket)
        ensures
            r@ == get_boost_packet(zone),
            r@.wf(),
    {
        let mut prefix: Vec<u8> = Vec::new();
        prefix.push(0x00);
        prefix.push(zone);
        prefix.push(0x00);
        proof {
            assert(prefix@ =~= seq![0u8, zone, 0u8]);
        }
        RazerPacket::with_args(0x0d, 0x87, 0x03, prefix)
    }

    /// Plan the packet setting the CPU boost level; the highest level is
    /// lowered to the next one on devices without the boost capability.
    pub fn set_cpu_boost(&self, boost: u8) -> (r: RazerPacket)
        ensures
            r@ == set_boost_packet(1, spec_effective_cpu_boost(*self, boost)),
            r@.wf(),
    {
        let eff: u8 = if boost == 3 && !self.have_feature("boost") {
            2
        } else {
            boost
        };
        self.set_boost(0x01, eff)
    }

    /// Plan the packet setting the GPU boost level.
    pub fn set_gpu_boost(&self, boost: u8) -> (r: RazerPacket)
        ensures
            r@ == set_boost_packet(2, boost),
            r@.wf(),
    {
        self.set_boost(0x02, boost)
    }

    fn set_boost(&self, zone: u8, boost: u8) -> (r: RazerPacket)
        ensures
            r@ == set_boost_packet(zone, boost),
            r@.wf(),
    {
        let mut prefix: Vec<u8> = Vec::new();
        prefix.push(0x00);
        prefix.push(zone);
        prefix.push(boost);
        proof {
            assert(prefix@ =~= seq![0u8, zone, boost]);
        }
        RazerPacket::with_args(0x0d, 0x07, 0x03, prefix)
    }

    /// Apply a power-mode command: update the cached fields and plan the
    /// exchanged packets. The command always reports success.
    pub fn set_power_mode(&mut self, mode: u8, cpu_boost: u8, gpu_boost: u8) -> (r: (
        bool,
        Vec<RazerPacket>,
    ))
        requires
            old(self).wf(),
        ensures
            r.0 == true,
            *final(self) == spec_power_mode_state(*old(self), mode),
            final(self).wf(),
            models(r.1@) == spec_power_mode_packets(*old(self), mode, cpu_boost, gpu_boost),
    {
        let mut pkts: Vec<RazerPacket> = Vec::new();
        if mode <= 3 {
            self.power = mode;
            pkts.push(self.set_power(0x01));
            pkts.push(self.set_power(0x02));
            proof {
                assert(models(pkts@) =~= spec_power_mode_packets(
                    *old(self),
                    mode,
                    cpu_boost,
                    gpu_boost,
                ));
            }
        } else if mode == 4 {
            self.power = 4;
            self.fan_rpm = 0;
            pkts.push(self.get_power_mode(0x01));
            pkts.push(self.set_power(0x01));
            pkts.push(self.get_cpu_boost());
            pkts.push(self.set_cpu_boost(cpu_boost));
            pkts.push(self.get_gpu_boost());
            pkts.push(self.set_gpu_boost(gpu_boost));
            pkts.push(self.get_power_mode(0x02));
            pkts.push(self.set_power(0x02));
            proof {
                assert(models(pkts@) =~= spec_power_mode_packets(
                    *old(self),
                    mode,
                    cpu_boost,
                    gpu_boost,
                ));
            }
        } else {
            proof {
                assert(models(pkts@) =~= spec_power_mode_packets(
                    *old(self),
                    mode,
                    cpu_boost,
                    gpu_boost,
                ));
            }
        }
        (true, pkts)
    }

    /// Plan the packet setting one zone's fan speed from the cached manual
    /// fan field.
    pub fn set_rpm(&self, zone: u8) -> (r: RazerPacket)
        ensures
            r@ == set_rpm_packet(zone, self.fan_rpm),
            r@.wf(),
    {
        let mut prefix: Vec<u8> = Vec::new();
        prefix.push(0x00);
        prefix.push(zone);
        prefix.push(self.fan_rpm);
        proof {
            assert(prefix@ =~= seq![0u8, zone, self.fan_rpm]);
        }
        RazerPacket::with_args(0x0d, 0x01, 0x03, prefix)
    }

    /// Apply a fan-speed command: store the clamped speed (zero selects the
    /// automatic fan) and plan the exchanged packets. While the custom power
    /// mode is in force the command is a documented no-op that still reports
    /// success.
    pub fn set_fan_rpm(&mut self, value: u16) -> (r: (bool, Vec<RazerPacket>))
        requires
            old(self).wf(),
        ensures
            r.0 == true,
            *final(self) == spec_fan_rpm_state(*old(self), value),
            final(self).wf(),
            models(r.1@) == spec_fan_rpm_packets(*old(self), value),
    {
        let mut pkts: Vec<RazerPacket> = Vec::new();
        if self.power != 4 {
            if value == 0 {
                self.fan_rpm = 0;
            } else {
                self.fan_rpm = self.clamp_fan(value);
            }
            pkts.push(self.get_power_mode(0x01));
            pkts.push(self.set_power(0x01));
            if value != 0 {
                pkts.push(self.set_rpm(0x01));
            }
            pkts.push(self.get_power_mode(0x02));
            pkts.push(self.set_power(0x02));
            if value != 0 {
                pkts.push(self.set_rpm(0x02));
            }
            proof {
                assert(models(pkts@) =~= spec_fan_rpm_packets(*old(self), value));
            }
        } else {
            proof {
                assert(models(pkts@) =~= spec_fan_rpm_packets(*old(self), value));
            }
        }
        (true, pkts)
    }

    /// The manual fan speed in force, back in RPM; zero means automatic.
    pub fn get_fan_rpm(&self) -> (r: u16)
        ensures
            r == self.fan_rpm * 100,
    {
        let res: u16 = self.fan_rpm as u16;
        res * 100
    }

    /// Plan the packets of a logo command; the reported result is the
    /// success of the final enable packet.
    pub fn set_logo_led_state(&self, mode: u8) -> (r: Vec<RazerPacket>)
        ensures
            models(r@) == spec_logo_packets(mode),
            r@.len() > 0,
    {
        let mut pkts: Vec<RazerPacket> = Vec::new();
        if mode > 0 {
            let mut sub: Vec<u8> = Vec::new();
            sub.push(VARSTORE);
            sub.push(LOGO_LED);
            if mode == 2 {
                sub.push(0x02);
            } else {
                sub.push(0x00);
            }
            proof {
                assert(sub@ =~= seq![
                    VARSTORE,
                    LOGO_LED,
                    if mode == 2 {
                        0x02u8
                    } else {
                        0x00u8
                    },
                ]);
            }
            pkts.push(RazerPacket::with_args(0x03, 0x02, 0x03, sub));
        }
        let mut main: Vec<u8> = Vec::new();
        main.push(VARSTORE);
        main.push(LOGO_LED);
        main.push(self.clamp_u8(mode, 0x00, 0x01));
        proof {
            assert(main@ =~= seq![
                VARSTORE,
                LOGO_LED,
                if mode > 1 {
                    1u8
                } else {
                    mode
                },
            ]);
        }
        pkts.push(RazerPacket::with_args(0x03, 0x00, 0x03, main));
        proof {
            assert(models(pkts@) =~= spec_logo_packets(mode));
        }
        pkts
    }

    /// Plan the query for the logo LED state; the response carries the state
    /// in argument byte 2.
    pub fn get_logo_led_state(&self) -> (r: RazerPacket)
        ensures
            r@ == get_logo_packet(),
            r@.wf(),
    {
        let mut prefix: Vec<u8> = Vec::new();
        prefix.push(VARSTORE);
        prefix.push(LOGO_LED);
        proof {
            assert(prefix@ =~= seq![VARSTORE, LOGO_LED]);
        }
        RazerPacket::with_args(0x03, 0x82, 0x03, prefix)
    }

    /// Plan the packet setting the keyboard backlight brightness.
    pub fn set_brightness(&self, brightness: u8) -> (r: RazerPacket)
        ensures
            r@ == brightness_packet(brightness),
            r@.wf(),
    {
        let mut prefix: Vec<u8> = Vec::new();
        prefix.push(VARSTORE);
        prefix.push(BACKLIGHT_LED);
        prefix.push(brightness);
        proof {
            assert(prefix@ =~= seq![VARSTORE, BACKLIGHT_LED, brightness]);
        }
        RazerPacket::with_args(0x03, 0x03, 0x03, prefix)
    }

    /// Plan the query for the keyboard backlight brightness; the response
    /// carries it in argument byte 2.
    pub fn get_brightness(&self) -> (r: RazerPacket)
        ensures
            r@ == get_brightness_packet(),
            r@.wf(),
    {
        let mut prefix: Vec<u8> = Vec::new();
        prefix.push(VARSTORE);
        prefix.push(BACKLIGHT_LED);
        prefix.push(0x00);
        proof {
            assert(prefix@ =~= seq![VARSTORE, BACKLIGHT_LED, 0u8]);
        }
        RazerPacket::with_args(0x03, 0x83, 0x03, prefix)
    }

    /// Plan the battery-health query. Only devices with the capability get a
    /// packet; on the rest the command reports unsupported without any
    /// exchange. The response carries the packed byte in argument byte 0.
    pub fn get_bho(&self) -> (r: Option<RazerPacket>)
        ensures
            r is Some <==> self.spec_has_feature("bho"@),
            r matches Some(p) ==> p@ == get_bho_packet() && p@.wf(),
    {
        if !self.have_feature("bho") {
            return None;
        }
        let mut prefix: Vec<u8> = Vec::new();
        prefix.push(0x00);
        proof {
            assert(prefix@ =~= seq![0u8]);
        }
        Some(RazerPacket::with_args(0x07, 0x92, 0x01, prefix))
    }

    /// Plan the battery-health setting. Only devices with the capability and
    /// a threshold that passes [`valid_bho_threshold`] get a packet; on
    /// every other input the command is rejected before any exchange.
    pub fn set_bho(&self, is_on: bool, threshold: u8) -> (r: Option<RazerPacket>)
        ensures
            r is Some <==> self.spec_has_feature("bho"@) && threshold % 5 == 0 && 50 <= threshold
                <= 80,
            r matches Some(p) ==> p@ == set_bho_packet(is_on, threshold) && p@.wf(),
    {
        if !self.have_feature("bho") {
            return None;
        }
        if !valid_bho_threshold(threshold) {
            return None;
        }
        let mut prefix: Vec<u8> = Vec::new();
        prefix.push(bho_to_byte(is_on, threshold));
        proof {
            assert(prefix@ =~= seq![spec_bho_to_byte(is_on, threshold)]);
        }
        Some(RazerPacket::with_args(0x07, 0x12, 0x01, prefix))
    }
}

} // verus!
