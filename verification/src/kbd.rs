//! The keyboard lighting engine: effect variants, per-tick rendering, the
//! layered compositor, and the save format of the effect stack.
//!
//! The keyboard is a grid of 90 keys, six rows of fifteen. An effect is a
//! deterministic function from its parameters, the animation tick and a key
//! position to a color; a layer pairs an effect with the mask of keys it
//! drives; the compositor resolves overlap by letting the layer pushed last
//! win. A fixed-period ticker advances the animation; each tick yields one
//! custom-frame packet per row plus the commit packet.

use vstd::prelude::*;
use vstd::pervasive::VecAdditionalExecFns;
use crate::packet::{models, PacketModel, RazerPacket};
use crate::device::{
    custom_frame_data_packet,
    custom_frame_data_request,
    custom_frame_packet,
    custom_frame_request,
};

verus! {

/// Milliseconds between animation ticks.
pub const ANIMATION_SLEEP_MS: u64 = 33;

/// Keys per keyboard row.
pub const KEYS_PER_ROW: usize = 15;

/// Rows on the keyboard.
pub const KEY_ROWS: usize = 6;

/// Keys on the whole keyboard.
pub const TOTAL_KEYS: usize = 90;

/// One key's color.
#[derive(Clone, Copy, PartialEq, Eq, Structural, Debug)]
pub struct Color {
    pub r: u8,
    pub g: u8,
    pub b: u8,
}

/// The color of a key nothing drives.
pub open spec fn spec_black() -> Color {
    Color { r: 0, g: 0, b: 0 }
}

/// One lighting effect and its parameters. Each variant renders
/// deterministically from (parameters, tick, key position) alone.
#[derive(Clone, Copy, PartialEq, Eq, Structural, Debug)]
pub enum Effect {
    /// Every key the same fixed color.
    Static { color: Color },
    /// A fixed left-to-right blend between two colors.
    StaticGradient { start: Color, end: Color },
    /// The same blend, sliding one column per tick.
    WaveGradient { start: Color, end: Color },
    /// One color breathing: brightness follows a triangle wave whose period
    /// is the duration parameter in tenths of a second.
    BreathSingle { color: Color, duration: u8 },
}

/// Blend between `a` (column 0) and `b` (column 14), linearly in the column.
pub open spec fn spec_lerp14(a: u8, b: u8, col: int) -> u8 {
    ((a * (14 - col) + b * col) / 14) as u8
}

/// Per-channel blend of two colors across the fifteen columns.
pub open spec fn spec_gradient_color(s: Color, e: Color, col: int) -> Color {
    Color {
        r: spec_lerp14(s.r, e.r, col),
        g: spec_lerp14(s.g, e.g, col),
        b: spec_lerp14(s.b, e.b, col),
    }
}

/// Milliseconds into the current breathing period.
pub open spec fn spec_breath_phase(duration: u8, tick: u64) -> int {
    (tick as int * ANIMATION_SLEEP_MS as int) % (duration as int * 100)
}

/// Breathing brightness, 0 to 255: a triangle wave over the period — up
/// during the first half, down during the second — continuous and periodic
/// in the tick. A zero duration renders at full brightness.
pub open spec fn spec_breath_factor(duration: u8, tick: u64) -> int {
    if duration == 0 {
        255
    } else {
        let period = duration as int * 100;
        let phase = spec_breath_phase(duration, tick);
        if 2 * phase < period {
            (510 * phase) / period
        } else {
            (510 * (period - phase)) / period
        }
    }
}

/// One channel scaled by the breathing brightness.
pub open spec fn spec_scale255(c: u8, factor: int) -> u8 {
    ((c * factor) / 255) as u8
}

/// A color scaled by the breathing brightness.
pub open spec fn spec_breath_color(c: Color, duration: u8, tick: u64) -> Color {
    let f = spec_breath_factor(duration, tick);
    Color { r: spec_scale255(c.r, f), g: spec_scale255(c.g, f), b: spec_scale255(c.b, f) }
}

impl Effect {
    /// The color this effect gives one key at one tick.
    pub open spec fn spec_render(self, tick: u64, led: int) -> Color {
        match self {
            Effect::Static { color } => color,
            Effect::StaticGradient { start, end } => spec_gradient_color(start, end, led % 15),
            Effect::WaveGradient { start, end } => spec_gradient_color(
                start,
                end,
                (led % 15 + tick as int % 15) % 15,
            ),
            Effect::BreathSingle { color, duration } => spec_breath_color(color, duration, tick),
        }
    }

    /// A static effect from raw parameter bytes: red, green, blue.
    pub fn new_static(params: &Vec<u8>) -> (r: Option<Effect>)
        ensures
            r == spec_new_static(params@),
    {
        if params.len() < 3 {
            return None;
        }
        Some(Effect::Static { color: Color { r: params[0], g: params[1], b: params[2] } })
    }

    /// A static gradient from raw parameter bytes: two colors.
    pub fn new_static_gradient(params: &Vec<u8>) -> (r: Option<Effect>)
        ensures
            r == spec_new_static_gradient(params@),
    {
        if params.len() < 6 {
            return None;
        }
        Some(
            Effect::StaticGradient {
                start: Color { r: params[0], g: params[1], b: params[2] },
                end: Color { r: params[3], g: params[4], b: params[5] },
            },
        )
    }

    /// A wave gradient from raw parameter bytes: two colors.
    pub fn new_wave_gradient(params: &Vec<u8>) -> (r: Option<Effect>)
        ensures
            r == spec_new_wave_gradient(params@),
    {
        if params.len() < 6 {
            return None;
        }
        Some(
            Effect::WaveGradient {
                start: Color { r: params[0], g: params[1], b: params[2] },
                end: Color { r: params[3], g: params[4], b: params[5] },
            },
        )
    }

    /// A breathing effect from raw parameter bytes: a color and the period
    /// in tenths of a second.
    pub fn new_breath_single(params: &Vec<u8>) -> (r: Option<Effect>)
        ensures
            r == spec_new_breath_single(params@),
    {
        if params.len() < 4 {
            return None;
        }
        Some(
            Effect::BreathSingle {
                color: Color { r: params[0], g: params[1], b: params[2] },
                duration: params[3],
            },
        )
    }

    /// The effect a client names, as the control protocol spells the names;
    /// an unknown name or too few parameter bytes is rejected.
    pub fn from_name(name: &String, params: &Vec<u8>) -> (r: Option<Effect>)
        ensures
            r == spec_effect_from_name(name@, params@),
    {
        if name.eq(&"static".to_owned()) {
            Self::new_static(params)
        } else if name.eq(&"static_gradient".to_owned()) {
            Self::new_static_gradient(params)
        } else if name.eq(&"wave_gradient".to_owned()) {
            Self::new_wave_gradient(params)
        } else if name.eq(&"breathing_single".to_owned()) {
            Self::new_breath_single(params)
        } else {
            None
        }
    }

    /// The color this effect gives one key at one tick.
    pub fn render(&self, tick: u64, led: usize) -> (c: Color)
        ensures
            c == self.spec_render(tick, led as int),
    {
        match self {
            Effect::Static { color } => *color,
            Effect::StaticGradient { start, end } => {
                gradient_color(*start, *end, led % 15)
            },
            Effect::WaveGradient { start, end } => {
                let col = (led % 15 + (tick % 15) as usize) % 15;
                gradient_color(*start, *end, col)
            },
            Effect::BreathSingle { color, duration } => breath_color(*color, *duration, tick),
        }
    }
}

/// What [`Effect::new_static`] accepts and builds.
pub open spec fn spec_new_static(params: Seq<u8>) -> Option<Effect> {
    if params.len() >= 3 {
        Some(Effect::Static { color: Color { r: params[0], g: params[1], b: params[2] } })
    } else {
        None
    }
}

/// What [`Effect::new_static_gradient`] accepts and builds.
pub open spec fn spec_new_static_gradient(params: Seq<u8>) -> Option<Effect> {
    if params.len() >= 6 {
        Some(
            Effect::StaticGradient {
                start: Color { r: params[0], g: params[1], b: params[2] },
                end: Color { r: params[3], g: params[4], b: params[5] },
            },
        )
    } else {
        None
    }
}

/// What [`Effect::new_wave_gradient`] accepts and builds.
pub open spec fn spec_new_wave_gradient(params: Seq<u8>) -> Option<Effect> {
    if params.len() >= 6 {
        Some(
            Effect::WaveGradient {
                start: Color { r: params[0], g: params[1], b: params[2] },
                end: Color { r: params[3], g: params[4], b: params[5] },
            },
        )
    } else {
        None
    }
}

/// What [`Effect::new_breath_single`] accepts and builds.
pub open spec fn spec_new_breath_single(params: Seq<u8>) -> Option<Effect> {
    if params.len() >= 4 {
        Some(
            Effect::BreathSingle {
                color: Color { r: params[0], g: params[1], b: params[2] },
                duration: params[3],
            },
        )
    } else {
        None
    }
}

/// What [`Effect::from_name`] accepts and builds.
pub open spec fn spec_effect_from_name(name: Seq<char>, params: Seq<u8>) -> Option<Effect> {
    if name == "static"@ {
        spec_new_static(params)
    } else if name == "static_gradient"@ {
        spec_new_static_gradient(params)
    } else if name == "wave_gradient"@ {
        spec_new_wave_gradient(params)
    } else if name == "breathing_single"@ {
        spec_new_breath_single(params)
    } else {
        None
    }
}

/// Blend one channel between `a` (column 0) and `b` (column 14).
fn lerp14(a: u8, b: u8, col: usize) -> (r: u8)
    requires
        col < 15,
    ensures
        r == spec_lerp14(a, b, col as int),
{
    proof {
        assert(a as int * (14 - col as int) + b as int * (col as int) <= 255 * 14
            && a as int * (14 - col as int) >= 0 && b as int * (col as int) >= 0)
            by (nonlinear_arith)
            requires
                a <= 255 && b <= 255 && 0 <= col < 15,
        ;
    }
    let num: u32 = (a as u32) * (14 - col as u32) + (b as u32) * (col as u32);
    (num / 14) as u8
}

/// Blend two colors at one column.
fn gradient_color(s: Color, e: Color, col: usize) -> (c: Color)
    requires
        col < 15,
    ensures
        c == spec_gradient_color(s, e, col as int),
{
    Color { r: lerp14(s.r, e.r, col), g: lerp14(s.g, e.g, col), b: lerp14(s.b, e.b, col) }
}

/// Scale one channel by a brightness between 0 and 255.
fn scale255(c: u8, factor: u32) -> (r: u8)
    requires
        factor <= 255,
    ensures
        r == spec_scale255(c, factor as int),
{
    proof {
        assert(c as int * factor as int <= 255 * 255) by (nonlinear_arith)
            requires
                c <= 255 && factor <= 255,
        ;
        assert(c as int * factor as int >= 0) by (nonlinear_arith)
            requires
                c <= 255 && factor <= 255,
        ;
    }
    ((c as u32 * factor) / 255) as u8
}

/// Render one breathing color.
fn breath_color(c: Color, duration: u8, tick: u64) -> (r: Color)
    ensures
        r == spec_breath_color(c, duration, tick),
{
    let factor: u32 = breath_factor(duration, tick);
    Color { r: scale255(c.r, factor), g: scale255(c.g, factor), b: scale255(c.b, factor) }
}

/// The breathing brightness at one tick.
fn breath_factor(duration: u8, tick: u64) -> (r: u32)
    ensures
        r == spec_breath_factor(duration, tick),
        r <= 255,
{
    if duration == 0 {
        return 255;
    }
    let period: u64 = (duration as u64) * 100;
    proof {
        vstd::arithmetic::div_mod::lemma_mod_bound(tick as int, period as int);
    }
    let tm: u64 = tick % period;
    let phase: u64 = (tm * ANIMATION_SLEEP_MS) % period;
    proof {
        vstd::arithmetic::div_mod::lemma_mul_mod_noop_general(
            tick as int,
            ANIMATION_SLEEP_MS as int,
            period as int,
        );
    }
    let factor: u64 = if 2 * phase < period {
        proof {
            assert(510 * phase as int <= 255 * period as int) by (nonlinear_arith)
                requires
                    2 * (phase as int) < period as int && (phase as int) >= 0,
            ;
            assert((510 * phase as int) / period as int <= 255) by (nonlinear_arith)
                requires
                    510 * phase as int <= 255 * period as int && period as int > 0 && phase as int
                        >= 0,
            ;
        }
        (510 * phase) / period
    } else {
        proof {
            assert(510 * (period as int - phase as int) <= 255 * period as int)
                by (nonlinear_arith)
                requires
                    2 * (phase as int) >= period as int && (phase as int) < period as int,
            ;
            assert((510 * (period as int - phase as int)) / period as int <= 255)
                by (nonlinear_arith)
                requires
                    510 * (period as int - phase as int) <= 255 * period as int && period as int > 0
                        && period as int - phase as int >= 0,
            ;
        }
        (510 * (period - phase)) / period
    };
    factor as u32
}

// ---------------------------------------------------------------------------
// Layers and the compositor
// ---------------------------------------------------------------------------

/// Model of one layer: an effect and the mask of keys it drives.
#[verifier::ext_equal]
pub ghost struct LayerModel {
    pub effect: Effect,
    pub mask: Seq<bool>,
}

impl LayerModel {
    /// A mask has one entry per key.
    pub open spec fn wf(self) -> bool {
        self.mask.len() == TOTAL_KEYS
    }
}

/// One entry of the effect stack.
#[derive(Debug)]
pub struct EffectLayer {
    pub effect: Effect,
    pub mask: Vec<bool>,
}

impl View for EffectLayer {
    type V = LayerModel;

    open spec fn view(&self) -> LayerModel {
        LayerModel { effect: self.effect, mask: self.mask@ }
    }
}

/// Model of the whole engine: the stack bottom-first, and the tick counter.
#[verifier::ext_equal]
pub ghost struct EffectManagerModel {
    pub layers: Seq<LayerModel>,
    pub ticks: u64,
}

impl EffectManagerModel {
    pub open spec fn wf(self) -> bool {
        forall|i: int| 0 <= i < self.layers.len() ==> #[trigger] self.layers[i].wf()
    }
}

/// The color one key shows: the topmost (last pushed) layer whose mask
/// covers the key renders it; a key no layer covers stays off.
pub open spec fn spec_top_color(stack: Seq<LayerModel>, tick: u64, led: int) -> Color
    decreases stack.len(),
{
    if stack.len() == 0 {
        spec_black()
    } else if stack.last().mask[led] {
        stack.last().effect.spec_render(tick, led)
    } else {
        spec_top_color(stack.drop_last(), tick, led)
    }
}

/// The 45 bytes of one custom-frame row: each of its fifteen keys as red,
/// green, blue.
pub open spec fn spec_row_bytes(stack: Seq<LayerModel>, tick: u64, row: int) -> Seq<u8> {
    Seq::new(
        45,
        |i: int|
            {
                let c = spec_top_color(stack, tick, row * 15 + i / 3);
                if i % 3 == 0 {
                    c.r
                } else if i % 3 == 1 {
                    c.g
                } else {
                    c.b
                }
            },
    )
}

/// The packets one animation tick pushes: one row packet per keyboard row,
/// then the commit packet.
pub open spec fn spec_frame_packets(stack: Seq<LayerModel>, tick: u64) -> Seq<PacketModel> {
    Seq::new(
        7,
        |k: int|
            if k < 6 {
                custom_frame_data_packet(k as u8, spec_row_bytes(stack, tick, k))
            } else {
                custom_frame_packet()
            },
    )
}

/// The 270 bytes a layer query returns: each key's color under that layer
/// alone at the current tick, keys outside its mask off.
pub open spec fn spec_layer_map(l: LayerModel, tick: u64) -> Seq<u8> {
    Seq::new(
        270,
        |i: int|
            {
                if l.mask[i / 3] {
                    let c = l.effect.spec_render(tick, i / 3);
                    if i % 3 == 0 {
                        c.r
                    } else if i % 3 == 1 {
                        c.g
                    } else {
                        c.b
                    }
                } else {
                    0u8
                }
            },
    )
}

/// Copy a vector of plain values.
fn copy_vec<T: Copy>(v: &Vec<T>) -> (r: Vec<T>)
    ensures
        r@ == v@,
{
    let mut r: Vec<T> = Vec::new();
    let mut i: usize = 0;
    while i < v.len()
        invariant
            i <= v@.len(),
            r@ =~= v@.subrange(0, i as int),
        decreases v@.len() - i,
    {
        r.push(v[i]);
        i = i + 1;
    }
    proof {
        assert(r@ =~= v@);
    }
    r
}

// ---------------------------------------------------------------------------
// The save format
// ---------------------------------------------------------------------------

/// Save-format tag of a static effect.
pub const SAVE_STATIC: u8 = 0;
/// Save-format tag of a static gradient.
pub const SAVE_STATIC_GRADIENT: u8 = 1;
/// Save-format tag of a wave gradient.
pub const SAVE_WAVE_GRADIENT: u8 = 2;
/// Save-format tag of a breathing effect.
pub const SAVE_BREATH_SINGLE: u8 = 3;

/// One saved layer: the effect as a tag plus its raw parameter bytes — the
/// same bytes its constructor takes — and the mask. The unverified shell
/// carries these records to and from the save file verbatim.
#[derive(Debug)]
pub struct SavedEffect {
    pub kind: u8,
    pub params: Vec<u8>,
    pub mask: Vec<bool>,
}

/// Model of one saved layer.
#[verifier::ext_equal]
pub ghost struct SavedEffectModel {
    pub kind: u8,
    pub params: Seq<u8>,
    pub mask: Seq<bool>,
}

impl View for SavedEffect {
    type V = SavedEffectModel;

    open spec fn view(&self) -> SavedEffectModel {
        SavedEffectModel { kind: self.kind, params: self.params@, mask: self.mask@ }
    }
}

/// The models of a sequence of saved layers.
pub open spec fn saved_models(s: Seq<SavedEffect>) -> Seq<SavedEffectModel> {
    s.map_values(|e: SavedEffect| e@)
}

/// Save-format tag of an effect.
pub open spec fn spec_effect_kind(e: Effect) -> u8 {
    match e {
        Effect::Static { .. } => SAVE_STATIC,
        Effect::StaticGradient { .. } => SAVE_STATIC_GRADIENT,
        Effect::WaveGradient { .. } => SAVE_WAVE_GRADIENT,
        Effect::BreathSingle { .. } => SAVE_BREATH_SINGLE,
    }
}

/// Parameter bytes an effect saves: exactly what its constructor takes.
pub open spec fn spec_effect_params(e: Effect) -> Seq<u8> {
    match e {
        Effect::Static { color } => seq![color.r, color.g, color.b],
        Effect::StaticGradient { start, end } => seq![
            start.r,
            start.g,
            start.b,
            end.r,
            end.g,
            end.b,
        ],
        Effect::WaveGradient { start, end } => seq![start.r, start.g, start.b, end.r, end.g, end.b],
        Effect::BreathSingle { color, duration } => seq![color.r, color.g, color.b, duration],
    }
}

/// The effect a saved tag and parameter bytes denote.
pub open spec fn spec_effect_from_kind(kind: u8, params: Seq<u8>) -> Option<Effect> {
    if kind == SAVE_STATIC {
        spec_new_static(params)
    } else if kind == SAVE_STATIC_GRADIENT {
        spec_new_static_gradient(params)
    } else if kind == SAVE_WAVE_GRADIENT {
        spec_new_wave_gradient(params)
    } else if kind == SAVE_BREATH_SINGLE {
        spec_new_breath_single(params)
    } else {
        None
    }
}

/// What one layer saves as.
pub open spec fn spec_save_layer(l: LayerModel) -> SavedEffectModel {
    SavedEffectModel {
        kind: spec_effect_kind(l.effect),
        params: spec_effect_params(l.effect),
        mask: l.mask,
    }
}

/// What a whole stack saves as, in stack order.
pub open spec fn spec_save(layers: Seq<LayerModel>) -> Seq<SavedEffectModel> {
    layers.map_values(|l: LayerModel| spec_save_layer(l))
}

/// The stack a save file reloads as: each record whose tag and parameters
/// denote an effect and whose mask has one entry per key becomes a layer, in
/// save order; damaged records are dropped.
pub open spec fn spec_parse_saved(s: Seq<SavedEffectModel>) -> Seq<LayerModel>
    decreases s.len(),
{
    if s.len() == 0 {
        Seq::empty()
    } else {
        let rest = spec_parse_saved(s.drop_last());
        let e = s.last();
        if e.mask.len() == TOTAL_KEYS && spec_effect_from_kind(e.kind, e.params) is Some {
            rest.push(
                LayerModel { effect: spec_effect_from_kind(e.kind, e.params)->Some_0, mask: e.mask },
            )
        } else {
            rest
        }
    }
}

/// Saving a well-formed stack and reloading the records reproduces the stack
/// exactly: same effects, same parameters, same masks, same order.
pub proof fn lemma_save_restore_round_trip(layers: Seq<LayerModel>)
    requires
        forall|i: int| 0 <= i < layers.len() ==> #[trigger] layers[i].wf(),
    ensures
        spec_parse_saved(spec_save(layers)) == layers,
    decreases layers.len(),
{
    if layers.len() == 0 {
        assert(spec_parse_saved(spec_save(layers)) =~= layers);
    } else {
        lemma_save_restore_round_trip(layers.drop_last());
        let s = spec_save(layers);
        assert(s.len() == layers.len());
        assert(s.drop_last() =~= spec_save(layers.drop_last()));
        let l = layers.last();
        let e = s.last();
        assert(e == spec_save_layer(layers[layers.len() - 1]));
        assert(layers[layers.len() - 1].wf());
        assert(e.mask.len() == TOTAL_KEYS);
        assert(spec_effect_from_kind(e.kind, e.params) == Some(l.effect)) by {
            match l.effect {
                Effect::Static { color } => {},
                Effect::StaticGradient { start, end } => {},
                Effect::WaveGradient { start, end } => {},
                Effect::BreathSingle { color, duration } => {},
            }
        }
        assert(spec_parse_saved(s) == spec_parse_saved(s.drop_last()).push(
            LayerModel { effect: l.effect, mask: e.mask },
        ));
        assert(LayerModel { effect: l.effect, mask: e.mask } == l);
        assert(spec_parse_saved(spec_save(layers)) =~= layers);
    }
}

/// Save-format tag and parameter bytes of one effect.
fn effect_save_params(e: &Effect) -> (r: (u8, Vec<u8>))
    ensures
        r.0 == spec_effect_kind(*e),
        r.1@ == spec_effect_params(*e),
{
    let mut params: Vec<u8> = Vec::new();
    let kind: u8 = match e {
        Effect::Static { color } => {
            params.push(color.r);
            params.push(color.g);
            params.push(color.b);
            SAVE_STATIC
        },
        Effect::StaticGradient { start, end } => {
            params.push(start.r);
            params.push(start.g);
            params.push(start.b);
            params.push(end.r);
            params.push(end.g);
            params.push(end.b);
            SAVE_STATIC_GRADIENT
        },
        Effect::WaveGradient { start, end } => {
            params.push(start.r);
            params.push(start.g);
            params.push(start.b);
            params.push(end.r);
            params.push(end.g);
            params.push(end.b);
            SAVE_WAVE_GRADIENT
        },
        Effect::BreathSingle { color, duration } => {
            params.push(color.r);
            params.push(color.g);
            params.push(color.b);
            params.push(*duration);
            SAVE_BREATH_SINGLE
        },
    };
    proof {
        assert(params@ =~= spec_effect_params(*e));
    }
    (kind, params)
}

/// The effect a saved tag and parameter bytes denote.
fn effect_from_kind(kind: u8, params: &Vec<u8>) -> (r: Option<Effect>)
    ensures
        r == spec_effect_from_kind(kind, params@),
{
    if kind == SAVE_STATIC {
        Effect::new_static(params)
    } else if kind == SAVE_STATIC_GRADIENT {
        Effect::new_static_gradient(params)
    } else if kind == SAVE_WAVE_GRADIENT {
        Effect::new_wave_gradient(params)
    } else if kind == SAVE_BREATH_SINGLE {
        Effect::new_breath_single(params)
    } else {
        None
    }
}

// ---------------------------------------------------------------------------
// The effect engine
// ---------------------------------------------------------------------------

/// The ordered stack of active layers and the animation tick counter.
/// Later-pushed layers sit on top and win where masks overlap.
#[derive(Debug)]
pub struct EffectManager {
    pub layers: Vec<EffectLayer>,
    pub ticks: u64,
}

impl View for EffectManager {
    type V = EffectManagerModel;

    open spec fn view(&self) -> EffectManagerModel {
        EffectManagerModel {
            layers: self.layers@.map_values(|l: EffectLayer| l@),
            ticks: self.ticks,
        }
    }
}

impl EffectManager {
    /// An engine with no layers, at tick zero.
    pub fn new() -> (r: EffectManager)
        ensures
            r@.layers == Seq::<LayerModel>::empty(),
            r@.ticks == 0,
            r@.wf(),
    {
        let r = EffectManager { layers: Vec::new(), ticks: 0 };
        proof {
            assert(r@.layers =~= Seq::<LayerModel>::empty());
        }
        r
    }

    /// Push a layer on top of the stack.
    pub fn push_effect(&mut self, effect: Effect, mask: Vec<bool>)
        requires
            mask@.len() == TOTAL_KEYS,
            old(self)@.wf(),
        ensures
            final(self)@.layers == old(self)@.layers.push(LayerModel { effect, mask: mask@ }),
            final(self)@.ticks == old(self)@.ticks,
            final(self)@.wf(),
    {
        let ghost m = mask@;
        self.layers.push(EffectLayer { effect, mask });
        proof {
            assert(self@.layers =~= old(self)@.layers.push(LayerModel { effect, mask: m }));
        }
    }

    /// Remove and return the top layer, if any: the engine replaces the
    /// previous custom effect this way before installing a new one.
    pub fn pop_effect(&mut self) -> (r: Option<EffectLayer>)
        requires
            old(self)@.wf(),
        ensures
            old(self)@.layers.len() == 0 ==> r is None && final(self)@ == old(self)@,
            old(self)@.layers.len() > 0 ==> {
                &&& final(self)@.layers == old(self)@.layers.drop_last()
                &&& r matches Some(l) && l@ == old(self)@.layers.last()
            },
            final(self)@.ticks == old(self)@.ticks,
            final(self)@.wf(),
    {
        let r = self.layers.pop();
        proof {
            if old(self)@.layers.len() > 0 {
                assert(self@.layers =~= old(self)@.layers.drop_last());
            } else {
                assert(self@.layers =~= old(self)@.layers);
            }
        }
        r
    }

    /// Composite the stack into the frame the keyboard should show at the
    /// current tick: for every key, the topmost covering layer's color.
    pub fn render_frame(&self) -> (frame: Vec<Color>)
        requires
            self@.wf(),
        ensures
            frame@.len() == TOTAL_KEYS,
            forall|led: int|
                0 <= led < TOTAL_KEYS ==> frame@[led] == spec_top_color(
                    self@.layers,
                    self@.ticks,
                    led,
                ),
    {
        let mut frame: Vec<Color> = Vec::new();
        let mut i: usize = 0;
        while i < TOTAL_KEYS
            invariant
                i <= TOTAL_KEYS,
                frame@.len() == i,
                forall|led: int| 0 <= led < i ==> frame@[led] == spec_black(),
            decreases TOTAL_KEYS - i,
        {
            frame.push(Color { r: 0, g: 0, b: 0 });
            i = i + 1;
        }
        let mut k: usize = 0;
        while k < self.layers.len()
            invariant
                self@.wf(),
                k <= self@.layers.len(),
                frame@.len() == TOTAL_KEYS,
                forall|led: int|
                    0 <= led < TOTAL_KEYS ==> frame@[led] == spec_top_color(
                        self@.layers.subrange(0, k as int),
                        self@.ticks,
                        led,
                    ),
            decreases self@.layers.len() - k,
        {
            let ghost prev = frame@;
            let mut led: usize = 0;
            while led < TOTAL_KEYS
                invariant
                    self@.wf(),
                    k < self@.layers.len(),
                    led <= TOTAL_KEYS,
                    frame@.len() == TOTAL_KEYS,
                    forall|l: int|
                        0 <= l < led ==> frame@[l] == spec_top_color(
                            self@.layers.subrange(0, k + 1),
                            self@.ticks,
                            l,
                        ),
                    forall|l: int|
                        led <= l < TOTAL_KEYS ==> frame@[l] == spec_top_color(
                            self@.layers.subrange(0, k as int),
                            self@.ticks,
                            l,
                        ),
                decreases TOTAL_KEYS - led,
            {
                proof {
                    assert(self@.layers[k as int].wf());
                    assert(self@.layers[k as int] == self.layers@[k as int]@);
                    assert(self@.layers.subrange(0, k + 1).drop_last() =~= self@.layers.subrange(
                        0,
                        k as int,
                    ));
                }
                let layer = &self.layers[k];
                if layer.mask[led] {
                    let c = layer.effect.render(self.ticks, led);
                    frame.set(led, c);
                }
                led = led + 1;
            }
            k = k + 1;
        }
        proof {
            assert(self@.layers.subrange(0, self@.layers.len() as int) =~= self@.layers);
        }
        frame
    }

    /// Advance one animation tick: render the frame the stack shows now and
    /// plan the row packets plus the commit packet that push it to the
    /// keyboard; then step the tick counter (wrapping at the top).
    pub fn update(&mut self) -> (pkts: Vec<RazerPacket>)
        requires
            old(self)@.wf(),
        ensures
            final(self)@.layers == old(self)@.layers,
            final(self)@.wf(),
            final(self)@.ticks == (if old(self)@.ticks == u64::MAX {
                0u64
            } else {
                (old(self)@.ticks + 1) as u64
            }),
            models(pkts@) == spec_frame_packets(old(self)@.layers, old(self)@.ticks),
    {
        let frame = self.render_frame();
        let mut pkts: Vec<RazerPacket> = Vec::new();
        let mut row: usize = 0;
        while row < KEY_ROWS
            invariant
                self@.wf(),
                frame@.len() == TOTAL_KEYS,
                forall|led: int|
                    0 <= led < TOTAL_KEYS ==> frame@[led] == spec_top_color(
                        self@.layers,
                        self@.ticks,
                        led,
                    ),
                row <= KEY_ROWS,
                pkts@.len() == row,
                models(pkts@) =~= spec_frame_packets(self@.layers, self@.ticks).subrange(
                    0,
                    row as int,
                ),
            decreases KEY_ROWS - row,
        {
            let mut data: Vec<u8> = Vec::new();
            let mut col: usize = 0;
            while col < KEYS_PER_ROW
                invariant
                    self@.wf(),
                    frame@.len() == TOTAL_KEYS,
                    forall|led: int|
                        0 <= led < TOTAL_KEYS ==> frame@[led] == spec_top_color(
                            self@.layers,
                            self@.ticks,
                            led,
                        ),
                    row < KEY_ROWS,
                    col <= KEYS_PER_ROW,
                    data@.len() == 3 * col,
                    data@ =~= spec_row_bytes(self@.layers, self@.ticks, row as int).subrange(
                        0,
                        3 * col as int,
                    ),
                decreases KEYS_PER_ROW - col,
            {
                let led = row * KEYS_PER_ROW + col;
                let c = frame[led];
                data.push(c.r);
                data.push(c.g);
                data.push(c.b);
                proof {
                    let rb = spec_row_bytes(self@.layers, self@.ticks, row as int);
                    assert(rb[3 * col as int] == c.r && rb[3 * col as int + 1] == c.g && rb[3 * col
                        as int + 2] == c.b);
                    assert(data@ =~= rb.subrange(0, 3 * (col + 1) as int));
                }
                col = col + 1;
            }
            proof {
                assert(data@ =~= spec_row_bytes(self@.layers, self@.ticks, row as int));
            }
            let pkt = custom_frame_data_request(row as u8, &data).unwrap();
            pkts.push(pkt);
            proof {
                let fp = spec_frame_packets(self@.layers, self@.ticks);
                assert(pkts@.len() == row + 1);
                assert(fp[row as int] == custom_frame_data_packet(
                    row as u8,
                    spec_row_bytes(self@.layers, self@.ticks, row as int),
                ));
                assert(models(pkts@)[row as int] == pkt@);
                assert(models(pkts@) =~= fp.subrange(0, row + 1));
            }
            row = row + 1;
        }
        let ghost before = pkts@;
        pkts.push(custom_frame_request());
        proof {
            let fp = spec_frame_packets(self@.layers, self@.ticks);
            assert(pkts@.len() == 7);
            assert(models(pkts@)[6] == custom_frame_packet());
            assert forall|i: int| 0 <= i < 6 implies models(pkts@)[i] == fp[i] by {
                assert(pkts@[i] == before[i]);
                assert(models(before)[i] == fp.subrange(0, 6)[i]);
            }
            assert(models(pkts@) =~= fp);
        }
        if self.ticks == u64::MAX {
            self.ticks = 0;
        } else {
            self.ticks = self.ticks + 1;
        }
        proof {
            assert(self@.layers =~= old(self)@.layers);
        }
        pkts
    }

    /// The colors one layer alone shows at the current tick, three bytes per
    /// key; a layer index outside the stack yields nothing.
    pub fn get_map(&self, layer: i32) -> (r: Vec<u8>)
        requires
            self@.wf(),
        ensures
            0 <= layer < self@.layers.len() ==> r@ == spec_layer_map(
                self@.layers[layer as int],
                self@.ticks,
            ),
            !(0 <= layer < self@.layers.len()) ==> r@ == Seq::<u8>::empty(),
    {
        if layer < 0 || layer as usize >= self.layers.len() {
            let r: Vec<u8> = Vec::new();
            proof {
                assert(r@ =~= Seq::<u8>::empty());
            }
            return r;
        }
        let idx = layer as usize;
        let l = &self.layers[idx];
        let mut r: Vec<u8> = Vec::new();
        let mut led: usize = 0;
        while led < TOTAL_KEYS
            invariant
                self@.wf(),
                idx < self@.layers.len(),
                l == &self.layers@[idx as int],
                led <= TOTAL_KEYS,
                r@.len() == 3 * led,
                r@ =~= spec_layer_map(self@.layers[idx as int], self@.ticks).subrange(
                    0,
                    3 * led as int,
                ),
            decreases TOTAL_KEYS - led,
        {
            proof {
                assert(self@.layers[idx as int].wf());
                assert(self@.layers[idx as int] == self.layers@[idx as int]@);
            }
            let ghost lm = spec_layer_map(self@.layers[idx as int], self@.ticks);
            if l.mask[led] {
                let c = l.effect.render(self.ticks, led);
                r.push(c.r);
                r.push(c.g);
                r.push(c.b);
            } else {
                r.push(0);
                r.push(0);
                r.push(0);
            }
            proof {
                assert(r@ =~= lm.subrange(0, 3 * (led + 1) as int));
            }
            led = led + 1;
        }
        proof {
            assert(r@ =~= spec_layer_map(self@.layers[idx as int], self@.ticks));
        }
        r
    }

    /// Serialize the stack to its save records, in stack order.
    pub fn save(&self) -> (r: Vec<SavedEffect>)
        requires
            self@.wf(),
        ensures
            saved_models(r@) == spec_save(self@.layers),
    {
        let mut r: Vec<SavedEffect> = Vec::new();
        let mut i: usize = 0;
        while i < self.layers.len()
            invariant
                self@.wf(),
                i <= self@.layers.len(),
                r@.len() == i,
                saved_models(r@) =~= spec_save(self@.layers).subrange(0, i as int),
            decreases self@.layers.len() - i,
        {
            let l = &self.layers[i];
            let (kind, params) = effect_save_params(&l.effect);
            let mask = copy_vec(&l.mask);
            r.push(SavedEffect { kind, params, mask });
            proof {
                assert(self@.layers[i as int] == self.layers@[i as int]@);
                assert(saved_models(r@) =~~= spec_save(self@.layers).subrange(0, i + 1));
            }
            i = i + 1;
        }
        proof {
            assert(saved_models(r@) =~= spec_save(self@.layers));
        }
        r
    }

    /// Replace the stack with what a save file holds; damaged records are
    /// dropped, the tick counter is kept.
    pub fn load_from_save(&mut self, saved: Vec<SavedEffect>)
        ensures
            final(self)@.layers == spec_parse_saved(saved_models(saved@)),
            final(self)@.ticks == old(self)@.ticks,
            final(self)@.wf(),
    {
        self.layers = Vec::new();
        let mut i: usize = 0;
        proof {
            assert(self@.layers =~= spec_parse_saved(saved_models(saved@).subrange(0, 0)));
        }
        while i < saved.len()
            invariant
                i <= saved@.len(),
                self@.ticks == old(self)@.ticks,
                self@.layers =~= spec_parse_saved(saved_models(saved@).subrange(0, i as int)),
                self@.wf(),
            decreases saved@.len() - i,
        {
            let e = &saved[i];
            proof {
                assert(saved_models(saved@).subrange(0, i + 1).drop_last() =~= saved_models(
                    saved@,
                ).subrange(0, i as int));
                assert(saved_models(saved@).subrange(0, i + 1).last() == saved@[i as int]@);
            }
            if e.mask.len() == TOTAL_KEYS {
                match effect_from_kind(e.kind, &e.params) {
                    Some(effect) => {
                        let mask = copy_vec(&e.mask);
                        let ghost before = self@.layers;
                        self.layers.push(EffectLayer { effect, mask });
                        proof {
                            assert(self@.layers =~= before.push(
                                LayerModel { effect, mask: saved@[i as int]@.mask },
                            ));
                        }
                    },
                    None => {},
                }
            }
            proof {
                assert(self@.layers =~= spec_parse_saved(
                    saved_models(saved@).subrange(0, i + 1),
                ));
            }
            i = i + 1;
        }
        proof {
            assert(saved_models(saved@).subrange(0, saved@.len() as int) =~= saved_models(saved@));
        }
    }
}

} // verus!
