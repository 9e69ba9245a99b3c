use vstd::prelude::*;
use crate::grid::{GridPos, ModuleId, Orientation};
use crate::kind::{InputKind, ModuleKind};
use crate::param::{
    TimeUnit, ValueView, ParameterValue, strs_view, value_is_port, float_param, int_param, time_param, input_param, enum_param, DelaySourceParam, EnumParam, FloatParam, InputParam, IntParam, ModuleParameter, ParameterView, TimeParam,
    copy_strings, delay_source_parameter, delay_source_row, delay_source_update, enum_parameter, enum_row,
    enum_update, file_parameter, file_row, float_parameter, float_row, float_update, input_parameter,
    input_row, input_update, int_parameter, int_row, int_update, set_delay_source_param, set_enum_param,
    set_float_param, set_input_param, set_int_param, set_text_param, set_time_param, strings_view,
    text_parameter, text_row, text_update, time_parameter, time_row, time_update,
};

verus! {

broadcast use vstd::string::group_string_axioms;

/// A point of an envelope: time and value in hundredths, and whether the
/// segment that ends at it curves.
#[derive(Clone, Copy, Debug, PartialEq, Eq, Structural)]
pub struct EnvPoint {
    pub time: i32,
    pub value: i32,
    pub curve: bool,
}

/// A synthesis unit used as-is inside a lowered composition: the name it is
/// shown with and the roles of its inputs.
#[derive(Clone, Debug, PartialEq, Eq)]
pub struct PrimitiveModule {
    pub label: String,
    pub inputs: Vec<InputKind>,
}

/// What a module is and the settings it carries.
#[derive(Debug, PartialEq, Eq)]
pub enum ModuleBody {
    Primitive(PrimitiveModule),
    Freq,
    Gate,
    Degree,
    DegreeGate { degree: IntParam },
    Rate { time: TimeParam },
    Transpose { input: InputParam, semitones: FloatParam },
    Osc { wave: EnumParam, frequency: FloatParam },
    Rise { gate: InputParam, time: TimeParam },
    Fall { gate: InputParam, time: TimeParam },
    Ramp { value: FloatParam, time: TimeParam },
    Adsr { rise: InputParam, fall: InputParam, attack: FloatParam, sustain: FloatParam },
    Envelope { phase: FloatParam, points: Vec<EnvPoint> },
    Lowpass { input: FloatParam, frequency: FloatParam, q: FloatParam },
    Highpass { input: FloatParam, frequency: FloatParam, q: FloatParam },
    Comb { input: FloatParam, time: TimeParam, feedback: FloatParam, damp: FloatParam },
    Allpass { input: FloatParam, time: TimeParam, feedback: FloatParam },
    Delay { input: FloatParam, time: TimeParam },
    DelayTap { source: DelaySourceParam, gain: FloatParam },
    Reverb { input: FloatParam, room: FloatParam, damp: FloatParam, mod_depth: FloatParam, diffusion: FloatParam },
    Distortion { input: FloatParam, kind: EnumParam, drive: FloatParam, asymmetry: FloatParam },
    Compressor {
        input: FloatParam,
        threshold: FloatParam,
        ratio: FloatParam,
        attack: FloatParam,
        release: FloatParam,
        makeup: FloatParam,
    },
    Flanger { input: FloatParam, rate: FloatParam, depth: FloatParam, feedback: FloatParam },
    Multiply { a: FloatParam, b: FloatParam },
    Add { a: FloatParam, b: FloatParam },
    GreaterThan { a: FloatParam, b: FloatParam },
    LessThan { a: FloatParam, b: FloatParam },
    Switch { select: InputParam, a: FloatParam, b: FloatParam },
    Random { gate: InputParam },
    Sample { file_name: String, file_missing: bool, position: InputParam },
    Probe { input: FloatParam },
    Output { input: InputParam, gain: FloatParam },
    CompositionOutput { label: String, input: InputParam },
    TurnRightDown,
    TurnDownRight,
    LeftSplit,
    TopSplit,
    RightJoin,
    DownJoin,
    CompositionInput { label: String, kind: InputKind, value: FloatParam },
    Composition { name: String, surface: PatchSurface },
}

/// A module placed on a patch surface.
#[derive(Debug, PartialEq, Eq)]
pub struct Module {
    pub id: ModuleId,
    pub position: GridPos,
    pub orientation: Orientation,
    pub body: ModuleBody,
    pub disabled: bool,
}

/// A grid of modules with its own cursor: an instrument's root, or the inside
/// of a composition.
#[derive(Debug, PartialEq, Eq)]
pub struct PatchSurface {
    pub cursor: GridPos,
    pub modules: Vec<Module>,
}

pub open spec fn params_view(v: Seq<ModuleParameter>) -> Seq<ParameterView> {
    v.map_values(|p: ModuleParameter| p@)
}

/// The key composition ports are ordered by: inputs top to bottom, outputs
/// left to right.
pub open spec fn port_key(m: Module, by_x: bool) -> u16 {
    if by_x { m.position.x } else { m.position.y }
}

/// The enabled modules of a kind, as (key, id) pairs in surface order.
pub open spec fn port_pairs(ms: Seq<Module>, kind: ModuleKind, by_x: bool) -> Seq<(u16, ModuleId)>
    decreases ms.len(),
{
    if ms.len() == 0 {
        Seq::empty()
    } else {
        let rest = port_pairs(ms.drop_last(), kind, by_x);
        let m = ms.last();
        if !m.disabled && body_kind(m.body) == kind { rest.push((port_key(m, by_x), m.id)) } else { rest }
    }
}

/// `s` with `p` placed right after the last entry whose key is not above its own.
pub open spec fn insert_by_key(s: Seq<(u16, ModuleId)>, p: (u16, ModuleId)) -> Seq<(u16, ModuleId)>
    decreases s.len(),
{
    if s.len() == 0 {
        seq![p]
    } else if s.last().0 <= p.0 {
        s.push(p)
    } else {
        insert_by_key(s.drop_last(), p).push(s.last())
    }
}

/// `s` stably sorted by key: equal keys keep their order.
pub open spec fn sort_by_key(s: Seq<(u16, ModuleId)>) -> Seq<(u16, ModuleId)>
    decreases s.len(),
{
    if s.len() == 0 {
        Seq::empty()
    } else {
        insert_by_key(sort_by_key(s.drop_last()), s.last())
    }
}

/// The ports of a composition surface: the ids of its enabled port modules of
/// `kind`, ordered by key, ties in surface order.
pub open spec fn composition_ports_of(surface: PatchSurface, kind: ModuleKind, by_x: bool) -> Seq<ModuleId> {
    sort_by_key(port_pairs(surface.modules@, kind, by_x)).map_values(|p: (u16, ModuleId)| p.1)
}

/// A composition's inputs: its enabled input modules, top to bottom.
pub open spec fn composition_input_ids(surface: PatchSurface) -> Seq<ModuleId> {
    composition_ports_of(surface, ModuleKind::CompositionInput, false)
}

/// A composition's outputs: its enabled output modules, left to right.
pub open spec fn composition_output_ids(surface: PatchSurface) -> Seq<ModuleId> {
    composition_ports_of(surface, ModuleKind::CompositionOutput, true)
}

/// The position of the first module with the given id.
pub open spec fn first_module_index(ms: Seq<Module>, id: ModuleId) -> Option<int>
    decreases ms.len(),
{
    if ms.len() == 0 {
        None
    } else {
        match first_module_index(ms.drop_last(), id) {
            Some(i) => Some(i),
            None => if ms.last().id == id { Some(ms.len() - 1) } else { None },
        }
    }
}

/// One "value" row per listed composition input, named by its label.
pub open spec fn input_rows_for(ids: Seq<ModuleId>, ms: Seq<Module>) -> Seq<ParameterView>
    decreases ids.len(),
{
    if ids.len() == 0 {
        Seq::empty()
    } else {
        let rest = input_rows_for(ids.drop_last(), ms);
        match first_module_index(ms, ids.last()) {
            Some(i) => match ms[i].body {
                ModuleBody::CompositionInput { label, value, .. } => rest.push(float_row(label@, value)),
                _ => rest,
            },
            None => rest,
        }
    }
}

pub open spec fn composition_input_rows(surface: PatchSurface) -> Seq<ParameterView> {
    input_rows_for(composition_input_ids(surface), surface.modules@)
}

/// The module that holds the value of the `k`-th input of a composition.
pub open spec fn composition_value_target(surface: PatchSurface, k: int) -> Option<int> {
    let ids = composition_input_ids(surface);
    if 0 <= k < ids.len() {
        match first_module_index(surface.modules@, ids[k]) {
            Some(i) => if surface.modules@[i].body is CompositionInput { Some(i) } else { None },
            None => None,
        }
    } else {
        None
    }
}

pub open spec fn composition_value_of(surface: PatchSurface, k: int) -> FloatParam {
    match composition_value_target(surface, k) {
        Some(i) => match surface.modules@[i].body {
            ModuleBody::CompositionInput { value, .. } => value,
            _ => arbitrary(),
        },
        None => arbitrary(),
    }
}

pub open spec fn input_value_bounds_ok(b: ModuleBody) -> bool {
    match b {
        ModuleBody::CompositionInput { value, .. } => value.min <= value.max,
        _ => true,
    }
}

pub open spec fn text_or(current: Seq<char>, p: ParameterView) -> Seq<char> {
    match text_update(current, p) {
        Some(t) => t,
        None => current,
    }
}

/// How a body changes when a parameter row is written at `index`: numeric
/// rows as `set_body` says; a name row renames; a composition's value rows
/// set the value of the matching input module inside it.
pub open spec fn body_set_relation(old: ModuleBody, new: ModuleBody, index: usize, p: ParameterView) -> bool {
    match old {
        ModuleBody::CompositionOutput { label, input } => match new {
            ModuleBody::CompositionOutput { label: label2, input: input2 } => if index == 0 {
                label2@ == text_or(label@, p) && input2 == input
            } else {
                label2 == label && input2 == (if index == 1 {
                    match input_update(input, index, 1, p) { Some(x) => x, None => input }
                } else {
                    input
                })
            },
            _ => false,
        },
        ModuleBody::CompositionInput { label, kind, value } => match new {
            ModuleBody::CompositionInput { label: label2, kind: kind2, value: value2 } => kind2 == kind && if index == 0 {
                label2@ == text_or(label@, p) && value2 == value
            } else {
                label2 == label && value2 == (if index == 1 {
                    match float_update(value, index, 1, p) { Some(x) => x, None => value }
                } else {
                    value
                })
            },
            _ => false,
        },
        ModuleBody::Composition { name, surface } => match new {
            ModuleBody::Composition { name: name2, surface: surface2 } => if index == 0 {
                name2@ == text_or(name@, p) && surface2 == surface
            } else {
                name2 == name && composition_value_set(surface, surface2, (index - 1) as int, p)
            },
            _ => false,
        },
        _ => new == set_body(old, index, p),
    }
}

/// The surface after the `k`-th input value of a composition is written.
pub open spec fn composition_value_set(old: PatchSurface, new: PatchSurface, k: int, p: ParameterView) -> bool {
    &&& new.cursor == old.cursor
    &&& match composition_value_target(old, k) {
        Some(i) => match float_update(composition_value_of(old, k), 0, 0, p) {
            Some(v) => new.modules@ == old.modules@.update(i, Module {
                body: match old.modules@[i].body {
                    ModuleBody::CompositionInput { label, kind, .. } => ModuleBody::CompositionInput { label, kind, value: v },
                    _ => old.modules@[i].body,
                },
                ..old.modules@[i]
            }),
            None => new.modules@ == old.modules@,
        },
        None => new.modules@ == old.modules@,
    }
}

/// The kind of module a body belongs to.
pub open spec fn body_kind(b: ModuleBody) -> ModuleKind {
    match b {
        ModuleBody::Primitive(_) => ModuleKind::Primitive,
        ModuleBody::Freq { .. } => ModuleKind::Freq,
        ModuleBody::Gate { .. } => ModuleKind::Gate,
        ModuleBody::Degree { .. } => ModuleKind::Degree,
        ModuleBody::DegreeGate { .. } => ModuleKind::DegreeGate,
        ModuleBody::Rate { .. } => ModuleKind::Rate,
        ModuleBody::Transpose { .. } => ModuleKind::Transpose,
        ModuleBody::Osc { .. } => ModuleKind::Osc,
        ModuleBody::Rise { .. } => ModuleKind::Rise,
        ModuleBody::Fall { .. } => ModuleKind::Fall,
        ModuleBody::Ramp { .. } => ModuleKind::Ramp,
        ModuleBody::Adsr { .. } => ModuleKind::Adsr,
        ModuleBody::Lowpass { .. } => ModuleKind::Lowpass,
        ModuleBody::Highpass { .. } => ModuleKind::Highpass,
        ModuleBody::Comb { .. } => ModuleKind::Comb,
        ModuleBody::Allpass { .. } => ModuleKind::Allpass,
        ModuleBody::Delay { .. } => ModuleKind::Delay,
        ModuleBody::DelayTap { .. } => ModuleKind::DelayTap,
        ModuleBody::Reverb { .. } => ModuleKind::Reverb,
        ModuleBody::Distortion { .. } => ModuleKind::Distortion,
        ModuleBody::Compressor { .. } => ModuleKind::Compressor,
        ModuleBody::Flanger { .. } => ModuleKind::Flanger,
        ModuleBody::Multiply { .. } => ModuleKind::Multiply,
        ModuleBody::Add { .. } => ModuleKind::Add,
        ModuleBody::GreaterThan { .. } => ModuleKind::GreaterThan,
        ModuleBody::LessThan { .. } => ModuleKind::LessThan,
        ModuleBody::Switch { .. } => ModuleKind::Switch,
        ModuleBody::Random { .. } => ModuleKind::Random,
        ModuleBody::Probe { .. } => ModuleKind::Probe,
        ModuleBody::Output { .. } => ModuleKind::Output,
        ModuleBody::TurnRightDown { .. } => ModuleKind::TurnRightDown,
        ModuleBody::TurnDownRight { .. } => ModuleKind::TurnDownRight,
        ModuleBody::LeftSplit { .. } => ModuleKind::LeftSplit,
        ModuleBody::TopSplit { .. } => ModuleKind::TopSplit,
        ModuleBody::RightJoin { .. } => ModuleKind::RightJoin,
        ModuleBody::DownJoin { .. } => ModuleKind::DownJoin,
        ModuleBody::Envelope { .. } => ModuleKind::Envelope,
        ModuleBody::Sample { .. } => ModuleKind::Sample,
        ModuleBody::CompositionOutput { .. } => ModuleKind::CompositionOutput,
        ModuleBody::CompositionInput { .. } => ModuleKind::CompositionInput,
        ModuleBody::Composition { .. } => ModuleKind::Composition,
    }
}

/// The synthesis role of each input port of a body, in port order.
pub open spec fn body_inputs(b: ModuleBody) -> Seq<InputKind> {
    match b {
        ModuleBody::Primitive(..) => Seq::<InputKind>::empty(),
        ModuleBody::Freq { .. } => Seq::<InputKind>::empty(),
        ModuleBody::Gate { .. } => Seq::<InputKind>::empty(),
        ModuleBody::Degree { .. } => Seq::<InputKind>::empty(),
        ModuleBody::DegreeGate { .. } => Seq::<InputKind>::empty(),
        ModuleBody::Rate { .. } => Seq::<InputKind>::empty(),
        ModuleBody::Transpose { .. } => seq![InputKind::In, InputKind::Semitones],
        ModuleBody::Osc { .. } => seq![InputKind::Freq],
        ModuleBody::Rise { .. } => seq![InputKind::Gate, InputKind::Time],
        ModuleBody::Fall { .. } => seq![InputKind::Gate, InputKind::Time],
        ModuleBody::Ramp { .. } => seq![InputKind::Value, InputKind::Time],
        ModuleBody::Adsr { .. } => seq![InputKind::Rise, InputKind::Fall, InputKind::Attack, InputKind::Sustain],
        ModuleBody::Lowpass { .. } => seq![InputKind::In, InputKind::Freq, InputKind::Q],
        ModuleBody::Highpass { .. } => seq![InputKind::In, InputKind::Freq, InputKind::Q],
        ModuleBody::Comb { .. } => seq![InputKind::In, InputKind::Time, InputKind::Feedback, InputKind::Damp],
        ModuleBody::Allpass { .. } => seq![InputKind::In, InputKind::Time, InputKind::Feedback],
        ModuleBody::Delay { .. } => seq![InputKind::Time, InputKind::In],
        ModuleBody::DelayTap { .. } => Seq::<InputKind>::empty(),
        ModuleBody::Reverb { .. } => seq![InputKind::In, InputKind::Room, InputKind::Damp, InputKind::Mod, InputKind::Diff],
        ModuleBody::Distortion { .. } => seq![InputKind::In, InputKind::Drive, InputKind::Asym],
        ModuleBody::Compressor { .. } => seq![InputKind::In, InputKind::Thresh, InputKind::Ratio, InputKind::Attack, InputKind::Release, InputKind::Gain],
        ModuleBody::Flanger { .. } => seq![InputKind::In, InputKind::Rate, InputKind::Depth, InputKind::Feedback],
        ModuleBody::Multiply { .. } => seq![InputKind::A, InputKind::B],
        ModuleBody::Add { .. } => seq![InputKind::A, InputKind::B],
        ModuleBody::GreaterThan { .. } => seq![InputKind::A, InputKind::B],
        ModuleBody::LessThan { .. } => seq![InputKind::A, InputKind::B],
        ModuleBody::Switch { .. } => seq![InputKind::Select, InputKind::A, InputKind::B],
        ModuleBody::Random { .. } => seq![InputKind::Gate],
        ModuleBody::Probe { .. } => seq![InputKind::In],
        ModuleBody::Output { .. } => seq![InputKind::A, InputKind::B],
        ModuleBody::TurnRightDown { .. } => seq![InputKind::In],
        ModuleBody::TurnDownRight { .. } => seq![InputKind::In],
        ModuleBody::LeftSplit { .. } => seq![InputKind::In],
        ModuleBody::TopSplit { .. } => seq![InputKind::In],
        ModuleBody::RightJoin { .. } => seq![InputKind::A, InputKind::B],
        ModuleBody::DownJoin { .. } => seq![InputKind::A, InputKind::B],
        ModuleBody::Envelope { .. } => seq![InputKind::Phase],
        ModuleBody::Sample { .. } => seq![InputKind::Position],
        ModuleBody::CompositionOutput { .. } => seq![InputKind::In],
        ModuleBody::CompositionInput { .. } => Seq::<InputKind>::empty(),
        ModuleBody::Composition { .. } => Seq::<InputKind>::empty(),
    }
}

/// The rows of a body's parameter list, in order.
pub open spec fn body_rows(b: ModuleBody) -> Seq<ParameterView> {
    match b {
        ModuleBody::Primitive(_) => Seq::empty(),
        ModuleBody::Freq => Seq::<ParameterView>::empty(),
        ModuleBody::Gate => Seq::<ParameterView>::empty(),
        ModuleBody::Degree => Seq::<ParameterView>::empty(),
        ModuleBody::DegreeGate { degree } => seq![int_row("Deg"@, degree)],
        ModuleBody::Rate { time } => seq![time_row("Time"@, time)],
        ModuleBody::Transpose { input, semitones } => seq![input_row("In"@, input), float_row("St"@, semitones)],
        ModuleBody::Osc { wave, frequency } => seq![enum_row("Wave"@, wave.index, strings_view(wave.options@)), float_row("Hz"@, frequency)],
        ModuleBody::Rise { gate, time } => seq![input_row("Gate"@, gate), time_row("Time"@, time)],
        ModuleBody::Fall { gate, time } => seq![input_row("Gate"@, gate), time_row("Time"@, time)],
        ModuleBody::Ramp { value, time } => seq![float_row("Val"@, value), time_row("Time"@, time)],
        ModuleBody::Adsr { rise, fall, attack, sustain } => seq![input_row("Rise"@, rise), input_row("Fall"@, fall), float_row("Atk"@, attack), float_row("Sus"@, sustain)],
        ModuleBody::Lowpass { input, frequency, q } => seq![float_row("In"@, input), float_row("Freq"@, frequency), float_row("Q"@, q)],
        ModuleBody::Highpass { input, frequency, q } => seq![float_row("In"@, input), float_row("Freq"@, frequency), float_row("Q"@, q)],
        ModuleBody::Comb { input, time, feedback, damp } => seq![float_row("In"@, input), time_row("Time"@, time), float_row("Fdbk"@, feedback), float_row("Damp"@, damp)],
        ModuleBody::Allpass { input, time, feedback } => seq![float_row("In"@, input), time_row("Time"@, time), float_row("Fdbk"@, feedback)],
        ModuleBody::Delay { input, time } => seq![float_row("In"@, input), time_row("Time"@, time)],
        ModuleBody::DelayTap { source, gain } => seq![delay_source_row("Src"@, source), float_row("Gain"@, gain)],
        ModuleBody::Reverb { input, room, damp, mod_depth, diffusion } => seq![float_row("In"@, input), float_row("Room"@, room), float_row("Damp"@, damp), float_row("Mod"@, mod_depth), float_row("Diff"@, diffusion)],
        ModuleBody::Distortion { input, kind, drive, asymmetry } => seq![float_row("In"@, input), enum_row("Type"@, kind.index, strings_view(kind.options@)), float_row("Drive"@, drive), float_row("Asym"@, asymmetry)],
        ModuleBody::Compressor { input, threshold, ratio, attack, release, makeup } => seq![float_row("In"@, input), float_row("Thresh"@, threshold), float_row("Ratio"@, ratio), float_row("Atk"@, attack), float_row("Rel"@, release), float_row("Gain"@, makeup)],
        ModuleBody::Flanger { input, rate, depth, feedback } => seq![float_row("In"@, input), float_row("Rate"@, rate), float_row("Depth"@, depth), float_row("Fdbk"@, feedback)],
        ModuleBody::Multiply { a, b } => seq![float_row("A"@, a), float_row("B"@, b)],
        ModuleBody::Add { a, b } => seq![float_row("A"@, a), float_row("B"@, b)],
        ModuleBody::GreaterThan { a, b } => seq![float_row("A"@, a), float_row("B"@, b)],
        ModuleBody::LessThan { a, b } => seq![float_row("A"@, a), float_row("B"@, b)],
        ModuleBody::Switch { select, a, b } => seq![input_row("Sel"@, select), float_row("A"@, a), float_row("B"@, b)],
        ModuleBody::Random { gate } => seq![input_row("Gate"@, gate)],
        ModuleBody::Probe { input } => seq![float_row("In"@, input)],
        ModuleBody::Output { input, gain } => seq![input_row("In"@, input), float_row("Gain"@, gain)],
        ModuleBody::TurnRightDown => Seq::<ParameterView>::empty(),
        ModuleBody::TurnDownRight => Seq::<ParameterView>::empty(),
        ModuleBody::LeftSplit => Seq::<ParameterView>::empty(),
        ModuleBody::TopSplit => Seq::<ParameterView>::empty(),
        ModuleBody::RightJoin => Seq::<ParameterView>::empty(),
        ModuleBody::DownJoin => Seq::<ParameterView>::empty(),
        ModuleBody::Envelope { phase, .. } => seq![float_row("Phase"@, phase)],
        ModuleBody::Sample { file_name, file_missing, position } => seq![file_row("File"@, file_name@, file_missing), input_row("Pos"@, position)],
        ModuleBody::CompositionOutput { label, input } => seq![text_row("Label"@, label@), input_row("In"@, input)],
        ModuleBody::CompositionInput { label, value, .. } => seq![text_row("Label"@, label@), float_row("Value"@, value)],
        ModuleBody::Composition { name, surface } => seq![text_row("Name"@, name@)] + composition_input_rows(surface),
    }
}

/// Whether a parameter row written at `index` changes the body.
pub open spec fn set_applies(b: ModuleBody, index: usize, p: ParameterView) -> bool {
    match b {
        ModuleBody::Freq => false,
        ModuleBody::Gate => false,
        ModuleBody::Degree => false,
        ModuleBody::DegreeGate { degree } => int_update(degree, index, 0, p) is Some,
        ModuleBody::Rate { time } => time_update(time, index, 0, p) is Some,
        ModuleBody::Transpose { input, semitones } => input_update(input, index, 0, p) is Some || float_update(semitones, index, 1, p) is Some,
        ModuleBody::Osc { wave, frequency } => enum_update(wave, index, 0, p) is Some || float_update(frequency, index, 1, p) is Some,
        ModuleBody::Rise { gate, time } => input_update(gate, index, 0, p) is Some || time_update(time, index, 1, p) is Some,
        ModuleBody::Fall { gate, time } => input_update(gate, index, 0, p) is Some || time_update(time, index, 1, p) is Some,
        ModuleBody::Ramp { value, time } => float_update(value, index, 0, p) is Some || time_update(time, index, 1, p) is Some,
        ModuleBody::Adsr { rise, fall, attack, sustain } => input_update(rise, index, 0, p) is Some || input_update(fall, index, 1, p) is Some || float_update(attack, index, 2, p) is Some || float_update(sustain, index, 3, p) is Some,
        ModuleBody::Lowpass { input, frequency, q } => float_update(input, index, 0, p) is Some || float_update(frequency, index, 1, p) is Some || float_update(q, index, 2, p) is Some,
        ModuleBody::Highpass { input, frequency, q } => float_update(input, index, 0, p) is Some || float_update(frequency, index, 1, p) is Some || float_update(q, index, 2, p) is Some,
        ModuleBody::Comb { input, time, feedback, damp } => float_update(input, index, 0, p) is Some || time_update(time, index, 1, p) is Some || float_update(feedback, index, 2, p) is Some || float_update(damp, index, 3, p) is Some,
        ModuleBody::Allpass { input, time, feedback } => float_update(input, index, 0, p) is Some || time_update(time, index, 1, p) is Some || float_update(feedback, index, 2, p) is Some,
        ModuleBody::Delay { input, time } => float_update(input, index, 0, p) is Some || time_update(time, index, 1, p) is Some,
        ModuleBody::DelayTap { source, gain } => delay_source_update(source, index, 0, p) is Some || float_update(gain, index, 1, p) is Some,
        ModuleBody::Reverb { input, room, damp, mod_depth, diffusion } => float_update(input, index, 0, p) is Some || float_update(room, index, 1, p) is Some || float_update(damp, index, 2, p) is Some || float_update(mod_depth, index, 3, p) is Some || float_update(diffusion, index, 4, p) is Some,
        ModuleBody::Distortion { input, kind, drive, asymmetry } => float_update(input, index, 0, p) is Some || enum_update(kind, index, 1, p) is Some || float_update(drive, index, 2, p) is Some || float_update(asymmetry, index, 3, p) is Some,
        ModuleBody::Compressor { input, threshold, ratio, attack, release, makeup } => float_update(input, index, 0, p) is Some || float_update(threshold, index, 1, p) is Some || float_update(ratio, index, 2, p) is Some || float_update(attack, index, 3, p) is Some || float_update(release, index, 4, p) is Some || float_update(makeup, index, 5, p) is Some,
        ModuleBody::Flanger { input, rate, depth, feedback } => float_update(input, index, 0, p) is Some || float_update(rate, index, 1, p) is Some || float_update(depth, index, 2, p) is Some || float_update(feedback, index, 3, p) is Some,
        ModuleBody::Multiply { a, b } => float_update(a, index, 0, p) is Some || float_update(b, index, 1, p) is Some,
        ModuleBody::Add { a, b } => float_update(a, index, 0, p) is Some || float_update(b, index, 1, p) is Some,
        ModuleBody::GreaterThan { a, b } => float_update(a, index, 0, p) is Some || float_update(b, index, 1, p) is Some,
        ModuleBody::LessThan { a, b } => float_update(a, index, 0, p) is Some || float_update(b, index, 1, p) is Some,
        ModuleBody::Switch { select, a, b } => input_update(select, index, 0, p) is Some || float_update(a, index, 1, p) is Some || float_update(b, index, 2, p) is Some,
        ModuleBody::Random { gate } => input_update(gate, index, 0, p) is Some,
        ModuleBody::Probe { input } => float_update(input, index, 0, p) is Some,
        ModuleBody::Output { input, gain } => input_update(input, index, 0, p) is Some || float_update(gain, index, 1, p) is Some,
        ModuleBody::TurnRightDown => false,
        ModuleBody::TurnDownRight => false,
        ModuleBody::LeftSplit => false,
        ModuleBody::TopSplit => false,
        ModuleBody::RightJoin => false,
        ModuleBody::DownJoin => false,
        ModuleBody::Primitive(_) => false,
        ModuleBody::Envelope { phase, .. } => float_update(phase, index, 0, p) is Some,
        ModuleBody::Sample { position, .. } => input_update(position, index, 1, p) is Some,
        ModuleBody::CompositionOutput { label, input } => if index == 0 { text_update(label@, p) is Some } else { index == 1 && input_update(input, index, 1, p) is Some },
        ModuleBody::CompositionInput { label, value, .. } => if index == 0 { text_update(label@, p) is Some } else { index == 1 && float_update(value, index, 1, p) is Some },
        ModuleBody::Composition { name, surface } => if index == 0 { text_update(name@, p) is Some } else { composition_value_target(surface, (index - 1) as int) is Some && float_update(composition_value_of(surface, (index - 1) as int), 0, 0, p) is Some },
    }
}

/// The body after a parameter row is written at `index`, for bodies whose
/// rows are all numeric or choices.
pub open spec fn set_body(b: ModuleBody, index: usize, p: ParameterView) -> ModuleBody {
    match b {
        ModuleBody::Freq => b,
        ModuleBody::Gate => b,
        ModuleBody::Degree => b,
        ModuleBody::DegreeGate { degree } => ModuleBody::DegreeGate { degree: match int_update(degree, index, 0, p) { Some(x) => x, None => degree } },
        ModuleBody::Rate { time } => ModuleBody::Rate { time: match time_update(time, index, 0, p) { Some(x) => x, None => time } },
        ModuleBody::Transpose { input, semitones } => ModuleBody::Transpose { input: match input_update(input, index, 0, p) { Some(x) => x, None => input }, semitones: match float_update(semitones, index, 1, p) { Some(x) => x, None => semitones } },
        ModuleBody::Osc { wave, frequency } => ModuleBody::Osc { wave: EnumParam { index: match enum_update(wave, index, 0, p) { Some(i) => i, None => wave.index }, options: wave.options }, frequency: match float_update(frequency, index, 1, p) { Some(x) => x, None => frequency } },
        ModuleBody::Rise { gate, time } => ModuleBody::Rise { gate: match input_update(gate, index, 0, p) { Some(x) => x, None => gate }, time: match time_update(time, index, 1, p) { Some(x) => x, None => time } },
        ModuleBody::Fall { gate, time } => ModuleBody::Fall { gate: match input_update(gate, index, 0, p) { Some(x) => x, None => gate }, time: match time_update(time, index, 1, p) { Some(x) => x, None => time } },
        ModuleBody::Ramp { value, time } => ModuleBody::Ramp { value: match float_update(value, index, 0, p) { Some(x) => x, None => value }, time: match time_update(time, index, 1, p) { Some(x) => x, None => time } },
        ModuleBody::Adsr { rise, fall, attack, sustain } => ModuleBody::Adsr { rise: match input_update(rise, index, 0, p) { Some(x) => x, None => rise }, fall: match input_update(fall, index, 1, p) { Some(x) => x, None => fall }, attack: match float_update(attack, index, 2, p) { Some(x) => x, None => attack }, sustain: match float_update(sustain, index, 3, p) { Some(x) => x, None => sustain } },
        ModuleBody::Lowpass { input, frequency, q } => ModuleBody::Lowpass { input: match float_update(input, index, 0, p) { Some(x) => x, None => input }, frequency: match float_update(frequency, index, 1, p) { Some(x) => x, None => frequency }, q: match float_update(q, index, 2, p) { Some(x) => x, None => q } },
        ModuleBody::Highpass { input, frequency, q } => ModuleBody::Highpass { input: match float_update(input, index, 0, p) { Some(x) => x, None => input }, frequency: match float_update(frequency, index, 1, p) { Some(x) => x, None => frequency }, q: match float_update(q, index, 2, p) { Some(x) => x, None => q } },
        ModuleBody::Comb { input, time, feedback, damp } => ModuleBody::Comb { input: match float_update(input, index, 0, p) { Some(x) => x, None => input }, time: match time_update(time, index, 1, p) { Some(x) => x, None => time }, feedback: match float_update(feedback, index, 2, p) { Some(x) => x, None => feedback }, damp: match float_update(damp, index, 3, p) { Some(x) => x, None => damp } },
        ModuleBody::Allpass { input, time, feedback } => ModuleBody::Allpass { input: match float_update(input, index, 0, p) { Some(x) => x, None => input }, time: match time_update(time, index, 1, p) { Some(x) => x, None => time }, feedback: match float_update(feedback, index, 2, p) { Some(x) => x, None => feedback } },
        ModuleBody::Delay { input, time } => ModuleBody::Delay { input: match float_update(input, index, 0, p) { Some(x) => x, None => input }, time: match time_update(time, index, 1, p) { Some(x) => x, None => time } },
        ModuleBody::DelayTap { source, gain } => ModuleBody::DelayTap { source: DelaySourceParam { selected: match delay_source_update(source, index, 0, p) { Some(id) => Some(id), None => source.selected }, options: source.options }, gain: match float_update(gain, index, 1, p) { Some(x) => x, None => gain } },
        ModuleBody::Reverb { input, room, damp, mod_depth, diffusion } => ModuleBody::Reverb { input: match float_update(input, index, 0, p) { Some(x) => x, None => input }, room: match float_update(room, index, 1, p) { Some(x) => x, None => room }, damp: match float_update(damp, index, 2, p) { Some(x) => x, None => damp }, mod_depth: match float_update(mod_depth, index, 3, p) { Some(x) => x, None => mod_depth }, diffusion: match float_update(diffusion, index, 4, p) { Some(x) => x, None => diffusion } },
        ModuleBody::Distortion { input, kind, drive, asymmetry } => ModuleBody::Distortion { input: match float_update(input, index, 0, p) { Some(x) => x, None => input }, kind: EnumParam { index: match enum_update(kind, index, 1, p) { Some(i) => i, None => kind.index }, options: kind.options }, drive: match float_update(drive, index, 2, p) { Some(x) => x, None => drive }, asymmetry: match float_update(asymmetry, index, 3, p) { Some(x) => x, None => asymmetry } },
        ModuleBody::Compressor { input, threshold, ratio, attack, release, makeup } => ModuleBody::Compressor { input: match float_update(input, index, 0, p) { Some(x) => x, None => input }, threshold: match float_update(threshold, index, 1, p) { Some(x) => x, None => threshold }, ratio: match float_update(ratio, index, 2, p) { Some(x) => x, None => ratio }, attack: match float_update(attack, index, 3, p) { Some(x) => x, None => attack }, release: match float_update(release, index, 4, p) { Some(x) => x, None => release }, makeup: match float_update(makeup, index, 5, p) { Some(x) => x, None => makeup } },
        ModuleBody::Flanger { input, rate, depth, feedback } => ModuleBody::Flanger { input: match float_update(input, index, 0, p) { Some(x) => x, None => input }, rate: match float_update(rate, index, 1, p) { Some(x) => x, None => rate }, depth: match float_update(depth, index, 2, p) { Some(x) => x, None => depth }, feedback: match float_update(feedback, index, 3, p) { Some(x) => x, None => feedback } },
        ModuleBody::Multiply { a, b } => ModuleBody::Multiply { a: match float_update(a, index, 0, p) { Some(x) => x, None => a }, b: match float_update(b, index, 1, p) { Some(x) => x, None => b } },
        ModuleBody::Add { a, b } => ModuleBody::Add { a: match float_update(a, index, 0, p) { Some(x) => x, None => a }, b: match float_update(b, index, 1, p) { Some(x) => x, None => b } },
        ModuleBody::GreaterThan { a, b } => ModuleBody::GreaterThan { a: match float_update(a, index, 0, p) { Some(x) => x, None => a }, b: match float_update(b, index, 1, p) { Some(x) => x, None => b } },
        ModuleBody::LessThan { a, b } => ModuleBody::LessThan { a: match float_update(a, index, 0, p) { Some(x) => x, None => a }, b: match float_update(b, index, 1, p) { Some(x) => x, None => b } },
        ModuleBody::Switch { select, a, b } => ModuleBody::Switch { select: match input_update(select, index, 0, p) { Some(x) => x, None => select }, a: match float_update(a, index, 1, p) { Some(x) => x, None => a }, b: match float_update(b, index, 2, p) { Some(x) => x, None => b } },
        ModuleBody::Random { gate } => ModuleBody::Random { gate: match input_update(gate, index, 0, p) { Some(x) => x, None => gate } },
        ModuleBody::Probe { input } => ModuleBody::Probe { input: match float_update(input, index, 0, p) { Some(x) => x, None => input } },
        ModuleBody::Output { input, gain } => ModuleBody::Output { input: match input_update(input, index, 0, p) { Some(x) => x, None => input }, gain: match float_update(gain, index, 1, p) { Some(x) => x, None => gain } },
        ModuleBody::TurnRightDown => b,
        ModuleBody::TurnDownRight => b,
        ModuleBody::LeftSplit => b,
        ModuleBody::TopSplit => b,
        ModuleBody::RightJoin => b,
        ModuleBody::DownJoin => b,
        ModuleBody::Envelope { phase, points } => ModuleBody::Envelope { phase: match float_update(phase, index, 0, p) { Some(x) => x, None => phase }, points },
        ModuleBody::Sample { file_name, file_missing, position } => ModuleBody::Sample { file_name, file_missing, position: match input_update(position, index, 1, p) { Some(x) => x, None => position } },
        _ => b,
    }
}

/// The setting a row written at `index` lands in has its lower bound at most
/// its upper bound, where that row changes it: writing a number relies on it.
pub open spec fn row_bounds_ok(b: ModuleBody, index: usize, p: ParameterView) -> bool {
    match b {
        ModuleBody::DegreeGate { degree } => (int_update(degree, index, 0, p) is Some ==> degree.min <= degree.max),
        ModuleBody::Transpose { semitones, .. } => (float_update(semitones, index, 1, p) is Some ==> semitones.min <= semitones.max),
        ModuleBody::Osc { frequency, .. } => (float_update(frequency, index, 1, p) is Some ==> frequency.min <= frequency.max),
        ModuleBody::Ramp { value, .. } => (float_update(value, index, 0, p) is Some ==> value.min <= value.max),
        ModuleBody::Adsr { attack, sustain, .. } => (float_update(attack, index, 2, p) is Some ==> attack.min <= attack.max) && (float_update(sustain, index, 3, p) is Some ==> sustain.min <= sustain.max),
        ModuleBody::Lowpass { input, frequency, q } => (float_update(input, index, 0, p) is Some ==> input.min <= input.max) && (float_update(frequency, index, 1, p) is Some ==> frequency.min <= frequency.max) && (float_update(q, index, 2, p) is Some ==> q.min <= q.max),
        ModuleBody::Highpass { input, frequency, q } => (float_update(input, index, 0, p) is Some ==> input.min <= input.max) && (float_update(frequency, index, 1, p) is Some ==> frequency.min <= frequency.max) && (float_update(q, index, 2, p) is Some ==> q.min <= q.max),
        ModuleBody::Comb { input, feedback, damp, .. } => (float_update(input, index, 0, p) is Some ==> input.min <= input.max) && (float_update(feedback, index, 2, p) is Some ==> feedback.min <= feedback.max) && (float_update(damp, index, 3, p) is Some ==> damp.min <= damp.max),
        ModuleBody::Allpass { input, feedback, .. } => (float_update(input, index, 0, p) is Some ==> input.min <= input.max) && (float_update(feedback, index, 2, p) is Some ==> feedback.min <= feedback.max),
        ModuleBody::Delay { input, .. } => (float_update(input, index, 0, p) is Some ==> input.min <= input.max),
        ModuleBody::DelayTap { gain, .. } => (float_update(gain, index, 1, p) is Some ==> gain.min <= gain.max),
        ModuleBody::Reverb { input, room, damp, mod_depth, diffusion } => (float_update(input, index, 0, p) is Some ==> input.min <= input.max) && (float_update(room, index, 1, p) is Some ==> room.min <= room.max) && (float_update(damp, index, 2, p) is Some ==> damp.min <= damp.max) && (float_update(mod_depth, index, 3, p) is Some ==> mod_depth.min <= mod_depth.max) && (float_update(diffusion, index, 4, p) is Some ==> diffusion.min <= diffusion.max),
        ModuleBody::Distortion { input, drive, asymmetry, .. } => (float_update(input, index, 0, p) is Some ==> input.min <= input.max) && (float_update(drive, index, 2, p) is Some ==> drive.min <= drive.max) && (float_update(asymmetry, index, 3, p) is Some ==> asymmetry.min <= asymmetry.max),
        ModuleBody::Compressor { input, threshold, ratio, attack, release, makeup } => (float_update(input, index, 0, p) is Some ==> input.min <= input.max) && (float_update(threshold, index, 1, p) is Some ==> threshold.min <= threshold.max) && (float_update(ratio, index, 2, p) is Some ==> ratio.min <= ratio.max) && (float_update(attack, index, 3, p) is Some ==> attack.min <= attack.max) && (float_update(release, index, 4, p) is Some ==> release.min <= release.max) && (float_update(makeup, index, 5, p) is Some ==> makeup.min <= makeup.max),
        ModuleBody::Flanger { input, rate, depth, feedback } => (float_update(input, index, 0, p) is Some ==> input.min <= input.max) && (float_update(rate, index, 1, p) is Some ==> rate.min <= rate.max) && (float_update(depth, index, 2, p) is Some ==> depth.min <= depth.max) && (float_update(feedback, index, 3, p) is Some ==> feedback.min <= feedback.max),
        ModuleBody::Multiply { a, b } => (float_update(a, index, 0, p) is Some ==> a.min <= a.max) && (float_update(b, index, 1, p) is Some ==> b.min <= b.max),
        ModuleBody::Add { a, b } => (float_update(a, index, 0, p) is Some ==> a.min <= a.max) && (float_update(b, index, 1, p) is Some ==> b.min <= b.max),
        ModuleBody::GreaterThan { a, b } => (float_update(a, index, 0, p) is Some ==> a.min <= a.max) && (float_update(b, index, 1, p) is Some ==> b.min <= b.max),
        ModuleBody::LessThan { a, b } => (float_update(a, index, 0, p) is Some ==> a.min <= a.max) && (float_update(b, index, 1, p) is Some ==> b.min <= b.max),
        ModuleBody::Switch { a, b, .. } => (float_update(a, index, 1, p) is Some ==> a.min <= a.max) && (float_update(b, index, 2, p) is Some ==> b.min <= b.max),
        ModuleBody::Probe { input } => (float_update(input, index, 0, p) is Some ==> input.min <= input.max),
        ModuleBody::Output { gain, .. } => (float_update(gain, index, 1, p) is Some ==> gain.min <= gain.max),
        ModuleBody::Envelope { phase, .. } => (float_update(phase, index, 0, p) is Some ==> phase.min <= phase.max),
        ModuleBody::CompositionInput { value, .. } => float_update(value, index, 1, p) is Some ==> value.min <= value.max,
        ModuleBody::Composition { surface, .. } => index >= 1 && composition_value_target(surface, index - 1) is Some
            && float_update(composition_value_of(surface, index - 1), 0, 0, p) is Some ==> composition_value_of(
            surface,
            index - 1,
        ).min <= composition_value_of(surface, index - 1).max,
        _ => true,
    }
}

/// A place found for an id lies within the list.
pub proof fn lemma_first_module_index_bounds(ms: Seq<Module>, id: ModuleId)
    ensures
        first_module_index(ms, id) matches Some(i) ==> 0 <= i < ms.len() && ms[i].id == id,
    decreases ms.len(),
{
    if ms.len() > 0 {
        lemma_first_module_index_bounds(ms.drop_last(), id);
    }
}

/// Whether a row's number range, if it has one, is in order.
pub open spec fn range_in_order(v: ValueView) -> bool {
    match v {
        ValueView::Float { min, max, .. } => min <= max,
        ValueView::Int { min, max, .. } => min <= max,
        _ => true,
    }
}

/// Whether row `p` of a body can be written: it exists and its own number
/// range is in order; for a composition, whose value rows stand for nested
/// port modules, every one of those ranges is in order.
pub open spec fn row_writable(b: ModuleBody, p: int) -> bool {
    &&& 0 <= p < body_rows(b).len()
    &&& if b is Composition { body_bounds_ok(b) } else { range_in_order(body_rows(b)[p].value) }
}

/// A row that may be written can take any parameter.
#[verifier::spinoff_prover]
#[verifier::rlimit(60)]
pub proof fn lemma_row_writable(b: ModuleBody, index: usize, p: ParameterView)
    requires
        row_writable(b, index as int),
    ensures
        row_bounds_ok(b, index, p),
{
    if b is Composition {
        lemma_row_bounds(b, index, p);
    }
}

/// A body whose settings all have their bounds in order can take any row.
pub proof fn lemma_row_bounds(b: ModuleBody, index: usize, p: ParameterView)
    requires
        body_bounds_ok(b),
    ensures
        row_bounds_ok(b, index, p),
{
    if let ModuleBody::Composition { surface, .. } = b {
        if index >= 1 {
            if let Some(i) = composition_value_target(surface, index - 1) {
                lemma_first_module_index_bounds(surface.modules@, composition_input_ids(surface)[index - 1]);
                assert(input_value_bounds_ok(surface.modules@[i].body));
            }
        }
    }
}

/// A float setting within its range.
pub open spec fn float_settled(t: FloatParam) -> bool {
    t.min <= t.value <= t.max
}

/// An integer setting within its range.
pub open spec fn int_settled(t: IntParam) -> bool {
    t.min <= t.value <= t.max
}

/// A time with no exact seconds kept from a file, a bar fraction of at
/// least one over at least one.
pub open spec fn time_settled(t: TimeParam) -> bool {
    &&& t.exact_seconds is None
    &&& t.unit == TimeUnit::Bars ==> t.value >= 1 && t.denominator >= 1
}

/// A choice that is one of its options.
pub open spec fn enum_settled(t: EnumParam) -> bool {
    t.index < t.options@.len()
}

/// A delay source with no options, or one of its options chosen.
pub open spec fn source_settled(t: DelaySourceParam) -> bool {
    t.options@.len() == 0 || (t.selected matches Some(s) && t.options@.contains(s))
}

/// Every setting of a body is as its parameter row reads it back: values
/// within range, no exact seconds, bar fractions of at least one, choices
/// among their options.
pub open spec fn rows_settled(b: ModuleBody) -> bool {
    match b {
        ModuleBody::Freq => true,
        ModuleBody::Gate => true,
        ModuleBody::Degree => true,
        ModuleBody::DegreeGate { degree } => int_settled(degree),
        ModuleBody::Rate { time } => time_settled(time),
        ModuleBody::Transpose { semitones, .. } => float_settled(semitones),
        ModuleBody::Osc { wave, frequency } => enum_settled(wave) && float_settled(frequency),
        ModuleBody::Rise { time, .. } => time_settled(time),
        ModuleBody::Fall { time, .. } => time_settled(time),
        ModuleBody::Ramp { value, time } => float_settled(value) && time_settled(time),
        ModuleBody::Adsr { attack, sustain, .. } => float_settled(attack) && float_settled(sustain),
        ModuleBody::Lowpass { input, frequency, q } => float_settled(input) && float_settled(frequency) && float_settled(q),
        ModuleBody::Highpass { input, frequency, q } => float_settled(input) && float_settled(frequency) && float_settled(q),
        ModuleBody::Comb { input, time, feedback, damp } => float_settled(input) && time_settled(time) && float_settled(feedback) && float_settled(damp),
        ModuleBody::Allpass { input, time, feedback } => float_settled(input) && time_settled(time) && float_settled(feedback),
        ModuleBody::Delay { input, time } => float_settled(input) && time_settled(time),
        ModuleBody::DelayTap { source, gain } => source_settled(source) && float_settled(gain),
        ModuleBody::Reverb { input, room, damp, mod_depth, diffusion } => float_settled(input) && float_settled(room) && float_settled(damp) && float_settled(mod_depth) && float_settled(diffusion),
        ModuleBody::Distortion { input, kind, drive, asymmetry } => float_settled(input) && enum_settled(kind) && float_settled(drive) && float_settled(asymmetry),
        ModuleBody::Compressor { input, threshold, ratio, attack, release, makeup } => float_settled(input) && float_settled(threshold) && float_settled(ratio) && float_settled(attack) && float_settled(release) && float_settled(makeup),
        ModuleBody::Flanger { input, rate, depth, feedback } => float_settled(input) && float_settled(rate) && float_settled(depth) && float_settled(feedback),
        ModuleBody::Multiply { a, b } => float_settled(a) && float_settled(b),
        ModuleBody::Add { a, b } => float_settled(a) && float_settled(b),
        ModuleBody::GreaterThan { a, b } => float_settled(a) && float_settled(b),
        ModuleBody::LessThan { a, b } => float_settled(a) && float_settled(b),
        ModuleBody::Switch { a, b, .. } => float_settled(a) && float_settled(b),
        ModuleBody::Random { .. } => true,
        ModuleBody::Probe { input } => float_settled(input),
        ModuleBody::Output { gain, .. } => float_settled(gain),
        ModuleBody::TurnRightDown => true,
        ModuleBody::TurnDownRight => true,
        ModuleBody::LeftSplit => true,
        ModuleBody::TopSplit => true,
        ModuleBody::RightJoin => true,
        ModuleBody::DownJoin => true,
        ModuleBody::Envelope { phase, .. } => float_settled(phase),
        ModuleBody::Sample { .. } => true,
        ModuleBody::CompositionInput { value, .. } => float_settled(value),
        _ => true,
    }
}

/// Every bounded setting of the body has its lower bound at most its upper
/// bound, as every constructor makes them; writing a row relies on it.
pub open spec fn body_bounds_ok(b: ModuleBody) -> bool {
    match b {
        ModuleBody::Freq => true,
        ModuleBody::Gate => true,
        ModuleBody::Degree => true,
        ModuleBody::DegreeGate { degree } => degree.min <= degree.max,
        ModuleBody::Rate { time } => true,
        ModuleBody::Transpose { input, semitones } => semitones.min <= semitones.max,
        ModuleBody::Osc { wave, frequency } => frequency.min <= frequency.max,
        ModuleBody::Rise { gate, time } => true,
        ModuleBody::Fall { gate, time } => true,
        ModuleBody::Ramp { value, time } => value.min <= value.max,
        ModuleBody::Adsr { rise, fall, attack, sustain } => attack.min <= attack.max && sustain.min <= sustain.max,
        ModuleBody::Lowpass { input, frequency, q } => input.min <= input.max && frequency.min <= frequency.max && q.min <= q.max,
        ModuleBody::Highpass { input, frequency, q } => input.min <= input.max && frequency.min <= frequency.max && q.min <= q.max,
        ModuleBody::Comb { input, time, feedback, damp } => input.min <= input.max && feedback.min <= feedback.max && damp.min <= damp.max,
        ModuleBody::Allpass { input, time, feedback } => input.min <= input.max && feedback.min <= feedback.max,
        ModuleBody::Delay { input, time } => input.min <= input.max,
        ModuleBody::DelayTap { source, gain } => gain.min <= gain.max,
        ModuleBody::Reverb { input, room, damp, mod_depth, diffusion } => input.min <= input.max && room.min <= room.max && damp.min <= damp.max && mod_depth.min <= mod_depth.max && diffusion.min <= diffusion.max,
        ModuleBody::Distortion { input, kind, drive, asymmetry } => input.min <= input.max && drive.min <= drive.max && asymmetry.min <= asymmetry.max,
        ModuleBody::Compressor { input, threshold, ratio, attack, release, makeup } => input.min <= input.max && threshold.min <= threshold.max && ratio.min <= ratio.max && attack.min <= attack.max && release.min <= release.max && makeup.min <= makeup.max,
        ModuleBody::Flanger { input, rate, depth, feedback } => input.min <= input.max && rate.min <= rate.max && depth.min <= depth.max && feedback.min <= feedback.max,
        ModuleBody::Multiply { a, b } => a.min <= a.max && b.min <= b.max,
        ModuleBody::Add { a, b } => a.min <= a.max && b.min <= b.max,
        ModuleBody::GreaterThan { a, b } => a.min <= a.max && b.min <= b.max,
        ModuleBody::LessThan { a, b } => a.min <= a.max && b.min <= b.max,
        ModuleBody::Switch { select, a, b } => a.min <= a.max && b.min <= b.max,
        ModuleBody::Random { gate } => true,
        ModuleBody::Probe { input } => input.min <= input.max,
        ModuleBody::Output { input, gain } => gain.min <= gain.max,
        ModuleBody::TurnRightDown => true,
        ModuleBody::TurnDownRight => true,
        ModuleBody::LeftSplit => true,
        ModuleBody::TopSplit => true,
        ModuleBody::RightJoin => true,
        ModuleBody::DownJoin => true,
        ModuleBody::Envelope { phase, .. } => phase.min <= phase.max,
        ModuleBody::CompositionInput { value, .. } => value.min <= value.max,
        ModuleBody::Composition { surface, .. } => forall|i: int| 0 <= i < surface.modules@.len() ==> input_value_bounds_ok(#[trigger] surface.modules@[i].body),
        _ => true,
    }
}

/// Whether every composition input among the modules has its bounds in order.
fn inputs_bounded(ms: &Vec<Module>) -> (r: bool)
    ensures
        r == forall|i: int| 0 <= i < ms@.len() ==> input_value_bounds_ok(#[trigger] ms@[i].body),
{
    let mut i: usize = 0;
    while i < ms.len()
        invariant
            i <= ms@.len(),
            forall|k: int| 0 <= k < i ==> input_value_bounds_ok(#[trigger] ms@[k].body),
        decreases ms@.len() - i,
    {
        match &ms[i].body {
            ModuleBody::CompositionInput { value, .. } => {
                if value.min > value.max {
                    assert(!input_value_bounds_ok(ms@[i as int].body));
                    return false;
                }
            },
            _ => {},
        }
        i = i + 1;
    }
    true
}

/// Whether every bounded setting of a body has its lower bound at or below its upper one.
/// Whether row `p` of a body can be written (see `row_writable`).
pub fn row_writable_check(b: &ModuleBody, p: usize) -> (r: bool)
    ensures
        r == row_writable(*b, p as int),
{
    let rows = b.parameters();
    if p >= rows.len() {
        return false;
    }
    match b {
        ModuleBody::Composition { .. } => body_bounds_check(b),
        _ => match &rows[p].value {
            ParameterValue::Float { min, max, .. } => *min <= *max,
            ParameterValue::Int { min, max, .. } => *min <= *max,
            _ => true,
        },
    }
}

pub fn body_bounds_check(b: &ModuleBody) -> (r: bool)
    ensures
        r == body_bounds_ok(*b),
{
    match b {
        ModuleBody::Freq => true,
        ModuleBody::Gate => true,
        ModuleBody::Degree => true,
        ModuleBody::DegreeGate { degree } => degree.min <= degree.max,
        ModuleBody::Rate { time } => true,
        ModuleBody::Transpose { input, semitones } => semitones.min <= semitones.max,
        ModuleBody::Osc { wave, frequency } => frequency.min <= frequency.max,
        ModuleBody::Rise { gate, time } => true,
        ModuleBody::Fall { gate, time } => true,
        ModuleBody::Ramp { value, time } => value.min <= value.max,
        ModuleBody::Adsr { rise, fall, attack, sustain } => attack.min <= attack.max && sustain.min <= sustain.max,
        ModuleBody::Lowpass { input, frequency, q } => input.min <= input.max && frequency.min <= frequency.max && q.min <= q.max,
        ModuleBody::Highpass { input, frequency, q } => input.min <= input.max && frequency.min <= frequency.max && q.min <= q.max,
        ModuleBody::Comb { input, time, feedback, damp } => input.min <= input.max && feedback.min <= feedback.max && damp.min <= damp.max,
        ModuleBody::Allpass { input, time, feedback } => input.min <= input.max && feedback.min <= feedback.max,
        ModuleBody::Delay { input, time } => input.min <= input.max,
        ModuleBody::DelayTap { source, gain } => gain.min <= gain.max,
        ModuleBody::Reverb { input, room, damp, mod_depth, diffusion } => input.min <= input.max && room.min <= room.max && damp.min <= damp.max && mod_depth.min <= mod_depth.max && diffusion.min <= diffusion.max,
        ModuleBody::Distortion { input, kind, drive, asymmetry } => input.min <= input.max && drive.min <= drive.max && asymmetry.min <= asymmetry.max,
        ModuleBody::Compressor { input, threshold, ratio, attack, release, makeup } => input.min <= input.max && threshold.min <= threshold.max && ratio.min <= ratio.max && attack.min <= attack.max && release.min <= release.max && makeup.min <= makeup.max,
        ModuleBody::Flanger { input, rate, depth, feedback } => input.min <= input.max && rate.min <= rate.max && depth.min <= depth.max && feedback.min <= feedback.max,
        ModuleBody::Multiply { a, b } => a.min <= a.max && b.min <= b.max,
        ModuleBody::Add { a, b } => a.min <= a.max && b.min <= b.max,
        ModuleBody::GreaterThan { a, b } => a.min <= a.max && b.min <= b.max,
        ModuleBody::LessThan { a, b } => a.min <= a.max && b.min <= b.max,
        ModuleBody::Switch { select, a, b } => a.min <= a.max && b.min <= b.max,
        ModuleBody::Random { gate } => true,
        ModuleBody::Probe { input } => input.min <= input.max,
        ModuleBody::Output { input, gain } => gain.min <= gain.max,
        ModuleBody::TurnRightDown => true,
        ModuleBody::TurnDownRight => true,
        ModuleBody::LeftSplit => true,
        ModuleBody::TopSplit => true,
        ModuleBody::RightJoin => true,
        ModuleBody::DownJoin => true,
        ModuleBody::Envelope { phase, .. } => phase.min <= phase.max,
        ModuleBody::CompositionInput { value, .. } => value.min <= value.max,
        ModuleBody::Composition { surface, .. } => inputs_bounded(&surface.modules),
        _ => true,
    }
}


/// Whether `b` is the body a new module of kind `k` starts with.
pub open spec fn is_default_body(k: ModuleKind, b: ModuleBody) -> bool {
    match k {
        ModuleKind::Primitive => b matches ModuleBody::Primitive(p) && p.label@ == "Pass"@ && p.inputs@ == seq![InputKind::In],
        ModuleKind::Freq => b == ModuleBody::Freq,
        ModuleKind::Gate => b == ModuleBody::Gate,
        ModuleKind::Degree => b == ModuleBody::Degree,
        ModuleKind::TurnRightDown => b == ModuleBody::TurnRightDown,
        ModuleKind::TurnDownRight => b == ModuleBody::TurnDownRight,
        ModuleKind::LeftSplit => b == ModuleBody::LeftSplit,
        ModuleKind::TopSplit => b == ModuleBody::TopSplit,
        ModuleKind::RightJoin => b == ModuleBody::RightJoin,
        ModuleKind::DownJoin => b == ModuleBody::DownJoin,
        ModuleKind::DegreeGate => b == (ModuleBody::DegreeGate { degree: IntParam { value: 0i32, min: 0i32, max: 12i32 } }),
        ModuleKind::Rate => b == (ModuleBody::Rate { time: TimeParam { value: 100, unit: TimeUnit::Seconds, denominator: 4, connected: true, exact_seconds: None } }),
        ModuleKind::Transpose => b == (ModuleBody::Transpose { input: InputParam { connected: true }, semitones: FloatParam { value: 0i32, min: -2400i32, max: 2400i32, step: 100i32, connected: true } }),
        ModuleKind::Rise => b == (ModuleBody::Rise { gate: InputParam { connected: true }, time: TimeParam { value: 10, unit: TimeUnit::Seconds, denominator: 4, connected: true, exact_seconds: None } }),
        ModuleKind::Fall => b == (ModuleBody::Fall { gate: InputParam { connected: true }, time: TimeParam { value: 10, unit: TimeUnit::Seconds, denominator: 4, connected: true, exact_seconds: None } }),
        ModuleKind::Ramp => b == (ModuleBody::Ramp { value: FloatParam { value: 0i32, min: -100000i32, max: 100000i32, step: 10i32, connected: true }, time: TimeParam { value: 10, unit: TimeUnit::Seconds, denominator: 4, connected: true, exact_seconds: None } }),
        ModuleKind::Adsr => b == (ModuleBody::Adsr { rise: InputParam { connected: true }, fall: InputParam { connected: true }, attack: FloatParam { value: 25i32, min: 0i32, max: 100i32, step: 5i32, connected: true }, sustain: FloatParam { value: 70i32, min: 0i32, max: 100i32, step: 5i32, connected: true } }),
        ModuleKind::Lowpass => b == (ModuleBody::Lowpass { input: FloatParam { value: 0i32, min: -100i32, max: 100i32, step: 1i32, connected: true }, frequency: FloatParam { value: 25i32, min: 0i32, max: 99i32, step: 1i32, connected: true }, q: FloatParam { value: 70i32, min: 10i32, max: 1000i32, step: 10i32, connected: true } }),
        ModuleKind::Highpass => b == (ModuleBody::Highpass { input: FloatParam { value: 0i32, min: -100i32, max: 100i32, step: 1i32, connected: true }, frequency: FloatParam { value: 25i32, min: 0i32, max: 100i32, step: 1i32, connected: true }, q: FloatParam { value: 70i32, min: 10i32, max: 1000i32, step: 10i32, connected: true } }),
        ModuleKind::Comb => b == (ModuleBody::Comb { input: FloatParam { value: 0i32, min: -100i32, max: 100i32, step: 1i32, connected: true }, time: TimeParam { value: 441, unit: TimeUnit::Samples, denominator: 4, connected: true, exact_seconds: None }, feedback: FloatParam { value: 30i32, min: 0i32, max: 99i32, step: 1i32, connected: true }, damp: FloatParam { value: 20i32, min: 0i32, max: 100i32, step: 1i32, connected: true } }),
        ModuleKind::Allpass => b == (ModuleBody::Allpass { input: FloatParam { value: 0i32, min: -100i32, max: 100i32, step: 1i32, connected: true }, time: TimeParam { value: 441, unit: TimeUnit::Samples, denominator: 4, connected: true, exact_seconds: None }, feedback: FloatParam { value: 50i32, min: 0i32, max: 99i32, step: 1i32, connected: true } }),
        ModuleKind::Delay => b == (ModuleBody::Delay { input: FloatParam { value: 0i32, min: -100i32, max: 100i32, step: 1i32, connected: true }, time: TimeParam { value: 4410, unit: TimeUnit::Samples, denominator: 4, connected: true, exact_seconds: None } }),
        ModuleKind::Reverb => b == (ModuleBody::Reverb { input: FloatParam { value: 0i32, min: -100i32, max: 100i32, step: 1i32, connected: true }, room: FloatParam { value: 50i32, min: 0i32, max: 100i32, step: 5i32, connected: true }, damp: FloatParam { value: 30i32, min: 0i32, max: 100i32, step: 5i32, connected: true }, mod_depth: FloatParam { value: 50i32, min: 0i32, max: 100i32, step: 5i32, connected: true }, diffusion: FloatParam { value: 50i32, min: 0i32, max: 100i32, step: 5i32, connected: true } }),
        ModuleKind::Compressor => b == (ModuleBody::Compressor { input: FloatParam { value: 0i32, min: -100i32, max: 100i32, step: 1i32, connected: true }, threshold: FloatParam { value: 50i32, min: 1i32, max: 100i32, step: 1i32, connected: true }, ratio: FloatParam { value: 400i32, min: 100i32, max: 2000i32, step: 50i32, connected: true }, attack: FloatParam { value: 1i32, min: 0i32, max: 50i32, step: 1i32, connected: true }, release: FloatParam { value: 30i32, min: 1i32, max: 200i32, step: 1i32, connected: true }, makeup: FloatParam { value: 100i32, min: 0i32, max: 400i32, step: 10i32, connected: true } }),
        ModuleKind::Flanger => b == (ModuleBody::Flanger { input: FloatParam { value: 0i32, min: -100i32, max: 100i32, step: 1i32, connected: true }, rate: FloatParam { value: 50i32, min: 10i32, max: 1000i32, step: 10i32, connected: true }, depth: FloatParam { value: 50i32, min: 0i32, max: 100i32, step: 5i32, connected: true }, feedback: FloatParam { value: 35i32, min: 0i32, max: 95i32, step: 5i32, connected: true } }),
        ModuleKind::Multiply => b == (ModuleBody::Multiply { a: FloatParam { value: 100i32, min: 0i32, max: 10000i32, step: 5i32, connected: true }, b: FloatParam { value: 100i32, min: 0i32, max: 10000i32, step: 5i32, connected: true } }),
        ModuleKind::Add => b == (ModuleBody::Add { a: FloatParam { value: 0i32, min: -100000i32, max: 100000i32, step: 5i32, connected: true }, b: FloatParam { value: 0i32, min: -100000i32, max: 100000i32, step: 5i32, connected: true } }),
        ModuleKind::GreaterThan => b == (ModuleBody::GreaterThan { a: FloatParam { value: 0i32, min: -100000i32, max: 100000i32, step: 5i32, connected: true }, b: FloatParam { value: 0i32, min: -100000i32, max: 100000i32, step: 5i32, connected: true } }),
        ModuleKind::LessThan => b == (ModuleBody::LessThan { a: FloatParam { value: 0i32, min: -100000i32, max: 100000i32, step: 5i32, connected: true }, b: FloatParam { value: 0i32, min: -100000i32, max: 100000i32, step: 5i32, connected: true } }),
        ModuleKind::Switch => b == (ModuleBody::Switch { select: InputParam { connected: true }, a: FloatParam { value: 0i32, min: -100000i32, max: 100000i32, step: 10i32, connected: true }, b: FloatParam { value: 100i32, min: -100000i32, max: 100000i32, step: 10i32, connected: true } }),
        ModuleKind::Random => b == (ModuleBody::Random { gate: InputParam { connected: true } }),
        ModuleKind::Probe => b == (ModuleBody::Probe { input: FloatParam { value: 0i32, min: -100i32, max: 100i32, step: 1i32, connected: true } }),
        ModuleKind::Output => b == (ModuleBody::Output { input: InputParam { connected: true }, gain: FloatParam { value: 100i32, min: 0i32, max: 100i32, step: 1i32, connected: true } }),
        ModuleKind::Osc => b matches ModuleBody::Osc { wave, frequency } && wave.index == 0
            && strings_view(wave.options@) == seq!["sin"@, "square"@, "tri"@, "saw"@, "rsaw"@, "noise"@]
            && frequency == (FloatParam { value: 44_000, min: 1, max: 200_000, step: 100, connected: true }),
        ModuleKind::Envelope => b matches ModuleBody::Envelope { phase, points }
            && phase == (FloatParam { value: 0, min: 0, max: 100, step: 1, connected: true })
            && points@ == seq![EnvPoint { time: 0, value: 0, curve: false }, EnvPoint { time: 100, value: 100, curve: false }],
        ModuleKind::DelayTap => b matches ModuleBody::DelayTap { source, gain } && source.selected is None
            && source.options@.len() == 0 && gain == (FloatParam { value: 50, min: 0, max: 70, step: 5, connected: true }),
        ModuleKind::Distortion => b matches ModuleBody::Distortion { input, kind, drive, asymmetry }
            && input == (FloatParam { value: 0, min: -100i32, max: 100, step: 1, connected: true }) && kind.index == 0
            && strings_view(kind.options@) == seq!["tube"@, "tape"@, "fuzz"@, "fold"@, "clip"@]
            && drive == (FloatParam { value: 200, min: 10, max: 2000, step: 10, connected: true })
            && asymmetry == (FloatParam { value: 0, min: -100i32, max: 100, step: 5, connected: true }),
        ModuleKind::Sample => b matches ModuleBody::Sample { file_name, file_missing, position } && file_name@ == "none"@
            && !file_missing && position == (InputParam { connected: true }),
        ModuleKind::CompositionOutput => b matches ModuleBody::CompositionOutput { label, input } && label@ == "Output"@
            && input == (InputParam { connected: true }),
        ModuleKind::CompositionInput => b matches ModuleBody::CompositionInput { label, kind, value } && label@ == "Input"@
            && kind == InputKind::A && value == (FloatParam { value: 0, min: -100_000i32, max: 100_000, step: 1, connected: true }),
        ModuleKind::Composition => b matches ModuleBody::Composition { name, surface } && name@ == "Composition"@
            && surface.cursor == (GridPos { x: 0, y: 0 }) && surface.modules@.len() == 0,
    }
}

impl ModuleKind {
    /// The body a new module of this kind starts with.
    pub fn default_body(self) -> (r: ModuleBody)
        ensures
            is_default_body(self, r),
            body_kind(r) == self,
            body_bounds_ok(r),
    {
        match self {
            ModuleKind::Primitive => {
                let inputs = vec![InputKind::In];
                assert(inputs@ =~= seq![InputKind::In]);
                let label = "Pass".to_owned();
                assert(label@ == "Pass"@);
                let r = ModuleBody::Primitive(PrimitiveModule { label, inputs });
                assert(is_default_body(ModuleKind::Primitive, r));
                r
            }
            ModuleKind::Freq => ModuleBody::Freq,
            ModuleKind::Gate => ModuleBody::Gate,
            ModuleKind::Degree => ModuleBody::Degree,
            ModuleKind::TurnRightDown => ModuleBody::TurnRightDown,
            ModuleKind::TurnDownRight => ModuleBody::TurnDownRight,
            ModuleKind::LeftSplit => ModuleBody::LeftSplit,
            ModuleKind::TopSplit => ModuleBody::TopSplit,
            ModuleKind::RightJoin => ModuleBody::RightJoin,
            ModuleKind::DownJoin => ModuleBody::DownJoin,
            ModuleKind::DegreeGate => ModuleBody::DegreeGate { degree: int_param(0, 12, 0) },
            ModuleKind::Rate => ModuleBody::Rate { time: time_param(100, TimeUnit::Seconds) },
            ModuleKind::Transpose => ModuleBody::Transpose { input: input_param(), semitones: float_param(-2400, 2400, 100, 0) },
            ModuleKind::Rise => ModuleBody::Rise { gate: input_param(), time: time_param(10, TimeUnit::Seconds) },
            ModuleKind::Fall => ModuleBody::Fall { gate: input_param(), time: time_param(10, TimeUnit::Seconds) },
            ModuleKind::Ramp => ModuleBody::Ramp { value: float_param(-100000, 100000, 10, 0), time: time_param(10, TimeUnit::Seconds) },
            ModuleKind::Adsr => ModuleBody::Adsr { rise: input_param(), fall: input_param(), attack: float_param(0, 100, 5, 25), sustain: float_param(0, 100, 5, 70) },
            ModuleKind::Lowpass => ModuleBody::Lowpass { input: float_param(-100, 100, 1, 0), frequency: float_param(0, 99, 1, 25), q: float_param(10, 1000, 10, 70) },
            ModuleKind::Highpass => ModuleBody::Highpass { input: float_param(-100, 100, 1, 0), frequency: float_param(0, 100, 1, 25), q: float_param(10, 1000, 10, 70) },
            ModuleKind::Comb => ModuleBody::Comb { input: float_param(-100, 100, 1, 0), time: time_param(441, TimeUnit::Samples), feedback: float_param(0, 99, 1, 30), damp: float_param(0, 100, 1, 20) },
            ModuleKind::Allpass => ModuleBody::Allpass { input: float_param(-100, 100, 1, 0), time: time_param(441, TimeUnit::Samples), feedback: float_param(0, 99, 1, 50) },
            ModuleKind::Delay => ModuleBody::Delay { input: float_param(-100, 100, 1, 0), time: time_param(4410, TimeUnit::Samples) },
            ModuleKind::Reverb => ModuleBody::Reverb { input: float_param(-100, 100, 1, 0), room: float_param(0, 100, 5, 50), damp: float_param(0, 100, 5, 30), mod_depth: float_param(0, 100, 5, 50), diffusion: float_param(0, 100, 5, 50) },
            ModuleKind::Compressor => ModuleBody::Compressor { input: float_param(-100, 100, 1, 0), threshold: float_param(1, 100, 1, 50), ratio: float_param(100, 2000, 50, 400), attack: float_param(0, 50, 1, 1), release: float_param(1, 200, 1, 30), makeup: float_param(0, 400, 10, 100) },
            ModuleKind::Flanger => ModuleBody::Flanger { input: float_param(-100, 100, 1, 0), rate: float_param(10, 1000, 10, 50), depth: float_param(0, 100, 5, 50), feedback: float_param(0, 95, 5, 35) },
            ModuleKind::Multiply => ModuleBody::Multiply { a: float_param(0, 10000, 5, 100), b: float_param(0, 10000, 5, 100) },
            ModuleKind::Add => ModuleBody::Add { a: float_param(-100000, 100000, 5, 0), b: float_param(-100000, 100000, 5, 0) },
            ModuleKind::GreaterThan => ModuleBody::GreaterThan { a: float_param(-100000, 100000, 5, 0), b: float_param(-100000, 100000, 5, 0) },
            ModuleKind::LessThan => ModuleBody::LessThan { a: float_param(-100000, 100000, 5, 0), b: float_param(-100000, 100000, 5, 0) },
            ModuleKind::Switch => ModuleBody::Switch { select: input_param(), a: float_param(-100000, 100000, 10, 0), b: float_param(-100000, 100000, 10, 100) },
            ModuleKind::Random => ModuleBody::Random { gate: input_param() },
            ModuleKind::Probe => ModuleBody::Probe { input: float_param(-100, 100, 1, 0) },
            ModuleKind::Output => ModuleBody::Output { input: input_param(), gain: float_param(0, 100, 1, 100) },
            ModuleKind::Osc => {
                let names: [&str; 6] = ["sin", "square", "tri", "saw", "rsaw", "noise"];
                let wave = enum_param(&names, 0);
                assert(strs_view(names@) =~= seq!["sin"@, "square"@, "tri"@, "saw"@, "rsaw"@, "noise"@]);
                ModuleBody::Osc { wave, frequency: float_param(1, 200_000, 100, 44_000) }
            }
            ModuleKind::Envelope => ModuleBody::Envelope {
                phase: float_param(0, 100, 1, 0),
                points: vec![EnvPoint { time: 0, value: 0, curve: false }, EnvPoint { time: 100, value: 100, curve: false }],
            },
            ModuleKind::DelayTap => ModuleBody::DelayTap {
                source: DelaySourceParam { selected: None, options: Vec::new() },
                gain: float_param(0, 70, 5, 50),
            },
            ModuleKind::Distortion => {
                let names: [&str; 5] = ["tube", "tape", "fuzz", "fold", "clip"];
                let kind = enum_param(&names, 0);
                assert(strs_view(names@) =~= seq!["tube"@, "tape"@, "fuzz"@, "fold"@, "clip"@]);
                ModuleBody::Distortion {
                    input: float_param(-100, 100, 1, 0),
                    kind,
                    drive: float_param(10, 2000, 10, 200),
                    asymmetry: float_param(-100, 100, 5, 0),
                }
            }
            ModuleKind::Sample => ModuleBody::Sample { file_name: "none".to_owned(), file_missing: false, position: input_param() },
            ModuleKind::CompositionOutput => ModuleBody::CompositionOutput { label: "Output".to_owned(), input: input_param() },
            ModuleKind::CompositionInput => ModuleBody::CompositionInput {
                label: "Input".to_owned(),
                kind: InputKind::A,
                value: float_param(-100_000, 100_000, 1, 0),
            },
            ModuleKind::Composition => ModuleBody::Composition {
                name: "Composition".to_owned(),
                surface: PatchSurface { cursor: GridPos::new(0, 0), modules: Vec::new() },
            },
        }
    }
}

fn port_pairs_of(modules: &Vec<Module>, kind: ModuleKind, by_x: bool) -> (r: Vec<(u16, ModuleId)>)
    ensures
        r@ == port_pairs(modules@, kind, by_x),
{
    let mut r: Vec<(u16, ModuleId)> = Vec::new();
    let mut i: usize = 0;
    while i < modules.len()
        invariant
            i <= modules@.len(),
            r@ == port_pairs(modules@.take(i as int), kind, by_x),
        decreases modules@.len() - i,
    {
        let m = &modules[i];
        assert(modules@.take(i + 1).drop_last() =~= modules@.take(i as int));
        if !m.disabled && m.body.kind() == kind {
            let key = if by_x { m.position.x } else { m.position.y };
            r.push((key, m.id));
        }
        i = i + 1;
    }
    assert(modules@.take(i as int) =~= modules@);
    r
}

proof fn lemma_insert_by_key(s: Seq<(u16, ModuleId)>, p: (u16, ModuleId), j: int)
    requires
        0 <= j <= s.len(),
        forall|k: int| j <= k < s.len() ==> (#[trigger] s[k]).0 > p.0,
        j == 0 || s[j - 1].0 <= p.0,
    ensures
        insert_by_key(s, p) == s.take(j) + seq![p] + s.skip(j),
    decreases s.len(),
{
    if s.len() == 0 {
        assert(s.take(j) + seq![p] + s.skip(j) =~= seq![p]);
    } else if j == s.len() {
        assert(s.take(j) + seq![p] + s.skip(j) =~= s.push(p));
    } else {
        let t = s.drop_last();
        assert forall|k: int| j <= k < t.len() implies (#[trigger] t[k]).0 > p.0 by {
            assert(t[k] == s[k]);
        }
        if j > 0 {
            assert(t[j - 1] == s[j - 1]);
        }
        lemma_insert_by_key(t, p, j);
        assert(t.take(j) + seq![p] + t.skip(j) + seq![s.last()] =~= s.take(j) + seq![p] + s.skip(j));
    }
}

fn insert_pair(v: &mut Vec<(u16, ModuleId)>, p: (u16, ModuleId))
    ensures
        final(v)@ == insert_by_key(old(v)@, p),
{
    let mut j = v.len();
    while j > 0 && v[j - 1].0 > p.0
        invariant
            j <= v@.len(),
            v@ == old(v)@,
            forall|k: int| j <= k < v@.len() ==> (#[trigger] v@[k]).0 > p.0,
        decreases j,
    {
        j = j - 1;
    }
    proof {
        lemma_insert_by_key(v@, p, j as int);
    }
    v.insert(j, p);
    assert(v@ =~= old(v)@.take(j as int) + seq![p] + old(v)@.skip(j as int));
}

fn sort_pairs(v: &Vec<(u16, ModuleId)>) -> (r: Vec<(u16, ModuleId)>)
    ensures
        r@ == sort_by_key(v@),
{
    let mut r: Vec<(u16, ModuleId)> = Vec::new();
    let mut i: usize = 0;
    while i < v.len()
        invariant
            i <= v@.len(),
            r@ == sort_by_key(v@.take(i as int)),
        decreases v@.len() - i,
    {
        assert(v@.take(i + 1).drop_last() =~= v@.take(i as int));
        insert_pair(&mut r, v[i]);
        i = i + 1;
    }
    assert(v@.take(i as int) =~= v@);
    r
}

fn composition_ports(surface: &PatchSurface, kind: ModuleKind, by_x: bool) -> (r: Vec<ModuleId>)
    ensures
        r@ == composition_ports_of(*surface, kind, by_x),
{
    let pairs = port_pairs_of(&surface.modules, kind, by_x);
    let sorted = sort_pairs(&pairs);
    let mut r: Vec<ModuleId> = Vec::new();
    let mut i: usize = 0;
    while i < sorted.len()
        invariant
            i <= sorted@.len(),
            r@ == sorted@.take(i as int).map_values(|p: (u16, ModuleId)| p.1),
        decreases sorted@.len() - i,
    {
        r.push(sorted[i].1);
        assert(r@ =~= sorted@.take(i + 1).map_values(|p: (u16, ModuleId)| p.1));
        i = i + 1;
    }
    assert(sorted@.take(i as int) =~= sorted@);
    r
}

/// The ids of a composition's inputs, top to bottom.
pub fn composition_inputs(surface: &PatchSurface) -> (r: Vec<ModuleId>)
    ensures
        r@ == composition_input_ids(*surface),
{
    composition_ports(surface, ModuleKind::CompositionInput, false)
}

/// The ids of a composition's outputs, left to right.
pub fn composition_outputs(surface: &PatchSurface) -> (r: Vec<ModuleId>)
    ensures
        r@ == composition_output_ids(*surface),
{
    composition_ports(surface, ModuleKind::CompositionOutput, true)
}

/// A list that holds a module of an id has a first one.
pub proof fn lemma_first_module_index_found(ms: Seq<Module>, id: ModuleId, i: int)
    requires
        0 <= i < ms.len(),
        ms[i].id == id,
    ensures
        first_module_index(ms, id) is Some,
    decreases ms.len(),
{
    if i < ms.len() - 1 {
        assert(ms.drop_last()[i] == ms[i]);
        lemma_first_module_index_found(ms.drop_last(), id, i);
    }
}

proof fn lemma_first_module_index(ms: Seq<Module>, id: ModuleId, i: int)
    requires
        0 <= i <= ms.len(),
        forall|k: int| 0 <= k < i ==> (#[trigger] ms[k]).id != id,
    ensures
        i == ms.len() ==> first_module_index(ms, id) is None,
        i < ms.len() && ms[i].id == id ==> first_module_index(ms, id) == Some(i),
    decreases ms.len(),
{
    if ms.len() > 0 {
        let t = ms.drop_last();
        if i < ms.len() {
            assert forall|k: int| 0 <= k < (if i < t.len() { i } else { t.len() as int }) implies (#[trigger] t[k]).id != id by {
                assert(t[k] == ms[k]);
            }
            if i < t.len() {
                lemma_first_module_index(t, id, i);
                if ms[i].id == id {
                    assert(t[i] == ms[i]);
                }
            } else {
                lemma_first_module_index(t, id, t.len() as int);
            }
        } else {
            assert forall|k: int| 0 <= k < t.len() implies (#[trigger] t[k]).id != id by {
                assert(t[k] == ms[k]);
            }
            lemma_first_module_index(t, id, t.len() as int);
        }
    }
}

/// The position of the first module with the given id.
pub fn find_module(modules: &Vec<Module>, id: ModuleId) -> (r: Option<usize>)
    ensures
        r == match first_module_index(modules@, id) {
            Some(i) => Some(i as usize),
            None => None,
        },
        r matches Some(i) ==> i < modules@.len() && modules@[i as int].id == id
            && first_module_index(modules@, id) == Some(i as int),
        r is None ==> first_module_index(modules@, id) is None,
{
    let mut i: usize = 0;
    while i < modules.len()
        invariant
            i <= modules@.len(),
            forall|k: int| 0 <= k < i ==> (#[trigger] modules@[k]).id != id,
        decreases modules@.len() - i,
    {
        if modules[i].id == id {
            proof {
                lemma_first_module_index(modules@, id, i as int);
            }
            return Some(i);
        }
        i = i + 1;
    }
    proof {
        lemma_first_module_index(modules@, id, i as int);
    }
    None
}

fn composition_input_parameters(surface: &PatchSurface) -> (r: Vec<ModuleParameter>)
    ensures
        params_view(r@) == composition_input_rows(*surface),
{
    let ids = composition_inputs(surface);
    let mut r: Vec<ModuleParameter> = Vec::new();
    let mut k: usize = 0;
    while k < ids.len()
        invariant
            k <= ids@.len(),
            ids@ == composition_input_ids(*surface),
            params_view(r@) == input_rows_for(ids@.take(k as int), surface.modules@),
        decreases ids@.len() - k,
    {
        assert(ids@.take(k + 1).drop_last() =~= ids@.take(k as int));
        assert(ids@.take(k + 1).last() == ids@[k as int]);
        if let Some(i) = find_module(&surface.modules, ids[k]) {
            match &surface.modules[i].body {
                ModuleBody::CompositionInput { label, value, .. } => {
                    let ghost before = r@;
                    r.push(float_parameter(label.clone(), *value));
                    assert(params_view(r@) =~= params_view(before).push(r@.last()@));
                }
                _ => {}
            }
        }
        k = k + 1;
    }
    assert(ids@.take(k as int) =~= ids@);
    r
}

fn set_composition_value(surface: &mut PatchSurface, k: usize, parameter: &ModuleParameter) -> (r: bool)
    requires
        composition_value_target(*old(surface), k as int) is Some && float_update(composition_value_of(*old(surface), k as int), 0, 0, parameter@) is Some
            ==> composition_value_of(*old(surface), k as int).min <= composition_value_of(*old(surface), k as int).max,
    ensures
        r == (composition_value_target(*old(surface), k as int) is Some
            && float_update(composition_value_of(*old(surface), k as int), 0, 0, parameter@) is Some),
        composition_value_set(*old(surface), *final(surface), k as int, parameter@),
{
    let ids = composition_inputs(surface);
    if k >= ids.len() {
        return false;
    }
    let Some(i) = find_module(&surface.modules, ids[k]) else {
        return false;
    };
    let is_input = match &surface.modules[i].body {
        ModuleBody::CompositionInput { .. } => true,
        _ => false,
    };
    if !is_input {
        return false;
    }
    assert(composition_value_target(*old(surface), k as int) == Some(i as int));
    let ghost before = surface.modules@;
    let mut m = surface.modules.remove(i);
    let changed = match &mut m.body {
        ModuleBody::CompositionInput { value, .. } => set_float_param(value, 0, 0, parameter),
        _ => false,
    };
    surface.modules.insert(i, m);
    assert(surface.modules@ =~= before.update(i as int, m));
    proof {
        let old_m = before[i as int];
        assert(m.id == old_m.id && m.position == old_m.position && m.orientation == old_m.orientation
            && m.disabled == old_m.disabled);
        match float_update(composition_value_of(*old(surface), k as int), 0, 0, parameter@) {
            Some(v) => {
                match old_m.body {
                    ModuleBody::CompositionInput { label, kind, .. } => {
                        assert(m.body == ModuleBody::CompositionInput { label, kind, value: v });
                    }
                    _ => {}
                }
            }
            None => {
                assert(m.body == old_m.body);
                assert(m == old_m);
                assert(surface.modules@ =~= before);
            }
        }
    }
    changed
}

pub fn enum_copy(e: &EnumParam) -> (r: EnumParam)
    ensures
        r.index == e.index,
        r.options@ == e.options@,
{
    EnumParam { index: e.index, options: copy_strings(&e.options) }
}

impl ModuleBody {
    pub fn kind(&self) -> (r: ModuleKind)
        ensures
            r == body_kind(*self),
    {
        match self {
            ModuleBody::Primitive(_) => ModuleKind::Primitive,
            ModuleBody::Freq { .. } => ModuleKind::Freq,
            ModuleBody::Gate { .. } => ModuleKind::Gate,
            ModuleBody::Degree { .. } => ModuleKind::Degree,
            ModuleBody::DegreeGate { .. } => ModuleKind::DegreeGate,
            ModuleBody::Rate { .. } => ModuleKind::Rate,
            ModuleBody::Transpose { .. } => ModuleKind::Transpose,
            ModuleBody::Osc { .. } => ModuleKind::Osc,
            ModuleBody::Rise { .. } => ModuleKind::Rise,
            ModuleBody::Fall { .. } => ModuleKind::Fall,
            ModuleBody::Ramp { .. } => ModuleKind::Ramp,
            ModuleBody::Adsr { .. } => ModuleKind::Adsr,
            ModuleBody::Lowpass { .. } => ModuleKind::Lowpass,
            ModuleBody::Highpass { .. } => ModuleKind::Highpass,
            ModuleBody::Comb { .. } => ModuleKind::Comb,
            ModuleBody::Allpass { .. } => ModuleKind::Allpass,
            ModuleBody::Delay { .. } => ModuleKind::Delay,
            ModuleBody::DelayTap { .. } => ModuleKind::DelayTap,
            ModuleBody::Reverb { .. } => ModuleKind::Reverb,
            ModuleBody::Distortion { .. } => ModuleKind::Distortion,
            ModuleBody::Compressor { .. } => ModuleKind::Compressor,
            ModuleBody::Flanger { .. } => ModuleKind::Flanger,
            ModuleBody::Multiply { .. } => ModuleKind::Multiply,
            ModuleBody::Add { .. } => ModuleKind::Add,
            ModuleBody::GreaterThan { .. } => ModuleKind::GreaterThan,
            ModuleBody::LessThan { .. } => ModuleKind::LessThan,
            ModuleBody::Switch { .. } => ModuleKind::Switch,
            ModuleBody::Random { .. } => ModuleKind::Random,
            ModuleBody::Probe { .. } => ModuleKind::Probe,
            ModuleBody::Output { .. } => ModuleKind::Output,
            ModuleBody::TurnRightDown { .. } => ModuleKind::TurnRightDown,
            ModuleBody::TurnDownRight { .. } => ModuleKind::TurnDownRight,
            ModuleBody::LeftSplit { .. } => ModuleKind::LeftSplit,
            ModuleBody::TopSplit { .. } => ModuleKind::TopSplit,
            ModuleBody::RightJoin { .. } => ModuleKind::RightJoin,
            ModuleBody::DownJoin { .. } => ModuleKind::DownJoin,
            ModuleBody::Envelope { .. } => ModuleKind::Envelope,
            ModuleBody::Sample { .. } => ModuleKind::Sample,
            ModuleBody::CompositionOutput { .. } => ModuleKind::CompositionOutput,
            ModuleBody::CompositionInput { .. } => ModuleKind::CompositionInput,
            ModuleBody::Composition { .. } => ModuleKind::Composition,
        }
    }

    pub fn audio_inputs(&self) -> (r: Vec<InputKind>)
        ensures
            r@ == body_inputs(*self),
    {
        let r = match self {
            ModuleBody::Primitive(..) => Vec::new(),
            ModuleBody::Freq { .. } => Vec::new(),
            ModuleBody::Gate { .. } => Vec::new(),
            ModuleBody::Degree { .. } => Vec::new(),
            ModuleBody::DegreeGate { .. } => Vec::new(),
            ModuleBody::Rate { .. } => Vec::new(),
            ModuleBody::Transpose { .. } => vec![InputKind::In, InputKind::Semitones],
            ModuleBody::Osc { .. } => vec![InputKind::Freq],
            ModuleBody::Rise { .. } => vec![InputKind::Gate, InputKind::Time],
            ModuleBody::Fall { .. } => vec![InputKind::Gate, InputKind::Time],
            ModuleBody::Ramp { .. } => vec![InputKind::Value, InputKind::Time],
            ModuleBody::Adsr { .. } => vec![InputKind::Rise, InputKind::Fall, InputKind::Attack, InputKind::Sustain],
            ModuleBody::Lowpass { .. } => vec![InputKind::In, InputKind::Freq, InputKind::Q],
            ModuleBody::Highpass { .. } => vec![InputKind::In, InputKind::Freq, InputKind::Q],
            ModuleBody::Comb { .. } => vec![InputKind::In, InputKind::Time, InputKind::Feedback, InputKind::Damp],
            ModuleBody::Allpass { .. } => vec![InputKind::In, InputKind::Time, InputKind::Feedback],
            ModuleBody::Delay { .. } => vec![InputKind::Time, InputKind::In],
            ModuleBody::DelayTap { .. } => Vec::new(),
            ModuleBody::Reverb { .. } => vec![InputKind::In, InputKind::Room, InputKind::Damp, InputKind::Mod, InputKind::Diff],
            ModuleBody::Distortion { .. } => vec![InputKind::In, InputKind::Drive, InputKind::Asym],
            ModuleBody::Compressor { .. } => vec![InputKind::In, InputKind::Thresh, InputKind::Ratio, InputKind::Attack, InputKind::Release, InputKind::Gain],
            ModuleBody::Flanger { .. } => vec![InputKind::In, InputKind::Rate, InputKind::Depth, InputKind::Feedback],
            ModuleBody::Multiply { .. } => vec![InputKind::A, InputKind::B],
            ModuleBody::Add { .. } => vec![InputKind::A, InputKind::B],
            ModuleBody::GreaterThan { .. } => vec![InputKind::A, InputKind::B],
            ModuleBody::LessThan { .. } => vec![InputKind::A, InputKind::B],
            ModuleBody::Switch { .. } => vec![InputKind::Select, InputKind::A, InputKind::B],
            ModuleBody::Random { .. } => vec![InputKind::Gate],
            ModuleBody::Probe { .. } => vec![InputKind::In],
            ModuleBody::Output { .. } => vec![InputKind::A, InputKind::B],
            ModuleBody::TurnRightDown { .. } => vec![InputKind::In],
            ModuleBody::TurnDownRight { .. } => vec![InputKind::In],
            ModuleBody::LeftSplit { .. } => vec![InputKind::In],
            ModuleBody::TopSplit { .. } => vec![InputKind::In],
            ModuleBody::RightJoin { .. } => vec![InputKind::A, InputKind::B],
            ModuleBody::DownJoin { .. } => vec![InputKind::A, InputKind::B],
            ModuleBody::Envelope { .. } => vec![InputKind::Phase],
            ModuleBody::Sample { .. } => vec![InputKind::Position],
            ModuleBody::CompositionOutput { .. } => vec![InputKind::In],
            ModuleBody::CompositionInput { .. } => Vec::new(),
            ModuleBody::Composition { .. } => Vec::new(),
        };
        assert(r@ =~= body_inputs(*self));
        r
    }

    pub fn parameters(&self) -> (r: Vec<ModuleParameter>)
        ensures
            params_view(r@) == body_rows(*self),
    {
        let r = match self {
            ModuleBody::Primitive(_) => Vec::new(),
            ModuleBody::Freq => Vec::new(),
            ModuleBody::Gate => Vec::new(),
            ModuleBody::Degree => Vec::new(),
            ModuleBody::DegreeGate { degree } => vec![int_parameter("Deg", *degree)],
            ModuleBody::Rate { time } => vec![time_parameter("Time", *time)],
            ModuleBody::Transpose { input, semitones } => vec![input_parameter("In", *input), float_parameter("St".to_owned(), *semitones)],
            ModuleBody::Osc { wave, frequency } => vec![enum_parameter("Wave", enum_copy(wave)), float_parameter("Hz".to_owned(), *frequency)],
            ModuleBody::Rise { gate, time } => vec![input_parameter("Gate", *gate), time_parameter("Time", *time)],
            ModuleBody::Fall { gate, time } => vec![input_parameter("Gate", *gate), time_parameter("Time", *time)],
            ModuleBody::Ramp { value, time } => vec![float_parameter("Val".to_owned(), *value), time_parameter("Time", *time)],
            ModuleBody::Adsr { rise, fall, attack, sustain } => vec![input_parameter("Rise", *rise), input_parameter("Fall", *fall), float_parameter("Atk".to_owned(), *attack), float_parameter("Sus".to_owned(), *sustain)],
            ModuleBody::Lowpass { input, frequency, q } => vec![float_parameter("In".to_owned(), *input), float_parameter("Freq".to_owned(), *frequency), float_parameter("Q".to_owned(), *q)],
            ModuleBody::Highpass { input, frequency, q } => vec![float_parameter("In".to_owned(), *input), float_parameter("Freq".to_owned(), *frequency), float_parameter("Q".to_owned(), *q)],
            ModuleBody::Comb { input, time, feedback, damp } => vec![float_parameter("In".to_owned(), *input), time_parameter("Time", *time), float_parameter("Fdbk".to_owned(), *feedback), float_parameter("Damp".to_owned(), *damp)],
            ModuleBody::Allpass { input, time, feedback } => vec![float_parameter("In".to_owned(), *input), time_parameter("Time", *time), float_parameter("Fdbk".to_owned(), *feedback)],
            ModuleBody::Delay { input, time } => vec![float_parameter("In".to_owned(), *input), time_parameter("Time", *time)],
            ModuleBody::DelayTap { source, gain } => vec![delay_source_parameter("Src", source), float_parameter("Gain".to_owned(), *gain)],
            ModuleBody::Reverb { input, room, damp, mod_depth, diffusion } => vec![float_parameter("In".to_owned(), *input), float_parameter("Room".to_owned(), *room), float_parameter("Damp".to_owned(), *damp), float_parameter("Mod".to_owned(), *mod_depth), float_parameter("Diff".to_owned(), *diffusion)],
            ModuleBody::Distortion { input, kind, drive, asymmetry } => vec![float_parameter("In".to_owned(), *input), enum_parameter("Type", enum_copy(kind)), float_parameter("Drive".to_owned(), *drive), float_parameter("Asym".to_owned(), *asymmetry)],
            ModuleBody::Compressor { input, threshold, ratio, attack, release, makeup } => vec![float_parameter("In".to_owned(), *input), float_parameter("Thresh".to_owned(), *threshold), float_parameter("Ratio".to_owned(), *ratio), float_parameter("Atk".to_owned(), *attack), float_parameter("Rel".to_owned(), *release), float_parameter("Gain".to_owned(), *makeup)],
            ModuleBody::Flanger { input, rate, depth, feedback } => vec![float_parameter("In".to_owned(), *input), float_parameter("Rate".to_owned(), *rate), float_parameter("Depth".to_owned(), *depth), float_parameter("Fdbk".to_owned(), *feedback)],
            ModuleBody::Multiply { a, b } => vec![float_parameter("A".to_owned(), *a), float_parameter("B".to_owned(), *b)],
            ModuleBody::Add { a, b } => vec![float_parameter("A".to_owned(), *a), float_parameter("B".to_owned(), *b)],
            ModuleBody::GreaterThan { a, b } => vec![float_parameter("A".to_owned(), *a), float_parameter("B".to_owned(), *b)],
            ModuleBody::LessThan { a, b } => vec![float_parameter("A".to_owned(), *a), float_parameter("B".to_owned(), *b)],
            ModuleBody::Switch { select, a, b } => vec![input_parameter("Sel", *select), float_parameter("A".to_owned(), *a), float_parameter("B".to_owned(), *b)],
            ModuleBody::Random { gate } => vec![input_parameter("Gate", *gate)],
            ModuleBody::Probe { input } => vec![float_parameter("In".to_owned(), *input)],
            ModuleBody::Output { input, gain } => vec![input_parameter("In", *input), float_parameter("Gain".to_owned(), *gain)],
            ModuleBody::TurnRightDown => Vec::new(),
            ModuleBody::TurnDownRight => Vec::new(),
            ModuleBody::LeftSplit => Vec::new(),
            ModuleBody::TopSplit => Vec::new(),
            ModuleBody::RightJoin => Vec::new(),
            ModuleBody::DownJoin => Vec::new(),
            ModuleBody::Envelope { phase, .. } => vec![float_parameter("Phase".to_owned(), *phase)],
            ModuleBody::Sample { file_name, file_missing, position } => vec![file_parameter("File", file_name.as_str(), *file_missing), input_parameter("Pos", *position)],
            ModuleBody::CompositionOutput { label, input } => vec![text_parameter("Label", label), input_parameter("In", *input)],
            ModuleBody::CompositionInput { label, value, .. } => vec![text_parameter("Label", label), float_parameter("Value".to_owned(), *value)],
            ModuleBody::Composition { name, surface } => {
                let mut rows = vec![text_parameter("Name", name)];
                let mut extra = composition_input_parameters(surface);
                let ghost front = params_view(rows@);
                rows.append(&mut extra);
                assert(params_view(rows@) =~= front + composition_input_rows(*surface));
                rows
            }
        };
        assert(params_view(r@) =~= body_rows(*self));
        r
    }

    pub fn set_parameter(&mut self, index: usize, parameter: ModuleParameter) -> (r: bool)
        requires
            row_bounds_ok(*old(self), index, parameter@),
        ensures
            r == set_applies(*old(self), index, parameter@),
            body_set_relation(*old(self), *final(self), index, parameter@),
    {
        match self {
            ModuleBody::Primitive(_) => false,
            ModuleBody::Freq => false,
            ModuleBody::Gate => false,
            ModuleBody::Degree => false,
            ModuleBody::DegreeGate { degree } => set_int_param(degree, index, 0, &parameter),
            ModuleBody::Rate { time } => set_time_param(time, index, 0, &parameter),
            ModuleBody::Transpose { input, semitones } => set_input_param(input, index, 0, &parameter) || set_float_param(semitones, index, 1, &parameter),
            ModuleBody::Osc { wave, frequency } => set_enum_param(wave, index, 0, &parameter) || set_float_param(frequency, index, 1, &parameter),
            ModuleBody::Rise { gate, time } => set_input_param(gate, index, 0, &parameter) || set_time_param(time, index, 1, &parameter),
            ModuleBody::Fall { gate, time } => set_input_param(gate, index, 0, &parameter) || set_time_param(time, index, 1, &parameter),
            ModuleBody::Ramp { value, time } => set_float_param(value, index, 0, &parameter) || set_time_param(time, index, 1, &parameter),
            ModuleBody::Adsr { rise, fall, attack, sustain } => set_input_param(rise, index, 0, &parameter) || set_input_param(fall, index, 1, &parameter) || set_float_param(attack, index, 2, &parameter) || set_float_param(sustain, index, 3, &parameter),
            ModuleBody::Lowpass { input, frequency, q } => set_float_param(input, index, 0, &parameter) || set_float_param(frequency, index, 1, &parameter) || set_float_param(q, index, 2, &parameter),
            ModuleBody::Highpass { input, frequency, q } => set_float_param(input, index, 0, &parameter) || set_float_param(frequency, index, 1, &parameter) || set_float_param(q, index, 2, &parameter),
            ModuleBody::Comb { input, time, feedback, damp } => set_float_param(input, index, 0, &parameter) || set_time_param(time, index, 1, &parameter) || set_float_param(feedback, index, 2, &parameter) || set_float_param(damp, index, 3, &parameter),
            ModuleBody::Allpass { input, time, feedback } => set_float_param(input, index, 0, &parameter) || set_time_param(time, index, 1, &parameter) || set_float_param(feedback, index, 2, &parameter),
            ModuleBody::Delay { input, time } => set_float_param(input, index, 0, &parameter) || set_time_param(time, index, 1, &parameter),
            ModuleBody::DelayTap { source, gain } => set_delay_source_param(source, index, 0, &parameter) || set_float_param(gain, index, 1, &parameter),
            ModuleBody::Reverb { input, room, damp, mod_depth, diffusion } => set_float_param(input, index, 0, &parameter) || set_float_param(room, index, 1, &parameter) || set_float_param(damp, index, 2, &parameter) || set_float_param(mod_depth, index, 3, &parameter) || set_float_param(diffusion, index, 4, &parameter),
            ModuleBody::Distortion { input, kind, drive, asymmetry } => set_float_param(input, index, 0, &parameter) || set_enum_param(kind, index, 1, &parameter) || set_float_param(drive, index, 2, &parameter) || set_float_param(asymmetry, index, 3, &parameter),
            ModuleBody::Compressor { input, threshold, ratio, attack, release, makeup } => set_float_param(input, index, 0, &parameter) || set_float_param(threshold, index, 1, &parameter) || set_float_param(ratio, index, 2, &parameter) || set_float_param(attack, index, 3, &parameter) || set_float_param(release, index, 4, &parameter) || set_float_param(makeup, index, 5, &parameter),
            ModuleBody::Flanger { input, rate, depth, feedback } => set_float_param(input, index, 0, &parameter) || set_float_param(rate, index, 1, &parameter) || set_float_param(depth, index, 2, &parameter) || set_float_param(feedback, index, 3, &parameter),
            ModuleBody::Multiply { a, b } => set_float_param(a, index, 0, &parameter) || set_float_param(b, index, 1, &parameter),
            ModuleBody::Add { a, b } => set_float_param(a, index, 0, &parameter) || set_float_param(b, index, 1, &parameter),
            ModuleBody::GreaterThan { a, b } => set_float_param(a, index, 0, &parameter) || set_float_param(b, index, 1, &parameter),
            ModuleBody::LessThan { a, b } => set_float_param(a, index, 0, &parameter) || set_float_param(b, index, 1, &parameter),
            ModuleBody::Switch { select, a, b } => set_input_param(select, index, 0, &parameter) || set_float_param(a, index, 1, &parameter) || set_float_param(b, index, 2, &parameter),
            ModuleBody::Random { gate } => set_input_param(gate, index, 0, &parameter),
            ModuleBody::Probe { input } => set_float_param(input, index, 0, &parameter),
            ModuleBody::Output { input, gain } => set_input_param(input, index, 0, &parameter) || set_float_param(gain, index, 1, &parameter),
            ModuleBody::TurnRightDown => false,
            ModuleBody::TurnDownRight => false,
            ModuleBody::LeftSplit => false,
            ModuleBody::TopSplit => false,
            ModuleBody::RightJoin => false,
            ModuleBody::DownJoin => false,
            ModuleBody::Envelope { phase, .. } => set_float_param(phase, index, 0, &parameter),
            ModuleBody::Sample { position, .. } => set_input_param(position, index, 1, &parameter),
            ModuleBody::CompositionOutput { label, input } => if index == 0 { set_text_param(label, &parameter) } else if index == 1 { set_input_param(input, index, 1, &parameter) } else { false },
            ModuleBody::CompositionInput { label, value, .. } => if index == 0 { set_text_param(label, &parameter) } else if index == 1 { set_float_param(value, index, 1, &parameter) } else { false },
            ModuleBody::Composition { name, surface } => if index == 0 { set_text_param(name, &parameter) } else { set_composition_value(surface, index - 1, &parameter) },
        }
    }

}


/// How many input ports a body has.
pub open spec fn body_input_count(b: ModuleBody) -> u16 {
    match b {
        ModuleBody::Primitive(p) => p.inputs@.len() as u16,
        _ => body_inputs(b).len() as u16,
    }
}

/// The rows of a parameter list that belong to input ports, in order.
pub open spec fn port_rows(rows: Seq<ParameterView>) -> Seq<ParameterView>
    decreases rows.len(),
{
    if rows.len() == 0 {
        Seq::empty()
    } else if value_is_port(rows.last().value) {
        port_rows(rows.drop_last()).push(rows.last())
    } else {
        port_rows(rows.drop_last())
    }
}

/// Whether input port `port` takes a signal; ports without a row do.
pub open spec fn body_input_connected(b: ModuleBody, port: u16) -> bool {
    let ports = port_rows(body_rows(b));
    if (port as int) < ports.len() { ports[port as int].connected } else { true }
}

/// The points of an envelope; other bodies have none.
pub open spec fn body_env_points(b: ModuleBody) -> Seq<EnvPoint> {
    match b {
        ModuleBody::Envelope { points, .. } => points@,
        _ => Seq::empty(),
    }
}

pub fn copy_points(v: &Vec<EnvPoint>) -> (r: Vec<EnvPoint>)
    ensures
        r@ == v@,
{
    let mut r: Vec<EnvPoint> = Vec::new();
    let mut i: usize = 0;
    while i < v.len()
        invariant
            i <= v@.len(),
            r@ == v@.take(i as int),
        decreases v@.len() - i,
    {
        r.push(v[i]);
        assert(r@ =~= v@.take(i + 1));
        i = i + 1;
    }
    assert(v@.take(i as int) =~= v@);
    r
}

impl ModuleBody {
    pub fn input_count(&self) -> (r: u16)
        ensures
            r == body_input_count(*self),
    {
        match self {
            ModuleBody::Primitive(p) => p.inputs.len() as u16,
            _ => self.audio_inputs().len() as u16,
        }
    }

    pub fn input_connected(&self, port: u16) -> (r: bool)
        ensures
            r == body_input_connected(*self, port),
    {
        let rows = self.parameters();
        let ghost all = params_view(rows@);
        let mut seen: usize = 0;
        let mut i: usize = 0;
        while i < rows.len()
            invariant
                i <= rows@.len(),
                all == params_view(rows@),
                all == body_rows(*self),
                seen == port_rows(all.take(i as int)).len(),
                seen <= port as int,
            decreases rows@.len() - i,
        {
            assert(all.take(i + 1).drop_last() =~= all.take(i as int));
            assert(all[i as int] == rows@[i as int]@);
            if rows[i].value.is_port() {
                if seen == port as usize {
                    proof {
                        lemma_port_rows_prefix(all, i + 1);
                        assert(port_rows(all.take(i + 1))[seen as int] == all[i as int]);
                    }
                    return rows[i].connected;
                }
                seen = seen + 1;
            }
            i = i + 1;
        }
        assert(all.take(i as int) =~= all);
        true
    }

    pub fn env_points(&self) -> (r: Vec<EnvPoint>)
        ensures
            r@ == body_env_points(*self),
    {
        match self {
            ModuleBody::Envelope { points, .. } => copy_points(points),
            _ => Vec::new(),
        }
    }
}

proof fn lemma_port_rows_prefix(rows: Seq<ParameterView>, n: int)
    requires
        0 <= n <= rows.len(),
    ensures
        port_rows(rows.take(n)).len() <= port_rows(rows).len(),
        forall|k: int| 0 <= k < port_rows(rows.take(n)).len() ==> port_rows(rows.take(n))[k] == port_rows(rows)[k],
    decreases rows.len() - n,
{
    if n < rows.len() {
        lemma_port_rows_prefix(rows, n + 1);
        assert(rows.take(n + 1).drop_last() =~= rows.take(n));
    } else {
        assert(rows.take(n) =~= rows);
    }
}

/// The name a module is shown with.
pub open spec fn module_label(m: Module) -> Seq<char> {
    match m.body {
        ModuleBody::Primitive(p) => p.label@,
        ModuleBody::Composition { name, .. } => name@,
        _ => crate::kind::kind_label(body_kind(m.body)),
    }
}

/// Module inputs: routing pieces have fixed ports; other modules one per
/// input of their body.
pub open spec fn module_input_count(m: Module) -> u16 {
    if crate::kind::kind_is_routing(body_kind(m.body)) {
        crate::kind::kind_input_count(body_kind(m.body))
    } else {
        body_input_count(m.body)
    }
}

pub open spec fn module_output_count(m: Module) -> u16 {
    crate::kind::kind_output_count(body_kind(m.body))
}

/// Wires: the routing pieces that only pass a signal on.
pub open spec fn module_is_wire(m: Module) -> bool {
    let k = body_kind(m.body);
    k is TurnRightDown || k is TurnDownRight || k is LeftSplit || k is TopSplit
}

pub open spec fn module_has_input_top(m: Module) -> bool {
    module_input_count(m) != 0 && match body_kind(m.body) {
        ModuleKind::TopSplit | ModuleKind::TurnDownRight | ModuleKind::RightJoin | ModuleKind::DownJoin => true,
        ModuleKind::LeftSplit | ModuleKind::TurnRightDown => false,
        _ => m.orientation == Orientation::Down,
    }
}

pub open spec fn module_has_input_left(m: Module) -> bool {
    module_input_count(m) != 0 && match body_kind(m.body) {
        ModuleKind::LeftSplit | ModuleKind::TurnRightDown | ModuleKind::RightJoin | ModuleKind::DownJoin => true,
        ModuleKind::TopSplit | ModuleKind::TurnDownRight => false,
        _ => m.orientation == Orientation::Right,
    }
}

pub open spec fn module_has_output_bottom(m: Module) -> bool {
    module_output_count(m) != 0 && match body_kind(m.body) {
        ModuleKind::LeftSplit | ModuleKind::TopSplit | ModuleKind::TurnRightDown | ModuleKind::DownJoin => true,
        ModuleKind::RightJoin | ModuleKind::TurnDownRight => false,
        _ => m.orientation == Orientation::Down,
    }
}

pub open spec fn module_has_output_right(m: Module) -> bool {
    module_output_count(m) != 0 && match body_kind(m.body) {
        ModuleKind::LeftSplit | ModuleKind::TopSplit | ModuleKind::TurnDownRight | ModuleKind::RightJoin => true,
        ModuleKind::DownJoin | ModuleKind::TurnRightDown => false,
        _ => m.orientation == Orientation::Right,
    }
}

impl Module {
    pub fn id(&self) -> (r: ModuleId)
        ensures
            r == self.id,
    {
        self.id
    }

    pub fn kind(&self) -> (r: ModuleKind)
        ensures
            r == body_kind(self.body),
    {
        self.body.kind()
    }

    pub fn position(&self) -> (r: GridPos)
        ensures
            r == self.position,
    {
        self.position
    }

    pub fn orientation(&self) -> (r: Orientation)
        ensures
            r == self.orientation,
    {
        self.orientation
    }

    pub fn disabled(&self) -> (r: bool)
        ensures
            r == self.disabled,
    {
        self.disabled
    }

    pub fn parameters(&self) -> (r: Vec<ModuleParameter>)
        ensures
            params_view(r@) == body_rows(self.body),
    {
        self.body.parameters()
    }

    pub fn parameter_count(&self) -> (r: usize)
        ensures
            r == body_rows(self.body).len(),
    {
        self.body.parameters().len()
    }

    pub fn parameter(&self, index: usize) -> (r: Option<ModuleParameter>)
        ensures
            r is Some <==> index < body_rows(self.body).len(),
            r matches Some(p) ==> p@ == body_rows(self.body)[index as int],
    {
        let mut rows = self.body.parameters();
        if index < rows.len() {
            let p = rows.remove(index);
            Some(p)
        } else {
            None
        }
    }

    pub fn set_parameter(&mut self, index: usize, parameter: ModuleParameter) -> (r: bool)
        requires
            row_bounds_ok(old(self).body, index, parameter@),
        ensures
            r == set_applies(old(self).body, index, parameter@),
            body_set_relation(old(self).body, final(self).body, index, parameter@),
            final(self).id == old(self).id,
            final(self).position == old(self).position,
            final(self).orientation == old(self).orientation,
            final(self).disabled == old(self).disabled,
    {
        self.body.set_parameter(index, parameter)
    }

    pub fn label(&self) -> (r: &str)
        ensures
            r@ == module_label(*self),
    {
        match &self.body {
            ModuleBody::Primitive(p) => p.label.as_str(),
            ModuleBody::Composition { name, .. } => name.as_str(),
            _ => self.kind().label(),
        }
    }

    pub fn composition_surface(&self) -> (r: Option<&PatchSurface>)
        ensures
            r == match self.body {
                ModuleBody::Composition { surface, .. } => Some(&surface),
                _ => None,
            },
    {
        match &self.body {
            ModuleBody::Composition { surface, .. } => Some(surface),
            _ => None,
        }
    }

    pub fn is_composition(&self) -> (r: bool)
        ensures
            r == (self.body is Composition),
    {
        match &self.body {
            ModuleBody::Composition { .. } => true,
            _ => false,
        }
    }

    pub fn env_points(&self) -> (r: Vec<EnvPoint>)
        ensures
            r@ == body_env_points(self.body),
    {
        self.body.env_points()
    }

    pub fn is_wire(&self) -> (r: bool)
        ensures
            r == module_is_wire(*self),
    {
        match self.kind() {
            ModuleKind::TurnRightDown | ModuleKind::TurnDownRight | ModuleKind::LeftSplit | ModuleKind::TopSplit => true,
            _ => false,
        }
    }

    pub fn input_count(&self) -> (r: u16)
        ensures
            r == module_input_count(*self),
    {
        let kind = self.kind();
        if kind.is_routing() {
            return kind.input_count();
        }
        self.body.input_count()
    }

    pub fn input_connected(&self, port: u16) -> (r: bool)
        ensures
            r == body_input_connected(self.body, port),
    {
        self.body.input_connected(port)
    }

    pub fn output_count(&self) -> (r: u16)
        ensures
            r == module_output_count(*self),
    {
        self.kind().output_count()
    }

    pub fn has_input_top(&self) -> (r: bool)
        ensures
            r == module_has_input_top(*self),
    {
        if self.input_count() == 0 {
            return false;
        }
        match self.kind() {
            ModuleKind::TopSplit | ModuleKind::TurnDownRight | ModuleKind::RightJoin | ModuleKind::DownJoin => true,
            ModuleKind::LeftSplit | ModuleKind::TurnRightDown => false,
            _ => self.orientation == Orientation::Down,
        }
    }

    pub fn has_input_left(&self) -> (r: bool)
        ensures
            r == module_has_input_left(*self),
    {
        if self.input_count() == 0 {
            return false;
        }
        match self.kind() {
            ModuleKind::LeftSplit | ModuleKind::TurnRightDown | ModuleKind::RightJoin | ModuleKind::DownJoin => true,
            ModuleKind::TopSplit | ModuleKind::TurnDownRight => false,
            _ => self.orientation == Orientation::Right,
        }
    }

    pub fn has_output_bottom(&self) -> (r: bool)
        ensures
            r == module_has_output_bottom(*self),
    {
        if self.output_count() == 0 {
            return false;
        }
        match self.kind() {
            ModuleKind::LeftSplit | ModuleKind::TopSplit | ModuleKind::TurnRightDown | ModuleKind::DownJoin => true,
            ModuleKind::RightJoin | ModuleKind::TurnDownRight => false,
            _ => self.orientation == Orientation::Down,
        }
    }

    pub fn has_output_right(&self) -> (r: bool)
        ensures
            r == module_has_output_right(*self),
    {
        if self.output_count() == 0 {
            return false;
        }
        match self.kind() {
            ModuleKind::LeftSplit | ModuleKind::TopSplit | ModuleKind::TurnDownRight | ModuleKind::RightJoin => true,
            ModuleKind::DownJoin | ModuleKind::TurnRightDown => false,
            _ => self.orientation == Orientation::Right,
        }
    }
}

/// A kind's own input count is the input count of the body it starts with,
/// for every kind but the routing pieces (whose ports are fixed), the bare
/// synthesis unit (whose ports come from the unit it wraps), and the random
/// and sample sources, which a kind lists without inputs although their
/// bodies take a gate and a position.
pub proof fn law_kind_ports_match_default_body(k: ModuleKind, b: ModuleBody)
    requires
        is_default_body(k, b),
        !crate::kind::kind_is_routing(k),
        k != ModuleKind::Primitive,
        k != ModuleKind::Random,
        k != ModuleKind::Sample,
    ensures
        body_input_count(b) == crate::kind::kind_input_count(k),
        body_kind(b) == k,
{
}


/// Writing back a row just read from a body changes nothing, where every
/// setting of the body is as its row reads it back; a label or a name read
/// back leaves the body's rows as they were.
#[verifier::spinoff_prover]
#[verifier::rlimit(100)]
pub proof fn law_row_write_back(b: ModuleBody, i: usize, b2: ModuleBody)
    requires
        rows_settled(b),
        i < body_rows(b).len(),
        body_set_relation(b, b2, i, body_rows(b)[i as int]),
        !(b is Composition),
    ensures
        !(b is CompositionOutput || b is CompositionInput) ==> b2 == b,
        body_rows(b2) == body_rows(b),
{
    broadcast use {
        crate::param::lemma_float_write_back,
        crate::param::lemma_int_write_back,
        crate::param::lemma_time_write_back,
        crate::param::lemma_enum_write_back,
        crate::param::lemma_input_write_back,
        crate::param::lemma_source_write_back,
    };
    if !(b is CompositionOutput || b is CompositionInput) {
        assert(b2 == set_body(b, i, body_rows(b)[i as int]));
    } else {
        match b {
            ModuleBody::CompositionOutput { label, input } => {
                assert(text_update(label@, text_row("Label"@, label@)) is None);
            },
            ModuleBody::CompositionInput { label, value, .. } => {
                assert(text_update(label@, text_row("Label"@, label@)) is None);
                assert(float_update(value, i, 1, float_row("Value"@, value)) is Some ==> i == 1);
            },
            _ => {},
        }
        assert(body_rows(b2) =~= body_rows(b));
    }
}
} // verus!
