use vstd::prelude::*;
use crate::grid::ModuleId;
use crate::kind::InputKind;
use crate::param::{strings_view, DelaySourceParam};
use crate::body::{copy_points, enum_copy, EnvPoint, Module, ModuleBody, PatchSurface, PrimitiveModule};

verus! {

broadcast use vstd::string::group_string_axioms;

fn copy_ids(v: &Vec<ModuleId>) -> (r: Vec<ModuleId>)
    ensures
        r@ == v@,
{
    let mut r: Vec<ModuleId> = Vec::new();
    let mut i: usize = 0;
    while i < v.len()
        invariant
            i <= v@.len(),
            r@ == v@.take(i as int),
        decreases v@.len() - i,
    {
        r.push(v[i]);
        assert(r@ =~= v@.take(i + 1));
        i = i + 1;
    }
    assert(v@.take(i as int) =~= v@);
    r
}

fn copy_kinds(v: &Vec<InputKind>) -> (r: Vec<InputKind>)
    ensures
        r@ == v@,
{
    let mut r: Vec<InputKind> = Vec::new();
    let mut i: usize = 0;
    while i < v.len()
        invariant
            i <= v@.len(),
            r@ == v@.take(i as int),
        decreases v@.len() - i,
    {
        r.push(v[i]);
        assert(r@ =~= v@.take(i + 1));
        i = i + 1;
    }
    assert(v@.take(i as int) =~= v@);
    r
}

pub fn strings_equal(a: &Vec<String>, b: &Vec<String>) -> (r: bool)
    ensures
        r == (strings_view(a@) == strings_view(b@)),
{
    if a.len() != b.len() {
        assert(strings_view(a@).len() != strings_view(b@).len());
        return false;
    }
    let mut i: usize = 0;
    while i < a.len()
        invariant
            a@.len() == b@.len(),
            i <= a@.len(),
            forall|k: int| 0 <= k < i ==> #[trigger] a@[k]@ == b@[k]@,
        decreases a@.len() - i,
    {
        if a[i] != b[i] {
            assert(strings_view(a@)[i as int] != strings_view(b@)[i as int]);
            return false;
        }
        i = i + 1;
    }
    assert(strings_view(a@) =~= strings_view(b@));
    true
}

fn ids_equal(a: &Vec<ModuleId>, b: &Vec<ModuleId>) -> (r: bool)
    ensures
        r == (a@ == b@),
{
    if a.len() != b.len() {
        return false;
    }
    let mut i: usize = 0;
    while i < a.len()
        invariant
            a@.len() == b@.len(),
            i <= a@.len(),
            forall|k: int| 0 <= k < i ==> #[trigger] a@[k] == b@[k],
        decreases a@.len() - i,
    {
        if a[i] != b[i] {
            return false;
        }
        i = i + 1;
    }
    assert(a@ =~= b@);
    true
}

fn kinds_equal(a: &Vec<InputKind>, b: &Vec<InputKind>) -> (r: bool)
    ensures
        r == (a@ == b@),
{
    if a.len() != b.len() {
        return false;
    }
    let mut i: usize = 0;
    while i < a.len()
        invariant
            a@.len() == b@.len(),
            i <= a@.len(),
            forall|k: int| 0 <= k < i ==> #[trigger] a@[k] == b@[k],
        decreases a@.len() - i,
    {
        if a[i] != b[i] {
            return false;
        }
        i = i + 1;
    }
    assert(a@ =~= b@);
    true
}

fn points_equal(a: &Vec<EnvPoint>, b: &Vec<EnvPoint>) -> (r: bool)
    ensures
        r == (a@ == b@),
{
    if a.len() != b.len() {
        return false;
    }
    let mut i: usize = 0;
    while i < a.len()
        invariant
            a@.len() == b@.len(),
            i <= a@.len(),
            forall|k: int| 0 <= k < i ==> #[trigger] a@[k] == b@[k],
        decreases a@.len() - i,
    {
        if a[i] != b[i] {
            return false;
        }
        i = i + 1;
    }
    assert(a@ =~= b@);
    true
}

fn same_selection(a: Option<ModuleId>, b: Option<ModuleId>) -> (r: bool)
    ensures
        r == (a == b),
{
    match (a, b) {
        (Some(x), Some(y)) => x == y,
        (None, None) => true,
        _ => false,
    }
}

/// Whether two bodies other than compositions carry the same settings.
pub open spec fn flat_body_eq(a: ModuleBody, b: ModuleBody) -> bool {
    match a {
        ModuleBody::Primitive(a_p) => b matches ModuleBody::Primitive(b_p) && a_p.label@ == b_p.label@ && a_p.inputs@ == b_p.inputs@,
        ModuleBody::Freq => b matches ModuleBody::Freq && true,
        ModuleBody::Gate => b matches ModuleBody::Gate && true,
        ModuleBody::Degree => b matches ModuleBody::Degree && true,
        ModuleBody::DegreeGate { degree: a_degree } => b matches ModuleBody::DegreeGate { degree: b_degree } && a_degree == b_degree,
        ModuleBody::Rate { time: a_time } => b matches ModuleBody::Rate { time: b_time } && a_time == b_time,
        ModuleBody::Transpose { input: a_input, semitones: a_semitones } => b matches ModuleBody::Transpose { input: b_input, semitones: b_semitones } && a_input == b_input && a_semitones == b_semitones,
        ModuleBody::Osc { wave: a_wave, frequency: a_frequency } => b matches ModuleBody::Osc { wave: b_wave, frequency: b_frequency } && a_wave.index == b_wave.index && strings_view(a_wave.options@) == strings_view(b_wave.options@) && a_frequency == b_frequency,
        ModuleBody::Rise { gate: a_gate, time: a_time } => b matches ModuleBody::Rise { gate: b_gate, time: b_time } && a_gate == b_gate && a_time == b_time,
        ModuleBody::Fall { gate: a_gate, time: a_time } => b matches ModuleBody::Fall { gate: b_gate, time: b_time } && a_gate == b_gate && a_time == b_time,
        ModuleBody::Ramp { value: a_value, time: a_time } => b matches ModuleBody::Ramp { value: b_value, time: b_time } && a_value == b_value && a_time == b_time,
        ModuleBody::Adsr { rise: a_rise, fall: a_fall, attack: a_attack, sustain: a_sustain } => b matches ModuleBody::Adsr { rise: b_rise, fall: b_fall, attack: b_attack, sustain: b_sustain } && a_rise == b_rise && a_fall == b_fall && a_attack == b_attack && a_sustain == b_sustain,
        ModuleBody::Envelope { phase: a_phase, points: a_points } => b matches ModuleBody::Envelope { phase: b_phase, points: b_points } && a_phase == b_phase && a_points@ == b_points@,
        ModuleBody::Lowpass { input: a_input, frequency: a_frequency, q: a_q } => b matches ModuleBody::Lowpass { input: b_input, frequency: b_frequency, q: b_q } && a_input == b_input && a_frequency == b_frequency && a_q == b_q,
        ModuleBody::Highpass { input: a_input, frequency: a_frequency, q: a_q } => b matches ModuleBody::Highpass { input: b_input, frequency: b_frequency, q: b_q } && a_input == b_input && a_frequency == b_frequency && a_q == b_q,
        ModuleBody::Comb { input: a_input, time: a_time, feedback: a_feedback, damp: a_damp } => b matches ModuleBody::Comb { input: b_input, time: b_time, feedback: b_feedback, damp: b_damp } && a_input == b_input && a_time == b_time && a_feedback == b_feedback && a_damp == b_damp,
        ModuleBody::Allpass { input: a_input, time: a_time, feedback: a_feedback } => b matches ModuleBody::Allpass { input: b_input, time: b_time, feedback: b_feedback } && a_input == b_input && a_time == b_time && a_feedback == b_feedback,
        ModuleBody::Delay { input: a_input, time: a_time } => b matches ModuleBody::Delay { input: b_input, time: b_time } && a_input == b_input && a_time == b_time,
        ModuleBody::DelayTap { source: a_source, gain: a_gain } => b matches ModuleBody::DelayTap { source: b_source, gain: b_gain } && a_source.selected == b_source.selected && a_source.options@ == b_source.options@ && a_gain == b_gain,
        ModuleBody::Reverb { input: a_input, room: a_room, damp: a_damp, mod_depth: a_mod_depth, diffusion: a_diffusion } => b matches ModuleBody::Reverb { input: b_input, room: b_room, damp: b_damp, mod_depth: b_mod_depth, diffusion: b_diffusion } && a_input == b_input && a_room == b_room && a_damp == b_damp && a_mod_depth == b_mod_depth && a_diffusion == b_diffusion,
        ModuleBody::Distortion { input: a_input, kind: a_kind, drive: a_drive, asymmetry: a_asymmetry } => b matches ModuleBody::Distortion { input: b_input, kind: b_kind, drive: b_drive, asymmetry: b_asymmetry } && a_input == b_input && a_kind.index == b_kind.index && strings_view(a_kind.options@) == strings_view(b_kind.options@) && a_drive == b_drive && a_asymmetry == b_asymmetry,
        ModuleBody::Compressor { input: a_input, threshold: a_threshold, ratio: a_ratio, attack: a_attack, release: a_release, makeup: a_makeup } => b matches ModuleBody::Compressor { input: b_input, threshold: b_threshold, ratio: b_ratio, attack: b_attack, release: b_release, makeup: b_makeup } && a_input == b_input && a_threshold == b_threshold && a_ratio == b_ratio && a_attack == b_attack && a_release == b_release && a_makeup == b_makeup,
        ModuleBody::Flanger { input: a_input, rate: a_rate, depth: a_depth, feedback: a_feedback } => b matches ModuleBody::Flanger { input: b_input, rate: b_rate, depth: b_depth, feedback: b_feedback } && a_input == b_input && a_rate == b_rate && a_depth == b_depth && a_feedback == b_feedback,
        ModuleBody::Multiply { a: a_a, b: a_b } => b matches ModuleBody::Multiply { a: b_a, b: b_b } && a_a == b_a && a_b == b_b,
        ModuleBody::Add { a: a_a, b: a_b } => b matches ModuleBody::Add { a: b_a, b: b_b } && a_a == b_a && a_b == b_b,
        ModuleBody::GreaterThan { a: a_a, b: a_b } => b matches ModuleBody::GreaterThan { a: b_a, b: b_b } && a_a == b_a && a_b == b_b,
        ModuleBody::LessThan { a: a_a, b: a_b } => b matches ModuleBody::LessThan { a: b_a, b: b_b } && a_a == b_a && a_b == b_b,
        ModuleBody::Switch { select: a_select, a: a_a, b: a_b } => b matches ModuleBody::Switch { select: b_select, a: b_a, b: b_b } && a_select == b_select && a_a == b_a && a_b == b_b,
        ModuleBody::Random { gate: a_gate } => b matches ModuleBody::Random { gate: b_gate } && a_gate == b_gate,
        ModuleBody::Sample { file_name: a_file_name, file_missing: a_file_missing, position: a_position } => b matches ModuleBody::Sample { file_name: b_file_name, file_missing: b_file_missing, position: b_position } && a_file_name@ == b_file_name@ && a_file_missing == b_file_missing && a_position == b_position,
        ModuleBody::Probe { input: a_input } => b matches ModuleBody::Probe { input: b_input } && a_input == b_input,
        ModuleBody::Output { input: a_input, gain: a_gain } => b matches ModuleBody::Output { input: b_input, gain: b_gain } && a_input == b_input && a_gain == b_gain,
        ModuleBody::CompositionOutput { label: a_label, input: a_input } => b matches ModuleBody::CompositionOutput { label: b_label, input: b_input } && a_label@ == b_label@ && a_input == b_input,
        ModuleBody::TurnRightDown => b matches ModuleBody::TurnRightDown && true,
        ModuleBody::TurnDownRight => b matches ModuleBody::TurnDownRight && true,
        ModuleBody::LeftSplit => b matches ModuleBody::LeftSplit && true,
        ModuleBody::TopSplit => b matches ModuleBody::TopSplit && true,
        ModuleBody::RightJoin => b matches ModuleBody::RightJoin && true,
        ModuleBody::DownJoin => b matches ModuleBody::DownJoin && true,
        ModuleBody::CompositionInput { label: a_label, kind: a_kind, value: a_value } => b matches ModuleBody::CompositionInput { label: b_label, kind: b_kind, value: b_value } && a_label@ == b_label@ && a_kind == b_kind && a_value == b_value,
        ModuleBody::Composition { .. } => false,
    }
}

/// Copies a body other than a composition.
pub fn copy_flat_body(b: &ModuleBody) -> (r: ModuleBody)
    requires
        !(b is Composition),
    ensures
        flat_body_eq(*b, r),
{
    match b {
        ModuleBody::Primitive(x_p) => ModuleBody::Primitive(PrimitiveModule { label: x_p.label.clone(), inputs: copy_kinds(&x_p.inputs) }),
        ModuleBody::Freq => ModuleBody::Freq,
        ModuleBody::Gate => ModuleBody::Gate,
        ModuleBody::Degree => ModuleBody::Degree,
        ModuleBody::DegreeGate { degree: x_degree } => ModuleBody::DegreeGate { degree: *x_degree },
        ModuleBody::Rate { time: x_time } => ModuleBody::Rate { time: *x_time },
        ModuleBody::Transpose { input: x_input, semitones: x_semitones } => ModuleBody::Transpose { input: *x_input, semitones: *x_semitones },
        ModuleBody::Osc { wave: x_wave, frequency: x_frequency } => ModuleBody::Osc { wave: enum_copy(x_wave), frequency: *x_frequency },
        ModuleBody::Rise { gate: x_gate, time: x_time } => ModuleBody::Rise { gate: *x_gate, time: *x_time },
        ModuleBody::Fall { gate: x_gate, time: x_time } => ModuleBody::Fall { gate: *x_gate, time: *x_time },
        ModuleBody::Ramp { value: x_value, time: x_time } => ModuleBody::Ramp { value: *x_value, time: *x_time },
        ModuleBody::Adsr { rise: x_rise, fall: x_fall, attack: x_attack, sustain: x_sustain } => ModuleBody::Adsr { rise: *x_rise, fall: *x_fall, attack: *x_attack, sustain: *x_sustain },
        ModuleBody::Envelope { phase: x_phase, points: x_points } => ModuleBody::Envelope { phase: *x_phase, points: copy_points(x_points) },
        ModuleBody::Lowpass { input: x_input, frequency: x_frequency, q: x_q } => ModuleBody::Lowpass { input: *x_input, frequency: *x_frequency, q: *x_q },
        ModuleBody::Highpass { input: x_input, frequency: x_frequency, q: x_q } => ModuleBody::Highpass { input: *x_input, frequency: *x_frequency, q: *x_q },
        ModuleBody::Comb { input: x_input, time: x_time, feedback: x_feedback, damp: x_damp } => ModuleBody::Comb { input: *x_input, time: *x_time, feedback: *x_feedback, damp: *x_damp },
        ModuleBody::Allpass { input: x_input, time: x_time, feedback: x_feedback } => ModuleBody::Allpass { input: *x_input, time: *x_time, feedback: *x_feedback },
        ModuleBody::Delay { input: x_input, time: x_time } => ModuleBody::Delay { input: *x_input, time: *x_time },
        ModuleBody::DelayTap { source: x_source, gain: x_gain } => ModuleBody::DelayTap { source: DelaySourceParam { selected: x_source.selected, options: copy_ids(&x_source.options) }, gain: *x_gain },
        ModuleBody::Reverb { input: x_input, room: x_room, damp: x_damp, mod_depth: x_mod_depth, diffusion: x_diffusion } => ModuleBody::Reverb { input: *x_input, room: *x_room, damp: *x_damp, mod_depth: *x_mod_depth, diffusion: *x_diffusion },
        ModuleBody::Distortion { input: x_input, kind: x_kind, drive: x_drive, asymmetry: x_asymmetry } => ModuleBody::Distortion { input: *x_input, kind: enum_copy(x_kind), drive: *x_drive, asymmetry: *x_asymmetry },
        ModuleBody::Compressor { input: x_input, threshold: x_threshold, ratio: x_ratio, attack: x_attack, release: x_release, makeup: x_makeup } => ModuleBody::Compressor { input: *x_input, threshold: *x_threshold, ratio: *x_ratio, attack: *x_attack, release: *x_release, makeup: *x_makeup },
        ModuleBody::Flanger { input: x_input, rate: x_rate, depth: x_depth, feedback: x_feedback } => ModuleBody::Flanger { input: *x_input, rate: *x_rate, depth: *x_depth, feedback: *x_feedback },
        ModuleBody::Multiply { a: x_a, b: x_b } => ModuleBody::Multiply { a: *x_a, b: *x_b },
        ModuleBody::Add { a: x_a, b: x_b } => ModuleBody::Add { a: *x_a, b: *x_b },
        ModuleBody::GreaterThan { a: x_a, b: x_b } => ModuleBody::GreaterThan { a: *x_a, b: *x_b },
        ModuleBody::LessThan { a: x_a, b: x_b } => ModuleBody::LessThan { a: *x_a, b: *x_b },
        ModuleBody::Switch { select: x_select, a: x_a, b: x_b } => ModuleBody::Switch { select: *x_select, a: *x_a, b: *x_b },
        ModuleBody::Random { gate: x_gate } => ModuleBody::Random { gate: *x_gate },
        ModuleBody::Sample { file_name: x_file_name, file_missing: x_file_missing, position: x_position } => ModuleBody::Sample { file_name: x_file_name.clone(), file_missing: *x_file_missing, position: *x_position },
        ModuleBody::Probe { input: x_input } => ModuleBody::Probe { input: *x_input },
        ModuleBody::Output { input: x_input, gain: x_gain } => ModuleBody::Output { input: *x_input, gain: *x_gain },
        ModuleBody::CompositionOutput { label: x_label, input: x_input } => ModuleBody::CompositionOutput { label: x_label.clone(), input: *x_input },
        ModuleBody::TurnRightDown => ModuleBody::TurnRightDown,
        ModuleBody::TurnDownRight => ModuleBody::TurnDownRight,
        ModuleBody::LeftSplit => ModuleBody::LeftSplit,
        ModuleBody::TopSplit => ModuleBody::TopSplit,
        ModuleBody::RightJoin => ModuleBody::RightJoin,
        ModuleBody::DownJoin => ModuleBody::DownJoin,
        ModuleBody::CompositionInput { label: x_label, kind: x_kind, value: x_value } => ModuleBody::CompositionInput { label: x_label.clone(), kind: *x_kind, value: *x_value },
        ModuleBody::Composition { .. } => ModuleBody::Freq,
    }
}

/// Compares two bodies other than compositions.
fn flat_body_equal(a: &ModuleBody, b: &ModuleBody) -> (r: bool)
    requires
        !(a is Composition),
    ensures
        r == flat_body_eq(*a, *b),
{
    match a {
        ModuleBody::Primitive(a_p) => match b {
            ModuleBody::Primitive(b_p) => a_p.label == b_p.label && kinds_equal(&a_p.inputs, &b_p.inputs),
            _ => false,
        },
        ModuleBody::Freq => match b {
            ModuleBody::Freq => true,
            _ => false,
        },
        ModuleBody::Gate => match b {
            ModuleBody::Gate => true,
            _ => false,
        },
        ModuleBody::Degree => match b {
            ModuleBody::Degree => true,
            _ => false,
        },
        ModuleBody::DegreeGate { degree: a_degree } => match b {
            ModuleBody::DegreeGate { degree: b_degree } => *a_degree == *b_degree,
            _ => false,
        },
        ModuleBody::Rate { time: a_time } => match b {
            ModuleBody::Rate { time: b_time } => *a_time == *b_time,
            _ => false,
        },
        ModuleBody::Transpose { input: a_input, semitones: a_semitones } => match b {
            ModuleBody::Transpose { input: b_input, semitones: b_semitones } => *a_input == *b_input && *a_semitones == *b_semitones,
            _ => false,
        },
        ModuleBody::Osc { wave: a_wave, frequency: a_frequency } => match b {
            ModuleBody::Osc { wave: b_wave, frequency: b_frequency } => a_wave.index == b_wave.index && strings_equal(&a_wave.options, &b_wave.options) && *a_frequency == *b_frequency,
            _ => false,
        },
        ModuleBody::Rise { gate: a_gate, time: a_time } => match b {
            ModuleBody::Rise { gate: b_gate, time: b_time } => *a_gate == *b_gate && *a_time == *b_time,
            _ => false,
        },
        ModuleBody::Fall { gate: a_gate, time: a_time } => match b {
            ModuleBody::Fall { gate: b_gate, time: b_time } => *a_gate == *b_gate && *a_time == *b_time,
            _ => false,
        },
        ModuleBody::Ramp { value: a_value, time: a_time } => match b {
            ModuleBody::Ramp { value: b_value, time: b_time } => *a_value == *b_value && *a_time == *b_time,
            _ => false,
        },
        ModuleBody::Adsr { rise: a_rise, fall: a_fall, attack: a_attack, sustain: a_sustain } => match b {
            ModuleBody::Adsr { rise: b_rise, fall: b_fall, attack: b_attack, sustain: b_sustain } => *a_rise == *b_rise && *a_fall == *b_fall && *a_attack == *b_attack && *a_sustain == *b_sustain,
            _ => false,
        },
        ModuleBody::Envelope { phase: a_phase, points: a_points } => match b {
            ModuleBody::Envelope { phase: b_phase, points: b_points } => *a_phase == *b_phase && points_equal(a_points, b_points),
            _ => false,
        },
        ModuleBody::Lowpass { input: a_input, frequency: a_frequency, q: a_q } => match b {
            ModuleBody::Lowpass { input: b_input, frequency: b_frequency, q: b_q } => *a_input == *b_input && *a_frequency == *b_frequency && *a_q == *b_q,
            _ => false,
        },
        ModuleBody::Highpass { input: a_input, frequency: a_frequency, q: a_q } => match b {
            ModuleBody::Highpass { input: b_input, frequency: b_frequency, q: b_q } => *a_input == *b_input && *a_frequency == *b_frequency && *a_q == *b_q,
            _ => false,
        },
        ModuleBody::Comb { input: a_input, time: a_time, feedback: a_feedback, damp: a_damp } => match b {
            ModuleBody::Comb { input: b_input, time: b_time, feedback: b_feedback, damp: b_damp } => *a_input == *b_input && *a_time == *b_time && *a_feedback == *b_feedback && *a_damp == *b_damp,
            _ => false,
        },
        ModuleBody::Allpass { input: a_input, time: a_time, feedback: a_feedback } => match b {
            ModuleBody::Allpass { input: b_input, time: b_time, feedback: b_feedback } => *a_input == *b_input && *a_time == *b_time && *a_feedback == *b_feedback,
            _ => false,
        },
        ModuleBody::Delay { input: a_input, time: a_time } => match b {
            ModuleBody::Delay { input: b_input, time: b_time } => *a_input == *b_input && *a_time == *b_time,
            _ => false,
        },
        ModuleBody::DelayTap { source: a_source, gain: a_gain } => match b {
            ModuleBody::DelayTap { source: b_source, gain: b_gain } => same_selection(a_source.selected, b_source.selected) && ids_equal(&a_source.options, &b_source.options) && *a_gain == *b_gain,
            _ => false,
        },
        ModuleBody::Reverb { input: a_input, room: a_room, damp: a_damp, mod_depth: a_mod_depth, diffusion: a_diffusion } => match b {
            ModuleBody::Reverb { input: b_input, room: b_room, damp: b_damp, mod_depth: b_mod_depth, diffusion: b_diffusion } => *a_input == *b_input && *a_room == *b_room && *a_damp == *b_damp && *a_mod_depth == *b_mod_depth && *a_diffusion == *b_diffusion,
            _ => false,
        },
        ModuleBody::Distortion { input: a_input, kind: a_kind, drive: a_drive, asymmetry: a_asymmetry } => match b {
            ModuleBody::Distortion { input: b_input, kind: b_kind, drive: b_drive, asymmetry: b_asymmetry } => *a_input == *b_input && a_kind.index == b_kind.index && strings_equal(&a_kind.options, &b_kind.options) && *a_drive == *b_drive && *a_asymmetry == *b_asymmetry,
            _ => false,
        },
        ModuleBody::Compressor { input: a_input, threshold: a_threshold, ratio: a_ratio, attack: a_attack, release: a_release, makeup: a_makeup } => match b {
            ModuleBody::Compressor { input: b_input, threshold: b_threshold, ratio: b_ratio, attack: b_attack, release: b_release, makeup: b_makeup } => *a_input == *b_input && *a_threshold == *b_threshold && *a_ratio == *b_ratio && *a_attack == *b_attack && *a_release == *b_release && *a_makeup == *b_makeup,
            _ => false,
        },
        ModuleBody::Flanger { input: a_input, rate: a_rate, depth: a_depth, feedback: a_feedback } => match b {
            ModuleBody::Flanger { input: b_input, rate: b_rate, depth: b_depth, feedback: b_feedback } => *a_input == *b_input && *a_rate == *b_rate && *a_depth == *b_depth && *a_feedback == *b_feedback,
            _ => false,
        },
        ModuleBody::Multiply { a: a_a, b: a_b } => match b {
            ModuleBody::Multiply { a: b_a, b: b_b } => *a_a == *b_a && *a_b == *b_b,
            _ => false,
        },
        ModuleBody::Add { a: a_a, b: a_b } => match b {
            ModuleBody::Add { a: b_a, b: b_b } => *a_a == *b_a && *a_b == *b_b,
            _ => false,
        },
        ModuleBody::GreaterThan { a: a_a, b: a_b } => match b {
            ModuleBody::GreaterThan { a: b_a, b: b_b } => *a_a == *b_a && *a_b == *b_b,
            _ => false,
        },
        ModuleBody::LessThan { a: a_a, b: a_b } => match b {
            ModuleBody::LessThan { a: b_a, b: b_b } => *a_a == *b_a && *a_b == *b_b,
            _ => false,
        },
        ModuleBody::Switch { select: a_select, a: a_a, b: a_b } => match b {
            ModuleBody::Switch { select: b_select, a: b_a, b: b_b } => *a_select == *b_select && *a_a == *b_a && *a_b == *b_b,
            _ => false,
        },
        ModuleBody::Random { gate: a_gate } => match b {
            ModuleBody::Random { gate: b_gate } => *a_gate == *b_gate,
            _ => false,
        },
        ModuleBody::Sample { file_name: a_file_name, file_missing: a_file_missing, position: a_position } => match b {
            ModuleBody::Sample { file_name: b_file_name, file_missing: b_file_missing, position: b_position } => *a_file_name == *b_file_name && *a_file_missing == *b_file_missing && *a_position == *b_position,
            _ => false,
        },
        ModuleBody::Probe { input: a_input } => match b {
            ModuleBody::Probe { input: b_input } => *a_input == *b_input,
            _ => false,
        },
        ModuleBody::Output { input: a_input, gain: a_gain } => match b {
            ModuleBody::Output { input: b_input, gain: b_gain } => *a_input == *b_input && *a_gain == *b_gain,
            _ => false,
        },
        ModuleBody::CompositionOutput { label: a_label, input: a_input } => match b {
            ModuleBody::CompositionOutput { label: b_label, input: b_input } => *a_label == *b_label && *a_input == *b_input,
            _ => false,
        },
        ModuleBody::TurnRightDown => match b {
            ModuleBody::TurnRightDown => true,
            _ => false,
        },
        ModuleBody::TurnDownRight => match b {
            ModuleBody::TurnDownRight => true,
            _ => false,
        },
        ModuleBody::LeftSplit => match b {
            ModuleBody::LeftSplit => true,
            _ => false,
        },
        ModuleBody::TopSplit => match b {
            ModuleBody::TopSplit => true,
            _ => false,
        },
        ModuleBody::RightJoin => match b {
            ModuleBody::RightJoin => true,
            _ => false,
        },
        ModuleBody::DownJoin => match b {
            ModuleBody::DownJoin => true,
            _ => false,
        },
        ModuleBody::CompositionInput { label: a_label, kind: a_kind, value: a_value } => match b {
            ModuleBody::CompositionInput { label: b_label, kind: b_kind, value: b_value } => *a_label == *b_label && *a_kind == *b_kind && *a_value == *b_value,
            _ => false,
        },
        ModuleBody::Composition { .. } => false,
    }
}

/// Whether two module lists hold the same modules in the same order: ids,
/// places, flags and settings alike, nested surfaces included.
pub open spec fn modules_eq(a: Seq<Module>, b: Seq<Module>) -> bool
    decreases a,
{
    if a.len() != b.len() {
        false
    } else if a.len() == 0 {
        true
    } else {
        let x = a.last();
        let y = b.last();
        &&& modules_eq(a.drop_last(), b.drop_last())
        &&& x.id == y.id
        &&& x.position == y.position
        &&& x.orientation == y.orientation
        &&& x.disabled == y.disabled
        &&& match x.body {
            ModuleBody::Composition { name: xn, surface: xs } => match y.body {
                ModuleBody::Composition { name: yn, surface: ys } => {
                    &&& xn@ == yn@
                    &&& xs.cursor == ys.cursor
                    &&& modules_eq(xs.modules@, ys.modules@)
                },
                _ => false,
            },
            _ => flat_body_eq(x.body, y.body),
        }
    }
}

/// Whether two surfaces hold the same modules under the same cursor.
pub open spec fn surface_eq(a: PatchSurface, b: PatchSurface) -> bool {
    a.cursor == b.cursor && modules_eq(a.modules@, b.modules@)
}

/// A deep copy of a module list.
pub fn copy_modules(v: &Vec<Module>) -> (r: Vec<Module>)
    ensures
        modules_eq(v@, r@),
    decreases v@,
{
    let mut r: Vec<Module> = Vec::new();
    let mut i: usize = 0;
    while i < v.len()
        invariant
            i <= v@.len(),
            modules_eq(v@.take(i as int), r@),
        decreases v@.len() - i,
    {
        let m = &v[i];
        let body = match &m.body {
            ModuleBody::Composition { name, surface } => {
                let inner = copy_modules(&surface.modules);
                ModuleBody::Composition {
                    name: name.clone(),
                    surface: PatchSurface { cursor: surface.cursor, modules: inner },
                }
            },
            other => copy_flat_body(other),
        };
        let ghost prior = r@;
        r.push(Module { id: m.id, position: m.position, orientation: m.orientation, body, disabled: m.disabled });
        proof {
            assert(v@.take(i + 1).drop_last() =~= v@.take(i as int));
            assert(r@.drop_last() =~= prior);
        }
        i = i + 1;
    }
    assert(v@.take(i as int) =~= v@);
    r
}

/// A deep copy of a surface.
pub fn copy_surface(s: &PatchSurface) -> (r: PatchSurface)
    ensures
        surface_eq(*s, r),
{
    PatchSurface { cursor: s.cursor, modules: copy_modules(&s.modules) }
}

/// Compares two module lists deeply.
pub fn modules_equal(a: &Vec<Module>, b: &Vec<Module>) -> (r: bool)
    ensures
        r == modules_eq(a@, b@),
    decreases a@,
{
    if a.len() != b.len() {
        return false;
    }
    let mut i: usize = 0;
    while i < a.len()
        invariant
            a@.len() == b@.len(),
            i <= a@.len(),
            modules_eq(a@.take(i as int), b@.take(i as int)),
        decreases a@.len() - i,
    {
        let x = &a[i];
        let y = &b[i];
        let same_body = match &x.body {
            ModuleBody::Composition { name: xn, surface: xs } => match &y.body {
                ModuleBody::Composition { name: yn, surface: ys } => {
                    *xn == *yn && xs.cursor == ys.cursor && modules_equal(&xs.modules, &ys.modules)
                },
                _ => false,
            },
            other => flat_body_equal(other, &y.body),
        };
        proof {
            assert(a@.take(i + 1).drop_last() =~= a@.take(i as int));
            assert(b@.take(i + 1).drop_last() =~= b@.take(i as int));
        }
        if !(same_body && x.id == y.id && x.position == y.position && x.orientation == y.orientation
            && x.disabled == y.disabled) {
            proof {
                if modules_eq(a@, b@) {
                    lemma_modules_eq_prefix(a@, b@, i + 1);
                    assert(a@.take(i + 1).last() == a@[i as int]);
                    assert(b@.take(i + 1).last() == b@[i as int]);
                }
            }
            return false;
        }
        i = i + 1;
    }
    assert(a@.take(i as int) =~= a@);
    assert(b@.take(i as int) =~= b@);
    true
}

/// Equal lists agree on every prefix.
pub proof fn lemma_modules_eq_prefix(a: Seq<Module>, b: Seq<Module>, n: int)
    requires
        modules_eq(a, b),
        0 <= n <= a.len(),
    ensures
        modules_eq(a.take(n), b.take(n)),
    decreases a.len(),
{
    if n < a.len() {
        assert(a.take(a.len() as int) =~= a);
        assert(a.drop_last().take(n) =~= a.take(n));
        assert(b.drop_last().take(n) =~= b.take(n));
        lemma_modules_eq_prefix(a.drop_last(), b.drop_last(), n);
    } else {
        assert(a.take(n) =~= a);
        assert(b.take(n) =~= b);
    }
}

} // verus!
