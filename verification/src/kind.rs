use vstd::prelude::*;

verus! {

/// Every kind of module the editor can place on a patch surface.
#[derive(Clone, Copy, Debug, PartialEq, Eq, Structural, Hash)]
pub enum ModuleKind {
    Primitive,
    Freq,
    Gate,
    Degree,
    DegreeGate,
    Rate,
    Transpose,
    Osc,
    Rise,
    Fall,
    Ramp,
    Adsr,
    Envelope,
    Lowpass,
    Highpass,
    Comb,
    Allpass,
    Delay,
    DelayTap,
    Reverb,
    Distortion,
    Compressor,
    Flanger,
    Probe,
    Multiply,
    Add,
    GreaterThan,
    LessThan,
    Switch,
    Random,
    Sample,
    Output,
    TurnRightDown,
    TurnDownRight,
    LeftSplit,
    TopSplit,
    RightJoin,
    DownJoin,
    CompositionInput,
    CompositionOutput,
    Composition,
}

/// The palette groups modules are listed under.
#[derive(Clone, Copy, Debug, PartialEq, Eq, Structural, Hash)]
pub enum ModuleCategory {
    Source,
    Shape,
    Filter,
    Effect,
    Logic,
    Routing,
    Composition,
    Output,
}

/// The modules that open a dedicated visual editor instead of the parameter list.
#[derive(Clone, Copy, Debug, PartialEq, Eq, Structural)]
pub enum SpecialEditor {
    Adsr,
    Envelope,
    Probe,
    Sample,
}

/// The role of a module input in the synthesis engine.
#[derive(Clone, Copy, Debug, PartialEq, Eq, Structural, Hash)]
pub enum InputKind {
    In,
    Semitones,
    Freq,
    Gate,
    Time,
    Value,
    Rise,
    Fall,
    Attack,
    Sustain,
    Phase,
    Q,
    Feedback,
    Damp,
    Room,
    Mod,
    Diff,
    Drive,
    Asym,
    Thresh,
    Ratio,
    Release,
    Gain,
    Rate,
    Depth,
    A,
    B,
    Select,
    Position,
}

/// The palette category a kind is listed under.
pub open spec fn kind_category(k: ModuleKind) -> ModuleCategory {
    match k {
        ModuleKind::Primitive => ModuleCategory::Routing,
        ModuleKind::Freq => ModuleCategory::Source,
        ModuleKind::Gate => ModuleCategory::Source,
        ModuleKind::Degree => ModuleCategory::Source,
        ModuleKind::DegreeGate => ModuleCategory::Source,
        ModuleKind::Rate => ModuleCategory::Source,
        ModuleKind::Transpose => ModuleCategory::Source,
        ModuleKind::Osc => ModuleCategory::Source,
        ModuleKind::Rise => ModuleCategory::Shape,
        ModuleKind::Fall => ModuleCategory::Shape,
        ModuleKind::Ramp => ModuleCategory::Shape,
        ModuleKind::Adsr => ModuleCategory::Shape,
        ModuleKind::Envelope => ModuleCategory::Shape,
        ModuleKind::Lowpass => ModuleCategory::Filter,
        ModuleKind::Highpass => ModuleCategory::Filter,
        ModuleKind::Comb => ModuleCategory::Effect,
        ModuleKind::Allpass => ModuleCategory::Effect,
        ModuleKind::Delay => ModuleCategory::Effect,
        ModuleKind::DelayTap => ModuleCategory::Effect,
        ModuleKind::Reverb => ModuleCategory::Effect,
        ModuleKind::Distortion => ModuleCategory::Effect,
        ModuleKind::Compressor => ModuleCategory::Effect,
        ModuleKind::Flanger => ModuleCategory::Effect,
        ModuleKind::Probe => ModuleCategory::Logic,
        ModuleKind::Multiply => ModuleCategory::Logic,
        ModuleKind::Add => ModuleCategory::Logic,
        ModuleKind::GreaterThan => ModuleCategory::Logic,
        ModuleKind::LessThan => ModuleCategory::Logic,
        ModuleKind::Switch => ModuleCategory::Logic,
        ModuleKind::Random => ModuleCategory::Source,
        ModuleKind::Sample => ModuleCategory::Source,
        ModuleKind::Output => ModuleCategory::Output,
        ModuleKind::TurnRightDown => ModuleCategory::Routing,
        ModuleKind::TurnDownRight => ModuleCategory::Routing,
        ModuleKind::LeftSplit => ModuleCategory::Routing,
        ModuleKind::TopSplit => ModuleCategory::Routing,
        ModuleKind::RightJoin => ModuleCategory::Routing,
        ModuleKind::DownJoin => ModuleCategory::Routing,
        ModuleKind::CompositionInput => ModuleCategory::Composition,
        ModuleKind::CompositionOutput => ModuleCategory::Composition,
        ModuleKind::Composition => ModuleCategory::Composition,
    }
}

/// The name a kind is shown with.
pub open spec fn kind_label(k: ModuleKind) -> Seq<char> {
    match k {
        ModuleKind::Primitive => "Unit"@,
        ModuleKind::Freq => "Freq"@,
        ModuleKind::Gate => "Gate"@,
        ModuleKind::Degree => "Degree"@,
        ModuleKind::DegreeGate => "Degree Gate"@,
        ModuleKind::Rate => "Rate"@,
        ModuleKind::Transpose => "Transpose"@,
        ModuleKind::Osc => "Osc"@,
        ModuleKind::Rise => "Rise"@,
        ModuleKind::Fall => "Fall"@,
        ModuleKind::Ramp => "Ramp"@,
        ModuleKind::Adsr => "ADSR"@,
        ModuleKind::Envelope => "Envelope"@,
        ModuleKind::Lowpass => "LPF"@,
        ModuleKind::Highpass => "HPF"@,
        ModuleKind::Comb => "Comb"@,
        ModuleKind::Allpass => "Allpass"@,
        ModuleKind::Delay => "Delay"@,
        ModuleKind::DelayTap => "Delay Tap"@,
        ModuleKind::Reverb => "Reverb"@,
        ModuleKind::Distortion => "Distortion"@,
        ModuleKind::Compressor => "Compressor"@,
        ModuleKind::Flanger => "Flanger"@,
        ModuleKind::Probe => "Probe"@,
        ModuleKind::Multiply => "Mul"@,
        ModuleKind::Add => "Add"@,
        ModuleKind::GreaterThan => "GT"@,
        ModuleKind::LessThan => "LT"@,
        ModuleKind::Switch => "Switch"@,
        ModuleKind::Random => "RNG"@,
        ModuleKind::Sample => "Sample"@,
        ModuleKind::Output => "Output"@,
        ModuleKind::TurnRightDown => "Turn RD"@,
        ModuleKind::TurnDownRight => "Turn DR"@,
        ModuleKind::LeftSplit => "L Split"@,
        ModuleKind::TopSplit => "T Split"@,
        ModuleKind::RightJoin => "R Join"@,
        ModuleKind::DownJoin => "D Join"@,
        ModuleKind::CompositionInput => "Sub In"@,
        ModuleKind::CompositionOutput => "Sub Out"@,
        ModuleKind::Composition => "Composition"@,
    }
}

/// Every kind has a name of its own, and no name is empty: a search by
/// name never confuses two kinds.
#[verifier::spinoff_prover]
#[verifier::rlimit(100)]
pub proof fn law_kind_labels_distinct(k1: ModuleKind, k2: ModuleKind)
    ensures
        kind_label(k1).len() > 0,
        k1 != k2 ==> kind_label(k1) != kind_label(k2),
{
    reveal_strlit("Unit");
    reveal_strlit("Freq");
    reveal_strlit("Gate");
    reveal_strlit("Degree");
    reveal_strlit("Degree Gate");
    reveal_strlit("Rate");
    reveal_strlit("Transpose");
    reveal_strlit("Osc");
    reveal_strlit("Rise");
    reveal_strlit("Fall");
    reveal_strlit("Ramp");
    reveal_strlit("ADSR");
    reveal_strlit("Envelope");
    reveal_strlit("LPF");
    reveal_strlit("HPF");
    reveal_strlit("Comb");
    reveal_strlit("Allpass");
    reveal_strlit("Delay");
    reveal_strlit("Delay Tap");
    reveal_strlit("Reverb");
    reveal_strlit("Distortion");
    reveal_strlit("Compressor");
    reveal_strlit("Flanger");
    reveal_strlit("Probe");
    reveal_strlit("Mul");
    reveal_strlit("Add");
    reveal_strlit("GT");
    reveal_strlit("LT");
    reveal_strlit("Switch");
    reveal_strlit("RNG");
    reveal_strlit("Sample");
    reveal_strlit("Output");
    reveal_strlit("Turn RD");
    reveal_strlit("Turn DR");
    reveal_strlit("L Split");
    reveal_strlit("T Split");
    reveal_strlit("R Join");
    reveal_strlit("D Join");
    reveal_strlit("Sub In");
    reveal_strlit("Sub Out");
    reveal_strlit("Composition");
    if k1 != k2 {
        if kind_label(k1) == kind_label(k2) {
            assert(kind_label(k1).len() == kind_label(k2).len());
            assert(kind_label(k1)[0] == kind_label(k2)[0]);
            assert(kind_label(k1).len() > 1 ==> kind_label(k1)[1] == kind_label(k2)[1]);
            assert(kind_label(k1).len() > 2 ==> kind_label(k1)[2] == kind_label(k2)[2]);
            assert(kind_label(k1).len() > 5 ==> kind_label(k1)[5] == kind_label(k2)[5]);
        }
    }
}

/// How many input ports a module of this kind has before its parameters are edited.
pub open spec fn kind_input_count(k: ModuleKind) -> u16 {
    match k {
        ModuleKind::Primitive => 0,
        ModuleKind::Freq => 0,
        ModuleKind::Gate => 0,
        ModuleKind::Degree => 0,
        ModuleKind::DegreeGate => 0,
        ModuleKind::Rate => 0,
        ModuleKind::Transpose => 2,
        ModuleKind::Osc => 1,
        ModuleKind::Rise => 2,
        ModuleKind::Fall => 2,
        ModuleKind::Ramp => 2,
        ModuleKind::Adsr => 4,
        ModuleKind::Envelope => 1,
        ModuleKind::Lowpass => 3,
        ModuleKind::Highpass => 3,
        ModuleKind::Comb => 4,
        ModuleKind::Allpass => 3,
        ModuleKind::Delay => 2,
        ModuleKind::DelayTap => 0,
        ModuleKind::Reverb => 5,
        ModuleKind::Distortion => 3,
        ModuleKind::Compressor => 6,
        ModuleKind::Flanger => 4,
        ModuleKind::Probe => 1,
        ModuleKind::Multiply => 2,
        ModuleKind::Add => 2,
        ModuleKind::GreaterThan => 2,
        ModuleKind::LessThan => 2,
        ModuleKind::Switch => 3,
        ModuleKind::Random => 0,
        ModuleKind::Sample => 0,
        ModuleKind::Output => 2,
        ModuleKind::TurnRightDown => 1,
        ModuleKind::TurnDownRight => 1,
        ModuleKind::LeftSplit => 1,
        ModuleKind::TopSplit => 1,
        ModuleKind::RightJoin => 2,
        ModuleKind::DownJoin => 2,
        ModuleKind::CompositionInput => 0,
        ModuleKind::CompositionOutput => 1,
        ModuleKind::Composition => 0,
    }
}

/// How many output ports a module of this kind has.
pub open spec fn kind_output_count(k: ModuleKind) -> u16 {
    match k {
        ModuleKind::Primitive => 1,
        ModuleKind::Freq => 1,
        ModuleKind::Gate => 1,
        ModuleKind::Degree => 1,
        ModuleKind::DegreeGate => 1,
        ModuleKind::Rate => 1,
        ModuleKind::Transpose => 1,
        ModuleKind::Osc => 1,
        ModuleKind::Rise => 1,
        ModuleKind::Fall => 1,
        ModuleKind::Ramp => 1,
        ModuleKind::Adsr => 1,
        ModuleKind::Envelope => 1,
        ModuleKind::Lowpass => 1,
        ModuleKind::Highpass => 1,
        ModuleKind::Comb => 1,
        ModuleKind::Allpass => 1,
        ModuleKind::Delay => 1,
        ModuleKind::DelayTap => 1,
        ModuleKind::Reverb => 1,
        ModuleKind::Distortion => 1,
        ModuleKind::Compressor => 1,
        ModuleKind::Flanger => 1,
        ModuleKind::Probe => 1,
        ModuleKind::Multiply => 1,
        ModuleKind::Add => 1,
        ModuleKind::GreaterThan => 1,
        ModuleKind::LessThan => 1,
        ModuleKind::Switch => 1,
        ModuleKind::Random => 1,
        ModuleKind::Sample => 1,
        ModuleKind::Output => 0,
        ModuleKind::TurnRightDown => 1,
        ModuleKind::TurnDownRight => 1,
        ModuleKind::LeftSplit => 2,
        ModuleKind::TopSplit => 2,
        ModuleKind::RightJoin => 1,
        ModuleKind::DownJoin => 1,
        ModuleKind::CompositionInput => 1,
        ModuleKind::CompositionOutput => 0,
        ModuleKind::Composition => 1,
    }
}

/// The dedicated editor a kind opens, if any.
pub open spec fn kind_special_editor(k: ModuleKind) -> Option<SpecialEditor> {
    match k {
        ModuleKind::Primitive => None,
        ModuleKind::Freq => None,
        ModuleKind::Gate => None,
        ModuleKind::Degree => None,
        ModuleKind::DegreeGate => None,
        ModuleKind::Rate => None,
        ModuleKind::Transpose => None,
        ModuleKind::Osc => None,
        ModuleKind::Rise => None,
        ModuleKind::Fall => None,
        ModuleKind::Ramp => None,
        ModuleKind::Adsr => Some(SpecialEditor::Adsr),
        ModuleKind::Envelope => Some(SpecialEditor::Envelope),
        ModuleKind::Lowpass => None,
        ModuleKind::Highpass => None,
        ModuleKind::Comb => None,
        ModuleKind::Allpass => None,
        ModuleKind::Delay => None,
        ModuleKind::DelayTap => None,
        ModuleKind::Reverb => None,
        ModuleKind::Distortion => None,
        ModuleKind::Compressor => None,
        ModuleKind::Flanger => None,
        ModuleKind::Probe => Some(SpecialEditor::Probe),
        ModuleKind::Multiply => None,
        ModuleKind::Add => None,
        ModuleKind::GreaterThan => None,
        ModuleKind::LessThan => None,
        ModuleKind::Switch => None,
        ModuleKind::Random => None,
        ModuleKind::Sample => Some(SpecialEditor::Sample),
        ModuleKind::Output => None,
        ModuleKind::TurnRightDown => None,
        ModuleKind::TurnDownRight => None,
        ModuleKind::LeftSplit => None,
        ModuleKind::TopSplit => None,
        ModuleKind::RightJoin => None,
        ModuleKind::DownJoin => None,
        ModuleKind::CompositionInput => None,
        ModuleKind::CompositionOutput => None,
        ModuleKind::Composition => None,
    }
}

/// Routing pieces: one-cell wires that turn, split or join signals.
pub open spec fn kind_is_routing(k: ModuleKind) -> bool {
    k is TurnRightDown || k is TurnDownRight || k is LeftSplit || k is TopSplit || k is RightJoin
        || k is DownJoin
}

/// Length of a module along its signal axis: one cell for routing pieces,
/// otherwise as many cells as its widest side has ports (at least one).
pub open spec fn kind_span(k: ModuleKind) -> u16 {
    if kind_is_routing(k) {
        1
    } else {
        let n = if kind_input_count(k) >= kind_output_count(k) { kind_input_count(k) } else { kind_output_count(k) };
        if n < 1 { 1 } else { n }
    }
}

pub open spec fn kind_width(k: ModuleKind, orientation: crate::grid::Orientation) -> u16 {
    match orientation {
        crate::grid::Orientation::Right => 1,
        crate::grid::Orientation::Down => kind_span(k),
    }
}

pub open spec fn kind_height(k: ModuleKind, orientation: crate::grid::Orientation) -> u16 {
    match orientation {
        crate::grid::Orientation::Right => kind_span(k),
        crate::grid::Orientation::Down => 1,
    }
}

impl ModuleKind {
    pub fn category(self) -> (r: ModuleCategory)
        ensures
            r == kind_category(self),
    {
        match self {
            ModuleKind::Primitive => ModuleCategory::Routing,
            ModuleKind::Freq => ModuleCategory::Source,
            ModuleKind::Gate => ModuleCategory::Source,
            ModuleKind::Degree => ModuleCategory::Source,
            ModuleKind::DegreeGate => ModuleCategory::Source,
            ModuleKind::Rate => ModuleCategory::Source,
            ModuleKind::Transpose => ModuleCategory::Source,
            ModuleKind::Osc => ModuleCategory::Source,
            ModuleKind::Rise => ModuleCategory::Shape,
            ModuleKind::Fall => ModuleCategory::Shape,
            ModuleKind::Ramp => ModuleCategory::Shape,
            ModuleKind::Adsr => ModuleCategory::Shape,
            ModuleKind::Envelope => ModuleCategory::Shape,
            ModuleKind::Lowpass => ModuleCategory::Filter,
            ModuleKind::Highpass => ModuleCategory::Filter,
            ModuleKind::Comb => ModuleCategory::Effect,
            ModuleKind::Allpass => ModuleCategory::Effect,
            ModuleKind::Delay => ModuleCategory::Effect,
            ModuleKind::DelayTap => ModuleCategory::Effect,
            ModuleKind::Reverb => ModuleCategory::Effect,
            ModuleKind::Distortion => ModuleCategory::Effect,
            ModuleKind::Compressor => ModuleCategory::Effect,
            ModuleKind::Flanger => ModuleCategory::Effect,
            ModuleKind::Probe => ModuleCategory::Logic,
            ModuleKind::Multiply => ModuleCategory::Logic,
            ModuleKind::Add => ModuleCategory::Logic,
            ModuleKind::GreaterThan => ModuleCategory::Logic,
            ModuleKind::LessThan => ModuleCategory::Logic,
            ModuleKind::Switch => ModuleCategory::Logic,
            ModuleKind::Random => ModuleCategory::Source,
            ModuleKind::Sample => ModuleCategory::Source,
            ModuleKind::Output => ModuleCategory::Output,
            ModuleKind::TurnRightDown => ModuleCategory::Routing,
            ModuleKind::TurnDownRight => ModuleCategory::Routing,
            ModuleKind::LeftSplit => ModuleCategory::Routing,
            ModuleKind::TopSplit => ModuleCategory::Routing,
            ModuleKind::RightJoin => ModuleCategory::Routing,
            ModuleKind::DownJoin => ModuleCategory::Routing,
            ModuleKind::CompositionInput => ModuleCategory::Composition,
            ModuleKind::CompositionOutput => ModuleCategory::Composition,
            ModuleKind::Composition => ModuleCategory::Composition,
        }
    }

    pub fn label(self) -> (r: &'static str)
        ensures
            r@ == kind_label(self),
    {
        match self {
            ModuleKind::Primitive => "Unit",
            ModuleKind::Freq => "Freq",
            ModuleKind::Gate => "Gate",
            ModuleKind::Degree => "Degree",
            ModuleKind::DegreeGate => "Degree Gate",
            ModuleKind::Rate => "Rate",
            ModuleKind::Transpose => "Transpose",
            ModuleKind::Osc => "Osc",
            ModuleKind::Rise => "Rise",
            ModuleKind::Fall => "Fall",
            ModuleKind::Ramp => "Ramp",
            ModuleKind::Adsr => "ADSR",
            ModuleKind::Envelope => "Envelope",
            ModuleKind::Lowpass => "LPF",
            ModuleKind::Highpass => "HPF",
            ModuleKind::Comb => "Comb",
            ModuleKind::Allpass => "Allpass",
            ModuleKind::Delay => "Delay",
            ModuleKind::DelayTap => "Delay Tap",
            ModuleKind::Reverb => "Reverb",
            ModuleKind::Distortion => "Distortion",
            ModuleKind::Compressor => "Compressor",
            ModuleKind::Flanger => "Flanger",
            ModuleKind::Probe => "Probe",
            ModuleKind::Multiply => "Mul",
            ModuleKind::Add => "Add",
            ModuleKind::GreaterThan => "GT",
            ModuleKind::LessThan => "LT",
            ModuleKind::Switch => "Switch",
            ModuleKind::Random => "RNG",
            ModuleKind::Sample => "Sample",
            ModuleKind::Output => "Output",
            ModuleKind::TurnRightDown => "Turn RD",
            ModuleKind::TurnDownRight => "Turn DR",
            ModuleKind::LeftSplit => "L Split",
            ModuleKind::TopSplit => "T Split",
            ModuleKind::RightJoin => "R Join",
            ModuleKind::DownJoin => "D Join",
            ModuleKind::CompositionInput => "Sub In",
            ModuleKind::CompositionOutput => "Sub Out",
            ModuleKind::Composition => "Composition",
        }
    }

    pub fn special_editor(self) -> (r: Option<SpecialEditor>)
        ensures
            r == kind_special_editor(self),
    {
        match self {
            ModuleKind::Primitive => None,
            ModuleKind::Freq => None,
            ModuleKind::Gate => None,
            ModuleKind::Degree => None,
            ModuleKind::DegreeGate => None,
            ModuleKind::Rate => None,
            ModuleKind::Transpose => None,
            ModuleKind::Osc => None,
            ModuleKind::Rise => None,
            ModuleKind::Fall => None,
            ModuleKind::Ramp => None,
            ModuleKind::Adsr => Some(SpecialEditor::Adsr),
            ModuleKind::Envelope => Some(SpecialEditor::Envelope),
            ModuleKind::Lowpass => None,
            ModuleKind::Highpass => None,
            ModuleKind::Comb => None,
            ModuleKind::Allpass => None,
            ModuleKind::Delay => None,
            ModuleKind::DelayTap => None,
            ModuleKind::Reverb => None,
            ModuleKind::Distortion => None,
            ModuleKind::Compressor => None,
            ModuleKind::Flanger => None,
            ModuleKind::Probe => Some(SpecialEditor::Probe),
            ModuleKind::Multiply => None,
            ModuleKind::Add => None,
            ModuleKind::GreaterThan => None,
            ModuleKind::LessThan => None,
            ModuleKind::Switch => None,
            ModuleKind::Random => None,
            ModuleKind::Sample => Some(SpecialEditor::Sample),
            ModuleKind::Output => None,
            ModuleKind::TurnRightDown => None,
            ModuleKind::TurnDownRight => None,
            ModuleKind::LeftSplit => None,
            ModuleKind::TopSplit => None,
            ModuleKind::RightJoin => None,
            ModuleKind::DownJoin => None,
            ModuleKind::CompositionInput => None,
            ModuleKind::CompositionOutput => None,
            ModuleKind::Composition => None,
        }
    }

    pub fn has_visual_editor(self) -> (r: bool)
        ensures
            r == kind_special_editor(self).is_some(),
    {
        self.special_editor().is_some()
    }

    pub fn input_count(self) -> (r: u16)
        ensures
            r == kind_input_count(self),
    {
        match self {
            ModuleKind::Primitive => 0,
            ModuleKind::Freq => 0,
            ModuleKind::Gate => 0,
            ModuleKind::Degree => 0,
            ModuleKind::DegreeGate => 0,
            ModuleKind::Rate => 0,
            ModuleKind::Transpose => 2,
            ModuleKind::Osc => 1,
            ModuleKind::Rise => 2,
            ModuleKind::Fall => 2,
            ModuleKind::Ramp => 2,
            ModuleKind::Adsr => 4,
            ModuleKind::Envelope => 1,
            ModuleKind::Lowpass => 3,
            ModuleKind::Highpass => 3,
            ModuleKind::Comb => 4,
            ModuleKind::Allpass => 3,
            ModuleKind::Delay => 2,
            ModuleKind::DelayTap => 0,
            ModuleKind::Reverb => 5,
            ModuleKind::Distortion => 3,
            ModuleKind::Compressor => 6,
            ModuleKind::Flanger => 4,
            ModuleKind::Probe => 1,
            ModuleKind::Multiply => 2,
            ModuleKind::Add => 2,
            ModuleKind::GreaterThan => 2,
            ModuleKind::LessThan => 2,
            ModuleKind::Switch => 3,
            ModuleKind::Random => 0,
            ModuleKind::Sample => 0,
            ModuleKind::Output => 2,
            ModuleKind::TurnRightDown => 1,
            ModuleKind::TurnDownRight => 1,
            ModuleKind::LeftSplit => 1,
            ModuleKind::TopSplit => 1,
            ModuleKind::RightJoin => 2,
            ModuleKind::DownJoin => 2,
            ModuleKind::CompositionInput => 0,
            ModuleKind::CompositionOutput => 1,
            ModuleKind::Composition => 0,
        }
    }

    pub fn output_count(self) -> (r: u16)
        ensures
            r == kind_output_count(self),
    {
        match self {
            ModuleKind::Primitive => 1,
            ModuleKind::Freq => 1,
            ModuleKind::Gate => 1,
            ModuleKind::Degree => 1,
            ModuleKind::DegreeGate => 1,
            ModuleKind::Rate => 1,
            ModuleKind::Transpose => 1,
            ModuleKind::Osc => 1,
            ModuleKind::Rise => 1,
            ModuleKind::Fall => 1,
            ModuleKind::Ramp => 1,
            ModuleKind::Adsr => 1,
            ModuleKind::Envelope => 1,
            ModuleKind::Lowpass => 1,
            ModuleKind::Highpass => 1,
            ModuleKind::Comb => 1,
            ModuleKind::Allpass => 1,
            ModuleKind::Delay => 1,
            ModuleKind::DelayTap => 1,
            ModuleKind::Reverb => 1,
            ModuleKind::Distortion => 1,
            ModuleKind::Compressor => 1,
            ModuleKind::Flanger => 1,
            ModuleKind::Probe => 1,
            ModuleKind::Multiply => 1,
            ModuleKind::Add => 1,
            ModuleKind::GreaterThan => 1,
            ModuleKind::LessThan => 1,
            ModuleKind::Switch => 1,
            ModuleKind::Random => 1,
            ModuleKind::Sample => 1,
            ModuleKind::Output => 0,
            ModuleKind::TurnRightDown => 1,
            ModuleKind::TurnDownRight => 1,
            ModuleKind::LeftSplit => 2,
            ModuleKind::TopSplit => 2,
            ModuleKind::RightJoin => 1,
            ModuleKind::DownJoin => 1,
            ModuleKind::CompositionInput => 1,
            ModuleKind::CompositionOutput => 0,
            ModuleKind::Composition => 1,
        }
    }

    pub fn is_routing(self) -> (r: bool)
        ensures
            r == kind_is_routing(self),
    {
        match self {
            ModuleKind::TurnRightDown
            | ModuleKind::TurnDownRight
            | ModuleKind::LeftSplit
            | ModuleKind::TopSplit
            | ModuleKind::RightJoin
            | ModuleKind::DownJoin => true,
            _ => false,
        }
    }

    fn span(self) -> (r: u16)
        ensures
            r == kind_span(self),
    {
        if self.is_routing() {
            return 1;
        }
        let inputs = self.input_count();
        let outputs = self.output_count();
        let n = if inputs >= outputs { inputs } else { outputs };
        if n < 1 { 1 } else { n }
    }

    pub fn width(self, orientation: crate::grid::Orientation) -> (r: u16)
        ensures
            r == kind_width(self, orientation),
    {
        match orientation {
            crate::grid::Orientation::Right => 1,
            crate::grid::Orientation::Down => self.span(),
        }
    }

    pub fn height(self, orientation: crate::grid::Orientation) -> (r: u16)
        ensures
            r == kind_height(self, orientation),
    {
        match orientation {
            crate::grid::Orientation::Right => self.span(),
            crate::grid::Orientation::Down => 1,
        }
    }
}

pub open spec fn category_label(c: ModuleCategory) -> Seq<char> {
    match c {
        ModuleCategory::Source => "Source"@,
        ModuleCategory::Shape => "Shape"@,
        ModuleCategory::Filter => "Filter"@,
        ModuleCategory::Effect => "Effect"@,
        ModuleCategory::Logic => "Logic"@,
        ModuleCategory::Routing => "Routing"@,
        ModuleCategory::Composition => "Composition"@,
        ModuleCategory::Output => "Output"@,
    }
}

/// The palette's order of categories.
pub open spec fn category_order() -> Seq<ModuleCategory> {
    seq![
        ModuleCategory::Source,
        ModuleCategory::Output,
        ModuleCategory::Shape,
        ModuleCategory::Filter,
        ModuleCategory::Effect,
        ModuleCategory::Logic,
        ModuleCategory::Routing,
        ModuleCategory::Composition,
    ]
}

impl ModuleCategory {
    pub fn label(self) -> (r: &'static str)
        ensures
            r@ == category_label(self),
    {
        match self {
            ModuleCategory::Source => "Source",
            ModuleCategory::Shape => "Shape",
            ModuleCategory::Filter => "Filter",
            ModuleCategory::Effect => "Effect",
            ModuleCategory::Logic => "Logic",
            ModuleCategory::Routing => "Routing",
            ModuleCategory::Composition => "Composition",
            ModuleCategory::Output => "Output",
        }
    }

    /// Every category, in palette order.
    pub fn all() -> (r: [ModuleCategory; 8])
        ensures
            r@ == category_order(),
    {
        let r = [
            ModuleCategory::Source,
            ModuleCategory::Output,
            ModuleCategory::Shape,
            ModuleCategory::Filter,
            ModuleCategory::Effect,
            ModuleCategory::Logic,
            ModuleCategory::Routing,
            ModuleCategory::Composition,
        ];
        assert(r@ =~= category_order());
        r
    }
}

/// The kinds offered in the palette, in the order they are listed.
pub open spec fn palette_kinds() -> Seq<ModuleKind> {
    seq![
        ModuleKind::Osc,
        ModuleKind::Output,
        ModuleKind::Freq,
        ModuleKind::Gate,
        ModuleKind::Degree,
        ModuleKind::DegreeGate,
        ModuleKind::Rate,
        ModuleKind::Transpose,
        ModuleKind::Adsr,
        ModuleKind::Envelope,
        ModuleKind::Rise,
        ModuleKind::Fall,
        ModuleKind::Ramp,
        ModuleKind::Lowpass,
        ModuleKind::Highpass,
        ModuleKind::Delay,
        ModuleKind::Reverb,
        ModuleKind::Distortion,
        ModuleKind::Compressor,
        ModuleKind::Flanger,
        ModuleKind::Add,
        ModuleKind::Multiply,
        ModuleKind::Switch,
        ModuleKind::Probe,
        ModuleKind::Sample,
        ModuleKind::Random,
        ModuleKind::GreaterThan,
        ModuleKind::LessThan,
        ModuleKind::Comb,
        ModuleKind::Allpass,
        ModuleKind::DelayTap,
        ModuleKind::TurnRightDown,
        ModuleKind::TurnDownRight,
        ModuleKind::LeftSplit,
        ModuleKind::TopSplit,
        ModuleKind::RightJoin,
        ModuleKind::DownJoin,
        ModuleKind::CompositionInput,
        ModuleKind::CompositionOutput,
        ModuleKind::Composition,
    ]
}

/// Every kind the palette offers, in palette order.
pub fn all_modules() -> (r: Vec<ModuleKind>)
    ensures
        r@ == palette_kinds(),
{
    let r = vec![
        ModuleKind::Osc,
        ModuleKind::Output,
        ModuleKind::Freq,
        ModuleKind::Gate,
        ModuleKind::Degree,
        ModuleKind::DegreeGate,
        ModuleKind::Rate,
        ModuleKind::Transpose,
        ModuleKind::Adsr,
        ModuleKind::Envelope,
        ModuleKind::Rise,
        ModuleKind::Fall,
        ModuleKind::Ramp,
        ModuleKind::Lowpass,
        ModuleKind::Highpass,
        ModuleKind::Delay,
        ModuleKind::Reverb,
        ModuleKind::Distortion,
        ModuleKind::Compressor,
        ModuleKind::Flanger,
        ModuleKind::Add,
        ModuleKind::Multiply,
        ModuleKind::Switch,
        ModuleKind::Probe,
        ModuleKind::Sample,
        ModuleKind::Random,
        ModuleKind::GreaterThan,
        ModuleKind::LessThan,
        ModuleKind::Comb,
        ModuleKind::Allpass,
        ModuleKind::DelayTap,
        ModuleKind::TurnRightDown,
        ModuleKind::TurnDownRight,
        ModuleKind::LeftSplit,
        ModuleKind::TopSplit,
        ModuleKind::RightJoin,
        ModuleKind::DownJoin,
        ModuleKind::CompositionInput,
        ModuleKind::CompositionOutput,
        ModuleKind::Composition,
    ];
    assert(r@ =~= palette_kinds());
    r
}

/// Kinds whose output follows the sequencer's per-voice controls.
pub open spec fn kind_uses_voice_controls(k: ModuleKind) -> bool {
    k is Freq || k is Gate || k is Degree
}

pub fn module_uses_voice_controls(kind: ModuleKind) -> (r: bool)
    ensures
        r == kind_uses_voice_controls(kind),
{
    match kind {
        ModuleKind::Freq | ModuleKind::Gate | ModuleKind::Degree => true,
        _ => false,
    }
}

} // verus!
