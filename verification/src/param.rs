use vstd::prelude::*;
use crate::grid::ModuleId;
use crate::text::{parse_i32, first_char_index, trimmed, int_decimal, nat_decimal, digit_char, push_char, push_decimal, push_signed, signed_string};

verus! {

broadcast use vstd::string::group_string_axioms;

/// How a time parameter is measured.
#[derive(Clone, Copy, Debug, PartialEq, Eq, Structural, Hash)]
pub enum TimeUnit {
    Seconds,
    Samples,
    Bars,
    Hertz,
}

/// The editable value of one module parameter, as the parameter list shows it.
/// Fractional values are held in hundredths.
#[derive(Clone, Debug, PartialEq, Eq)]
pub enum ParameterValue {
    Float { value: i32, min: i32, max: i32, step: i32 },
    Int { value: i32, min: i32, max: i32 },
    Time { value: i32, unit: TimeUnit },
    Bars { numerator: i32, denominator: i32 },
    Input,
    File { path: String, missing: bool },
    Enum { index: usize, options: Vec<String> },
    Text(String),
}

/// A parameter value with its texts taken as character sequences.
pub enum ValueView {
    Float { value: i32, min: i32, max: i32, step: i32 },
    Int { value: i32, min: i32, max: i32 },
    Time { value: i32, unit: TimeUnit },
    Bars { numerator: i32, denominator: i32 },
    Input,
    File { path: Seq<char>, missing: bool },
    Enum { index: usize, options: Seq<Seq<char>> },
    Text(Seq<char>),
}

pub open spec fn strings_view(v: Seq<String>) -> Seq<Seq<char>> {
    v.map_values(|s: String| s@)
}

impl View for ParameterValue {
    type V = ValueView;

    open spec fn view(&self) -> ValueView {
        match self {
            ParameterValue::Float { value, min, max, step } => ValueView::Float {
                value: *value,
                min: *min,
                max: *max,
                step: *step,
            },
            ParameterValue::Int { value, min, max } => ValueView::Int { value: *value, min: *min, max: *max },
            ParameterValue::Time { value, unit } => ValueView::Time { value: *value, unit: *unit },
            ParameterValue::Bars { numerator, denominator } => ValueView::Bars {
                numerator: *numerator,
                denominator: *denominator,
            },
            ParameterValue::Input => ValueView::Input,
            ParameterValue::File { path, missing } => ValueView::File { path: path@, missing: *missing },
            ParameterValue::Enum { index, options } => ValueView::Enum {
                index: *index,
                options: strings_view(options@),
            },
            ParameterValue::Text(t) => ValueView::Text(t@),
        }
    }
}

/// One row of a module's parameter list: its name, its value, and whether its
/// input port takes a signal (as opposed to the value typed in).
#[derive(Clone, Debug, PartialEq, Eq)]
pub struct ModuleParameter {
    pub name: String,
    pub value: ParameterValue,
    pub connected: bool,
}

pub struct ParameterView {
    pub name: Seq<char>,
    pub value: ValueView,
    pub connected: bool,
}

impl View for ModuleParameter {
    type V = ParameterView;

    open spec fn view(&self) -> ParameterView {
        ParameterView { name: self.name@, value: self.value@, connected: self.connected }
    }
}

/// A fractional setting held in hundredths, bounded by `min` and `max` and
/// stepped by `step`.
#[derive(Clone, Copy, Debug, PartialEq, Eq, Structural)]
pub struct FloatParam {
    pub value: i32,
    pub min: i32,
    pub max: i32,
    pub step: i32,
    pub connected: bool,
}

/// A whole-number setting bounded by `min` and `max`.
#[derive(Clone, Copy, Debug, PartialEq, Eq, Structural)]
pub struct IntParam {
    pub value: i32,
    pub min: i32,
    pub max: i32,
}

/// A time setting. In bars the value is the numerator of `value/denominator`;
/// `exact_seconds` keeps the bit pattern of a seconds value read from a file
/// until the setting is next edited.
#[derive(Clone, Copy, Debug, PartialEq, Eq, Structural)]
pub struct TimeParam {
    pub value: i32,
    pub unit: TimeUnit,
    pub denominator: i32,
    pub connected: bool,
    pub exact_seconds: Option<u32>,
}

/// An input that only takes a signal.
#[derive(Clone, Copy, Debug, PartialEq, Eq, Structural)]
pub struct InputParam {
    pub connected: bool,
}

/// A choice among named options.
#[derive(Clone, Debug, PartialEq, Eq)]
pub struct EnumParam {
    pub index: usize,
    pub options: Vec<String>,
}

/// The delay line a delay tap reads from, chosen among the delays of its surface.
#[derive(Clone, Debug, PartialEq, Eq)]
pub struct DelaySourceParam {
    pub selected: Option<ModuleId>,
    pub options: Vec<ModuleId>,
}

pub fn float_param(min: i32, max: i32, step: i32, value: i32) -> (r: FloatParam)
    ensures
        r == (FloatParam { value, min, max, step, connected: true }),
{
    FloatParam { value, min, max, step, connected: true }
}

pub fn int_param(min: i32, max: i32, value: i32) -> (r: IntParam)
    ensures
        r == (IntParam { value, min, max }),
{
    IntParam { value, min, max }
}

pub fn time_param(value: i32, unit: TimeUnit) -> (r: TimeParam)
    ensures
        r == (TimeParam { value, unit, denominator: 4, connected: true, exact_seconds: None }),
{
    TimeParam { value, unit, denominator: 4, connected: true, exact_seconds: None }
}

pub fn input_param() -> (r: InputParam)
    ensures
        r == (InputParam { connected: true }),
{
    InputParam { connected: true }
}

pub open spec fn strs_view(v: Seq<&str>) -> Seq<Seq<char>> {
    v.map_values(|s: &str| s@)
}

pub fn enum_param(options: &[&str], index: usize) -> (r: EnumParam)
    ensures
        r.index == index,
        strings_view(r.options@) == strs_view(options@),
{
    let mut out: Vec<String> = Vec::new();
    let mut i: usize = 0;
    while i < options.len()
        invariant
            i <= options@.len(),
            out@.len() == i,
            strings_view(out@) == strs_view(options@.take(i as int)),
        decreases options@.len() - i,
    {
        let s = options[i].to_owned();
        let ghost before = out@;
        out.push(s);
        assert(out@ == before.push(s));
        assert forall|j: int| 0 <= j < i + 1 implies #[trigger] strings_view(out@)[j] == strs_view(options@.take(i + 1))[j] by {
            if j < i {
                assert(strings_view(before)[j] == strs_view(options@.take(i as int))[j]);
            } else {
                assert(strings_view(out@)[j] == out@[j]@);
                assert(out@[j] == s);
                assert(s@ == options@[j]@);
                assert(strs_view(options@.take(i + 1))[j] == options@.take(i + 1)[j]@);
            }
        }
        assert(strings_view(out@) =~= strs_view(options@.take(i + 1)));
        i = i + 1;
    }
    assert(options@.take(i as int) =~= options@);
    EnumParam { index, options: out }
}

/// Copies a list of strings.
pub fn copy_strings(v: &Vec<String>) -> (r: Vec<String>)
    ensures
        r@ == v@,
{
    let mut out: Vec<String> = Vec::new();
    let mut i: usize = 0;
    while i < v.len()
        invariant
            i <= v@.len(),
            out@ == v@.take(i as int),
        decreases v@.len() - i,
    {
        out.push(v[i].clone());
        assert(out@ =~= v@.take(i + 1));
        i = i + 1;
    }
    assert(v@.take(i as int) =~= v@);
    out
}

pub open spec fn float_row(name: Seq<char>, p: FloatParam) -> ParameterView {
    ParameterView {
        name,
        value: ValueView::Float { value: p.value, min: p.min, max: p.max, step: p.step },
        connected: p.connected,
    }
}

pub open spec fn int_row(name: Seq<char>, p: IntParam) -> ParameterView {
    ParameterView { name, value: ValueView::Int { value: p.value, min: p.min, max: p.max }, connected: false }
}

pub open spec fn time_row(name: Seq<char>, p: TimeParam) -> ParameterView {
    ParameterView {
        name,
        value: if p.unit == TimeUnit::Bars {
            ValueView::Bars { numerator: p.value, denominator: p.denominator }
        } else {
            ValueView::Time { value: p.value, unit: p.unit }
        },
        connected: p.connected,
    }
}

pub open spec fn input_row(name: Seq<char>, p: InputParam) -> ParameterView {
    ParameterView { name, value: ValueView::Input, connected: p.connected }
}

pub open spec fn file_row(name: Seq<char>, path: Seq<char>, missing: bool) -> ParameterView {
    ParameterView { name, value: ValueView::File { path, missing }, connected: false }
}

pub open spec fn enum_row(name: Seq<char>, index: usize, options: Seq<Seq<char>>) -> ParameterView {
    ParameterView { name, value: ValueView::Enum { index, options }, connected: false }
}

pub open spec fn text_row(name: Seq<char>, text: Seq<char>) -> ParameterView {
    ParameterView { name, value: ValueView::Text(text), connected: false }
}

pub fn float_parameter(name: String, param: FloatParam) -> (r: ModuleParameter)
    ensures
        r@ == float_row(name@, param),
{
    ModuleParameter {
        name,
        value: ParameterValue::Float { value: param.value, min: param.min, max: param.max, step: param.step },
        connected: param.connected,
    }
}

pub fn int_parameter(name: &str, param: IntParam) -> (r: ModuleParameter)
    ensures
        r@ == int_row(name@, param),
{
    ModuleParameter {
        name: name.to_string(),
        value: ParameterValue::Int { value: param.value, min: param.min, max: param.max },
        connected: false,
    }
}

pub fn time_parameter(name: &str, param: TimeParam) -> (r: ModuleParameter)
    ensures
        r@ == time_row(name@, param),
{
    let value = if param.unit == TimeUnit::Bars {
        ParameterValue::Bars { numerator: param.value, denominator: param.denominator }
    } else {
        ParameterValue::Time { value: param.value, unit: param.unit }
    };
    ModuleParameter { name: name.to_string(), value, connected: param.connected }
}

pub fn input_parameter(name: &str, param: InputParam) -> (r: ModuleParameter)
    ensures
        r@ == input_row(name@, param),
{
    ModuleParameter { name: name.to_string(), value: ParameterValue::Input, connected: param.connected }
}

pub fn file_parameter(name: &str, path: &str, missing: bool) -> (r: ModuleParameter)
    ensures
        r@ == file_row(name@, path@, missing),
{
    ModuleParameter {
        name: name.to_string(),
        value: ParameterValue::File { path: path.to_string(), missing },
        connected: false,
    }
}

pub fn enum_parameter(name: &str, param: EnumParam) -> (r: ModuleParameter)
    ensures
        r@ == enum_row(name@, param.index, strings_view(param.options@)),
{
    ModuleParameter {
        name: name.to_string(),
        value: ParameterValue::Enum { index: param.index, options: param.options },
        connected: false,
    }
}

pub fn text_parameter(name: &str, text: &String) -> (r: ModuleParameter)
    ensures
        r@ == text_row(name@, text@),
{
    ModuleParameter { name: name.to_string(), value: ParameterValue::Text(text.clone()), connected: false }
}

/// The position of the first occurrence of `x` in `s`, if any.
pub open spec fn first_index_of(s: Seq<ModuleId>, x: ModuleId) -> Option<int>
    decreases s.len(),
{
    if s.len() == 0 {
        None
    } else if s.last() == x && first_index_of(s.drop_last(), x) is None {
        Some(s.len() - 1)
    } else {
        first_index_of(s.drop_last(), x)
    }
}

/// The option names of a delay source: "delay 1" to "delay n".
pub open spec fn delay_option_names(n: nat) -> Seq<Seq<char>> {
    Seq::new(n, |i: int| "delay "@ + nat_decimal((i + 1) as nat))
}

pub open spec fn delay_source_row(name: Seq<char>, p: DelaySourceParam) -> ParameterView {
    enum_row(
        name,
        match p.selected {
            Some(s) => match first_index_of(p.options@, s) {
                Some(i) => i as usize,
                None => 0,
            },
            None => 0,
        },
        delay_option_names(p.options@.len()),
    )
}

proof fn lemma_first_index_step(s: Seq<ModuleId>, x: ModuleId, i: int)
    requires
        0 <= i < s.len(),
        first_index_of(s.take(i), x) is None,
    ensures
        s[i] == x ==> first_index_of(s.take(i + 1), x) == Some(i),
        s[i] != x ==> first_index_of(s.take(i + 1), x) is None,
{
    assert(s.take(i + 1).drop_last() =~= s.take(i));
}

proof fn lemma_first_index_extend(s: Seq<ModuleId>, x: ModuleId, i: int, j: int)
    requires
        0 <= i <= j <= s.len(),
        first_index_of(s.take(i), x) is Some,
    ensures
        first_index_of(s.take(j), x) == first_index_of(s.take(i), x),
    decreases j - i,
{
    if j > i {
        lemma_first_index_extend(s, x, i, j - 1);
        assert(s.take(j).drop_last() =~= s.take(j - 1));
    }
}

fn position_of(options: &Vec<ModuleId>, x: ModuleId) -> (r: Option<usize>)
    ensures
        r == (match first_index_of(options@, x) {
            Some(i) => Some(i as usize),
            None => None,
        }),
{
    let mut i: usize = 0;
    while i < options.len()
        invariant
            i <= options@.len(),
            first_index_of(options@.take(i as int), x) is None,
        decreases options@.len() - i,
    {
        proof {
            lemma_first_index_step(options@, x, i as int);
        }
        if options[i] == x {
            proof {
                lemma_first_index_extend(options@, x, i + 1, options@.len() as int);
                assert(options@.take(options@.len() as int) =~= options@);
            }
            return Some(i);
        }
        i = i + 1;
    }
    assert(options@.take(i as int) =~= options@);
    None
}

pub fn delay_source_parameter(name: &str, param: &DelaySourceParam) -> (r: ModuleParameter)
    ensures
        r@ == delay_source_row(name@, *param),
{
    let index = match param.selected {
        Some(selected) => match position_of(&param.options, selected) {
            Some(i) => i,
            None => 0,
        },
        None => 0,
    };
    let mut options: Vec<String> = Vec::new();
    let n = param.options.len();
    let mut i: usize = 0;
    while i < n
        invariant
            i <= n == param.options@.len(),
            options@.len() == i,
            strings_view(options@) == delay_option_names(n as nat).take(i as int),
        decreases n - i,
    {
        let mut s = "delay ".to_owned();
        push_decimal(&mut s, (i + 1) as u64);
        let ghost before = options@;
        options.push(s);
        assert(options@ == before.push(s));
        assert forall|j: int| 0 <= j < i + 1 implies #[trigger] strings_view(options@)[j] == delay_option_names(n as nat).take(i + 1)[j] by {
            if j < i {
                assert(strings_view(before)[j] == delay_option_names(n as nat).take(i as int)[j]);
            } else {
                assert(strings_view(options@)[j] == options@[j]@);
            }
        }
        assert(strings_view(options@) =~= delay_option_names(n as nat).take(i + 1));
        i = i + 1;
    }
    assert(delay_option_names(n as nat).take(i as int) =~= delay_option_names(n as nat));
    ModuleParameter {
        name: name.to_string(),
        value: ParameterValue::Enum { index, options },
        connected: false,
    }
}


pub open spec fn abs_nat(v: int) -> nat {
    if v < 0 { (-v) as nat } else { v as nat }
}

pub open spec fn sign_prefix(v: int) -> Seq<char> {
    if v < 0 { seq!['-'] } else { Seq::empty() }
}

/// A value in hundredths written with exactly two decimals, as "-1.05".
pub open spec fn fixed2(v: int) -> Seq<char> {
    let a = abs_nat(v);
    sign_prefix(v) + nat_decimal(a / 100) + seq!['.', digit_char((a % 100) / 10), digit_char(a % 10)]
}

/// A value in hundredths written with as few decimals as it needs, as "-1.5"
/// or "3".
pub open spec fn hundredths_text(v: int) -> Seq<char> {
    let a = abs_nat(v);
    let frac = a % 100;
    sign_prefix(v) + nat_decimal(a / 100) + (if frac == 0 {
        Seq::empty()
    } else if frac % 10 == 0 {
        seq!['.', digit_char(frac / 10)]
    } else {
        seq!['.', digit_char(frac / 10), digit_char(frac % 10)]
    })
}

pub open spec fn at_least_one_i32(v: i32) -> int {
    if v < 1 { 1 } else { v as int }
}

pub open spec fn bars_text(numerator: i32, denominator: i32) -> Seq<char> {
    int_decimal(at_least_one_i32(numerator)) + seq!['/'] + int_decimal(at_least_one_i32(denominator))
}

pub open spec fn option_text(index: usize, options: Seq<Seq<char>>) -> Seq<char> {
    if index < options.len() { options[index as int] } else { Seq::empty() }
}

/// The text the parameter list shows for a value.
pub open spec fn value_label(v: ValueView) -> Seq<char> {
    match v {
        ValueView::Float { value, .. } => fixed2(value as int),
        ValueView::Int { value, .. } => int_decimal(value as int),
        ValueView::Time { value, unit } => match unit {
            TimeUnit::Seconds => fixed2(value as int) + "s"@,
            TimeUnit::Samples => int_decimal(value as int) + " smp"@,
            TimeUnit::Bars => "1/4"@,
            TimeUnit::Hertz => int_decimal(value as int) + " hz"@,
        },
        ValueView::Bars { numerator, denominator } => bars_text(numerator, denominator),
        ValueView::Input => "input"@,
        ValueView::File { path, missing } => if missing { "missing: "@ + path } else { path },
        ValueView::Enum { index, options } => option_text(index, options),
        ValueView::Text(t) => t,
    }
}

/// The text a value starts from when it is typed in.
pub open spec fn value_input_text(v: ValueView) -> Seq<char> {
    match v {
        ValueView::Float { value, .. } => hundredths_text(value as int),
        ValueView::Time { value, unit } => match unit {
            TimeUnit::Seconds => hundredths_text(value as int),
            TimeUnit::Samples | TimeUnit::Hertz => int_decimal(value as int),
            TimeUnit::Bars => "1/4"@,
        },
        ValueView::Bars { numerator, denominator } => bars_text(numerator, denominator),
        ValueView::Int { value, .. } => int_decimal(value as int),
        ValueView::Input => Seq::empty(),
        ValueView::File { path, .. } => path,
        ValueView::Enum { index, options } => option_text(index, options),
        ValueView::Text(t) => t,
    }
}

pub open spec fn value_accepts_typed(v: ValueView) -> bool {
    v is Float || v is Time || v is Bars || v is Text
}

/// Values that belong to an input port of the module.
pub open spec fn value_is_port(v: ValueView) -> bool {
    v is Float || v is Time || v is Bars || v is Input
}

fn push_str(s: &mut String, t: &str)
    ensures
        final(s)@ == old(s)@ + t@,
{
    s.append(t);
}

fn push_fixed2(s: &mut String, v: i32)
    ensures
        final(s)@ == old(s)@ + fixed2(v as int),
{
    let a: u64 = if v < 0 { (-(v as i64)) as u64 } else { v as u64 };
    if v < 0 {
        push_char(s, '-');
    }
    let ghost s1 = s@;
    push_decimal(s, a / 100);
    let ghost s2 = s@;
    push_char(s, '.');
    push_char(s, digit_of((a % 100) / 10));
    push_char(s, digit_of(a % 10));
    assert(abs_nat(v as int) == a);
    assert(s@ =~= old(s)@ + fixed2(v as int));
}

fn push_hundredths(s: &mut String, v: i32)
    ensures
        final(s)@ == old(s)@ + hundredths_text(v as int),
{
    let a: u64 = if v < 0 { (-(v as i64)) as u64 } else { v as u64 };
    if v < 0 {
        push_char(s, '-');
    }
    push_decimal(s, a / 100);
    let frac = a % 100;
    if frac != 0 {
        push_char(s, '.');
        push_char(s, digit_of(frac / 10));
        if frac % 10 != 0 {
            push_char(s, digit_of(frac % 10));
        }
    }
    assert(abs_nat(v as int) == a);
    assert(s@ =~= old(s)@ + hundredths_text(v as int));
}

fn digit_of(d: u64) -> (c: char)
    requires
        d < 10,
    ensures
        c == digit_char(d as nat),
{
    if d == 0 { '0' }
    else if d == 1 { '1' }
    else if d == 2 { '2' }
    else if d == 3 { '3' }
    else if d == 4 { '4' }
    else if d == 5 { '5' }
    else if d == 6 { '6' }
    else if d == 7 { '7' }
    else if d == 8 { '8' }
    else { '9' }
}

fn bars_string(numerator: i32, denominator: i32) -> (r: String)
    ensures
        r@ == bars_text(numerator, denominator),
{
    let n = if numerator < 1 { 1 } else { numerator };
    let d = if denominator < 1 { 1 } else { denominator };
    let mut r = String::new();
    push_signed(&mut r, n as i64);
    push_char(&mut r, '/');
    push_signed(&mut r, d as i64);
    assert(r@ =~= bars_text(numerator, denominator));
    r
}

fn option_string(index: usize, options: &Vec<String>) -> (r: String)
    ensures
        r@ == option_text(index, strings_view(options@)),
{
    if index < options.len() {
        options[index].clone()
    } else {
        String::new()
    }
}

impl ParameterValue {
    pub fn label(&self) -> (r: String)
        ensures
            r@ == value_label(self@),
    {
        match self {
            ParameterValue::Float { value, .. } => {
                let mut r = String::new();
                push_fixed2(&mut r, *value);
                assert(r@ =~= value_label(self@));
                r
            }
            ParameterValue::Int { value, .. } => signed_string(*value as i64),
            ParameterValue::Time { value, unit } => {
                let mut r = String::new();
                match unit {
                    TimeUnit::Seconds => {
                        push_fixed2(&mut r, *value);
                        push_str(&mut r, "s");
                    }
                    TimeUnit::Samples => {
                        push_signed(&mut r, *value as i64);
                        push_str(&mut r, " smp");
                    }
                    TimeUnit::Bars => {
                        push_str(&mut r, "1/4");
                    }
                    TimeUnit::Hertz => {
                        push_signed(&mut r, *value as i64);
                        push_str(&mut r, " hz");
                    }
                }
                assert(r@ =~= value_label(self@));
                r
            }
            ParameterValue::Bars { numerator, denominator } => bars_string(*numerator, *denominator),
            ParameterValue::Input => "input".to_owned(),
            ParameterValue::File { path, missing } => {
                if *missing {
                    let mut r = "missing: ".to_owned();
                    push_str(&mut r, path.as_str());
                    r
                } else {
                    path.clone()
                }
            }
            ParameterValue::Enum { index, options } => option_string(*index, options),
            ParameterValue::Text(t) => t.clone(),
        }
    }

    pub fn input_text(&self) -> (r: String)
        ensures
            r@ == value_input_text(self@),
    {
        match self {
            ParameterValue::Float { value, .. } => {
                let mut r = String::new();
                push_hundredths(&mut r, *value);
                assert(r@ =~= value_input_text(self@));
                r
            }
            ParameterValue::Time { value, unit } => match unit {
                TimeUnit::Seconds => {
                    let mut r = String::new();
                    push_hundredths(&mut r, *value);
                    assert(r@ =~= value_input_text(self@));
                    r
                }
                TimeUnit::Samples | TimeUnit::Hertz => signed_string(*value as i64),
                TimeUnit::Bars => "1/4".to_owned(),
            },
            ParameterValue::Bars { numerator, denominator } => bars_string(*numerator, *denominator),
            ParameterValue::Int { value, .. } => signed_string(*value as i64),
            ParameterValue::Input => String::new(),
            ParameterValue::File { path, .. } => path.clone(),
            ParameterValue::Enum { index, options } => option_string(*index, options),
            ParameterValue::Text(t) => t.clone(),
        }
    }

    pub fn accepts_typed_value(&self) -> (r: bool)
        ensures
            r == value_accepts_typed(self@),
    {
        match self {
            ParameterValue::Float { .. } | ParameterValue::Time { .. } | ParameterValue::Bars { .. }
            | ParameterValue::Text(_) => true,
            _ => false,
        }
    }

    pub fn is_port(&self) -> (r: bool)
        ensures
            r == value_is_port(self@),
    {
        match self {
            ParameterValue::Float { .. } | ParameterValue::Time { .. } | ParameterValue::Bars { .. }
            | ParameterValue::Input => true,
            _ => false,
        }
    }
}

impl ModuleParameter {
    pub fn name(&self) -> (r: &str)
        ensures
            r@ == self.name@,
    {
        self.name.as_str()
    }

    pub fn value(&self) -> (r: &ParameterValue)
        ensures
            r == &self.value,
    {
        &self.value
    }

    pub fn connected(&self) -> (r: bool)
        ensures
            r == self.connected,
    {
        self.connected
    }

    pub fn value_label(&self) -> (r: String)
        ensures
            r@ == value_label(self.value@),
    {
        self.value.label()
    }
}


pub open spec fn factor(fast: bool) -> int {
    if fast { 10 } else { 1 }
}

pub open spec fn min_i(a: int, b: int) -> int {
    if a <= b { a } else { b }
}

pub open spec fn max_i(a: int, b: int) -> int {
    if a >= b { a } else { b }
}

pub open spec fn fits_i32(v: int) -> bool {
    i32::MIN <= v <= i32::MAX
}

/// One step up or down from `value`, held within `[lo, hi]` on the side it
/// moves towards.
pub open spec fn stepped(value: int, delta: int, lo: int, hi: int, up: bool) -> int {
    if up { min_i(value + delta, hi) } else { max_i(value - delta, lo) }
}

/// The arithmetic of `adjust` stays within `i32` (and `usize` for a choice).
pub open spec fn adjust_in_range(v: ValueView, up: bool, fast: bool, step_scale: i32) -> bool {
    match v {
        ValueView::Float { value, step, .. } => {
            &&& fits_i32(factor(fast) * step_scale)
            &&& fits_i32(step * (factor(fast) * step_scale))
            &&& fits_i32(if up { value + step * (factor(fast) * step_scale) } else { value - step * (factor(fast) * step_scale) })
        },
        ValueView::Int { value, .. } => fits_i32(if up { value + factor(fast) } else { value - factor(fast) }),
        ValueView::Time { value, .. } => {
            &&& fits_i32(factor(fast) * step_scale)
            &&& fits_i32(if up { value + factor(fast) * step_scale } else { value - factor(fast) * step_scale })
        },
        ValueView::Bars { numerator, denominator } => !up && numerator <= 1 && denominator < 64
            ==> fits_i32(denominator * 2),
        ValueView::Enum { index, .. } => up ==> index < usize::MAX,
        _ => true,
    }
}

/// The bar fraction one step longer (`up`) or shorter: the numerator counts
/// up to the denominator (to 16 for whole bars), then the note value doubles;
/// it counts down to one, then the note value halves, down to 1/64.
pub open spec fn stepped_bars(numerator: i32, denominator: i32, up: bool) -> (i32, i32) {
    let max_num = if denominator == 1 { 16 } else { denominator };
    if up {
        if numerator < max_num {
            ((numerator + 1) as i32, denominator)
        } else if denominator > 1 {
            (1, (denominator / 2) as i32)
        } else {
            (numerator, denominator)
        }
    } else if numerator > 1 {
        ((numerator - 1) as i32, denominator)
    } else if denominator < 64 {
        ((denominator * 2) as i32, (denominator * 2) as i32)
    } else {
        (numerator, denominator)
    }
}

/// A value after one step of `adjust`.
pub open spec fn adjusted(v: ValueView, up: bool, fast: bool, step_scale: i32) -> ValueView {
    match v {
        ValueView::Float { value, min, max, step } => ValueView::Float {
            value: stepped(value as int, step * (factor(fast) * step_scale), min as int, max as int, up) as i32,
            min,
            max,
            step,
        },
        ValueView::Int { value, min, max } => ValueView::Int {
            value: stepped(value as int, factor(fast), min as int, max as int, up) as i32,
            min,
            max,
        },
        ValueView::Time { value, unit } => ValueView::Time {
            value: stepped(value as int, factor(fast) * step_scale, 1, 10_000, up) as i32,
            unit,
        },
        ValueView::Bars { numerator, denominator } => ValueView::Bars {
            numerator: stepped_bars(numerator, denominator, up).0,
            denominator: stepped_bars(numerator, denominator, up).1,
        },
        ValueView::Enum { index, options } => if options.len() == 0 {
            v
        } else {
            ValueView::Enum {
                index: if up {
                    ((index + 1) % (options.len() as int)) as usize
                } else if index == 0 {
                    (options.len() - 1) as usize
                } else {
                    (index - 1) as usize
                },
                options,
            }
        },
        _ => v,
    }
}

/// Whether `adjust` reports a change: the value moved, or a choice stepped.
pub open spec fn adjust_changes(v: ValueView, up: bool, fast: bool, step_scale: i32) -> bool {
    match v {
        ValueView::Enum { options, .. } => options.len() != 0,
        ValueView::Input | ValueView::File { .. } | ValueView::Text(_) => false,
        _ => adjusted(v, up, fast, step_scale) != v,
    }
}

/// The next unit a time value cycles to: seconds, samples, bars (as 1/4),
/// hertz; bars become one hertz.
pub open spec fn cycled(v: ValueView) -> ValueView {
    match v {
        ValueView::Time { value, unit } => match unit {
            TimeUnit::Seconds => ValueView::Time { value, unit: TimeUnit::Samples },
            TimeUnit::Samples => ValueView::Bars { numerator: 1, denominator: 4 },
            TimeUnit::Bars => ValueView::Time { value, unit: TimeUnit::Hertz },
            TimeUnit::Hertz => ValueView::Time { value, unit: TimeUnit::Seconds },
        },
        ValueView::Bars { .. } => ValueView::Time { value: 1, unit: TimeUnit::Hertz },
        _ => v,
    }
}

impl ParameterValue {
    /// Steps the value up or down; reports whether anything changed.
    pub fn adjust(&mut self, up: bool, fast: bool, step_scale: i32) -> (changed: bool)
        requires
            adjust_in_range(old(self)@, up, fast, step_scale),
        ensures
            final(self)@ == adjusted(old(self)@, up, fast, step_scale),
            changed == adjust_changes(old(self)@, up, fast, step_scale),
    {
        let f: i32 = if fast { 10 } else { 1 };
        match self {
            ParameterValue::Float { value, min, max, step } => {
                let delta = *step * (f * step_scale);
                let next = if up {
                    let n = *value + delta;
                    if n <= *max { n } else { *max }
                } else {
                    let n = *value - delta;
                    if n >= *min { n } else { *min }
                };
                let changed = next != *value;
                *value = next;
                changed
            }
            ParameterValue::Int { value, min, max } => {
                let next = if up {
                    let n = *value + f;
                    if n <= *max { n } else { *max }
                } else {
                    let n = *value - f;
                    if n >= *min { n } else { *min }
                };
                let changed = next != *value;
                *value = next;
                changed
            }
            ParameterValue::Time { value, .. } => {
                let delta = f * step_scale;
                let next = if up {
                    let n = *value + delta;
                    if n <= 10_000 { n } else { 10_000 }
                } else {
                    let n = *value - delta;
                    if n >= 1 { n } else { 1 }
                };
                let changed = next != *value;
                *value = next;
                changed
            }
            ParameterValue::Bars { numerator, denominator } => {
                let before_n = *numerator;
                let before_d = *denominator;
                let max_num = if *denominator == 1 { 16 } else { *denominator };
                if up {
                    if *numerator < max_num {
                        *numerator = *numerator + 1;
                    } else if *denominator > 1 {
                        *denominator = *denominator / 2;
                        *numerator = 1;
                    }
                } else if *numerator > 1 {
                    *numerator = *numerator - 1;
                } else if *denominator < 64 {
                    *denominator = *denominator * 2;
                    *numerator = *denominator;
                }
                before_n != *numerator || before_d != *denominator
            }
            ParameterValue::Input | ParameterValue::File { .. } | ParameterValue::Text(_) => false,
            ParameterValue::Enum { index, options } => {
                let len = options.len();
                if len == 0 {
                    return false;
                }
                *index = if up {
                    (*index + 1) % len
                } else if *index == 0 {
                    len - 1
                } else {
                    *index - 1
                };
                true
            }
        }
    }

    /// Moves a time value to the next unit; reports whether it was a time value.
    pub fn cycle_unit(&mut self) -> (changed: bool)
        ensures
            final(self)@ == cycled(old(self)@),
            changed == (old(self)@ is Time || old(self)@ is Bars),
    {
        match self {
            ParameterValue::Time { value, unit } => {
                match unit {
                    TimeUnit::Seconds => {
                        *unit = TimeUnit::Samples;
                    }
                    TimeUnit::Samples => {
                        *self = ParameterValue::Bars { numerator: 1, denominator: 4 };
                    }
                    TimeUnit::Bars => {
                        *unit = TimeUnit::Hertz;
                    }
                    TimeUnit::Hertz => {
                        *unit = TimeUnit::Seconds;
                    }
                }
                true
            }
            ParameterValue::Bars { .. } => {
                *self = ParameterValue::Time { value: 1, unit: TimeUnit::Hertz };
                true
            }
            _ => false,
        }
    }
}


/// `v` held within `[lo, hi]` (`i32::clamp`, for `lo <= hi`).
pub open spec fn clamp(v: int, lo: int, hi: int) -> int {
    if v < lo { lo } else if v > hi { hi } else { v }
}

fn clamp_i32(v: i32, lo: i32, hi: i32) -> (r: i32)
    requires
        lo <= hi,
    ensures
        r == clamp(v as int, lo as int, hi as int),
{
    if v < lo { lo } else if v > hi { hi } else { v }
}

/// The setting a row of the parameter list writes into a fractional
/// parameter: the row must be at the parameter's place and carry the same
/// bounds and step; its value is held within the bounds.
pub open spec fn float_update(t: FloatParam, index: usize, expected: usize, p: ParameterView) -> Option<FloatParam> {
    if index != expected {
        None
    } else {
        match p.value {
            ValueView::Float { value, min, max, step } => if min != t.min || max != t.max || step != t.step {
                None
            } else {
                Some(FloatParam {
                    value: clamp(value as int, t.min as int, t.max as int) as i32,
                    min: t.min,
                    max: t.max,
                    step: t.step,
                    connected: p.connected,
                })
            },
            _ => None,
        }
    }
}

pub open spec fn int_update(t: IntParam, index: usize, expected: usize, p: ParameterView) -> Option<IntParam> {
    if index != expected {
        None
    } else {
        match p.value {
            ValueView::Int { value, .. } => Some(IntParam {
                value: clamp(value as int, t.min as int, t.max as int) as i32,
                ..t
            }),
            _ => None,
        }
    }
}

/// A time row replaces the time (a bar fraction keeps at least 1/1) and drops
/// any exact seconds read from a file; a time row in bars is not accepted.
pub open spec fn time_update(t: TimeParam, index: usize, expected: usize, p: ParameterView) -> Option<TimeParam> {
    if index != expected {
        None
    } else {
        match p.value {
            ValueView::Time { value, unit } => if unit == TimeUnit::Bars {
                None
            } else {
                Some(TimeParam { value, unit, exact_seconds: None, connected: p.connected, ..t })
            },
            ValueView::Bars { numerator, denominator } => Some(TimeParam {
                value: at_least_one_i32(numerator) as i32,
                unit: TimeUnit::Bars,
                denominator: at_least_one_i32(denominator) as i32,
                exact_seconds: None,
                connected: p.connected,
            }),
            _ => None,
        }
    }
}

pub open spec fn input_update(t: InputParam, index: usize, expected: usize, p: ParameterView) -> Option<InputParam> {
    if index != expected || !(p.value is Input) {
        None
    } else {
        Some(InputParam { connected: p.connected })
    }
}

/// A text row renames when its text is not blank and differs from the current one.
pub open spec fn text_update(current: Seq<char>, p: ParameterView) -> Option<Seq<char>> {
    match p.value {
        ValueView::Text(next) => if crate::text::is_blank(next) || current == next {
            None
        } else {
            Some(next)
        },
        _ => None,
    }
}

pub open spec fn enum_update(t: EnumParam, index: usize, expected: usize, p: ParameterView) -> Option<usize> {
    if index != expected {
        None
    } else {
        match p.value {
            ValueView::Enum { index: chosen, .. } => if chosen < t.options@.len() { Some(chosen) } else { None },
            _ => None,
        }
    }
}

pub open spec fn delay_source_update(t: DelaySourceParam, index: usize, expected: usize, p: ParameterView) -> Option<ModuleId> {
    if index != expected {
        None
    } else {
        match p.value {
            ValueView::Enum { index: chosen, .. } => if chosen < t.options@.len() {
                Some(t.options@[chosen as int])
            } else {
                None
            },
            _ => None,
        }
    }
}

pub fn set_float_param(target: &mut FloatParam, index: usize, expected: usize, parameter: &ModuleParameter) -> (r: bool)
    requires
        float_update(*old(target), index, expected, parameter@) is Some ==> old(target).min <= old(target).max,
    ensures
        r == float_update(*old(target), index, expected, parameter@) is Some,
        *final(target) == match float_update(*old(target), index, expected, parameter@) {
            Some(t) => t,
            None => *old(target),
        },
{
    if index != expected {
        return false;
    }
    match &parameter.value {
        ParameterValue::Float { value, min, max, step } => {
            if *min != target.min || *max != target.max || *step != target.step {
                return false;
            }
            *target = FloatParam {
                value: clamp_i32(*value, target.min, target.max),
                min: target.min,
                max: target.max,
                step: target.step,
                connected: parameter.connected,
            };
            true
        }
        _ => false,
    }
}

pub fn set_int_param(target: &mut IntParam, index: usize, expected: usize, parameter: &ModuleParameter) -> (r: bool)
    requires
        int_update(*old(target), index, expected, parameter@) is Some ==> old(target).min <= old(target).max,
    ensures
        r == int_update(*old(target), index, expected, parameter@) is Some,
        *final(target) == match int_update(*old(target), index, expected, parameter@) {
            Some(t) => t,
            None => *old(target),
        },
{
    if index != expected {
        return false;
    }
    match &parameter.value {
        ParameterValue::Int { value, .. } => {
            target.value = clamp_i32(*value, target.min, target.max);
            true
        }
        _ => false,
    }
}

pub fn set_time_param(target: &mut TimeParam, index: usize, expected: usize, parameter: &ModuleParameter) -> (r: bool)
    ensures
        r == time_update(*old(target), index, expected, parameter@) is Some,
        *final(target) == match time_update(*old(target), index, expected, parameter@) {
            Some(t) => t,
            None => *old(target),
        },
{
    if index != expected {
        return false;
    }
    match &parameter.value {
        ParameterValue::Time { value, unit } => {
            if *unit == TimeUnit::Bars {
                return false;
            }
            target.value = *value;
            target.unit = *unit;
            target.exact_seconds = None;
        }
        ParameterValue::Bars { numerator, denominator } => {
            target.value = if *numerator < 1 { 1 } else { *numerator };
            target.unit = TimeUnit::Bars;
            target.denominator = if *denominator < 1 { 1 } else { *denominator };
            target.exact_seconds = None;
        }
        _ => return false,
    }
    target.connected = parameter.connected;
    true
}

pub fn set_input_param(target: &mut InputParam, index: usize, expected: usize, parameter: &ModuleParameter) -> (r: bool)
    ensures
        r == input_update(*old(target), index, expected, parameter@) is Some,
        *final(target) == match input_update(*old(target), index, expected, parameter@) {
            Some(t) => t,
            None => *old(target),
        },
{
    let is_input = match &parameter.value {
        ParameterValue::Input => true,
        _ => false,
    };
    if index != expected || !is_input {
        return false;
    }
    target.connected = parameter.connected;
    true
}

pub fn set_text_param(value: &mut String, parameter: &ModuleParameter) -> (r: bool)
    ensures
        r == text_update(old(value)@, parameter@) is Some,
        final(value)@ == match text_update(old(value)@, parameter@) {
            Some(t) => t,
            None => old(value)@,
        },
{
    match &parameter.value {
        ParameterValue::Text(next) => {
            let chars = crate::text::chars_of(next.as_str());
            if crate::text::is_blank_chars(chars.as_slice()) || *value == *next {
                return false;
            }
            *value = next.clone();
            true
        }
        _ => false,
    }
}

pub fn set_enum_param(target: &mut EnumParam, index: usize, expected: usize, parameter: &ModuleParameter) -> (r: bool)
    ensures
        r == enum_update(*old(target), index, expected, parameter@) is Some,
        final(target).options == old(target).options,
        final(target).index == match enum_update(*old(target), index, expected, parameter@) {
            Some(i) => i,
            None => old(target).index,
        },
{
    if index != expected {
        return false;
    }
    match &parameter.value {
        ParameterValue::Enum { index: chosen, .. } => {
            if *chosen < target.options.len() {
                target.index = *chosen;
                true
            } else {
                false
            }
        }
        _ => false,
    }
}

pub fn set_delay_source_param(target: &mut DelaySourceParam, index: usize, expected: usize, parameter: &ModuleParameter) -> (r: bool)
    ensures
        r == delay_source_update(*old(target), index, expected, parameter@) is Some,
        final(target).options == old(target).options,
        final(target).selected == match delay_source_update(*old(target), index, expected, parameter@) {
            Some(id) => Some(id),
            None => old(target).selected,
        },
{
    if index != expected {
        return false;
    }
    match &parameter.value {
        ParameterValue::Enum { index: chosen, .. } => {
            if *chosen < target.options.len() {
                target.selected = Some(target.options[*chosen]);
                true
            } else {
                false
            }
        }
        _ => false,
    }
}


/// A typed bar fraction "n/d": both sides integers, the denominator positive;
/// a numerator below one counts as one.
pub open spec fn typed_bars_value(text: Seq<char>) -> Option<ValueView> {
    match first_char_index(text, '/') {
        None => None,
        Some(i) => match (parse_i32(text.take(i)), parse_i32(text.skip(i + 1))) {
            (Some(n), Some(d)) => if d <= 0 {
                None
            } else {
                Some(ValueView::Bars { numerator: at_least_one_i32(n) as i32, denominator: d })
            },
            _ => None,
        },
    }
}

/// The value a typed text gives a parameter. `scaled` is the text read as a
/// decimal number, in hundredths and rounded, when it reads as one: fractional
/// values and times in seconds take it, held within the bounds (at least one
/// hundredth for a time). Samples and hertz take the text as a whole number of
/// at least one, bars take "n/d", names take the text trimmed when it is not
/// blank. Other values cannot be typed.
pub open spec fn typed_value(current: ValueView, text: Seq<char>, scaled: Option<i32>) -> Option<ValueView> {
    match current {
        ValueView::Float { min, max, step, .. } => match scaled {
            Some(v) => Some(ValueView::Float { value: clamp(v as int, min as int, max as int) as i32, min, max, step }),
            None => None,
        },
        ValueView::Time { unit, .. } => match unit {
            TimeUnit::Seconds => match scaled {
                Some(v) => Some(ValueView::Time { value: at_least_one_i32(v) as i32, unit }),
                None => None,
            },
            TimeUnit::Samples | TimeUnit::Hertz => match parse_i32(text) {
                Some(v) => Some(ValueView::Time { value: at_least_one_i32(v) as i32, unit }),
                None => None,
            },
            TimeUnit::Bars => typed_bars_value(text),
        },
        ValueView::Bars { .. } => typed_bars_value(text),
        ValueView::Text(_) => if trimmed(text).len() == 0 {
            None
        } else {
            Some(ValueView::Text(trimmed(text)))
        },
        _ => None,
    }
}

pub open spec fn option_view(v: Option<ParameterValue>) -> Option<ValueView> {
    match v {
        Some(x) => Some(x@),
        None => None,
    }
}

pub fn typed_bars(text: &str) -> (r: Option<ParameterValue>)
    ensures
        option_view(r) == typed_bars_value(text@),
{
    let chars = crate::text::chars_of(text);
    let Some(slash) = crate::text::find_char(chars.as_slice(), '/') else {
        return None;
    };
    let num = crate::text::chars_range(chars.as_slice(), 0, slash);
    let den = crate::text::chars_range(chars.as_slice(), slash + 1, chars.len());
    assert(num@ =~= text@.take(slash as int));
    assert(den@ =~= text@.skip(slash + 1));
    let Some(numerator) = crate::text::parse_i32_chars(num.as_slice()) else {
        return None;
    };
    let numerator = if numerator < 1 { 1 } else { numerator };
    let Some(denominator) = crate::text::parse_i32_chars(den.as_slice()) else {
        return None;
    };
    if denominator <= 0 {
        return None;
    }
    Some(ParameterValue::Bars { numerator, denominator })
}

/// The value a typed text gives a parameter (see `typed_value`); `scaled` is
/// the text read as a decimal number in hundredths.
pub fn typed_parameter_value(current: &ParameterValue, text: &str, scaled: Option<i32>) -> (r: Option<ParameterValue>)
    requires
        current@ is Float ==> current@->Float_min <= current@->Float_max,
    ensures
        option_view(r) == typed_value(current@, text@, scaled),
{
    match current {
        ParameterValue::Float { min, max, step, .. } => match scaled {
            Some(v) => Some(ParameterValue::Float { value: clamp_i32(v, *min, *max), min: *min, max: *max, step: *step }),
            None => None,
        },
        ParameterValue::Time { unit, .. } => match unit {
            TimeUnit::Seconds => match scaled {
                Some(v) => Some(ParameterValue::Time { value: if v < 1 { 1 } else { v }, unit: *unit }),
                None => None,
            },
            TimeUnit::Samples | TimeUnit::Hertz => {
                let chars = crate::text::chars_of(text);
                match crate::text::parse_i32_chars(chars.as_slice()) {
                    Some(v) => Some(ParameterValue::Time { value: if v < 1 { 1 } else { v }, unit: *unit }),
                    None => None,
                }
            }
            TimeUnit::Bars => typed_bars(text),
        },
        ParameterValue::Bars { .. } => typed_bars(text),
        ParameterValue::Text(_) => {
            let chars = crate::text::chars_of(text);
            let t = crate::text::trim_chars(chars.as_slice());
            if t.len() == 0 {
                None
            } else {
                Some(ParameterValue::Text(crate::text::string_from_chars(t.as_slice())))
            }
        }
        _ => None,
    }
}

/// What a text prompt accepts: numbers, times (which may be fractions of a
/// bar), or free text.
#[derive(Clone, Copy, Debug, PartialEq, Eq, Structural)]
pub enum TextInputKind {
    Number,
    Time,
    Free,
}

pub open spec fn input_accepts(kind: TextInputKind, c: char) -> bool {
    match kind {
        TextInputKind::Number => crate::text::is_digit(c) || c == '.' || c == '-',
        TextInputKind::Time => crate::text::is_digit(c) || c == '.' || c == '-' || c == '/',
        TextInputKind::Free => true,
    }
}

pub fn text_input_accepts(kind: TextInputKind, character: char) -> (r: bool)
    ensures
        r == input_accepts(kind, character),
{
    let digit = '0' <= character && character <= '9';
    match kind {
        TextInputKind::Number => digit || character == '.' || character == '-',
        TextInputKind::Time => digit || character == '.' || character == '-' || character == '/',
        TextInputKind::Free => true,
    }
}

/// Whether bit `i` of a mask is set.
pub open spec fn mask_bit(mask: u8, i: int) -> bool {
    (mask >> (i as u8)) & 1u8 == 1u8
}

/// The mask with a bit set for each listed port that takes a signal.
pub open spec fn mask_of(rows: Seq<(usize, bool)>) -> u8
    decreases rows.len(),
{
    if rows.len() == 0 {
        0
    } else {
        let m = mask_of(rows.drop_last());
        if rows.last().1 { m | (1u8 << (rows.last().0 as u8)) } else { m }
    }
}

proof fn lemma_bit_or(m: u8, k: u8, i: u8)
    by (bit_vector)
    requires
        k < 8,
        i < 8,
    ensures
        (((m | (1u8 << k)) >> i) & 1u8 == 1u8) == (i == k || (m >> i) & 1u8 == 1u8),
{
}

proof fn lemma_zero_bits(i: u8)
    by (bit_vector)
    requires
        i < 8,
    ensures
        (0u8 >> i) & 1u8 != 1u8,
{
}

proof fn lemma_mask_of(rows: Seq<(usize, bool)>, i: int)
    requires
        forall|j: int| 0 <= j < rows.len() ==> #[trigger] rows[j].0 < 8,
        0 <= i < 8,
    ensures
        mask_bit(mask_of(rows), i) <==> exists|j: int| 0 <= j < rows.len() && rows[j].0 == i && #[trigger] rows[j].1,
    decreases rows.len(),
{
    if rows.len() == 0 {
        lemma_zero_bits(i as u8);
    } else {
        let front = rows.drop_last();
        assert forall|j: int| 0 <= j < front.len() implies #[trigger] front[j].0 < 8 by {
            assert(front[j] == rows[j]);
        }
        lemma_mask_of(front, i);
        let m = mask_of(front);
        if rows.last().1 {
            lemma_bit_or(m, rows.last().0 as u8, i as u8);
        }
        if exists|j: int| 0 <= j < front.len() && front[j].0 == i && #[trigger] front[j].1 {
            let j = choose|j: int| 0 <= j < front.len() && front[j].0 == i && #[trigger] front[j].1;
            assert(rows[j] == front[j]);
        }
        if exists|j: int| 0 <= j < rows.len() && rows[j].0 == i && #[trigger] rows[j].1 {
            let j = choose|j: int| 0 <= j < rows.len() && rows[j].0 == i && #[trigger] rows[j].1;
            if j < front.len() {
                assert(rows[j] == front[j]);
            }
        }
    }
}

/// The mask of ports that take a signal: bit `i` is set when a row
/// `(i, true)` is listed.
pub fn connected_mask(rows: &[(usize, bool)]) -> (r: u8)
    requires
        forall|j: int| 0 <= j < rows@.len() ==> #[trigger] rows@[j].0 < 8,
    ensures
        r == mask_of(rows@),
        forall|i: int| 0 <= i < 8 ==> (mask_bit(r, i) <==> exists|j: int| 0 <= j < rows@.len() && rows@[j].0 == i && #[trigger] rows@[j].1),
{
    let mut mask: u8 = 0;
    let mut k: usize = 0;
    while k < rows.len()
        invariant
            k <= rows@.len(),
            forall|j: int| 0 <= j < rows@.len() ==> #[trigger] rows@[j].0 < 8,
            mask == mask_of(rows@.take(k as int)),
        decreases rows@.len() - k,
    {
        let (index, connected) = rows[k];
        assert(rows@.take(k + 1).drop_last() =~= rows@.take(k as int));
        if connected {
            mask = mask | (1u8 << (index as u8));
        }
        k = k + 1;
    }
    assert(rows@.take(k as int) =~= rows@);
    assert forall|i: int| 0 <= i < 8 implies (mask_bit(mask, i) <==> exists|j: int| 0 <= j < rows@.len() && rows@[j].0 == i && #[trigger] rows@[j].1) by {
        lemma_mask_of(rows@, i);
    }
    mask
}

/// Sets which ports take a signal from a mask: the port in row `i` takes a
/// signal when bit `i` is set. Rows that are not ports keep their flag.
pub fn apply_connected(parameters: &mut Vec<ModuleParameter>, connected: u8)
    requires
        forall|i: int| 0 <= i < old(parameters)@.len() && value_is_port(#[trigger] old(parameters)@[i].value@) ==> i < 8,
    ensures
        final(parameters)@.len() == old(parameters)@.len(),
        forall|i: int| 0 <= i < old(parameters)@.len() ==> {
            &&& (#[trigger] final(parameters)@[i]).name == old(parameters)@[i].name
            &&& final(parameters)@[i].value == old(parameters)@[i].value
            &&& final(parameters)@[i].connected == if value_is_port(old(parameters)@[i].value@) {
                mask_bit(connected, i)
            } else {
                old(parameters)@[i].connected
            }
        },
{
    let n = parameters.len();
    let mut i: usize = 0;
    while i < n
        invariant
            i <= n == old(parameters)@.len() == parameters@.len(),
            forall|j: int| 0 <= j < old(parameters)@.len() && value_is_port(#[trigger] old(parameters)@[j].value@) ==> j < 8,
            forall|j: int| 0 <= j < n ==> {
                &&& (#[trigger] parameters@[j]).name == old(parameters)@[j].name
                &&& parameters@[j].value == old(parameters)@[j].value
                &&& parameters@[j].connected == if j < i && value_is_port(old(parameters)@[j].value@) {
                    mask_bit(connected, j)
                } else {
                    old(parameters)@[j].connected
                }
            },
        decreases n - i,
    {
        assert(parameters@[i as int].value == old(parameters)@[i as int].value);
        if parameters[i].value.is_port() {
            assert(value_is_port(old(parameters)@[i as int].value@));
            let bit = (connected >> (i as u8)) & 1u8 == 1u8;
            let ghost before = parameters@;
            let mut p = parameters.remove(i);
            p.connected = bit;
            parameters.insert(i, p);
            assert(parameters@ =~= before.update(i as int, p));
        }
        i = i + 1;
    }
}


/// A list has no place of an option it does not hold.
pub proof fn lemma_first_index_absent(s: Seq<ModuleId>, x: ModuleId)
    requires
        !s.contains(x),
    ensures
        first_index_of(s, x) is None,
    decreases s.len(),
{
    if s.len() > 0 {
        assert(!s.drop_last().contains(x)) by {
            if s.drop_last().contains(x) {
                let j = choose|j: int| 0 <= j < s.drop_last().len() && s.drop_last()[j] == x;
                assert(s[j] == x);
            }
        }
        lemma_first_index_absent(s.drop_last(), x);
        assert(s[s.len() - 1] != x);
    }
}

/// The first place of an option that a list holds.
pub proof fn lemma_first_index_of(s: Seq<ModuleId>, x: ModuleId)
    requires
        s.contains(x),
    ensures
        first_index_of(s, x) matches Some(k) && 0 <= k < s.len() && s[k] == x,
    decreases s.len(),
{
    if s.drop_last().contains(x) {
        lemma_first_index_of(s.drop_last(), x);
    } else {
        let j = choose|j: int| 0 <= j < s.len() && s[j] == x;
        if j < s.len() - 1 {
            assert(s.drop_last()[j] == x);
        }
        lemma_first_index_absent(s.drop_last(), x);
    }
}

/// A float row read from a setting in range writes the same setting back.
pub broadcast proof fn lemma_float_write_back(t: FloatParam, n: Seq<char>, i: usize)
    requires
        t.min <= t.value <= t.max,
    ensures
        #[trigger] float_update(t, i, i, float_row(n, t)) == Some(t),
{
}

/// An integer row read from a setting in range writes the same setting back.
pub broadcast proof fn lemma_int_write_back(t: IntParam, n: Seq<char>, i: usize)
    requires
        t.min <= t.value <= t.max,
    ensures
        #[trigger] int_update(t, i, i, int_row(n, t)) == Some(t),
{
}

/// A time row read from a time with no exact seconds, in bars of at least
/// one over at least one, writes the same time back.
pub broadcast proof fn lemma_time_write_back(t: TimeParam, n: Seq<char>, i: usize)
    requires
        t.exact_seconds is None,
        t.unit == TimeUnit::Bars ==> t.value >= 1 && t.denominator >= 1,
    ensures
        #[trigger] time_update(t, i, i, time_row(n, t)) == Some(t),
{
}

/// A choice row read from a choice among its options chooses it again.
pub broadcast proof fn lemma_enum_write_back(t: EnumParam, n: Seq<char>, i: usize)
    requires
        t.index < t.options@.len(),
    ensures
        #[trigger] enum_update(t, i, i, enum_row(n, t.index, strings_view(t.options@))) == Some(t.index),
{
}

/// An input row writes its own connection back.
pub broadcast proof fn lemma_input_write_back(t: InputParam, n: Seq<char>, i: usize)
    ensures
        #[trigger] input_update(t, i, i, input_row(n, t)) == Some(t),
{
}

/// A delay source row read from a source with no options, or with one of
/// them chosen, leaves the choice as it was.
pub broadcast proof fn lemma_source_write_back(t: DelaySourceParam, n: Seq<char>, i: usize)
    requires
        t.options@.len() == 0 || (t.selected matches Some(s) && t.options@.contains(s)),
    ensures
        match #[trigger] delay_source_update(t, i, i, delay_source_row(n, t)) {
            Some(id) => t.selected == Some(id),
            None => true,
        },
{
    if t.options@.len() > 0 {
        lemma_first_index_of(t.options@, t.selected->0);
        let k = first_index_of(t.options@, t.selected->0)->0;
        assert(t.options@.len() == t.options.len());
        assert((k as usize) as int == k);
        assert(delay_source_row(n, t).value == (ValueView::Enum { index: k as usize, options: delay_option_names(t.options@.len()) }));
        assert(delay_source_update(t, i, i, delay_source_row(n, t)) == Some(t.options@[k]));
    }
}


/// The port rows of a parameter list as `(index, connected)` pairs, in order.
pub open spec fn port_pairs(rows: Seq<ParameterView>) -> Seq<(usize, bool)>
    decreases rows.len(),
{
    if rows.len() == 0 {
        Seq::empty()
    } else {
        let rest = port_pairs(rows.drop_last());
        if value_is_port(rows.last().value) {
            rest.push(((rows.len() - 1) as usize, rows.last().connected))
        } else {
            rest
        }
    }
}

proof fn lemma_port_pairs(rows: Seq<ParameterView>)
    requires
        rows.len() <= usize::MAX,
    ensures
        forall|j: int| 0 <= j < port_pairs(rows).len() ==> {
            &&& (#[trigger] port_pairs(rows)[j]).0 < rows.len()
            &&& value_is_port(rows[port_pairs(rows)[j].0 as int].value)
            &&& port_pairs(rows)[j].1 == rows[port_pairs(rows)[j].0 as int].connected
        },
        forall|i: int| 0 <= i < rows.len() && value_is_port(#[trigger] rows[i].value) ==> exists|j: int|
            0 <= j < port_pairs(rows).len() && #[trigger] port_pairs(rows)[j] == (i as usize, rows[i].connected),
    decreases rows.len(),
{
    if rows.len() > 0 {
        let front = rows.drop_last();
        lemma_port_pairs(front);
        let ps = port_pairs(rows);
        let fs = port_pairs(front);
        assert forall|j: int| 0 <= j < ps.len() implies {
            &&& (#[trigger] ps[j]).0 < rows.len()
            &&& value_is_port(rows[ps[j].0 as int].value)
            &&& ps[j].1 == rows[ps[j].0 as int].connected
        } by {
            if j < fs.len() {
                assert(ps[j] == fs[j]);
                assert(front[fs[j].0 as int] == rows[fs[j].0 as int]);
            }
        }
        assert forall|i: int| 0 <= i < rows.len() && value_is_port(#[trigger] rows[i].value) implies exists|j: int|
            0 <= j < ps.len() && #[trigger] ps[j] == (i as usize, rows[i].connected) by {
            if i < front.len() {
                assert(front[i] == rows[i]);
                let j = choose|j: int| 0 <= j < fs.len() && #[trigger] fs[j] == (i as usize, front[i].connected);
                assert(ps[j] == fs[j]);
            } else {
                assert(ps[fs.len() as int] == (i as usize, rows[i].connected));
            }
        }
    }
}

/// The connected flags of a parameter list survive their mask: the mask of
/// the port rows' flags gives back, bit by bit, the flag of each port row,
/// so applying it leaves every row as it was.
pub proof fn law_connected_mask_round_trip(rows: Seq<ParameterView>)
    requires
        rows.len() <= usize::MAX,
        forall|i: int| 0 <= i < rows.len() && value_is_port(#[trigger] rows[i].value) ==> i < 8,
    ensures
        forall|i: int| 0 <= i < rows.len() && value_is_port(#[trigger] rows[i].value) ==>
            mask_bit(mask_of(port_pairs(rows)), i) == rows[i].connected,
{
    lemma_port_pairs(rows);
    let ps = port_pairs(rows);
    assert forall|j: int| 0 <= j < ps.len() implies #[trigger] ps[j].0 < 8 by {
        assert(value_is_port(rows[ps[j].0 as int].value));
    }
    assert forall|i: int| 0 <= i < rows.len() && value_is_port(#[trigger] rows[i].value) implies
        mask_bit(mask_of(ps), i) == rows[i].connected by {
        lemma_mask_of(ps, i);
        let j = choose|j: int| 0 <= j < ps.len() && #[trigger] ps[j] == (i as usize, rows[i].connected);
        assert(ps[j].0 == i);
        if !rows[i].connected {
            assert forall|j2: int| 0 <= j2 < ps.len() && ps[j2].0 == i implies !#[trigger] ps[j2].1 by {
                assert(ps[j2].1 == rows[ps[j2].0 as int].connected);
            }
        }
    }
}

/// Stepping a choice down moves to the option before it; only the first
/// option wraps round to the last. Steps of every size and speed agree.
pub proof fn law_choice_step_down(index: usize, options: Seq<Seq<char>>, fast: bool, step_scale: i32)
    requires
        0 < index < options.len(),
    ensures
        adjusted(ValueView::Enum { index, options }, false, fast, step_scale) == (ValueView::Enum {
            index: (index - 1) as usize,
            options,
        }),
{
}

/// Stepping a choice up and then down, or down and then up, comes back to
/// the option it started from.
pub proof fn law_choice_steps_undo(index: usize, options: Seq<Seq<char>>, fast: bool, step_scale: i32)
    requires
        index < options.len() <= usize::MAX,
    ensures
        adjusted(adjusted(ValueView::Enum { index, options }, true, fast, step_scale), false, fast, step_scale)
            == (ValueView::Enum { index, options }),
        adjusted(adjusted(ValueView::Enum { index, options }, false, fast, step_scale), true, fast, step_scale)
            == (ValueView::Enum { index, options }),
{
    let n = options.len() as int;
    assert((index + 1) % n == if index + 1 == n { 0 } else { index + 1 }) by (nonlinear_arith)
        requires
            0 <= index < n,
    ;
    let up = ((index + 1) % n) as usize;
    assert(adjusted(ValueView::Enum { index, options }, true, fast, step_scale) == (ValueView::Enum { index: up, options }));
    if index + 1 == n {
        assert(up == 0);
    } else {
        assert(up == index + 1);
    }
    if index > 0 {
        assert(((index - 1) + 1) % n == index) by (nonlinear_arith)
            requires
                0 < index < n,
        ;
        assert(adjusted(ValueView::Enum { index, options }, false, fast, step_scale) == (ValueView::Enum { index: (index - 1) as usize, options }));
    } else {
        assert(((n - 1) + 1) % n == 0) by (nonlinear_arith)
            requires
                n > 0,
        ;
        assert(adjusted(ValueView::Enum { index, options }, false, fast, step_scale) == (ValueView::Enum { index: (n - 1) as usize, options }));
    }
}
} // verus!
