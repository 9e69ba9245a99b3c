use vstd::prelude::*;
use crate::grid::{GridPos, ModuleId, Orientation};
use crate::kind::{InputKind, ModuleKind, kind_is_routing};
use crate::body::{
    Module, ModuleBody, PatchSurface, body_kind, body_input_connected, body_inputs, composition_input_ids,
    composition_inputs, find_module, first_module_index, module_has_input_left, module_has_input_top,
    module_has_output_bottom, module_has_output_right, module_input_count, module_output_count,
};

verus! {

/// How many modules of a kind a list holds.
pub open spec fn count_kind(ms: Seq<Module>, kind: ModuleKind) -> nat
    decreases ms.len(),
{
    if ms.len() == 0 {
        0
    } else {
        count_kind(ms.drop_last(), kind) + if body_kind(ms.last().body) == kind { 1nat } else { 0nat }
    }
}

/// The input and output counts of a composition: its input and output port
/// modules, enabled or not.
pub open spec fn port_counts(surface: PatchSurface) -> (u16, u16) {
    (
        count_kind(surface.modules@, ModuleKind::CompositionInput) as u16,
        count_kind(surface.modules@, ModuleKind::CompositionOutput) as u16,
    )
}

fn count_modules_of(modules: &Vec<Module>, kind: ModuleKind) -> (r: usize)
    ensures
        r == count_kind(modules@, kind),
{
    let mut n: usize = 0;
    let mut i: usize = 0;
    while i < modules.len()
        invariant
            i <= modules@.len(),
            n == count_kind(modules@.take(i as int), kind),
            n <= i,
        decreases modules@.len() - i,
    {
        assert(modules@.take(i + 1).drop_last() =~= modules@.take(i as int));
        if modules[i].kind() == kind {
            n = n + 1;
        }
        i = i + 1;
    }
    assert(modules@.take(i as int) =~= modules@);
    n
}

pub fn composition_port_counts(surface: &PatchSurface) -> (r: (u16, u16))
    ensures
        r == port_counts(*surface),
{
    let inputs = count_modules_of(&surface.modules, ModuleKind::CompositionInput);
    let outputs = count_modules_of(&surface.modules, ModuleKind::CompositionOutput);
    (inputs as u16, outputs as u16)
}

/// Inputs of a module as placed on the grid: a composition has one per input
/// port module inside it.
pub open spec fn grid_input_count(m: Module) -> u16 {
    match m.body {
        ModuleBody::Composition { surface, .. } => port_counts(surface).0,
        _ => module_input_count(m),
    }
}

pub open spec fn grid_output_count(m: Module) -> u16 {
    match m.body {
        ModuleBody::Composition { surface, .. } => port_counts(surface).1,
        _ => module_output_count(m),
    }
}

/// The number of cells a module spans along its signal axis.
pub open spec fn grid_span(m: Module) -> u16 {
    let n = if grid_input_count(m) >= grid_output_count(m) { grid_input_count(m) } else { grid_output_count(m) };
    if n < 1 { 1 } else { n }
}

/// Width of a module in cells: routing pieces and modules facing right are one
/// cell wide, modules facing down span their ports.
pub open spec fn grid_width(m: Module) -> u16 {
    if kind_is_routing(body_kind(m.body)) {
        1
    } else {
        match m.orientation {
            Orientation::Right => 1,
            Orientation::Down => grid_span(m),
        }
    }
}

pub open spec fn grid_height(m: Module) -> u16 {
    if kind_is_routing(body_kind(m.body)) {
        1
    } else {
        match m.orientation {
            Orientation::Right => grid_span(m),
            Orientation::Down => 1,
        }
    }
}

pub fn module_input_count_on_grid(m: &Module) -> (r: u16)
    ensures
        r == grid_input_count(*m),
{
    match &m.body {
        ModuleBody::Composition { surface, .. } => composition_port_counts(surface).0,
        _ => m.input_count(),
    }
}

pub fn module_output_count_on_grid(m: &Module) -> (r: u16)
    ensures
        r == grid_output_count(*m),
{
    match &m.body {
        ModuleBody::Composition { surface, .. } => composition_port_counts(surface).1,
        _ => m.output_count(),
    }
}

pub fn module_width(m: &Module) -> (r: u16)
    ensures
        r == grid_width(*m),
{
    if m.kind().is_routing() {
        return 1;
    }
    match m.orientation {
        Orientation::Right => 1,
        Orientation::Down => {
            let i = module_input_count_on_grid(m);
            let o = module_output_count_on_grid(m);
            let n = if i >= o { i } else { o };
            if n < 1 { 1 } else { n }
        }
    }
}

pub fn module_height(m: &Module) -> (r: u16)
    ensures
        r == grid_height(*m),
{
    if m.kind().is_routing() {
        return 1;
    }
    match m.orientation {
        Orientation::Right => {
            let i = module_input_count_on_grid(m);
            let o = module_output_count_on_grid(m);
            let n = if i >= o { i } else { o };
            if n < 1 { 1 } else { n }
        }
        Orientation::Down => 1,
    }
}

pub open spec fn grid_has_input_top(m: Module) -> bool {
    grid_input_count(m) != 0 && if m.body is Composition {
        m.orientation == Orientation::Down
    } else {
        module_has_input_top(m)
    }
}

pub open spec fn grid_has_input_left(m: Module) -> bool {
    grid_input_count(m) != 0 && if m.body is Composition {
        m.orientation == Orientation::Right
    } else {
        module_has_input_left(m)
    }
}

pub open spec fn grid_has_output_bottom(m: Module) -> bool {
    grid_output_count(m) != 0 && if m.body is Composition {
        m.orientation == Orientation::Down
    } else {
        module_has_output_bottom(m)
    }
}

pub open spec fn grid_has_output_right(m: Module) -> bool {
    grid_output_count(m) != 0 && if m.body is Composition {
        m.orientation == Orientation::Right
    } else {
        module_has_output_right(m)
    }
}

pub fn has_input_top(m: &Module) -> (r: bool)
    ensures
        r == grid_has_input_top(*m),
{
    if module_input_count_on_grid(m) == 0 {
        return false;
    }
    if m.is_composition() {
        return m.orientation == Orientation::Down;
    }
    m.has_input_top()
}

pub fn has_input_left(m: &Module) -> (r: bool)
    ensures
        r == grid_has_input_left(*m),
{
    if module_input_count_on_grid(m) == 0 {
        return false;
    }
    if m.is_composition() {
        return m.orientation == Orientation::Right;
    }
    m.has_input_left()
}

pub fn has_output_bottom(m: &Module) -> (r: bool)
    ensures
        r == grid_has_output_bottom(*m),
{
    if module_output_count_on_grid(m) == 0 {
        return false;
    }
    if m.is_composition() {
        return m.orientation == Orientation::Down;
    }
    m.has_output_bottom()
}

pub fn has_output_right(m: &Module) -> (r: bool)
    ensures
        r == grid_has_output_right(*m),
{
    if module_output_count_on_grid(m) == 0 {
        return false;
    }
    if m.is_composition() {
        return m.orientation == Orientation::Right;
    }
    m.has_output_right()
}

/// The row (from the module's top) where input `input` enters on the left.
/// Joins take their first input on the left, turns and left splits their only
/// one; other modules one per row.
pub open spec fn spec_left_input_offset(m: Module, input: int) -> Option<u16> {
    if !grid_has_input_left(m) {
        None
    } else {
        match body_kind(m.body) {
            ModuleKind::RightJoin | ModuleKind::DownJoin | ModuleKind::LeftSplit | ModuleKind::TurnRightDown => if input == 0 { Some(0u16) } else { None },
            _ => if 0 <= input < grid_input_count(m) { Some(input as u16) } else { None },
        }
    }
}

/// The column where input `input` enters at the top. Joins take their second
/// input at the top.
pub open spec fn spec_top_input_offset(m: Module, input: int) -> Option<u16> {
    if !grid_has_input_top(m) {
        None
    } else {
        match body_kind(m.body) {
            ModuleKind::RightJoin | ModuleKind::DownJoin => if input == 1 { Some(0u16) } else { None },
            ModuleKind::TopSplit | ModuleKind::TurnDownRight => if input == 0 { Some(0u16) } else { None },
            _ => if 0 <= input < grid_input_count(m) { Some(input as u16) } else { None },
        }
    }
}

/// The row where output `output` leaves on the right. Splits send their second
/// output right.
pub open spec fn spec_right_output_offset(m: Module, output: int) -> Option<u16> {
    if !grid_has_output_right(m) {
        None
    } else {
        match body_kind(m.body) {
            ModuleKind::LeftSplit | ModuleKind::TopSplit => if output == 1 { Some(0u16) } else { None },
            ModuleKind::TurnDownRight | ModuleKind::RightJoin => if output == 0 { Some(0u16) } else { None },
            _ => if 0 <= output < grid_output_count(m) { Some(output as u16) } else { None },
        }
    }
}

/// The column where output `output` leaves at the bottom.
pub open spec fn spec_bottom_output_offset(m: Module, output: int) -> Option<u16> {
    if !grid_has_output_bottom(m) {
        None
    } else {
        match body_kind(m.body) {
            ModuleKind::LeftSplit | ModuleKind::TopSplit => if output == 0 { Some(0u16) } else { None },
            ModuleKind::TurnRightDown | ModuleKind::DownJoin => if output == 0 { Some(0u16) } else { None },
            _ => if 0 <= output < grid_output_count(m) { Some(output as u16) } else { None },
        }
    }
}

pub fn left_input_offset(m: &Module, input: usize) -> (r: Option<u16>)
    ensures
        r == spec_left_input_offset(*m, input as int),
{
    if !has_input_left(m) {
        return None;
    }
    match m.kind() {
        ModuleKind::RightJoin | ModuleKind::DownJoin | ModuleKind::LeftSplit | ModuleKind::TurnRightDown => {
            if input == 0 { Some(0) } else { None }
        }
        _ => if input < module_input_count_on_grid(m) as usize { Some(input as u16) } else { None },
    }
}

pub fn top_input_offset(m: &Module, input: usize) -> (r: Option<u16>)
    ensures
        r == spec_top_input_offset(*m, input as int),
{
    if !has_input_top(m) {
        return None;
    }
    match m.kind() {
        ModuleKind::RightJoin | ModuleKind::DownJoin => if input == 1 { Some(0) } else { None },
        ModuleKind::TopSplit | ModuleKind::TurnDownRight => if input == 0 { Some(0) } else { None },
        _ => if input < module_input_count_on_grid(m) as usize { Some(input as u16) } else { None },
    }
}

pub fn right_output_offset(m: &Module, output: usize) -> (r: Option<u16>)
    ensures
        r == spec_right_output_offset(*m, output as int),
{
    if !has_output_right(m) {
        return None;
    }
    match m.kind() {
        ModuleKind::LeftSplit | ModuleKind::TopSplit => if output == 1 { Some(0) } else { None },
        ModuleKind::TurnDownRight | ModuleKind::RightJoin => if output == 0 { Some(0) } else { None },
        _ => if output < module_output_count_on_grid(m) as usize { Some(output as u16) } else { None },
    }
}

pub fn bottom_output_offset(m: &Module, output: usize) -> (r: Option<u16>)
    ensures
        r == spec_bottom_output_offset(*m, output as int),
{
    if !has_output_bottom(m) {
        return None;
    }
    match m.kind() {
        ModuleKind::LeftSplit | ModuleKind::TopSplit => if output == 0 { Some(0) } else { None },
        ModuleKind::TurnRightDown | ModuleKind::DownJoin => if output == 0 { Some(0) } else { None },
        _ => if output < module_output_count_on_grid(m) as usize { Some(output as u16) } else { None },
    }
}

/// Whether a module covers a cell.
pub open spec fn covers(m: Module, p: GridPos) -> bool {
    m.position.x <= p.x < m.position.x + grid_width(m) && m.position.y <= p.y < m.position.y + grid_height(m)
}

pub fn module_contains(m: &Module, p: GridPos) -> (r: bool)
    ensures
        r == covers(*m, p),
{
    let w = module_width(m) as u32;
    let h = module_height(m) as u32;
    p.x >= m.position.x && (p.x as u32) < m.position.x as u32 + w && p.y >= m.position.y
        && (p.y as u32) < m.position.y as u32 + h
}

/// Whether a module shares a cell with the `width` by `height` area at `p`.
pub open spec fn overlaps_area(m: Module, p: GridPos, width: u16, height: u16) -> bool {
    m.position.x < p.x + width && m.position.x + grid_width(m) > p.x && m.position.y < p.y + height
        && m.position.y + grid_height(m) > p.y
}

pub fn module_overlaps(m: &Module, p: GridPos, width: u16, height: u16) -> (r: bool)
    ensures
        r == overlaps_area(*m, p, width, height),
{
    let w = module_width(m) as u32;
    let h = module_height(m) as u32;
    (m.position.x as u32) < p.x as u32 + width as u32 && m.position.x as u32 + w > p.x as u32
        && (m.position.y as u32) < p.y as u32 + height as u32 && m.position.y as u32 + h > p.y as u32
}

/// Whether two modules share a cell.
pub open spec fn modules_overlap(a: Module, b: Module) -> bool {
    overlaps_area(a, b.position, grid_width(b), grid_height(b))
}

/// The role a module's input port plays in synthesis: a unit's own inputs, the
/// kind of the matching input inside a composition, or the body's inputs.
pub open spec fn spec_audio_input(m: Module, port: int) -> Option<InputKind> {
    match m.body {
        ModuleBody::Primitive(p) => if 0 <= port < p.inputs@.len() { Some(p.inputs@[port]) } else { None },
        ModuleBody::Composition { surface, .. } => {
            let ids = composition_input_ids(surface);
            if 0 <= port < ids.len() {
                match first_module_index(surface.modules@, ids[port]) {
                    Some(i) => match surface.modules@[i].body {
                        ModuleBody::CompositionInput { kind, .. } => Some(kind),
                        _ => Some(InputKind::A),
                    },
                    None => None,
                }
            } else {
                None
            }
        },
        _ => if 0 <= port < body_inputs(m.body).len() { Some(body_inputs(m.body)[port]) } else { None },
    }
}

pub fn module_audio_input(m: &Module, port: usize) -> (r: Option<InputKind>)
    ensures
        r == spec_audio_input(*m, port as int),
{
    match &m.body {
        ModuleBody::Primitive(p) => if port < p.inputs.len() { Some(p.inputs[port]) } else { None },
        ModuleBody::Composition { surface, .. } => {
            let ids = composition_inputs(surface);
            if port >= ids.len() {
                return None;
            }
            match find_module(&surface.modules, ids[port]) {
                Some(i) => match &surface.modules[i].body {
                    ModuleBody::CompositionInput { kind, .. } => Some(*kind),
                    _ => Some(InputKind::A),
                },
                None => None,
            }
        }
        _ => {
            let inputs = m.body.audio_inputs();
            if port < inputs.len() { Some(inputs[port]) } else { None }
        }
    }
}

/// Whether input port `port` of a module takes a signal. A composition's port
/// does when the value of its input module inside does.
pub open spec fn spec_input_connected(m: Module, port: u16) -> bool {
    match m.body {
        ModuleBody::Composition { surface, .. } => {
            let ids = composition_input_ids(surface);
            if (port as int) < ids.len() {
                match first_module_index(surface.modules@, ids[port as int]) {
                    Some(i) => match surface.modules@[i].body {
                        ModuleBody::CompositionInput { value, .. } => value.connected,
                        _ => false,
                    },
                    None => false,
                }
            } else {
                false
            }
        },
        _ => body_input_connected(m.body, port),
    }
}

pub fn module_input_connected(m: &Module, port: u16) -> (r: bool)
    ensures
        r == spec_input_connected(*m, port),
{
    match &m.body {
        ModuleBody::Composition { surface, .. } => {
            let ids = composition_inputs(surface);
            if port as usize >= ids.len() {
                return false;
            }
            match find_module(&surface.modules, ids[port as usize]) {
                Some(i) => match &surface.modules[i].body {
                    ModuleBody::CompositionInput { value, .. } => value.connected,
                    _ => false,
                },
                None => false,
            }
        }
        _ => m.input_connected(port),
    }
}


/// The input end of a connection: the target's port and its synthesis role.
#[derive(Clone, Copy, Debug, PartialEq, Eq, Structural)]
pub struct ConnectionInput {
    pub index: usize,
    pub audio: InputKind,
}

/// A signal path from an output port of one module to an input port of another.
#[derive(Clone, Copy, Debug, PartialEq, Eq, Structural)]
pub struct Connection {
    pub from: ModuleId,
    pub to: ModuleId,
    pub output: usize,
    pub input: ConnectionInput,
}

impl Connection {
    pub fn from(self) -> (r: ModuleId)
        ensures
            r == self.from,
    {
        self.from
    }

    pub fn to(self) -> (r: ModuleId)
        ensures
            r == self.to,
    {
        self.to
    }

    pub fn output(self) -> (r: usize)
        ensures
            r == self.output,
    {
        self.output
    }

    pub fn input(self) -> (r: usize)
        ensures
            r == self.input.index,
    {
        self.input.index
    }
}

/// Whether a module covers the cell at column `x`, row `y`.
pub open spec fn covers_at(m: Module, x: int, y: int) -> bool {
    m.position.x <= x < m.position.x + grid_width(m) && m.position.y <= y < m.position.y + grid_height(m)
}

/// The module a cell belongs to: the last enabled module that covers it.
pub open spec fn occupant(ms: Seq<Module>, x: int, y: int) -> Option<int>
    decreases ms.len(),
{
    if ms.len() == 0 {
        None
    } else if !ms.last().disabled && covers_at(ms.last(), x, y) {
        Some(ms.len() - 1)
    } else {
        occupant(ms.drop_last(), x, y)
    }
}

/// Walking right from column `x` along row `y`, the first cell that belongs to
/// a module other than `source`, with that module.
pub open spec fn hit_right(ms: Seq<Module>, source: ModuleId, x: int, y: int, width: int) -> Option<(int, int)>
    decreases width - x,
{
    if x >= width {
        None
    } else {
        match occupant(ms, x, y) {
            Some(t) => if ms[t].id != source { Some((x, t)) } else { hit_right(ms, source, x + 1, y, width) },
            None => hit_right(ms, source, x + 1, y, width),
        }
    }
}

/// Walking down from row `y` along column `x`, the first cell that belongs to
/// a module other than `source`.
pub open spec fn hit_down(ms: Seq<Module>, source: ModuleId, x: int, y: int, height: int) -> Option<(int, int)>
    decreases height - y,
{
    if y >= height {
        None
    } else {
        match occupant(ms, x, y) {
            Some(t) => if ms[t].id != source { Some((y, t)) } else { hit_down(ms, source, x, y + 1, height) },
            None => hit_down(ms, source, x, y + 1, height),
        }
    }
}

/// The first input of `target`, from `i` on, that enters on the left at row
/// `y`, takes a signal and has a synthesis role.
pub open spec fn left_input_at(target: Module, y: int, i: int) -> Option<(int, InputKind)>
    decreases grid_input_count(target) - i,
{
    if i < 0 || i >= grid_input_count(target) {
        None
    } else if (match spec_left_input_offset(target, i) {
        Some(ty) => target.position.y + ty == y,
        None => false,
    }) && spec_input_connected(target, i as u16) && spec_audio_input(target, i) is Some {
        Some((i, spec_audio_input(target, i)->0))
    } else {
        left_input_at(target, y, i + 1)
    }
}

/// The first input of `target`, from `i` on, that enters at the top at column `x`.
pub open spec fn top_input_at(target: Module, x: int, i: int) -> Option<(int, InputKind)>
    decreases grid_input_count(target) - i,
{
    if i < 0 || i >= grid_input_count(target) {
        None
    } else if (match spec_top_input_offset(target, i) {
        Some(tx) => target.position.x + tx == x,
        None => false,
    }) && spec_input_connected(target, i as u16) && spec_audio_input(target, i) is Some {
        Some((i, spec_audio_input(target, i)->0))
    } else {
        top_input_at(target, x, i + 1)
    }
}

/// The connection output `o` of module `s` makes to the right: the signal runs
/// along its row to the first other module, which takes it if its left edge is
/// there and one of its inputs enters at that row.
pub open spec fn connection_right(ms: Seq<Module>, s: int, o: int, width: int) -> Option<Connection> {
    let src = ms[s];
    match spec_right_output_offset(src, o) {
        None => None,
        Some(off) => {
            let y = src.position.y + off;
            match hit_right(ms, src.id, src.position.x + grid_width(src), y, width) {
                None => None,
                Some((x, t)) => {
                    let target = ms[t];
                    if x == target.position.x && grid_has_input_left(target) {
                        match left_input_at(target, y, 0) {
                            Some((i, audio)) => Some(Connection {
                                from: src.id,
                                to: target.id,
                                output: o as usize,
                                input: ConnectionInput { index: i as usize, audio },
                            }),
                            None => None,
                        }
                    } else {
                        None
                    }
                },
            }
        },
    }
}

/// The connection output `o` of module `s` makes downwards.
pub open spec fn connection_down(ms: Seq<Module>, s: int, o: int, height: int) -> Option<Connection> {
    let src = ms[s];
    match spec_bottom_output_offset(src, o) {
        None => None,
        Some(off) => {
            let x = src.position.x + off;
            match hit_down(ms, src.id, x, src.position.y + grid_height(src), height) {
                None => None,
                Some((y, t)) => {
                    let target = ms[t];
                    if y == target.position.y && grid_has_input_top(target) {
                        match top_input_at(target, x, 0) {
                            Some((i, audio)) => Some(Connection {
                                from: src.id,
                                to: target.id,
                                output: o as usize,
                                input: ConnectionInput { index: i as usize, audio },
                            }),
                            None => None,
                        }
                    } else {
                        None
                    }
                },
            }
        },
    }
}

pub open spec fn option_seq(c: Option<Connection>) -> Seq<Connection> {
    match c {
        Some(c) => seq![c],
        None => Seq::empty(),
    }
}

/// The rightward connections of outputs `0..n` of module `s`.
pub open spec fn right_connections(ms: Seq<Module>, s: int, n: int, width: int) -> Seq<Connection>
    decreases n,
{
    if n <= 0 {
        Seq::empty()
    } else {
        right_connections(ms, s, n - 1, width) + option_seq(connection_right(ms, s, n - 1, width))
    }
}

pub open spec fn down_connections(ms: Seq<Module>, s: int, n: int, height: int) -> Seq<Connection>
    decreases n,
{
    if n <= 0 {
        Seq::empty()
    } else {
        down_connections(ms, s, n - 1, height) + option_seq(connection_down(ms, s, n - 1, height))
    }
}

/// The connections leaving module `s`: rightward ones first, output by output.
pub open spec fn source_connections(ms: Seq<Module>, s: int, width: int, height: int) -> Seq<Connection> {
    let src = ms[s];
    if src.disabled {
        Seq::empty()
    } else {
        (if grid_has_output_right(src) { right_connections(ms, s, grid_output_count(src) as int, width) } else { Seq::empty() })
            + (if grid_has_output_bottom(src) { down_connections(ms, s, grid_output_count(src) as int, height) } else { Seq::empty() })
    }
}

/// The connections made by modules `0..n` of a surface, module by module.
pub open spec fn connections_upto(ms: Seq<Module>, n: int, width: int, height: int) -> Seq<Connection>
    decreases n,
{
    if n <= 0 {
        Seq::empty()
    } else {
        connections_upto(ms, n - 1, width, height) + source_connections(ms, n - 1, width, height)
    }
}

/// Every connection on a surface of the given size.
pub open spec fn surface_connection_list(ms: Seq<Module>, width: int, height: int) -> Seq<Connection> {
    connections_upto(ms, ms.len() as int, width, height)
}

fn occupant_at(modules: &Vec<Module>, x: u32, y: u32) -> (r: Option<usize>)
    ensures
        r == match occupant(modules@, x as int, y as int) {
            Some(i) => Some(i as usize),
            None => None,
        },
        r matches Some(i) ==> i < modules@.len() && occupant(modules@, x as int, y as int) == Some(i as int),
        r is None ==> occupant(modules@, x as int, y as int) is None,
{
    let mut i = modules.len();
    assert(modules@.take(i as int) =~= modules@);
    while i > 0
        invariant
            i <= modules@.len(),
            occupant(modules@, x as int, y as int) == occupant(modules@.take(i as int), x as int, y as int),
        decreases i,
    {
        let m = &modules[i - 1];
        assert(modules@.take(i as int).drop_last() =~= modules@.take(i - 1));
        assert(modules@.take(i as int).last() == modules@[i - 1]);
        if !m.disabled {
            let w = module_width(m) as u32;
            let h = module_height(m) as u32;
            if m.position.x as u32 <= x && x < m.position.x as u32 + w && m.position.y as u32 <= y
                && y < m.position.y as u32 + h {
                return Some(i - 1);
            }
        }
        i = i - 1;
    }
    None
}

fn left_input_from(target: &Module, y: u32) -> (r: Option<(usize, InputKind)>)
    ensures
        r == match left_input_at(*target, y as int, 0) {
            Some((i, a)) => Some((i as usize, a)),
            None => None,
        },
        r matches Some((i, a)) ==> left_input_at(*target, y as int, 0) == Some((i as int, a)),
        r is None ==> left_input_at(*target, y as int, 0) is None,
{
    let n = module_input_count_on_grid(target) as usize;
    let mut i: usize = 0;
    while i < n
        invariant
            n == grid_input_count(*target),
            i <= n,
            left_input_at(*target, y as int, 0) == left_input_at(*target, y as int, i as int),
        decreases n - i,
    {
        let at = match left_input_offset(target, i) {
            Some(ty) => target.position.y as u32 + ty as u32 == y,
            None => false,
        };
        if at && module_input_connected(target, i as u16) {
            if let Some(audio) = module_audio_input(target, i) {
                return Some((i, audio));
            }
        }
        i = i + 1;
    }
    None
}

fn top_input_from(target: &Module, x: u32) -> (r: Option<(usize, InputKind)>)
    ensures
        r == match top_input_at(*target, x as int, 0) {
            Some((i, a)) => Some((i as usize, a)),
            None => None,
        },
        r matches Some((i, a)) ==> top_input_at(*target, x as int, 0) == Some((i as int, a)),
        r is None ==> top_input_at(*target, x as int, 0) is None,
{
    let n = module_input_count_on_grid(target) as usize;
    let mut i: usize = 0;
    while i < n
        invariant
            n == grid_input_count(*target),
            i <= n,
            top_input_at(*target, x as int, 0) == top_input_at(*target, x as int, i as int),
        decreases n - i,
    {
        let at = match top_input_offset(target, i) {
            Some(tx) => target.position.x as u32 + tx as u32 == x,
            None => false,
        };
        if at && module_input_connected(target, i as u16) {
            if let Some(audio) = module_audio_input(target, i) {
                return Some((i, audio));
            }
        }
        i = i + 1;
    }
    None
}

fn connect_right(modules: &Vec<Module>, s: usize, o: usize, width: u16) -> (r: Option<Connection>)
    requires
        s < modules@.len(),
    ensures
        r == connection_right(modules@, s as int, o as int, width as int),
{
    let src = &modules[s];
    let Some(off) = right_output_offset(src, o) else {
        return None;
    };
    let y = src.position.y as u32 + off as u32;
    let mut x: u32 = src.position.x as u32 + module_width(src) as u32;
    while x < width as u32
        invariant
            s < modules@.len(),
            *src == modules@[s as int],
            spec_right_output_offset(*src, o as int) == Some(off),
            y == src.position.y + off,
            hit_right(modules@, src.id, (src.position.x + grid_width(*src)) as int, y as int, width as int)
                == hit_right(modules@, src.id, x as int, y as int, width as int),
        decreases width as u32 - x,
    {
        match occupant_at(modules, x, y) {
            Some(t) => {
                let target = &modules[t];
                if target.id != src.id {
                    proof {
                        assert(hit_right(modules@, src.id, x as int, y as int, width as int) == Some((x as int, t as int)));
                    }
                    if x == target.position.x as u32 && has_input_left(target) {
                        return match left_input_from(target, y) {
                            Some((i, audio)) => Some(Connection {
                                from: src.id,
                                to: target.id,
                                output: o,
                                input: ConnectionInput { index: i, audio },
                            }),
                            None => None,
                        };
                    }
                    return None;
                }
            }
            None => {}
        }
        x = x + 1;
    }
    None
}

fn connect_down(modules: &Vec<Module>, s: usize, o: usize, height: u16) -> (r: Option<Connection>)
    requires
        s < modules@.len(),
    ensures
        r == connection_down(modules@, s as int, o as int, height as int),
{
    let src = &modules[s];
    let Some(off) = bottom_output_offset(src, o) else {
        return None;
    };
    let x = src.position.x as u32 + off as u32;
    let mut y: u32 = src.position.y as u32 + module_height(src) as u32;
    while y < height as u32
        invariant
            s < modules@.len(),
            *src == modules@[s as int],
            spec_bottom_output_offset(*src, o as int) == Some(off),
            x == src.position.x + off,
            hit_down(modules@, src.id, x as int, (src.position.y + grid_height(*src)) as int, height as int)
                == hit_down(modules@, src.id, x as int, y as int, height as int),
        decreases height as u32 - y,
    {
        match occupant_at(modules, x, y) {
            Some(t) => {
                let target = &modules[t];
                if target.id != src.id {
                    proof {
                        assert(hit_down(modules@, src.id, x as int, y as int, height as int) == Some((y as int, t as int)));
                    }
                    if y == target.position.y as u32 && has_input_top(target) {
                        return match top_input_from(target, x) {
                            Some((i, audio)) => Some(Connection {
                                from: src.id,
                                to: target.id,
                                output: o,
                                input: ConnectionInput { index: i, audio },
                            }),
                            None => None,
                        };
                    }
                    return None;
                }
            }
            None => {}
        }
        y = y + 1;
    }
    None
}

/// The connections of a surface of the given size, module by module; for
/// each module its rightward connections output by output, then its
/// downward ones. Disabled modules neither send nor receive.
pub fn surface_connections(modules: &Vec<Module>, width: u16, height: u16) -> (r: Vec<Connection>)
    ensures
        r@ == surface_connection_list(modules@, width as int, height as int),
{
    let mut r: Vec<Connection> = Vec::new();
    let mut s: usize = 0;
    while s < modules.len()
        invariant
            s <= modules@.len(),
            r@ == connections_upto(modules@, s as int, width as int, height as int),
        decreases modules@.len() - s,
    {
        let src = &modules[s];
        let ghost before = r@;
        if !src.disabled {
            let outputs = module_output_count_on_grid(src) as usize;
            if has_output_right(src) {
                let mut o: usize = 0;
                while o < outputs
                    invariant
                        s < modules@.len(),
                        outputs == grid_output_count(modules@[s as int]),
                        o <= outputs,
                        r@ == before + right_connections(modules@, s as int, o as int, width as int),
                    decreases outputs - o,
                {
                    let ghost mid = r@;
                    match connect_right(modules, s, o, width) {
                        Some(c) => r.push(c),
                        None => {}
                    }
                    assert(r@ =~= mid + option_seq(connection_right(modules@, s as int, o as int, width as int)));
                    o = o + 1;
                }
            }
            let ghost after_right = r@;
            if has_output_bottom(src) {
                let mut o: usize = 0;
                while o < outputs
                    invariant
                        s < modules@.len(),
                        outputs == grid_output_count(modules@[s as int]),
                        o <= outputs,
                        r@ == after_right + down_connections(modules@, s as int, o as int, height as int),
                    decreases outputs - o,
                {
                    let ghost mid = r@;
                    match connect_down(modules, s, o, height) {
                        Some(c) => r.push(c),
                        None => {}
                    }
                    assert(r@ =~= mid + option_seq(connection_down(modules@, s as int, o as int, height as int)));
                    o = o + 1;
                }
            }
            assert(r@ =~= before + source_connections(modules@, s as int, width as int, height as int));
        } else {
            assert(source_connections(modules@, s as int, width as int, height as int) =~= Seq::<Connection>::empty());
            assert(r@ =~= before + source_connections(modules@, s as int, width as int, height as int));
        }
        s = s + 1;
    }
    r
}


/// Whether module `i` of a list shares a cell with another module of it.
pub open spec fn overlaps_another(ms: Seq<Module>, i: int) -> bool {
    exists|j: int| 0 <= j < ms.len() && j != i && modules_overlap(ms[i], #[trigger] ms[j])
}

/// Whether some module with this id overlaps another module of the list.
pub open spec fn id_overlaps(ms: Seq<Module>, id: ModuleId) -> bool {
    exists|i: int| 0 <= i < ms.len() && (#[trigger] ms[i]).id == id && overlaps_another(ms, i)
}

/// On one surface, exactly the overlapping modules are disabled.
pub open spec fn disabled_marks_ok(ms: Seq<Module>) -> bool {
    forall|k: int| 0 <= k < ms.len() ==> (#[trigger] ms[k]).disabled == id_overlaps(ms, ms[k].id)
}

/// Where ids are distinct, a surface marked as `disabled_marks_ok` says has
/// disabled exactly the modules that share a cell with another module.
pub proof fn law_disabled_exactly_when_overlapping(ms: Seq<Module>)
    requires
        disabled_marks_ok(ms),
        forall|i: int, j: int| 0 <= i < ms.len() && 0 <= j < ms.len() && i != j ==> (#[trigger] ms[i]).id != (#[trigger] ms[j]).id,
    ensures
        forall|k: int| 0 <= k < ms.len() ==> ((#[trigger] ms[k]).disabled <==> overlaps_another(ms, k)),
{
    assert forall|k: int| 0 <= k < ms.len() implies ((#[trigger] ms[k]).disabled <==> overlaps_another(ms, k)) by {
        if id_overlaps(ms, ms[k].id) {
            let i = choose|i: int| 0 <= i < ms.len() && (#[trigger] ms[i]).id == ms[k].id && overlaps_another(ms, i);
            assert(i == k);
        }
    }
}

/// A module list with only its disabled flags changed.
pub open spec fn same_but_disabled(a: Seq<Module>, b: Seq<Module>) -> bool {
    &&& a.len() == b.len()
    &&& forall|k: int| 0 <= k < a.len() ==> {
        &&& (#[trigger] b[k]).id == a[k].id
        &&& b[k].position == a[k].position
        &&& b[k].orientation == a[k].orientation
        &&& b[k].body == a[k].body
    }
}

proof fn lemma_same_but_disabled_overlap(a: Seq<Module>, b: Seq<Module>)
    requires
        same_but_disabled(a, b),
    ensures
        forall|id: ModuleId| id_overlaps(a, id) == #[trigger] id_overlaps(b, id),
{
    assert forall|i: int, j: int| 0 <= i < a.len() && 0 <= j < a.len() implies
        modules_overlap(#[trigger] a[i], #[trigger] a[j]) == modules_overlap(b[i], b[j]) by {
        assert(b[i].position == a[i].position && b[i].body == a[i].body && b[i].orientation == a[i].orientation);
        assert(b[j].position == a[j].position && b[j].body == a[j].body && b[j].orientation == a[j].orientation);
        assert(grid_width(b[i]) == grid_width(a[i]) && grid_height(b[i]) == grid_height(a[i]));
        assert(grid_width(b[j]) == grid_width(a[j]) && grid_height(b[j]) == grid_height(a[j]));
    }
    assert forall|id: ModuleId| id_overlaps(a, id) == #[trigger] id_overlaps(b, id) by {
        if id_overlaps(a, id) {
            let i = choose|i: int| 0 <= i < a.len() && (#[trigger] a[i]).id == id && overlaps_another(a, i);
            let j = choose|j: int| 0 <= j < a.len() && j != i && modules_overlap(a[i], #[trigger] a[j]);
            assert(modules_overlap(b[i], b[j]));
            assert(b[i].id == id);
            assert(overlaps_another(b, i));
        }
        if id_overlaps(b, id) {
            let i = choose|i: int| 0 <= i < b.len() && (#[trigger] b[i]).id == id && overlaps_another(b, i);
            let j = choose|j: int| 0 <= j < b.len() && j != i && modules_overlap(b[i], #[trigger] b[j]);
            assert(modules_overlap(a[i], a[j]));
            assert(a[i].id == id);
            assert(overlaps_another(a, i));
        }
    }
}

fn overlaps_any_other(modules: &Vec<Module>, i: usize) -> (r: bool)
    requires
        i < modules@.len(),
    ensures
        r == overlaps_another(modules@, i as int),
{
    let a = &modules[i];
    let mut j: usize = 0;
    while j < modules.len()
        invariant
            i < modules@.len(),
            *a == modules@[i as int],
            j <= modules@.len(),
            forall|k: int| 0 <= k < j && k != i ==> !modules_overlap(modules@[i as int], #[trigger] modules@[k]),
        decreases modules@.len() - j,
    {
        if j != i {
            let b = &modules[j];
            if module_overlaps(a, b.position, module_width(b), module_height(b)) {
                return true;
            }
        }
        j = j + 1;
    }
    false
}

fn set_disabled(modules: &mut Vec<Module>, k: usize, flag: bool)
    requires
        k < old(modules)@.len(),
    ensures
        final(modules)@.len() == old(modules)@.len(),
        final(modules)@[k as int].disabled == flag,
        forall|j: int| 0 <= j < old(modules)@.len() && j != k ==> #[trigger] final(modules)@[j] == old(modules)@[j],
        final(modules)@[k as int].id == old(modules)@[k as int].id,
        final(modules)@[k as int].position == old(modules)@[k as int].position,
        final(modules)@[k as int].orientation == old(modules)@[k as int].orientation,
        final(modules)@[k as int].body == old(modules)@[k as int].body,
{
    let mut m = modules.remove(k);
    m.disabled = flag;
    modules.insert(k, m);
}

/// Marks the modules of one surface that overlap another as disabled and
/// enables the others.
pub fn update_surface_disabled_states(surface: &mut PatchSurface)
    ensures
        final(surface).cursor == old(surface).cursor,
        same_but_disabled(old(surface).modules@, final(surface).modules@),
        disabled_marks_ok(final(surface).modules@),
{
    let n = surface.modules.len();
    let mut ids: Vec<ModuleId> = Vec::new();
    let mut i: usize = 0;
    while i < n
        invariant
            n == surface.modules@.len(),
            i <= n,
            forall|t: int| 0 <= t < ids@.len() ==> id_overlaps(surface.modules@, #[trigger] ids@[t]),
            forall|t: int| 0 <= t < i && overlaps_another(surface.modules@, t) ==> ids@.contains(#[trigger] surface.modules@[t].id),
        decreases n - i,
    {
        if overlaps_any_other(&surface.modules, i) {
            let ghost prior = ids@;
            ids.push(surface.modules[i].id);
            proof {
                let ms = surface.modules@;
                assert(id_overlaps(ms, ms[i as int].id));
                assert(ids@[prior.len() as int] == ms[i as int].id);
                assert forall|t: int| 0 <= t < i + 1 && overlaps_another(ms, t) implies ids@.contains(
                    #[trigger] ms[t].id) by {
                    if t < i {
                        let u = choose|u: int| 0 <= u < prior.len() && prior[u] == ms[t].id;
                        assert(ids@[u] == prior[u]);
                    } else {
                        assert(ids@[prior.len() as int] == ms[t].id);
                    }
                }
            }
        }
        i = i + 1;
    }
    let ghost start = surface.modules@;
    let mut k: usize = 0;
    while k < n
        invariant
            n == surface.modules@.len() == start.len(),
            k <= n,
            surface.cursor == old(surface).cursor,
            start == old(surface).modules@,
            same_but_disabled(start, surface.modules@),
            forall|t: int| 0 <= t < ids@.len() ==> id_overlaps(start, #[trigger] ids@[t]),
            forall|t: int| 0 <= t < n && overlaps_another(start, t) ==> ids@.contains(#[trigger] start[t].id),
            forall|t: int| 0 <= t < k ==> (#[trigger] surface.modules@[t]).disabled == id_overlaps(start, start[t].id),
        decreases n - k,
    {
        let id = surface.modules[k].id;
        let mut found = false;
        let mut t: usize = 0;
        while t < ids.len()
            invariant
                t <= ids@.len(),
                found == exists|u: int| 0 <= u < t && ids@[u] == id,
            decreases ids@.len() - t,
        {
            if ids[t] == id {
                found = true;
            }
            t = t + 1;
        }
        proof {
            if found {
                let u = choose|u: int| 0 <= u < ids@.len() && ids@[u] == id;
                assert(id_overlaps(start, ids@[u]));
            } else {
                if id_overlaps(start, id) {
                    let i0 = choose|i0: int| 0 <= i0 < start.len() && (#[trigger] start[i0]).id == id && overlaps_another(start, i0);
                    assert(ids@.contains(start[i0].id));
                    let u = choose|u: int| 0 <= u < ids@.len() && ids@[u] == start[i0].id;
                    assert(false);
                }
            }
        }
        set_disabled(&mut surface.modules, k, found);
        k = k + 1;
    }
    proof {
        lemma_same_but_disabled_overlap(start, surface.modules@);
        assert forall|t: int| 0 <= t < surface.modules@.len() implies (#[trigger] surface.modules@[t]).disabled
            == id_overlaps(surface.modules@, surface.modules@[t].id) by {
            assert(surface.modules@[t].id == start[t].id);
        }
    }
}


/// An ordinary module facing right takes its inputs on its left edge one
/// per row: input `i` enters at row `i`, which lies within the module, so
/// two inputs never share a row.
pub proof fn law_left_inputs_one_per_row(m: Module, i: int, j: int)
    requires
        !kind_is_routing(body_kind(m.body)),
        m.orientation == Orientation::Right,
        grid_has_input_left(m),
        0 <= i < grid_input_count(m),
        0 <= j < grid_input_count(m),
    ensures
        spec_left_input_offset(m, i) == Some(i as u16),
        i < grid_height(m),
        i != j ==> spec_left_input_offset(m, i) != spec_left_input_offset(m, j),
{
}
} // verus!
