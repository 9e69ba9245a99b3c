//! The editor's state and the rules by which it answers the user's actions.
use vstd::prelude::*;
use crate::grid::{
    GridPos, GridSize, GridViewSize, ModuleId, Orientation, axis_view_in_range, spec_updated_axis_view, updated_axis_view,
    view_margin,
};
use crate::kind::{ModuleCategory, ModuleKind};
use crate::body::{EnvPoint, Module, ModuleBody, PatchSurface, body_env_points, find_module, first_module_index, is_default_body};
use crate::surface::{covers, grid_height, grid_width, module_contains, module_height, module_overlaps, module_width, overlaps_area};
use crate::instrument::{
    Instrument, Snapshot, active_surface, copy_instruments, edited, entered, exited, instrument_eq, instruments_eq, instruments_equal,
    lemma_edited_active, lemma_edited_twice,
};
use crate::nested::{deep_marks_ok, delay_ids, delays_synced, find_from, layout_eq, module_delays_synced, lemma_copy_layout, lemma_layout_trans, same_layout, sync_delay_sources, update_disabled_states_for_surface};
use crate::instrument::lemma_active_layout;
use crate::text::{chars_equal, chars_of, same_text, string_from_chars, trim_chars, trimmed};
use crate::labels::{debug_text, label_error, validate_composition_labels};
use crate::param::{
    ModuleParameter, ParameterValue, ParameterView, adjust_changes, adjusted, cycled, TextInputKind, ValueView, adjust_in_range, input_accepts, text_input_accepts, value_accepts_typed,
    value_input_text, typed_parameter_value, typed_value, option_view,
};
use crate::copy::strings_equal;
use crate::body::{body_rows, body_set_relation, row_bounds_ok, row_writable_check, row_writable, set_applies};
use crate::kind::{SpecialEditor, kind_special_editor};
use crate::palette::{
    EntryView, PaletteModule, category_entries, filtered_palette_modules, kinds_of, names_view, palette_modules_for,
    search_results,
};
use crate::nested::{duplicate_module, max_id, max_module_id, surface_error, validate_surface_bounds};
use crate::samples::{all_sample_names, instrument_sample_names, joined, mark_missing_in_instruments, marked_list, note_missing, push_joined};
use crate::kind::{category_order, palette_kinds};
use crate::kind::{kind_height, kind_width};

verus! {

broadcast use vstd::string::group_string_axioms;

/// How many instruments a document holds.
pub const INSTRUMENT_COUNT: usize = 5;
/// How many voices the probe view can show.
pub const NUM_VOICES: usize = 6;
/// How many scales a track can use.
pub const SCALE_COUNT: usize = 25;

/// What the user asked for: a key press or a button.
#[derive(Clone, Copy, Debug, PartialEq, Eq, Structural)]
pub enum GuiAction {
    Left,
    Down,
    Up,
    Right,
    LeftFast,
    DownFast,
    UpFast,
    RightFast,
    OpenPalette,
    TogglePlay,
    ToggleMeters,
    Quit,
    Save,
    SaveAs,
    Load,
    Export,
    OpenModules,
    TrackSettings,
    TrackEdit,
    Search,
    EditComposition,
    ExitComposition,
    Palette(ModuleCategory),
    PaletteLeft,
    PaletteRight,
    PaletteUp,
    PaletteDown,
    Confirm,
    Cancel,
    Delete,
    Edit,
    Move,
    Copy,
    Rotate,
    Select,
    Undo,
    Redo,
    Instrument(usize),
    ValueDown,
    ValueUp,
    ValueDownFast,
    ValueUpFast,
    TogglePort,
    CycleUnit,
    CycleStep,
    TypeValue,
    InputChar(char),
    Backspace,
    DeleteChar,
    TextStart,
    TextEnd,
    AddPoint,
    DeletePoint,
    ToggleCurve,
}

/// What the editor is doing, and what the next action applies to.
#[derive(Clone, Copy, Debug, PartialEq, Eq, Structural)]
pub enum Mode {
    Normal,
    QuitConfirm,
    Palette,
    Move { module: ModuleId, origin: GridPos },
    Copy { source: ModuleId },
    Edit { module: ModuleId, parameter: usize },
    ValueInput { module: ModuleId, parameter: usize },
    AdsrEdit { module: ModuleId, parameter: usize },
    EnvEdit { module: ModuleId, point: usize, editing: bool },
    ProbeEdit { module: ModuleId },
    SampleView { module: ModuleId, zoom: u16, offset: u16 },
    Select { anchor: GridPos },
    SelectMove { anchor: GridPos, extent: GridPos, origin: GridPos },
    CopySelection { anchor: GridPos, extent: GridPos, origin: GridPos },
    LoadConfirm,
    SaveConfirm,
    ExportPrompt,
    ExportConfirm,
    TrackPrompt,
    TrackSettings { parameter: usize },
}

/// A module lifted out of its surface while it is carried into or out of a
/// composition, with the place it came from and the document before.
#[derive(Debug)]
pub struct HeldMove {
    pub module: Module,
    pub origin_surface: Option<ModuleId>,
    pub origin_stack: Vec<(Option<ModuleId>, GridPos)>,
    pub origin: GridPos,
    pub before: Snapshot,
}

/// Modules of a selection lifted out of their surface while they are carried
/// into or out of a composition, with the place they came from and the
/// document before.
#[derive(Debug)]
pub struct HeldSelection {
    pub modules: Vec<Module>,
    pub origin_surface: Option<ModuleId>,
    pub origin_stack: Vec<(Option<ModuleId>, GridPos)>,
    pub origin: GridPos,
    pub before: Snapshot,
}

/// The editor: the instruments of a document, the mode, the palette, the
/// prompt, the undo history, and the requests left for the host.
#[derive(Debug)]
pub struct GuiState {
    pub grid_size: GridSize,
    pub grid_view: GridPos,
    pub grid_view_size: GridViewSize,
    pub mode: Mode,
    pub instruments: Vec<Instrument>,
    pub active_instrument: usize,
    pub playing: bool,
    pub show_meters: bool,
    pub bpm: u16,
    pub scale_index: usize,
    pub probe_voice: usize,
    pub track_edit_requested: bool,
    pub dirty: bool,
    pub should_quit: bool,
    pub step_size: usize,
    pub probe_len: u32,
    pub palette_category: ModuleCategory,
    pub palette_index: usize,
    pub palette_searching: bool,
    pub palette_filter: Vec<char>,
    pub palette_filter_index: usize,
    pub next_module_id: u32,
    pub prompt_text: Vec<char>,
    pub prompt_cursor: usize,
    pub saved_path: Option<String>,
    pub exported_path: Option<String>,
    pub load_requested: bool,
    pub save_requested: bool,
    pub load_after_save: bool,
    pub relink_sample_request: Option<ModuleId>,
    pub export_loops: u16,
    pub open_modules_requested: bool,
    /// Names of the user's own compositions, offered after the built-in ones.
    pub user_compositions: Vec<String>,
    pub undo: Vec<Snapshot>,
    pub redo: Vec<Snapshot>,
    pub audio_status: String,
    pub document_status: String,
    /// The patch changed and should be sent to the audio engine.
    pub patch_sync_requested: bool,
    /// The track, tempo or scale changed and should be sent to the audio engine.
    pub track_sync_requested: bool,
    /// Playback was started or stopped.
    pub play_sync_requested: bool,
    /// A palette choice waits to be placed: its kind and, for a user
    /// composition, its index.
    pub insert_requested: Option<(ModuleKind, Option<usize>)>,
    /// The document is to be saved to this path; then loading follows if asked.
    pub save_path_requested: Option<(String, bool)>,
    /// What a pointer drag over the grid is doing, while one lasts.
    pub pointer_drag: Option<PointerDrag>,
    /// A module carried into or out of a composition.
    pub held_move: Option<HeldMove>,
    /// A selection carried into or out of a composition.
    pub held_selection: Option<HeldSelection>,
}

impl GuiState {
    /// The invariant every state keeps.
    pub open spec fn wf(self) -> bool {
        &&& self.instruments@.len() == INSTRUMENT_COUNT
        &&& self.active_instrument < self.instruments@.len()
        &&& self.scale_index < SCALE_COUNT
        &&& self.probe_voice < NUM_VOICES
        &&& self.step_size < 5
        &&& self.prompt_cursor <= self.prompt_text@.len()
        &&& forall|i: int| 0 <= i < self.undo@.len() ==> (#[trigger] self.undo@[i]).wf()
        &&& forall|i: int| 0 <= i < self.redo@.len() ==> (#[trigger] self.redo@[i]).wf()
        &&& self.held_move matches Some(h) ==> h.before.wf()
        &&& self.held_selection matches Some(h) ==> h.before.wf()
    }

    /// The instrument being edited.
    pub open spec fn instrument(self) -> Instrument {
        self.instruments@[self.active_instrument as int]
    }

    /// The surface being edited.
    pub open spec fn surface(self) -> PatchSurface {
        active_surface(self.instrument())
    }

    /// A new editor for a grid of the given size.
    pub fn new(width: u16, height: u16) -> (r: GuiState)
        ensures
            r.wf(),
            r.grid_size == (GridSize { width, height }),
            r.mode == Mode::Normal,
            r.active_instrument == 0,
            forall|i: int| 0 <= i < INSTRUMENT_COUNT ==> (#[trigger] r.instruments@[i]).root.modules@.len() == 0,
            r.surface().modules@.len() == 0,
            r.surface().cursor == (GridPos { x: 0, y: 0 }),
            !r.playing && !r.show_meters && !r.dirty && !r.should_quit,
            r.bpm == 120,
            r.scale_index == 2,
            r.probe_voice == 0,
            r.step_size == 1,
            r.probe_len == 4410,
            r.palette_category == ModuleCategory::Source,
            r.palette_index == 0,
            !r.palette_searching,
            r.next_module_id == 0,
            r.export_loops == 1,
            r.undo@.len() == 0,
            r.redo@.len() == 0,
            r.audio_status@ == "Audio disabled"@,
            r.document_status@ == "Ready"@,
    {
        let mut instruments: Vec<Instrument> = Vec::new();
        let mut i: usize = 0;
        while i < INSTRUMENT_COUNT
            invariant
                i <= INSTRUMENT_COUNT,
                instruments@.len() == i,
                forall|k: int|
                    0 <= k < i ==> (#[trigger] instruments@[k]).root.modules@.len() == 0
                        && instruments@[k].editing_composition is None && instruments@[k].root.cursor == (
                    GridPos { x: 0, y: 0 }),
            decreases INSTRUMENT_COUNT - i,
        {
            instruments.push(Instrument::new());
            i = i + 1;
        }
        GuiState {
            grid_size: GridSize::new(width, height),
            grid_view: GridPos::new(0, 0),
            grid_view_size: GridViewSize::new(width, height),
            mode: Mode::Normal,
            instruments,
            active_instrument: 0,
            playing: false,
            show_meters: false,
            bpm: 120,
            scale_index: 2,
            probe_voice: 0,
            track_edit_requested: false,
            dirty: false,
            should_quit: false,
            step_size: 1,
            probe_len: 4410,
            palette_category: ModuleCategory::Source,
            palette_index: 0,
            palette_searching: false,
            palette_filter: Vec::new(),
            palette_filter_index: 0,
            next_module_id: 0,
            prompt_text: Vec::new(),
            prompt_cursor: 0,
            saved_path: None,
            exported_path: None,
            load_requested: false,
            save_requested: false,
            load_after_save: false,
            relink_sample_request: None,
            export_loops: 1,
            open_modules_requested: false,
            user_compositions: Vec::new(),
            undo: Vec::new(),
            redo: Vec::new(),
            audio_status: "Audio disabled".to_owned(),
            document_status: "Ready".to_owned(),
            patch_sync_requested: false,
            track_sync_requested: false,
            play_sync_requested: false,
            insert_requested: None,
            save_path_requested: None,
            pointer_drag: None,
            held_move: None,
            held_selection: None,
        }
    }

    /// The cursor of the surface being edited.
    pub fn cursor(&self) -> (r: GridPos)
        requires
            self.wf(),
        ensures
            r == self.surface().cursor,
    {
        self.instruments[self.active_instrument].surface().cursor
    }

    /// The modules of the surface being edited.
    pub fn modules(&self) -> (r: &[Module])
        requires
            self.wf(),
        ensures
            r@ == self.surface().modules@,
    {
        self.instruments[self.active_instrument].surface().modules.as_slice()
    }

    /// The grid's width and height.
    pub fn grid_size(&self) -> (r: (u16, u16))
        ensures
            r == (self.grid_size.width, self.grid_size.height),
    {
        (self.grid_size.width, self.grid_size.height)
    }

    /// The track of the instrument being edited.
    pub fn track_text(&self) -> (r: &str)
        requires
            self.wf(),
        ensures
            r@ == self.instrument().track_text@,
    {
        self.instruments[self.active_instrument].track_text.as_str()
    }

    /// How deep in nested compositions the editor is.
    pub fn composition_depth(&self) -> (r: usize)
        requires
            self.wf(),
        ensures
            r == (if self.instrument().composition_stack@.len() >= (if self.instrument().editing_composition
                is Some { 1nat } else { 0nat }) {
                self.instrument().composition_stack@.len()
            } else {
                1
            }),
    {
        let inst = &self.instruments[self.active_instrument];
        let editing: usize = if inst.editing_composition.is_some() {
            1
        } else {
            0
        };
        if inst.composition_stack.len() >= editing {
            inst.composition_stack.len()
        } else {
            editing
        }
    }

    /// Takes the surface being edited out of the active instrument, leaving
    /// an empty one in its place.
    fn take_surface(&mut self) -> (r: PatchSurface)
        requires
            old(self).wf(),
        ensures
            r == old(self).surface(),
            final(self).wf(),
            edited(old(self).instrument(), final(self).instrument(), final(self).surface()),
            final(self).active_instrument == old(self).active_instrument,
            forall|k: int| 0 <= k < INSTRUMENT_COUNT && k != old(self).active_instrument ==> #[trigger] final(self).instruments@[k] == old(self).instruments@[k],
            final(self).mode == old(self).mode,
            final(self).grid_size == old(self).grid_size,
            final(self).next_module_id == old(self).next_module_id,
            others_same(*old(self), *final(self)),
            final(self).undo == old(self).undo,
            final(self).redo == old(self).redo,
            final(self).dirty == old(self).dirty,
            final(self).patch_sync_requested == old(self).patch_sync_requested,
    {
        let a = self.active_instrument;
        let mut inst = self.instruments.remove(a);
        let ghost before = inst;
        let e = PatchSurface { cursor: GridPos::new(0, 0), modules: Vec::new() };
        let ghost placeholder = e;
        let r = inst.swap_surface(e);
        proof {
            lemma_edited_active(before, inst, placeholder);
        }
        self.instruments.insert(a, inst);
        r
    }

    /// Puts a surface back where `take_surface` took one from.
    fn put_surface(&mut self, s: PatchSurface, Ghost(start): Ghost<Instrument>)
        requires
            old(self).wf(),
            edited(start, old(self).instrument(), old(self).surface()),
        ensures
            final(self).wf(),
            edited(start, final(self).instrument(), s),
            final(self).surface() == s,
            final(self).active_instrument == old(self).active_instrument,
            forall|k: int| 0 <= k < INSTRUMENT_COUNT && k != old(self).active_instrument ==> #[trigger] final(self).instruments@[k] == old(self).instruments@[k],
            final(self).mode == old(self).mode,
            final(self).grid_size == old(self).grid_size,
            final(self).next_module_id == old(self).next_module_id,
            others_same(*old(self), *final(self)),
            final(self).undo == old(self).undo,
            final(self).redo == old(self).redo,
            final(self).dirty == old(self).dirty,
            final(self).patch_sync_requested == old(self).patch_sync_requested,
    {
        let a = self.active_instrument;
        let mut inst = self.instruments.remove(a);
        let ghost mid = inst;
        let _ = inst.swap_surface(s);
        self.instruments.insert(a, inst);
        proof {
            lemma_edited_twice(start, mid, self.instrument(), old(self).surface(), s);
            lemma_edited_active(start, self.instrument(), s);
        }
    }
}

/// The first module of a list, from `i` on, that covers a cell.
pub open spec fn first_covering(ms: Seq<Module>, p: GridPos, i: int) -> Option<int>
    decreases ms.len() - i,
{
    if i < 0 || i >= ms.len() {
        None
    } else if covers(ms[i], p) {
        Some(i)
    } else {
        first_covering(ms, p, i + 1)
    }
}

proof fn lemma_first_covering_bounds(ms: Seq<Module>, p: GridPos, i: int)
    ensures
        first_covering(ms, p, i) matches Some(k) ==> i <= k < ms.len() && covers(ms[k], p),
    decreases ms.len() - i,
{
    if 0 <= i < ms.len() && !covers(ms[i], p) {
        lemma_first_covering_bounds(ms, p, i + 1);
    }
}

/// Whether no module of the list but the ignored ones overlaps the area.
pub open spec fn area_free(ms: Seq<Module>, width: u16, height: u16, p: GridPos, ignored: Seq<ModuleId>) -> bool {
    forall|i: int| 0 <= i < ms.len() && !ignored.contains(ms[i].id) ==> !overlaps_area(#[trigger] ms[i], p, width, height)
}

/// Whether an area fits the grid and overlaps no module but the ignored ones.
pub open spec fn area_fits_spec(
    ms: Seq<Module>,
    grid: GridSize,
    width: u16,
    height: u16,
    p: GridPos,
    ignored: Seq<ModuleId>,
) -> bool {
    p.x + width <= grid.width && p.y + height <= grid.height && area_free(ms, width, height, p, ignored)
}

/// `v` brought within `[lo, hi]`; `lo` wins when the bounds cross.
pub open spec fn clamp_int(v: int, lo: int, hi: int) -> int {
    if v < lo { lo } else if v > hi { hi } else { v }
}

/// The step multiplier for each step size.
pub open spec fn step_scale_of(step_size: usize) -> i32 {
    if step_size == 0 { 1 } else if step_size == 1 { 2 } else if step_size == 2 { 5 } else if step_size == 3 { 10 } else { 25 }
}

/// The shift of a span `[min, max]` by `delta`, cut so that the span stays on
/// a grid axis of `size` cells; a span longer than the axis is kept at its start.
pub open spec fn span_shift_spec(min: int, max: int, delta: int, size: int) -> int {
    if size - 1 - max < -min { -min } else { clamp_int(delta, -min, size - 1 - max) }
}

/// Shifts a span on one grid axis by as much of `delta` as keeps it on the grid.
pub fn span_shift(min: u16, max: u16, delta: i32, size: u16) -> (r: i32)
    ensures
        r == span_shift_spec(min as int, max as int, delta as int, size as int),
{
    let lo: i32 = -(min as i32);
    let hi: i32 = size as i32 - 1 - max as i32;
    if hi < lo {
        lo
    } else if delta < lo {
        lo
    } else if delta > hi {
        hi
    } else {
        delta
    }
}

impl Snapshot {
    /// A snapshot of a valid document.
    pub open spec fn wf(self) -> bool {
        self.instruments@.len() == INSTRUMENT_COUNT && self.active_instrument < INSTRUMENT_COUNT
    }
}

/// Whether a snapshot records the document a state holds.
pub open spec fn snapshot_matches(snap: Snapshot, st: GuiState) -> bool {
    &&& instruments_eq(st.instruments@, snap.instruments@)
    &&& snap.active_instrument == st.active_instrument
    &&& snap.next_module_id == st.next_module_id
}

/// The next id, the history of the document and whether it changed are as
/// they were.
pub open spec fn history_kept(a: GuiState, b: GuiState) -> bool {
    &&& b.next_module_id == a.next_module_id
    &&& b.undo == a.undo
    &&& b.redo == a.redo
    &&& b.dirty == a.dirty
}

/// The document, its history and whether it changed are as they were.
pub open spec fn document_kept(a: GuiState, b: GuiState) -> bool {
    &&& b.instruments == a.instruments
    &&& b.active_instrument == a.active_instrument
    &&& history_kept(a, b)
}

/// An edit from `a` to `b` as a commit records it: where the document is the
/// same as before, the history and whether the document changed stay as they
/// were; else the document as it was is kept for undo, nothing is left to
/// redo, and the document is marked changed.
pub open spec fn recorded(a: GuiState, b: GuiState) -> bool {
    ||| {
        &&& b.undo == a.undo
        &&& b.redo == a.redo
        &&& b.dirty == a.dirty
        &&& exists|s: Snapshot| snapshot_matches(s, a) && #[trigger] snapshot_matches(s, b)
    }
    ||| {
        &&& b.undo@.len() == a.undo@.len() + 1
        &&& b.undo@.drop_last() == a.undo@
        &&& snapshot_matches(b.undo@.last(), a)
        &&& b.redo@.len() == 0
        &&& b.dirty
    }
}

/// Whether two lists of instruments differ at most in disabled flags.
pub open spec fn same_instrument_layouts(a: Seq<Instrument>, b: Seq<Instrument>) -> bool {
    &&& a.len() == b.len()
    &&& forall|i: int|
        0 <= i < a.len() ==> {
            &&& (#[trigger] b[i]).root.cursor == a[i].root.cursor
            &&& same_layout(a[i].root.modules@, b[i].root.modules@)
            &&& b[i].track_text == a[i].track_text
            &&& b[i].editing_composition == a[i].editing_composition
            &&& b[i].composition_stack == a[i].composition_stack
        }
}

/// Whether every surface of every instrument has exactly its overlapping
/// modules disabled.
pub open spec fn all_marks_ok(insts: Seq<Instrument>) -> bool {
    forall|i: int| 0 <= i < insts.len() ==> deep_marks_ok(#[trigger] insts[i].root.modules@)
}

impl GuiState {
    /// The module at a cell of the surface being edited: the first that
    /// covers it.
    pub fn module_index_at(&self, position: GridPos) -> (r: Option<usize>)
        requires
            self.wf(),
        ensures
            r matches Some(i) ==> i < self.surface().modules@.len() && first_covering(
                self.surface().modules@,
                position,
                0,
            ) == Some(i as int),
            r is None <==> first_covering(self.surface().modules@, position, 0) is None,
    {
        proof {
            lemma_first_covering_bounds(self.surface().modules@, position, 0);
        }
        let ms = self.modules();
        let mut i: usize = 0;
        while i < ms.len()
            invariant
                ms@ == self.surface().modules@,
                i <= ms@.len(),
                first_covering(ms@, position, 0) == first_covering(ms@, position, i as int),
            decreases ms@.len() - i,
        {
            if module_contains(&ms[i], position) {
                return Some(i);
            }
            i = i + 1;
        }
        None
    }

    /// The module at a cell of the surface being edited.
    pub fn module_at(&self, position: GridPos) -> (r: Option<&Module>)
        requires
            self.wf(),
        ensures
            r is Some <==> first_covering(self.surface().modules@, position, 0) is Some,
            r matches Some(m) ==> *m == self.surface().modules@[first_covering(self.surface().modules@, position, 0)->0],
    {
        let ms = self.modules();
        match self.module_index_at(position) {
            Some(i) => {
                proof {
                    lemma_first_covering_bounds(ms@, position, 0);
                }
                Some(&ms[i])
            },
            None => None,
        }
    }

    /// Whether an area fits the grid without overlapping any module of the
    /// surface being edited but the ignored ones.
    pub fn area_fits(&self, width: u16, height: u16, position: GridPos, ignored: &[ModuleId]) -> (r: bool)
        requires
            self.wf(),
        ensures
            r == area_fits_spec(self.surface().modules@, self.grid_size, width, height, position, ignored@),
    {
        if position.x as u32 + width as u32 > self.grid_size.width as u32 || position.y as u32 + height as u32
            > self.grid_size.height as u32 {
            return false;
        }
        let ms = self.modules();
        let mut i: usize = 0;
        while i < ms.len()
            invariant
                ms@ == self.surface().modules@,
                i <= ms@.len(),
                forall|k: int| 0 <= k < i && !ignored@.contains(ms@[k].id) ==> !overlaps_area(#[trigger] ms@[k], position, width, height),
            decreases ms@.len() - i,
        {
            let mut skip = false;
            let mut j: usize = 0;
            while j < ignored.len()
                invariant
                    ms@ == self.surface().modules@,
                    i < ms@.len(),
                    j <= ignored@.len(),
                    skip == exists|t: int| 0 <= t < j && ignored@[t] == ms@[i as int].id,
                decreases ignored@.len() - j,
            {
                if ignored[j] == ms[i].id {
                    skip = true;
                }
                j = j + 1;
            }
            if !skip && module_overlaps(&ms[i], position, width, height) {
                return false;
            }
            i = i + 1;
        }
        true
    }

    /// The multiplier the step size gives value changes.
    pub fn step_scale(&self) -> (r: i32)
        ensures
            r == step_scale_of(self.step_size),
    {
        match self.step_size {
            0 => 1,
            1 => 2,
            2 => 5,
            3 => 10,
            _ => 25,
        }
    }
}

pub open spec fn min_int(a: int, b: int) -> int {
    if a <= b { a } else { b }
}

pub open spec fn max_int(a: int, b: int) -> int {
    if a >= b { a } else { b }
}

pub open spec fn sat_sub(a: int, b: int) -> int {
    if a >= b { a - b } else { 0 }
}

/// The cells the cursor may reach on each axis, `(min_x, max_x, min_y,
/// max_y)`: the whole grid, or, while a selection is carried, the cells that
/// keep the whole selection on the grid.
pub open spec fn cursor_bounds(mode: Mode, width: u16, height: u16) -> (int, int, int, int) {
    match mode {
        Mode::SelectMove { anchor, extent, origin } | Mode::CopySelection { anchor, extent, origin } => {
            let left = min_int(anchor.x as int, extent.x as int);
            let right = max_int(anchor.x as int, extent.x as int);
            let top = min_int(anchor.y as int, extent.y as int);
            let bottom = max_int(anchor.y as int, extent.y as int);
            (
                sat_sub(origin.x as int, left),
                sat_sub(sat_sub(width as int, 1), sat_sub(right, origin.x as int)),
                sat_sub(origin.y as int, top),
                sat_sub(sat_sub(height as int, 1), sat_sub(bottom, origin.y as int)),
            )
        },
        _ => (0, sat_sub(width as int, 1), 0, sat_sub(height as int, 1)),
    }
}

/// Where the cursor goes when moved by `(dx, dy)`: onto the grid, and within
/// the bounds of a carried selection unless it lands on a composition.
pub open spec fn moved_cursor(st: GuiState, dx: int, dy: int) -> GridPos {
    let c = st.surface().cursor;
    let gx = clamp_int(c.x + dx, 0, sat_sub(st.grid_size.width as int, 1));
    let gy = clamp_int(c.y + dy, 0, sat_sub(st.grid_size.height as int, 1));
    let b = cursor_bounds(st.mode, st.grid_size.width, st.grid_size.height);
    let ms = st.surface().modules@;
    match first_covering(ms, GridPos { x: gx as u16, y: gy as u16 }, 0) {
        Some(i) => if ms[i].body is Composition {
            GridPos { x: gx as u16, y: gy as u16 }
        } else {
            GridPos { x: clamp_int(gx, b.0, b.1) as u16, y: clamp_int(gy, b.2, b.3) as u16 }
        },
        None => GridPos { x: clamp_int(gx, b.0, b.1) as u16, y: clamp_int(gy, b.2, b.3) as u16 },
    }
}

fn clamp_i32(v: i32, lo: i32, hi: i32) -> (r: i32)
    ensures
        r == clamp_int(v as int, lo as int, hi as int),
{
    if v < lo {
        lo
    } else if v > hi {
        hi
    } else {
        v
    }
}

fn sat_sub_i32(a: i32, b: i32) -> (r: i32)
    requires
        0 <= a,
        0 <= b,
    ensures
        r == sat_sub(a as int, b as int),
{
    if a >= b {
        a - b
    } else {
        0
    }
}

impl GuiState {
    /// Sets the cursor of the surface being edited.
    fn set_surface_cursor(&mut self, c: GridPos)
        requires
            old(self).wf(),
        ensures
            final(self).wf(),
            final(self).surface().cursor == c,
            final(self).surface().modules == old(self).surface().modules,
            edited(old(self).instrument(), final(self).instrument(), final(self).surface()),
            final(self).active_instrument == old(self).active_instrument,
            forall|k: int| 0 <= k < INSTRUMENT_COUNT && k != old(self).active_instrument ==> #[trigger] final(self).instruments@[k] == old(self).instruments@[k],
            final(self).mode == old(self).mode,
            final(self).next_module_id == old(self).next_module_id,
            others_same(*old(self), *final(self)),
            final(self).undo == old(self).undo,
            final(self).redo == old(self).redo,
            final(self).dirty == old(self).dirty,
            final(self).patch_sync_requested == old(self).patch_sync_requested,
    {
        let ghost start = self.instrument();
        let mut s = self.take_surface();
        s.cursor = c;
        self.put_surface(s, Ghost(start));
    }

    /// Moves the cursor of the surface being edited by `(dx, dy)` cells.
    pub fn move_cursor(&mut self, dx: i16, dy: i16)
        requires
            old(self).wf(),
        ensures
            final(self).wf(),
            final(self).surface().cursor == moved_cursor(*old(self), dx as int, dy as int),
            final(self).surface().modules == old(self).surface().modules,
            edited(old(self).instrument(), final(self).instrument(), final(self).surface()),
            final(self).active_instrument == old(self).active_instrument,
            forall|k: int| 0 <= k < INSTRUMENT_COUNT && k != old(self).active_instrument ==> #[trigger] final(self).instruments@[k] == old(self).instruments@[k],
            final(self).mode == old(self).mode,
            final(self).grid_size == old(self).grid_size,
            final(self).next_module_id == old(self).next_module_id,
            others_same(*old(self), *final(self)),
            final(self).undo == old(self).undo,
            final(self).redo == old(self).redo,
            final(self).dirty == old(self).dirty,
            final(self).patch_sync_requested == old(self).patch_sync_requested,
    {
        let cursor = self.cursor();
        let width = self.grid_size.width as i32;
        let height = self.grid_size.height as i32;
        let (min_x, max_x, min_y, max_y) = match self.mode {
            Mode::SelectMove { anchor, extent, origin } | Mode::CopySelection { anchor, extent, origin } => {
                let left = if anchor.x <= extent.x { anchor.x } else { extent.x } as i32;
                let right = if anchor.x >= extent.x { anchor.x } else { extent.x } as i32;
                let top = if anchor.y <= extent.y { anchor.y } else { extent.y } as i32;
                let bottom = if anchor.y >= extent.y { anchor.y } else { extent.y } as i32;
                (
                    sat_sub_i32(origin.x as i32, left),
                    sat_sub_i32(sat_sub_i32(width, 1), sat_sub_i32(right, origin.x as i32)),
                    sat_sub_i32(origin.y as i32, top),
                    sat_sub_i32(sat_sub_i32(height, 1), sat_sub_i32(bottom, origin.y as i32)),
                )
            },
            _ => (0, sat_sub_i32(width, 1), 0, sat_sub_i32(height, 1)),
        };
        let grid_x = clamp_i32(cursor.x as i32 + dx as i32, 0, sat_sub_i32(width, 1));
        let grid_y = clamp_i32(cursor.y as i32 + dy as i32, 0, sat_sub_i32(height, 1));
        let landing = GridPos::new(grid_x as u16, grid_y as u16);
        let on_composition = match self.module_index_at(landing) {
            Some(i) => self.modules()[i].is_composition(),
            None => false,
        };
        let next = if on_composition {
            landing
        } else {
            GridPos::new(clamp_i32(grid_x, min_x, max_x) as u16, clamp_i32(grid_y, min_y, max_y) as u16)
        };
        proof {
            let b = cursor_bounds(self.mode, self.grid_size.width, self.grid_size.height);
            assert(b.0 == min_x && b.1 == max_x && b.2 == min_y && b.3 == max_y);
            assert(grid_x == clamp_int(cursor.x + dx, 0, sat_sub(self.grid_size.width as int, 1)));
            let ms = self.surface().modules@;
            assert(landing == GridPos { x: grid_x as u16, y: grid_y as u16 });
            assert(on_composition == (match first_covering(ms, landing, 0) {
                Some(i) => ms[i].body is Composition,
                None => false,
            }));
            assert(next == moved_cursor(*self, dx as int, dy as int));
        }
        self.set_surface_cursor(next);
    }

    /// Sets the cursor of the surface being edited to a cell, kept on the grid.
    pub fn focus_cell(&mut self, position: GridPos)
        requires
            old(self).wf(),
        ensures
            final(self).wf(),
            final(self).surface().cursor == (GridPos {
                x: min_int(position.x as int, sat_sub(old(self).grid_size.width as int, 1)) as u16,
                y: min_int(position.y as int, sat_sub(old(self).grid_size.height as int, 1)) as u16,
            }),
            final(self).surface().modules == old(self).surface().modules,
            edited(old(self).instrument(), final(self).instrument(), final(self).surface()),
            final(self).active_instrument == old(self).active_instrument,
            forall|k: int| 0 <= k < INSTRUMENT_COUNT && k != old(self).active_instrument ==> #[trigger] final(self).instruments@[k] == old(self).instruments@[k],
            final(self).mode == old(self).mode,
            final(self).grid_size == old(self).grid_size,
            final(self).next_module_id == old(self).next_module_id,
            others_same(*old(self), *final(self)),
            final(self).undo == old(self).undo,
            final(self).redo == old(self).redo,
            final(self).dirty == old(self).dirty,
            final(self).patch_sync_requested == old(self).patch_sync_requested,
    {
        let w = if self.grid_size.width >= 1 { self.grid_size.width - 1 } else { 0 };
        let h = if self.grid_size.height >= 1 { self.grid_size.height - 1 } else { 0 };
        let x = if position.x <= w { position.x } else { w };
        let y = if position.y <= h { position.y } else { h };
        self.set_surface_cursor(GridPos::new(x, y));
    }
}

/// The span a module or a carried selection covers after a move, on one
/// axis: `(min, max)` of the span `[lo, hi]` shifted as far toward `delta` as
/// the grid allows, kept non-negative.
pub open spec fn shifted_span(lo: int, hi: int, delta: int, size: int) -> (int, int) {
    let d = span_shift_spec(lo, hi, delta, size);
    (max_int(lo + d, 0), max_int(hi + d, 0))
}

/// The module being moved: on the surface being edited, or held while it is
/// carried into or out of a composition.
pub open spec fn moving_module(st: GuiState, module: ModuleId) -> Option<Module> {
    match first_module_index(st.surface().modules@, module) {
        Some(i) => Some(st.surface().modules@[i]),
        None => match st.held_move {
            Some(h) => if h.module.id == module { Some(h.module) } else { None },
            None => None,
        },
    }
}

/// The cells the grid view keeps in sight: the module being moved, the
/// selection being carried or drawn, or the cursor.
pub open spec fn active_rect(st: GuiState) -> (GridPos, GridPos) {
    let c = st.surface().cursor;
    let ms = st.surface().modules@;
    match st.mode {
        Mode::Move { module, origin } => match moving_module(st, module) {
            Some(m) => {
                let w = sat_sub(grid_width(m) as int, 1);
                let h = sat_sub(grid_height(m) as int, 1);
                let xs = shifted_span(m.position.x as int, m.position.x + w, c.x - origin.x, st.grid_size.width as int);
                let ys = shifted_span(m.position.y as int, m.position.y + h, c.y - origin.y, st.grid_size.height as int);
                (GridPos { x: xs.0 as u16, y: ys.0 as u16 }, GridPos { x: xs.1 as u16, y: ys.1 as u16 })
            },
            None => (c, c),
        },
        Mode::SelectMove { anchor, extent, origin } | Mode::CopySelection { anchor, extent, origin } => {
            let xs = shifted_span(
                min_int(anchor.x as int, extent.x as int),
                max_int(anchor.x as int, extent.x as int),
                c.x - origin.x,
                st.grid_size.width as int,
            );
            let ys = shifted_span(
                min_int(anchor.y as int, extent.y as int),
                max_int(anchor.y as int, extent.y as int),
                c.y - origin.y,
                st.grid_size.height as int,
            );
            (GridPos { x: xs.0 as u16, y: ys.0 as u16 }, GridPos { x: xs.1 as u16, y: ys.1 as u16 })
        },
        Mode::Select { anchor } => (
            GridPos { x: min_int(anchor.x as int, c.x as int) as u16, y: min_int(anchor.y as int, c.y as int) as u16 },
            GridPos { x: max_int(anchor.x as int, c.x as int) as u16, y: max_int(anchor.y as int, c.y as int) as u16 },
        ),
        _ => (c, c),
    }
}

fn shift_span(lo: u16, hi: i32, delta: i32, size: u16) -> (r: (u16, u16))
    requires
        lo <= hi <= 2 * u16::MAX,
    ensures
        r.0 == shifted_span(lo as int, hi as int, delta as int, size as int).0 as u16,
        r.1 == shifted_span(lo as int, hi as int, delta as int, size as int).1 as u16,
{
    let hi16: u16 = if hi > 65535 { 65535 } else { hi as u16 };
    let d = if hi > 65535 {
        let lo_bound: i32 = -(lo as i32);
        let hi_bound: i32 = size as i32 - 1 - hi;
        if hi_bound < lo_bound { lo_bound } else if delta < lo_bound { lo_bound } else if delta > hi_bound { hi_bound } else { delta }
    } else {
        span_shift(lo, hi16, delta, size)
    };
    let a = lo as i32 + d;
    let b = hi + d;
    ((if a < 0 { 0 } else { a }) as u16, (if b < 0 { 0 } else { b }) as u16)
}

impl GuiState {
    /// The module being moved: on the surface being edited, or held while it
    /// is carried into or out of a composition.
    pub fn moving_module(&self, module: ModuleId) -> (r: Option<&Module>)
        requires
            self.wf(),
        ensures
            r matches Some(m) ==> moving_module(*self, module) == Some(*m),
            r is None ==> moving_module(*self, module) is None,
    {
        let ms = &self.instruments[self.active_instrument].surface().modules;
        match find_module(ms, module) {
            Some(i) => Some(&ms[i]),
            None => match &self.held_move {
                Some(h) => if h.module.id == module { Some(&h.module) } else { None },
                None => None,
            },
        }
    }

    /// The cells the grid view keeps in sight.
    pub fn active_grid_rect(&self) -> (r: (GridPos, GridPos))
        requires
            self.wf(),
        ensures
            r == active_rect(*self),
    {
        let c = self.cursor();
        match self.mode {
            Mode::Move { module, origin } => {
                match self.moving_module(module) {
                    Some(m) => {
                        let w = module_width(m);
                        let h = module_height(m);
                        let wd: i32 = if w >= 1 { w as i32 - 1 } else { 0 };
                        let hd: i32 = if h >= 1 { h as i32 - 1 } else { 0 };
                        let xs = shift_span(m.position.x, m.position.x as i32 + wd, c.x as i32 - origin.x as i32, self.grid_size.width);
                        let ys = shift_span(m.position.y, m.position.y as i32 + hd, c.y as i32 - origin.y as i32, self.grid_size.height);
                        (GridPos::new(xs.0, ys.0), GridPos::new(xs.1, ys.1))
                    },
                    None => (c, c),
                }
            },
            Mode::SelectMove { anchor, extent, origin } | Mode::CopySelection { anchor, extent, origin } => {
                let lx = if anchor.x <= extent.x { anchor.x } else { extent.x };
                let hx = if anchor.x >= extent.x { anchor.x } else { extent.x };
                let ly = if anchor.y <= extent.y { anchor.y } else { extent.y };
                let hy = if anchor.y >= extent.y { anchor.y } else { extent.y };
                let xs = shift_span(lx, hx as i32, c.x as i32 - origin.x as i32, self.grid_size.width);
                let ys = shift_span(ly, hy as i32, c.y as i32 - origin.y as i32, self.grid_size.height);
                (GridPos::new(xs.0, ys.0), GridPos::new(xs.1, ys.1))
            },
            Mode::Select { anchor } => (
                GridPos::new(
                    if anchor.x <= c.x { anchor.x } else { c.x },
                    if anchor.y <= c.y { anchor.y } else { c.y },
                ),
                GridPos::new(
                    if anchor.x >= c.x { anchor.x } else { c.x },
                    if anchor.y >= c.y { anchor.y } else { c.y },
                ),
            ),
            _ => (c, c),
        }
    }

    /// Scrolls the grid view to keep the active cells in sight.
    #[verifier::spinoff_prover]
    #[verifier::rlimit(60)]
    pub fn update_grid_view(&mut self)
        requires
            old(self).wf(),
        ensures
            final(self).wf(),
            final(self).grid_view.x == (if axis_view_in_range(old(self).grid_view.x, active_rect(*old(self)).0.x, old(self).grid_size.width, old(self).grid_view_size.columns) {
                spec_updated_axis_view(old(self).grid_view.x, active_rect(*old(self)).0.x, active_rect(*old(self)).1.x, old(self).grid_size.width, old(self).grid_view_size.columns)
            } else {
                old(self).grid_view.x as int
            }),
            final(self).grid_view.y == (if axis_view_in_range(old(self).grid_view.y, active_rect(*old(self)).0.y, old(self).grid_size.height, old(self).grid_view_size.rows) {
                spec_updated_axis_view(old(self).grid_view.y, active_rect(*old(self)).0.y, active_rect(*old(self)).1.y, old(self).grid_size.height, old(self).grid_view_size.rows)
            } else {
                old(self).grid_view.y as int
            }),
            final(self).instruments == old(self).instruments,
            final(self).mode == old(self).mode,
            final(self).active_instrument == old(self).active_instrument,
            final(self).grid_size == old(self).grid_size,
            final(self).next_module_id == old(self).next_module_id,
            final(self).undo == old(self).undo,
            final(self).redo == old(self).redo,
            final(self).dirty == old(self).dirty,
            final(self).patch_sync_requested == old(self).patch_sync_requested,
            others_same_but_view(*old(self), *final(self)),
    {
        let (min, max) = self.active_grid_rect();
        let width = self.grid_size.width;
        let height = self.grid_size.height;
        let columns = self.grid_view_size.columns;
        let rows = self.grid_view_size.rows;
        if view_in_range(self.grid_view.x, min.x, width, columns) {
            self.grid_view.x = updated_axis_view(self.grid_view.x, min.x, max.x, width, columns);
        }
        if view_in_range(self.grid_view.y, min.y, height, rows) {
            self.grid_view.y = updated_axis_view(self.grid_view.y, min.y, max.y, height, rows);
        }
    }
}

/// Whether the view arithmetic of one axis stays within `u16`.
fn view_in_range(offset: u16, min: u16, size: u16, visible: u16) -> (r: bool)
    ensures
        r == axis_view_in_range(offset, min, size, visible),
{
    if size <= visible {
        return true;
    }
    let half = (if visible >= 1 { visible - 1 } else { 0 }) / 2;
    let margin: u32 = if half < 2 { half as u32 } else { 2 };
    let low: u32 = if offset as u32 + margin > 65535 { 65535 } else { offset as u32 + margin };
    if (min as u32) < low {
        return true;
    }
    1 + margin <= offset as u32 + visible as u32 && offset as u32 + visible as u32 <= 65535
}

/// Every part of the state but the document, its history, the mode and the
/// patch sync request is the same in `a` and `b`.
pub open spec fn others_same(a: GuiState, b: GuiState) -> bool {
    &&& others_same_but_drag(a, b)
    &&& b.pointer_drag == a.pointer_drag
    &&& b.held_move == a.held_move
    &&& b.held_selection == a.held_selection
}

/// Every part of the state but the document, its history, the mode, the
/// patch sync request, the pointer drag and what is carried is the same in
/// `a` and `b`.
pub open spec fn others_same_but_drag(a: GuiState, b: GuiState) -> bool {
    &&& b.grid_size == a.grid_size
    &&& b.grid_view == a.grid_view
    &&& b.grid_view_size == a.grid_view_size
    &&& b.playing == a.playing
    &&& b.show_meters == a.show_meters
    &&& b.bpm == a.bpm
    &&& b.scale_index == a.scale_index
    &&& b.probe_voice == a.probe_voice
    &&& b.track_edit_requested == a.track_edit_requested
    &&& b.should_quit == a.should_quit
    &&& b.step_size == a.step_size
    &&& b.probe_len == a.probe_len
    &&& b.palette_category == a.palette_category
    &&& b.palette_index == a.palette_index
    &&& b.palette_searching == a.palette_searching
    &&& b.palette_filter == a.palette_filter
    &&& b.palette_filter_index == a.palette_filter_index
    &&& b.prompt_text == a.prompt_text
    &&& b.prompt_cursor == a.prompt_cursor
    &&& b.saved_path == a.saved_path
    &&& b.exported_path == a.exported_path
    &&& b.load_requested == a.load_requested
    &&& b.save_requested == a.save_requested
    &&& b.load_after_save == a.load_after_save
    &&& b.relink_sample_request == a.relink_sample_request
    &&& b.export_loops == a.export_loops
    &&& b.open_modules_requested == a.open_modules_requested
    &&& b.user_compositions == a.user_compositions
    &&& b.audio_status == a.audio_status
    &&& b.document_status == a.document_status
    &&& b.track_sync_requested == a.track_sync_requested
    &&& b.play_sync_requested == a.play_sync_requested
    &&& b.insert_requested == a.insert_requested
    &&& b.save_path_requested == a.save_path_requested
}

/// Every part of the state but the document, its history, the mode, the
/// patch sync request and the grid view's scroll is the same in `a` and `b`.
pub open spec fn others_same_but_view(a: GuiState, b: GuiState) -> bool {
    &&& b.pointer_drag == a.pointer_drag
    &&& b.held_move == a.held_move
    &&& b.held_selection == a.held_selection
    &&& b.grid_size == a.grid_size
    &&& b.grid_view_size == a.grid_view_size
    &&& b.playing == a.playing
    &&& b.show_meters == a.show_meters
    &&& b.bpm == a.bpm
    &&& b.scale_index == a.scale_index
    &&& b.probe_voice == a.probe_voice
    &&& b.track_edit_requested == a.track_edit_requested
    &&& b.should_quit == a.should_quit
    &&& b.step_size == a.step_size
    &&& b.probe_len == a.probe_len
    &&& b.palette_category == a.palette_category
    &&& b.palette_index == a.palette_index
    &&& b.palette_searching == a.palette_searching
    &&& b.palette_filter == a.palette_filter
    &&& b.palette_filter_index == a.palette_filter_index
    &&& b.prompt_text == a.prompt_text
    &&& b.prompt_cursor == a.prompt_cursor
    &&& b.saved_path == a.saved_path
    &&& b.exported_path == a.exported_path
    &&& b.load_requested == a.load_requested
    &&& b.save_requested == a.save_requested
    &&& b.load_after_save == a.load_after_save
    &&& b.relink_sample_request == a.relink_sample_request
    &&& b.export_loops == a.export_loops
    &&& b.open_modules_requested == a.open_modules_requested
    &&& b.user_compositions == a.user_compositions
    &&& b.audio_status == a.audio_status
    &&& b.document_status == a.document_status
    &&& b.track_sync_requested == a.track_sync_requested
    &&& b.play_sync_requested == a.play_sync_requested
    &&& b.insert_requested == a.insert_requested
    &&& b.save_path_requested == a.save_path_requested
}

/// Marks, on every surface of every instrument, the modules that overlap
/// another as disabled and enables the rest.
fn update_all_disabled(insts: &mut Vec<Instrument>)
    ensures
        same_instrument_layouts(old(insts)@, final(insts)@),
        all_marks_ok(final(insts)@),
{
    let n = insts.len();
    let mut i: usize = 0;
    while i < n
        invariant
            n == insts@.len() == old(insts)@.len(),
            i <= n,
            forall|k: int| i <= k < n ==> #[trigger] insts@[k] == old(insts)@[k],
            forall|k: int|
                0 <= k < i ==> {
                    &&& (#[trigger] insts@[k]).root.cursor == old(insts)@[k].root.cursor
                    &&& same_layout(old(insts)@[k].root.modules@, insts@[k].root.modules@)
                    &&& insts@[k].track_text == old(insts)@[k].track_text
                    &&& insts@[k].editing_composition == old(insts)@[k].editing_composition
                    &&& insts@[k].composition_stack == old(insts)@[k].composition_stack
                    &&& deep_marks_ok(insts@[k].root.modules@)
                },
        decreases n - i,
    {
        let ghost before = insts@;
        let mut inst = insts.remove(i);
        update_disabled_states_for_surface(&mut inst.root);
        insts.insert(i, inst);
        proof {
            assert forall|k: int| 0 <= k < n && k != i implies #[trigger] insts@[k] == before[k] by {
                if k < i {
                    assert(insts@[k] == before[k]);
                } else {
                    assert(insts@[k] == before[k]);
                }
            }
        }
        i = i + 1;
    }
}

impl GuiState {
    /// The document as it stands, for undo.
    pub fn snapshot(&self) -> (r: Snapshot)
        requires
            self.wf(),
        ensures
            snapshot_matches(r, *self),
            r.wf(),
    {
        Snapshot {
            instruments: copy_instruments(&self.instruments),
            active_instrument: self.active_instrument,
            next_module_id: self.next_module_id,
        }
    }

    /// Ends an edit: marks overlapping modules, and if the document changed
    /// since `before`, records `before` for undo, clears redo, marks the
    /// document changed and asks for the patch to be sent to the engine.
    pub fn commit(&mut self, before: Snapshot)
        requires
            old(self).wf(),
            before.wf(),
        ensures
            final(self).wf(),
            same_instrument_layouts(old(self).instruments@, final(self).instruments@),
            all_marks_ok(final(self).instruments@),
            final(self).active_instrument == old(self).active_instrument,
            final(self).next_module_id == old(self).next_module_id,
            final(self).mode == old(self).mode,
            others_same(*old(self), *final(self)),
            snapshot_matches(before, *final(self)) ==> {
                &&& final(self).undo == old(self).undo
                &&& final(self).redo == old(self).redo
                &&& final(self).dirty == old(self).dirty
                &&& final(self).patch_sync_requested == old(self).patch_sync_requested
            },
            !snapshot_matches(before, *final(self)) ==> {
                &&& final(self).undo@ == old(self).undo@.push(before)
                &&& final(self).redo@.len() == 0
                &&& final(self).dirty
                &&& final(self).patch_sync_requested
            },
    {
        update_all_disabled(&mut self.instruments);
        let same = instruments_equal(&self.instruments, &before.instruments) && before.active_instrument
            == self.active_instrument && before.next_module_id == self.next_module_id;
        if !same {
            self.undo.push(before);
            self.redo.clear();
            self.dirty = true;
            self.patch_sync_requested = true;
        }
    }

    /// Puts a snapshot's document back, returns to the normal mode, marks
    /// overlapping modules and asks for the patch to be sent to the engine.
    fn restore(&mut self, snapshot: Snapshot)
        requires
            old(self).wf(),
            snapshot.wf(),
        ensures
            final(self).wf(),
            same_instrument_layouts(snapshot.instruments@, final(self).instruments@),
            all_marks_ok(final(self).instruments@),
            final(self).active_instrument == snapshot.active_instrument,
            final(self).next_module_id == snapshot.next_module_id,
            final(self).mode == Mode::Normal,
            final(self).undo == old(self).undo,
            final(self).redo == old(self).redo,
            final(self).dirty == old(self).dirty,
            final(self).patch_sync_requested,
            others_same_but_drag(*old(self), *final(self)),
            final(self).pointer_drag is None,
            final(self).held_move is None,
            final(self).held_selection is None,
    {
        let Snapshot { instruments, active_instrument, next_module_id } = snapshot;
        self.instruments = instruments;
        self.active_instrument = active_instrument;
        self.next_module_id = next_module_id;
        self.mode = Mode::Normal;
        self.pointer_drag = None;
        self.held_move = None;
        self.held_selection = None;
        update_all_disabled(&mut self.instruments);
        self.patch_sync_requested = true;
    }

    /// Undoes the last recorded edit: the document goes back to the last
    /// snapshot, and the current one is kept for redo. Nothing happens when
    /// there is nothing to undo.
    pub fn undo(&mut self)
        requires
            old(self).wf(),
        ensures
            final(self).wf(),
            old(self).undo@.len() == 0 ==> *final(self) == *old(self),
            old(self).undo@.len() > 0 ==> undone(*old(self), *final(self)),
    {
        if self.undo.len() == 0 {
            return;
        }
        let ghost start = *self;
        let snapshot = self.undo.pop().unwrap();
        let ghost snap = snapshot;
        let current = self.snapshot();
        self.redo.push(current);
        self.restore(snapshot);
        assert(start.undo@.last() == snap);
        assert(self.undo@ == start.undo@.drop_last());
        assert(self.redo@.len() == start.redo@.len() + 1);
        assert(self.redo@.drop_last() == start.redo@);
        assert(snapshot_matches(self.redo@.last(), start));
        assert(same_instrument_layouts(snap.instruments@, self.instruments@));
        assert(others_same_but_drag(start, *self));
        assert(self.mode == Mode::Normal);
        assert(undone(start, *self));
    }

    /// Redoes the last undone edit, keeping the current document for undo.
    /// Nothing happens when there is nothing to redo.
    pub fn redo(&mut self)
        requires
            old(self).wf(),
        ensures
            final(self).wf(),
            old(self).redo@.len() == 0 ==> *final(self) == *old(self),
            old(self).redo@.len() > 0 ==> redone(*old(self), *final(self)),
    {
        if self.redo.len() == 0 {
            return;
        }
        let ghost start = *self;
        let snapshot = self.redo.pop().unwrap();
        let ghost snap = snapshot;
        let current = self.snapshot();
        self.undo.push(current);
        self.restore(snapshot);
        assert(start.redo@.last() == snap);
        assert(self.redo@ == start.redo@.drop_last());
        assert(self.undo@.len() == start.undo@.len() + 1);
        assert(self.undo@.drop_last() == start.undo@);
        assert(snapshot_matches(self.undo@.last(), start));
        assert(same_instrument_layouts(snap.instruments@, self.instruments@));
        assert(others_same_but_drag(start, *self));
        assert(self.mode == Mode::Normal);
        assert(redone(start, *self));
    }
}

/// What undoing does to a state with an edit to undo: the document goes back
/// to the last snapshot kept for undo, up to which overlapping modules are
/// marked disabled, and the document as it was is kept for redo.
pub open spec fn undone(a: GuiState, b: GuiState) -> bool {
    let snap = a.undo@.last();
    &&& b.undo@ == a.undo@.drop_last()
    &&& b.redo@.len() == a.redo@.len() + 1
    &&& b.redo@.drop_last() == a.redo@
    &&& snapshot_matches(b.redo@.last(), a)
    &&& same_instrument_layouts(snap.instruments@, b.instruments@)
    &&& all_marks_ok(b.instruments@)
    &&& b.active_instrument == snap.active_instrument
    &&& b.next_module_id == snap.next_module_id
    &&& b.mode == Mode::Normal
    &&& b.patch_sync_requested
    &&& others_same_but_drag(a, b)
    &&& b.pointer_drag is None
    &&& b.held_move is None
    &&& b.held_selection is None
}

/// What redoing does to a state with an undone edit: the document goes to
/// the last snapshot kept for redo, up to which overlapping modules are
/// marked disabled, and the document as it was is kept for undo.
pub open spec fn redone(a: GuiState, b: GuiState) -> bool {
    let snap = a.redo@.last();
    &&& b.redo@ == a.redo@.drop_last()
    &&& b.undo@.len() == a.undo@.len() + 1
    &&& b.undo@.drop_last() == a.undo@
    &&& snapshot_matches(b.undo@.last(), a)
    &&& same_instrument_layouts(snap.instruments@, b.instruments@)
    &&& all_marks_ok(b.instruments@)
    &&& b.active_instrument == snap.active_instrument
    &&& b.next_module_id == snap.next_module_id
    &&& b.mode == Mode::Normal
    &&& b.patch_sync_requested
    &&& others_same_but_drag(a, b)
    &&& b.pointer_drag is None
    &&& b.held_move is None
    &&& b.held_selection is None
}

/// Two documents alike but for which overlapping modules are marked disabled.
pub open spec fn same_document(a: Seq<Instrument>, b: Seq<Instrument>) -> bool {
    &&& a.len() == b.len()
    &&& forall|i: int|
        0 <= i < a.len() ==> {
            &&& (#[trigger] b[i]).root.cursor == a[i].root.cursor
            &&& same_layout(a[i].root.modules@, b[i].root.modules@)
            &&& b[i].track_text@ == a[i].track_text@
            &&& b[i].editing_composition == a[i].editing_composition
            &&& b[i].composition_stack@ == a[i].composition_stack@
        }
}

proof fn lemma_copy_then_layout(a: Seq<Instrument>, x: Seq<Instrument>, c: Seq<Instrument>)
    requires
        instruments_eq(a, x),
        same_instrument_layouts(x, c),
    ensures
        same_document(a, c),
{
    assert forall|i: int| 0 <= i < a.len() implies {
        &&& (#[trigger] c[i]).root.cursor == a[i].root.cursor
        &&& same_layout(a[i].root.modules@, c[i].root.modules@)
        &&& c[i].track_text@ == a[i].track_text@
        &&& c[i].editing_composition == a[i].editing_composition
        &&& c[i].composition_stack@ == a[i].composition_stack@
    } by {
        assert(instrument_eq(a[i], x[i]));
        lemma_copy_layout(a[i].root.modules@, x[i].root.modules@);
        assert(same_layout(x[i].root.modules@, c[i].root.modules@));
        lemma_layout_trans(a[i].root.modules@, x[i].root.modules@, c[i].root.modules@);
    }
}

/// Undo gives back the document as it was before the last recorded edit, up
/// to which overlapping modules are marked disabled: when `commit` recorded
/// the edit that led from `a` to `b`, undoing in `b` gives `c`.
pub proof fn law_undo_restores(a: GuiState, b: GuiState, c: GuiState)
    requires
        b.undo@.len() > 0,
        snapshot_matches(b.undo@.last(), a),
        undone(b, c),
    ensures
        same_document(a.instruments@, c.instruments@),
        c.active_instrument == a.active_instrument,
        c.next_module_id == a.next_module_id,
        all_marks_ok(c.instruments@),
{
    lemma_copy_then_layout(a.instruments@, b.undo@.last().instruments@, c.instruments@);
}

/// Redoing an undone edit gives back the document as it was before the undo,
/// up to which overlapping modules are marked disabled, with the same redo
/// history and as much undo history.
pub proof fn law_redo_after_undo(a: GuiState, b: GuiState, c: GuiState)
    requires
        a.undo@.len() > 0,
        undone(a, b),
        redone(b, c),
    ensures
        same_document(a.instruments@, c.instruments@),
        c.active_instrument == a.active_instrument,
        c.next_module_id == a.next_module_id,
        c.redo@ == a.redo@,
        c.undo@.len() == a.undo@.len(),
        all_marks_ok(c.instruments@),
{
    lemma_copy_then_layout(a.instruments@, b.redo@.last().instruments@, c.instruments@);
}

/// Through the editor's actions: in the normal mode, an undo followed by a
/// redo gives back the document as it was, up to which overlapping modules
/// are marked disabled, with the same redo history and as much undo history;
/// an undo with nothing to undo changes nothing.
pub proof fn law_apply_undo_redo(a: GuiState, b: GuiState, c: GuiState, t1: Option<i32>, t2: Option<i32>)
    requires
        a.mode == Mode::Normal,
        exists|m: GuiState| mode_step(a, m, GuiAction::Undo, t1) && after_step(a, m, b),
        exists|m: GuiState| mode_step(b, m, GuiAction::Redo, t2) && after_step(b, m, c),
    ensures
        a.undo@.len() == 0 ==> b.instruments == a.instruments && b.undo == a.undo && b.redo == a.redo,
        a.undo@.len() > 0 ==> {
            &&& same_document(a.instruments@, c.instruments@)
            &&& c.active_instrument == a.active_instrument
            &&& c.next_module_id == a.next_module_id
            &&& c.redo@ == a.redo@
            &&& c.undo@.len() == a.undo@.len()
            &&& all_marks_ok(c.instruments@)
        },
{
    reveal(normal_step);
    let m1 = choose|m: GuiState| mode_step(a, m, GuiAction::Undo, t1) && after_step(a, m, b);
    let m2 = choose|m: GuiState| mode_step(b, m, GuiAction::Redo, t2) && after_step(b, m, c);
    if a.undo@.len() > 0 {
        assert(undone(a, m1));
        assert(b.mode == Mode::Normal);
        assert(redone(b, m2));
        lemma_copy_then_layout(a.instruments@, m1.redo@.last().instruments@, c.instruments@);
    }
}

/// A module list without the modules of one id.
pub open spec fn without_id(ms: Seq<Module>, id: ModuleId) -> Seq<Module>
    decreases ms.len(),
{
    if ms.len() == 0 {
        ms
    } else {
        let rest = without_id(ms.drop_last(), id);
        if ms.last().id == id { rest } else { rest.push(ms.last()) }
    }
}

/// `".bw"` removed from the end of a path as often as it ends with it.
pub open spec fn strip_bw(s: Seq<char>) -> Seq<char>
    decreases s.len(),
{
    if s.len() >= 3 && s.subrange(s.len() - 3, s.len() as int) == seq!['.', 'b', 'w'] {
        strip_bw(s.subrange(0, s.len() - 3))
    } else {
        s
    }
}

/// The path an export is offered: the document's path with `.wav` for
/// `.bw`, or `output.wav` for a document never saved.
pub open spec fn export_default(saved: Option<String>) -> Seq<char> {
    match saved {
        Some(p) => strip_bw(p@) + seq!['.', 'w', 'a', 'v'],
        None => seq!['o', 'u', 't', 'p', 'u', 't', '.', 'w', 'a', 'v'],
    }
}

fn strip_bw_chars(v: Vec<char>) -> (r: Vec<char>)
    ensures
        r@ == strip_bw(v@),
    decreases v@.len(),
{
    let n = v.len();
    if n >= 3 && v[n - 3] == '.' && v[n - 2] == 'b' && v[n - 1] == 'w' {
        assert(v@.subrange(n - 3, n as int) =~= seq!['.', 'b', 'w']);
        let mut w = v;
        w.pop();
        w.pop();
        w.pop();
        assert(w@ =~= v@.subrange(0, n - 3));
        strip_bw_chars(w)
    } else {
        proof {
            if n >= 3 {
                assert(v@.subrange(n - 3, n as int)[0] == v@[n - 3]);
                assert(v@.subrange(n - 3, n as int)[1] == v@[n - 2]);
                assert(v@.subrange(n - 3, n as int)[2] == v@[n - 1]);
            }
        }
        v
    }
}

/// A commit of a snapshot of `a`, after an edit that left the history
/// alone, records the edit from `a`.
proof fn lemma_commit_recorded(a: GuiState, mid: GuiState, b: GuiState, before: Snapshot)
    requires
        snapshot_matches(before, a),
        mid.undo == a.undo,
        mid.redo == a.redo,
        mid.dirty == a.dirty,
        snapshot_matches(before, b) ==> {
            &&& b.undo == mid.undo
            &&& b.redo == mid.redo
            &&& b.dirty == mid.dirty
        },
        !snapshot_matches(before, b) ==> {
            &&& b.undo@ == mid.undo@.push(before)
            &&& b.redo@.len() == 0
            &&& b.dirty
        },
    ensures
        recorded(a, b),
{
    if snapshot_matches(before, b) {
        assert(snapshot_matches(before, a) && snapshot_matches(before, b));
    } else {
        assert(b.undo@.drop_last() =~= a.undo@);
    }
}

/// A recorded edit stays recorded when only fields outside the document
/// and its history change.
proof fn lemma_recorded_frame(a: GuiState, b: GuiState, c: GuiState)
    requires
        recorded(a, b),
        c.instruments == b.instruments,
        c.active_instrument == b.active_instrument,
        c.next_module_id == b.next_module_id,
        c.undo == b.undo,
        c.redo == b.redo,
        c.dirty == b.dirty,
    ensures
        recorded(a, c),
{
    if b.undo == a.undo && b.redo == a.redo && b.dirty == a.dirty && exists|s: Snapshot| snapshot_matches(s, a) && #[trigger] snapshot_matches(s, b) {
        let s = choose|s: Snapshot| snapshot_matches(s, a) && #[trigger] snapshot_matches(s, b);
        assert(snapshot_matches(s, c));
    }
}

proof fn lemma_surface_layout(a: GuiState, b: GuiState)
    requires
        a.wf(),
        b.wf(),
        same_instrument_layouts(a.instruments@, b.instruments@),
        b.active_instrument == a.active_instrument,
    ensures
        b.surface().cursor == a.surface().cursor,
        same_layout(a.surface().modules@, b.surface().modules@),
{
    let i = a.active_instrument as int;
    assert(b.instruments@[i].root.cursor == a.instruments@[i].root.cursor);
    lemma_active_layout(a.instrument(), b.instrument());
}

fn without_id_vec(ms: Vec<Module>, id: ModuleId) -> (r: Vec<Module>)
    ensures
        r@ == without_id(ms@, id),
{
    let ghost orig = ms@;
    let mut src = ms;
    let mut kept: Vec<Module> = Vec::new();
    while src.len() > 0
        invariant
            orig.len() == src@.len() + (orig.len() - src@.len()),
            src@.len() <= orig.len(),
            src@ == orig.subrange(orig.len() - src@.len(), orig.len() as int),
            kept@ == without_id(orig.take(orig.len() - src@.len()), id),
        decreases src@.len(),
    {
        let ghost k = orig.len() - src@.len();
        let m = src.remove(0);
        assert(m == orig[k]);
        assert(orig.take(k + 1).drop_last() =~= orig.take(k));
        assert(orig.take(k + 1).last() == orig[k]);
        if m.id != id {
            kept.push(m);
        }
        assert(src@ =~= orig.subrange(orig.len() - src@.len(), orig.len() as int));
    }
    assert(orig.take(orig.len() as int) =~= orig);
    kept
}

impl GuiState {
    /// Opens a text prompt in a mode, with the cursor after the text.
    fn open_prompt(&mut self, mode: Mode, text: Vec<char>)
        ensures
            final(self).mode == mode,
            final(self).prompt_text@ == text@,
            final(self).prompt_cursor == text@.len(),
            final(self).instruments == old(self).instruments,
            final(self).active_instrument == old(self).active_instrument,
            history_kept(*old(self), *final(self)),
            final(self).undo == old(self).undo,
            final(self).redo == old(self).redo,
            final(self).held_move == old(self).held_move,
            final(self).held_selection == old(self).held_selection,
            final(self).scale_index == old(self).scale_index,
            final(self).probe_voice == old(self).probe_voice,
            final(self).step_size == old(self).step_size,
    {
        self.prompt_cursor = text.len();
        self.prompt_text = text;
        self.mode = mode;
    }

    /// The path an export is offered.
    fn export_text(&self) -> (r: Vec<char>)
        ensures
            r@ == export_default(self.saved_path),
    {
        match &self.saved_path {
            Some(path) => {
                let mut v = strip_bw_chars(chars_of(path.as_str()));
                v.push('.');
                v.push('w');
                v.push('a');
                v.push('v');
                v
            },
            None => {
                let v = vec!['o', 'u', 't', 'p', 'u', 't', '.', 'w', 'a', 'v'];
                assert(v@ =~= seq!['o', 'u', 't', 'p', 'u', 't', '.', 'w', 'a', 'v']);
                v
            },
        }
    }

    /// Removes the module at the cursor, with every other module of its id,
    /// and records the edit.
    fn delete_at_cursor(&mut self)
        requires
            old(self).wf(),
        ensures
            final(self).wf(),
            final(self).mode == old(self).mode,
            final(self).active_instrument == old(self).active_instrument,
            others_same(*old(self), *final(self)),
            first_covering(old(self).surface().modules@, old(self).surface().cursor, 0) is None ==> *final(self) == *old(self),
            first_covering(old(self).surface().modules@, old(self).surface().cursor, 0) matches Some(i) ==> {
                let id = old(self).surface().modules@[i].id;
                &&& final(self).surface().cursor == old(self).surface().cursor
                &&& exists|x: Seq<Module>|
                    delays_synced(without_id(old(self).surface().modules@, id), x) && same_layout(
                        x,
                        final(self).surface().modules@,
                    )
                &&& recorded(*old(self), *final(self))
            },
    {
        let found = self.module_index_at(self.cursor());
        let i = match found {
            Some(i) => i,
            None => return,
        };
        let id = self.modules()[i].id;
        let before = self.snapshot();
        let ghost start = self.instrument();
        let ghost old_surface = self.surface();
        let s = self.take_surface();
        let PatchSurface { cursor, modules } = s;
        let mut next = PatchSurface { cursor, modules: without_id_vec(modules, id) };
        let ghost pruned = next;
        sync_delay_sources(&mut next);
        let ghost put = next;
        self.put_surface(next, Ghost(start));
        let ghost mid = *self;
        self.commit(before);
        proof {
            lemma_commit_recorded(*old(self), mid, *self, before);
            lemma_surface_layout(mid, *self);
            assert(delays_synced(pruned.modules@, put.modules@));
            assert(pruned.modules@ == without_id(old_surface.modules@, id));
        }
    }
}

/// The other orientation.
pub open spec fn flipped(o: Orientation) -> Orientation {
    match o {
        Orientation::Right => Orientation::Down,
        Orientation::Down => Orientation::Right,
    }
}

/// A module turned to another orientation.
pub open spec fn turned(m: Module, o: Orientation) -> Module {
    Module { id: m.id, position: m.position, orientation: o, body: m.body, disabled: m.disabled }
}

impl GuiState {
    /// Turns module `j` of the surface being edited to orientation `o`.
    fn set_orientation(&mut self, j: usize, o: Orientation)
        requires
            old(self).wf(),
            j < old(self).surface().modules@.len(),
        ensures
            final(self).wf(),
            final(self).surface().cursor == old(self).surface().cursor,
            final(self).surface().modules@ == old(self).surface().modules@.update(
                j as int,
                turned(old(self).surface().modules@[j as int], o),
            ),
            final(self).active_instrument == old(self).active_instrument,
            final(self).mode == old(self).mode,
            final(self).next_module_id == old(self).next_module_id,
            others_same(*old(self), *final(self)),
            final(self).undo == old(self).undo,
            final(self).dirty == old(self).dirty,
            final(self).redo == old(self).redo,
    {
        let ghost start = self.instrument();
        let ghost old_ms = self.surface().modules@;
        let mut s = self.take_surface();
        let mut t = s.modules.remove(j);
        t.orientation = o;
        s.modules.insert(j, t);
        assert(s.modules@ =~= old_ms.update(j as int, turned(old_ms[j as int], o)));
        self.put_surface(s, Ghost(start));
    }

    /// Turns the module at the cursor to the other orientation when it fits
    /// turned, and records the edit.
    #[verifier::spinoff_prover]
    #[verifier::rlimit(50)]
    fn rotate_at_cursor(&mut self)
        requires
            old(self).wf(),
        ensures
            final(self).wf(),
            final(self).mode == old(self).mode,
            final(self).active_instrument == old(self).active_instrument,
            others_same(*old(self), *final(self)),
            ({
                let ms = old(self).surface().modules@;
                match first_covering(ms, old(self).surface().cursor, 0) {
                    Some(i) => {
                        let m = ms[i];
                        let o = flipped(m.orientation);
                        let k = crate::body::body_kind(m.body);
                        if area_fits_spec(ms, old(self).grid_size, kind_width(k, o), kind_height(k, o), m.position, seq![m.id]) {
                            &&& first_module_index(ms, m.id) is Some
                            &&& final(self).surface().cursor == old(self).surface().cursor
                            &&& same_layout(
                                ms.update(first_module_index(ms, m.id)->0, turned(ms[first_module_index(ms, m.id)->0], o)),
                                final(self).surface().modules@,
                            )
                            &&& recorded(*old(self), *final(self))
                        } else {
                            *final(self) == *old(self)
                        }
                    },
                    None => *final(self) == *old(self),
                }
            }),
    {
        let found = self.module_index_at(self.cursor());
        let i = match found {
            Some(i) => i,
            None => return,
        };
        let m = &self.modules()[i];
        let o = match m.orientation {
            Orientation::Right => Orientation::Down,
            Orientation::Down => Orientation::Right,
        };
        let id = m.id;
        let position = m.position;
        let kind = m.kind();
        let ignored = [id];
        assert(ignored@ =~= seq![id]);
        if !self.area_fits(kind.width(o), kind.height(o), position, &ignored) {
            return;
        }
        let j = match find_module(&self.instruments[self.active_instrument].surface().modules, id) {
            Some(j) => j,
            None => {
                proof {
                    crate::body::lemma_first_module_index_found(self.surface().modules@, id, i as int);
                }
                return;
            },
        };
        let before = self.snapshot();
        self.set_orientation(j, o);
        let ghost mid = *self;
        self.commit(before);
        proof {
            lemma_commit_recorded(*old(self), mid, *self, before);
            lemma_surface_layout(mid, *self);
        }
    }

    /// Enters the composition under the cursor, or, when there is none,
    /// leaves the composition being edited; either way back to the normal mode.
    fn toggle_composition(&mut self)
        requires
            old(self).wf(),
        ensures
            final(self).wf(),
            match composition_under_cursor(*old(self)) {
                Some(owner) => entered(old(self).instrument(), final(self).instrument(), owner),
                None => exited(old(self).instrument(), final(self).instrument()),
            },
            final(self).mode == Mode::Normal,
            final(self).active_instrument == old(self).active_instrument,
            final(self).next_module_id == old(self).next_module_id,
            others_same(*old(self), *final(self)),
            final(self).undo == old(self).undo,
            final(self).redo == old(self).redo,
            final(self).dirty == old(self).dirty,
    {
        let target = match self.module_index_at(self.cursor()) {
            Some(i) => if self.modules()[i].is_composition() {
                Some(self.modules()[i].id)
            } else {
                None
            },
            None => None,
        };
        let a = self.active_instrument;
        let mut inst = self.instruments.remove(a);
        match target {
            Some(owner) => inst.enter_composition(owner),
            None => inst.exit_composition(),
        }
        self.instruments.insert(a, inst);
        self.mode = Mode::Normal;
    }

    /// Leaves the composition being edited and returns to the normal mode.
    fn exit_composition(&mut self)
        requires
            old(self).wf(),
        ensures
            final(self).wf(),
            exited(old(self).instrument(), final(self).instrument()),
            final(self).mode == Mode::Normal,
            final(self).active_instrument == old(self).active_instrument,
            final(self).next_module_id == old(self).next_module_id,
            others_same(*old(self), *final(self)),
            final(self).undo == old(self).undo,
            final(self).redo == old(self).redo,
            final(self).dirty == old(self).dirty,
    {
        let a = self.active_instrument;
        let mut inst = self.instruments.remove(a);
        inst.exit_composition();
        self.instruments.insert(a, inst);
        self.mode = Mode::Normal;
    }
}

/// The composition under the cursor of the surface being edited.
pub open spec fn composition_under_cursor(st: GuiState) -> Option<ModuleId> {
    match module_under_cursor(st) {
        Some(m) => if m.body is Composition { Some(m.id) } else { None },
        None => None,
    }
}

/// The module under the cursor of the surface being edited.
pub open spec fn module_under_cursor(st: GuiState) -> Option<Module> {
    match first_covering(st.surface().modules@, st.surface().cursor, 0) {
        Some(i) => Some(st.surface().modules@[i]),
        None => None,
    }
}

impl GuiState {
    fn open_palette(&mut self, category: ModuleCategory)
        ensures
            final(self).mode == Mode::Palette,
            !final(self).palette_searching,
            final(self).palette_filter@.len() == 0,
            final(self).palette_filter_index == 0,
            final(self).palette_category == category,
            final(self).palette_index == 0,
            final(self).instruments == old(self).instruments,
            final(self).active_instrument == old(self).active_instrument,
            history_kept(*old(self), *final(self)),
            final(self).undo == old(self).undo,
            final(self).redo == old(self).redo,
            final(self).held_move == old(self).held_move,
            final(self).held_selection == old(self).held_selection,
            final(self).scale_index == old(self).scale_index,
            final(self).probe_voice == old(self).probe_voice,
            final(self).step_size == old(self).step_size,
            final(self).prompt_cursor == old(self).prompt_cursor,
            final(self).prompt_text == old(self).prompt_text,
    {
        self.mode = Mode::Palette;
        self.palette_searching = false;
        self.palette_filter.clear();
        self.palette_filter_index = 0;
        self.palette_category = category;
        self.palette_index = 0;
    }

    /// What an action does in the normal mode.
    #[verifier::spinoff_prover]
    #[verifier::rlimit(80)]
    fn apply_normal(&mut self, action: GuiAction)
        requires
            old(self).wf(),
            old(self).mode == Mode::Normal,
        ensures
            final(self).wf(),
            normal_step(*old(self), *final(self), action),
    {
        proof {
            reveal(normal_step);
        }
        match action {
            GuiAction::Quit => {
                if self.dirty {
                    self.mode = Mode::QuitConfirm;
                } else {
                    self.should_quit = true;
                }
            },
            GuiAction::Save => {
                if self.saved_path.is_some() {
                    self.mode = Mode::SaveConfirm;
                } else {
                    self.save_requested = true;
                }
            },
            GuiAction::SaveAs => {
                self.save_requested = true;
            },
            GuiAction::Load => {
                if self.dirty {
                    self.mode = Mode::LoadConfirm;
                } else {
                    self.load_requested = true;
                }
            },
            GuiAction::Export => {
                let text = self.export_text();
                self.open_prompt(Mode::ExportPrompt, text);
            },
            GuiAction::OpenModules => {
                self.open_modules_requested = true;
            },
            GuiAction::TrackSettings => {
                self.mode = Mode::TrackSettings { parameter: 0 };
            },
            GuiAction::TrackEdit => {
                let text = chars_of(self.track_text());
                self.open_prompt(Mode::TrackPrompt, text);
            },
            GuiAction::EditComposition => self.toggle_composition(),
            GuiAction::ExitComposition => self.exit_composition(),
            GuiAction::Left => self.move_cursor(-1, 0),
            GuiAction::Down => self.move_cursor(0, 1),
            GuiAction::Up => self.move_cursor(0, -1),
            GuiAction::Right => self.move_cursor(1, 0),
            GuiAction::LeftFast => self.move_cursor(-4, 0),
            GuiAction::DownFast => self.move_cursor(0, 4),
            GuiAction::UpFast => self.move_cursor(0, -4),
            GuiAction::RightFast => self.move_cursor(4, 0),
            GuiAction::OpenPalette => {
                let category = self.palette_category;
                self.open_palette(category);
            },
            GuiAction::Palette(category) => self.open_palette(category),
            GuiAction::TogglePlay => self.playing = !self.playing,
            GuiAction::ToggleMeters => {
                self.show_meters = !self.show_meters;
                self.patch_sync_requested = true;
            },
            GuiAction::Undo => self.undo(),
            GuiAction::Redo => self.redo(),
            GuiAction::Instrument(index) => {
                if index < self.instruments.len() {
                    self.active_instrument = index;
                    self.mode = Mode::Normal;
                    self.patch_sync_requested = true;
                }
            },
            GuiAction::Delete => self.delete_at_cursor(),
            GuiAction::Edit => {
                match self.module_index_at(self.cursor()) {
                    Some(i) => {
                        let m = &self.modules()[i];
                        if m.parameter_count() != 0 {
                            self.mode = Mode::Edit { module: m.id, parameter: 0 };
                        }
                    },
                    None => {},
                }
            },
            GuiAction::Move => {
                let cursor = self.cursor();
                match self.module_index_at(cursor) {
                    Some(i) => {
                        self.mode = Mode::Move { module: self.modules()[i].id, origin: cursor };
                    },
                    None => {},
                }
            },
            GuiAction::Copy => {
                match self.module_index_at(self.cursor()) {
                    Some(i) => {
                        self.mode = Mode::Copy { source: self.modules()[i].id };
                    },
                    None => {},
                }
            },
            GuiAction::Select => {
                self.mode = Mode::Select { anchor: self.cursor() };
            },
            GuiAction::Rotate => self.rotate_at_cursor(),
            _ => {},
        }
    }

    /// What an action does while quitting waits for confirmation.
    fn apply_quit_confirm(&mut self, action: GuiAction)
        requires
            old(self).wf(),
        ensures
            final(self).wf(),
            quit_confirm_step(*old(self), *final(self), action),
    {
        proof {
            reveal(quit_confirm_step);
        }
        match action {
            GuiAction::Confirm | GuiAction::Copy => self.should_quit = true,
            GuiAction::Cancel | GuiAction::OpenPalette => self.mode = Mode::Normal,
            _ => {},
        }
    }
}

/// Every category lists at least one built-in kind.
proof fn lemma_kinds_of_nonempty(ks: Seq<ModuleKind>, c: ModuleCategory, i: int)
    requires
        0 <= i < ks.len(),
        crate::kind::kind_category(ks[i]) == c,
    ensures
        kinds_of(ks, c).len() > 0,
    decreases ks.len(),
{
    if i < ks.len() - 1 {
        assert(ks.drop_last()[i] == ks[i]);
        lemma_kinds_of_nonempty(ks.drop_last(), c, i);
    }
}

proof fn lemma_category_nonempty(c: ModuleCategory)
    ensures
        kinds_of(palette_kinds(), c).len() > 0,
{
    let ks = palette_kinds();
    let i: int = match c {
        ModuleCategory::Source => 0,
        ModuleCategory::Output => 1,
        ModuleCategory::Shape => 8,
        ModuleCategory::Filter => 13,
        ModuleCategory::Effect => 15,
        ModuleCategory::Logic => 20,
        ModuleCategory::Routing => 31,
        ModuleCategory::Composition => 37,
    };
    lemma_kinds_of_nonempty(ks, c, i);
}

/// The position of a category in palette order.
pub open spec fn category_position(c: ModuleCategory) -> int {
    match c {
        ModuleCategory::Source => 0,
        ModuleCategory::Output => 1,
        ModuleCategory::Shape => 2,
        ModuleCategory::Filter => 3,
        ModuleCategory::Effect => 4,
        ModuleCategory::Logic => 5,
        ModuleCategory::Routing => 6,
        ModuleCategory::Composition => 7,
    }
}

impl GuiState {
    /// The entries of the palette's current category.
    pub fn palette_modules(&self) -> (r: Vec<PaletteModule>)
        ensures
            r@.map_values(|m: PaletteModule| m.entry()) == category_entries(self.palette_category, names_view(self.user_compositions@)),
    {
        palette_modules_for(self.palette_category, &self.user_compositions)
    }

    /// The entries the palette search lists.
    pub fn filtered_palette_modules(&self) -> (r: Vec<PaletteModule>)
        ensures
            r@.map_values(|m: PaletteModule| m.entry()) == search_results(self.palette_filter@, names_view(self.user_compositions@)),
    {
        filtered_palette_modules(&self.palette_filter, &self.user_compositions)
    }

    /// The entry the palette selection is on.
    pub fn selected_palette_choice(&self) -> (r: PaletteModule)
        ensures
            ({
                let es = category_entries(self.palette_category, names_view(self.user_compositions@));
                r.entry() == es[min_int(self.palette_index as int, es.len() - 1)]
            }),
    {
        let modules = self.palette_modules();
        proof {
            lemma_category_nonempty(self.palette_category);
            assert(modules@.map_values(|m: PaletteModule| m.entry()).len() == modules@.len());
        }
        let last = modules.len() - 1;
        let i = if self.palette_index <= last { self.palette_index } else { last };
        let m = &modules[i];
        assert(modules@.map_values(|m: PaletteModule| m.entry())[i as int] == m.entry());
        PaletteModule { kind: m.kind, name: m.name.clone(), user: m.user }
    }

    /// Moves the palette to a neighbouring category, stopping at the ends.
    fn move_palette_category(&mut self, delta: i16)
        ensures
            category_position(final(self).palette_category) == clamp_int(category_position(old(self).palette_category) + delta, 0, 7),
            final(self).palette_index == 0,
            final(self).instruments == old(self).instruments,
            final(self).active_instrument == old(self).active_instrument,
            history_kept(*old(self), *final(self)),
            final(self).undo == old(self).undo,
            final(self).redo == old(self).redo,
            final(self).held_move == old(self).held_move,
            final(self).held_selection == old(self).held_selection,
            final(self).mode == old(self).mode,
            final(self).scale_index == old(self).scale_index,
            final(self).probe_voice == old(self).probe_voice,
            final(self).step_size == old(self).step_size,
            final(self).prompt_cursor == old(self).prompt_cursor,
            final(self).prompt_text == old(self).prompt_text,
    {
        let all = ModuleCategory::all();
        let current: i32 = match self.palette_category {
            ModuleCategory::Source => 0,
            ModuleCategory::Output => 1,
            ModuleCategory::Shape => 2,
            ModuleCategory::Filter => 3,
            ModuleCategory::Effect => 4,
            ModuleCategory::Logic => 5,
            ModuleCategory::Routing => 6,
            ModuleCategory::Composition => 7,
        };
        let next = clamp_i32(current + delta as i32, 0, 7);
        self.palette_category = all[next as usize];
        self.palette_index = 0;
        assert(category_position(category_order()[next as int]) == next);
    }

    /// Moves the palette selection, stopping at the ends of the list.
    fn move_palette_selection(&mut self, delta: i16)
        ensures
            final(self).palette_index == clamp_int(old(self).palette_index + delta, 0, category_entries(old(self).palette_category, names_view(old(self).user_compositions@)).len() - 1),
            final(self).palette_category == old(self).palette_category,
            final(self).instruments == old(self).instruments,
            final(self).active_instrument == old(self).active_instrument,
            final(self).undo == old(self).undo,
            final(self).redo == old(self).redo,
            final(self).held_move == old(self).held_move,
            final(self).held_selection == old(self).held_selection,
            final(self).mode == old(self).mode,
            final(self).scale_index == old(self).scale_index,
            final(self).probe_voice == old(self).probe_voice,
            final(self).step_size == old(self).step_size,
            final(self).prompt_cursor == old(self).prompt_cursor,
            final(self).prompt_text == old(self).prompt_text,
    {
        let modules = self.palette_modules();
        let n = modules.len();
        proof {
            lemma_category_nonempty(self.palette_category);
            assert(modules@.map_values(|m: PaletteModule| m.entry()).len() == n);
        }
        assert(n > 0);
        let max: i128 = n as i128 - 1;
        let next: i128 = self.palette_index as i128 + delta as i128;
        let clamped: i128 = if next < 0 { 0 } else if next > max { max } else { next };
        self.palette_index = clamped as usize;
    }
}

/// Whether a module's nested surface, if it has one, fits a grid.
pub open spec fn nested_fits(m: Module, grid: GridSize) -> bool {
    match m.body {
        ModuleBody::Composition { surface, .. } => surface_error(surface, grid.width, grid.height) is None,
        _ => true,
    }
}

/// What placing module `m` at the cursor of the surface being edited does:
/// when `m` fits, the surface gains it (delay taps resynced, disabled flags
/// renewed) and the id counter moves to `next_id`; otherwise nothing changes.
pub open spec fn placed(old: GuiState, new: GuiState, m: Module, next_id: u32) -> bool {
    let ms = old.surface().modules@;
    if nested_fits(m, old.grid_size) && area_fits_spec(ms, old.grid_size, grid_width(m), grid_height(m), m.position, seq![]) {
        &&& new.next_module_id == next_id
        &&& new.surface().cursor == old.surface().cursor
        &&& exists|x: Seq<Module>| delays_synced(ms.push(m), x) && same_layout(x, new.surface().modules@)
        &&& recorded(old, new)
    } else {
        new == old
    }
}

impl GuiState {
    /// Places `m` on the surface being edited when it fits, and records the edit.
    #[verifier::spinoff_prover]
    #[verifier::rlimit(60)]
    fn place_module(&mut self, m: Module, next_id: u32)
        requires
            old(self).wf(),
            m.position == old(self).surface().cursor,
        ensures
            final(self).wf(),
            final(self).mode == old(self).mode,
            final(self).active_instrument == old(self).active_instrument,
            others_same(*old(self), *final(self)),
            placed(*old(self), *final(self), m, next_id),
    {
        let nested_ok = match &m.body {
            ModuleBody::Composition { surface, .. } => validate_surface_bounds(surface, self.grid_size.width, self.grid_size.height).is_ok(),
            _ => true,
        };
        if !nested_ok {
            return;
        }
        let none: [ModuleId; 0] = [];
        assert(none@ =~= Seq::<ModuleId>::empty());
        if !self.area_fits(module_width(&m), module_height(&m), m.position, &none) {
            return;
        }
        let before = self.snapshot();
        let ghost start = self.instrument();
        let ghost old_ms = self.surface().modules@;
        let ghost mg = m;
        let mut s = self.take_surface();
        s.modules.push(m);
        let ghost pushed = s.modules@;
        sync_delay_sources(&mut s);
        let ghost synced = s.modules@;
        self.put_surface(s, Ghost(start));
        self.next_module_id = next_id;
        let ghost mid = *self;
        self.commit(before);
        proof {
            lemma_commit_recorded(*old(self), mid, *self, before);
            lemma_surface_layout(mid, *self);
            assert(pushed == old_ms.push(mg));
            assert(delays_synced(old_ms.push(mg), synced));
        }
    }

    /// Places a new module of a built-in kind at the cursor, facing right,
    /// with the kind's default settings, when it fits.
    pub fn insert_at_cursor(&mut self, kind: ModuleKind)
        requires
            old(self).wf(),
        ensures
            final(self).wf(),
            final(self).mode == old(self).mode,
            others_same(*old(self), *final(self)),
            old(self).next_module_id == u32::MAX ==> *final(self) == *old(self),
            old(self).next_module_id < u32::MAX ==> exists|m: Module| {
                &&& m.id == (ModuleId { id: old(self).next_module_id })
                &&& m.position == old(self).surface().cursor
                &&& m.orientation == Orientation::Right
                &&& !m.disabled
                &&& is_default_body(kind, m.body)
                &&& placed(*old(self), *final(self), m, (old(self).next_module_id + 1) as u32)
            },
    {
        if self.next_module_id == u32::MAX {
            return;
        }
        let id = ModuleId::new(self.next_module_id);
        let m = Module {
            id,
            position: self.cursor(),
            orientation: Orientation::Right,
            body: kind.default_body(),
            disabled: false,
        };
        let ghost mg = m;
        let next = self.next_module_id + 1;
        self.place_module(m, next);
        assert(placed(*old(self), *self, mg, next));
    }

    /// Places a composition the host built from a user's graph at the
    /// cursor, facing right, when it fits. `projected` is its surface as the
    /// host built it, `None` when the graph could not be laid out, and
    /// `next_id` the id counter after the ids the host gave its modules.
    pub fn insert_projected(&mut self, projected: Option<ModuleBody>, next_id: u32)
        requires
            old(self).wf(),
        ensures
            final(self).wf(),
            final(self).mode == old(self).mode,
            others_same(*old(self), *final(self)),
            projected is None || old(self).next_module_id == u32::MAX ==> *final(self) == *old(self),
            old(self).next_module_id < u32::MAX ==> (projected matches Some(body) ==> placed(
                *old(self),
                *final(self),
                (Module {
                    id: ModuleId { id: old(self).next_module_id },
                    position: old(self).surface().cursor,
                    orientation: Orientation::Right,
                    body: body,
                    disabled: false,
                }),
                next_id,
            )),
    {
        if self.next_module_id == u32::MAX {
            return;
        }
        let body = match projected {
            Some(body) => body,
            None => return,
        };
        let m = Module {
            id: ModuleId::new(self.next_module_id),
            position: self.cursor(),
            orientation: Orientation::Right,
            body,
            disabled: false,
        };
        self.place_module(m, next_id);
    }
}

/// Whether a palette entry is one of the user's compositions.
pub open spec fn is_user_choice(choice: PaletteModule, users: nat) -> bool {
    match choice.user {
        Some(i) => i < users,
        None => false,
    }
}

/// What placing the palette entry `e` does to the document: a user
/// composition is asked of the host; a built-in kind becomes a new module
/// with the next id at the cursor, facing right, with the kind's default
/// settings, where it fits and an id is left; else nothing changes.
pub open spec fn palette_insert(a: GuiState, b: GuiState, e: EntryView) -> bool {
    let user = match e.2 {
        Some(i) => i < a.user_compositions@.len(),
        None => false,
    };
    if user {
        &&& b.insert_requested == Some((e.0, e.2))
        &&& document_kept(a, b)
    } else {
        &&& b.insert_requested == a.insert_requested
        &&& a.next_module_id == u32::MAX ==> document_kept(a, b)
        &&& a.next_module_id < u32::MAX ==> exists|m: Module| {
            &&& m.id == (ModuleId { id: a.next_module_id })
            &&& m.position == a.surface().cursor
            &&& m.orientation == Orientation::Right
            &&& is_default_body(e.0, m.body)
            &&& #[trigger] placed_document(a, b, m, (a.next_module_id + 1) as u32)
        }
    }
}

/// What `placed` says of the document alone.
pub open spec fn placed_document(old: GuiState, new: GuiState, m: Module, next_id: u32) -> bool {
    let ms = old.surface().modules@;
    if nested_fits(m, old.grid_size) && area_fits_spec(ms, old.grid_size, grid_width(m), grid_height(m), m.position, seq![]) {
        &&& new.next_module_id == next_id
        &&& new.surface().cursor == old.surface().cursor
        &&& exists|x: Seq<Module>| delays_synced(ms.push(m), x) && same_layout(x, new.surface().modules@)
        &&& recorded(old, new)
    } else {
        document_kept(old, new)
    }
}

/// A placement stays stated when only fields outside the document change.
proof fn lemma_palette_insert_frame(a: GuiState, b: GuiState, c: GuiState, e: EntryView)
    requires
        palette_insert(a, b, e),
        c.instruments == b.instruments,
        c.active_instrument == b.active_instrument,
        c.next_module_id == b.next_module_id,
        c.insert_requested == b.insert_requested,
        c.undo == b.undo,
        c.redo == b.redo,
        c.dirty == b.dirty,
    ensures
        palette_insert(a, c, e),
{
    let user = match e.2 {
        Some(i) => i < a.user_compositions@.len(),
        None => false,
    };
    if !user && a.next_module_id < u32::MAX {
        let m = choose|m: Module| {
            &&& m.id == (ModuleId { id: a.next_module_id })
            &&& m.position == a.surface().cursor
            &&& m.orientation == Orientation::Right
            &&& is_default_body(e.0, m.body)
            &&& #[trigger] placed_document(a, b, m, (a.next_module_id + 1) as u32)
        };
        assert(c.surface() == b.surface());
        assert(placed_document(a, c, m, (a.next_module_id + 1) as u32));
    }
}

impl GuiState {
    /// Places a palette entry: a built-in kind at once, a user composition by
    /// asking the host to lay out its graph.
    fn insert_palette_module(&mut self, choice: PaletteModule)
        requires
            old(self).wf(),
        ensures
            final(self).wf(),
            final(self).mode == old(self).mode,
            is_user_choice(choice, old(self).user_compositions@.len()) ==> {
                &&& final(self).insert_requested == Some((choice.kind, choice.user))
                &&& final(self).instruments == old(self).instruments
                &&& final(self).next_module_id == old(self).next_module_id
            },
            palette_insert(*old(self), *final(self), choice.entry()),
            !is_user_choice(choice, old(self).user_compositions@.len()) ==> {
                &&& final(self).insert_requested == old(self).insert_requested
                &&& (old(self).next_module_id < u32::MAX ==> exists|m: Module| {
                    &&& m.id == (ModuleId { id: old(self).next_module_id })
                    &&& m.position == old(self).surface().cursor
                    &&& m.orientation == Orientation::Right
                    &&& is_default_body(choice.kind, m.body)
                    &&& placed(*old(self), *final(self), m, (old(self).next_module_id + 1) as u32)
                })
            },
    {
        match choice.user {
            Some(i) => {
                if i < self.user_compositions.len() {
                    self.insert_requested = Some((choice.kind, Some(i)));
                    return;
                }
            },
            None => {},
        }
        self.insert_at_cursor(choice.kind);
        proof {
            if old(self).next_module_id < u32::MAX {
                let m = choose|m: Module| {
                    &&& m.id == (ModuleId { id: old(self).next_module_id })
                    &&& m.position == old(self).surface().cursor
                    &&& m.orientation == Orientation::Right
                    &&& is_default_body(choice.kind, m.body)
                    &&& placed(*old(self), *self, m, (old(self).next_module_id + 1) as u32)
                };
                assert(placed_document(*old(self), *self, m, (old(self).next_module_id + 1) as u32));
            }
        }
    }

    /// What an action does in the palette, browsing or searching.
    fn apply_palette(&mut self, action: GuiAction)
        requires
            old(self).wf(),
            old(self).mode == Mode::Palette,
        ensures
            final(self).wf(),
            palette_step(*old(self), *final(self), action),
    {
        proof {
            reveal(palette_step);
        }
        if self.palette_searching {
            self.apply_palette_search(action);
            return;
        }
        match action {
            GuiAction::PaletteLeft | GuiAction::Left => self.move_palette_category(-1),
            GuiAction::PaletteRight | GuiAction::Right => self.move_palette_category(1),
            GuiAction::Palette(category) => self.open_palette(category),
            GuiAction::PaletteUp | GuiAction::Up => self.move_palette_selection(-1),
            GuiAction::PaletteDown | GuiAction::Down => self.move_palette_selection(1),
            GuiAction::Confirm | GuiAction::OpenPalette => {
                let choice = self.selected_palette_choice();
                self.insert_palette_module(choice);
                let ghost mid = *self;
                self.mode = Mode::Normal;
                proof {
                    lemma_palette_insert_frame(*old(self), mid, *self, choice.entry());
                }
            },
            GuiAction::Cancel | GuiAction::Edit => self.mode = Mode::Normal,
            GuiAction::Search => {
                self.palette_filter.clear();
                self.palette_filter_index = 0;
                self.palette_searching = true;
            },
            _ => {},
        }
    }

    fn apply_palette_search(&mut self, action: GuiAction)
        requires
            old(self).wf(),
            old(self).palette_searching,
        ensures
            final(self).wf(),
            action == GuiAction::Cancel ==> !final(self).palette_searching && final(self).palette_filter@.len() == 0 && final(self).palette_filter_index == 0,
            action == GuiAction::Backspace ==> final(self).palette_filter@ == (if old(self).palette_filter@.len() > 0 { old(self).palette_filter@.drop_last() } else { old(self).palette_filter@ }) && final(self).palette_filter_index == 0,
            action == GuiAction::Down ==> final(self).palette_filter_index == (if old(self).palette_filter_index + 1 < search_results(old(self).palette_filter@, names_view(old(self).user_compositions@)).len() {
                old(self).palette_filter_index + 1
            } else {
                old(self).palette_filter_index as int
            }),
            action == GuiAction::Up ==> final(self).palette_filter_index == sat_sub(old(self).palette_filter_index as int, 1),
            action == GuiAction::Confirm ==> final(self).mode == Mode::Normal && !final(self).palette_searching && final(self).palette_filter@.len() == 0,
            action == GuiAction::Confirm ==> ({
                let rs = search_results(old(self).palette_filter@, names_view(old(self).user_compositions@));
                if old(self).palette_filter_index < rs.len() {
                    palette_insert(*old(self), *final(self), rs[old(self).palette_filter_index as int])
                } else {
                    final(self).instruments == old(self).instruments && final(self).insert_requested == old(self).insert_requested
                }
            }),
            action matches GuiAction::InputChar(c) ==> final(self).palette_filter@ == old(self).palette_filter@.push(c) && final(self).palette_filter_index == 0,
    {
        match action {
            GuiAction::Cancel => {
                self.palette_searching = false;
                self.palette_filter.clear();
                self.palette_filter_index = 0;
            },
            GuiAction::Backspace => {
                self.palette_filter.pop();
                self.palette_filter_index = 0;
            },
            GuiAction::Down => {
                let results = self.filtered_palette_modules();
                proof {
                    assert(results@.map_values(|m: PaletteModule| m.entry()).len() == results@.len());
                }
                if self.palette_filter_index < results.len() && self.palette_filter_index + 1 < results.len() {
                    self.palette_filter_index = self.palette_filter_index + 1;
                }
            },
            GuiAction::Up => {
                if self.palette_filter_index > 0 {
                    self.palette_filter_index = self.palette_filter_index - 1;
                }
            },
            GuiAction::Confirm => {
                let results = self.filtered_palette_modules();
                proof {
                    assert(results@.map_values(|m: PaletteModule| m.entry()).len() == results@.len());
                }
                if self.palette_filter_index < results.len() {
                    let m = &results[self.palette_filter_index];
                    let choice = PaletteModule { kind: m.kind, name: m.name.clone(), user: m.user };
                    assert(choice.entry() == results@.map_values(|m: PaletteModule| m.entry())[self.palette_filter_index as int]);
                    let ghost before = *self;
                    self.insert_palette_module(choice);
                    let ghost mid = *self;
                    self.palette_searching = false;
                    self.palette_filter.clear();
                    self.palette_filter_index = 0;
                    self.mode = Mode::Normal;
                    proof {
                        lemma_palette_insert_frame(before, mid, *self, choice.entry());
                    }
                } else {
                    self.palette_searching = false;
                    self.palette_filter.clear();
                    self.palette_filter_index = 0;
                    self.mode = Mode::Normal;
                }
            },
            GuiAction::InputChar(c) => {
                self.palette_filter.push(c);
                self.palette_filter_index = 0;
            },
            _ => {},
        }
    }
}


/// Whether a remembered path is the given one.
pub open spec fn path_known(p: Option<String>, path: Seq<char>) -> bool {
    match p {
        Some(q) => q@ == path,
        None => false,
    }
}

/// The prompt text after a text action, with its cursor: characters the
/// kind of input accepts are inserted at the cursor, Backspace and Delete
/// remove the character before or at it, and the arrows and Home/End move it.
pub open spec fn text_edit(text: Seq<char>, cursor: int, action: GuiAction, kind: TextInputKind) -> (Seq<char>, int) {
    match action {
        GuiAction::InputChar(c) => if input_accepts(kind, c) {
            (text.insert(cursor, c), cursor + 1)
        } else {
            (text, cursor)
        },
        GuiAction::Backspace => if cursor > 0 {
            (text.remove(cursor - 1), cursor - 1)
        } else {
            (text, cursor)
        },
        GuiAction::DeleteChar => if cursor < text.len() {
            (text.remove(cursor), cursor)
        } else {
            (text, cursor)
        },
        GuiAction::Left => (text, if cursor > 0 { cursor - 1 } else { cursor }),
        GuiAction::Right => (text, if cursor < text.len() { cursor + 1 } else { cursor }),
        GuiAction::TextStart => (text, 0),
        GuiAction::TextEnd => (text, text.len() as int),
        _ => (text, cursor),
    }
}

/// The next probe length: doubled or quadrupled up to two seconds, halved or
/// quartered down to eight samples, or reset.
pub open spec fn probe_len_after(len: u32, action: GuiAction) -> u32 {
    match action {
        GuiAction::ValueUp | GuiAction::Right | GuiAction::Up => min_int(len * 2, 88200) as u32,
        GuiAction::ValueDown | GuiAction::Left | GuiAction::Down => max_int((len / 2) as int, 8) as u32,
        GuiAction::ValueUpFast => min_int(len * 4, 88200) as u32,
        GuiAction::ValueDownFast => max_int((len / 4) as int, 8) as u32,
        GuiAction::Delete => 4410,
        _ => len,
    }
}

impl GuiState {
    /// Edits the prompt text by a text action.
    fn apply_text_action(&mut self, action: GuiAction, kind: TextInputKind)
        requires
            old(self).wf(),
        ensures
            final(self).wf(),
            (final(self).prompt_text@, final(self).prompt_cursor as int) == text_edit(old(self).prompt_text@, old(self).prompt_cursor as int, action, kind),
            final(self).mode == old(self).mode,
            final(self).instruments == old(self).instruments,
            final(self).active_instrument == old(self).active_instrument,
    {
        match action {
            GuiAction::InputChar(c) => {
                if text_input_accepts(kind, c) {
                    self.prompt_text.insert(self.prompt_cursor, c);
                    let n = self.prompt_text.len();
                    assert(self.prompt_cursor < n);
                    self.prompt_cursor = self.prompt_cursor + 1;
                }
            },
            GuiAction::Backspace => {
                if self.prompt_cursor > 0 {
                    self.prompt_text.remove(self.prompt_cursor - 1);
                    self.prompt_cursor = self.prompt_cursor - 1;
                }
            },
            GuiAction::DeleteChar => {
                if self.prompt_cursor < self.prompt_text.len() {
                    self.prompt_text.remove(self.prompt_cursor);
                }
            },
            GuiAction::Left => {
                if self.prompt_cursor > 0 {
                    self.prompt_cursor = self.prompt_cursor - 1;
                }
            },
            GuiAction::Right => {
                if self.prompt_cursor < self.prompt_text.len() {
                    self.prompt_cursor = self.prompt_cursor + 1;
                }
            },
            GuiAction::TextStart => self.prompt_cursor = 0,
            GuiAction::TextEnd => self.prompt_cursor = self.prompt_text.len(),
            _ => {},
        }
    }

    /// What an action does in the load confirmation: save first (or ask where
    /// to save), load without saving, or go back.
    fn apply_load_confirm(&mut self, action: GuiAction)
        requires
            old(self).wf(),
        ensures
            final(self).wf(),
            load_confirm_step(*old(self), *final(self), action),
    {
        proof {
            reveal(load_confirm_step);
        }
        match action {
            GuiAction::Confirm => {
                match &self.saved_path {
                    Some(path) => {
                        self.save_path_requested = Some((path.clone(), true));
                    },
                    None => {
                        self.save_requested = true;
                        self.load_after_save = true;
                        self.mode = Mode::Normal;
                    },
                }
            },
            GuiAction::Delete => {
                self.mode = Mode::Normal;
                self.load_requested = true;
            },
            GuiAction::Cancel => self.mode = Mode::Normal,
            _ => {},
        }
    }

    /// What an action does in the save confirmation: save to the known path,
    /// ask for another, or go back.
    fn apply_save_confirm(&mut self, action: GuiAction)
        requires
            old(self).wf(),
        ensures
            final(self).wf(),
            save_confirm_step(*old(self), *final(self), action),
    {
        proof {
            reveal(save_confirm_step);
        }
        match action {
            GuiAction::Confirm => {
                match &self.saved_path {
                    Some(path) => {
                        self.save_path_requested = Some((path.clone(), false));
                    },
                    None => {},
                }
                self.mode = Mode::Normal;
            },
            GuiAction::SaveAs => {
                self.save_requested = true;
                self.mode = Mode::Normal;
            },
            GuiAction::Cancel => self.mode = Mode::Normal,
            _ => {},
        }
    }

    /// Whether a path is the document's own or the last export's.
    fn path_exists(&self, path: &Vec<char>) -> (r: bool)
        ensures
            r == (path_known(self.saved_path, path@) || path_known(self.exported_path, path@)),
    {
        let saved = match &self.saved_path {
            Some(p) => chars_equal(&chars_of(p.as_str()), path),
            None => false,
        };
        let exported = match &self.exported_path {
            Some(p) => chars_equal(&chars_of(p.as_str()), path),
            None => false,
        };
        saved || exported
    }

    /// What an action does in the export prompt: edit the path and the loop
    /// count, or confirm the path, asking again before replacing the
    /// document's own file or the last export.
    fn apply_export_prompt(&mut self, action: GuiAction)
        requires
            old(self).wf(),
        ensures
            final(self).wf(),
            export_prompt_step(*old(self), *final(self), action),
    {
        proof {
            reveal(export_prompt_step);
        }
        match action {
            GuiAction::Cancel => self.mode = Mode::Normal,
            GuiAction::Confirm => {
                let path = trim_chars(self.prompt_text.as_slice());
                if path.len() == 0 {
                    self.mode = Mode::Normal;
                    return;
                }
                if self.path_exists(&path) {
                    self.mode = Mode::ExportConfirm;
                } else {
                    self.exported_path = Some(string_from_chars(path.as_slice()));
                    self.mode = Mode::Normal;
                }
            },
            GuiAction::Up => {
                self.export_loops = if self.export_loops >= 100 { 100 } else { self.export_loops + 1 };
            },
            GuiAction::Down => {
                self.export_loops = if self.export_loops <= 2 { 1 } else { self.export_loops - 1 };
            },
            GuiAction::Left | GuiAction::Right | GuiAction::InputChar(_) | GuiAction::Backspace
            | GuiAction::DeleteChar | GuiAction::TextStart | GuiAction::TextEnd => {
                self.apply_text_action(action, TextInputKind::Free);
            },
            _ => {},
        }
    }

    /// What an action does when an export would replace a file.
    fn apply_export_confirm(&mut self, action: GuiAction)
        requires
            old(self).wf(),
        ensures
            final(self).wf(),
            export_confirm_step(*old(self), *final(self), action),
    {
        proof {
            reveal(export_confirm_step);
        }
        match action {
            GuiAction::Confirm | GuiAction::Copy => {
                let path = trim_chars(self.prompt_text.as_slice());
                if path.len() > 0 {
                    self.exported_path = Some(string_from_chars(path.as_slice()));
                }
                self.mode = Mode::Normal;
            },
            GuiAction::Cancel | GuiAction::OpenPalette => self.mode = Mode::ExportPrompt,
            _ => {},
        }
    }

    /// What an action does in the track prompt: edit the text, or set it as
    /// the instrument's track.
    fn apply_track_prompt(&mut self, action: GuiAction)
        requires
            old(self).wf(),
        ensures
            final(self).wf(),
            track_prompt_step(*old(self), *final(self), action),
    {
        proof {
            reveal(track_prompt_step);
        }
        match action {
            GuiAction::Cancel => self.mode = Mode::Normal,
            GuiAction::Confirm => {
                let before = self.snapshot();
                let text = string_from_chars(trim_chars(self.prompt_text.as_slice()).as_slice());
                let a = self.active_instrument;
                let mut inst = self.instruments.remove(a);
                inst.track_text = text;
                self.instruments.insert(a, inst);
                self.commit(before);
                self.track_sync_requested = true;
                self.mode = Mode::Normal;
            },
            GuiAction::Left | GuiAction::Right | GuiAction::InputChar(_) | GuiAction::Backspace
            | GuiAction::DeleteChar | GuiAction::TextStart | GuiAction::TextEnd => {
                self.apply_text_action(action, TextInputKind::Free);
            },
            _ => {},
        }
    }

    /// What an action does in the track settings: pick a row among tempo,
    /// scale and probe voice, and change it.
    fn apply_track_settings(&mut self, action: GuiAction, parameter: usize)
        requires
            old(self).wf(),
        ensures
            final(self).wf(),
            track_settings_step(*old(self), *final(self), action, parameter),
    {
        proof {
            reveal(track_settings_step);
        }
        let parameter = if parameter < 2 { parameter } else { 2 };
        match action {
            GuiAction::Cancel | GuiAction::TrackSettings | GuiAction::Confirm => self.mode = Mode::Normal,
            GuiAction::Down => self.mode = Mode::TrackSettings { parameter: (parameter + 1) % 3 },
            GuiAction::Up => self.mode = Mode::TrackSettings { parameter: if parameter == 0 { 2 } else { parameter - 1 } },
            GuiAction::ValueUp | GuiAction::Right => {
                if parameter == 0 {
                    self.bpm = if self.bpm >= 295 { 300 } else { self.bpm + 5 };
                } else if parameter == 1 {
                    self.scale_index = (self.scale_index + 1) % SCALE_COUNT;
                } else {
                    self.probe_voice = (self.probe_voice + 1) % NUM_VOICES;
                }
            },
            GuiAction::ValueDown | GuiAction::Left => {
                if parameter == 0 {
                    let lower = if self.bpm >= 5 { self.bpm - 5 } else { 0 };
                    self.bpm = if lower < 20 { 20 } else { lower };
                } else if parameter == 1 {
                    self.scale_index = if self.scale_index == 0 { SCALE_COUNT - 1 } else { self.scale_index - 1 };
                } else {
                    self.probe_voice = if self.probe_voice == 0 { NUM_VOICES - 1 } else { self.probe_voice - 1 };
                }
            },
            GuiAction::ValueUpFast => {
                if parameter == 0 {
                    self.bpm = if self.bpm >= 280 { 300 } else { self.bpm + 20 };
                }
            },
            GuiAction::ValueDownFast => {
                if parameter == 0 {
                    let lower = if self.bpm >= 20 { self.bpm - 20 } else { 0 };
                    self.bpm = if lower < 20 { 20 } else { lower };
                }
            },
            GuiAction::TogglePlay => self.playing = !self.playing,
            _ => {},
        }
    }

    /// What an action does while a probe is shown: change how much history
    /// it shows.
    fn apply_probe_edit(&mut self, action: GuiAction)
        requires
            old(self).wf(),
        ensures
            final(self).wf(),
            probe_edit_step(*old(self), *final(self), action),
    {
        proof {
            reveal(probe_edit_step);
        }
        match action {
            GuiAction::Cancel | GuiAction::Edit => self.mode = Mode::Normal,
            GuiAction::ValueUp | GuiAction::Right | GuiAction::Up => {
                self.probe_len = if self.probe_len >= 44100 { 88200 } else { self.probe_len * 2 };
            },
            GuiAction::ValueDown | GuiAction::Left | GuiAction::Down => {
                self.probe_len = if self.probe_len / 2 < 8 { 8 } else { self.probe_len / 2 };
            },
            GuiAction::ValueUpFast => {
                self.probe_len = if self.probe_len >= 22050 { 88200 } else { self.probe_len * 4 };
            },
            GuiAction::ValueDownFast => {
                self.probe_len = if self.probe_len / 4 < 8 { 8 } else { self.probe_len / 4 };
            },
            GuiAction::Delete => self.probe_len = 4410,
            GuiAction::TogglePlay => self.playing = !self.playing,
            _ => {},
        }
    }
}

/// The last component of a path, as `Path::file_name` gives it when it is
/// valid text.
pub uninterp spec fn path_file_name(path: Seq<char>) -> Option<Seq<char>>;

/// `std::path::Path::file_name` followed by `OsStr::to_str`: its result is
/// named, `path_file_name` of the path, and nothing more is claimed of it.
/// The two calls stand together because the type between them cannot be
/// named in the library.
#[verifier::external_body]
fn file_name_of(path: &str) -> (r: Option<&str>)
    ensures
        match r {
            Some(n) => path_file_name(path@) == Some(n@),
            None => path_file_name(path@) is None,
        },
{
    std::path::Path::new(path).file_name().and_then(|name| name.to_str())
}

/// The name a document is shown under: its file's name or `Untitled`, with
/// ` *` while it has unsaved changes.
pub open spec fn document_label_of(saved: Option<String>, dirty: bool) -> Seq<char> {
    let name = match saved {
        Some(p) => match path_file_name(p@) {
            Some(n) => n,
            None => "Untitled"@,
        },
        None => "Untitled"@,
    };
    if dirty { name + " *"@ } else { name }
}

/// Every instrument but the one edited is empty, with the default track.
pub open spec fn single_instrument(st: GuiState) -> bool {
    forall|k: int| 0 <= k < st.instruments@.len() && k != st.active_instrument ==> (#[trigger] st.instruments@[k]).root.modules@.len() == 0
        && st.instruments@[k].track_text@ == "(0/2/4/7)"@
}

/// A sample body pointed at `path`: the file counts as present, the
/// position input is kept.
pub open spec fn relinked(before: ModuleBody, after: ModuleBody, path: Seq<char>) -> bool {
    match before {
        ModuleBody::Sample { position: p0, .. } => after matches ModuleBody::Sample { file_name, file_missing, position }
            && file_name@ == path && !file_missing && position == p0,
        _ => false,
    }
}

impl GuiState {
    /// The name the document is shown under.
    pub fn document_label(&self) -> (r: String)
        ensures
            r@ == document_label_of(self.saved_path, self.dirty),
    {
        let name = match &self.saved_path {
            Some(p) => match file_name_of(p.as_str()) {
                Some(n) => n.to_owned(),
                None => "Untitled".to_owned(),
            },
            None => "Untitled".to_owned(),
        };
        let mut r = name;
        if self.dirty {
            r.append(" *");
        }
        r
    }

    /// Records how saving to `path` went: on success the path becomes the
    /// document's, the document counts as saved, and a load waiting on the
    /// save goes ahead; on failure the error is shown.
    pub fn finish_save(&mut self, path: String, result: Result<(), String>, then_load: bool)
        requires
            old(self).wf(),
        ensures
            final(self).wf(),
            result is Ok ==> {
                &&& final(self).saved_path == Some(path)
                &&& !final(self).dirty
                &&& final(self).document_status@ == "Saved "@ + document_label_of(Some(path), false)
                &&& then_load ==> final(self).mode == Mode::Normal && final(self).load_requested
                &&& !then_load ==> final(self).mode == old(self).mode && final(self).load_requested == old(self).load_requested
            },
            result matches Err(e) ==> {
                &&& final(self).document_status@ == "Save failed: "@ + e@
                &&& final(self).saved_path == old(self).saved_path
                &&& final(self).dirty == old(self).dirty
                &&& final(self).mode == old(self).mode
            },
            final(self).instruments == old(self).instruments,
    {
        match result {
            Ok(()) => {
                self.saved_path = Some(path);
                self.dirty = false;
                let label = self.document_label();
                let mut status = "Saved ".to_owned();
                status.append(label.as_str());
                self.document_status = status;
                if then_load {
                    self.mode = Mode::Normal;
                    self.load_requested = true;
                }
            },
            Err(e) => {
                let mut status = "Save failed: ".to_owned();
                status.append(e.as_str());
                self.document_status = status;
            },
        }
    }

    /// Replaces the document by a loaded one: one instrument holding `root`
    /// and `track`, the others empty. A root that does not fit the grid is
    /// refused with the reason.
    pub fn set_project(&mut self, root: PatchSurface, track: Option<String>, bpm: u16, scale_idx: usize, path: String) -> (r: Result<(), String>)
        requires
            old(self).wf(),
        ensures
            final(self).wf(),
            r is Ok <==> surface_error(root, old(self).grid_size.width, old(self).grid_size.height) is None,
            r matches Err(e) ==> *final(self) == *old(self) && surface_error(root, old(self).grid_size.width, old(self).grid_size.height) == Some(e@),
            r is Ok ==> {
                &&& final(self).active_instrument == 0
                &&& final(self).instruments@[0].root.cursor == root.cursor
                &&& same_layout(root.modules@, final(self).instruments@[0].root.modules@)
                &&& final(self).instruments@[0].track_text@ == (match track {
                    Some(t) => t@,
                    None => "(0/2/4/7)"@,
                })
                &&& forall|i: int| 1 <= i < INSTRUMENT_COUNT ==> (#[trigger] final(self).instruments@[i]).root.modules@.len() == 0
                &&& final(self).bpm == bpm
                &&& final(self).scale_index == min_int(scale_idx as int, (SCALE_COUNT - 1) as int)
                &&& final(self).next_module_id == (match max_id(root.modules@) {
                    Some(m) => if m < u32::MAX { (m + 1) as u32 } else { u32::MAX },
                    None => 0,
                })
                &&& final(self).mode == Mode::Normal
                &&& final(self).saved_path == Some(path)
                &&& final(self).exported_path is None
                &&& !final(self).dirty
                &&& final(self).undo@.len() == 0
                &&& final(self).redo@.len() == 0
                &&& final(self).patch_sync_requested
                &&& final(self).track_sync_requested
            },
    {
        match validate_surface_bounds(&root, self.grid_size.width, self.grid_size.height) {
            Err(e) => return Err(e),
            Ok(()) => {},
        }
        let next = match max_module_id(&root) {
            Some(m) => if m < u32::MAX { m + 1 } else { u32::MAX },
            None => 0,
        };
        let text = match track {
            Some(t) => t,
            None => "(0/2/4/7)".to_owned(),
        };
        let first = Instrument { root, track_text: text, editing_composition: None, composition_stack: Vec::new() };
        let mut instruments: Vec<Instrument> = Vec::new();
        instruments.push(first);
        while instruments.len() < INSTRUMENT_COUNT
            invariant
                1 <= instruments@.len() <= INSTRUMENT_COUNT,
                instruments@[0] == first,
                forall|i: int| 1 <= i < instruments@.len() ==> (#[trigger] instruments@[i]).root.modules@.len() == 0,
            decreases INSTRUMENT_COUNT - instruments@.len(),
        {
            instruments.push(Instrument::new());
        }
        self.instruments = instruments;
        self.active_instrument = 0;
        self.bpm = bpm;
        self.scale_index = if scale_idx < SCALE_COUNT - 1 { scale_idx } else { SCALE_COUNT - 1 };
        self.next_module_id = next;
        self.mode = Mode::Normal;
        self.palette_searching = false;
        self.palette_filter.clear();
        self.prompt_text.clear();
        self.prompt_cursor = 0;
        self.saved_path = Some(path);
        self.exported_path = None;
        self.dirty = false;
        self.undo.clear();
        self.redo.clear();
        self.pointer_drag = None;
        self.held_move = None;
        self.held_selection = None;
        update_all_disabled(&mut self.instruments);
        self.patch_sync_requested = true;
        self.track_sync_requested = true;
        Ok(())
    }
}

/// A change to one parameter row of a module.
#[derive(Clone, Copy, Debug, PartialEq, Eq, Structural)]
pub enum RowEdit {
    Adjust { up: bool, fast: bool },
    TogglePort,
    CycleUnit,
}

/// Whether a value can take a connection from a port.
pub open spec fn takes_port(v: ValueView) -> bool {
    v is Float || v is Time || v is Bars
}

/// What an edit makes of a parameter row; none where it changes nothing.
/// A stepped value that takes a port is no longer connected.
pub open spec fn row_edited(r: ParameterView, edit: RowEdit, step_scale: i32) -> Option<ParameterView> {
    match edit {
        RowEdit::Adjust { up, fast } => if adjust_in_range(r.value, up, fast, step_scale) && adjust_changes(
            r.value,
            up,
            fast,
            step_scale,
        ) {
            let v = adjusted(r.value, up, fast, step_scale);
            Some(ParameterView { name: r.name, value: v, connected: if takes_port(v) { false } else { r.connected } })
        } else {
            None
        },
        RowEdit::TogglePort => if takes_port(r.value) {
            Some(ParameterView { name: r.name, value: r.value, connected: !r.connected })
        } else {
            None
        },
        RowEdit::CycleUnit => if r.value is Time || r.value is Bars {
            Some(ParameterView { name: r.name, value: cycled(r.value), connected: r.connected })
        } else {
            None
        },
    }
}

/// What an edit of row `p` of module `index` of the surface being edited
/// makes of that row; none where nothing changes.
pub open spec fn module_row_edit(st: GuiState, index: int, p: int, edit: RowEdit) -> Option<ParameterView> {
    let m = st.surface().modules@[index];
    if row_writable(m.body, p) {
        row_edited(body_rows(m.body)[p], edit, step_scale_of(st.step_size))
    } else {
        None
    }
}

/// `b` is `a` after row `p` of module `index` of the surface being edited
/// became `r`: the rest of the module and the other modules stay, up to
/// disabled flags.
pub open spec fn row_written(a: GuiState, b: GuiState, index: int, p: usize, r: ParameterView) -> bool {
    let ms = a.surface().modules@;
    let m = ms[index];
    &&& b.surface().cursor == a.surface().cursor
    &&& exists|body: ModuleBody| #[trigger] body_set_relation(m.body, body, p, r) && same_layout(
        ms.update(index, Module { id: m.id, position: m.position, orientation: m.orientation, body, disabled: m.disabled }),
        b.surface().modules@,
    )
}

/// The row that confirming a typed value writes into row `parameter` of
/// `module`, with the module's index: the text typed, trimmed, read as the
/// row's kind of value and no longer connected; none where the module or
/// row is missing, a number's range is empty, the text does not read, or
/// the row would stay as it is.
pub open spec fn typed_row_edit(st: GuiState, module: ModuleId, parameter: usize, scaled: Option<i32>) -> Option<(int, ParameterView)> {
    let ms = st.surface().modules@;
    match first_module_index(ms, module) {
        None => None,
        Some(i) => {
            let m = ms[i];
            if row_writable(m.body, parameter as int) {
                let r = body_rows(m.body)[parameter as int];
                let well_bounded = match r.value {
                    ValueView::Float { min, max, .. } => min <= max,
                    _ => true,
                };
                if !well_bounded {
                    None
                } else {
                    match typed_value(r.value, trimmed(st.prompt_text@), scaled) {
                        Some(v) => if v == r.value && !r.connected {
                            None
                        } else {
                            Some((i, ParameterView { name: r.name, value: v, connected: false }))
                        },
                        None => None,
                    }
                }
            } else {
                None
            }
        },
    }
}

/// `b` is `a` after the edit of row `p` of module `index`: unchanged where
/// the edit changes nothing, else with the edited row written.
pub open spec fn row_edit_done(a: GuiState, b: GuiState, index: int, p: usize, edit: RowEdit) -> bool {
    match module_row_edit(a, index, p as int, edit) {
        None => b == a,
        Some(r) => row_written(a, b, index, p, r) && recorded(a, b),
    }
}

/// The actions that step a parameter's value.
pub open spec fn is_value_step(action: GuiAction) -> bool {
    ||| action == GuiAction::ValueDown
    ||| action == GuiAction::ValueUp
    ||| action == GuiAction::ValueDownFast
    ||| action == GuiAction::ValueUpFast
    ||| action == GuiAction::Left
    ||| action == GuiAction::Right
    ||| action == GuiAction::LeftFast
    ||| action == GuiAction::RightFast
}

/// The step a value-stepping action makes: upward or not, fast or not.
pub open spec fn value_step_edit(action: GuiAction) -> RowEdit {
    RowEdit::Adjust {
        up: action == GuiAction::ValueUp || action == GuiAction::ValueUpFast || action == GuiAction::Right
            || action == GuiAction::RightFast,
        fast: action == GuiAction::ValueDownFast || action == GuiAction::ValueUpFast || action == GuiAction::LeftFast
            || action == GuiAction::RightFast,
    }
}

/// Whether stepping a value stays within `i32`.
fn adjust_fits(v: &ParameterValue, up: bool, fast: bool, step_scale: i32) -> (r: bool)
    requires
        1 <= step_scale <= 25,
    ensures
        r == adjust_in_range(v@, up, fast, step_scale),
{
    let f: i64 = if fast { 10 } else { 1 };
    let lo: i64 = -2147483648;
    let hi: i64 = 2147483647;
    match v {
        ParameterValue::Float { value, step, .. } => {
            let scale = f * step_scale as i64;
            assert(-2147483648 * 250 <= (*step as i64) * scale <= 2147483647 * 250) by (nonlinear_arith)
                requires
                    1 <= scale <= 250,
                    -2147483648 <= *step as i64 <= 2147483647,
            ;
            let delta = *step as i64 * scale;
            let next = if up { *value as i64 + delta } else { *value as i64 - delta };
            lo <= delta && delta <= hi && lo <= next && next <= hi
        },
        ParameterValue::Int { value, .. } => {
            let next = if up { *value as i64 + f } else { *value as i64 - f };
            lo <= next && next <= hi
        },
        ParameterValue::Time { value, .. } => {
            let delta = f * step_scale as i64;
            let next = if up { *value as i64 + delta } else { *value as i64 - delta };
            lo <= next && next <= hi
        },
        ParameterValue::Bars { numerator, denominator } => {
            if !up && *numerator <= 1 && *denominator < 64 {
                *denominator as i64 * 2 <= hi && *denominator as i64 * 2 >= lo
            } else {
                true
            }
        },
        ParameterValue::Enum { index, .. } => !up || *index < usize::MAX,
        _ => true,
    }
}

/// Whether a value is a port that can also be fed a signal.
pub open spec fn signal_port(v: ValueView) -> bool {
    v is Float || v is Time || v is Bars
}

impl GuiState {
    /// Changes row `p` of module `index` of the surface being edited and
    /// records the edit when it changed anything.
    #[verifier::spinoff_prover]
    #[verifier::rlimit(60)]
    fn edit_row(&mut self, index: usize, p: usize, edit: RowEdit)
        requires
            old(self).wf(),
            index < old(self).surface().modules@.len(),
        ensures
            final(self).wf(),
            final(self).mode == old(self).mode,
            final(self).active_instrument == old(self).active_instrument,
            others_same(*old(self), *final(self)),
            row_edit_done(*old(self), *final(self), index as int, p, edit),
    {
        let step_scale = self.step_scale();
        let m = &self.modules()[index];
        if !row_writable_check(&m.body, p) {
            return;
        }
        let mut row = match m.parameter(p) {
            Some(row) => row,
            None => return,
        };
        let ghost r0 = row@;
        let ghost expected = row_edited(r0, edit, step_scale);
        assert(expected == module_row_edit(*self, index as int, p as int, edit));
        let changed = match edit {
            RowEdit::Adjust { up, fast } => {
                if !adjust_fits(&row.value, up, fast, step_scale) {
                    return;
                }
                let changed = row.value.adjust(up, fast, step_scale);
                let port = match &row.value {
                    ParameterValue::Float { .. } | ParameterValue::Time { .. } | ParameterValue::Bars { .. } => true,
                    _ => false,
                };
                assert(port == takes_port(row.value@));
                if changed && port {
                    row.connected = false;
                }
                changed
            },
            RowEdit::TogglePort => {
                match &row.value {
                    ParameterValue::Float { .. } | ParameterValue::Time { .. } | ParameterValue::Bars { .. } => {
                        row.connected = !row.connected;
                        true
                    },
                    _ => false,
                }
            },
            RowEdit::CycleUnit => row.value.cycle_unit(),
        };
        assert(changed ==> expected == Some(row@));
        assert(!changed ==> expected is None);
        if !changed {
            return;
        }
        let before = self.snapshot();
        let ghost ms = self.surface().modules@;
        proof {
            crate::body::lemma_row_writable(ms[index as int].body, p, row@);
        }
        self.set_module_row(index, p, row);
        let ghost mid = *self;
        self.commit(before);
        proof {
            lemma_commit_recorded(*old(self), mid, *self, before);
            lemma_surface_layout(mid, *self);
            let m = ms[index as int];
            let nb = mid.surface().modules@[index as int].body;
            let upd = ms.update(index as int, Module { id: m.id, position: m.position, orientation: m.orientation, body: nb, disabled: m.disabled });
            assert(upd =~= mid.surface().modules@);
            assert(body_set_relation(m.body, nb, p, row@));
            assert(row_written(*old(self), *self, index as int, p, row@));
        }
    }

    /// Writes a parameter row into module `index` of the surface being edited.
    fn set_module_row(&mut self, index: usize, p: usize, row: ModuleParameter)
        requires
            old(self).wf(),
            index < old(self).surface().modules@.len(),
            row_bounds_ok(old(self).surface().modules@[index as int].body, p, row@),
        ensures
            final(self).wf(),
            final(self).surface().cursor == old(self).surface().cursor,
            final(self).surface().modules@.len() == old(self).surface().modules@.len(),
            forall|k: int| 0 <= k < old(self).surface().modules@.len() && k != index ==> #[trigger] final(self).surface().modules@[k] == old(self).surface().modules@[k],
            final(self).surface().modules@[index as int].id == old(self).surface().modules@[index as int].id,
            final(self).surface().modules@[index as int].position == old(self).surface().modules@[index as int].position,
            final(self).surface().modules@[index as int].orientation == old(self).surface().modules@[index as int].orientation,
            final(self).surface().modules@[index as int].disabled == old(self).surface().modules@[index as int].disabled,
            body_set_relation(old(self).surface().modules@[index as int].body, final(self).surface().modules@[index as int].body, p, row@),
            final(self).dirty == old(self).dirty,
            final(self).mode == old(self).mode,
            final(self).active_instrument == old(self).active_instrument,
            final(self).next_module_id == old(self).next_module_id,
            others_same(*old(self), *final(self)),
            final(self).undo == old(self).undo,
            final(self).redo == old(self).redo,
    {
        let ghost start = self.instrument();
        let mut s = self.take_surface();
        let mut m = s.modules.remove(index);
        let _ = m.set_parameter(p, row);
        s.modules.insert(index, m);
        self.put_surface(s, Ghost(start));
    }

    /// What an action does while a module's parameters are edited.
    #[verifier::spinoff_prover]
    #[verifier::rlimit(80)]
    fn apply_edit(&mut self, action: GuiAction, module: ModuleId, parameter: usize)
        requires
            old(self).wf(),
        ensures
            final(self).wf(),
            edit_step(*old(self), *final(self), action, module, parameter),
    {
        proof {
            reveal(edit_step);
        }
        let index = match find_module(&self.instruments[self.active_instrument].surface().modules, module) {
            Some(i) => i,
            None => {
                self.mode = Mode::Normal;
                return;
            },
        };
        let m = &self.modules()[index];
        let count = m.parameter_count();
        let special = m.kind().special_editor();
        let total = if special.is_some() { count + 1 } else { count };
        if total == 0 {
            self.mode = Mode::Normal;
            return;
        }
        let parameter = if parameter < total - 1 { parameter } else { total - 1 };
        match action {
            GuiAction::Cancel | GuiAction::Edit => self.mode = Mode::Normal,
            GuiAction::Confirm => {
                if parameter == count {
                    match special {
                        Some(SpecialEditor::Adsr) => self.mode = Mode::AdsrEdit { module, parameter: 0 },
                        Some(SpecialEditor::Envelope) => self.mode = Mode::EnvEdit { module, point: 0, editing: false },
                        Some(SpecialEditor::Probe) => self.mode = Mode::ProbeEdit { module },
                        Some(SpecialEditor::Sample) => self.mode = Mode::SampleView { module, zoom: 1, offset: 0 },
                        None => {},
                    }
                }
            },
            GuiAction::Down => self.mode = Mode::Edit { module, parameter: (parameter + 1) % total },
            GuiAction::Up => self.mode = Mode::Edit { module, parameter: if parameter == 0 { total - 1 } else { parameter - 1 } },
            GuiAction::ValueDown | GuiAction::ValueUp | GuiAction::ValueDownFast | GuiAction::ValueUpFast
            | GuiAction::Left | GuiAction::Right | GuiAction::LeftFast | GuiAction::RightFast => {
                if parameter >= count {
                    return;
                }
                let up = match action {
                    GuiAction::ValueUp | GuiAction::ValueUpFast | GuiAction::Right | GuiAction::RightFast => true,
                    _ => false,
                };
                let fast = match action {
                    GuiAction::ValueDownFast | GuiAction::ValueUpFast | GuiAction::LeftFast | GuiAction::RightFast => true,
                    _ => false,
                };
                self.edit_row(index, parameter, RowEdit::Adjust { up, fast });
            },
            GuiAction::TogglePort => {
                if parameter < count {
                    self.edit_row(index, parameter, RowEdit::TogglePort);
                }
            },
            GuiAction::CycleUnit => {
                if parameter < count {
                    self.edit_row(index, parameter, RowEdit::CycleUnit);
                }
            },
            GuiAction::CycleStep => self.step_size = (self.step_size + 1) % 5,
            GuiAction::TypeValue => {
                if parameter < count {
                    match m.parameter(parameter) {
                        Some(row) => {
                            if row.value.accepts_typed_value() {
                                let text = chars_of(row.value.input_text().as_str());
                                self.open_prompt(Mode::ValueInput { module, parameter }, text);
                            }
                        },
                        None => {},
                    }
                }
            },
            GuiAction::TogglePlay => self.playing = !self.playing,
            _ => {},
        }
    }
}

/// Compares two parameter values by what they hold.
fn values_equal(a: &ParameterValue, b: &ParameterValue) -> (r: bool)
    ensures
        r == (a@ == b@),
{
    match (a, b) {
        (ParameterValue::Float { value: v1, min: n1, max: x1, step: s1 }, ParameterValue::Float { value: v2, min: n2, max: x2, step: s2 }) => {
            *v1 == *v2 && *n1 == *n2 && *x1 == *x2 && *s1 == *s2
        },
        (ParameterValue::Int { value: v1, min: n1, max: x1 }, ParameterValue::Int { value: v2, min: n2, max: x2 }) => {
            *v1 == *v2 && *n1 == *n2 && *x1 == *x2
        },
        (ParameterValue::Time { value: v1, unit: u1 }, ParameterValue::Time { value: v2, unit: u2 }) => *v1 == *v2 && *u1 == *u2,
        (ParameterValue::Bars { numerator: a1, denominator: d1 }, ParameterValue::Bars { numerator: a2, denominator: d2 }) => {
            *a1 == *a2 && *d1 == *d2
        },
        (ParameterValue::Input, ParameterValue::Input) => true,
        (ParameterValue::File { path: p1, missing: m1 }, ParameterValue::File { path: p2, missing: m2 }) => *p1 == *p2 && *m1 == *m2,
        (ParameterValue::Enum { index: i1, options: o1 }, ParameterValue::Enum { index: i2, options: o2 }) => {
            *i1 == *i2 && strings_equal(o1, o2)
        },
        (ParameterValue::Text(t1), ParameterValue::Text(t2)) => *t1 == *t2,
        _ => false,
    }
}

/// The kind of text a parameter's prompt takes: times for times and bar
/// fractions, free text for text, numbers otherwise.
pub open spec fn input_kind_for(v: Option<ValueView>) -> TextInputKind {
    match v {
        Some(ValueView::Time { .. }) | Some(ValueView::Bars { .. }) => TextInputKind::Time,
        Some(ValueView::Text(_)) => TextInputKind::Free,
        _ => TextInputKind::Number,
    }
}

impl GuiState {
    /// The value row `p` of module `module` shows, if there is one.
    pub open spec fn row_value(self, module: ModuleId, p: usize) -> Option<ValueView> {
        let ms = self.surface().modules@;
        match first_module_index(ms, module) {
            Some(i) => if p < body_rows(ms[i].body).len() { Some(body_rows(ms[i].body)[p as int].value) } else { None },
            None => None,
        }
    }

    fn text_input_kind(&self, module: ModuleId, parameter: usize) -> (r: TextInputKind)
        requires
            self.wf(),
        ensures
            r == input_kind_for(self.row_value(module, parameter)),
    {
        match find_module(&self.instruments[self.active_instrument].surface().modules, module) {
            Some(i) => match self.modules()[i].parameter(parameter) {
                Some(row) => match row.value {
                    ParameterValue::Time { .. } | ParameterValue::Bars { .. } => TextInputKind::Time,
                    ParameterValue::Text(_) => TextInputKind::Free,
                    _ => TextInputKind::Number,
                },
                None => TextInputKind::Number,
            },
            None => TextInputKind::Number,
        }
    }

    /// Writes the typed value into a parameter row when the text gives one
    /// that differs from the row's; tells whether it did.
    fn set_typed_value(&mut self, module: ModuleId, parameter: usize, scaled: Option<i32>) -> (r: bool)
        requires
            old(self).wf(),
        ensures
            final(self).wf(),
            final(self).mode == old(self).mode,
            final(self).active_instrument == old(self).active_instrument,
            others_same(*old(self), *final(self)),
            match typed_row_edit(*old(self), module, parameter, scaled) {
                None => !r && *final(self) == *old(self),
                Some((i, row)) => r && row_written(*old(self), *final(self), i, parameter, row) && recorded(*old(self), *final(self)),
            },
    {
        let index = match find_module(&self.instruments[self.active_instrument].surface().modules, module) {
            Some(i) => i,
            None => return false,
        };
        let m = &self.modules()[index];
        if !row_writable_check(&m.body, parameter) {
            return false;
        }
        let mut row = match m.parameter(parameter) {
            Some(row) => row,
            None => return false,
        };
        let well_bounded = match &row.value {
            ParameterValue::Float { min, max, .. } => *min <= *max,
            _ => true,
        };
        if !well_bounded {
            return false;
        }
        let text = string_from_chars(trim_chars(self.prompt_text.as_slice()).as_slice());
        let value = match typed_parameter_value(&row.value, text.as_str(), scaled) {
            Some(v) => v,
            None => return false,
        };
        if values_equal(&row.value, &value) && !row.connected {
            return false;
        }
        row.value = value;
        row.connected = false;
        assert(typed_row_edit(*self, module, parameter, scaled) == Some((index as int, row@)));
        let snapshot = self.snapshot();
        let ghost ms = self.surface().modules@;
        proof {
            crate::body::lemma_row_writable(ms[index as int].body, parameter, row@);
        }
        self.set_module_row(index, parameter, row);
        let ghost mid = *self;
        self.commit(snapshot);
        proof {
            lemma_commit_recorded(*old(self), mid, *self, snapshot);
            lemma_surface_layout(mid, *self);
            let m = ms[index as int];
            let nb = mid.surface().modules@[index as int].body;
            let upd = ms.update(index as int, Module { id: m.id, position: m.position, orientation: m.orientation, body: nb, disabled: m.disabled });
            assert(upd =~= mid.surface().modules@);
            assert(body_set_relation(m.body, nb, parameter, row@));
            assert(row_written(*old(self), *self, index as int, parameter, row@));
        }
        true
    }

    /// What an action does while a value is typed.
    fn apply_value_input(&mut self, action: GuiAction, module: ModuleId, parameter: usize, scaled: Option<i32>)
        requires
            old(self).wf(),
        ensures
            final(self).wf(),
            value_input_step(*old(self), *final(self), action, module, parameter, scaled),
    {
        proof {
            reveal(value_input_step);
        }
        match action {
            GuiAction::Cancel => self.mode = Mode::Edit { module, parameter },
            GuiAction::Confirm => {
                let _ = self.set_typed_value(module, parameter, scaled);
                let ghost mid = *self;
                self.mode = Mode::Edit { module, parameter };
                proof {
                    if typed_row_edit(*old(self), module, parameter, scaled) is Some {
                        lemma_recorded_frame(*old(self), mid, *self);
                    }
                }
            },
            GuiAction::Left | GuiAction::Right | GuiAction::InputChar(_) | GuiAction::Backspace
            | GuiAction::DeleteChar | GuiAction::TextStart | GuiAction::TextEnd => {
                let kind = self.text_input_kind(module, parameter);
                self.apply_text_action(action, kind);
            },
            _ => {},
        }
    }
}

/// The sample view after an action: zoom in or out between 1 and 64, scroll
/// by a tenth of the visible part, or reset; the offset stays within the
/// part of the sample the zoom leaves hidden.
pub open spec fn sample_view_after(zoom: u16, offset: u16, action: GuiAction) -> (int, int) {
    let z = max_int(zoom as int, 1);
    match action {
        GuiAction::ValueUp | GuiAction::Up => {
            let nz = min_int(zoom * 2, 64);
            (nz, min_int(offset as int, sat_sub(100, 100int / max_int(nz, 1))))
        },
        GuiAction::ValueDown | GuiAction::Down => {
            let nz = max_int((zoom / 2) as int, 1);
            (nz, min_int(offset as int, sat_sub(100, 100int / nz)))
        },
        GuiAction::Left => (zoom as int, sat_sub(offset as int, max_int(10int / z, 1))),
        GuiAction::Right => (zoom as int, min_int(offset + max_int(10int / z, 1), sat_sub(100, 100int / z))),
        GuiAction::Delete => (1, 0),
        _ => (zoom as int, offset as int),
    }
}

impl GuiState {
    /// What an action does in the sample view.
    fn apply_sample_view(&mut self, action: GuiAction, module: ModuleId, zoom: u16, offset: u16)
        requires
            old(self).wf(),
        ensures
            final(self).wf(),
            sample_view_step(*old(self), *final(self), action, module, zoom, offset),
    {
        proof {
            reveal(sample_view_step);
        }
        let z: u32 = if zoom >= 1 { zoom as u32 } else { 1 };
        match action {
            GuiAction::Cancel | GuiAction::Edit => self.mode = Mode::Normal,
            GuiAction::ValueUp | GuiAction::Up => {
                let nz: u32 = if zoom as u32 * 2 >= 64 { 64 } else { zoom as u32 * 2 };
                let d: u32 = if nz >= 1 { nz } else { 1 };
                let max_offset: u32 = if 100 / d <= 100 { 100 - 100 / d } else { 0 };
                let o: u32 = if (offset as u32) <= max_offset { offset as u32 } else { max_offset };
                self.mode = Mode::SampleView { module, zoom: nz as u16, offset: o as u16 };
            },
            GuiAction::ValueDown | GuiAction::Down => {
                let nz: u32 = if zoom as u32 / 2 >= 1 { zoom as u32 / 2 } else { 1 };
                let max_offset: u32 = 100 - 100 / nz;
                let o: u32 = if (offset as u32) <= max_offset { offset as u32 } else { max_offset };
                self.mode = Mode::SampleView { module, zoom: nz as u16, offset: o as u16 };
            },
            GuiAction::Left => {
                let step: u32 = if 10 / z >= 1 { 10 / z } else { 1 };
                let o: u32 = if offset as u32 >= step { offset as u32 - step } else { 0 };
                self.mode = Mode::SampleView { module, zoom, offset: o as u16 };
            },
            GuiAction::Right => {
                let step: u32 = if 10 / z >= 1 { 10 / z } else { 1 };
                let max_offset: u32 = 100 - 100 / z;
                let o: u32 = if offset as u32 + step <= max_offset { offset as u32 + step } else { max_offset };
                self.mode = Mode::SampleView { module, zoom, offset: o as u16 };
            },
            GuiAction::Delete => self.mode = Mode::SampleView { module, zoom: 1, offset: 0 },
            GuiAction::TogglePlay => self.playing = !self.playing,
            _ => {},
        }
    }

    /// What an action does in the attack and sustain editor of an envelope
    /// generator: pick attack or sustain, and move it by five hundredths or
    /// to an end of its range.
    #[verifier::spinoff_prover]
    #[verifier::rlimit(60)]
    fn apply_adsr_edit(&mut self, action: GuiAction, module: ModuleId, parameter: usize)
        requires
            old(self).wf(),
        ensures
            final(self).wf(),
            adsr_edit_step(*old(self), *final(self), action, module, parameter),
    {
        proof {
            reveal(adsr_edit_step);
        }
        let index = match find_module(&self.instruments[self.active_instrument].surface().modules, module) {
            Some(i) => i,
            None => {
                self.mode = Mode::Normal;
                return;
            },
        };
        let parameter = if parameter < 1 { parameter } else { 1 };
        match action {
            GuiAction::Cancel | GuiAction::Edit => self.mode = Mode::Normal,
            GuiAction::Down => self.mode = Mode::AdsrEdit { module, parameter: (parameter + 1) % 2 },
            GuiAction::Up => self.mode = Mode::AdsrEdit { module, parameter: if parameter == 0 { 1 } else { 0 } },
            GuiAction::ValueUp | GuiAction::ValueDown | GuiAction::ValueUpFast | GuiAction::ValueDownFast => {
                let m = &self.modules()[index];
                if !row_writable_check(&m.body, parameter + 2) {
                    return;
                }
                let mut row = match m.parameter(parameter + 2) {
                    Some(row) => row,
                    None => return,
                };
                let ghost r0 = row@;
                let ghost expected = level_row_edit(*self, index as int, parameter as int, action);
                let changed = match row.value {
                    ParameterValue::Float { value, min, max, step } => {
                        let next: i64 = match action {
                            GuiAction::ValueUp => if value as i64 + 5 <= max as i64 { value as i64 + 5 } else { max as i64 },
                            GuiAction::ValueDown => if value as i64 - 5 >= min as i64 { value as i64 - 5 } else { min as i64 },
                            GuiAction::ValueUpFast => max as i64,
                            _ => min as i64,
                        };
                        let next32: i32 = if next < -2147483648 { -2147483648 } else if next > 2147483647 { 2147483647 } else { next as i32 };
                        row.value = ParameterValue::Float { value: next32, min, max, step };
                        next32 != value
                    },
                    _ => false,
                };
                assert(changed ==> expected == Some(row@));
                assert(!changed ==> expected is None);
                if changed {
                    let before = self.snapshot();
                    let ghost ms = self.surface().modules@;
                    proof {
                        crate::body::lemma_row_writable(ms[index as int].body, (parameter + 2) as usize, row@);
                    }
                    self.set_module_row(index, parameter + 2, row);
                    let ghost mid = *self;
                    self.commit(before);
                    proof {
                        lemma_commit_recorded(*old(self), mid, *self, before);
                        lemma_surface_layout(mid, *self);
                        let m = ms[index as int];
                        let nb = mid.surface().modules@[index as int].body;
                        let upd = ms.update(index as int, Module { id: m.id, position: m.position, orientation: m.orientation, body: nb, disabled: m.disabled });
                        assert(upd =~= mid.surface().modules@);
                        assert(body_set_relation(m.body, nb, (parameter + 2) as usize, row@));
                        assert(row_written(*old(self), *self, index as int, (parameter + 2) as usize, row@));
                    }
                }
            },
            GuiAction::TogglePlay => self.playing = !self.playing,
            _ => {},
        }
    }
}

/// Where a module goes when asked to be at `(x, y)`: the nearest place that
/// keeps it on the grid; none when it is larger than the grid.
pub open spec fn bounded_position(m: Module, grid: GridSize, x: int, y: int) -> Option<GridPos> {
    if grid_width(m) > grid.width || grid_height(m) > grid.height {
        None
    } else {
        Some(GridPos {
            x: clamp_int(x, 0, grid.width - grid_width(m)) as u16,
            y: clamp_int(y, 0, grid.height - grid_height(m)) as u16,
        })
    }
}

/// A module moved to another place.
pub open spec fn moved_to(m: Module, p: GridPos) -> Module {
    Module { id: m.id, position: p, orientation: m.orientation, body: m.body, disabled: m.disabled }
}

/// The cells of a selection: the rectangle its two corners span.
pub open spec fn selection_of(mode: Mode, cursor: GridPos) -> Option<(GridPos, GridPos)> {
    match mode {
        Mode::Select { anchor } => Some((anchor, cursor)),
        Mode::SelectMove { anchor, extent, .. } => Some((anchor, extent)),
        Mode::CopySelection { anchor, extent, .. } => Some((anchor, extent)),
        _ => None,
    }
}

/// Whether a module shares a cell with the rectangle two corners span.
pub open spec fn in_rect(m: Module, a: GridPos, b: GridPos) -> bool {
    let lx = min_int(a.x as int, b.x as int);
    let hx = max_int(a.x as int, b.x as int);
    let ly = min_int(a.y as int, b.y as int);
    let hy = max_int(a.y as int, b.y as int);
    m.position.x < hx + 1 && m.position.x + grid_width(m) > lx && m.position.y < hy + 1 && m.position.y + grid_height(m) > ly
}

/// The ids of the modules of a list that meet a rectangle, in order.
pub open spec fn ids_in_rect(ms: Seq<Module>, a: GridPos, b: GridPos) -> Seq<ModuleId>
    decreases ms.len(),
{
    if ms.len() == 0 {
        Seq::empty()
    } else {
        let rest = ids_in_rect(ms.drop_last(), a, b);
        if in_rect(ms.last(), a, b) { rest.push(ms.last().id) } else { rest }
    }
}

/// A module list without the modules whose ids are listed.
pub open spec fn without_ids(ms: Seq<Module>, ids: Seq<ModuleId>) -> Seq<Module>
    decreases ms.len(),
{
    if ms.len() == 0 {
        ms
    } else {
        let rest = without_ids(ms.drop_last(), ids);
        if ids.contains(ms.last().id) { rest } else { rest.push(ms.last()) }
    }
}

fn ids_contain(ids: &Vec<ModuleId>, id: ModuleId) -> (r: bool)
    ensures
        r == ids@.contains(id),
{
    let mut i: usize = 0;
    while i < ids.len()
        invariant
            i <= ids@.len(),
            forall|k: int| 0 <= k < i ==> ids@[k] != id,
        decreases ids@.len() - i,
    {
        if ids[i] == id {
            return true;
        }
        i = i + 1;
    }
    false
}

fn without_ids_vec(ms: Vec<Module>, ids: &Vec<ModuleId>) -> (r: Vec<Module>)
    ensures
        r@ == without_ids(ms@, ids@),
{
    let ghost orig = ms@;
    let mut src = ms;
    let mut kept: Vec<Module> = Vec::new();
    while src.len() > 0
        invariant
            src@.len() <= orig.len(),
            src@ == orig.subrange(orig.len() - src@.len(), orig.len() as int),
            kept@ == without_ids(orig.take(orig.len() - src@.len()), ids@),
        decreases src@.len(),
    {
        let ghost k = orig.len() - src@.len();
        let m = src.remove(0);
        assert(m == orig[k]);
        assert(orig.take(k + 1).drop_last() =~= orig.take(k));
        assert(orig.take(k + 1).last() == orig[k]);
        if !ids_contain(ids, m.id) {
            kept.push(m);
        }
        assert(src@ =~= orig.subrange(orig.len() - src@.len(), orig.len() as int));
    }
    assert(orig.take(orig.len() as int) =~= orig);
    kept
}

impl GuiState {
    /// Where a module goes when asked to be at `(x, y)`.
    fn bounded_module_position(&self, m: &Module, x: i32, y: i32) -> (r: Option<GridPos>)
        ensures
            r == bounded_position(*m, self.grid_size, x as int, y as int),
    {
        let w = module_width(m);
        let h = module_height(m);
        if w > self.grid_size.width || h > self.grid_size.height {
            return None;
        }
        let max_x = (self.grid_size.width - w) as i32;
        let max_y = (self.grid_size.height - h) as i32;
        Some(GridPos::new(clamp_i32(x, 0, max_x) as u16, clamp_i32(y, 0, max_y) as u16))
    }

    /// Moves module `j` of the surface being edited to `p`.
    fn set_position(&mut self, j: usize, p: GridPos)
        requires
            old(self).wf(),
            j < old(self).surface().modules@.len(),
        ensures
            final(self).wf(),
            final(self).surface().cursor == old(self).surface().cursor,
            final(self).surface().modules@ == old(self).surface().modules@.update(j as int, moved_to(old(self).surface().modules@[j as int], p)),
            final(self).active_instrument == old(self).active_instrument,
            final(self).mode == old(self).mode,
            final(self).next_module_id == old(self).next_module_id,
            others_same(*old(self), *final(self)),
            final(self).undo == old(self).undo,
            final(self).redo == old(self).redo,
    {
        let ghost start = self.instrument();
        let ghost old_ms = self.surface().modules@;
        let mut s = self.take_surface();
        let mut t = s.modules.remove(j);
        t.position = p;
        s.modules.insert(j, t);
        assert(s.modules@ =~= old_ms.update(j as int, moved_to(old_ms[j as int], p)));
        self.put_surface(s, Ghost(start));
    }

    /// The ids of the selected modules, in order.
    pub fn selected_modules(&self) -> (r: Vec<ModuleId>)
        requires
            self.wf(),
        ensures
            r@ == (match selection_of(self.mode, self.surface().cursor) {
                Some((a, b)) => ids_in_rect(self.surface().modules@, a, b),
                None => Seq::empty(),
            }),
    {
        let (a, b) = match self.mode {
            Mode::Select { anchor } => (anchor, self.cursor()),
            Mode::SelectMove { anchor, extent, .. } => (anchor, extent),
            Mode::CopySelection { anchor, extent, .. } => (anchor, extent),
            _ => return Vec::new(),
        };
        let lx = if a.x <= b.x { a.x } else { b.x };
        let hx = if a.x >= b.x { a.x } else { b.x };
        let ly = if a.y <= b.y { a.y } else { b.y };
        let hy = if a.y >= b.y { a.y } else { b.y };
        let ms = self.modules();
        let mut r: Vec<ModuleId> = Vec::new();
        let mut i: usize = 0;
        while i < ms.len()
            invariant
                i <= ms@.len(),
                r@ == ids_in_rect(ms@.take(i as int), a, b),
                lx == min_int(a.x as int, b.x as int),
                hx == max_int(a.x as int, b.x as int),
                ly == min_int(a.y as int, b.y as int),
                hy == max_int(a.y as int, b.y as int),
            decreases ms@.len() - i,
        {
            let m = &ms[i];
            assert(ms@.take(i + 1).drop_last() =~= ms@.take(i as int));
            assert(ms@.take(i + 1).last() == ms@[i as int]);
            let w = module_width(m) as u32;
            let h = module_height(m) as u32;
            if (m.position.x as u32) < hx as u32 + 1 && m.position.x as u32 + w > lx as u32 && (m.position.y as u32) < hy as u32 + 1
                && m.position.y as u32 + h > ly as u32 {
                r.push(m.id);
            }
            i = i + 1;
        }
        assert(ms@.take(i as int) =~= ms@);
        r
    }

    /// What an action does while a module is being moved.
    #[verifier::spinoff_prover]
    #[verifier::rlimit(40)]
    fn apply_move(&mut self, action: GuiAction, module: ModuleId, origin: GridPos)
        requires
            old(self).wf(),
        ensures
            final(self).wf(),
            move_step(*old(self), *final(self), action, module, origin),
    {
        proof {
            reveal(move_step);
        }
        match action {
            GuiAction::Left => self.move_cursor(-1, 0),
            GuiAction::Down => self.move_cursor(0, 1),
            GuiAction::Up => self.move_cursor(0, -1),
            GuiAction::Right => self.move_cursor(1, 0),
            GuiAction::LeftFast => self.move_cursor(-4, 0),
            GuiAction::DownFast => self.move_cursor(0, 4),
            GuiAction::UpFast => self.move_cursor(0, -4),
            GuiAction::RightFast => self.move_cursor(4, 0),
            GuiAction::Confirm | GuiAction::Move | GuiAction::Copy => {
                if self.held_move.is_some() {
                    self.put_down_held_move();
                    self.mode = Mode::Normal;
                    return;
                }
                let cursor = self.cursor();
                let j = match find_module(&self.instruments[self.active_instrument].surface().modules, module) {
                    Some(j) => j,
                    None => {
                        self.mode = Mode::Normal;
                        return;
                    },
                };
                let m = &self.modules()[j];
                let target = match self.bounded_module_position(
                    m,
                    m.position.x as i32 + cursor.x as i32 - origin.x as i32,
                    m.position.y as i32 + cursor.y as i32 - origin.y as i32,
                ) {
                    Some(p) => p,
                    None => m.position,
                };
                let before = self.snapshot();
                self.set_position(j, target);
                let ghost mid = *self;
                self.commit(before);
                proof {
                    lemma_surface_layout(mid, *self);
                }
                self.mode = Mode::Normal;
            },
            GuiAction::Cancel => {
                if self.held_move.is_some() {
                    self.put_back_held_move();
                    self.mode = Mode::Normal;
                    return;
                }
                self.set_surface_cursor(origin);
                self.mode = Mode::Normal;
            },
            GuiAction::EditComposition => self.move_across_composition(module, origin),
            _ => {},
        }
    }

    /// What an action does while a module is being copied.
    #[verifier::spinoff_prover]
    #[verifier::rlimit(40)]
    fn apply_copy(&mut self, action: GuiAction, source: ModuleId)
        requires
            old(self).wf(),
        ensures
            final(self).wf(),
            copy_step(*old(self), *final(self), action, source),
    {
        proof {
            reveal(copy_step);
        }
        match action {
            GuiAction::Left => self.move_cursor(-1, 0),
            GuiAction::Down => self.move_cursor(0, 1),
            GuiAction::Up => self.move_cursor(0, -1),
            GuiAction::Right => self.move_cursor(1, 0),
            GuiAction::LeftFast => self.move_cursor(-4, 0),
            GuiAction::DownFast => self.move_cursor(0, 4),
            GuiAction::UpFast => self.move_cursor(0, -4),
            GuiAction::RightFast => self.move_cursor(4, 0),
            GuiAction::Confirm | GuiAction::Move | GuiAction::Copy => {
                let cursor = self.cursor();
                let j = match find_module(&self.instruments[self.active_instrument].surface().modules, source) {
                    Some(j) => j,
                    None => {
                        self.mode = Mode::Normal;
                        return;
                    },
                };
                let m = &self.modules()[j];
                let position = match self.bounded_module_position(m, cursor.x as i32, cursor.y as i32) {
                    Some(p) => p,
                    None => cursor,
                };
                let mut next = self.next_module_id;
                let copy = match duplicate_module(m, position, &mut next) {
                    Some(c) => c,
                    None => {
                        self.mode = Mode::Normal;
                        return;
                    },
                };
                let before = self.snapshot();
                let ghost ms = self.surface().modules@;
                let ghost added = copy;
                let mut one: Vec<Module> = Vec::new();
                one.push(copy);
                assert(one@ =~= seq![added]);
                self.add_modules(one);
                self.next_module_id = next;
                let ghost mid = *self;
                self.commit(before);
                proof {
                    lemma_surface_layout(mid, *self);
                    let fm = self.surface().modules@;
                    let grown = ms + seq![added];
                    assert(delays_synced(grown, mid.surface().modules@));
                    assert forall|k: int| 0 <= k < grown.len() implies (#[trigger] fm[k]).id == grown[k].id
                        && fm[k].position == grown[k].position && fm[k].orientation == grown[k].orientation by {
                        assert(module_delays_synced(grown[k], mid.surface().modules@[k], delay_ids(grown)));
                        assert(layout_eq(mid.surface().modules@[k], fm[k]));
                    }
                    assert(grown[ms.len() as int] == added);
                    assert forall|k: int| 0 <= k < ms.len() implies (#[trigger] fm[k]).id == ms[k].id && fm[k].position == ms[k].position by {
                        assert(grown[k] == ms[k]);
                        assert(fm[k].id == grown[k].id);
                    }
                }
                self.mode = Mode::Normal;
            },
            GuiAction::Cancel => self.mode = Mode::Normal,
            _ => {},
        }
    }

    /// Appends modules to the surface being edited and resyncs its delay taps.
    fn add_modules(&mut self, added: Vec<Module>)
        requires
            old(self).wf(),
        ensures
            final(self).wf(),
            final(self).surface().cursor == old(self).surface().cursor,
            delays_synced(old(self).surface().modules@ + added@, final(self).surface().modules@),
            final(self).active_instrument == old(self).active_instrument,
            final(self).mode == old(self).mode,
            final(self).next_module_id == old(self).next_module_id,
            others_same(*old(self), *final(self)),
            final(self).undo == old(self).undo,
            final(self).redo == old(self).redo,
    {
        let ghost start = self.instrument();
        let ghost old_ms = self.surface().modules@;
        let mut s = self.take_surface();
        let mut rest = added;
        let ghost added_v = rest@;
        let ghost c0 = s.cursor;
        while rest.len() > 0
            invariant
                s.cursor == c0,
                s.modules@ + rest@ == old_ms + added_v,
            decreases rest@.len(),
        {
            let m = rest.remove(0);
            s.modules.push(m);
            assert(s.modules@ + rest@ =~= old_ms + added_v);
        }
        assert(s.modules@ =~= old_ms + added_v);
        sync_delay_sources(&mut s);
        self.put_surface(s, Ghost(start));
    }

    /// Removes the modules whose ids are listed from the surface being edited.
    fn remove_modules(&mut self, ids: &Vec<ModuleId>)
        requires
            old(self).wf(),
        ensures
            final(self).wf(),
            final(self).surface().cursor == old(self).surface().cursor,
            final(self).surface().modules@ == without_ids(old(self).surface().modules@, ids@),
            final(self).active_instrument == old(self).active_instrument,
            final(self).mode == old(self).mode,
            final(self).next_module_id == old(self).next_module_id,
            others_same(*old(self), *final(self)),
            final(self).undo == old(self).undo,
            final(self).redo == old(self).redo,
    {
        let ghost start = self.instrument();
        let s = self.take_surface();
        let PatchSurface { cursor, modules } = s;
        let kept = without_ids_vec(modules, ids);
        self.put_surface(PatchSurface { cursor, modules: kept }, Ghost(start));
    }

    /// What an action does while a selection is being drawn.
    fn apply_select(&mut self, action: GuiAction, anchor: GridPos)
        requires
            old(self).wf(),
            old(self).mode == (Mode::Select { anchor }),
        ensures
            final(self).wf(),
            select_step(*old(self), *final(self), action, anchor),
    {
        proof {
            reveal(select_step);
        }
        match action {
            GuiAction::Left => self.move_cursor(-1, 0),
            GuiAction::Down => self.move_cursor(0, 1),
            GuiAction::Up => self.move_cursor(0, -1),
            GuiAction::Right => self.move_cursor(1, 0),
            GuiAction::LeftFast => self.move_cursor(-4, 0),
            GuiAction::DownFast => self.move_cursor(0, 4),
            GuiAction::UpFast => self.move_cursor(0, -4),
            GuiAction::RightFast => self.move_cursor(4, 0),
            GuiAction::Move | GuiAction::Confirm => {
                let c = self.cursor();
                self.mode = Mode::SelectMove { anchor, extent: c, origin: c };
            },
            GuiAction::Copy => {
                let ids = self.selected_modules();
                if ids.len() > 0 {
                    let c = self.cursor();
                    self.mode = Mode::CopySelection { anchor, extent: c, origin: c };
                }
            },
            GuiAction::Delete => {
                let ids = self.selected_modules();
                let before = self.snapshot();
                self.remove_modules(&ids);
                let ghost mid = *self;
                self.commit(before);
                proof {
                    lemma_surface_layout(mid, *self);
                }
                self.mode = Mode::Normal;
            },
            GuiAction::Cancel | GuiAction::Select => self.mode = Mode::Normal,
            _ => {},
        }
    }
}

impl GuiState {
    /// What an action does while a selection is being carried: move it by
    /// the cursor's offset from where it was picked up, or put it back.
    fn apply_select_move(&mut self, action: GuiAction, anchor: GridPos, extent: GridPos, origin: GridPos)
        requires
            old(self).wf(),
            old(self).mode == (Mode::SelectMove { anchor, extent, origin }),
        ensures
            final(self).wf(),
            select_move_step(*old(self), *final(self), action, anchor, extent, origin),
    {
        proof {
            reveal(select_move_step);
        }
        match action {
            GuiAction::Left => self.move_cursor(-1, 0),
            GuiAction::Down => self.move_cursor(0, 1),
            GuiAction::Up => self.move_cursor(0, -1),
            GuiAction::Right => self.move_cursor(1, 0),
            GuiAction::LeftFast => self.move_cursor(-4, 0),
            GuiAction::DownFast => self.move_cursor(0, 4),
            GuiAction::UpFast => self.move_cursor(0, -4),
            GuiAction::RightFast => self.move_cursor(4, 0),
            GuiAction::Confirm | GuiAction::Move | GuiAction::Copy => {
                if self.held_selection.is_some() {
                    self.put_down_held_selection(origin);
                    self.mode = Mode::Normal;
                    return;
                }
                let cursor = self.cursor();
                let dx = cursor.x as i32 - origin.x as i32;
                let dy = cursor.y as i32 - origin.y as i32;
                let ids = self.selected_modules();
                self.shift_listed(&ids, dx, dy);
                self.mode = Mode::Normal;
            },
            GuiAction::Cancel => {
                if self.held_selection.is_some() {
                    self.put_back_held_selection();
                    self.mode = Mode::Normal;
                    return;
                }
                self.set_surface_cursor(origin);
                self.mode = Mode::Normal;
            },
            GuiAction::EditComposition => self.move_selection_across_composition(anchor, extent, origin),
            _ => {},
        }
    }

    /// What an action does while a copy of a selection is being placed:
    /// copies land at the cursor's offset from where they were picked up,
    /// kept on the grid, with fresh ids; copied delay taps read from the
    /// copies of their delays.
    fn apply_copy_selection(&mut self, action: GuiAction, anchor: GridPos, extent: GridPos, origin: GridPos)
        requires
            old(self).wf(),
            old(self).mode == (Mode::CopySelection { anchor, extent, origin }),
        ensures
            final(self).wf(),
            copy_selection_step(*old(self), *final(self), action, anchor, extent, origin),
    {
        proof {
            reveal(copy_selection_step);
        }
        match action {
            GuiAction::Left => self.move_cursor(-1, 0),
            GuiAction::Down => self.move_cursor(0, 1),
            GuiAction::Up => self.move_cursor(0, -1),
            GuiAction::Right => self.move_cursor(1, 0),
            GuiAction::LeftFast => self.move_cursor(-4, 0),
            GuiAction::DownFast => self.move_cursor(0, 4),
            GuiAction::UpFast => self.move_cursor(0, -4),
            GuiAction::RightFast => self.move_cursor(4, 0),
            GuiAction::Confirm | GuiAction::Move | GuiAction::Copy => {
                let ids = self.selected_modules();
                let cursor = self.cursor();
                let ghost ms = self.surface().modules@;
                let dx = cursor.x as i32 - origin.x as i32;
                let dy = cursor.y as i32 - origin.y as i32;
                let max_x: i32 = if self.grid_size.width >= 1 { self.grid_size.width as i32 - 1 } else { 0 };
                let max_y: i32 = if self.grid_size.height >= 1 { self.grid_size.height as i32 - 1 } else { 0 };
                let mut next = self.next_module_id;
                let mut copies: Vec<Module> = Vec::new();
                let mut old_ids: Vec<ModuleId> = Vec::new();
                let mut new_ids: Vec<ModuleId> = Vec::new();
                let n = self.modules().len();
                let mut i: usize = 0;
                while i < n
                    invariant
                        self.wf(),
                        *self == *old(self),
                        ms == self.surface().modules@,
                        action == GuiAction::Confirm || action == GuiAction::Move || action == GuiAction::Copy,
                        ids@ == ids_in_rect(ms, anchor, extent),
                        n == ms.len(),
                        i <= n,
                        old_ids@.len() == new_ids@.len(),
                        dx == cursor.x - origin.x,
                        dy == cursor.y - origin.y,
                        -65535 <= dx <= 65535,
                        -65535 <= dy <= 65535,
                        max_x == sat_sub(self.grid_size.width as int, 1),
                        max_y == sat_sub(self.grid_size.height as int, 1),
                        0 <= max_x <= 65535,
                        0 <= max_y <= 65535,
                        next >= self.next_module_id,
                        copies@.len() == with_ids(ms.take(i as int), ids@).len(),
                        forall|k: int| 0 <= k < copies@.len() ==> {
                            let src = with_ids(ms.take(i as int), ids@)[k];
                            &&& (#[trigger] copies@[k]).position == shifted_cell(src.position, dx as int, dy as int, self.grid_size)
                            &&& copies@[k].orientation == src.orientation
                            &&& copies@[k].id.id >= self.next_module_id
                        },
                    decreases n - i,
                {
                    proof {
                        assert(ms.take(i + 1).drop_last() =~= ms.take(i as int));
                        assert(ms.take(i + 1).last() == ms[i as int]);
                    }
                    let m = &self.modules()[i];
                    if ids_contain(&ids, m.id) {
                        let x = clamp_i32(m.position.x as i32 + dx, 0, max_x);
                        let y = clamp_i32(m.position.y as i32 + dy, 0, max_y);
                        match duplicate_module(m, GridPos::new(x as u16, y as u16), &mut next) {
                            Some(copy) => {
                                old_ids.push(m.id);
                                new_ids.push(copy.id);
                                copies.push(copy);
                            },
                            None => {
                                self.mode = Mode::Normal;
                                proof {
                                    reveal(copy_selection_step);
                                }
                                return;
                            },
                        }
                    }
                    i = i + 1;
                }
                proof {
                    assert(ms.take(n as int) =~= ms);
                }
                let ghost copies0 = copies@;
                let mut remapped_copies: Vec<Module> = Vec::new();
                let mut rest = copies;
                while rest.len() > 0
                    invariant
                        old_ids@.len() == new_ids@.len(),
                        remapped_copies@.len() + rest@.len() == copies0.len(),
                        rest@ == copies0.subrange(remapped_copies@.len() as int, copies0.len() as int),
                        forall|k: int| 0 <= k < remapped_copies@.len() ==> (#[trigger] remapped_copies@[k]).id == copies0[k].id
                            && remapped_copies@[k].position == copies0[k].position && remapped_copies@[k].orientation == copies0[k].orientation,
                    decreases rest@.len(),
                {
                    let ghost r0 = remapped_copies@.len();
                    let mut c = rest.remove(0);
                    assert(c == copies0[r0 as int]);
                    c.body = match c.body {
                        ModuleBody::DelayTap { source, gain } => {
                            let selected = match source.selected {
                                Some(s) => match crate::nested::remapped(Some(s), &old_ids, &new_ids) {
                                    Some(n) => Some(n),
                                    None => Some(s),
                                },
                                None => None,
                            };
                            ModuleBody::DelayTap { source: crate::param::DelaySourceParam { selected, options: source.options }, gain }
                        },
                        other => other,
                    };
                    remapped_copies.push(c);
                    assert(rest@ =~= copies0.subrange(remapped_copies@.len() as int, copies0.len() as int));
                }
                let before = self.snapshot();
                let ghost rc = remapped_copies@;
                let ghost grown = ms + rc;
                let ghost sel = with_ids(ms, ids@);
                self.add_modules(remapped_copies);
                self.next_module_id = next;
                let ghost mid = *self;
                self.commit(before);
                proof {
                    lemma_surface_layout(mid, *self);
                    let fm = self.surface().modules@;
                    assert forall|k: int| 0 <= k < grown.len() implies (#[trigger] fm[k]).id == grown[k].id
                        && fm[k].position == grown[k].position && fm[k].orientation == grown[k].orientation by {
                        assert(module_delays_synced(grown[k], mid.surface().modules@[k], delay_ids(grown)));
                        assert(layout_eq(mid.surface().modules@[k], fm[k]));
                    }
                    assert forall|k: int| 0 <= k < ms.len() implies (#[trigger] fm[k]).id == ms[k].id && fm[k].position == ms[k].position by {
                        assert(grown[k] == ms[k]);
                        assert(fm[k].id == grown[k].id);
                    }
                    assert forall|k: int| 0 <= k < sel.len() implies {
                        &&& (#[trigger] fm[ms.len() + k]).position == shifted_cell(sel[k].position, cursor.x - origin.x, cursor.y - origin.y, old(self).grid_size)
                        &&& fm[ms.len() + k].orientation == sel[k].orientation
                        &&& fm[ms.len() + k].id.id >= old(self).next_module_id
                    } by {
                        assert(grown[ms.len() + k] == rc[k]);
                        assert(rc[k].position == copies0[k].position && rc[k].orientation == copies0[k].orientation
                            && rc[k].id == copies0[k].id);
                        assert(fm[ms.len() + k].id == grown[ms.len() + k].id);
                    }
                }
                self.mode = Mode::Normal;
            },
            GuiAction::Cancel => self.mode = Mode::Normal,
            _ => {},
        }
    }
}

/// Whether envelope points are in order of time.
pub open spec fn sorted_by_time(s: Seq<EnvPoint>) -> bool {
    forall|i: int, j: int| 0 <= i < j < s.len() ==> s[i].time <= s[j].time
}

/// The position at which a point of time `t` joins points sorted by time:
/// after every point that is not later.
pub open spec fn first_later(s: Seq<EnvPoint>, t: i32) -> int
    decreases s.len(),
{
    if s.len() == 0 {
        0
    } else if s[0].time > t {
        0
    } else {
        1 + first_later(s.subrange(1, s.len() as int), t)
    }
}

/// The points sorted by time, points of equal time kept in their order:
/// each point joins those before it after every one that is not later.
pub open spec fn time_sorted(s: Seq<EnvPoint>) -> Seq<EnvPoint>
    decreases s.len(),
{
    if s.len() == 0 {
        s
    } else {
        let r = time_sorted(s.drop_last());
        r.insert(first_later(r, s.last().time), s.last())
    }
}

proof fn lemma_first_later(s: Seq<EnvPoint>, t: i32, j: int)
    requires
        0 <= j <= s.len(),
        forall|k: int| 0 <= k < j ==> s[k].time <= t,
        j == s.len() || s[j].time > t,
    ensures
        first_later(s, t) == j,
    decreases j,
{
    if j > 0 {
        let rest = s.subrange(1, s.len() as int);
        assert forall|k: int| 0 <= k < j - 1 implies rest[k].time <= t by {
            assert(rest[k] == s[k + 1]);
        }
        if j - 1 < rest.len() {
            assert(rest[j - 1] == s[j]);
        }
        lemma_first_later(rest, t, j - 1);
    }
}

/// The points sorted by time, points of equal time kept in their order.
pub fn sort_points(v: &Vec<EnvPoint>) -> (r: Vec<EnvPoint>)
    ensures
        r@ == time_sorted(v@),
        sorted_by_time(r@),
        r@.to_multiset() == v@.to_multiset(),
{
    let mut r: Vec<EnvPoint> = Vec::new();
    let mut i: usize = 0;
    assert(v@.take(0) =~= r@);
    while i < v.len()
        invariant
            i <= v@.len(),
            r@ == time_sorted(v@.take(i as int)),
            sorted_by_time(r@),
            r@.to_multiset() == v@.take(i as int).to_multiset(),
        decreases v@.len() - i,
    {
        let x = v[i];
        let mut j: usize = 0;
        while j < r.len() && r[j].time <= x.time
            invariant
                j <= r@.len(),
                forall|k: int| 0 <= k < j ==> r@[k].time <= x.time,
            decreases r@.len() - j,
        {
            j = j + 1;
        }
        let ghost before = r@;
        proof {
            lemma_first_later(before, x.time, j as int);
            assert(v@.take(i + 1).drop_last() =~= v@.take(i as int));
            assert(v@.take(i + 1).last() == x);
        }
        r.insert(j, x);
        proof {
            assert(r@ == before.insert(j as int, x));
            assert(v@.take(i + 1) =~= v@.take(i as int).push(x));
            vstd::seq_lib::to_multiset_insert(before, j as int, x);
            vstd::seq_lib::to_multiset_build(v@.take(i as int), x);
            assert forall|a: int, b: int| 0 <= a < b < r@.len() implies r@[a].time <= r@[b].time by {
                if b < j {
                } else if b == j {
                } else if a < j {
                    assert(r@[b] == before[b - 1]);
                    if j < before.len() {
                        assert(before[j as int].time > x.time);
                    }
                } else if a == j {
                    assert(r@[b] == before[b - 1]);
                    assert(before[j as int].time > x.time);
                } else {
                    assert(r@[b] == before[b - 1]);
                    assert(r@[a] == before[a - 1]);
                }
            }
        }
        i = i + 1;
    }
    assert(v@.take(i as int) =~= v@);
    r
}

/// The first point of a list with a given time.
fn first_with_time(points: &Vec<EnvPoint>, time: i32) -> (r: Option<usize>)
    ensures
        r matches Some(k) ==> k < points@.len() && points@[k as int].time == time && forall|t: int| 0 <= t < k ==> points@[t].time != time,
        r is None ==> forall|t: int| 0 <= t < points@.len() ==> points@[t].time != time,
{
    let mut k: usize = 0;
    while k < points.len()
        invariant
            k <= points@.len(),
            forall|t: int| 0 <= t < k ==> points@[t].time != time,
        decreases points@.len() - k,
    {
        if points[k].time == time {
            return Some(k);
        }
        k = k + 1;
    }
    None
}

fn clamp_i64(v: i64, lo: i64, hi: i64) -> (r: i64)
    requires
        lo <= hi,
    ensures
        r == clamp_int(v as int, lo as int, hi as int),
        lo <= r <= hi,
{
    if v < lo {
        lo
    } else if v > hi {
        hi
    } else {
        v
    }
}

/// An envelope point nudged by an arrow: earlier or later by the step (ten
/// steps when fast), up or down by the step, or to the top or bottom; time
/// kept in `[0, 100]` and value in `[-100, 100]`.
pub open spec fn env_nudged(pt: EnvPoint, action: GuiAction, delta: int) -> EnvPoint {
    let t = match action {
        GuiAction::Left => pt.time - delta,
        GuiAction::Right => pt.time + delta,
        GuiAction::LeftFast => pt.time - 10 * delta,
        GuiAction::RightFast => pt.time + 10 * delta,
        _ => pt.time as int,
    };
    let v = match action {
        GuiAction::Up => pt.value + delta,
        GuiAction::Down => pt.value - delta,
        GuiAction::UpFast => 100,
        GuiAction::DownFast => -100,
        _ => pt.value as int,
    };
    EnvPoint { time: clamp_int(t, 0, 100) as i32, value: clamp_int(v, -100, 100) as i32, curve: pt.curve }
}

/// The time of a point added after point `p`: halfway to the next point, or
/// to the end, rounded toward zero and kept in `[0, 100]`.
pub open spec fn added_time(pts: Seq<EnvPoint>, p: int) -> int {
    let next = if p + 1 < pts.len() { pts[p + 1].time as int } else { 100 };
    let sum = pts[p].time + next;
    clamp_int(if sum >= 0 { sum / 2 } else { -((-sum) / 2) }, 0, 100)
}

/// Whether `k` is the first position of a point of time `t`.
pub open spec fn first_at_time(s: Seq<EnvPoint>, t: int, k: int) -> bool {
    0 <= k < s.len() && s[k].time == t && forall|q: int| 0 <= q < k ==> s[q].time != t
}

proof fn lemma_env_points_kept(a: GuiState, b: GuiState, i: int)
    requires
        same_layout(a.surface().modules@, b.surface().modules@),
        0 <= i < a.surface().modules@.len(),
        a.surface().modules@[i].body is Envelope,
    ensures
        body_env_points(b.surface().modules@[i].body) == body_env_points(a.surface().modules@[i].body),
{
    assert(layout_eq(a.surface().modules@[i], b.surface().modules@[i]));
}

impl GuiState {
    /// Replaces the points of envelope module `index` of the surface being
    /// edited.
    fn set_points(&mut self, index: usize, points: Vec<EnvPoint>)
        requires
            old(self).wf(),
            index < old(self).surface().modules@.len(),
        ensures
            final(self).wf(),
            final(self).surface().cursor == old(self).surface().cursor,
            final(self).surface().modules@.len() == old(self).surface().modules@.len(),
            old(self).surface().modules@[index as int].body is Envelope ==> body_env_points(final(self).surface().modules@[index as int].body) == points@,
            old(self).surface().modules@[index as int].body is Envelope ==> final(self).surface().modules@[index as int].body is Envelope,
            final(self).active_instrument == old(self).active_instrument,
            final(self).mode == old(self).mode,
            final(self).next_module_id == old(self).next_module_id,
            others_same(*old(self), *final(self)),
            final(self).undo == old(self).undo,
            final(self).redo == old(self).redo,
    {
        let ghost start = self.instrument();
        let mut s = self.take_surface();
        let mut m = s.modules.remove(index);
        m.body = match m.body {
            ModuleBody::Envelope { phase, .. } => ModuleBody::Envelope { phase, points },
            other => other,
        };
        s.modules.insert(index, m);
        self.put_surface(s, Ghost(start));
    }

    /// Nudges point `point` of envelope module `index` with an arrow, puts
    /// the points back in order of time, records the change for undo, and
    /// gives the first position of a point at the nudged time.
    fn nudge_env_point(&mut self, action: GuiAction, index: usize, point: usize) -> (k: usize)
        requires
            old(self).wf(),
            index < old(self).surface().modules@.len(),
            old(self).surface().modules@[index as int].body is Envelope,
            point < body_env_points(old(self).surface().modules@[index as int].body).len(),
        ensures
            final(self).wf(),
            final(self).mode == old(self).mode,
            final(self).surface().modules@.len() == old(self).surface().modules@.len(),
            ({
                let pts = body_env_points(old(self).surface().modules@[index as int].body);
                let moved = env_nudged(pts[point as int], action, step_scale_of(old(self).step_size) as int);
                let after = body_env_points(final(self).surface().modules@[index as int].body);
                &&& after == time_sorted(pts.update(point as int, moved))
                &&& first_at_time(after, moved.time as int, k as int)
            }),
    {
        let mut points = self.modules()[index].env_points();
        let before = self.snapshot();
        let delta = self.step_scale() as i64;
        let current = points[point];
        let mut time = current.time as i64;
        let mut value = current.value as i64;
        match action {
            GuiAction::Left => time = time - delta,
            GuiAction::Right => time = time + delta,
            GuiAction::LeftFast => time = time - delta * 10,
            GuiAction::RightFast => time = time + delta * 10,
            GuiAction::Up => value = value + delta,
            GuiAction::Down => value = value - delta,
            GuiAction::UpFast => value = 100,
            GuiAction::DownFast => value = -100,
            _ => {},
        }
        let time = clamp_i64(time, 0, 100) as i32;
        let value = clamp_i64(value, -100, 100) as i32;
        let ghost old_pts = points@;
        let nudged = EnvPoint { time, value, curve: current.curve };
        assert(nudged == env_nudged(old_pts[point as int], action, step_scale_of(self.step_size) as int));
        points.set(point, nudged);
        let sorted = sort_points(&points);
        proof {
            assert(points@[point as int] == nudged);
            assert(points@.contains(nudged));
            vstd::seq_lib::to_multiset_contains(points@, nudged);
            vstd::seq_lib::to_multiset_contains(sorted@, nudged);
            let w = choose|w: int| 0 <= w < sorted@.len() && sorted@[w] == nudged;
            assert(sorted@[w].time == time);
        }
        let moved = match first_with_time(&sorted, time) {
            Some(k) => k,
            None => 0,
        };
        self.set_points(index, sorted);
        let ghost mid = *self;
        self.commit(before);
        proof {
            lemma_surface_layout(mid, *self);
            lemma_env_points_kept(mid, *self, index as int);
        }
        moved
    }

    /// Flips whether the segment ending at point `point` of envelope module
    /// `index` curves, and records the change for undo.
    fn toggle_env_curve(&mut self, index: usize, point: usize)
        requires
            old(self).wf(),
            index < old(self).surface().modules@.len(),
            old(self).surface().modules@[index as int].body is Envelope,
            point < body_env_points(old(self).surface().modules@[index as int].body).len(),
        ensures
            final(self).wf(),
            final(self).mode == old(self).mode,
            final(self).surface().modules@.len() == old(self).surface().modules@.len(),
            ({
                let pts = body_env_points(old(self).surface().modules@[index as int].body);
                body_env_points(final(self).surface().modules@[index as int].body) == pts.update(
                    point as int, EnvPoint { time: pts[point as int].time, value: pts[point as int].value, curve: !pts[point as int].curve })
            }),
    {
        let mut points = self.modules()[index].env_points();
        let before = self.snapshot();
        let current = points[point];
        points.set(point, EnvPoint { time: current.time, value: current.value, curve: !current.curve });
        self.set_points(index, points);
        let ghost mid = *self;
        self.commit(before);
        proof {
            lemma_surface_layout(mid, *self);
            lemma_env_points_kept(mid, *self, index as int);
        }
    }

    /// Adds a point halfway between point `point` of envelope module `index`
    /// and the next one (or the end), at the same value, puts the points in
    /// order of time, records the change for undo, and gives the first
    /// position of a point at the new time.
    fn add_env_point(&mut self, index: usize, point: usize) -> (k: usize)
        requires
            old(self).wf(),
            index < old(self).surface().modules@.len(),
            old(self).surface().modules@[index as int].body is Envelope,
            point < body_env_points(old(self).surface().modules@[index as int].body).len(),
        ensures
            final(self).wf(),
            final(self).mode == old(self).mode,
            final(self).surface().modules@.len() == old(self).surface().modules@.len(),
            ({
                let pts = body_env_points(old(self).surface().modules@[index as int].body);
                let added = EnvPoint { time: added_time(pts, point as int) as i32, value: pts[point as int].value, curve: false };
                let after = body_env_points(final(self).surface().modules@[index as int].body);
                &&& after == time_sorted(pts.push(added))
                &&& first_at_time(after, added.time as int, k as int)
            }),
    {
        let mut points = self.modules()[index].env_points();
        let count = points.len();
        let before = self.snapshot();
        let current = points[point];
        let next_time: i64 = if point + 1 < count { points[point + 1].time as i64 } else { 100 };
        let sum: i64 = current.time as i64 + next_time;
        let half: i64 = if sum >= 0 { sum / 2 } else { -((-sum) / 2) };
        let time = clamp_i64(half, 0, 100) as i32;
        let added = EnvPoint { time, value: current.value, curve: false };
        points.push(added);
        let sorted = sort_points(&points);
        proof {
            assert(points@[points@.len() - 1] == added);
            assert(points@.contains(added));
            vstd::seq_lib::to_multiset_contains(points@, added);
            vstd::seq_lib::to_multiset_contains(sorted@, added);
            let w = choose|w: int| 0 <= w < sorted@.len() && sorted@[w] == added;
            assert(sorted@[w].time == time);
        }
        let new_index = match first_with_time(&sorted, time) {
            Some(k) => k,
            None => point,
        };
        self.set_points(index, sorted);
        let ghost mid = *self;
        self.commit(before);
        proof {
            lemma_surface_layout(mid, *self);
            lemma_env_points_kept(mid, *self, index as int);
        }
        new_index
    }

    /// Removes point `point` of envelope module `index` and records the
    /// change for undo.
    fn delete_env_point(&mut self, index: usize, point: usize)
        requires
            old(self).wf(),
            index < old(self).surface().modules@.len(),
            old(self).surface().modules@[index as int].body is Envelope,
            point < body_env_points(old(self).surface().modules@[index as int].body).len(),
        ensures
            final(self).wf(),
            final(self).mode == old(self).mode,
            final(self).surface().modules@.len() == old(self).surface().modules@.len(),
            body_env_points(final(self).surface().modules@[index as int].body) == body_env_points(
                old(self).surface().modules@[index as int].body).remove(point as int),
    {
        let mut points = self.modules()[index].env_points();
        let before = self.snapshot();
        points.remove(point);
        self.set_points(index, points);
        let ghost mid = *self;
        self.commit(before);
        proof {
            lemma_surface_layout(mid, *self);
            lemma_env_points_kept(mid, *self, index as int);
        }
    }

    /// What an action does in the envelope editor: pick a point, move it,
    /// add or remove points, or change the curve into a point.
    #[verifier::spinoff_prover]
    #[verifier::rlimit(60)]
    fn apply_env_edit(&mut self, action: GuiAction, module: ModuleId, point: usize, editing: bool)
        requires
            old(self).wf(),
        ensures
            final(self).wf(),
            env_edit_step(*old(self), *final(self), action, module, point, editing),
    {
        proof {
            reveal(env_edit_step);
        }
        let index = match find_module(&self.instruments[self.active_instrument].surface().modules, module) {
            Some(i) => i,
            None => {
                self.mode = Mode::Normal;
                return;
            },
        };
        let points = self.modules()[index].env_points();
        let count = points.len();
        if count == 0 {
            self.mode = Mode::Normal;
            return;
        }
        let point = if point < count - 1 { point } else { count - 1 };
        if editing {
            match action {
                GuiAction::Cancel | GuiAction::Confirm | GuiAction::Move => {
                    self.mode = Mode::EnvEdit { module, point, editing: false };
                },
                GuiAction::Left | GuiAction::Right | GuiAction::LeftFast | GuiAction::RightFast | GuiAction::Up
                | GuiAction::Down | GuiAction::UpFast | GuiAction::DownFast => {
                    let moved = self.nudge_env_point(action, index, point);
                    self.mode = Mode::EnvEdit { module, point: moved, editing: true };
                },
                GuiAction::CycleStep => self.step_size = (self.step_size + 1) % 5,
                GuiAction::TogglePlay => self.playing = !self.playing,
                _ => {},
            }
            return;
        }
        match action {
            GuiAction::Cancel | GuiAction::Edit => self.mode = Mode::Normal,
            GuiAction::Right => self.mode = Mode::EnvEdit { module, point: (point + 1) % count, editing: false },
            GuiAction::Left => self.mode = Mode::EnvEdit { module, point: if point == 0 { count - 1 } else { point - 1 }, editing: false },
            GuiAction::Move => self.mode = Mode::EnvEdit { module, point, editing: true },
            GuiAction::ToggleCurve => self.toggle_env_curve(index, point),
            GuiAction::AddPoint => {
                let new_index = self.add_env_point(index, point);
                self.mode = Mode::EnvEdit { module, point: new_index, editing: false };
            },
            GuiAction::DeletePoint => {
                if count > 2 {
                    self.delete_env_point(index, point);
                    self.mode = Mode::EnvEdit { module, point: if point < count - 2 { point } else { count - 2 }, editing: false };
                }
            },
            GuiAction::CycleStep => self.step_size = (self.step_size + 1) % 5,
            GuiAction::TogglePlay => self.playing = !self.playing,
            _ => {},
        }
    }
}

/// What an arrow action does: the cursor moves by one cell, or by four
/// on the fast variant, and the modules stay where they are.
pub open spec fn cursor_step(a: GuiState, b: GuiState, action: GuiAction) -> bool {
    let d: (int, int) = match action {
        GuiAction::Left => (-1, 0),
        GuiAction::Right => (1, 0),
        GuiAction::Up => (0, -1),
        GuiAction::Down => (0, 1),
        GuiAction::LeftFast => (-4, 0),
        GuiAction::RightFast => (4, 0),
        GuiAction::UpFast => (0, -4),
        GuiAction::DownFast => (0, 4),
        _ => (0, 0),
    };
    is_arrow(action) ==> {
        &&& b.surface().cursor == moved_cursor(a, d.0, d.1)
        &&& b.surface().modules == a.surface().modules
        &&& b.mode == a.mode
        &&& b.active_instrument == a.active_instrument
        &&& history_kept(a, b)
    }
}

/// The eight arrow actions.
pub open spec fn is_arrow(action: GuiAction) -> bool {
    ||| action == GuiAction::Left
    ||| action == GuiAction::Right
    ||| action == GuiAction::Up
    ||| action == GuiAction::Down
    ||| action == GuiAction::LeftFast
    ||| action == GuiAction::RightFast
    ||| action == GuiAction::UpFast
    ||| action == GuiAction::DownFast
}

/// The actions of the normal mode that leave the document and its history
/// alone.
pub open spec fn leaves_document(action: GuiAction) -> bool {
    ||| action == GuiAction::Quit
    ||| action == GuiAction::Save
    ||| action == GuiAction::SaveAs
    ||| action == GuiAction::Load
    ||| action == GuiAction::Export
    ||| action == GuiAction::OpenModules
    ||| action == GuiAction::TrackSettings
    ||| action == GuiAction::TrackEdit
    ||| action == GuiAction::OpenPalette
    ||| action is Palette
    ||| action == GuiAction::TogglePlay
    ||| action == GuiAction::ToggleMeters
    ||| action == GuiAction::Edit
    ||| action == GuiAction::Move
    ||| action == GuiAction::Copy
    ||| action == GuiAction::Select
}

#[verifier::opaque]
pub open spec fn normal_step(a: GuiState, b: GuiState, action: GuiAction) -> bool {
    &&& leaves_document(action) ==> document_kept(a, b)
    &&& cursor_step(a, b, action)
    &&& action == GuiAction::Quit ==> if a.dirty {
        b.mode == Mode::QuitConfirm && b.should_quit == a.should_quit
    } else {
        b.mode == Mode::Normal && b.should_quit
    }
    &&& action == GuiAction::Save ==> if a.saved_path is Some {
        b.mode == Mode::SaveConfirm && b.save_requested == a.save_requested
    } else {
        b.mode == Mode::Normal && b.save_requested
    }
    &&& action == GuiAction::SaveAs ==> b.save_requested && b.mode == Mode::Normal
    &&& action == GuiAction::Load ==> if a.dirty {
        b.mode == Mode::LoadConfirm && b.load_requested == a.load_requested
    } else {
        b.mode == Mode::Normal && b.load_requested
    }
    &&& action == GuiAction::Export ==> {
        &&& b.mode == Mode::ExportPrompt
        &&& b.prompt_text@ == export_default(a.saved_path)
        &&& b.prompt_cursor == b.prompt_text@.len()
    }
    &&& action == GuiAction::OpenModules ==> b.open_modules_requested
    &&& action == GuiAction::TrackSettings ==> b.mode == (Mode::TrackSettings { parameter: 0 })
    &&& action == GuiAction::TrackEdit ==> {
        &&& b.mode == Mode::TrackPrompt
        &&& b.prompt_text@ == a.instrument().track_text@
        &&& b.prompt_cursor == b.prompt_text@.len()
    }
    &&& action == GuiAction::EditComposition ==> {
        &&& b.mode == Mode::Normal
        &&& b.active_instrument == a.active_instrument
        &&& history_kept(a, b)
        &&& match composition_under_cursor(a) {
            Some(owner) => entered(a.instrument(), b.instrument(), owner),
            None => exited(a.instrument(), b.instrument()),
        }
    }
    &&& action == GuiAction::ExitComposition ==> {
        &&& b.mode == Mode::Normal
        &&& b.active_instrument == a.active_instrument
        &&& history_kept(a, b)
        &&& exited(a.instrument(), b.instrument())
    }
    &&& action == GuiAction::Left ==> b.surface().cursor == moved_cursor(a, -1, 0)
    &&& action == GuiAction::Right ==> b.surface().cursor == moved_cursor(a, 1, 0)
    &&& action == GuiAction::Up ==> b.surface().cursor == moved_cursor(a, 0, -1)
    &&& action == GuiAction::Down ==> b.surface().cursor == moved_cursor(a, 0, 1)
    &&& action == GuiAction::LeftFast ==> b.surface().cursor == moved_cursor(a, -4, 0)
    &&& action == GuiAction::RightFast ==> b.surface().cursor == moved_cursor(a, 4, 0)
    &&& action == GuiAction::UpFast ==> b.surface().cursor == moved_cursor(a, 0, -4)
    &&& action == GuiAction::DownFast ==> b.surface().cursor == moved_cursor(a, 0, 4)
    &&& action == GuiAction::OpenPalette ==> {
        &&& b.mode == Mode::Palette
        &&& !b.palette_searching
        &&& b.palette_filter@.len() == 0
        &&& b.palette_index == 0
        &&& b.palette_category == a.palette_category
    }
    &&& action matches GuiAction::Palette(c) ==> {
        &&& b.mode == Mode::Palette
        &&& b.palette_category == c
        &&& b.palette_index == 0
    }
    &&& action == GuiAction::TogglePlay ==> b.playing == !a.playing
    &&& action == GuiAction::ToggleMeters ==> b.show_meters == !a.show_meters
        && b.patch_sync_requested
    &&& action == GuiAction::Undo ==> if a.undo@.len() > 0 { undone(a, b) } else { b == a }
    &&& action == GuiAction::Redo ==> if a.redo@.len() > 0 { redone(a, b) } else { b == a }
    &&& action matches GuiAction::Instrument(i) ==> if i < INSTRUMENT_COUNT {
        &&& b.active_instrument == i
        &&& b.mode == Mode::Normal
        &&& b.patch_sync_requested
        &&& b.instruments == a.instruments
        &&& history_kept(a, b)
    } else {
        b == a
    }
    &&& action == GuiAction::Edit ==> b.mode == (match module_under_cursor(a) {
        Some(m) => if crate::body::body_rows(m.body).len() != 0 {
            Mode::Edit { module: m.id, parameter: 0 }
        } else {
            Mode::Normal
        },
        None => Mode::Normal,
    })
    &&& action == GuiAction::Move ==> b.mode == (match module_under_cursor(a) {
        Some(m) => Mode::Move { module: m.id, origin: a.surface().cursor },
        None => Mode::Normal,
    })
    &&& action == GuiAction::Copy ==> b.mode == (match module_under_cursor(a) {
        Some(m) => Mode::Copy { source: m.id },
        None => Mode::Normal,
    })
    &&& action == GuiAction::Select ==> b.mode == (Mode::Select { anchor: a.surface().cursor })
    &&& action == GuiAction::Delete ==> {
        let ms = a.surface().modules@;
        &&& b.mode == Mode::Normal
        &&& first_covering(ms, a.surface().cursor, 0) is None ==> b == a
        &&& first_covering(ms, a.surface().cursor, 0) matches Some(i) ==> exists|x: Seq<Module>|
            delays_synced(without_id(ms, ms[i].id), x) && same_layout(x, b.surface().modules@)
        &&& first_covering(ms, a.surface().cursor, 0) is Some ==> recorded(a, b)
    }
    &&& action == GuiAction::Rotate ==> {
        let ms = a.surface().modules@;
        &&& b.mode == Mode::Normal
        &&& match first_covering(ms, a.surface().cursor, 0) {
            Some(i) => {
                let m = ms[i];
                let o = flipped(m.orientation);
                let k = crate::body::body_kind(m.body);
                if area_fits_spec(ms, a.grid_size, kind_width(k, o), kind_height(k, o), m.position, seq![m.id]) {
                    &&& first_module_index(ms, m.id) is Some
                    &&& same_layout(
                        ms.update(first_module_index(ms, m.id)->0, turned(ms[first_module_index(ms, m.id)->0], o)),
                        b.surface().modules@,
                    )
                    &&& recorded(a, b)
                } else {
                    b == a
                }
            },
            None => b == a,
        }
    }
}

#[verifier::opaque]
pub open spec fn quit_confirm_step(a: GuiState, b: GuiState, action: GuiAction) -> bool {
    &&& action == GuiAction::Confirm || action == GuiAction::Copy ==> b.should_quit
    &&& action == GuiAction::Cancel || action == GuiAction::OpenPalette ==> b.mode == Mode::Normal
    &&& !(action == GuiAction::Confirm || action == GuiAction::Copy || action == GuiAction::Cancel || action
        == GuiAction::OpenPalette) ==> b == a
}

#[verifier::opaque]
pub open spec fn palette_step(a: GuiState, b: GuiState, action: GuiAction) -> bool {
    &&& !a.palette_searching ==> {
        &&& (action == GuiAction::PaletteLeft || action == GuiAction::Left) ==> category_position(b.palette_category)
            == clamp_int(category_position(a.palette_category) - 1, 0, 7) && b.palette_index == 0
        &&& (action == GuiAction::PaletteRight || action == GuiAction::Right) ==> category_position(b.palette_category)
            == clamp_int(category_position(a.palette_category) + 1, 0, 7) && b.palette_index == 0
        &&& (action == GuiAction::PaletteUp || action == GuiAction::Up) ==> b.palette_index == clamp_int(
            a.palette_index - 1, 0, category_entries(a.palette_category, names_view(a.user_compositions@)).len() - 1)
        &&& (action == GuiAction::PaletteDown || action == GuiAction::Down) ==> b.palette_index == clamp_int(
            a.palette_index + 1, 0, category_entries(a.palette_category, names_view(a.user_compositions@)).len() - 1)
        &&& action matches GuiAction::Palette(c) ==> b.palette_category == c && b.palette_index == 0
        &&& (action == GuiAction::Confirm || action == GuiAction::OpenPalette || action == GuiAction::Cancel || action == GuiAction::Edit) ==> b.mode == Mode::Normal
        &&& (action == GuiAction::Confirm || action == GuiAction::OpenPalette) ==> {
            let es = category_entries(a.palette_category, names_view(a.user_compositions@));
            palette_insert(a, b, es[min_int(a.palette_index as int, es.len() - 1)])
        }
        &&& action == GuiAction::Search ==> b.palette_searching && b.palette_filter@.len() == 0 && b.palette_filter_index == 0
    }
    &&& a.palette_searching ==> {
        &&& action == GuiAction::Cancel ==> !b.palette_searching && b.palette_filter@.len() == 0 && b.palette_filter_index == 0
        &&& action == GuiAction::Backspace ==> b.palette_filter@ == (if a.palette_filter@.len() > 0 { a.palette_filter@.drop_last() } else { a.palette_filter@ }) && b.palette_filter_index == 0
        &&& action == GuiAction::Down ==> b.palette_filter_index == (if a.palette_filter_index + 1 < search_results(a.palette_filter@, names_view(a.user_compositions@)).len() {
            a.palette_filter_index + 1
        } else {
            a.palette_filter_index as int
        })
        &&& action == GuiAction::Up ==> b.palette_filter_index == sat_sub(a.palette_filter_index as int, 1)
        &&& action == GuiAction::Confirm ==> b.mode == Mode::Normal && !b.palette_searching && b.palette_filter@.len() == 0
        &&& action == GuiAction::Confirm ==> {
            let rs = search_results(a.palette_filter@, names_view(a.user_compositions@));
            if a.palette_filter_index < rs.len() {
                palette_insert(a, b, rs[a.palette_filter_index as int])
            } else {
                b.instruments == a.instruments && b.insert_requested == a.insert_requested
            }
        }
        &&& action matches GuiAction::InputChar(c) ==> b.palette_filter@ == a.palette_filter@.push(c) && b.palette_filter_index == 0
    }
}

#[verifier::opaque]
pub open spec fn move_step(a: GuiState, b: GuiState, action: GuiAction, module: ModuleId, origin: GridPos) -> bool {
    &&& cursor_step(a, b, action)
    &&& (action == GuiAction::Confirm || action == GuiAction::Move || action == GuiAction::Copy) ==> {
        let ms = a.surface().modules@;
        &&& b.mode == Mode::Normal
        &&& b.held_move is None
        &&& a.held_move matches Some(h) ==> same_layout(
            ms.push(moved_to(h.module, put_down_at(h.module, a.grid_size, a.surface().cursor))),
            b.surface().modules@,
        )
        &&& a.held_move is None ==> (first_module_index(ms, module) matches Some(j) ==> {
            let m = ms[j];
            let c = a.surface().cursor;
            let target = match bounded_position(m, a.grid_size, m.position.x + c.x - origin.x, m.position.y + c.y - origin.y) {
                Some(p) => p,
                None => m.position,
            };
            same_layout(ms.update(j, moved_to(m, target)), b.surface().modules@)
        })
    }
    &&& action == GuiAction::Cancel ==> {
        &&& b.mode == Mode::Normal
        &&& b.held_move is None
        &&& b.surface().cursor == (match a.held_move {
            Some(h) => h.origin,
            None => origin,
        })
    }
}

#[verifier::opaque]
pub open spec fn copy_step(a: GuiState, b: GuiState, action: GuiAction, source: ModuleId) -> bool {
    &&& cursor_step(a, b, action)
    &&& (action == GuiAction::Confirm || action == GuiAction::Move || action == GuiAction::Copy || action == GuiAction::Cancel)
        ==> b.mode == Mode::Normal
    &&& (action == GuiAction::Confirm || action == GuiAction::Move || action == GuiAction::Copy) ==> {
        let ms = a.surface().modules@;
        let fm = b.surface().modules@;
        match first_module_index(ms, source) {
            None => b.instruments == a.instruments,
            Some(j) => {
                ||| b.instruments == a.instruments
                ||| {
                    &&& fm.len() == ms.len() + 1
                    &&& fm[ms.len() as int].id == (ModuleId { id: a.next_module_id })
                    &&& fm[ms.len() as int].position == put_down_at(ms[j], a.grid_size, a.surface().cursor)
                    &&& fm[ms.len() as int].orientation == ms[j].orientation
                    &&& forall|k: int| 0 <= k < ms.len() ==> (#[trigger] fm[k]).id == ms[k].id && fm[k].position == ms[k].position
                    &&& b.next_module_id > a.next_module_id
                }
            },
        }
    }
}

#[verifier::opaque]
pub open spec fn edit_step(a: GuiState, b: GuiState, action: GuiAction, module: ModuleId, parameter: usize) -> bool {
    &&& ({
        let ms = a.surface().modules@;
        match first_module_index(ms, module) {
            None => b.mode == Mode::Normal && document_kept(a, b),
            Some(i) => {
                let count = body_rows(ms[i].body).len();
                let special = kind_special_editor(crate::body::body_kind(ms[i].body));
                let total = count + if special is Some { 1int } else { 0int };
                let p = min_int(parameter as int, total - 1);
                if total == 0 {
                    b.mode == Mode::Normal && document_kept(a, b)
                } else {
                    &&& (action == GuiAction::Cancel || action == GuiAction::Edit || action == GuiAction::Down || action
                        == GuiAction::Up || action == GuiAction::Confirm || action == GuiAction::CycleStep || action
                        == GuiAction::TogglePlay || action == GuiAction::TypeValue) ==> document_kept(a, b)
                    &&& (action == GuiAction::Cancel || action == GuiAction::Edit) ==> b.mode == Mode::Normal
                    &&& action == GuiAction::Down ==> b.mode == (Mode::Edit { module, parameter: ((p + 1) % total) as usize })
                    &&& action == GuiAction::Up ==> b.mode == (Mode::Edit { module, parameter: (if p == 0 { total - 1 } else { p - 1 }) as usize })
                    &&& action == GuiAction::Confirm && p == count ==> b.mode == (match special {
                        Some(SpecialEditor::Adsr) => Mode::AdsrEdit { module, parameter: 0 },
                        Some(SpecialEditor::Envelope) => Mode::EnvEdit { module, point: 0, editing: false },
                        Some(SpecialEditor::Probe) => Mode::ProbeEdit { module },
                        Some(SpecialEditor::Sample) => Mode::SampleView { module, zoom: 1, offset: 0 },
                        None => a.mode,
                    })
                    &&& action == GuiAction::CycleStep ==> b.step_size == (a.step_size + 1) % 5
                    &&& action == GuiAction::TogglePlay ==> b.playing == !a.playing
                    &&& is_value_step(action) && p < count ==> row_edit_done(a, b, i, p as usize, value_step_edit(action))
                    &&& action == GuiAction::TogglePort && p < count ==> row_edit_done(a, b, i, p as usize, RowEdit::TogglePort)
                    &&& action == GuiAction::CycleUnit && p < count ==> row_edit_done(a, b, i, p as usize, RowEdit::CycleUnit)
                    &&& action == GuiAction::TypeValue ==> if p < count && value_accepts_typed(body_rows(ms[i].body)[p].value) {
                        &&& b.mode == (Mode::ValueInput { module, parameter: p as usize })
                        &&& b.prompt_text@ == value_input_text(body_rows(ms[i].body)[p].value)
                        &&& b.prompt_cursor == b.prompt_text@.len()
                    } else {
                        b.mode == a.mode
                    }
                }
            },
        }
    })
}

#[verifier::opaque]
pub open spec fn value_input_step(a: GuiState, b: GuiState, action: GuiAction, module: ModuleId, parameter: usize, scaled: Option<i32>) -> bool {
    &&& (action == GuiAction::Cancel || action == GuiAction::Confirm) ==> b.mode == (Mode::Edit { module, parameter })
    &&& action == GuiAction::Cancel ==> document_kept(a, b)
    &&& action == GuiAction::Confirm ==> match typed_row_edit(a, module, parameter, scaled) {
        None => document_kept(a, b),
        Some((i, row)) => row_written(a, b, i, parameter, row) && recorded(a, b),
    }
    &&& (action == GuiAction::Left || action == GuiAction::Right || action is InputChar || action == GuiAction::Backspace
        || action == GuiAction::DeleteChar || action == GuiAction::TextStart || action == GuiAction::TextEnd) ==> (
    b.prompt_text@, b.prompt_cursor as int) == text_edit(
        a.prompt_text@,
        a.prompt_cursor as int,
        action,
        input_kind_for(a.row_value(module, parameter)),
    )
}

/// The actions that step an envelope stage's level.
pub open spec fn is_level_step(action: GuiAction) -> bool {
    ||| action == GuiAction::ValueUp
    ||| action == GuiAction::ValueDown
    ||| action == GuiAction::ValueUpFast
    ||| action == GuiAction::ValueDownFast
}

/// A stage level after a level step: five up or down within its range, or
/// straight to an end on the fast steps; none where it does not change.
pub open spec fn level_stepped(v: ValueView, action: GuiAction) -> Option<ValueView> {
    match v {
        ValueView::Float { value, min, max, step } => {
            let next: int = if action == GuiAction::ValueUp {
                if value + 5 <= max { value + 5 } else { max as int }
            } else if action == GuiAction::ValueDown {
                if value - 5 >= min { value - 5 } else { min as int }
            } else if action == GuiAction::ValueUpFast {
                max as int
            } else {
                min as int
            };
            if next != value {
                Some(ValueView::Float { value: next as i32, min, max, step })
            } else {
                None
            }
        },
        _ => None,
    }
}

/// What a level step makes of stage `stage` of the envelope module
/// `index`; none where nothing changes.
pub open spec fn level_row_edit(st: GuiState, index: int, stage: int, action: GuiAction) -> Option<ParameterView> {
    let m = st.surface().modules@[index];
    if row_writable(m.body, stage + 2) {
        let r = body_rows(m.body)[stage + 2];
        match level_stepped(r.value, action) {
            Some(v) => Some(ParameterView { name: r.name, value: v, connected: r.connected }),
            None => None,
        }
    } else {
        None
    }
}

#[verifier::opaque]
pub open spec fn adsr_edit_step(a: GuiState, b: GuiState, action: GuiAction, module: ModuleId, parameter: usize) -> bool {
    &&& first_module_index(a.surface().modules@, module) is None ==> b.mode == Mode::Normal
    &&& first_module_index(a.surface().modules@, module) is Some ==> {
        let p = min_int(parameter as int, 1);
        &&& (action == GuiAction::Cancel || action == GuiAction::Edit) ==> b.mode == Mode::Normal
        &&& action == GuiAction::Down ==> b.mode == (Mode::AdsrEdit { module, parameter: ((p + 1) % 2) as usize })
        &&& action == GuiAction::Up ==> b.mode == (Mode::AdsrEdit { module, parameter: (if p == 0 { 1int } else { 0int }) as usize })
        &&& action == GuiAction::TogglePlay ==> b.playing == !a.playing
        &&& is_level_step(action) ==> {
            let i = first_module_index(a.surface().modules@, module)->0;
            match level_row_edit(a, i, p, action) {
                None => b == a,
                Some(r) => row_written(a, b, i, (p + 2) as usize, r) && recorded(a, b),
            }
        }
    }
}

#[verifier::opaque]
pub open spec fn env_edit_step(a: GuiState, b: GuiState, action: GuiAction, module: ModuleId, point: usize, editing: bool) -> bool {
    &&& ({
        let ms = a.surface().modules@;
        match first_module_index(ms, module) {
            None => b.mode == Mode::Normal,
            Some(i) => {
                let count = body_env_points(ms[i].body).len() as int;
                let p = min_int(point as int, count - 1);
                if count == 0 {
                    b.mode == Mode::Normal
                } else if editing {
                    &&& (action == GuiAction::Cancel || action == GuiAction::Confirm || action == GuiAction::Move) ==> b.mode == (Mode::EnvEdit { module, point: p as usize, editing: false })
                    &&& action == GuiAction::CycleStep ==> b.step_size == (a.step_size + 1) % 5
                    &&& (action == GuiAction::Left || action == GuiAction::Right || action == GuiAction::LeftFast || action == GuiAction::RightFast
                        || action == GuiAction::Up || action == GuiAction::Down || action == GuiAction::UpFast || action == GuiAction::DownFast)
                        ==> {
                        let pts = body_env_points(ms[i].body);
                        let moved = env_nudged(pts[p], action, step_scale_of(a.step_size) as int);
                        let after = body_env_points(b.surface().modules@[i].body);
                        &&& after == time_sorted(pts.update(p, moved))
                        &&& b.mode matches Mode::EnvEdit { module: m2, point: k, editing: true } && m2 == module
                            && first_at_time(after, moved.time as int, k as int)
                    }
                } else {
                    &&& (action == GuiAction::Cancel || action == GuiAction::Edit) ==> b.mode == Mode::Normal
                    &&& action == GuiAction::Right ==> b.mode == (Mode::EnvEdit { module, point: ((p + 1) % count) as usize, editing: false })
                    &&& action == GuiAction::Left ==> b.mode == (Mode::EnvEdit { module, point: (if p == 0 { count - 1 } else { p - 1 }) as usize, editing: false })
                    &&& action == GuiAction::Move ==> b.mode == (Mode::EnvEdit { module, point: p as usize, editing: true })
                    &&& action == GuiAction::DeletePoint && count > 2 ==> {
                        &&& b.mode == (Mode::EnvEdit { module, point: min_int(p, count - 2) as usize, editing: false })
                        &&& body_env_points(b.surface().modules@[i].body) == body_env_points(ms[i].body).remove(p)
                    }
                    &&& action == GuiAction::ToggleCurve ==> {
                        let pts = body_env_points(ms[i].body);
                        body_env_points(b.surface().modules@[i].body) == pts.update(
                            p, EnvPoint { time: pts[p].time, value: pts[p].value, curve: !pts[p].curve })
                    }
                    &&& action == GuiAction::AddPoint ==> {
                        let pts = body_env_points(ms[i].body);
                        let added = EnvPoint { time: added_time(pts, p) as i32, value: pts[p].value, curve: false };
                        let after = body_env_points(b.surface().modules@[i].body);
                        &&& after == time_sorted(pts.push(added))
                        &&& b.mode matches Mode::EnvEdit { module: m2, point: k, editing: false } && m2 == module
                            && first_at_time(after, added.time as int, k as int)
                    }
                    &&& action == GuiAction::CycleStep ==> b.step_size == (a.step_size + 1) % 5
                }
            },
        }
    })
}

#[verifier::opaque]
pub open spec fn probe_edit_step(a: GuiState, b: GuiState, action: GuiAction) -> bool {
    &&& (action == GuiAction::Cancel || action == GuiAction::Edit) ==> b.mode == Mode::Normal
    &&& b.probe_len == probe_len_after(a.probe_len, action)
    &&& action == GuiAction::TogglePlay ==> b.playing == !a.playing
}

#[verifier::opaque]
pub open spec fn sample_view_step(a: GuiState, b: GuiState, action: GuiAction, module: ModuleId, zoom: u16, offset: u16) -> bool {
    &&& (action == GuiAction::Cancel || action == GuiAction::Edit) ==> b.mode == Mode::Normal
    &&& (action == GuiAction::ValueUp || action == GuiAction::Up || action == GuiAction::ValueDown || action == GuiAction::Down
        || action == GuiAction::Left || action == GuiAction::Right || action == GuiAction::Delete) ==> b.mode == (Mode::SampleView {
        module,
        zoom: sample_view_after(zoom, offset, action).0 as u16,
        offset: sample_view_after(zoom, offset, action).1 as u16,
    })
    &&& action == GuiAction::TogglePlay ==> b.playing == !a.playing
    &&& b.instruments == a.instruments
}

#[verifier::opaque]
pub open spec fn select_step(a: GuiState, b: GuiState, action: GuiAction, anchor: GridPos) -> bool {
    &&& cursor_step(a, b, action)
    &&& (action == GuiAction::Move || action == GuiAction::Confirm) ==> b.mode == (Mode::SelectMove {
        anchor,
        extent: a.surface().cursor,
        origin: a.surface().cursor,
    })
    &&& action == GuiAction::Copy ==> b.mode == (if ids_in_rect(a.surface().modules@, anchor, a.surface().cursor).len() > 0 {
        Mode::CopySelection { anchor, extent: a.surface().cursor, origin: a.surface().cursor }
    } else {
        a.mode
    })
    &&& action == GuiAction::Delete ==> {
        &&& b.mode == Mode::Normal
        &&& same_layout(
            without_ids(a.surface().modules@, ids_in_rect(a.surface().modules@, anchor, a.surface().cursor)),
            b.surface().modules@,
        )
    }
    &&& (action == GuiAction::Cancel || action == GuiAction::Select) ==> b.mode == Mode::Normal
}

#[verifier::opaque]
pub open spec fn select_move_step(a: GuiState, b: GuiState, action: GuiAction, anchor: GridPos, extent: GridPos, origin: GridPos) -> bool {
    &&& cursor_step(a, b, action)
    &&& (action == GuiAction::Confirm || action == GuiAction::Move || action == GuiAction::Copy) ==> {
        let c = a.surface().cursor;
        &&& b.mode == Mode::Normal
        &&& b.held_selection is None
        &&& a.held_selection matches Some(h) ==> same_layout(
            a.surface().modules@ + shifted_modules(h.modules@, a.grid_size, c.x - origin.x, c.y - origin.y),
            b.surface().modules@,
        )
        &&& a.held_selection is None ==> same_layout(
            shifted_where(
                a.surface().modules@,
                ids_in_rect(a.surface().modules@, anchor, extent),
                a.grid_size,
                c.x - origin.x,
                c.y - origin.y,
            ),
            b.surface().modules@,
        )
    }
    &&& action == GuiAction::Cancel ==> {
        &&& b.mode == Mode::Normal
        &&& b.held_selection is None
        &&& b.surface().cursor == (match a.held_selection {
            Some(h) => h.origin,
            None => origin,
        })
    }
}

#[verifier::opaque]
pub open spec fn copy_selection_step(a: GuiState, b: GuiState, action: GuiAction, anchor: GridPos, extent: GridPos, origin: GridPos) -> bool {
    &&& cursor_step(a, b, action)
    &&& (action == GuiAction::Confirm || action == GuiAction::Move || action == GuiAction::Copy || action == GuiAction::Cancel)
        ==> b.mode == Mode::Normal
    &&& (action == GuiAction::Confirm || action == GuiAction::Move || action == GuiAction::Copy) ==> {
        let ms = a.surface().modules@;
        let fm = b.surface().modules@;
        let c = a.surface().cursor;
        let sel = with_ids(ms, ids_in_rect(ms, anchor, extent));
        ||| b.instruments == a.instruments
        ||| {
            &&& fm.len() == ms.len() + sel.len()
            &&& forall|k: int| 0 <= k < ms.len() ==> (#[trigger] fm[k]).id == ms[k].id && fm[k].position == ms[k].position
            &&& forall|k: int| 0 <= k < sel.len() ==> {
                &&& (#[trigger] fm[ms.len() + k]).position == shifted_cell(sel[k].position, c.x - origin.x, c.y - origin.y, a.grid_size)
                &&& fm[ms.len() + k].orientation == sel[k].orientation
                &&& fm[ms.len() + k].id.id >= a.next_module_id
            }
            &&& b.next_module_id >= a.next_module_id
        }
    }
}

#[verifier::opaque]
pub open spec fn load_confirm_step(a: GuiState, b: GuiState, action: GuiAction) -> bool {
    &&& action == GuiAction::Confirm ==> match a.saved_path {
        Some(p) => b.save_path_requested == Some((p, true)) && b.mode == a.mode,
        None => b.save_requested && b.load_after_save && b.mode == Mode::Normal,
    }
    &&& action == GuiAction::Delete ==> b.mode == Mode::Normal && b.load_requested
    &&& action == GuiAction::Cancel ==> b.mode == Mode::Normal
}

#[verifier::opaque]
pub open spec fn save_confirm_step(a: GuiState, b: GuiState, action: GuiAction) -> bool {
    &&& action == GuiAction::Confirm ==> b.mode == Mode::Normal && match a.saved_path {
        Some(p) => b.save_path_requested == Some((p, false)),
        None => b.save_path_requested == a.save_path_requested,
    }
    &&& action == GuiAction::SaveAs ==> b.save_requested && b.mode == Mode::Normal
    &&& action == GuiAction::Cancel ==> b.mode == Mode::Normal
}

/// The actions that edit the text of a prompt.
pub open spec fn is_text_edit(action: GuiAction) -> bool {
    action == GuiAction::Left || action == GuiAction::Right || action is InputChar || action == GuiAction::Backspace
        || action == GuiAction::DeleteChar || action == GuiAction::TextStart || action == GuiAction::TextEnd
}

/// A text-editing action on a prompt of free text: text and cursor as the
/// edit leaves them, the mode kept.
pub open spec fn free_text_step(a: GuiState, b: GuiState, action: GuiAction) -> bool {
    is_text_edit(action) ==> {
        &&& (b.prompt_text@, b.prompt_cursor as int) == text_edit(a.prompt_text@, a.prompt_cursor as int, action, TextInputKind::Free)
        &&& b.mode == a.mode
    }
}

#[verifier::opaque]
pub open spec fn export_prompt_step(a: GuiState, b: GuiState, action: GuiAction) -> bool {
    &&& free_text_step(a, b, action)
    &&& action == GuiAction::Cancel ==> b.mode == Mode::Normal
    &&& action == GuiAction::Confirm ==> {
        let path = trimmed(a.prompt_text@);
        if path.len() == 0 {
            b.mode == Mode::Normal
        } else if path_known(a.saved_path, path) || path_known(a.exported_path, path) {
            b.mode == Mode::ExportConfirm && b.exported_path == a.exported_path
        } else {
            b.mode == Mode::Normal && (b.exported_path matches Some(p) && p@ == path)
        }
    }
    &&& action == GuiAction::Up ==> b.export_loops == min_int(a.export_loops + 1, 100)
    &&& action == GuiAction::Down ==> b.export_loops == max_int(sat_sub(a.export_loops as int, 1), 1)
}

#[verifier::opaque]
pub open spec fn export_confirm_step(a: GuiState, b: GuiState, action: GuiAction) -> bool {
    &&& action == GuiAction::Confirm || action == GuiAction::Copy ==> {
        &&& b.mode == Mode::Normal
        &&& trimmed(a.prompt_text@).len() > 0 ==> (b.exported_path matches Some(p) && p@ == trimmed(a.prompt_text@))
        &&& trimmed(a.prompt_text@).len() == 0 ==> b.exported_path == a.exported_path
    }
    &&& action == GuiAction::Cancel || action == GuiAction::OpenPalette ==> b.mode == Mode::ExportPrompt
}

#[verifier::opaque]
pub open spec fn track_prompt_step(a: GuiState, b: GuiState, action: GuiAction) -> bool {
    &&& free_text_step(a, b, action)
    &&& action == GuiAction::Cancel ==> b.mode == Mode::Normal
    &&& action == GuiAction::Confirm ==> {
        &&& b.mode == Mode::Normal
        &&& b.instrument().track_text@ == trimmed(a.prompt_text@)
        &&& b.track_sync_requested
        &&& b.active_instrument == a.active_instrument
    }
}

#[verifier::opaque]
pub open spec fn track_settings_step(a: GuiState, b: GuiState, action: GuiAction, parameter: usize) -> bool {
    &&& ({
        let p = min_int(parameter as int, 2);
        &&& (action == GuiAction::Cancel || action == GuiAction::TrackSettings || action == GuiAction::Confirm) ==> b.mode == Mode::Normal
        &&& action == GuiAction::Down ==> b.mode == (Mode::TrackSettings { parameter: ((p + 1) % 3) as usize })
        &&& action == GuiAction::Up ==> b.mode == (Mode::TrackSettings { parameter: (if p == 0 { 2 } else { p - 1 }) as usize })
        &&& (action == GuiAction::ValueUp || action == GuiAction::Right) ==> {
            &&& p == 0 ==> b.bpm == min_int(a.bpm + 5, 300)
            &&& p == 1 ==> b.scale_index == (a.scale_index + 1) % (SCALE_COUNT as int)
            &&& p == 2 ==> b.probe_voice == (a.probe_voice + 1) % (NUM_VOICES as int)
        }
        &&& (action == GuiAction::ValueDown || action == GuiAction::Left) ==> {
            &&& p == 0 ==> b.bpm == max_int(sat_sub(a.bpm as int, 5), 20)
            &&& p == 1 ==> b.scale_index == (if a.scale_index == 0 { SCALE_COUNT - 1 } else { a.scale_index - 1 })
            &&& p == 2 ==> b.probe_voice == (if a.probe_voice == 0 { NUM_VOICES - 1 } else { a.probe_voice - 1 })
        }
        &&& action == GuiAction::ValueUpFast && p == 0 ==> b.bpm == min_int(a.bpm + 20, 300)
        &&& action == GuiAction::ValueDownFast && p == 0 ==> b.bpm == max_int(sat_sub(a.bpm as int, 20), 20)
        &&& action == GuiAction::TogglePlay ==> b.playing == !a.playing
    })
}

/// What an action does in the mode the state is in.
pub open spec fn mode_step(a: GuiState, b: GuiState, action: GuiAction, typed: Option<i32>) -> bool {
    match a.mode {
        Mode::Normal => normal_step(a, b, action),
        Mode::QuitConfirm => quit_confirm_step(a, b, action),
        Mode::Palette => palette_step(a, b, action),
        Mode::Move { module, origin } => move_step(a, b, action, module, origin),
        Mode::Copy { source } => copy_step(a, b, action, source),
        Mode::Edit { module, parameter } => edit_step(a, b, action, module, parameter),
        Mode::ValueInput { module, parameter } => value_input_step(a, b, action, module, parameter, typed),
        Mode::AdsrEdit { module, parameter } => adsr_edit_step(a, b, action, module, parameter),
        Mode::EnvEdit { module, point, editing } => env_edit_step(a, b, action, module, point, editing),
        Mode::ProbeEdit { .. } => probe_edit_step(a, b, action),
        Mode::SampleView { module, zoom, offset } => sample_view_step(a, b, action, module, zoom, offset),
        Mode::Select { anchor } => select_step(a, b, action, anchor),
        Mode::SelectMove { anchor, extent, origin } => select_move_step(a, b, action, anchor, extent, origin),
        Mode::CopySelection { anchor, extent, origin } => copy_selection_step(a, b, action, anchor, extent, origin),
        Mode::LoadConfirm => load_confirm_step(a, b, action),
        Mode::SaveConfirm => save_confirm_step(a, b, action),
        Mode::ExportPrompt => export_prompt_step(a, b, action),
        Mode::ExportConfirm => export_confirm_step(a, b, action),
        Mode::TrackPrompt => track_prompt_step(a, b, action),
        Mode::TrackSettings { parameter } => track_settings_step(a, b, action, parameter),
    }
}

/// What follows a mode's step from `a` to `mid`: the engine is asked to hear
/// of a change of playback, tempo or scale since `a`, and the grid view
/// scrolls to keep the active cells in sight; nothing else changes.
pub open spec fn after_step(a: GuiState, mid: GuiState, b: GuiState) -> bool {
    let (lo, hi) = active_rect(mid);
    &&& b.grid_view.x == (if axis_view_in_range(mid.grid_view.x, lo.x, mid.grid_size.width, mid.grid_view_size.columns) {
        spec_updated_axis_view(mid.grid_view.x, lo.x, hi.x, mid.grid_size.width, mid.grid_view_size.columns)
    } else {
        mid.grid_view.x as int
    })
    &&& b.grid_view.y == (if axis_view_in_range(mid.grid_view.y, lo.y, mid.grid_size.height, mid.grid_view_size.rows) {
        spec_updated_axis_view(mid.grid_view.y, lo.y, hi.y, mid.grid_size.height, mid.grid_view_size.rows)
    } else {
        mid.grid_view.y as int
    })
    &&& b.play_sync_requested == (mid.play_sync_requested || mid.playing != a.playing)
    &&& b.track_sync_requested == (mid.track_sync_requested || mid.bpm != a.bpm || mid.scale_index != a.scale_index)
    &&& b.grid_size == mid.grid_size
    &&& b.grid_view_size == mid.grid_view_size
    &&& b.mode == mid.mode
    &&& b.instruments == mid.instruments
    &&& b.active_instrument == mid.active_instrument
    &&& b.playing == mid.playing
    &&& b.show_meters == mid.show_meters
    &&& b.bpm == mid.bpm
    &&& b.scale_index == mid.scale_index
    &&& b.probe_voice == mid.probe_voice
    &&& b.track_edit_requested == mid.track_edit_requested
    &&& b.dirty == mid.dirty
    &&& b.should_quit == mid.should_quit
    &&& b.step_size == mid.step_size
    &&& b.probe_len == mid.probe_len
    &&& b.palette_category == mid.palette_category
    &&& b.palette_index == mid.palette_index
    &&& b.palette_searching == mid.palette_searching
    &&& b.palette_filter == mid.palette_filter
    &&& b.palette_filter_index == mid.palette_filter_index
    &&& b.next_module_id == mid.next_module_id
    &&& b.prompt_text == mid.prompt_text
    &&& b.prompt_cursor == mid.prompt_cursor
    &&& b.saved_path == mid.saved_path
    &&& b.exported_path == mid.exported_path
    &&& b.load_requested == mid.load_requested
    &&& b.save_requested == mid.save_requested
    &&& b.load_after_save == mid.load_after_save
    &&& b.relink_sample_request == mid.relink_sample_request
    &&& b.export_loops == mid.export_loops
    &&& b.open_modules_requested == mid.open_modules_requested
    &&& b.user_compositions == mid.user_compositions
    &&& b.undo == mid.undo
    &&& b.redo == mid.redo
    &&& b.audio_status == mid.audio_status
    &&& b.document_status == mid.document_status
    &&& b.patch_sync_requested == mid.patch_sync_requested
    &&& b.insert_requested == mid.insert_requested
    &&& b.save_path_requested == mid.save_path_requested
    &&& b.pointer_drag == mid.pointer_drag
    &&& b.held_move == mid.held_move
    &&& b.held_selection == mid.held_selection
}

impl GuiState {
    /// Answers an action in the current mode, then asks for the engine to be
    /// told of a change of playback, tempo or scale, and scrolls the grid
    /// view to keep the active cells in sight. `typed` is the prompt's text
    /// read as a decimal number in hundredths, for a typed value.
    #[verifier::spinoff_prover]
    pub fn apply(&mut self, action: GuiAction, typed: Option<i32>)
        requires
            old(self).wf(),
        ensures
            final(self).wf(),
            exists|mid: GuiState| mode_step(*old(self), mid, action, typed) && after_step(*old(self), mid, *final(self)),
    {
        let playing = self.playing;
        let bpm = self.bpm;
        let scale_index = self.scale_index;
        self.step(action, typed);
        let ghost mid = *self;
        self.update_grid_view();
        self.request_syncs(playing, bpm, scale_index);
        proof {
            assert(mode_step(*old(self), mid, action, typed) && after_step(*old(self), mid, *self));
        }
    }

    /// Asks for the engine to be told of playback, tempo or scale when they
    /// differ from the given ones.
    fn request_syncs(&mut self, playing: bool, bpm: u16, scale_index: usize)
        requires
            old(self).wf(),
        ensures
            final(self).wf(),
            final(self).play_sync_requested == (old(self).play_sync_requested || old(self).playing != playing),
            final(self).track_sync_requested == (old(self).track_sync_requested || old(self).bpm != bpm || old(self).scale_index != scale_index),
            final(self).grid_size == old(self).grid_size,
            final(self).grid_view == old(self).grid_view,
            final(self).grid_view_size == old(self).grid_view_size,
            final(self).mode == old(self).mode,
            final(self).instruments == old(self).instruments,
            final(self).active_instrument == old(self).active_instrument,
            final(self).playing == old(self).playing,
            final(self).show_meters == old(self).show_meters,
            final(self).bpm == old(self).bpm,
            final(self).scale_index == old(self).scale_index,
            final(self).probe_voice == old(self).probe_voice,
            final(self).track_edit_requested == old(self).track_edit_requested,
            final(self).dirty == old(self).dirty,
            final(self).should_quit == old(self).should_quit,
            final(self).step_size == old(self).step_size,
            final(self).probe_len == old(self).probe_len,
            final(self).palette_category == old(self).palette_category,
            final(self).palette_index == old(self).palette_index,
            final(self).palette_searching == old(self).palette_searching,
            final(self).palette_filter == old(self).palette_filter,
            final(self).palette_filter_index == old(self).palette_filter_index,
            final(self).next_module_id == old(self).next_module_id,
            final(self).prompt_text == old(self).prompt_text,
            final(self).prompt_cursor == old(self).prompt_cursor,
            final(self).saved_path == old(self).saved_path,
            final(self).exported_path == old(self).exported_path,
            final(self).load_requested == old(self).load_requested,
            final(self).save_requested == old(self).save_requested,
            final(self).load_after_save == old(self).load_after_save,
            final(self).relink_sample_request == old(self).relink_sample_request,
            final(self).export_loops == old(self).export_loops,
            final(self).open_modules_requested == old(self).open_modules_requested,
            final(self).user_compositions == old(self).user_compositions,
            final(self).undo == old(self).undo,
            final(self).redo == old(self).redo,
            final(self).audio_status == old(self).audio_status,
            final(self).document_status == old(self).document_status,
            final(self).patch_sync_requested == old(self).patch_sync_requested,
            final(self).insert_requested == old(self).insert_requested,
            final(self).save_path_requested == old(self).save_path_requested,
            final(self).pointer_drag == old(self).pointer_drag,
            final(self).held_move == old(self).held_move,
            final(self).held_selection == old(self).held_selection,
    {
        if self.playing != playing {
            self.play_sync_requested = true;
        }
        if self.bpm != bpm || self.scale_index != scale_index {
            self.track_sync_requested = true;
        }
    }

    /// Answers an action in the current mode.
    #[verifier::spinoff_prover]
    #[verifier::rlimit(40)]
    fn step(&mut self, action: GuiAction, typed: Option<i32>)
        requires
            old(self).wf(),
        ensures
            final(self).wf(),
            mode_step(*old(self), *final(self), action, typed),
    {
        match self.mode {
            Mode::Normal => self.apply_normal(action),
            Mode::QuitConfirm => self.apply_quit_confirm(action),
            Mode::Palette => self.apply_palette(action),
            Mode::Move { module, origin } => self.apply_move(action, module, origin),
            Mode::Copy { source } => self.apply_copy(action, source),
            Mode::Edit { module, parameter } => self.apply_edit(action, module, parameter),
            Mode::ValueInput { module, parameter } => self.apply_value_input(action, module, parameter, typed),
            Mode::AdsrEdit { module, parameter } => self.apply_adsr_edit(action, module, parameter),
            Mode::EnvEdit { module, point, editing } => self.apply_env_edit(action, module, point, editing),
            Mode::ProbeEdit { .. } => self.apply_probe_edit(action),
            Mode::SampleView { module, zoom, offset } => self.apply_sample_view(action, module, zoom, offset),
            Mode::Select { anchor } => self.apply_select(action, anchor),
            Mode::SelectMove { anchor, extent, origin } => self.apply_select_move(action, anchor, extent, origin),
            Mode::CopySelection { anchor, extent, origin } => self.apply_copy_selection(action, anchor, extent, origin),
            Mode::LoadConfirm => self.apply_load_confirm(action),
            Mode::SaveConfirm => self.apply_save_confirm(action),
            Mode::ExportPrompt => self.apply_export_prompt(action),
            Mode::ExportConfirm => self.apply_export_confirm(action),
            Mode::TrackPrompt => self.apply_track_prompt(action),
            Mode::TrackSettings { parameter } => self.apply_track_settings(action, parameter),
        }
    }
}

/// The name of each scale, by index.
pub open spec fn scale_name_of(i: usize) -> Seq<char> {
    if i == 0 {
        "Chromatic"@
    } else if i == 1 {
        "C maj"@
    } else if i == 2 {
        "C min"@
    } else if i == 3 {
        "C# maj"@
    } else if i == 4 {
        "C# min"@
    } else if i == 5 {
        "D maj"@
    } else if i == 6 {
        "D min"@
    } else if i == 7 {
        "D# maj"@
    } else if i == 8 {
        "D# min"@
    } else if i == 9 {
        "E maj"@
    } else if i == 10 {
        "E min"@
    } else if i == 11 {
        "F maj"@
    } else if i == 12 {
        "F min"@
    } else if i == 13 {
        "F# maj"@
    } else if i == 14 {
        "F# min"@
    } else if i == 15 {
        "G maj"@
    } else if i == 16 {
        "G min"@
    } else if i == 17 {
        "G# maj"@
    } else if i == 18 {
        "G# min"@
    } else if i == 19 {
        "A maj"@
    } else if i == 20 {
        "A min"@
    } else if i == 21 {
        "A# maj"@
    } else if i == 22 {
        "A# min"@
    } else if i == 23 {
        "B maj"@
    } else {
        "B min"@
    }
}

impl GuiState {
    /// The name of the track's scale.
    pub fn scale_name(&self) -> (r: &'static str)
        requires
            self.wf(),
        ensures
            r@ == scale_name_of(self.scale_index),
    {
        match self.scale_index {
            0 => "Chromatic",
            1 => "C maj",
            2 => "C min",
            3 => "C# maj",
            4 => "C# min",
            5 => "D maj",
            6 => "D min",
            7 => "D# maj",
            8 => "D# min",
            9 => "E maj",
            10 => "E min",
            11 => "F maj",
            12 => "F min",
            13 => "F# maj",
            14 => "F# min",
            15 => "G maj",
            16 => "G min",
            17 => "G# maj",
            18 => "G# min",
            19 => "A maj",
            20 => "A min",
            21 => "A# maj",
            22 => "A# min",
            23 => "B maj",
            _ => "B min",
        }
    }
}

impl GuiState {
    pub fn mode(&self) -> (r: Mode)
        ensures
            r == self.mode,
    {
        self.mode
    }

    pub fn playing(&self) -> (r: bool)
        ensures
            r == self.playing,
    {
        self.playing
    }

    pub fn audio_status(&self) -> (r: &str)
        ensures
            r@ == self.audio_status@,
    {
        self.audio_status.as_str()
    }

    pub fn document_status(&self) -> (r: &str)
        ensures
            r@ == self.document_status@,
    {
        self.document_status.as_str()
    }

    pub fn show_meters(&self) -> (r: bool)
        ensures
            r == self.show_meters,
    {
        self.show_meters
    }

    pub fn bpm(&self) -> (r: u16)
        ensures
            r == self.bpm,
    {
        self.bpm
    }

    pub fn scale_index(&self) -> (r: usize)
        ensures
            r == self.scale_index,
    {
        self.scale_index
    }

    pub fn probe_voice(&self) -> (r: usize)
        ensures
            r == self.probe_voice,
    {
        self.probe_voice
    }

    pub fn track_edit_requested(&self) -> (r: bool)
        ensures
            r == self.track_edit_requested,
    {
        self.track_edit_requested
    }

    pub fn dirty(&self) -> (r: bool)
        ensures
            r == self.dirty,
    {
        self.dirty
    }

    pub fn should_quit(&self) -> (r: bool)
        ensures
            r == self.should_quit,
    {
        self.should_quit
    }

    pub fn step_size(&self) -> (r: usize)
        ensures
            r == self.step_size,
    {
        self.step_size
    }

    pub fn probe_len(&self) -> (r: u32)
        ensures
            r == self.probe_len,
    {
        self.probe_len
    }

    pub fn active_instrument(&self) -> (r: usize)
        ensures
            r == self.active_instrument,
    {
        self.active_instrument
    }

    pub fn instrument_count(&self) -> (r: usize)
        ensures
            r == self.instruments@.len(),
    {
        self.instruments.len()
    }

    /// The prompt's text.
    pub fn prompt_text(&self) -> (r: String)
        ensures
            r@ == self.prompt_text@,
    {
        string_from_chars(self.prompt_text.as_slice())
    }

    /// Where the prompt's cursor is, in characters.
    pub fn prompt_cursor(&self) -> (r: usize)
        ensures
            r == self.prompt_cursor,
    {
        self.prompt_cursor
    }

    /// Replaces the prompt's text, with the cursor after it.
    pub fn sync_track_prompt_text(&mut self, text: &str)
        requires
            old(self).wf(),
        ensures
            final(self).wf(),
            final(self).prompt_text@ == text@,
            final(self).prompt_cursor == text@.len(),
    {
        self.prompt_text = chars_of(text);
        self.prompt_cursor = self.prompt_text.len();
    }

    pub fn saved_path(&self) -> (r: Option<&str>)
        ensures
            match self.saved_path {
                Some(p) => r matches Some(q) && q@ == p@,
                None => r is None,
            },
    {
        match &self.saved_path {
            Some(p) => Some(p.as_str()),
            None => None,
        }
    }

    pub fn exported_path(&self) -> (r: Option<&str>)
        ensures
            match self.exported_path {
                Some(p) => r matches Some(q) && q@ == p@,
                None => r is None,
            },
    {
        match &self.exported_path {
            Some(p) => Some(p.as_str()),
            None => None,
        }
    }

    /// Whether loading was asked for, clearing the request.
    pub fn take_load_request(&mut self) -> (r: bool)
        ensures
            r == old(self).load_requested,
            !final(self).load_requested,
    {
        let r = self.load_requested;
        self.load_requested = false;
        r
    }

    /// Whether saving under a new path was asked for, clearing the request.
    pub fn take_save_request(&mut self) -> (r: bool)
        ensures
            r == old(self).save_requested,
            !final(self).save_requested,
    {
        let r = self.save_requested;
        self.save_requested = false;
        r
    }

    /// Whether a load waits on the save asked for, clearing the request.
    pub fn take_load_after_save(&mut self) -> (r: bool)
        ensures
            r == old(self).load_after_save,
            !final(self).load_after_save,
    {
        let r = self.load_after_save;
        self.load_after_save = false;
        r
    }

    /// Whether the folder of the user's modules was asked for, clearing the request.
    pub fn take_open_modules_request(&mut self) -> (r: bool)
        ensures
            r == old(self).open_modules_requested,
            !final(self).open_modules_requested,
    {
        let r = self.open_modules_requested;
        self.open_modules_requested = false;
        r
    }

    /// The sample module whose file was asked to be chosen again, clearing the request.
    pub fn take_relink_sample_request(&mut self) -> (r: Option<ModuleId>)
        ensures
            r == old(self).relink_sample_request,
            final(self).relink_sample_request is None,
    {
        let r = self.relink_sample_request;
        self.relink_sample_request = None;
        r
    }

    /// Asks for a sample module's file to be chosen again.
    pub fn request_relink_sample(&mut self, module: ModuleId)
        ensures
            final(self).relink_sample_request == Some(module),
    {
        self.relink_sample_request = Some(module);
    }

    /// The save the document waits on, and whether a load follows it,
    /// clearing the request.
    pub fn take_save_path_request(&mut self) -> (r: Option<(String, bool)>)
        ensures
            r == old(self).save_path_requested,
            final(self).save_path_requested is None,
    {
        let r = self.save_path_requested.take();
        r
    }

    /// The palette choice waiting to be placed, clearing the request.
    pub fn take_insert_request(&mut self) -> (r: Option<(ModuleKind, Option<usize>)>)
        ensures
            r == old(self).insert_requested,
            final(self).insert_requested is None,
    {
        let r = self.insert_requested;
        self.insert_requested = None;
        r
    }

    /// Whether the patch should be sent to the audio engine, clearing the request.
    pub fn take_patch_sync(&mut self) -> (r: bool)
        ensures
            r == old(self).patch_sync_requested,
            !final(self).patch_sync_requested,
    {
        let r = self.patch_sync_requested;
        self.patch_sync_requested = false;
        r
    }

    /// Whether the track should be sent to the audio engine, clearing the request.
    pub fn take_track_sync(&mut self) -> (r: bool)
        ensures
            r == old(self).track_sync_requested,
            !final(self).track_sync_requested,
    {
        let r = self.track_sync_requested;
        self.track_sync_requested = false;
        r
    }

    /// Whether playback should be started or stopped in the audio engine,
    /// clearing the request.
    pub fn take_play_sync(&mut self) -> (r: bool)
        ensures
            r == old(self).play_sync_requested,
            !final(self).play_sync_requested,
    {
        let r = self.play_sync_requested;
        self.play_sync_requested = false;
        r
    }

    pub fn export_loops(&self) -> (r: u16)
        ensures
            r == self.export_loops,
    {
        self.export_loops
    }

    pub fn palette_category(&self) -> (r: ModuleCategory)
        ensures
            r == self.palette_category,
    {
        self.palette_category
    }

    pub fn palette_searching(&self) -> (r: bool)
        ensures
            r == self.palette_searching,
    {
        self.palette_searching
    }

    /// The palette search text.
    pub fn palette_filter(&self) -> (r: String)
        ensures
            r@ == self.palette_filter@,
    {
        string_from_chars(self.palette_filter.as_slice())
    }

    /// Sets the names of the user's compositions the palette offers.
    pub fn set_user_compositions(&mut self, names: Vec<String>)
        requires
            old(self).wf(),
        ensures
            final(self).wf(),
            *final(self) == (GuiState { user_compositions: names, ..*old(self) }),
    {
        self.user_compositions = names;
    }

    /// Records that audio could not be started, and why.
    pub fn set_audio_unavailable(&mut self, reason: &str)
        requires
            old(self).wf(),
        ensures
            final(self).wf(),
            final(self).audio_status@ == "Audio disabled: "@ + reason@,
    {
        let mut status = "Audio disabled: ".to_owned();
        status.append(reason);
        self.audio_status = status;
    }

    /// Records the audio engine's state as the host reports it.
    pub fn set_audio_status(&mut self, status: String)
        requires
            old(self).wf(),
        ensures
            final(self).wf(),
            final(self).audio_status == status,
    {
        self.audio_status = status;
    }

    /// Points a sample module of the edited surface at another file, which
    /// then counts as present. The change is recorded for undo and the status
    /// names the file. Returns whether the edited surface holds a sample module
    /// with that id; when it does not, nothing changes.
    pub fn relink_sample(&mut self, module: ModuleId, path: String) -> (r: bool)
        requires
            old(self).wf(),
        ensures
            final(self).wf(),
            r == (match first_module_index(old(self).surface().modules@, module) {
                Some(i) => old(self).surface().modules@[i].body is Sample,
                None => false,
            }),
            !r ==> *final(self) == *old(self),
            r ==> ({
                let ms = old(self).surface().modules@;
                let i = first_module_index(ms, module)->0;
                let fs = final(self).surface().modules@;
                &&& fs.len() == ms.len()
                &&& forall|k: int| 0 <= k < ms.len() && k != i ==> layout_eq(#[trigger] ms[k], fs[k])
                &&& fs[i].id == ms[i].id
                &&& fs[i].position == ms[i].position
                &&& fs[i].orientation == ms[i].orientation
                &&& relinked(ms[i].body, fs[i].body, path@)
                &&& final(self).document_status@ == "Relinked sample "@ + path@
                &&& final(self).mode == old(self).mode
                &&& final(self).active_instrument == old(self).active_instrument
            }),
    {
        let index = match find_module(&self.instruments[self.active_instrument].surface().modules, module) {
            Some(i) => i,
            None => return false,
        };
        let is_sample = match &self.modules()[index].body {
            ModuleBody::Sample { .. } => true,
            _ => false,
        };
        if !is_sample {
            return false;
        }
        let before = self.snapshot();
        let ghost start = self.instrument();
        let ghost old_ms = self.surface().modules@;
        let mut s = self.take_surface();
        let mut m = s.modules.remove(index);
        let position = match &m.body {
            ModuleBody::Sample { position, .. } => *position,
            _ => return false,
        };
        m.body = ModuleBody::Sample { file_name: path.clone(), file_missing: false, position };
        s.modules.insert(index, m);
        self.put_surface(s, Ghost(start));
        let ghost mid = *self;
        self.commit(before);
        proof {
            lemma_surface_layout(mid, *self);
            assert forall|k: int| 0 <= k < old_ms.len() && k != index implies layout_eq(#[trigger] old_ms[k], self.surface().modules@[k]) by {
                assert(mid.surface().modules@[k] == old_ms[k]);
            }
            let fm = self.surface().modules@[index as int];
            assert(layout_eq(mid.surface().modules@[index as int], fm));
            assert(relinked(old_ms[index as int].body, mid.surface().modules@[index as int].body, path@));
            assert(relinked(old_ms[index as int].body, fm.body, path@));
        }
        let mut status = "Relinked sample ".to_owned();
        status.append(path.as_str());
        self.document_status = status;
        true
    }

    /// The sample files the document refers to, one entry per sample module,
    /// nested ones included, in order.
    pub fn sample_files(&self) -> (r: Vec<String>)
        ensures
            names_view(r@) == all_sample_names(self.instruments@),
    {
        instrument_sample_names(&self.instruments)
    }

    /// Records how opening a document went. On success every sample module
    /// is marked missing exactly when its file is named in the list, and the
    /// status says the document was opened, naming the missing files each
    /// once, in order; on failure the status gives the error.
    pub fn finish_load(&mut self, outcome: Result<Vec<String>, String>)
        requires
            old(self).wf(),
        ensures
            final(self).wf(),
            final(self).mode == old(self).mode,
            final(self).active_instrument == old(self).active_instrument,
            final(self).undo == old(self).undo,
            final(self).saved_path == old(self).saved_path,
            outcome matches Ok(missing) ==> {
                let miss = names_view(missing@);
                let found = note_missing(Seq::empty(), all_sample_names(old(self).instruments@), miss);
                &&& forall|k: int| 0 <= k < INSTRUMENT_COUNT ==> {
                    &&& marked_list(old(self).instruments@[k].root.modules@, #[trigger] final(self).instruments@[k].root.modules@, miss)
                    &&& final(self).instruments@[k].root.cursor == old(self).instruments@[k].root.cursor
                    &&& final(self).instruments@[k].track_text == old(self).instruments@[k].track_text
                    &&& final(self).instruments@[k].editing_composition == old(self).instruments@[k].editing_composition
                }
                &&& final(self).document_status@ == "Opened "@ + document_label_of(old(self).saved_path, old(self).dirty) + (if found.len() == 0 {
                    Seq::empty()
                } else {
                    "; missing sample files: "@ + joined(found)
                })
            },
            outcome matches Err(e) ==> {
                &&& final(self).document_status@ == "Open failed: "@ + e@
                &&& final(self).instruments == old(self).instruments
            },
    {
        match outcome {
            Ok(missing) => {
                let found = mark_missing_in_instruments(&mut self.instruments, &missing);
                let label = self.document_label();
                let mut status = "Opened ".to_owned();
                status.append(label.as_str());
                if found.len() > 0 {
                    status.append("; missing sample files: ");
                    push_joined(&mut status, &found);
                }
                self.document_status = status;
            },
            Err(e) => {
                let mut status = "Open failed: ".to_owned();
                status.append(e.as_str());
                self.document_status = status;
            },
        }
    }

    /// Whether the document can be written to a project file, which holds
    /// one instrument: every other instrument must be empty with the default
    /// track, and the compositions of the one edited must label their ports
    /// well (see `validate_composition_labels`).
    pub fn check_project(&self) -> (r: Result<(), String>)
        requires
            self.wf(),
        ensures
            !single_instrument(*self) ==> (r matches Err(e) && e@ == "project files support one instrument"@),
            single_instrument(*self) ==> match label_error(self.instrument().root.modules@) {
                None => r is Ok,
                Some(l) => r matches Err(e) && e@ == "invalid composition port label "@ + debug_text(l),
            },
    {
        let mut i: usize = 0;
        while i < self.instruments.len()
            invariant
                self.wf(),
                i <= self.instruments@.len(),
                forall|k: int| 0 <= k < i && k != self.active_instrument ==> (#[trigger] self.instruments@[k]).root.modules@.len() == 0
                    && self.instruments@[k].track_text@ == "(0/2/4/7)"@,
            decreases self.instruments@.len() - i,
        {
            let inst = &self.instruments[i];
            if i != self.active_instrument && (inst.root.modules.len() > 0 || !same_text(inst.track_text.as_str(), "(0/2/4/7)")) {
                proof {
                    reveal_strlit("(0/2/4/7)");
                }
                return Err("project files support one instrument".to_owned());
            }
            i = i + 1;
        }
        validate_composition_labels(&self.instruments[self.active_instrument].root)
    }

    /// Records a message about the document.
    pub fn set_document_status(&mut self, status: String)
        requires
            old(self).wf(),
        ensures
            final(self).wf(),
            final(self).document_status == status,
    {
        self.document_status = status;
    }

    /// The kind of the palette entry the selection is on.
    pub fn selected_palette_module(&self) -> (r: ModuleKind)
        ensures
            ({
                let es = category_entries(self.palette_category, names_view(self.user_compositions@));
                r == es[min_int(self.palette_index as int, es.len() - 1)].0
            }),
    {
        self.selected_palette_choice().kind
    }

    /// The name of the palette entry the selection is on.
    pub fn selected_palette_label(&self) -> (r: String)
        ensures
            ({
                let es = category_entries(self.palette_category, names_view(self.user_compositions@));
                r@ == es[min_int(self.palette_index as int, es.len() - 1)].1
            }),
    {
        self.selected_palette_choice().name
    }

    /// The kind of the search result the selection is on, if any.
    pub fn selected_filtered_palette_module(&self) -> (r: Option<ModuleKind>)
        ensures
            ({
                let rs = search_results(self.palette_filter@, names_view(self.user_compositions@));
                r == (if self.palette_filter_index < rs.len() { Some(rs[self.palette_filter_index as int].0) } else { None })
            }),
    {
        let results = self.filtered_palette_modules();
        proof {
            assert(results@.map_values(|m: PaletteModule| m.entry()).len() == results@.len());
        }
        if self.palette_filter_index < results.len() {
            assert(results@.map_values(|m: PaletteModule| m.entry())[self.palette_filter_index as int] == results@[self.palette_filter_index as int].entry());
            Some(results[self.palette_filter_index].kind)
        } else {
            None
        }
    }

    /// The two corners of the selection, if one is being drawn or carried.
    pub fn selection(&self) -> (r: Option<(GridPos, GridPos)>)
        requires
            self.wf(),
        ensures
            r == selection_of(self.mode, self.surface().cursor),
    {
        match self.mode {
            Mode::Select { anchor } => Some((anchor, self.cursor())),
            Mode::SelectMove { anchor, extent, .. } => Some((anchor, extent)),
            Mode::CopySelection { anchor, extent, .. } => Some((anchor, extent)),
            _ => None,
        }
    }

    /// The connections between the modules of the surface being edited.
    pub fn connections(&self) -> (r: Vec<crate::surface::Connection>)
        requires
            self.wf(),
        ensures
            r@ == crate::surface::surface_connection_list(self.surface().modules@, self.grid_size.width as int, self.grid_size.height as int),
    {
        crate::surface::surface_connections(&self.instruments[self.active_instrument].surface().modules, self.grid_size.width, self.grid_size.height)
    }

    /// Changes how much of the grid the window shows, and scrolls to keep
    /// the active cells in sight.
    pub fn set_grid_view_size(&mut self, size: GridViewSize)
        requires
            old(self).wf(),
        ensures
            final(self).wf(),
            final(self).grid_view_size == size,
            final(self).instruments == old(self).instruments,
    {
        if self.grid_view_size != size {
            self.grid_view_size = size;
            self.update_grid_view();
        }
    }

    /// Opens the palette on a category.
    pub fn open_category(&mut self, category: ModuleCategory)
        requires
            old(self).wf(),
        ensures
            final(self).wf(),
            final(self).mode == Mode::Palette,
            final(self).palette_category == category,
            final(self).palette_index == 0,
            !final(self).palette_searching,
    {
        self.open_palette(category);
    }

    /// Selects an entry of the palette's category, kept within the list.
    pub fn choose_palette_index(&mut self, index: usize)
        requires
            old(self).wf(),
        ensures
            final(self).wf(),
            final(self).mode == Mode::Palette,
            !final(self).palette_searching,
            final(self).palette_filter@.len() == 0,
            final(self).palette_index == min_int(index as int, category_entries(old(self).palette_category, names_view(old(self).user_compositions@)).len() - 1),
            *final(self) == (GuiState {
                mode: Mode::Palette,
                palette_searching: false,
                palette_filter: final(self).palette_filter,
                palette_filter_index: 0,
                palette_index: final(self).palette_index,
                ..*old(self)
            }),
    {
        let modules = self.palette_modules();
        let n = modules.len();
        proof {
            lemma_category_nonempty(self.palette_category);
            assert(modules@.map_values(|m: PaletteModule| m.entry()).len() == n);
        }
        self.mode = Mode::Palette;
        self.palette_searching = false;
        self.palette_filter.clear();
        self.palette_filter_index = 0;
        self.palette_index = if index < n - 1 { index } else { n - 1 };
    }

    /// Selects a search result, kept within the results.
    pub fn choose_filtered_palette_index(&mut self, index: usize)
        requires
            old(self).wf(),
        ensures
            final(self).wf(),
            final(self).mode == Mode::Palette,
            final(self).palette_searching,
            final(self).palette_filter_index == min_int(index as int, sat_sub(search_results(old(self).palette_filter@, names_view(old(self).user_compositions@)).len() as int, 1)),
    {
        let results = self.filtered_palette_modules();
        proof {
            assert(results@.map_values(|m: PaletteModule| m.entry()).len() == results@.len());
        }
        let last = if results.len() >= 1 { results.len() - 1 } else { 0 };
        self.mode = Mode::Palette;
        self.palette_searching = true;
        self.palette_filter_index = if index < last { index } else { last };
    }
}

/// What a pointer drag over the grid is doing.
#[derive(Clone, Copy, Debug, PartialEq, Eq, Structural)]
pub enum PointerDrag {
    /// A module is carried: it stood at `origin` and was grabbed at `grab`.
    Module { module: ModuleId, origin: GridPos, grab: GridPos },
    /// A selection is drawn from `anchor`.
    Selection { anchor: GridPos },
    /// The selection from `anchor` to `extent` is carried, last held at `origin`.
    SelectionMove { anchor: GridPos, extent: GridPos, origin: GridPos },
}

/// Where a pointer drag over the grid is.
#[derive(Clone, Copy, Debug, PartialEq, Eq, Structural)]
pub enum GridPointerPhase {
    Start,
    Drag,
    End,
}

/// Where a pointer drag over an envelope is.
#[derive(Clone, Copy, Debug, PartialEq, Eq, Structural)]
pub enum EnvPointerPhase {
    Start,
    Drag,
    End,
}

/// The lower corner of the rectangle two cells span.
pub open spec fn rect_low(a: GridPos, b: GridPos) -> GridPos {
    GridPos { x: min_int(a.x as int, b.x as int) as u16, y: min_int(a.y as int, b.y as int) as u16 }
}

/// The upper corner of the rectangle two cells span.
pub open spec fn rect_high(a: GridPos, b: GridPos) -> GridPos {
    GridPos { x: max_int(a.x as int, b.x as int) as u16, y: max_int(a.y as int, b.y as int) as u16 }
}

/// Whether a cell lies in the rectangle from `lo` to `hi`.
pub open spec fn cell_within(p: GridPos, lo: GridPos, hi: GridPos) -> bool {
    lo.x <= p.x <= hi.x && lo.y <= p.y <= hi.y
}

/// The cell the cursor goes to when the pointer points at `p`.
pub open spec fn focused(grid: GridSize, p: GridPos) -> GridPos {
    GridPos {
        x: min_int(p.x as int, sat_sub(grid.width as int, 1)) as u16,
        y: min_int(p.y as int, sat_sub(grid.height as int, 1)) as u16,
    }
}

/// A cell moved by `(dx, dy)` and kept on the grid.
pub open spec fn shifted_cell(p: GridPos, dx: int, dy: int, grid: GridSize) -> GridPos {
    GridPos {
        x: clamp_int(p.x + dx, 0, sat_sub(grid.width as int, 1)) as u16,
        y: clamp_int(p.y + dy, 0, sat_sub(grid.height as int, 1)) as u16,
    }
}

/// The ids of the modules whose top-left cell lies between `lo` and `hi`, in order.
pub open spec fn ids_placed_within(ms: Seq<Module>, lo: GridPos, hi: GridPos) -> Seq<ModuleId>
    decreases ms.len(),
{
    if ms.len() == 0 {
        Seq::empty()
    } else {
        let rest = ids_placed_within(ms.drop_last(), lo, hi);
        if cell_within(ms.last().position, lo, hi) { rest.push(ms.last().id) } else { rest }
    }
}

/// The modules with the listed ids moved by `(dx, dy)`, each kept on the grid.
pub open spec fn carried(ms: Seq<Module>, ids: Seq<ModuleId>, dx: int, dy: int, grid: GridSize) -> Seq<Module> {
    Seq::new(ms.len(), |i: int| if ids.contains(ms[i].id) { moved_to(ms[i], shifted_cell(ms[i].position, dx, dy, grid)) } else { ms[i] })
}

/// Whether every module with a listed id fits where it is carried to,
/// ignoring the carried modules themselves.
pub open spec fn carry_fits(ms: Seq<Module>, ids: Seq<ModuleId>, dx: int, dy: int, grid: GridSize) -> bool {
    forall|i: int| 0 <= i < ms.len() && ids.contains(#[trigger] ms[i].id) ==> area_fits_spec(
        ms, grid, grid_width(ms[i]), grid_height(ms[i]), shifted_cell(ms[i].position, dx, dy, grid), ids)
}

/// Where a grabbed module goes when the pointer moves from `grab` to `target`.
pub open spec fn dragged_position(m: Module, origin: GridPos, grab: GridPos, target: GridPos, grid: GridSize) -> GridPos {
    match bounded_position(m, grid, origin.x + target.x - grab.x, origin.y + target.y - grab.y) {
        Some(p) => p,
        None => m.position,
    }
}

/// The envelope point closest to `(time, value)`; the first of equally close ones.
pub open spec fn nearest_point(points: Seq<EnvPoint>, time: int, value: int) -> int
    decreases points.len(),
{
    if points.len() <= 1 {
        0
    } else {
        let k = nearest_point(points.drop_last(), time, value);
        let last = points.len() - 1;
        if point_distance(points[last], time, value) < point_distance(points[k], time, value) { last } else { k }
    }
}

/// The squared distance of an envelope point to `(time, value)`.
pub open spec fn point_distance(p: EnvPoint, time: int, value: int) -> int {
    (p.time - time) * (p.time - time) + (p.value - value) * (p.value - value)
}

fn normalized_rect(a: GridPos, b: GridPos) -> (r: (GridPos, GridPos))
    ensures
        r == (rect_low(a, b), rect_high(a, b)),
{
    (
        GridPos::new(if a.x <= b.x { a.x } else { b.x }, if a.y <= b.y { a.y } else { b.y }),
        GridPos::new(if a.x >= b.x { a.x } else { b.x }, if a.y >= b.y { a.y } else { b.y }),
    )
}

fn within(p: GridPos, lo: GridPos, hi: GridPos) -> (r: bool)
    ensures
        r == cell_within(p, lo, hi),
{
    p.x >= lo.x && p.x <= hi.x && p.y >= lo.y && p.y <= hi.y
}

proof fn lemma_nearest_point_bounds(points: Seq<EnvPoint>, time: int, value: int)
    ensures
        points.len() > 0 ==> 0 <= nearest_point(points, time, value) < points.len(),
    decreases points.len(),
{
    if points.len() > 1 {
        lemma_nearest_point_bounds(points.drop_last(), time, value);
    }
}

/// The index of the envelope point closest to `(time, value)`.
fn nearest_point_index(points: &Vec<EnvPoint>, time: i32, value: i32) -> (r: usize)
    requires
        points@.len() > 0,
    ensures
        r == nearest_point(points@, time as int, value as int),
        r < points@.len(),
{
    let mut best: usize = 0;
    let mut i: usize = 1;
    while i < points.len()
        invariant
            1 <= i <= points@.len(),
            best == nearest_point(points@.take(i as int), time as int, value as int),
            best < i,
        decreases points@.len() - i,
    {
        let p = points[i];
        let b = points[best];
        let dt = p.time as i128 - time as i128;
        let dv = p.value as i128 - value as i128;
        let bt = b.time as i128 - time as i128;
        let bv = b.value as i128 - value as i128;
        assert(points@.take(i + 1).drop_last() =~= points@.take(i as int));
        assert(points@.take(i + 1)[best as int] == b);
        assert(points@.take(i + 1)[i as int] == p);
        assert(0 <= dt * dt <= 0x1_0000_0000_0000_0000 && 0 <= dv * dv <= 0x1_0000_0000_0000_0000
            && 0 <= bt * bt <= 0x1_0000_0000_0000_0000 && 0 <= bv * bv <= 0x1_0000_0000_0000_0000) by (nonlinear_arith)
            requires
                -0x1_0000_0000 <= dt <= 0x1_0000_0000,
                -0x1_0000_0000 <= dv <= 0x1_0000_0000,
                -0x1_0000_0000 <= bt <= 0x1_0000_0000,
                -0x1_0000_0000 <= bv <= 0x1_0000_0000,
        ;
        if dt * dt + dv * dv < bt * bt + bv * bv {
            best = i;
        }
        i = i + 1;
    }
    assert(points@.take(i as int) =~= points@);
    best
}

/// The first position of a point in a list.
fn point_position(points: &Vec<EnvPoint>, p: EnvPoint) -> (r: Option<usize>)
    ensures
        r matches Some(k) ==> k < points@.len() && points@[k as int] == p && forall|t: int| 0 <= t < k ==> points@[t] != p,
        r is None ==> !points@.contains(p),
{
    let mut k: usize = 0;
    while k < points.len()
        invariant
            k <= points@.len(),
            forall|t: int| 0 <= t < k ==> points@[t] != p,
        decreases points@.len() - k,
    {
        if points[k] == p {
            return Some(k);
        }
        k = k + 1;
    }
    None
}

/// The state after a pointer drag starts at `position`: the cursor goes
/// there; inside a selection the selection is picked up there, outside it
/// the selection ends; in the normal mode the drag carries the module under
/// the pointer, or draws a selection when there is none.
pub open spec fn drag_started(old: GuiState, new: GuiState, position: GridPos) -> bool {
    &&& new.surface().cursor == focused(old.grid_size, position)
    &&& new.surface().modules == old.surface().modules
    &&& new.undo == old.undo
    &&& match old.mode {
        Mode::Select { anchor } => {
            let lo = rect_low(anchor, old.surface().cursor);
            let hi = rect_high(anchor, old.surface().cursor);
            if cell_within(position, lo, hi) {
                &&& new.mode == (Mode::SelectMove { anchor: lo, extent: hi, origin: position })
                &&& new.pointer_drag == Some(PointerDrag::SelectionMove { anchor: lo, extent: hi, origin: position })
            } else {
                new.mode == Mode::Normal && new.pointer_drag is None
            }
        },
        Mode::Normal => {
            &&& new.mode == Mode::Normal
            &&& new.pointer_drag == (match first_covering(old.surface().modules@, position, 0) {
                Some(i) => Some(PointerDrag::Module {
                    module: old.surface().modules@[i].id,
                    origin: old.surface().modules@[i].position,
                    grab: position,
                }),
                None => Some(PointerDrag::Selection { anchor: position }),
            })
        },
        _ => new.mode == old.mode && new.pointer_drag is None,
    }
}

/// The state after a pointer drag moves to `position`. A carried module
/// follows the pointer, kept on the grid; a carried selection moves by the
/// pointer's step when every module in it fits where it lands, and stays put
/// otherwise; a drawn selection stretches to the pointer.
pub open spec fn drag_updated(old: GuiState, new: GuiState, position: GridPos) -> bool {
    let ms = old.surface().modules@;
    &&& new.grid_size == old.grid_size
    &&& match old.pointer_drag {
        None => new == old,
        Some(PointerDrag::Module { module, origin, grab }) => if position == old.surface().cursor {
            new == old
        } else {
            &&& new.surface().cursor == focused(old.grid_size, position)
            &&& new.pointer_drag == old.pointer_drag
            &&& new.mode == old.mode
            &&& match first_module_index(ms, module) {
                Some(j) => same_layout(ms.update(j, moved_to(ms[j], dragged_position(ms[j], origin, grab, position, old.grid_size))), new.surface().modules@),
                None => new.surface().modules == old.surface().modules,
            }
        },
        Some(PointerDrag::Selection { anchor }) => {
            &&& new.surface().cursor == focused(old.grid_size, position)
            &&& new.surface().modules == old.surface().modules
            &&& new.pointer_drag == old.pointer_drag
            &&& new.mode == (if position != anchor { Mode::Select { anchor } } else { old.mode })
        },
        Some(PointerDrag::SelectionMove { anchor, extent, origin }) => {
            let ids = ids_placed_within(ms, anchor, extent);
            let dx = position.x - origin.x;
            let dy = position.y - origin.y;
            if position == origin || ids.len() == 0 || !carry_fits(ms, ids, dx, dy, old.grid_size) {
                new == old
            } else {
                let a = shifted_cell(anchor, dx, dy, old.grid_size);
                let e = shifted_cell(extent, dx, dy, old.grid_size);
                &&& new.mode == (Mode::SelectMove { anchor: a, extent: e, origin: position })
                &&& new.pointer_drag == Some(PointerDrag::SelectionMove { anchor: a, extent: e, origin: position })
                &&& new.surface().cursor == focused(old.grid_size, position)
                &&& same_layout(carried(ms, ids, dx, dy, old.grid_size), new.surface().modules@)
            }
        },
    }
}

/// The state after a pointer drag ends at `position`, past the last move:
/// a selection drawn back onto its start ends, a carried selection is put
/// down with the cursor on its far corner, and the drag is over.
pub open spec fn drag_ended(old: GuiState, new: GuiState, position: GridPos) -> bool {
    &&& new.pointer_drag is None
    &&& match old.pointer_drag {
        None => new.mode == old.mode && new.instruments == old.instruments,
        Some(PointerDrag::Module { module, origin, grab }) => {
            let ms = old.surface().modules@;
            &&& new.mode == old.mode
            &&& if position == old.surface().cursor {
                new.instruments == old.instruments
            } else {
                match first_module_index(ms, module) {
                    Some(j) => same_layout(
                        ms.update(j, moved_to(ms[j], dragged_position(ms[j], origin, grab, position, old.grid_size))),
                        new.surface().modules@,
                    ),
                    None => new.surface().modules == old.surface().modules,
                }
            }
        },
        Some(PointerDrag::Selection { anchor }) => new.mode == (if anchor == focused(old.grid_size, position) {
            Mode::Normal
        } else if position != anchor {
            Mode::Select { anchor }
        } else {
            old.mode
        }),
        Some(PointerDrag::SelectionMove { anchor, extent, origin }) => {
            let ms = old.surface().modules@;
            let ids = ids_placed_within(ms, anchor, extent);
            let dx = position.x - origin.x;
            let dy = position.y - origin.y;
            if position == origin || ids.len() == 0 || !carry_fits(ms, ids, dx, dy, old.grid_size) {
                new.mode == (Mode::Select { anchor }) && new.surface().cursor == focused(old.grid_size, extent)
            } else {
                let a = shifted_cell(anchor, dx, dy, old.grid_size);
                let e = shifted_cell(extent, dx, dy, old.grid_size);
                new.mode == (Mode::Select { anchor: a }) && new.surface().cursor == focused(old.grid_size, e)
            }
        },
    }
}

impl GuiState {
    /// A click on a grid cell: the cursor goes there. In the palette the
    /// chosen entry is then placed there; a click inside a selection picks
    /// it up at that cell, and a click outside it ends the selection.
    pub fn click_grid_cell(&mut self, position: GridPos)
        requires
            old(self).wf(),
        ensures
            final(self).wf(),
            !(old(self).mode is Palette) ==> {
                &&& final(self).surface().cursor == focused(old(self).grid_size, position)
                &&& final(self).surface().modules == old(self).surface().modules
                &&& final(self).instruments@.len() == old(self).instruments@.len()
                &&& final(self).undo == old(self).undo
            },
            match old(self).mode {
                Mode::Select { anchor } => {
                    let lo = rect_low(anchor, old(self).surface().cursor);
                    let hi = rect_high(anchor, old(self).surface().cursor);
                    final(self).mode == (if cell_within(position, lo, hi) {
                        Mode::SelectMove { anchor: lo, extent: hi, origin: position }
                    } else {
                        Mode::Normal
                    })
                },
                Mode::SelectMove { anchor, extent, .. } => final(self).mode == (if cell_within(position, anchor, extent) {
                    Mode::SelectMove { anchor, extent, origin: position }
                } else {
                    Mode::Normal
                }),
                Mode::Palette => true,
                _ => final(self).mode == old(self).mode,
            },
    {
        let cursor = self.cursor();
        self.focus_cell(position);
        match self.mode {
            Mode::Palette => self.apply(GuiAction::Confirm, None),
            Mode::Select { anchor } => {
                let (lo, hi) = normalized_rect(anchor, cursor);
                if within(position, lo, hi) {
                    self.mode = Mode::SelectMove { anchor: lo, extent: hi, origin: position };
                } else {
                    self.mode = Mode::Normal;
                }
            },
            Mode::SelectMove { anchor, extent, .. } => {
                if within(position, anchor, extent) {
                    self.mode = Mode::SelectMove { anchor, extent, origin: position };
                } else {
                    self.mode = Mode::Normal;
                }
            },
            _ => {},
        }
    }

    /// A pointer drag over the grid: its start, a move, or its end.
    pub fn drag_grid_cell(&mut self, phase: GridPointerPhase, position: GridPos)
        requires
            old(self).wf(),
        ensures
            final(self).wf(),
            phase == GridPointerPhase::Start ==> drag_started(*old(self), *final(self), position),
            phase == GridPointerPhase::Drag ==> drag_updated(*old(self), *final(self), position),
            phase == GridPointerPhase::End ==> drag_ended(*old(self), *final(self), position),
    {
        match phase {
            GridPointerPhase::Start => self.start_grid_drag(position),
            GridPointerPhase::Drag => self.update_grid_drag(position),
            GridPointerPhase::End => self.end_grid_drag(position),
        }
    }

    /// Starts a pointer drag at a cell.
    fn start_grid_drag(&mut self, position: GridPos)
        requires
            old(self).wf(),
        ensures
            final(self).wf(),
            drag_started(*old(self), *final(self), position),
    {
        let cursor = self.cursor();
        self.focus_cell(position);
        let drag = match self.mode {
            Mode::Select { anchor } => {
                let (lo, hi) = normalized_rect(anchor, cursor);
                if within(position, lo, hi) {
                    self.mode = Mode::SelectMove { anchor: lo, extent: hi, origin: position };
                    Some(PointerDrag::SelectionMove { anchor: lo, extent: hi, origin: position })
                } else {
                    self.mode = Mode::Normal;
                    None
                }
            },
            Mode::Normal => match self.module_at(position) {
                Some(m) => Some(PointerDrag::Module { module: m.id, origin: m.position, grab: position }),
                None => Some(PointerDrag::Selection { anchor: position }),
            },
            _ => None,
        };
        self.pointer_drag = drag;
    }

    /// Moves a pointer drag to a cell.
    fn update_grid_drag(&mut self, position: GridPos)
        requires
            old(self).wf(),
        ensures
            final(self).wf(),
            drag_updated(*old(self), *final(self), position),
    {
        match self.pointer_drag {
            None => {},
            Some(PointerDrag::Module { module, origin, grab }) => {
                if position == self.cursor() {
                    return;
                }
                self.focus_cell(position);
                let j = match find_module(&self.instruments[self.active_instrument].surface().modules, module) {
                    Some(j) => j,
                    None => return,
                };
                let m = &self.modules()[j];
                let next = match self.bounded_module_position(
                    m,
                    origin.x as i32 + position.x as i32 - grab.x as i32,
                    origin.y as i32 + position.y as i32 - grab.y as i32,
                ) {
                    Some(p) => p,
                    None => m.position,
                };
                let before = self.snapshot();
                self.set_position(j, next);
                let ghost mid = *self;
                self.commit(before);
                proof {
                    lemma_surface_layout(mid, *self);
                }
            },
            Some(PointerDrag::Selection { anchor }) => {
                self.focus_cell(position);
                if position != anchor {
                    self.mode = Mode::Select { anchor };
                }
            },
            Some(PointerDrag::SelectionMove { anchor, extent, origin }) => {
                if position == origin {
                    return;
                }
                let (a, e) = match self.move_selection_rect(anchor, extent, origin, position) {
                    Some(r) => r,
                    None => return,
                };
                self.focus_cell(position);
                self.mode = Mode::SelectMove { anchor: a, extent: e, origin: position };
                self.pointer_drag = Some(PointerDrag::SelectionMove { anchor: a, extent: e, origin: position });
            },
        }
    }

    /// Ends a pointer drag at a cell.
    #[verifier::spinoff_prover]
    #[verifier::rlimit(40)]
    fn end_grid_drag(&mut self, position: GridPos)
        requires
            old(self).wf(),
        ensures
            final(self).wf(),
            drag_ended(*old(self), *final(self), position),
    {
        self.update_grid_drag(position);
        match self.pointer_drag {
            Some(PointerDrag::Selection { anchor }) => {
                if anchor == self.cursor() {
                    self.mode = Mode::Normal;
                }
            },
            Some(PointerDrag::SelectionMove { anchor, extent, .. }) => {
                self.focus_cell(extent);
                self.mode = Mode::Select { anchor };
            },
            _ => {},
        }
        self.pointer_drag = None;
    }

    /// Carries the modules whose top-left cell lies in the selection from
    /// `anchor` to `extent` by the step from `origin` to `target`, each kept
    /// on the grid, and gives the moved selection. Nothing moves, and there is
    /// no result, when the selection holds no module or one of them would not
    /// fit where it lands.
    fn move_selection_rect(&mut self, anchor: GridPos, extent: GridPos, origin: GridPos, target: GridPos) -> (r: Option<(GridPos, GridPos)>)
        requires
            old(self).wf(),
        ensures
            final(self).wf(),
            ({
                let ms = old(self).surface().modules@;
                let ids = ids_placed_within(ms, anchor, extent);
                let dx = target.x - origin.x;
                let dy = target.y - origin.y;
                &&& (r is None <==> (ids.len() == 0 || !carry_fits(ms, ids, dx, dy, old(self).grid_size)))
                &&& r is None ==> *final(self) == *old(self)
                &&& r matches Some((a, e)) ==> {
                    &&& a == shifted_cell(anchor, dx, dy, old(self).grid_size)
                    &&& e == shifted_cell(extent, dx, dy, old(self).grid_size)
                    &&& same_layout(carried(ms, ids, dx, dy, old(self).grid_size), final(self).surface().modules@)
                    &&& final(self).surface().cursor == old(self).surface().cursor
                    &&& final(self).mode == old(self).mode
                    &&& final(self).pointer_drag == old(self).pointer_drag
                    &&& final(self).grid_size == old(self).grid_size
                }
            }),
    {
        let ghost ms = self.surface().modules@;
        let n = self.modules().len();
        let mut ids: Vec<ModuleId> = Vec::new();
        let mut i: usize = 0;
        while i < n
            invariant
                self.wf(),
                n == ms.len(),
                ms == self.surface().modules@,
                i <= n,
                ids@ == ids_placed_within(ms.take(i as int), anchor, extent),
            decreases n - i,
        {
            let m = &self.modules()[i];
            assert(ms.take(i + 1).drop_last() =~= ms.take(i as int));
            assert(ms.take(i + 1).last() == ms[i as int]);
            if within(m.position, anchor, extent) {
                ids.push(m.id);
            }
            i = i + 1;
        }
        assert(ms.take(n as int) =~= ms);
        if ids.len() == 0 {
            return None;
        }
        let dx = target.x as i32 - origin.x as i32;
        let dy = target.y as i32 - origin.y as i32;
        let max_x: i32 = if self.grid_size.width >= 1 { self.grid_size.width as i32 - 1 } else { 0 };
        let max_y: i32 = if self.grid_size.height >= 1 { self.grid_size.height as i32 - 1 } else { 0 };
        let mut k: usize = 0;
        while k < n
            invariant
                n == ms.len(),
                ms == self.surface().modules@,
                k <= n,
                ids@ == ids_placed_within(ms, anchor, extent),
                dx == target.x - origin.x,
                dy == target.y - origin.y,
                max_x == sat_sub(self.grid_size.width as int, 1),
                max_y == sat_sub(self.grid_size.height as int, 1),
                self.wf(),
                forall|t: int| 0 <= t < k && ids@.contains(#[trigger] ms[t].id) ==> area_fits_spec(
                    ms, self.grid_size, grid_width(ms[t]), grid_height(ms[t]), shifted_cell(ms[t].position, dx as int, dy as int, self.grid_size), ids@),
            decreases n - k,
        {
            let m = &self.modules()[k];
            if ids_contain(&ids, m.id) {
                let p = GridPos::new(
                    clamp_i32(m.position.x as i32 + dx, 0, max_x) as u16,
                    clamp_i32(m.position.y as i32 + dy, 0, max_y) as u16,
                );
                if !self.area_fits(module_width(m), module_height(m), p, ids.as_slice()) {
                    return None;
                }
            }
            k = k + 1;
        }
        let before = self.snapshot();
        let mut t: usize = 0;
        while t < n
            invariant
                n == ms.len(),
                t <= n,
                self.wf(),
                before.wf(),
                ids@ == ids_placed_within(ms, anchor, extent),
                dx == target.x - origin.x,
                dy == target.y - origin.y,
                max_x == sat_sub(self.grid_size.width as int, 1),
                max_y == sat_sub(self.grid_size.height as int, 1),
                self.grid_size == old(self).grid_size,
                self.surface().modules@.len() == n,
                self.surface().cursor == old(self).surface().cursor,
                self.mode == old(self).mode,
                self.pointer_drag == old(self).pointer_drag,
                self.active_instrument == old(self).active_instrument,
                forall|j: int| 0 <= j < t ==> #[trigger] self.surface().modules@[j] == carried(ms, ids@, dx as int, dy as int, self.grid_size)[j],
                forall|j: int| t <= j < n ==> #[trigger] self.surface().modules@[j] == ms[j],
            decreases n - t,
        {
            let m = &self.modules()[t];
            if ids_contain(&ids, m.id) {
                let p = GridPos::new(
                    clamp_i32(m.position.x as i32 + dx, 0, max_x) as u16,
                    clamp_i32(m.position.y as i32 + dy, 0, max_y) as u16,
                );
                self.set_position(t, p);
            }
            t = t + 1;
        }
        proof {
            assert(self.surface().modules@ =~= carried(ms, ids@, dx as int, dy as int, self.grid_size));
        }
        let ghost mid = *self;
        self.commit(before);
        proof {
            lemma_surface_layout(mid, *self);
        }
        Some((
            GridPos::new(clamp_i32(anchor.x as i32 + dx, 0, max_x) as u16, clamp_i32(anchor.y as i32 + dy, 0, max_y) as u16),
            GridPos::new(clamp_i32(extent.x as i32 + dx, 0, max_x) as u16, clamp_i32(extent.y as i32 + dy, 0, max_y) as u16),
        ))
    }
}

/// The point an envelope drag acts on: the one being dragged when the drag
/// goes on over the same envelope, else the one closest to the pointer.
pub open spec fn dragged_point(mode: Mode, phase: EnvPointerPhase, module: ModuleId, points: Seq<EnvPoint>, time: int, value: int) -> int {
    match mode {
        Mode::EnvEdit { module: active, point, editing: true } => if phase != EnvPointerPhase::Start && active == module {
            min_int(point as int, points.len() - 1)
        } else {
            nearest_point(points, time, value)
        },
        _ => nearest_point(points, time, value),
    }
}

impl GuiState {
    /// A pointer drag over an envelope module: the point under the drag goes
    /// to the pointer, at `time` in `[0, 100]` and `value` in `[-100, 100]`
    /// hundredths (each kept within its range), the points are put back in
    /// order of time, and the envelope editor follows the moved point. The
    /// drag keeps the point it started with. A change is recorded for undo.
    /// Without such a module, or with an envelope of no points, the editor
    /// closes.
    pub fn drag_env_point(&mut self, phase: EnvPointerPhase, module: ModuleId, time: i32, value: i32)
        requires
            old(self).wf(),
        ensures
            final(self).wf(),
            ({
                let ms = old(self).surface().modules@;
                match first_module_index(ms, module) {
                    None => final(self).mode == Mode::Normal && final(self).instruments == old(self).instruments,
                    Some(j) => {
                        let pts = body_env_points(ms[j].body);
                        if pts.len() == 0 {
                            final(self).mode == Mode::Normal && final(self).instruments == old(self).instruments
                        } else {
                            let t = clamp_int(time as int, 0, 100);
                            let v = clamp_int(value as int, -100, 100);
                            let k = dragged_point(old(self).mode, phase, module, pts, t, v);
                            let moved = EnvPoint { time: t as i32, value: v as i32, curve: pts[k].curve };
                            let after = body_env_points(final(self).surface().modules@[j].body);
                            &&& final(self).surface().modules@.len() == ms.len()
                            &&& after == time_sorted(pts.update(k, moved))
                            &&& sorted_by_time(after)
                            &&& after.to_multiset() == pts.update(k, moved).to_multiset()
                            &&& final(self).mode matches Mode::EnvEdit { module: m, point: p, editing: e } && m == module
                                && e == (phase != EnvPointerPhase::End) && p < after.len() && after[p as int] == moved
                                && forall|q: int| 0 <= q < p ==> after[q] != moved
                        }
                    },
                }
            }),
    {
        let t = clamp_i32(time, 0, 100);
        let v = clamp_i32(value, -100, 100);
        let j = match find_module(&self.instruments[self.active_instrument].surface().modules, module) {
            Some(j) => j,
            None => {
                self.mode = Mode::Normal;
                return;
            },
        };
        let points = self.modules()[j].env_points();
        if points.len() == 0 {
            self.mode = Mode::Normal;
            return;
        }
        let last = points.len() - 1;
        let k = match (phase, self.mode) {
            (EnvPointerPhase::Drag, Mode::EnvEdit { module: active, point, editing: true }) if active == module => {
                if point < last { point } else { last }
            },
            (EnvPointerPhase::End, Mode::EnvEdit { module: active, point, editing: true }) if active == module => {
                if point < last { point } else { last }
            },
            _ => nearest_point_index(&points, t, v),
        };
        proof {
            lemma_nearest_point_bounds(points@, t as int, v as int);
        }
        let before = self.snapshot();
        let mut moved_points = points;
        let changed = moved_points[k].time != t || moved_points[k].value != v;
        let moved = EnvPoint { time: t, value: v, curve: moved_points[k].curve };
        moved_points.set(k, moved);
        let sorted = sort_points(&moved_points);
        let p = match point_position(&sorted, moved) {
            Some(p) => p,
            None => 0,
        };
        proof {
            assert(moved_points@[k as int] == moved);
            assert(moved_points@.contains(moved));
            vstd::seq_lib::to_multiset_contains(moved_points@, moved);
            vstd::seq_lib::to_multiset_contains(sorted@, moved);
            assert(sorted@.contains(moved));
        }
        let ghost old_ms = self.surface().modules@;
        self.set_points(j, sorted);
        if changed {
            let ghost mid = *self;
            self.commit(before);
            proof {
                lemma_surface_layout(mid, *self);
                assert(layout_eq(mid.surface().modules@[j as int], self.surface().modules@[j as int]));
            }
        }
        self.mode = Mode::EnvEdit { module, point: p, editing: phase != EnvPointerPhase::End };
    }
}

/// The composition under the cursor a carried module can go into: one other
/// than the modules carried.
pub open spec fn carry_target(st: GuiState, carried: Seq<ModuleId>) -> Option<ModuleId> {
    let ms = st.surface().modules@;
    match first_covering(ms, st.surface().cursor, 0) {
        Some(i) => if ms[i].body is Composition && !carried.contains(ms[i].id) { Some(ms[i].id) } else { None },
        None => None,
    }
}

/// Where a held module goes when it is put down at the cursor: there, kept on
/// the grid.
pub open spec fn put_down_at(m: Module, grid: GridSize, c: GridPos) -> GridPos {
    match bounded_position(m, grid, c.x as int, c.y as int) {
        Some(p) => p,
        None => c,
    }
}

/// Held modules moved by `(dx, dy)`, each kept on the grid where it fits.
pub open spec fn shifted_modules(ms: Seq<Module>, grid: GridSize, dx: int, dy: int) -> Seq<Module> {
    Seq::new(ms.len(), |i: int| moved_to(ms[i], match bounded_position(ms[i], grid, ms[i].position.x + dx, ms[i].position.y + dy) {
        Some(p) => p,
        None => ms[i].position,
    }))
}

/// The modules of a list whose ids are listed, in order.
pub open spec fn with_ids(ms: Seq<Module>, ids: Seq<ModuleId>) -> Seq<Module>
    decreases ms.len(),
{
    if ms.len() == 0 {
        ms
    } else {
        let rest = with_ids(ms.drop_last(), ids);
        if ids.contains(ms.last().id) { rest.push(ms.last()) } else { rest }
    }
}

/// The modules with listed ids moved by `(dx, dy)`, each kept on the grid
/// where it fits; the others as they are.
pub open spec fn shifted_where(ms: Seq<Module>, ids: Seq<ModuleId>, grid: GridSize, dx: int, dy: int) -> Seq<Module> {
    Seq::new(ms.len(), |i: int| if ids.contains(ms[i].id) { shifted_modules(ms, grid, dx, dy)[i] } else { ms[i] })
}

fn copy_stack(v: &Vec<(Option<ModuleId>, GridPos)>) -> (r: Vec<(Option<ModuleId>, GridPos)>)
    ensures
        r@ == v@,
{
    let mut r: Vec<(Option<ModuleId>, GridPos)> = Vec::new();
    let mut i: usize = 0;
    while i < v.len()
        invariant
            i <= v@.len(),
            r@ == v@.take(i as int),
        decreases v@.len() - i,
    {
        r.push(v[i]);
        assert(v@.take(i + 1) =~= v@.take(i as int).push(v@[i as int]));
        i = i + 1;
    }
    assert(v@.take(i as int) =~= v@);
    r
}

/// Splits a module list into the modules whose ids are not listed and those
/// whose ids are, each in order.
fn split_by_ids(ms: Vec<Module>, ids: &Vec<ModuleId>) -> (r: (Vec<Module>, Vec<Module>))
    ensures
        r.0@ == without_ids(ms@, ids@),
        r.1@ == with_ids(ms@, ids@),
{
    let ghost orig = ms@;
    let mut src = ms;
    let mut kept: Vec<Module> = Vec::new();
    let mut taken: Vec<Module> = Vec::new();
    while src.len() > 0
        invariant
            src@.len() <= orig.len(),
            src@ == orig.subrange(orig.len() - src@.len(), orig.len() as int),
            kept@ == without_ids(orig.take(orig.len() - src@.len()), ids@),
            taken@ == with_ids(orig.take(orig.len() - src@.len()), ids@),
        decreases src@.len(),
    {
        let ghost k = orig.len() - src@.len();
        let m = src.remove(0);
        assert(m == orig[k]);
        assert(orig.take(k + 1).drop_last() =~= orig.take(k));
        assert(orig.take(k + 1).last() == orig[k]);
        if ids_contain(ids, m.id) {
            taken.push(m);
        } else {
            kept.push(m);
        }
        assert(src@ =~= orig.subrange(orig.len() - src@.len(), orig.len() as int));
    }
    assert(orig.take(orig.len() as int) =~= orig);
    (kept, taken)
}

impl GuiState {
    /// The composition under the cursor that is none of the listed modules.
    fn carry_target_id(&self, carried: &Vec<ModuleId>) -> (r: Option<ModuleId>)
        requires
            self.wf(),
        ensures
            r == carry_target(*self, carried@),
    {
        match self.module_at(self.cursor()) {
            Some(m) => if m.is_composition() && !ids_contain(carried, m.id) {
                Some(m.id)
            } else {
                None
            },
            None => None,
        }
    }

    /// Goes into the composition `target`, or out of the one being edited
    /// when there is none.
    fn cross_composition(&mut self, target: Option<ModuleId>)
        requires
            old(self).wf(),
        ensures
            final(self).wf(),
            final(self).active_instrument == old(self).active_instrument,
            forall|k: int| 0 <= k < INSTRUMENT_COUNT && k != old(self).active_instrument ==> #[trigger] final(self).instruments@[k] == old(self).instruments@[k],
            final(self).mode == old(self).mode,
            final(self).next_module_id == old(self).next_module_id,
            others_same(*old(self), *final(self)),
            final(self).undo == old(self).undo,
            final(self).redo == old(self).redo,
            final(self).dirty == old(self).dirty,
            target is Some ==> final(self).instrument().composition_stack@.len() == old(self).instrument().composition_stack@.len() + 1,
    {
        let a = self.active_instrument;
        let mut inst = self.instruments.remove(a);
        match target {
            Some(owner) => inst.enter_composition(owner),
            None => inst.exit_composition(),
        }
        self.instruments.insert(a, inst);
    }

    /// While a module is moved, carries it into the composition under the
    /// cursor, or out of the composition being edited when there is none.
    /// The first time, the module leaves its surface and is held, with the
    /// document as it was, until it is put down or the move is cancelled.
    /// Nothing happens when there is no composition to go into or out of.
    fn move_across_composition(&mut self, module: ModuleId, origin: GridPos)
        requires
            old(self).wf(),
        ensures
            final(self).wf(),
            ({
                let ms = old(self).surface().modules@;
                let target = carry_target(*old(self), seq![module]);
                let can_exit = old(self).instrument().editing_composition is Some;
                if target is None && !can_exit {
                    *final(self) == *old(self)
                } else if old(self).held_move is None && first_module_index(ms, module) is None {
                    final(self).mode == Mode::Normal && final(self).instruments == old(self).instruments
                } else {
                    &&& final(self).mode == (Mode::Move { module, origin })
                    &&& old(self).held_move is Some ==> final(self).held_move == old(self).held_move
                    &&& old(self).held_move is None ==> {
                        let j = first_module_index(ms, module)->0;
                        final(self).held_move matches Some(h) && h.module == ms[j] && h.origin == origin
                            && h.origin_surface == old(self).instrument().editing_composition
                            && h.origin_stack@ == old(self).instrument().composition_stack@
                            && snapshot_matches(h.before, *old(self))
                    }
                    &&& target is Some ==> final(self).instrument().composition_stack@.len() == old(self).instrument().composition_stack@.len() + 1
                }
            }),
    {
        let mut carried: Vec<ModuleId> = Vec::new();
        carried.push(module);
        proof {
            assert(carried@ =~= seq![module]);
        }
        let target = self.carry_target_id(&carried);
        let can_exit = self.instruments[self.active_instrument].editing_composition.is_some();
        if target.is_none() && !can_exit {
            return;
        }
        if self.held_move.is_none() {
            let j = match find_module(&self.instruments[self.active_instrument].surface().modules, module) {
                Some(j) => j,
                None => {
                    self.mode = Mode::Normal;
                    return;
                },
            };
            let before = self.snapshot();
            let origin_surface = self.instruments[self.active_instrument].editing_composition;
            let origin_stack = copy_stack(&self.instruments[self.active_instrument].composition_stack);
            let ghost start = self.instrument();
            let mut s = self.take_surface();
            let m = s.modules.remove(j);
            self.put_surface(s, Ghost(start));
            self.held_move = Some(HeldMove { module: m, origin_surface, origin_stack, origin, before });
        }
        self.cross_composition(target);
        self.mode = Mode::Move { module, origin };
    }

    /// While a selection is carried, carries its modules into the
    /// composition under the cursor, or out of the composition being edited
    /// when there is none. The first time, the modules whose top-left cell
    /// lies in the selection leave their surface and are held, with the
    /// document as it was, until they are put down or the move is cancelled.
    /// Nothing happens when there is no composition to go into or out of.
    fn move_selection_across_composition(&mut self, anchor: GridPos, extent: GridPos, origin: GridPos)
        requires
            old(self).wf(),
        ensures
            final(self).wf(),
            ({
                let ms = old(self).surface().modules@;
                let carried = match old(self).held_selection {
                    Some(h) => h.modules@.map_values(|m: Module| m.id),
                    None => ids_placed_within(ms, anchor, extent),
                };
                let target = carry_target(*old(self), carried);
                let can_exit = old(self).instrument().editing_composition is Some;
                if target is None && !can_exit {
                    *final(self) == *old(self)
                } else if old(self).held_selection is None && with_ids(ms, carried).len() == 0 {
                    final(self).mode == Mode::Normal
                } else {
                    &&& final(self).mode == (Mode::SelectMove { anchor, extent, origin })
                    &&& old(self).held_selection is Some ==> final(self).held_selection == old(self).held_selection
                    &&& old(self).held_selection is None ==> (final(self).held_selection matches Some(h)
                        && h.modules@ == with_ids(ms, carried) && h.origin == origin
                        && h.origin_surface == old(self).instrument().editing_composition
                        && h.origin_stack@ == old(self).instrument().composition_stack@
                        && snapshot_matches(h.before, *old(self)))
                    &&& target is Some ==> final(self).instrument().composition_stack@.len() == old(self).instrument().composition_stack@.len() + 1
                }
            }),
    {
        let mut carried: Vec<ModuleId> = Vec::new();
        match &self.held_selection {
            Some(h) => {
                let mut i: usize = 0;
                while i < h.modules.len()
                    invariant
                        i <= h.modules@.len(),
                        carried@ == h.modules@.take(i as int).map_values(|m: Module| m.id),
                    decreases h.modules@.len() - i,
                {
                    carried.push(h.modules[i].id);
                    assert(h.modules@.take(i + 1).map_values(|m: Module| m.id) =~= h.modules@.take(i as int).map_values(|m: Module| m.id).push(h.modules@[i as int].id));
                    i = i + 1;
                }
                assert(h.modules@.take(i as int) =~= h.modules@);
            },
            None => {
                let ms = self.modules();
                let mut i: usize = 0;
                while i < ms.len()
                    invariant
                        i <= ms@.len(),
                        carried@ == ids_placed_within(ms@.take(i as int), anchor, extent),
                    decreases ms@.len() - i,
                {
                    assert(ms@.take(i + 1).drop_last() =~= ms@.take(i as int));
                    assert(ms@.take(i + 1).last() == ms@[i as int]);
                    if within(ms[i].position, anchor, extent) {
                        carried.push(ms[i].id);
                    }
                    i = i + 1;
                }
                assert(ms@.take(i as int) =~= ms@);
            },
        }
        let target = self.carry_target_id(&carried);
        let can_exit = self.instruments[self.active_instrument].editing_composition.is_some();
        if target.is_none() && !can_exit {
            return;
        }
        if self.held_selection.is_none() {
            let before = self.snapshot();
            let origin_surface = self.instruments[self.active_instrument].editing_composition;
            let origin_stack = copy_stack(&self.instruments[self.active_instrument].composition_stack);
            let ghost start = self.instrument();
            let s = self.take_surface();
            let PatchSurface { cursor, modules } = s;
            let (kept, taken) = split_by_ids(modules, &carried);
            self.put_surface(PatchSurface { cursor, modules: kept }, Ghost(start));
            if taken.len() == 0 {
                self.mode = Mode::Normal;
                return;
            }
            self.held_selection = Some(HeldSelection { modules: taken, origin_surface, origin_stack, origin, before });
        }
        self.cross_composition(target);
        self.mode = Mode::SelectMove { anchor, extent, origin };
    }

    /// Moves the modules of the edited surface whose ids are listed by
    /// `(dx, dy)`, each kept on the grid where it fits, and records the move
    /// for undo.
    fn shift_listed(&mut self, ids: &Vec<ModuleId>, dx: i32, dy: i32)
        requires
            old(self).wf(),
            -65535 <= dx <= 65535,
            -65535 <= dy <= 65535,
        ensures
            final(self).wf(),
            final(self).mode == old(self).mode,
            final(self).held_selection == old(self).held_selection,
            same_layout(
                shifted_where(old(self).surface().modules@, ids@, old(self).grid_size, dx as int, dy as int),
                final(self).surface().modules@,
            ),
    {
        let ghost ms = self.surface().modules@;
        let ghost target = shifted_where(ms, ids@, self.grid_size, dx as int, dy as int);
        let n = self.modules().len();
        let before = self.snapshot();
        let mut t: usize = 0;
        while t < n
            invariant
                self.wf(),
                before.wf(),
                n == ms.len(),
                t <= n,
                -65535 <= dx <= 65535,
                -65535 <= dy <= 65535,
                self.grid_size == old(self).grid_size,
                target == shifted_where(ms, ids@, self.grid_size, dx as int, dy as int),
                self.surface().modules@.len() == n,
                self.mode == old(self).mode,
                self.held_selection == old(self).held_selection,
                forall|j: int| 0 <= j < t ==> #[trigger] self.surface().modules@[j] == target[j],
                forall|j: int| t <= j < n ==> #[trigger] self.surface().modules@[j] == ms[j],
            decreases n - t,
        {
            let m = &self.modules()[t];
            if ids_contain(ids, m.id) {
                let p = match self.bounded_module_position(m, m.position.x as i32 + dx, m.position.y as i32 + dy) {
                    Some(p) => p,
                    None => m.position,
                };
                self.set_position(t, p);
            }
            t = t + 1;
        }
        proof {
            assert(self.surface().modules@ =~= target);
        }
        let ghost mid = *self;
        self.commit(before);
        proof {
            lemma_surface_layout(mid, *self);
        }
    }

    /// Puts a held module down at the cursor, kept on the grid, and records
    /// the carry for undo against the document before it started.
    fn put_down_held_move(&mut self)
        requires
            old(self).wf(),
            old(self).held_move is Some,
        ensures
            final(self).wf(),
            final(self).held_move is None,
            ({
                let h = old(self).held_move->0;
                let c = old(self).surface().cursor;
                same_layout(old(self).surface().modules@.push(moved_to(h.module, put_down_at(h.module, old(self).grid_size, c))), final(self).surface().modules@)
            }),
            final(self).mode == old(self).mode,
    {
        let cursor = self.cursor();
        let held = self.held_move.take().unwrap();
        let HeldMove { module: m, before, .. } = held;
        let mut m = m;
        let target = match self.bounded_module_position(&m, cursor.x as i32, cursor.y as i32) {
            Some(p) => p,
            None => cursor,
        };
        m.position = target;
        let ghost start = self.instrument();
        let ghost old_ms = self.surface().modules@;
        let mut s = self.take_surface();
        s.modules.push(m);
        self.put_surface(s, Ghost(start));
        let ghost mid = *self;
        self.commit(before);
        proof {
            lemma_surface_layout(mid, *self);
        }
    }

    /// Puts a held module back where it came from: its surface, its place and
    /// the cursor, as they were.
    fn put_back_held_move(&mut self)
        requires
            old(self).wf(),
            old(self).held_move is Some,
        ensures
            final(self).wf(),
            final(self).held_move is None,
            final(self).surface().cursor == old(self).held_move->0.origin,
            final(self).instrument().composition_stack@ == old(self).held_move->0.origin_stack@,
            final(self).mode == old(self).mode,
    {
        let held = self.held_move.take().unwrap();
        let HeldMove { module: m, origin_surface, origin_stack, origin, .. } = held;
        let mut m = m;
        m.position = origin;
        let a = self.active_instrument;
        let mut inst = self.instruments.remove(a);
        inst.editing_composition = origin_surface;
        inst.composition_stack = origin_stack;
        self.instruments.insert(a, inst);
        let ghost start = self.instrument();
        let mut s = self.take_surface();
        s.cursor = origin;
        s.modules.push(m);
        self.put_surface(s, Ghost(start));
    }

    /// Puts held selection modules down, each moved by the cursor's step from
    /// where the selection was picked up and kept on the grid, and records the
    /// carry for undo against the document before it started.
    fn put_down_held_selection(&mut self, origin: GridPos)
        requires
            old(self).wf(),
            old(self).held_selection is Some,
        ensures
            final(self).wf(),
            final(self).held_selection is None,
            ({
                let h = old(self).held_selection->0;
                let c = old(self).surface().cursor;
                same_layout(old(self).surface().modules@ + shifted_modules(h.modules@, old(self).grid_size, c.x - origin.x, c.y - origin.y), final(self).surface().modules@)
            }),
            final(self).mode == old(self).mode,
    {
        let cursor = self.cursor();
        let dx = cursor.x as i32 - origin.x as i32;
        let dy = cursor.y as i32 - origin.y as i32;
        let held = self.held_selection.take().unwrap();
        let HeldSelection { modules, before, .. } = held;
        let ghost hs = modules@;
        let ghost shifted = shifted_modules(hs, self.grid_size, dx as int, dy as int);
        let mut src = modules;
        let mut moved: Vec<Module> = Vec::new();
        while src.len() > 0
            invariant
                self.wf(),
                src@.len() <= hs.len(),
                src@ == hs.subrange(hs.len() - src@.len(), hs.len() as int),
                -65535 <= dx <= 65535,
                -65535 <= dy <= 65535,
                shifted == shifted_modules(hs, self.grid_size, dx as int, dy as int),
                moved@ == shifted.take(hs.len() - src@.len()),
            decreases src@.len(),
        {
            let ghost k = hs.len() - src@.len();
            let mut m = src.remove(0);
            assert(m == hs[k]);
            let target = match self.bounded_module_position(&m, m.position.x as i32 + dx, m.position.y as i32 + dy) {
                Some(p) => p,
                None => m.position,
            };
            m.position = target;
            moved.push(m);
            proof {
                assert(moved@ =~= shifted.take(k + 1));
                assert(src@ =~= hs.subrange(hs.len() - src@.len(), hs.len() as int));
            }
        }
        assert(shifted.take(hs.len() as int) =~= shifted);
        let ghost start = self.instrument();
        let mut s = self.take_surface();
        s.modules.append(&mut moved);
        self.put_surface(s, Ghost(start));
        let ghost mid = *self;
        self.commit(before);
        proof {
            lemma_surface_layout(mid, *self);
        }
    }

    /// Puts held selection modules back where they came from: their surface,
    /// their places and the cursor, as they were.
    fn put_back_held_selection(&mut self)
        requires
            old(self).wf(),
            old(self).held_selection is Some,
        ensures
            final(self).wf(),
            final(self).held_selection is None,
            final(self).surface().cursor == old(self).held_selection->0.origin,
            final(self).instrument().composition_stack@ == old(self).held_selection->0.origin_stack@,
            final(self).mode == old(self).mode,
    {
        let held = self.held_selection.take().unwrap();
        let HeldSelection { modules, origin_surface, origin_stack, origin, .. } = held;
        let mut modules = modules;
        let a = self.active_instrument;
        let mut inst = self.instruments.remove(a);
        inst.editing_composition = origin_surface;
        inst.composition_stack = origin_stack;
        self.instruments.insert(a, inst);
        let ghost start = self.instrument();
        let mut s = self.take_surface();
        s.cursor = origin;
        s.modules.append(&mut modules);
        self.put_surface(s, Ghost(start));
    }
}

} // verus!
