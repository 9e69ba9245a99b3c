//! Instruments: a root patch surface, a track, and the composition being
//! edited inside the root; and snapshots of them for undo.
use vstd::prelude::*;
use crate::grid::{GridPos, ModuleId};
use crate::body::{Module, PatchSurface};
use crate::copy::{copy_surface, modules_eq, modules_equal, surface_eq};
use crate::nested::{
    lemma_layout_nested, lemma_layout_path, same_layout,
    find_from, find_path, int_path, lemma_path_from, lemma_path_stable, lemma_replaced_reaches,
    lemma_replaced_twice, nested_at, nested_ref, path_from, replaced_at, swap_nested,
};

verus! {

broadcast use vstd::string::group_string_axioms;

/// A patch, its track, and where in the patch the editor is.
#[derive(Debug)]
pub struct Instrument {
    pub root: PatchSurface,
    pub track_text: String,
    /// The composition whose inside is being edited, if any.
    pub editing_composition: Option<ModuleId>,
    /// The compositions left to enter nested ones, with the cursor each had.
    pub composition_stack: Vec<(Option<ModuleId>, GridPos)>,
}

/// The surface being edited: the inside of the edited composition when it can
/// be found in the root, else the root.
pub open spec fn active_surface(inst: Instrument) -> PatchSurface {
    match inst.editing_composition {
        Some(owner) => match find_from(inst.root.modules@, 0, owner) {
            Some(s) => s,
            None => inst.root,
        },
        None => inst.root,
    }
}

/// Where in the root the edited surface lies; `None` for the root itself.
pub open spec fn active_path(inst: Instrument) -> Option<Seq<int>> {
    match inst.editing_composition {
        Some(owner) => path_from(inst.root.modules@, 0, owner),
        None => None,
    }
}

/// `b` is `a` with its edited surface replaced by `s`. When the edited
/// composition can no longer be found, the root is replaced and editing
/// returns to it.
pub open spec fn edited(a: Instrument, b: Instrument, s: PatchSurface) -> bool {
    &&& b.track_text == a.track_text
    &&& b.composition_stack == a.composition_stack
    &&& match active_path(a) {
        Some(p) => {
            &&& b.editing_composition == a.editing_composition
            &&& b.root.cursor == a.root.cursor
            &&& replaced_at(a.root.modules@, b.root.modules@, p, s)
        },
        None => b.editing_composition is None && b.root == s,
    }
}

/// After an edit, the edited surface is the one put in place.
pub proof fn lemma_edited_active(a: Instrument, b: Instrument, s: PatchSurface)
    requires
        edited(a, b, s),
    ensures
        active_surface(b) == s,
        active_path(b) == active_path(a),
{
    if let Some(p) = active_path(a) {
        let owner = a.editing_composition.unwrap();
        lemma_path_stable(a.root.modules@, b.root.modules@, 0, owner, p, s);
        lemma_path_from(b.root.modules@, 0, owner);
        lemma_replaced_reaches(a.root.modules@, b.root.modules@, p, s);
    } else {
        if let Some(owner) = a.editing_composition {
            lemma_path_from(a.root.modules@, 0, owner);
        }
    }
}

/// Two edits in a row amount to the last one.
pub proof fn lemma_edited_twice(a: Instrument, b: Instrument, c: Instrument, s1: PatchSurface, s2: PatchSurface)
    requires
        edited(a, b, s1),
        edited(b, c, s2),
    ensures
        edited(a, c, s2),
{
    lemma_edited_active(a, b, s1);
    if let Some(p) = active_path(a) {
        lemma_replaced_twice(a.root.modules@, b.root.modules@, c.root.modules@, p, s1, s2);
    }
}

impl Instrument {
    /// A new instrument: an empty patch and the default track.
    pub fn new() -> (r: Instrument)
        ensures
            r.root.cursor == (GridPos { x: 0, y: 0 }),
            r.root.modules@.len() == 0,
            r.track_text@ == "(0/2/4/7)"@,
            r.editing_composition is None,
            r.composition_stack@.len() == 0,
    {
        Instrument {
            root: PatchSurface { cursor: GridPos { x: 0, y: 0 }, modules: Vec::new() },
            track_text: "(0/2/4/7)".to_owned(),
            editing_composition: None,
            composition_stack: Vec::new(),
        }
    }

    /// The surface being edited.
    pub fn surface(&self) -> (r: &PatchSurface)
        ensures
            *r == active_surface(*self),
    {
        match self.editing_composition {
            None => &self.root,
            Some(owner) => match find_path(&self.root.modules, 0, owner) {
                Some(path) => {
                    proof {
                        lemma_path_from(self.root.modules@, 0, owner);
                        assert(int_path(path@, 0) =~= path@.map_values(|k: usize| k as int));
                    }
                    nested_ref(&self.root.modules, &path, 0)
                },
                None => {
                    proof {
                        lemma_path_from(self.root.modules@, 0, owner);
                    }
                    &self.root
                },
            },
        }
    }

    /// Puts `s` in place of the surface being edited and gives that surface
    /// back. When the edited composition is gone, the root is swapped and
    /// editing returns to it.
    pub fn swap_surface(&mut self, s: PatchSurface) -> (r: PatchSurface)
        ensures
            r == active_surface(*old(self)),
            edited(*old(self), *final(self), s),
    {
        match self.editing_composition {
            None => {
                let mut t = s;
                std::mem::swap(&mut self.root, &mut t);
                t
            },
            Some(owner) => match find_path(&self.root.modules, 0, owner) {
                Some(path) => {
                    proof {
                        lemma_path_from(self.root.modules@, 0, owner);
                        assert(int_path(path@, 0) =~= path@.map_values(|k: usize| k as int));
                    }
                    swap_nested(&mut self.root.modules, &path, 0, s)
                },
                None => {
                    proof {
                        lemma_path_from(self.root.modules@, 0, owner);
                    }
                    self.editing_composition = None;
                    let mut t = s;
                    std::mem::swap(&mut self.root, &mut t);
                    t
                },
            },
        }
    }
}

/// Whether two instruments hold the same patch, track and editing place.
pub open spec fn instrument_eq(a: Instrument, b: Instrument) -> bool {
    &&& surface_eq(a.root, b.root)
    &&& a.track_text@ == b.track_text@
    &&& a.editing_composition == b.editing_composition
    &&& a.composition_stack@ == b.composition_stack@
}

pub open spec fn instruments_eq(a: Seq<Instrument>, b: Seq<Instrument>) -> bool {
    a.len() == b.len() && forall|i: int| 0 <= i < a.len() ==> instrument_eq(#[trigger] a[i], b[i])
}

fn copy_stack(v: &Vec<(Option<ModuleId>, GridPos)>) -> (r: Vec<(Option<ModuleId>, GridPos)>)
    ensures
        r@ == v@,
{
    let mut r: Vec<(Option<ModuleId>, GridPos)> = Vec::new();
    let mut i: usize = 0;
    while i < v.len()
        invariant
            i <= v@.len(),
            r@ == v@.take(i as int),
        decreases v@.len() - i,
    {
        let (a, b) = v[i];
        r.push((a, b));
        assert(r@ =~= v@.take(i + 1));
        i = i + 1;
    }
    assert(v@.take(i as int) =~= v@);
    r
}

fn stacks_equal(a: &Vec<(Option<ModuleId>, GridPos)>, b: &Vec<(Option<ModuleId>, GridPos)>) -> (r: bool)
    ensures
        r == (a@ == b@),
{
    if a.len() != b.len() {
        return false;
    }
    let mut i: usize = 0;
    while i < a.len()
        invariant
            a@.len() == b@.len(),
            i <= a@.len(),
            forall|k: int| 0 <= k < i ==> #[trigger] a@[k] == b@[k],
        decreases a@.len() - i,
    {
        let (x0, x1) = a[i];
        let (y0, y1) = b[i];
        let same_owner = match (x0, y0) {
            (Some(p), Some(q)) => p == q,
            (None, None) => true,
            _ => false,
        };
        if !(same_owner && x1 == y1) {
            return false;
        }
        i = i + 1;
    }
    assert(a@ =~= b@);
    true
}

/// A deep copy of an instrument.
pub fn copy_instrument(a: &Instrument) -> (r: Instrument)
    ensures
        instrument_eq(*a, r),
{
    Instrument {
        root: copy_surface(&a.root),
        track_text: a.track_text.clone(),
        editing_composition: a.editing_composition,
        composition_stack: copy_stack(&a.composition_stack),
    }
}

/// A deep copy of a list of instruments.
pub fn copy_instruments(v: &Vec<Instrument>) -> (r: Vec<Instrument>)
    ensures
        instruments_eq(v@, r@),
{
    let mut r: Vec<Instrument> = Vec::new();
    let mut i: usize = 0;
    while i < v.len()
        invariant
            i <= v@.len(),
            r@.len() == i,
            forall|k: int| 0 <= k < i ==> instrument_eq(#[trigger] v@[k], r@[k]),
        decreases v@.len() - i,
    {
        r.push(copy_instrument(&v[i]));
        i = i + 1;
    }
    r
}

fn instrument_equal(a: &Instrument, b: &Instrument) -> (r: bool)
    ensures
        r == instrument_eq(*a, *b),
{
    let same_owner = match (a.editing_composition, b.editing_composition) {
        (Some(p), Some(q)) => p == q,
        (None, None) => true,
        _ => false,
    };
    a.root.cursor == b.root.cursor && modules_equal(&a.root.modules, &b.root.modules) && a.track_text
        == b.track_text && same_owner && stacks_equal(&a.composition_stack, &b.composition_stack)
}

/// Compares two lists of instruments deeply.
pub fn instruments_equal(a: &Vec<Instrument>, b: &Vec<Instrument>) -> (r: bool)
    ensures
        r == instruments_eq(a@, b@),
{
    if a.len() != b.len() {
        return false;
    }
    let mut i: usize = 0;
    while i < a.len()
        invariant
            a@.len() == b@.len(),
            i <= a@.len(),
            forall|k: int| 0 <= k < i ==> instrument_eq(#[trigger] a@[k], b@[k]),
        decreases a@.len() - i,
    {
        if !instrument_equal(&a[i], &b[i]) {
            return false;
        }
        i = i + 1;
    }
    true
}

/// The document as undo and redo keep it.
#[derive(Debug)]
pub struct Snapshot {
    pub instruments: Vec<Instrument>,
    pub active_instrument: usize,
    pub next_module_id: u32,
}

/// `b` is `a` after entering the composition `owner`: the place left is
/// remembered, the cursor is at the composition's first cell, and an owner
/// that the root does not hold leaves the root being edited.
pub open spec fn entered(a: Instrument, b: Instrument, owner: ModuleId) -> bool {
    &&& b.composition_stack@ == a.composition_stack@.push((a.editing_composition, active_surface(a).cursor))
    &&& b.editing_composition == (if find_from(a.root.modules@, 0, owner) is Some {
        Some(owner)
    } else {
        None
    })
    &&& active_surface(b).cursor == (GridPos { x: 0, y: 0 })
    &&& active_surface(b).modules == (match find_from(a.root.modules@, 0, owner) {
        Some(s) => s.modules,
        None => a.root.modules,
    })
    &&& b.track_text == a.track_text
}

/// `b` is `a` after leaving the composition being edited for the place it
/// was entered from; at the root nothing changes.
pub open spec fn exited(a: Instrument, b: Instrument) -> bool {
    &&& a.editing_composition is None ==> b == a
    &&& a.editing_composition is Some && a.composition_stack@.len() == 0 ==> {
        &&& b.editing_composition is None
        &&& b.root == a.root
        &&& b.composition_stack@ == a.composition_stack@
    }
    &&& a.editing_composition is Some && a.composition_stack@.len() > 0 ==> {
        let (parent, c) = a.composition_stack@.last();
        &&& b.composition_stack@ == a.composition_stack@.drop_last()
        &&& active_surface(b).cursor == c
        &&& b.editing_composition == (match parent {
            Some(o) => if find_from(a.root.modules@, 0, o) is Some { Some(o) } else { None },
            None => None,
        })
    }
    &&& b.track_text == a.track_text
}

impl Instrument {
    /// Sets the cursor of the surface being edited.
    pub fn set_cursor(&mut self, c: GridPos)
        ensures
            active_surface(*final(self)).cursor == c,
            active_surface(*final(self)).modules == active_surface(*old(self)).modules,
            edited(*old(self), *final(self), active_surface(*final(self))),
    {
        let e = PatchSurface { cursor: GridPos::new(0, 0), modules: Vec::new() };
        let ghost eg = e;
        let mut s = self.swap_surface(e);
        let ghost mid = *self;
        s.cursor = c;
        let ghost sg = s;
        let _ = self.swap_surface(s);
        proof {
            lemma_edited_twice(*old(self), mid, *self, eg, sg);
            lemma_edited_active(*old(self), *self, sg);
        }
    }

    /// Enters the composition `owner`, remembering the place left, with the
    /// cursor at the composition's first cell.
    pub fn enter_composition(&mut self, owner: ModuleId)
        ensures
            entered(*old(self), *final(self), owner),
    {
        let cursor = self.surface().cursor;
        self.composition_stack.push((self.editing_composition, cursor));
        self.editing_composition = Some(owner);
        proof {
            lemma_path_from(self.root.modules@, 0, owner);
        }
        self.set_cursor(GridPos::new(0, 0));
    }

    /// Leaves the composition being edited for the place it was entered
    /// from, cursor included; at the root nothing happens.
    pub fn exit_composition(&mut self)
        ensures
            exited(*old(self), *final(self)),
    {
        if self.editing_composition.is_none() {
            return;
        }
        match self.composition_stack.pop() {
            Some((parent, cursor)) => {
                self.editing_composition = parent;
                proof {
                    if let Some(o) = parent {
                        lemma_path_from(self.root.modules@, 0, o);
                    }
                }
                self.set_cursor(cursor);
            },
            None => {
                self.editing_composition = None;
            },
        }
    }
}

/// Instruments whose roots differ only in disabled flags, with the same
/// editing place, edit surfaces that differ only in disabled flags.
pub proof fn lemma_active_layout(a: Instrument, b: Instrument)
    requires
        b.root.cursor == a.root.cursor,
        same_layout(a.root.modules@, b.root.modules@),
        b.editing_composition == a.editing_composition,
    ensures
        active_surface(b).cursor == active_surface(a).cursor,
        same_layout(active_surface(a).modules@, active_surface(b).modules@),
        active_path(b) == active_path(a),
{
    if let Some(owner) = a.editing_composition {
        lemma_layout_path(a.root.modules@, b.root.modules@, 0, owner);
        lemma_path_from(a.root.modules@, 0, owner);
        lemma_path_from(b.root.modules@, 0, owner);
        if let Some(p) = path_from(a.root.modules@, 0, owner) {
            lemma_layout_nested(a.root.modules@, b.root.modules@, p);
        }
    }
}

} // verus!
