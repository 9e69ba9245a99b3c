use vstd::prelude::*;
use crate::body::{Module, ModuleBody, PatchSurface, body_kind};
use crate::kind::ModuleKind;
use crate::param::DelaySourceParam;
use crate::copy::{copy_flat_body, flat_body_eq, lemma_modules_eq_prefix, modules_eq};
use crate::grid::{GridPos, ModuleId};
use crate::surface::{
    disabled_marks_ok, grid_height, grid_width, module_height, module_width, same_but_disabled,
    update_surface_disabled_states,
};
use crate::text::{nat_decimal, push_decimal};

verus! {

broadcast use vstd::string::group_string_axioms;

/// Two module lists that differ at most in their disabled flags, at any depth.
pub open spec fn same_layout(a: Seq<Module>, b: Seq<Module>) -> bool
    decreases a, 1int,
{
    a.len() == b.len() && forall|i: int| 0 <= i < a.len() ==> layout_eq(#[trigger] a[i], b[i])
}

/// Two modules that differ at most in disabled flags, their own or nested ones.
pub open spec fn layout_eq(x: Module, y: Module) -> bool
    decreases x, 0int,
{
    &&& x.id == y.id
    &&& x.position == y.position
    &&& x.orientation == y.orientation
    &&& match x.body {
        ModuleBody::Composition { name: xn, surface: xs } => match y.body {
            ModuleBody::Composition { name: yn, surface: ys } => {
                &&& xn@ == yn@
                &&& xs.cursor == ys.cursor
                &&& same_layout(xs.modules@, ys.modules@)
            },
            _ => false,
        },
        _ => flat_body_eq(x.body, y.body),
    }
}

/// Two modules that copy each other exactly, nested modules included.
pub open spec fn module_copy_eq(x: Module, y: Module) -> bool {
    &&& x.id == y.id
    &&& x.position == y.position
    &&& x.orientation == y.orientation
    &&& x.disabled == y.disabled
    &&& match x.body {
        ModuleBody::Composition { name: xn, surface: xs } => match y.body {
            ModuleBody::Composition { name: yn, surface: ys } => {
                &&& xn@ == yn@
                &&& xs.cursor == ys.cursor
                &&& modules_eq(xs.modules@, ys.modules@)
            },
            _ => false,
        },
        _ => flat_body_eq(x.body, y.body),
    }
}

/// Exact copies differ in nothing a layout compares.
pub proof fn lemma_copy_layout(a: Seq<Module>, b: Seq<Module>)
    requires
        modules_eq(a, b),
    ensures
        same_layout(a, b),
    decreases a, 1int,
{
    assert forall|i: int| 0 <= i < a.len() implies layout_eq(#[trigger] a[i], b[i]) by {
        lemma_modules_eq_prefix(a, b, i + 1);
        let at = a.take(i + 1);
        let bt = b.take(i + 1);
        assert(at.last() == a[i]);
        assert(bt.last() == b[i]);
        assert(module_copy_eq(a[i], b[i]));
        assert(decreases_to!(a => a[i]));
        lemma_module_copy_layout(a[i], b[i]);
    }
}

proof fn lemma_module_copy_layout(x: Module, y: Module)
    requires
        module_copy_eq(x, y),
    ensures
        layout_eq(x, y),
    decreases x, 0int,
{
    match x.body {
        ModuleBody::Composition { surface: xs, .. } => match y.body {
            ModuleBody::Composition { surface: ys, .. } => {
                lemma_copy_layout(xs.modules@, ys.modules@);
            },
            _ => {},
        },
        _ => {},
    }
}

/// Differing only in disabled flags is transitive.
pub proof fn lemma_layout_trans(a: Seq<Module>, b: Seq<Module>, c: Seq<Module>)
    requires
        same_layout(a, b),
        same_layout(b, c),
    ensures
        same_layout(a, c),
    decreases a, 1int,
{
    assert forall|i: int| 0 <= i < a.len() implies layout_eq(#[trigger] a[i], c[i]) by {
        assert(layout_eq(a[i], b[i]));
        assert(layout_eq(b[i], c[i]));
        assert(decreases_to!(a => a[i]));
        lemma_module_layout_trans(a[i], b[i], c[i]);
    }
}

proof fn lemma_module_layout_trans(x: Module, y: Module, z: Module)
    requires
        layout_eq(x, y),
        layout_eq(y, z),
    ensures
        layout_eq(x, z),
    decreases x, 0int,
{
    match x.body {
        ModuleBody::Composition { surface: xs, .. } => match y.body {
            ModuleBody::Composition { surface: ys, .. } => match z.body {
                ModuleBody::Composition { surface: zs, .. } => {
                    lemma_layout_trans(xs.modules@, ys.modules@, zs.modules@);
                },
                _ => {},
            },
            _ => {},
        },
        _ => {},
    }
}

/// On every surface, nested ones included, exactly the modules that overlap
/// another are disabled.
pub open spec fn deep_marks_ok(ms: Seq<Module>) -> bool
    decreases ms, 1int,
{
    disabled_marks_ok(ms) && forall|i: int| 0 <= i < ms.len() ==> nested_marks_ok(#[trigger] ms[i])
}

pub open spec fn nested_marks_ok(m: Module) -> bool
    decreases m, 0int,
{
    match m.body {
        ModuleBody::Composition { surface, .. } => deep_marks_ok(surface.modules@),
        _ => true,
    }
}

proof fn lemma_layout_refl(x: Module)
    ensures
        layout_eq(x, x),
    decreases x, 0int,
{
    match x.body {
        ModuleBody::Composition { surface, .. } => {
            lemma_same_layout_refl(surface.modules@);
        },
        _ => {},
    }
}

proof fn lemma_same_layout_refl(ms: Seq<Module>)
    ensures
        same_layout(ms, ms),
    decreases ms, 1int,
{
    assert forall|i: int| 0 <= i < ms.len() implies layout_eq(#[trigger] ms[i], ms[i]) by {
        lemma_layout_refl(ms[i]);
    }
}

/// Marks, on a surface and every surface nested in it, the modules that
/// overlap another module of their surface as disabled, and enables the rest.
pub fn update_disabled_states_for_surface(surface: &mut PatchSurface)
    ensures
        final(surface).cursor == old(surface).cursor,
        same_layout(old(surface).modules@, final(surface).modules@),
        deep_marks_ok(final(surface).modules@),
    decreases old(surface).modules@,
{
    let ghost start = surface.modules@;
    let n = surface.modules.len();
    let mut i: usize = 0;
    while i < n
        invariant
            start == old(surface).modules@,
            n == surface.modules@.len() == start.len(),
            i <= n,
            surface.cursor == old(surface).cursor,
            forall|k: int| i <= k < n ==> #[trigger] surface.modules@[k] == start[k],
            forall|k: int|
                0 <= k < i ==> layout_eq(start[k], #[trigger] surface.modules@[k]) && nested_marks_ok(
                    surface.modules@[k],
                ),
        decreases n - i,
    {
        if surface.modules[i].is_composition() {
            let ghost before = surface.modules@;
            let Module { id, position, orientation, body, disabled } = surface.modules.remove(i);
            assert(before[i as int] == start[i as int]);
            let body = match body {
                ModuleBody::Composition { name, surface: inner } => {
                    let mut inner = inner;
                    proof {
                        assert(decreases_to!(start => start[i as int]));
                    }
                    update_disabled_states_for_surface(&mut inner);
                    ModuleBody::Composition { name, surface: inner }
                },
                other => other,
            };
            surface.modules.insert(i, Module { id, position, orientation, body, disabled });
            proof {
                assert forall|k: int| 0 <= k < n && k != i implies #[trigger] surface.modules@[k] == before[k] by {
                    if k < i {
                        assert(surface.modules@[k] == before[k]);
                    } else {
                        assert(surface.modules@[k] == before[k]);
                    }
                }
            }
        } else {
            proof {
                lemma_layout_refl(start[i as int]);
            }
        }
        i = i + 1;
    }
    let ghost mid = surface.modules@;
    update_surface_disabled_states(surface);
    proof {
        assert forall|k: int| 0 <= k < n implies layout_eq(start[k], #[trigger] surface.modules@[k]) by {
            assert(layout_eq(start[k], mid[k]));
        }
        assert forall|k: int| 0 <= k < n implies nested_marks_ok(#[trigger] surface.modules@[k]) by {
            assert(nested_marks_ok(mid[k]));
        }
    }
}


/// The greatest module id on a surface, nested surfaces included; `None` for
/// an empty surface.
pub open spec fn max_id(ms: Seq<Module>) -> Option<u32>
    decreases ms, 1int,
{
    if ms.len() == 0 {
        None
    } else {
        let own = module_max_id(ms.last());
        match max_id(ms.drop_last()) {
            Some(r) => Some(if r >= own { r } else { own }),
            None => Some(own),
        }
    }
}

/// The greatest id of a module and the modules nested in it.
pub open spec fn module_max_id(m: Module) -> u32
    decreases m, 0int,
{
    match m.body {
        ModuleBody::Composition { surface, .. } => match max_id(surface.modules@) {
            Some(c) => if c >= m.id.id { c } else { m.id.id },
            None => m.id.id,
        },
        _ => m.id.id,
    }
}

/// The greatest module id on a surface, nested surfaces included.
pub fn max_module_id(surface: &PatchSurface) -> (r: Option<u32>)
    ensures
        r == max_id(surface.modules@),
    decreases surface.modules@,
{
    let ms = &surface.modules;
    let mut best: Option<u32> = None;
    let mut i: usize = 0;
    while i < ms.len()
        invariant
            ms@ == surface.modules@,
            i <= ms@.len(),
            best == max_id(ms@.take(i as int)),
        decreases ms@.len() - i,
    {
        let m = &ms[i];
        proof {
            assert(decreases_to!(surface.modules@ => ms@[i as int]));
            assert(ms@.take(i + 1).last() == ms@[i as int]);
        }
        let own = match &m.body {
            ModuleBody::Composition { surface: nested, .. } => match max_module_id(nested) {
                Some(c) => if c >= m.id.id { c } else { m.id.id },
                None => m.id.id,
            },
            _ => m.id.id,
        };
        assert(own == module_max_id(ms@[i as int]));
        assert(ms@.take(i + 1).drop_last() =~= ms@.take(i as int));
        best = match best {
            Some(b) => Some(if b >= own { b } else { own }),
            None => Some(own),
        };
        i = i + 1;
    }
    assert(ms@.take(i as int) =~= ms@);
    best
}

/// `a + b`, saturated at the largest `u16`.
pub open spec fn sat_add(a: u16, b: u16) -> int {
    if a + b > u16::MAX { u16::MAX as int } else { a + b }
}

/// Whether a module lies within a grid of the given size.
pub open spec fn fits_grid(m: Module, width: u16, height: u16) -> bool {
    sat_add(m.position.x, grid_width(m)) <= width && sat_add(m.position.y, grid_height(m)) <= height
}

/// Whether two modules share a cell.
pub open spec fn pair_overlaps(a: Module, b: Module) -> bool {
    &&& a.position.x < sat_add(b.position.x, grid_width(b))
    &&& b.position.x < sat_add(a.position.x, grid_width(a))
    &&& a.position.y < sat_add(b.position.y, grid_height(b))
    &&& b.position.y < sat_add(a.position.y, grid_height(a))
}

pub open spec fn outside_message(id: ModuleId) -> Seq<char> {
    "module "@ + nat_decimal(id.id as nat) + " is outside the grid"@
}

pub open spec fn overlap_message(a: ModuleId, b: ModuleId) -> Seq<char> {
    "modules "@ + nat_decimal(a.id as nat) + " and "@ + nat_decimal(b.id as nat) + " overlap"@
}

/// The first module, in order and depth first, that leaves the grid or holds
/// a surface that does not fit in turn.
pub open spec fn bounds_error(ms: Seq<Module>, width: u16, height: u16) -> Option<Seq<char>>
    decreases ms, 1int,
{
    if ms.len() == 0 {
        None
    } else {
        match bounds_error(ms.drop_last(), width, height) {
            Some(e) => Some(e),
            None => module_bounds_error(ms.last(), width, height),
        }
    }
}

pub open spec fn module_bounds_error(m: Module, width: u16, height: u16) -> Option<Seq<char>>
    decreases m, 0int,
{
    if !fits_grid(m, width, height) {
        Some(outside_message(m.id))
    } else {
        match m.body {
            ModuleBody::Composition { surface, .. } => match bounds_error(surface.modules@, width, height) {
                Some(e) => Some(e),
                None => overlap_error(surface.modules@),
            },
            _ => None,
        }
    }
}

/// The first `j` from `j` on whose module overlaps module `i`.
pub open spec fn first_partner(ms: Seq<Module>, i: int, j: int) -> Option<int>
    decreases ms.len() - j,
{
    if j < 0 || j >= ms.len() {
        None
    } else if pair_overlaps(ms[i], ms[j]) {
        Some(j)
    } else {
        first_partner(ms, i, j + 1)
    }
}

/// The first overlapping pair `(i, j)`, `i < j`, from `i` on.
pub open spec fn first_overlap(ms: Seq<Module>, i: int) -> Option<(int, int)>
    decreases ms.len() - i,
{
    if i < 0 || i >= ms.len() {
        None
    } else {
        match first_partner(ms, i, i + 1) {
            Some(j) => Some((i, j)),
            None => first_overlap(ms, i + 1),
        }
    }
}

pub open spec fn overlap_error(ms: Seq<Module>) -> Option<Seq<char>> {
    match first_overlap(ms, 0) {
        Some((i, j)) => Some(overlap_message(ms[i].id, ms[j].id)),
        None => None,
    }
}

/// What is wrong with a surface for a grid of the given size: the first module
/// outside it, else the first overlap, nested surfaces checked in place.
pub open spec fn surface_error(s: PatchSurface, width: u16, height: u16) -> Option<Seq<char>> {
    match bounds_error(s.modules@, width, height) {
        Some(e) => Some(e),
        None => overlap_error(s.modules@),
    }
}

fn outside_text(id: ModuleId) -> (r: String)
    ensures
        r@ == outside_message(id),
{
    let mut s = "module ".to_owned();
    push_decimal(&mut s, id.id as u64);
    s.append(" is outside the grid");
    s
}

fn overlap_text(a: ModuleId, b: ModuleId) -> (r: String)
    ensures
        r@ == overlap_message(a, b),
{
    let mut s = "modules ".to_owned();
    push_decimal(&mut s, a.id as u64);
    s.append(" and ");
    push_decimal(&mut s, b.id as u64);
    s.append(" overlap");
    s
}

fn saturating_u16(a: u16, b: u16) -> (r: u16)
    ensures
        r == sat_add(a, b),
{
    a.saturating_add(b)
}

fn pair_overlap_check(a: &Module, b: &Module) -> (r: bool)
    ensures
        r == pair_overlaps(*a, *b),
{
    let aw = module_width(a);
    let ah = module_height(a);
    let bw = module_width(b);
    let bh = module_height(b);
    a.position.x < saturating_u16(b.position.x, bw) && b.position.x < saturating_u16(a.position.x, aw)
        && a.position.y < saturating_u16(b.position.y, bh) && b.position.y < saturating_u16(
        a.position.y,
        ah,
    )
}

/// Checks that every module of a surface, nested surfaces included, lies
/// within the grid and that no two modules of one surface overlap.
pub fn validate_surface_bounds(surface: &PatchSurface, width: u16, height: u16) -> (r: Result<(), String>)
    ensures
        r is Ok <==> surface_error(*surface, width, height) is None,
        r matches Err(e) ==> surface_error(*surface, width, height) == Some(e@),
    decreases surface.modules@,
{
    let ms = &surface.modules;
    let n = ms.len();
    let mut i: usize = 0;
    while i < n
        invariant
            ms@ == surface.modules@,
            n == ms@.len(),
            i <= n,
            bounds_error(ms@.take(i as int), width, height) is None,
        decreases n - i,
    {
        let m = &ms[i];
        assert(ms@.take(i + 1).drop_last() =~= ms@.take(i as int));
        assert(ms@.take(i + 1).last() == ms@[i as int]);
        let w = module_width(m);
        let h = module_height(m);
        if saturating_u16(m.position.x, w) > width || saturating_u16(m.position.y, h) > height {
            proof {
                assert(!fits_grid(ms@[i as int], width, height));
                assert(module_bounds_error(ms@[i as int], width, height) is Some);
                assert(bounds_error(ms@.take(i + 1), width, height) is Some);
                lemma_bounds_error_prefix(ms@, width, height, i + 1);
            }
            return Err(outside_text(m.id));
        }
        match &m.body {
            ModuleBody::Composition { surface: nested, .. } => {
                proof {
                    assert(decreases_to!(surface.modules@ => ms@[i as int]));
                }
                match validate_surface_bounds(nested, width, height) {
                    Err(e) => {
                        proof {
                            lemma_bounds_error_prefix(ms@, width, height, i + 1);
                        }
                        return Err(e);
                    },
                    Ok(()) => {},
                }
            },
            _ => {},
        }
        i = i + 1;
    }
    assert(ms@.take(n as int) =~= ms@);
    let mut a: usize = 0;
    while a < n
        invariant
            ms@ == surface.modules@,
            n == ms@.len(),
            a <= n,
            bounds_error(ms@, width, height) is None,
            first_overlap(ms@, 0) == first_overlap(ms@, a as int),
        decreases n - a,
    {
        let mut b: usize = a + 1;
        while b < n
            invariant
                ms@ == surface.modules@,
                n == ms@.len(),
                a < n,
                a + 1 <= b <= n,
                bounds_error(ms@, width, height) is None,
                first_overlap(ms@, 0) == first_overlap(ms@, a as int),
                first_partner(ms@, a as int, a + 1) == first_partner(ms@, a as int, b as int),
            decreases n - b,
        {
            if pair_overlap_check(&ms[a], &ms[b]) {
                assert(first_overlap(ms@, a as int) == Some((a as int, b as int)));
                return Err(overlap_text(ms[a].id, ms[b].id));
            }
            b = b + 1;
        }
        a = a + 1;
    }
    Ok(())
}

/// An error found in a prefix is the error of the whole list.
proof fn lemma_bounds_error_prefix(ms: Seq<Module>, width: u16, height: u16, n: int)
    requires
        0 <= n <= ms.len(),
        bounds_error(ms.take(n), width, height) is Some,
    ensures
        bounds_error(ms, width, height) == bounds_error(ms.take(n), width, height),
    decreases ms.len(),
{
    if n < ms.len() {
        assert(ms.drop_last().take(n) =~= ms.take(n));
        lemma_bounds_error_prefix(ms.drop_last(), width, height, n);
    } else {
        assert(ms.take(n) =~= ms);
    }
}

/// The surface a composition owner holds, searched from module `i` on, depth
/// first: the first module with the owner's id decides (its surface, or none
/// if it is no composition); other compositions are searched inside first.
pub open spec fn find_from(ms: Seq<Module>, i: int, owner: ModuleId) -> Option<PatchSurface>
    decreases ms, ms.len() - i,
{
    if i < 0 || i >= ms.len() {
        None
    } else {
        let m = ms[i];
        if m.id == owner {
            match m.body {
                ModuleBody::Composition { surface, .. } => Some(surface),
                _ => None,
            }
        } else {
            match m.body {
                ModuleBody::Composition { surface, .. } => match find_from(surface.modules@, 0, owner) {
                    Some(f) => Some(f),
                    None => find_from(ms, i + 1, owner),
                },
                _ => find_from(ms, i + 1, owner),
            }
        }
    }
}

/// The same search as `find_from`, giving the indices that lead to the found
/// surface, one per level.
pub open spec fn path_from(ms: Seq<Module>, i: int, owner: ModuleId) -> Option<Seq<int>>
    decreases ms, ms.len() - i,
{
    if i < 0 || i >= ms.len() {
        None
    } else {
        let m = ms[i];
        if m.id == owner {
            match m.body {
                ModuleBody::Composition { .. } => Some(seq![i]),
                _ => None,
            }
        } else {
            match m.body {
                ModuleBody::Composition { surface, .. } => match path_from(surface.modules@, 0, owner) {
                    Some(p) => Some(seq![i] + p),
                    None => path_from(ms, i + 1, owner),
                },
                _ => path_from(ms, i + 1, owner),
            }
        }
    }
}

/// The surface at the end of a path of indices, each naming a composition.
pub open spec fn nested_at(ms: Seq<Module>, path: Seq<int>) -> Option<PatchSurface>
    decreases path.len(),
{
    if path.len() == 0 || !(0 <= path[0] < ms.len()) {
        None
    } else {
        match ms[path[0]].body {
            ModuleBody::Composition { surface, .. } => if path.len() == 1 {
                Some(surface)
            } else {
                nested_at(surface.modules@, path.drop_first())
            },
            _ => None,
        }
    }
}

/// `b` is `a` with the surface at the end of `path` replaced by `s`, all else
/// left as it was.
pub open spec fn replaced_at(a: Seq<Module>, b: Seq<Module>, path: Seq<int>, s: PatchSurface) -> bool
    decreases path.len(),
{
    &&& path.len() > 0
    &&& 0 <= path[0] < a.len()
    &&& a.len() == b.len()
    &&& forall|k: int| 0 <= k < a.len() && k != path[0] ==> #[trigger] b[k] == a[k]
    &&& b[path[0]].id == a[path[0]].id
    &&& b[path[0]].position == a[path[0]].position
    &&& b[path[0]].orientation == a[path[0]].orientation
    &&& b[path[0]].disabled == a[path[0]].disabled
    &&& match a[path[0]].body {
        ModuleBody::Composition { name: an, surface: asf } => match b[path[0]].body {
            ModuleBody::Composition { name: bn, surface: bsf } => {
                &&& an == bn
                &&& if path.len() == 1 {
                    bsf == s
                } else {
                    &&& bsf.cursor == asf.cursor
                    &&& replaced_at(asf.modules@, bsf.modules@, path.drop_first(), s)
                }
            },
            _ => false,
        },
        _ => false,
    }
}

/// The search and the path agree: following the path reaches the surface the
/// search finds.
pub proof fn lemma_path_from(ms: Seq<Module>, i: int, owner: ModuleId)
    ensures
        find_from(ms, i, owner) is Some <==> path_from(ms, i, owner) is Some,
        path_from(ms, i, owner) matches Some(p) ==> nested_at(ms, p) == find_from(ms, i, owner),
    decreases ms, ms.len() - i,
{
    if 0 <= i < ms.len() {
        let m = ms[i];
        if m.id != owner {
            match m.body {
                ModuleBody::Composition { surface, .. } => {
                    lemma_path_from(surface.modules@, 0, owner);
                    lemma_path_from(ms, i + 1, owner);
                    if let Some(p) = path_from(surface.modules@, 0, owner) {
                        let q = seq![i] + p;
                        assert(q.drop_first() =~= p);
                        assert(q[0] == i);
                        assert(p.len() > 0) by {
                            lemma_path_nonempty(surface.modules@, 0, owner);
                        }
                    }
                },
                _ => {
                    lemma_path_from(ms, i + 1, owner);
                },
            }
        }
    }
}

proof fn lemma_path_nonempty(ms: Seq<Module>, i: int, owner: ModuleId)
    ensures
        path_from(ms, i, owner) matches Some(p) ==> p.len() > 0,
    decreases ms, ms.len() - i,
{
    if 0 <= i < ms.len() {
        let m = ms[i];
        if m.id != owner {
            match m.body {
                ModuleBody::Composition { surface, .. } => {
                    lemma_path_nonempty(surface.modules@, 0, owner);
                    lemma_path_nonempty(ms, i + 1, owner);
                },
                _ => {
                    lemma_path_nonempty(ms, i + 1, owner);
                },
            }
        }
    }
}

/// The path to the surface a composition owner holds, found as `find_from`
/// finds it.
pub fn find_path(ms: &Vec<Module>, i: usize, owner: ModuleId) -> (r: Option<Vec<usize>>)
    requires
        i <= ms@.len(),
    ensures
        r is Some <==> path_from(ms@, i as int, owner) is Some,
        r matches Some(p) ==> path_from(ms@, i as int, owner) == Some(p@.map_values(|k: usize| k as int)),
    decreases ms@, ms@.len() - i,
{
    let mut j = i;
    while j < ms.len()
        invariant
            i <= j <= ms@.len(),
            path_from(ms@, i as int, owner) == path_from(ms@, j as int, owner),
        decreases ms@.len() - j,
    {
        let m = &ms[j];
        if m.id == owner {
            match &m.body {
                ModuleBody::Composition { .. } => {
                    let mut p: Vec<usize> = Vec::new();
                    p.push(j);
                    assert(p@.map_values(|k: usize| k as int) =~= seq![j as int]);
                    return Some(p);
                },
                _ => {
                    return None;
                },
            }
        }
        match &m.body {
            ModuleBody::Composition { surface, .. } => {
                proof {
                    assert(decreases_to!(ms@ => ms@[j as int]));
                }
                match find_path(&surface.modules, 0, owner) {
                    Some(inner) => {
                        let mut p: Vec<usize> = Vec::new();
                        p.push(j);
                        let mut k: usize = 0;
                        while k < inner.len()
                            invariant
                                k <= inner@.len(),
                                p@.len() == k + 1,
                                p@[0] == j,
                                forall|t: int| 1 <= t <= k ==> #[trigger] p@[t] == inner@[t - 1],
                            decreases inner@.len() - k,
                        {
                            p.push(inner[k]);
                            k = k + 1;
                        }
                        assert(p@.map_values(|k: usize| k as int) =~= seq![j as int] + inner@.map_values(
                            |k: usize| k as int,
                        ));
                        return Some(p);
                    },
                    None => {},
                }
            },
            _ => {},
        }
        j = j + 1;
    }
    None
}

/// A path of indices from position `d` on, as integers.
pub open spec fn int_path(path: Seq<usize>, d: int) -> Seq<int> {
    path.map_values(|k: usize| k as int).subrange(d, path.len() as int)
}

/// Swaps the surface at the end of `path` (from position `d` on) with `s`,
/// giving back the surface that was there.
pub fn swap_nested(ms: &mut Vec<Module>, path: &Vec<usize>, d: usize, s: PatchSurface) -> (r: PatchSurface)
    requires
        d < path@.len(),
        nested_at(old(ms)@, int_path(path@, d as int)) is Some,
    ensures
        Some(r) == nested_at(old(ms)@, int_path(path@, d as int)),
        replaced_at(old(ms)@, final(ms)@, int_path(path@, d as int), s),
    decreases path@.len() - d,
{
    let ghost p = int_path(path@, d as int);
    assert(p[0] == path@[d as int]);
    let i = path[d];
    let Module { id, position, orientation, body, disabled } = ms.remove(i);
    let ghost removed = ms@;
    match body {
        ModuleBody::Composition { name, surface } => {
            if d == path.len() - 1 {
                ms.insert(i, Module { id, position, orientation, body: ModuleBody::Composition { name, surface: s }, disabled });
                proof {
                    assert forall|k: int| 0 <= k < old(ms)@.len() && k != p[0] implies #[trigger] ms@[k] == old(ms)@[k] by {
                        if k < i {
                            assert(ms@[k] == removed[k]);
                        } else {
                            assert(ms@[k] == removed[k - 1]);
                        }
                    }
                }
                surface
            } else {
                let mut inner = surface;
                assert(int_path(path@, d + 1) =~= p.drop_first());
                let found = swap_nested(&mut inner.modules, path, d + 1, s);
                ms.insert(i, Module { id, position, orientation, body: ModuleBody::Composition { name, surface: inner }, disabled });
                proof {
                    assert forall|k: int| 0 <= k < old(ms)@.len() && k != p[0] implies #[trigger] ms@[k] == old(ms)@[k] by {
                        if k < i {
                            assert(ms@[k] == removed[k]);
                        } else {
                            assert(ms@[k] == removed[k - 1]);
                        }
                    }
                }
                found
            }
        },
        other => {
            ms.insert(i, Module { id, position, orientation, body: other, disabled });
            proof {
                assert(false);
            }
            PatchSurface { cursor: crate::grid::GridPos { x: 0, y: 0 }, modules: Vec::new() }
        },
    }
}

/// The surface at the end of a path, borrowed.
pub fn nested_ref<'a>(ms: &'a Vec<Module>, path: &Vec<usize>, d: usize) -> (r: &'a PatchSurface)
    requires
        d < path@.len(),
        nested_at(ms@, int_path(path@, d as int)) is Some,
    ensures
        Some(*r) == nested_at(ms@, int_path(path@, d as int)),
    decreases path@.len() - d,
{
    let ghost p = int_path(path@, d as int);
    assert(p[0] == path@[d as int]);
    let i = path[d];
    match &ms[i].body {
        ModuleBody::Composition { surface, .. } => {
            if d == path.len() - 1 {
                surface
            } else {
                assert(int_path(path@, d + 1) =~= p.drop_first());
                nested_ref(&surface.modules, path, d + 1)
            }
        },
        _ => {
            proof {
                assert(false);
            }
            nested_ref(ms, path, d)
        },
    }
}

/// After a replacement, the path leads to the new surface.
pub proof fn lemma_replaced_reaches(a: Seq<Module>, b: Seq<Module>, p: Seq<int>, s: PatchSurface)
    requires
        replaced_at(a, b, p, s),
    ensures
        nested_at(b, p) == Some(s),
    decreases p.len(),
{
    if p.len() > 1 {
        match a[p[0]].body {
            ModuleBody::Composition { surface: asf, .. } => match b[p[0]].body {
                ModuleBody::Composition { surface: bsf, .. } => {
                    lemma_replaced_reaches(asf.modules@, bsf.modules@, p.drop_first(), s);
                },
                _ => {},
            },
            _ => {},
        }
    }
}

/// Two replacements at one path amount to the last one.
pub proof fn lemma_replaced_twice(
    a: Seq<Module>,
    b: Seq<Module>,
    c: Seq<Module>,
    p: Seq<int>,
    s1: PatchSurface,
    s2: PatchSurface,
)
    requires
        replaced_at(a, b, p, s1),
        replaced_at(b, c, p, s2),
    ensures
        replaced_at(a, c, p, s2),
    decreases p.len(),
{
    if p.len() > 1 {
        match a[p[0]].body {
            ModuleBody::Composition { surface: asf, .. } => match b[p[0]].body {
                ModuleBody::Composition { surface: bsf, .. } => match c[p[0]].body {
                    ModuleBody::Composition { surface: csf, .. } => {
                        lemma_replaced_twice(asf.modules@, bsf.modules@, csf.modules@, p.drop_first(), s1, s2);
                    },
                    _ => {},
                },
                _ => {},
            },
            _ => {},
        }
    }
    assert forall|k: int| 0 <= k < a.len() && k != p[0] implies #[trigger] c[k] == a[k] by {
        assert(b[k] == a[k]);
    }
}

/// Replacing the surface a search found leaves the search finding it at the
/// same place: the owner is still where it was, and nothing searched before
/// it changed.
pub proof fn lemma_path_stable(a: Seq<Module>, b: Seq<Module>, i: int, owner: ModuleId, p: Seq<int>, s: PatchSurface)
    requires
        0 <= i,
        path_from(a, i, owner) == Some(p),
        replaced_at(a, b, p, s),
    ensures
        path_from(b, i, owner) == Some(p),
    decreases a, a.len() - i,
{
    lemma_path_nonempty(a, i, owner);
    lemma_path_start(a, i, owner);
    if i < a.len() {
        let m = a[i];
        if i < p[0] {
            assert(b[i] == a[i]);
            if m.id != owner {
                match m.body {
                    ModuleBody::Composition { surface, .. } => {
                        assert(path_from(surface.modules@, 0, owner) is None) by {
                            if let Some(q) = path_from(surface.modules@, 0, owner) {
                                assert((seq![i] + q)[0] == i);
                            }
                        }
                        lemma_path_stable(a, b, i + 1, owner, p, s);
                    },
                    _ => {
                        lemma_path_stable(a, b, i + 1, owner, p, s);
                    },
                }
            }
        } else {
            assert(i == p[0]);
            if m.id != owner {
                match m.body {
                    ModuleBody::Composition { surface: asf, .. } => {
                        let q = path_from(asf.modules@, 0, owner);
                        if let Some(qq) = q {
                            assert((seq![i] + qq).drop_first() =~= qq);
                            assert(p == seq![i] + qq);
                            assert(p.drop_first() =~= qq);
                            lemma_path_nonempty(asf.modules@, 0, owner);
                            match b[i].body {
                                ModuleBody::Composition { surface: bsf, .. } => {
                                    lemma_path_stable(asf.modules@, bsf.modules@, 0, owner, qq, s);
                                },
                                _ => {},
                            }
                        } else {
                            lemma_path_start(a, i + 1, owner);
                            lemma_path_nonempty(a, i + 1, owner);
                        }
                    },
                    _ => {
                        lemma_path_start(a, i + 1, owner);
                        lemma_path_nonempty(a, i + 1, owner);
                    },
                }
            }
        }
    }
}

/// A path found from `i` on starts at `i` or later.
proof fn lemma_path_start(ms: Seq<Module>, i: int, owner: ModuleId)
    ensures
        path_from(ms, i, owner) matches Some(p) ==> p.len() > 0 && p[0] >= i && p[0] < ms.len(),
    decreases ms, ms.len() - i,
{
    lemma_path_nonempty(ms, i, owner);
    if 0 <= i < ms.len() {
        let m = ms[i];
        if m.id != owner {
            match m.body {
                ModuleBody::Composition { surface, .. } => {
                    lemma_path_start(ms, i + 1, owner);
                    if let Some(q) = path_from(surface.modules@, 0, owner) {
                        assert((seq![i] + q)[0] == i);
                    }
                },
                _ => {
                    lemma_path_start(ms, i + 1, owner);
                },
            }
        }
    }
}

/// The ids of the delay modules of a list, in order.
pub open spec fn delay_ids(ms: Seq<Module>) -> Seq<ModuleId>
    decreases ms.len(),
{
    if ms.len() == 0 {
        Seq::empty()
    } else {
        let rest = delay_ids(ms.drop_last());
        if body_kind(ms.last().body) == ModuleKind::Delay { rest.push(ms.last().id) } else { rest }
    }
}

/// The delay a tap reads from once its surface's delays are `delays`: its
/// own choice while that delay is still there, else the first delay.
pub open spec fn synced_selection(selected: Option<ModuleId>, delays: Seq<ModuleId>) -> Option<ModuleId> {
    match selected {
        Some(d) => if delays.contains(d) {
            Some(d)
        } else if delays.len() > 0 {
            Some(delays[0])
        } else {
            None
        },
        None => if delays.len() > 0 { Some(delays[0]) } else { None },
    }
}

/// `b` is `a` with every delay tap, at any depth, offered the delays of its
/// own surface and reading from one of them.
pub open spec fn delays_synced(a: Seq<Module>, b: Seq<Module>) -> bool
    decreases a, 1int,
{
    a.len() == b.len() && forall|i: int| 0 <= i < a.len() ==> module_delays_synced(#[trigger] a[i], b[i], delay_ids(a))
}

pub open spec fn module_delays_synced(x: Module, y: Module, delays: Seq<ModuleId>) -> bool
    decreases x, 0int,
{
    &&& y.id == x.id
    &&& y.position == x.position
    &&& y.orientation == x.orientation
    &&& y.disabled == x.disabled
    &&& match x.body {
        ModuleBody::DelayTap { source: xs, gain: xg } => match y.body {
            ModuleBody::DelayTap { source: ys, gain: yg } => {
                &&& yg == xg
                &&& ys.options@ == delays
                &&& ys.selected == synced_selection(xs.selected, delays)
            },
            _ => false,
        },
        ModuleBody::Composition { name: xn, surface: xsf } => match y.body {
            ModuleBody::Composition { name: yn, surface: ysf } => {
                &&& yn == xn
                &&& ysf.cursor == xsf.cursor
                &&& delays_synced(xsf.modules@, ysf.modules@)
            },
            _ => false,
        },
        _ => y.body == x.body,
    }
}

proof fn lemma_delay_ids_kinds(a: Seq<Module>, b: Seq<Module>)
    requires
        a.len() == b.len(),
        forall|i: int| 0 <= i < a.len() ==> (#[trigger] b[i]).id == a[i].id && body_kind(b[i].body) == body_kind(a[i].body),
    ensures
        delay_ids(a) == delay_ids(b),
    decreases a.len(),
{
    if a.len() > 0 {
        lemma_delay_ids_kinds(a.drop_last(), b.drop_last());
        assert(b.last() == b[b.len() - 1]);
    }
}

fn collect_delay_ids(ms: &Vec<Module>) -> (r: Vec<ModuleId>)
    ensures
        r@ == delay_ids(ms@),
{
    let mut r: Vec<ModuleId> = Vec::new();
    let mut i: usize = 0;
    while i < ms.len()
        invariant
            i <= ms@.len(),
            r@ == delay_ids(ms@.take(i as int)),
        decreases ms@.len() - i,
    {
        assert(ms@.take(i + 1).drop_last() =~= ms@.take(i as int));
        assert(ms@.take(i + 1).last() == ms@[i as int]);
        if ms[i].kind() == ModuleKind::Delay {
            r.push(ms[i].id);
        }
        i = i + 1;
    }
    assert(ms@.take(i as int) =~= ms@);
    r
}

fn ids_contain(ids: &Vec<ModuleId>, id: ModuleId) -> (r: bool)
    ensures
        r == ids@.contains(id),
{
    let mut i: usize = 0;
    while i < ids.len()
        invariant
            i <= ids@.len(),
            forall|k: int| 0 <= k < i ==> ids@[k] != id,
        decreases ids@.len() - i,
    {
        if ids[i] == id {
            return true;
        }
        i = i + 1;
    }
    false
}

fn clone_ids(v: &Vec<ModuleId>) -> (r: Vec<ModuleId>)
    ensures
        r@ == v@,
{
    let mut r: Vec<ModuleId> = Vec::new();
    let mut i: usize = 0;
    while i < v.len()
        invariant
            i <= v@.len(),
            r@ == v@.take(i as int),
        decreases v@.len() - i,
    {
        r.push(v[i]);
        assert(r@ =~= v@.take(i + 1));
        i = i + 1;
    }
    assert(v@.take(i as int) =~= v@);
    r
}

/// Offers every delay tap of a surface, nested ones included, the delays of
/// its own surface, and points a tap whose delay is gone at the first delay.
pub fn sync_delay_sources(surface: &mut PatchSurface)
    ensures
        final(surface).cursor == old(surface).cursor,
        delays_synced(old(surface).modules@, final(surface).modules@),
    decreases old(surface).modules@,
{
    let ghost start = surface.modules@;
    let delays = collect_delay_ids(&surface.modules);
    let n = surface.modules.len();
    let mut i: usize = 0;
    while i < n
        invariant
            start == old(surface).modules@,
            n == surface.modules@.len() == start.len(),
            i <= n,
            delays@ == delay_ids(start),
            surface.cursor == old(surface).cursor,
            forall|k: int| i <= k < n ==> #[trigger] surface.modules@[k] == start[k],
            forall|k: int| 0 <= k < i ==> module_delays_synced(start[k], #[trigger] surface.modules@[k], delays@),
        decreases n - i,
    {
        let ghost before = surface.modules@;
        let Module { id, position, orientation, body, disabled } = surface.modules.remove(i);
        assert(before[i as int] == start[i as int]);
        let body = match body {
            ModuleBody::DelayTap { source, gain } => {
                let keep = match source.selected {
                    Some(d) => ids_contain(&delays, d),
                    None => false,
                };
                let selected = if keep {
                    source.selected
                } else if delays.len() > 0 {
                    Some(delays[0])
                } else {
                    None
                };
                ModuleBody::DelayTap { source: DelaySourceParam { selected, options: clone_ids(&delays) }, gain }
            },
            ModuleBody::Composition { name, surface: inner } => {
                let mut inner = inner;
                proof {
                    assert(decreases_to!(start => start[i as int]));
                }
                sync_delay_sources(&mut inner);
                ModuleBody::Composition { name, surface: inner }
            },
            other => other,
        };
        surface.modules.insert(i, Module { id, position, orientation, body, disabled });
        proof {
            assert forall|k: int| 0 <= k < n && k != i implies #[trigger] surface.modules@[k] == before[k] by {
                if k < i {
                    assert(surface.modules@[k] == before[k]);
                } else {
                    assert(surface.modules@[k] == before[k]);
                }
            }
        }
        i = i + 1;
    }
}

/// Lists that differ only in disabled flags lead a search to the same place.
pub proof fn lemma_layout_path(a: Seq<Module>, b: Seq<Module>, i: int, owner: ModuleId)
    requires
        same_layout(a, b),
    ensures
        path_from(a, i, owner) == path_from(b, i, owner),
        find_from(a, i, owner) is Some <==> find_from(b, i, owner) is Some,
    decreases a, a.len() - i,
{
    lemma_path_from(a, i, owner);
    lemma_path_from(b, i, owner);
    if 0 <= i < a.len() {
        assert(layout_eq(a[i], b[i]));
        if a[i].id != owner {
            match a[i].body {
                ModuleBody::Composition { surface: asf, .. } => match b[i].body {
                    ModuleBody::Composition { surface: bsf, .. } => {
                        lemma_layout_path(asf.modules@, bsf.modules@, 0, owner);
                        lemma_layout_path(a, b, i + 1, owner);
                    },
                    _ => {},
                },
                _ => {
                    assert(!(b[i].body is Composition));
                    lemma_layout_path(a, b, i + 1, owner);
                },
            }
        } else {
            assert(a[i].body is Composition <==> b[i].body is Composition);
        }
    }
}

/// Lists that differ only in disabled flags hold, at a path, surfaces with the
/// same cursor that differ only in disabled flags.
pub proof fn lemma_layout_nested(a: Seq<Module>, b: Seq<Module>, p: Seq<int>)
    requires
        same_layout(a, b),
        nested_at(a, p) is Some,
    ensures
        nested_at(b, p) is Some,
        nested_at(b, p)->0.cursor == nested_at(a, p)->0.cursor,
        same_layout(nested_at(a, p)->0.modules@, nested_at(b, p)->0.modules@),
    decreases p.len(),
{
    assert(layout_eq(a[p[0]], b[p[0]]));
    match a[p[0]].body {
        ModuleBody::Composition { surface: asf, .. } => match b[p[0]].body {
            ModuleBody::Composition { surface: bsf, .. } => {
                if p.len() > 1 {
                    lemma_layout_nested(asf.modules@, bsf.modules@, p.drop_first());
                }
            },
            _ => {},
        },
        _ => {},
    }
}

/// The id a delay tap's copy reads from: the copy of its delay, or none
/// when its delay was not copied with it.
pub open spec fn remap_spec(selected: Option<ModuleId>, olds: Seq<ModuleId>, news: Seq<ModuleId>, k: int) -> Option<ModuleId>
    decreases olds.len() - k,
{
    match selected {
        Some(id) => if k < 0 || k >= olds.len() {
            None
        } else if olds[k] == id {
            Some(news[k])
        } else {
            remap_spec(selected, olds, news, k + 1)
        },
        None => None,
    }
}

pub fn remapped(selected: Option<ModuleId>, olds: &Vec<ModuleId>, news: &Vec<ModuleId>) -> (r: Option<ModuleId>)
    requires
        olds@.len() == news@.len(),
    ensures
        r == remap_spec(selected, olds@, news@, 0),
{
    match selected {
        Some(id) => {
            let mut k: usize = 0;
            while k < olds.len()
                invariant
                    selected == Some(id),
                    olds@.len() == news@.len(),
                    k <= olds@.len(),
                    remap_spec(selected, olds@, news@, 0) == remap_spec(selected, olds@, news@, k as int),
                decreases olds@.len() - k,
            {
                if olds[k] == id {
                    return Some(news[k]);
                }
                k = k + 1;
            }
            None
        },
        None => None,
    }
}

fn ids_of(ms: &Vec<Module>) -> (r: Vec<ModuleId>)
    ensures
        r@.len() == ms@.len(),
        forall|k: int| 0 <= k < ms@.len() ==> #[trigger] r@[k] == ms@[k].id,
{
    let mut r: Vec<ModuleId> = Vec::new();
    let mut i: usize = 0;
    while i < ms.len()
        invariant
            i <= ms@.len(),
            r@.len() == i,
            forall|k: int| 0 <= k < i ==> #[trigger] r@[k] == ms@[k].id,
        decreases ms@.len() - i,
    {
        r.push(ms[i].id);
        i = i + 1;
    }
    r
}

/// How many ids copying modules takes: one for each module, nested ones
/// included.
pub open spec fn copy_count(ms: Seq<Module>) -> nat
    decreases ms, 1int,
{
    if ms.len() == 0 {
        0
    } else {
        copy_count(ms.drop_last()) + module_copy_count(ms.last())
    }
}

/// How many ids copying a module takes: its own and those of the modules
/// nested in it.
pub open spec fn module_copy_count(m: Module) -> nat
    decreases m, 0int,
{
    match m.body {
        ModuleBody::Composition { surface, .. } => 1 + copy_count(surface.modules@),
        _ => 1,
    }
}

/// Copying a prefix takes no more ids than copying the whole.
proof fn lemma_copy_count_prefix(ms: Seq<Module>, j: int)
    requires
        0 <= j <= ms.len(),
    ensures
        copy_count(ms.take(j)) <= copy_count(ms),
    decreases ms.len(),
{
    if j == ms.len() {
        assert(ms.take(j) =~= ms);
    } else {
        assert(ms.drop_last().take(j) =~= ms.take(j));
        lemma_copy_count_prefix(ms.drop_last(), j);
    }
}

/// A copy of a module at `position` with a fresh id taken from `next`, its
/// nested modules copied with fresh ids too: inside a copied composition,
/// delay taps read from the copies of their delays. `None` when the ids run
/// out.
pub fn duplicate_module(m: &Module, position: GridPos, next: &mut u32) -> (r: Option<Module>)
    ensures
        *final(next) >= *old(next),
        r is Some <==> *old(next) + module_copy_count(*m) <= u32::MAX,
        r is Some ==> *final(next) == *old(next) + module_copy_count(*m),
        r matches Some(d) ==> {
            &&& d.id == (ModuleId { id: *old(next) })
            &&& d.position == position
            &&& d.orientation == m.orientation
            &&& !d.disabled
            &&& body_kind(d.body) == body_kind(m.body)
            &&& !(m.body is Composition) ==> flat_body_eq(m.body, d.body)
            &&& *old(next) < *final(next)
        },
    decreases m, 1int,
{
    if *next == u32::MAX {
        return None;
    }
    let id = ModuleId::new(*next);
    *next = *next + 1;
    let body = match &m.body {
        ModuleBody::Composition { name, surface } => {
            let copies = match duplicate_modules(&surface.modules, next) {
                Some(c) => c,
                None => return None,
            };
            let olds = ids_of(&surface.modules);
            let news = ids_of(&copies);
            let mut rest = copies;
            let mut taken: Vec<Module> = Vec::new();
            let mut k: usize = 0;
            while k < news.len()
                invariant
                    news@.len() == olds@.len() == surface.modules@.len(),
                    k <= news@.len(),
                    taken@.len() == k,
                    rest@.len() == news@.len() - k,
                decreases news@.len() - k,
            {
                let mut c = rest.remove(0);
                let old_selected = match &surface.modules[k].body {
                    ModuleBody::DelayTap { source, .. } => source.selected,
                    _ => None,
                };
                c.body = match c.body {
                    ModuleBody::DelayTap { source, gain } => ModuleBody::DelayTap {
                        source: crate::param::DelaySourceParam {
                            selected: remapped(old_selected, &olds, &news),
                            options: source.options,
                        },
                        gain,
                    },
                    other => other,
                };
                taken.push(c);
                k = k + 1;
            }
            let mut dup = PatchSurface { cursor: surface.cursor, modules: taken };
            sync_delay_sources(&mut dup);
            ModuleBody::Composition { name: name.clone(), surface: dup }
        },
        other => copy_flat_body(other),
    };
    Some(Module { id, position, orientation: m.orientation, body, disabled: false })
}

/// Copies of modules, in order and in place, with fresh ids taken from
/// `next` on (see `duplicate_module`). `None` when the ids run out.
pub fn duplicate_modules(ms: &Vec<Module>, next: &mut u32) -> (r: Option<Vec<Module>>)
    ensures
        *final(next) >= *old(next),
        r is Some <==> *old(next) + copy_count(ms@) <= u32::MAX,
        r is Some ==> *final(next) == *old(next) + copy_count(ms@),
        r matches Some(d) ==> {
            &&& d@.len() == ms@.len()
            &&& forall|k: int| 0 <= k < ms@.len() ==> {
                &&& (#[trigger] d@[k]).position == ms@[k].position
                &&& d@[k].orientation == ms@[k].orientation
                &&& !d@[k].disabled
                &&& body_kind(d@[k].body) == body_kind(ms@[k].body)
                &&& *old(next) <= d@[k].id.id < *final(next)
            }
        },
    decreases ms@, 0int,
{
    let mut out: Vec<Module> = Vec::new();
    let mut i: usize = 0;
    while i < ms.len()
        invariant
            i <= ms@.len(),
            out@.len() == i,
            *next >= *old(next),
            *next == *old(next) + copy_count(ms@.take(i as int)),
            forall|k: int| 0 <= k < i ==> {
                &&& (#[trigger] out@[k]).position == ms@[k].position
                &&& out@[k].orientation == ms@[k].orientation
                &&& !out@[k].disabled
                &&& body_kind(out@[k].body) == body_kind(ms@[k].body)
                &&& *old(next) <= out@[k].id.id < *next
            },
        decreases ms@.len() - i,
    {
        proof {
            assert(decreases_to!(ms@ => ms@[i as int]));
            assert(ms@.take(i + 1).drop_last() =~= ms@.take(i as int));
            assert(ms@.take(i + 1).last() == ms@[i as int]);
            lemma_copy_count_prefix(ms@, i + 1);
        }
        let d = match duplicate_module(&ms[i], ms[i].position, next) {
            Some(d) => d,
            None => return None,
        };
        out.push(d);
        i = i + 1;
    }
    proof {
        assert(ms@.take(ms@.len() as int) =~= ms@);
    }
    Some(out)
}

} // verus!
