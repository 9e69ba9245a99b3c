//! Sample modules whose audio file could not be found: which files a document
//! refers to, and marking the modules whose file is missing.
use vstd::prelude::*;
use crate::body::{Module, ModuleBody, PatchSurface};
use crate::instrument::Instrument;
use crate::palette::names_view;
use crate::text::same_text;

verus! {

broadcast use vstd::string::group_string_axioms;

/// The file names the sample modules of a list refer to, nested lists
/// included, in order: one entry per sample module.
pub open spec fn sample_names(ms: Seq<Module>) -> Seq<Seq<char>>
    decreases ms, 1int,
{
    if ms.len() == 0 {
        Seq::empty()
    } else {
        sample_names(ms.drop_last()) + module_sample_names(ms.last())
    }
}

/// The file names a module and the modules nested in it refer to.
pub open spec fn module_sample_names(m: Module) -> Seq<Seq<char>>
    decreases m, 0int,
{
    match m.body {
        ModuleBody::Sample { file_name, .. } => seq![file_name@],
        ModuleBody::Composition { surface, .. } => sample_names(surface.modules@),
        _ => Seq::empty(),
    }
}

/// Whether a sample file counts as missing: it is named, and listed.
pub open spec fn is_missing(name: Seq<char>, missing: Seq<Seq<char>>) -> bool {
    name != "none"@ && missing.contains(name)
}

/// `acc` followed by the missing names among `names` that are not in it yet,
/// each once, in order.
pub open spec fn note_missing(acc: Seq<Seq<char>>, names: Seq<Seq<char>>, missing: Seq<Seq<char>>) -> Seq<Seq<char>>
    decreases names.len(),
{
    if names.len() == 0 {
        acc
    } else {
        let r = note_missing(acc, names.drop_last(), missing);
        let n = names.last();
        if is_missing(n, missing) && !r.contains(n) { r.push(n) } else { r }
    }
}

/// Two module lists alike but for the missing flags of sample modules,
/// which in `b` say whether the module's file is missing.
pub open spec fn marked_list(a: Seq<Module>, b: Seq<Module>, missing: Seq<Seq<char>>) -> bool
    decreases a, 1int,
{
    a.len() == b.len() && forall|i: int| 0 <= i < a.len() ==> marked_module(#[trigger] a[i], b[i], missing)
}

/// A module, and the modules nested in it, with sample modules marked.
pub open spec fn marked_module(x: Module, y: Module, missing: Seq<Seq<char>>) -> bool
    decreases x, 0int,
{
    &&& y.id == x.id
    &&& y.position == x.position
    &&& y.orientation == x.orientation
    &&& y.disabled == x.disabled
    &&& match x.body {
        ModuleBody::Sample { file_name, position, .. } => y.body matches ModuleBody::Sample {
            file_name: f,
            file_missing: m,
            position: p,
        } && f@ == file_name@ && p == position && m == is_missing(file_name@, missing),
        ModuleBody::Composition { name, surface } => y.body matches ModuleBody::Composition { name: n, surface: s }
            && n@ == name@ && s.cursor == surface.cursor && marked_list(surface.modules@, s.modules@, missing),
        _ => y.body == x.body,
    }
}

proof fn lemma_note_missing_concat(acc: Seq<Seq<char>>, a: Seq<Seq<char>>, b: Seq<Seq<char>>, missing: Seq<Seq<char>>)
    ensures
        note_missing(acc, a + b, missing) == note_missing(note_missing(acc, a, missing), b, missing),
    decreases b.len(),
{
    if b.len() == 0 {
        assert(a + b =~= a);
    } else {
        assert((a + b).drop_last() =~= a + b.drop_last());
        assert((a + b).last() == b.last());
        lemma_note_missing_concat(acc, a, b.drop_last(), missing);
    }
}

fn listed(names: &Vec<String>, name: &String) -> (r: bool)
    ensures
        r == names_view(names@).contains(name@),
{
    let mut i: usize = 0;
    while i < names.len()
        invariant
            i <= names@.len(),
            forall|k: int| 0 <= k < i ==> names@[k]@ != name@,
        decreases names@.len() - i,
    {
        if same_text(names[i].as_str(), name.as_str()) {
            assert(names_view(names@)[i as int] == name@);
            return true;
        }
        i = i + 1;
    }
    proof {
        if names_view(names@).contains(name@) {
            let k = choose|k: int| 0 <= k < names_view(names@).len() && names_view(names@)[k] == name@;
            assert(names@[k]@ == name@);
        }
    }
    false
}

/// Marks the sample modules of a list, nested ones included, as missing
/// exactly when their file is named in `missing`, and appends to `found`
/// the missing names it meets that `found` lacks.
pub fn mark_missing_in_list(ms: &mut Vec<Module>, missing: &Vec<String>, found: &mut Vec<String>)
    ensures
        marked_list(old(ms)@, final(ms)@, names_view(missing@)),
        names_view(final(found)@) == note_missing(names_view(old(found)@), sample_names(old(ms)@), names_view(missing@)),
    decreases old(ms)@,
{
    let ghost start = ms@;
    let ghost acc0 = names_view(found@);
    let ghost miss = names_view(missing@);
    let n = ms.len();
    let mut i: usize = 0;
    assert(start.take(0) =~= Seq::<Module>::empty());
    while i < n
        invariant
            start == old(ms)@,
            acc0 == names_view(old(found)@),
            miss == names_view(missing@),
            n == ms@.len() == start.len(),
            i <= n,
            forall|k: int| i <= k < n ==> #[trigger] ms@[k] == start[k],
            forall|k: int| 0 <= k < i ==> marked_module(start[k], #[trigger] ms@[k], miss),
            names_view(found@) == note_missing(acc0, sample_names(start.take(i as int)), miss),
        decreases n - i,
    {
        let ghost before = ms@;
        let ghost acc = names_view(found@);
        let Module { id, position, orientation, body, disabled } = ms.remove(i);
        assert(before[i as int] == start[i as int]);
        assert(start.take(i + 1).drop_last() =~= start.take(i as int));
        assert(start.take(i + 1).last() == start[i as int]);
        let body = match body {
            ModuleBody::Sample { file_name, file_missing, position: p } => {
                let gone = !same_text(file_name.as_str(), "none") && listed(missing, &file_name);
                let ghost names = seq![file_name@];
                proof {
                    assert(names.drop_last() =~= Seq::<Seq<char>>::empty());
                    assert(note_missing(acc, names.drop_last(), miss) == acc);
                    assert(names.last() == file_name@);
                }
                if gone && !listed(found, &file_name) {
                    let copy = file_name.clone();
                    let ghost prev = found@;
                    found.push(copy);
                    proof {
                        assert(names_view(found@) =~= names_view(prev).push(file_name@));
                    }
                }
                proof {
                    assert(names_view(found@) =~= note_missing(acc, names, miss));
                    assert(module_sample_names(start[i as int]) == names);
                    assert(sample_names(start.take(i + 1)) == sample_names(start.take(i as int)) + names);
                    lemma_note_missing_concat(acc0, sample_names(start.take(i as int)), names, miss);
                }
                ModuleBody::Sample { file_name, file_missing: gone, position: p }
            },
            ModuleBody::Composition { name, surface: inner } => {
                let PatchSurface { cursor, modules } = inner;
                let ghost inner_start = modules@;
                let mut modules = modules;
                proof {
                    assert(decreases_to!(start => start[i as int]));
                }
                mark_missing_in_list(&mut modules, missing, found);
                proof {
                    assert(module_sample_names(start[i as int]) == sample_names(inner_start));
                    assert(sample_names(start.take(i + 1)) == sample_names(start.take(i as int)) + sample_names(inner_start));
                    lemma_note_missing_concat(acc0, sample_names(start.take(i as int)), module_sample_names(start[i as int]), miss);
                }
                ModuleBody::Composition { name, surface: PatchSurface { cursor, modules } }
            },
            other => {
                proof {
                    assert(module_sample_names(start[i as int]) =~= Seq::<Seq<char>>::empty());
                    assert(sample_names(start.take(i + 1)) =~= sample_names(start.take(i as int)));
                }
                other
            },
        };
        ms.insert(i, Module { id, position, orientation, body, disabled });
        proof {
            assert forall|k: int| 0 <= k < n && k != i implies #[trigger] ms@[k] == before[k] by {
                if k < i {
                    assert(ms@[k] == before[k]);
                } else {
                    assert(ms@[k] == before[k]);
                }
            }
        }
        i = i + 1;
    }
    assert(start.take(n as int) =~= start);
}

/// The file names the sample modules of every instrument refer to, in order.
pub open spec fn all_sample_names(insts: Seq<Instrument>) -> Seq<Seq<char>>
    decreases insts.len(),
{
    if insts.len() == 0 {
        Seq::empty()
    } else {
        all_sample_names(insts.drop_last()) + sample_names(insts.last().root.modules@)
    }
}

/// Names joined by a comma and a space.
pub open spec fn joined(names: Seq<Seq<char>>) -> Seq<char>
    decreases names.len(),
{
    if names.len() == 0 {
        Seq::empty()
    } else if names.len() == 1 {
        names[0]
    } else {
        joined(names.drop_last()) + ", "@ + names.last()
    }
}

/// Appends the file names the sample modules of a list refer to, nested
/// lists included, in order.
pub fn collect_sample_names(ms: &Vec<Module>, out: &mut Vec<String>)
    ensures
        names_view(final(out)@) == names_view(old(out)@) + sample_names(ms@),
    decreases ms@,
{
    let mut i: usize = 0;
    assert(ms@.take(0) =~= Seq::<Module>::empty());
    assert(names_view(out@) =~= names_view(out@) + Seq::<Seq<char>>::empty());
    while i < ms.len()
        invariant
            i <= ms@.len(),
            names_view(out@) == names_view(old(out)@) + sample_names(ms@.take(i as int)),
        decreases ms@.len() - i,
    {
        assert(ms@.take(i + 1).drop_last() =~= ms@.take(i as int));
        assert(ms@.take(i + 1).last() == ms@[i as int]);
        let ghost prev = names_view(out@);
        match &ms[i].body {
            ModuleBody::Sample { file_name, .. } => {
                let ghost before = out@;
                out.push(file_name.clone());
                proof {
                    assert(names_view(out@) =~= names_view(before).push(file_name@));
                    assert(module_sample_names(ms@[i as int]) == seq![file_name@]);
                    assert(sample_names(ms@.take(i + 1)) == sample_names(ms@.take(i as int)) + seq![file_name@]);
                    assert(names_view(out@) =~= names_view(old(out)@) + sample_names(ms@.take(i + 1)));
                }
            },
            ModuleBody::Composition { surface, .. } => {
                proof {
                    assert(decreases_to!(ms@ => ms@[i as int]));
                }
                collect_sample_names(&surface.modules, out);
                proof {
                    assert(module_sample_names(ms@[i as int]) == sample_names(surface.modules@));
                    assert(sample_names(ms@.take(i + 1)) == sample_names(ms@.take(i as int)) + sample_names(surface.modules@));
                    assert(names_view(out@) =~= names_view(old(out)@) + sample_names(ms@.take(i + 1)));
                }
            },
            _ => {
                proof {
                    assert(module_sample_names(ms@[i as int]) =~= Seq::<Seq<char>>::empty());
                    assert(sample_names(ms@.take(i + 1)) =~= sample_names(ms@.take(i as int)));
                }
            },
        }
        i = i + 1;
    }
    assert(ms@.take(ms@.len() as int) =~= ms@);
}

/// The file names the sample modules of every instrument refer to, in order.
pub fn instrument_sample_names(insts: &Vec<Instrument>) -> (r: Vec<String>)
    ensures
        names_view(r@) == all_sample_names(insts@),
{
    let mut r: Vec<String> = Vec::new();
    let mut i: usize = 0;
    assert(insts@.take(0) =~= Seq::<Instrument>::empty());
    while i < insts.len()
        invariant
            i <= insts@.len(),
            names_view(r@) == all_sample_names(insts@.take(i as int)),
        decreases insts@.len() - i,
    {
        assert(insts@.take(i + 1).drop_last() =~= insts@.take(i as int));
        collect_sample_names(&insts[i].root.modules, &mut r);
        i = i + 1;
    }
    assert(insts@.take(insts@.len() as int) =~= insts@);
    r
}

/// Marks the sample modules of every instrument as missing exactly when
/// their file is named in `missing`, and gives the missing names met, each
/// once, in order.
pub fn mark_missing_in_instruments(insts: &mut Vec<Instrument>, missing: &Vec<String>) -> (found: Vec<String>)
    ensures
        final(insts)@.len() == old(insts)@.len(),
        forall|k: int| 0 <= k < old(insts)@.len() ==> {
            &&& marked_list(old(insts)@[k].root.modules@, #[trigger] final(insts)@[k].root.modules@, names_view(missing@))
            &&& final(insts)@[k].root.cursor == old(insts)@[k].root.cursor
            &&& final(insts)@[k].track_text == old(insts)@[k].track_text
            &&& final(insts)@[k].editing_composition == old(insts)@[k].editing_composition
            &&& final(insts)@[k].composition_stack == old(insts)@[k].composition_stack
        },
        names_view(found@) == note_missing(Seq::empty(), all_sample_names(old(insts)@), names_view(missing@)),
{
    let ghost start = insts@;
    let ghost miss = names_view(missing@);
    let mut found: Vec<String> = Vec::new();
    let n = insts.len();
    let mut i: usize = 0;
    assert(start.take(0) =~= Seq::<Instrument>::empty());
    while i < n
        invariant
            start == old(insts)@,
            miss == names_view(missing@),
            n == insts@.len() == start.len(),
            i <= n,
            forall|k: int| i <= k < n ==> #[trigger] insts@[k] == start[k],
            forall|k: int| 0 <= k < i ==> {
                &&& marked_list(start[k].root.modules@, #[trigger] insts@[k].root.modules@, miss)
                &&& insts@[k].root.cursor == start[k].root.cursor
                &&& insts@[k].track_text == start[k].track_text
                &&& insts@[k].editing_composition == start[k].editing_composition
                &&& insts@[k].composition_stack == start[k].composition_stack
            },
            names_view(found@) == note_missing(Seq::empty(), all_sample_names(start.take(i as int)), miss),
        decreases n - i,
    {
        let ghost before = insts@;
        let ghost acc = names_view(found@);
        assert(start.take(i + 1).drop_last() =~= start.take(i as int));
        let mut inst = insts.remove(i);
        assert(inst == start[i as int]);
        mark_missing_in_list(&mut inst.root.modules, missing, &mut found);
        proof {
            lemma_note_missing_concat(Seq::empty(), all_sample_names(start.take(i as int)), sample_names(start[i as int].root.modules@), miss);
        }
        let ghost marked = inst;
        insts.insert(i, inst);
        proof {
            assert(insts@[i as int] == marked);
            assert(marked_list(start[i as int].root.modules@, insts@[i as int].root.modules@, miss));
            assert(insts@[i as int].root.cursor == start[i as int].root.cursor);
            assert(insts@[i as int].track_text == start[i as int].track_text);
            assert(insts@[i as int].editing_composition == start[i as int].editing_composition);
            assert(insts@[i as int].composition_stack == start[i as int].composition_stack);
            assert forall|k: int| 0 <= k < n && k != i implies #[trigger] insts@[k] == before[k] by {
                if k < i {
                    assert(insts@[k] == before[k]);
                } else {
                    assert(insts@[k] == before[k]);
                }
            }
            assert forall|k: int| 0 <= k < i implies marked_list(start[k].root.modules@, #[trigger] insts@[k].root.modules@, miss) by {
                assert(insts@[k] == before[k]);
                assert(marked_list(start[k].root.modules@, before[k].root.modules@, miss));
            }
        }
        i = i + 1;
    }
    assert(start.take(n as int) =~= start);
    found
}

/// Appends names to a string, joined by a comma and a space.
pub fn push_joined(s: &mut String, names: &Vec<String>)
    ensures
        final(s)@ == old(s)@ + joined(names_view(names@)),
{
    let ghost start = s@;
    let mut i: usize = 0;
    assert(names_view(names@).take(0) =~= Seq::<Seq<char>>::empty());
    while i < names.len()
        invariant
            i <= names@.len(),
            s@ == start + joined(names_view(names@).take(i as int)),
        decreases names@.len() - i,
    {
        let ghost v = names_view(names@);
        assert(v.take(i + 1).drop_last() =~= v.take(i as int));
        assert(v.take(i + 1).last() == names@[i as int]@);
        if i > 0 {
            s.append(", ");
        }
        s.append(names[i].as_str());
        proof {
            if i == 0 {
                assert(v.take(1)[0] == names@[0]@);
                assert(s@ =~= start + joined(v.take(i + 1)));
            } else {
                assert(s@ =~= start + joined(v.take(i + 1)));
            }
        }
        i = i + 1;
    }
    assert(names_view(names@).take(names@.len() as int) =~= names_view(names@));
}

} // verus!
