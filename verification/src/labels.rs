//! The port labels of compositions: a document can be written to a file only
//! when every composition names its inputs, and its outputs, each with a
//! label of its own.
use vstd::prelude::*;
use crate::body::{Module, ModuleBody, PatchSurface};
use crate::text::{chars_equal, chars_of, string_from_chars, trim_chars, trimmed};

verus! {

broadcast use vstd::string::group_string_axioms;

/// What `<str as Debug>::fmt` writes for a text: the text in double quotes,
/// special characters escaped.
pub uninterp spec fn debug_text(s: Seq<char>) -> Seq<char>;

/// `<str as Debug>::fmt`, through `format!`: the text quoted and escaped as
/// Rust writes it for debugging. The contract only names the result.
#[verifier::external_body]
fn debug_quoted(s: &str) -> (r: String)
    ensures
        r@ == debug_text(s@),
{
    format!("{s:?}")
}

/// The trimmed labels of the composition inputs of a module list, in order.
pub open spec fn input_labels(ms: Seq<Module>) -> Seq<Seq<char>>
    decreases ms.len(),
{
    if ms.len() == 0 {
        Seq::empty()
    } else {
        let rest = input_labels(ms.drop_last());
        match ms.last().body {
            ModuleBody::CompositionInput { label, .. } => rest.push(trimmed(label@)),
            _ => rest,
        }
    }
}

/// The trimmed labels of the composition outputs of a module list, in order.
pub open spec fn output_labels(ms: Seq<Module>) -> Seq<Seq<char>>
    decreases ms.len(),
{
    if ms.len() == 0 {
        Seq::empty()
    } else {
        let rest = output_labels(ms.drop_last());
        match ms.last().body {
            ModuleBody::CompositionOutput { label, .. } => rest.push(trimmed(label@)),
            _ => rest,
        }
    }
}

/// The first port of a composition's module list whose trimmed label is
/// empty or already names an earlier port of the same direction.
pub open spec fn port_error(ms: Seq<Module>) -> Option<Seq<char>>
    decreases ms.len(),
{
    if ms.len() == 0 {
        None
    } else {
        match port_error(ms.drop_last()) {
            Some(e) => Some(e),
            None => match ms.last().body {
                ModuleBody::CompositionInput { label, .. } => {
                    let t = trimmed(label@);
                    if t.len() == 0 || input_labels(ms.drop_last()).contains(t) { Some(t) } else { None }
                },
                ModuleBody::CompositionOutput { label, .. } => {
                    let t = trimmed(label@);
                    if t.len() == 0 || output_labels(ms.drop_last()).contains(t) { Some(t) } else { None }
                },
                _ => None,
            },
        }
    }
}

/// The first bad port label of the compositions on a surface, met module by
/// module, each composition's own ports before those nested in it.
pub open spec fn label_error(ms: Seq<Module>) -> Option<Seq<char>>
    decreases ms, 1int,
{
    if ms.len() == 0 {
        None
    } else {
        match label_error(ms.drop_last()) {
            Some(e) => Some(e),
            None => module_label_error(ms.last()),
        }
    }
}

/// The first bad port label of a composition and the compositions in it.
pub open spec fn module_label_error(m: Module) -> Option<Seq<char>>
    decreases m, 0int,
{
    match m.body {
        ModuleBody::Composition { surface, .. } => match port_error(surface.modules@) {
            Some(e) => Some(e),
            None => label_error(surface.modules@),
        },
        _ => None,
    }
}

proof fn lemma_port_error_prefix(ms: Seq<Module>, k: int)
    requires
        0 <= k <= ms.len(),
        port_error(ms.take(k)) is Some,
    ensures
        port_error(ms) == port_error(ms.take(k)),
    decreases ms.len() - k,
{
    if k < ms.len() {
        assert(ms.take(k + 1).drop_last() =~= ms.take(k));
        lemma_port_error_prefix(ms, k + 1);
    } else {
        assert(ms.take(k) =~= ms);
    }
}

proof fn lemma_label_error_prefix(ms: Seq<Module>, k: int)
    requires
        0 <= k <= ms.len(),
        label_error(ms.take(k)) is Some,
    ensures
        label_error(ms) == label_error(ms.take(k)),
    decreases ms.len() - k,
{
    if k < ms.len() {
        assert(ms.take(k + 1).drop_last() =~= ms.take(k));
        lemma_label_error_prefix(ms, k + 1);
    } else {
        assert(ms.take(k) =~= ms);
    }
}

fn listed_label(labels: &Vec<Vec<char>>, label: &Vec<char>) -> (r: bool)
    ensures
        r == labels@.map_values(|l: Vec<char>| l@).contains(label@),
{
    let ghost views = labels@.map_values(|l: Vec<char>| l@);
    let mut i: usize = 0;
    while i < labels.len()
        invariant
            i <= labels@.len(),
            views == labels@.map_values(|l: Vec<char>| l@),
            forall|k: int| 0 <= k < i ==> views[k] != label@,
        decreases labels@.len() - i,
    {
        if chars_equal(&labels[i], label) {
            assert(views[i as int] == label@);
            return true;
        }
        i = i + 1;
    }
    proof {
        if views.contains(label@) {
            let k = choose|k: int| 0 <= k < views.len() && views[k] == label@;
            assert(views[k] == label@);
        }
    }
    false
}

/// The first bad port label of a composition's own ports.
fn port_label_error(ms: &Vec<Module>) -> (r: Option<Vec<char>>)
    ensures
        match r {
            Some(e) => port_error(ms@) == Some(e@),
            None => port_error(ms@) is None,
        },
{
    let mut inputs: Vec<Vec<char>> = Vec::new();
    let mut outputs: Vec<Vec<char>> = Vec::new();
    let mut i: usize = 0;
    while i < ms.len()
        invariant
            i <= ms@.len(),
            inputs@.map_values(|l: Vec<char>| l@) == input_labels(ms@.take(i as int)),
            outputs@.map_values(|l: Vec<char>| l@) == output_labels(ms@.take(i as int)),
            port_error(ms@.take(i as int)) is None,
        decreases ms@.len() - i,
    {
        assert(ms@.take(i + 1).drop_last() =~= ms@.take(i as int));
        assert(ms@.take(i + 1).last() == ms@[i as int]);
        match &ms[i].body {
            ModuleBody::CompositionInput { label, .. } => {
                let t = trim_chars(chars_of(label.as_str()).as_slice());
                if t.len() == 0 || listed_label(&inputs, &t) {
                    proof {
                        assert(port_error(ms@.take(i + 1)) == Some(t@));
                        lemma_port_error_prefix(ms@, i + 1);
                    }
                    return Some(t);
                }
                let ghost prev = inputs@;
                inputs.push(t);
                proof {
                    assert(inputs@.map_values(|l: Vec<char>| l@) =~= prev.map_values(|l: Vec<char>| l@).push(trimmed(label@)));
                }
            },
            ModuleBody::CompositionOutput { label, .. } => {
                let t = trim_chars(chars_of(label.as_str()).as_slice());
                if t.len() == 0 || listed_label(&outputs, &t) {
                    proof {
                        assert(port_error(ms@.take(i + 1)) == Some(t@));
                        lemma_port_error_prefix(ms@, i + 1);
                    }
                    return Some(t);
                }
                let ghost prev = outputs@;
                outputs.push(t);
                proof {
                    assert(outputs@.map_values(|l: Vec<char>| l@) =~= prev.map_values(|l: Vec<char>| l@).push(trimmed(label@)));
                }
            },
            _ => {},
        }
        i = i + 1;
    }
    assert(ms@.take(i as int) =~= ms@);
    None
}

/// The first bad port label of the compositions of a module list.
fn first_label_error(ms: &Vec<Module>) -> (r: Option<Vec<char>>)
    ensures
        match r {
            Some(e) => label_error(ms@) == Some(e@),
            None => label_error(ms@) is None,
        },
    decreases ms@,
{
    let mut i: usize = 0;
    while i < ms.len()
        invariant
            i <= ms@.len(),
            label_error(ms@.take(i as int)) is None,
        decreases ms@.len() - i,
    {
        assert(ms@.take(i + 1).drop_last() =~= ms@.take(i as int));
        assert(ms@.take(i + 1).last() == ms@[i as int]);
        match &ms[i].body {
            ModuleBody::Composition { surface, .. } => {
                match port_label_error(&surface.modules) {
                    Some(e) => {
                        proof {
                            assert(module_label_error(ms@[i as int]) == Some(e@));
                            assert(label_error(ms@.take(i + 1)) == Some(e@));
                            lemma_label_error_prefix(ms@, i + 1);
                        }
                        return Some(e);
                    },
                    None => {},
                }
                proof {
                    assert(decreases_to!(ms@ => ms@[i as int]));
                }
                match first_label_error(&surface.modules) {
                    Some(e) => {
                        proof {
                            assert(module_label_error(ms@[i as int]) == Some(e@));
                            assert(label_error(ms@.take(i + 1)) == Some(e@));
                            lemma_label_error_prefix(ms@, i + 1);
                        }
                        return Some(e);
                    },
                    None => {},
                }
                proof {
                    assert(module_label_error(ms@[i as int]) is None);
                }
            },
            _ => {
                proof {
                    assert(module_label_error(ms@[i as int]) is None);
                }
            },
        }
        i = i + 1;
    }
    assert(ms@.take(i as int) =~= ms@);
    None
}

/// Checks that every composition on a surface, nested ones included, names
/// each of its inputs, and each of its outputs, with a label that is not
/// blank and not used by another port of the same direction. The error names
/// the first bad label, trimmed and quoted.
pub fn validate_composition_labels(surface: &PatchSurface) -> (r: Result<(), String>)
    ensures
        match label_error(surface.modules@) {
            None => r is Ok,
            Some(label) => r matches Err(e) && e@ == "invalid composition port label "@ + debug_text(label),
        },
{
    match first_label_error(&surface.modules) {
        None => Ok(()),
        Some(label) => {
            let text = string_from_chars(label.as_slice());
            let quoted = debug_quoted(text.as_str());
            let mut message = "invalid composition port label ".to_owned();
            message.append(quoted.as_str());
            Err(message)
        },
    }
}

} // verus!
