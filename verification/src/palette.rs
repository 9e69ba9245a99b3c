//! The module palette: the kinds of each category, the user's compositions,
//! and the search over all of them.
use vstd::prelude::*;
use crate::text::string_from_chars;
use crate::kind::{ModuleCategory, ModuleKind, category_order, kind_category, kind_label, palette_kinds, all_modules};

verus! {

broadcast use vstd::string::group_string_axioms;

/// An entry of the palette: a kind, the name it is listed under, and for a
/// user composition its index among them.
#[derive(Clone, Debug, PartialEq, Eq)]
pub struct PaletteModule {
    pub kind: ModuleKind,
    pub name: String,
    pub user: Option<usize>,
}

/// A palette entry as the contracts see it.
pub type EntryView = (ModuleKind, Seq<char>, Option<usize>);

impl PaletteModule {
    pub open spec fn entry(self) -> EntryView {
        (self.kind, self.name@, self.user)
    }

    pub fn kind(&self) -> (r: ModuleKind)
        ensures
            r == self.kind,
    {
        self.kind
    }

    pub fn label(&self) -> (r: &str)
        ensures
            r@ == self.name@,
    {
        self.name.as_str()
    }

    pub fn category(&self) -> (r: ModuleCategory)
        ensures
            r == kind_category(self.kind),
    {
        self.kind.category()
    }
}

/// The kinds of a list that belong to a category, in order.
pub open spec fn kinds_of(ks: Seq<ModuleKind>, c: ModuleCategory) -> Seq<ModuleKind>
    decreases ks.len(),
{
    if ks.len() == 0 {
        Seq::empty()
    } else {
        let rest = kinds_of(ks.drop_last(), c);
        if kind_category(ks.last()) == c { rest.push(ks.last()) } else { rest }
    }
}

/// The kinds of a category are the listed kinds of that category, in the
/// order they are listed.
pub proof fn lemma_kinds_of_filter(ks: Seq<ModuleKind>, c: ModuleCategory)
    ensures
        kinds_of(ks, c) == ks.filter(|k: ModuleKind| kind_category(k) == c),
    decreases ks.len(),
{
    reveal_with_fuel(Seq::filter, 1);
    if ks.len() > 0 {
        lemma_kinds_of_filter(ks.drop_last(), c);
    }
}

/// Every kind of a category belongs to it.
pub proof fn lemma_kinds_of_category(ks: Seq<ModuleKind>, c: ModuleCategory)
    ensures
        forall|i: int| 0 <= i < kinds_of(ks, c).len() ==> kind_category(#[trigger] kinds_of(ks, c)[i]) == c,
    decreases ks.len(),
{
    if ks.len() > 0 {
        lemma_kinds_of_category(ks.drop_last(), c);
    }
}

/// What a category of the palette lists: every entry belongs to the
/// category; the built-in entries come first, each named by its kind's
/// label, and they are exactly the palette's kinds of that category in the
/// palette's order; after them, for compositions, come the user's
/// compositions under their own names.
pub proof fn law_palette_entries_in_category(c: ModuleCategory, users: Seq<Seq<char>>)
    ensures
        forall|i: int| 0 <= i < category_entries(c, users).len() ==> kind_category(#[trigger] category_entries(c, users)[i].0) == c,
        ({
            let builtin = palette_kinds().filter(|k: ModuleKind| kind_category(k) == c);
            &&& category_entries(c, users).len() == builtin.len() + (if c == ModuleCategory::Composition { users.len() } else { 0 })
            &&& forall|i: int| 0 <= i < builtin.len() ==> #[trigger] category_entries(c, users)[i] == (builtin[i], kind_label(builtin[i]), None::<usize>)
            &&& c == ModuleCategory::Composition ==> forall|i: int| 0 <= i < users.len() ==> #[trigger] category_entries(c, users)[builtin.len() + i] == (ModuleKind::Composition, users[i], Some(i as usize))
        }),
{
    lemma_kinds_of_filter(palette_kinds(), c);
    lemma_kinds_of_category(palette_kinds(), c);
    let ks = kinds_of(palette_kinds(), c);
    let es = category_entries(c, users);
    assert forall|i: int| 0 <= i < es.len() implies kind_category(#[trigger] es[i].0) == c by {
        if i < ks.len() {
            assert(kind_category(ks[i]) == c);
        }
    }
}

/// The entries a category lists: its built-in kinds, then, for compositions,
/// the user's compositions.
pub open spec fn category_entries(c: ModuleCategory, users: Seq<Seq<char>>) -> Seq<EntryView> {
    let builtin = kinds_of(palette_kinds(), c).map_values(|k: ModuleKind| (k, kind_label(k), None::<usize>));
    if c == ModuleCategory::Composition {
        builtin + Seq::new(users.len(), |i: int| (ModuleKind::Composition, users[i], Some(i as usize)))
    } else {
        builtin
    }
}

pub open spec fn names_view(v: Seq<String>) -> Seq<Seq<char>> {
    v.map_values(|s: String| s@)
}

/// The entries a category of the palette lists.
pub fn palette_modules_for(category: ModuleCategory, users: &Vec<String>) -> (r: Vec<PaletteModule>)
    ensures
        r@.map_values(|m: PaletteModule| m.entry()) == category_entries(category, names_view(users@)),
{
    let kinds = all_modules();
    let mut r: Vec<PaletteModule> = Vec::new();
    let mut i: usize = 0;
    while i < kinds.len()
        invariant
            kinds@ == palette_kinds(),
            i <= kinds@.len(),
            r@.map_values(|m: PaletteModule| m.entry()) == kinds_of(kinds@.take(i as int), category).map_values(
                |k: ModuleKind| (k, kind_label(k), None::<usize>),
            ),
        decreases kinds@.len() - i,
    {
        let k = kinds[i];
        assert(kinds@.take(i + 1).drop_last() =~= kinds@.take(i as int));
        assert(kinds@.take(i + 1).last() == k);
        if k.category() == category {
            let ghost before = r@;
            r.push(PaletteModule { kind: k, name: k.label().to_owned(), user: None });
            assert(r@.map_values(|m: PaletteModule| m.entry()) =~= before.map_values(|m: PaletteModule| m.entry()).push(
                (k, kind_label(k), None::<usize>),
            ));
            assert(kinds_of(kinds@.take(i + 1), category).map_values(|k: ModuleKind| (k, kind_label(k), None::<usize>))
                =~= kinds_of(kinds@.take(i as int), category).map_values(
                |k: ModuleKind| (k, kind_label(k), None::<usize>),
            ).push((k, kind_label(k), None::<usize>)));
        }
        i = i + 1;
    }
    assert(kinds@.take(i as int) =~= kinds@);
    if category == ModuleCategory::Composition {
        let ghost builtin = r@.map_values(|m: PaletteModule| m.entry());
        let n = r.len();
        let mut j: usize = 0;
        while j < users.len()
            invariant
                j <= users@.len(),
                r@.len() == n + j,
                forall|t: int| 0 <= t < n ==> (#[trigger] r@[t]).entry() == builtin[t],
                builtin.len() == n,
                forall|t: int|
                    0 <= t < j ==> (#[trigger] r@[n + t]).entry() == (ModuleKind::Composition, users@[t]@, Some(
                        t as usize,
                    )),
            decreases users@.len() - j,
        {
            r.push(PaletteModule { kind: ModuleKind::Composition, name: users[j].clone(), user: Some(j) });
            j = j + 1;
        }
        proof {
            let full = category_entries(category, names_view(users@));
            let got = r@.map_values(|m: PaletteModule| m.entry());
            assert(builtin == kinds_of(palette_kinds(), category).map_values(
                |k: ModuleKind| (k, kind_label(k), None::<usize>),
            ));
            assert(full.len() == got.len());
            assert forall|t: int| 0 <= t < got.len() implies got[t] == full[t] by {
                if t < n {
                    assert(got[t] == r@[t].entry());
                } else {
                    assert(got[t] == r@[n + (t - n)].entry());
                    assert(names_view(users@)[t - n] == users@[t - n]@);
                }
            }
            assert(got =~= full);
        }
    }
    r
}

/// The lowercase form of a string, as `str::to_lowercase` gives it.
pub uninterp spec fn lowercase(s: Seq<char>) -> Seq<char>;

/// `str::to_lowercase`. Its result is named, not described: it is
/// `lowercase` of the argument and nothing more is claimed of it.
#[verifier::external_body]
fn to_lowercase(s: &str) -> (r: String)
    ensures
        r@ == lowercase(s@),
{
    s.to_lowercase()
}

/// Whether `needle` occurs in `hay`.
pub open spec fn has_infix(hay: Seq<char>, needle: Seq<char>) -> bool {
    exists|i: int| 0 <= i && i + needle.len() <= hay.len() && #[trigger] hay.subrange(i, i + needle.len()) == needle
}

fn occurs_at(hay: &Vec<char>, needle: &Vec<char>, i: usize) -> (r: bool)
    requires
        i + needle@.len() <= hay@.len(),
    ensures
        r == (hay@.subrange(i as int, i + needle@.len()) == needle@),
{
    let n = hay.len();
    let mut k: usize = 0;
    while k < needle.len()
        invariant
            n == hay@.len(),
            i + needle@.len() <= hay@.len(),
            k <= needle@.len(),
            forall|t: int| 0 <= t < k ==> hay@[i + t] == needle@[t],
        decreases needle@.len() - k,
    {
        if hay[i + k] != needle[k] {
            assert(hay@.subrange(i as int, i + needle@.len())[k as int] != needle@[k as int]);
            return false;
        }
        k = k + 1;
    }
    assert(hay@.subrange(i as int, i + needle@.len()) =~= needle@);
    true
}

/// Whether `needle` occurs in `hay`.
fn contains_chars(hay: &Vec<char>, needle: &Vec<char>) -> (r: bool)
    ensures
        r == has_infix(hay@, needle@),
{
    if needle.len() > hay.len() {
        return false;
    }
    let last = hay.len() - needle.len();
    let mut i: usize = 0;
    while i <= last
        invariant
            last + needle@.len() == hay@.len(),
            i <= last + 1,
            forall|t: int| 0 <= t < i ==> #[trigger] hay@.subrange(t, t + needle@.len()) != needle@,
        decreases last + 1 - i,
    {
        if occurs_at(hay, needle, i) {
            return true;
        }
        if i == last {
            return false;
        }
        i = i + 1;
    }
    false
}

/// The entries of the first `k` categories, in palette order.
pub open spec fn entries_upto(k: int, users: Seq<Seq<char>>) -> Seq<EntryView>
    decreases k,
{
    if k <= 0 {
        Seq::empty()
    } else {
        entries_upto(k - 1, users) + category_entries(category_order()[k - 1], users)
    }
}

/// The entries whose name holds `needle`, ignoring case.
pub open spec fn matching(es: Seq<EntryView>, needle: Seq<char>) -> Seq<EntryView>
    decreases es.len(),
{
    if es.len() == 0 {
        es
    } else {
        let rest = matching(es.drop_last(), needle);
        if has_infix(lowercase(es.last().1), needle) { rest.push(es.last()) } else { rest }
    }
}

/// What a search of the palette lists: nothing for an empty filter, else
/// every entry of every category whose name holds the filter, ignoring case.
pub open spec fn search_results(filter: Seq<char>, users: Seq<Seq<char>>) -> Seq<EntryView> {
    if filter.len() == 0 {
        Seq::empty()
    } else {
        matching(entries_upto(8, users), lowercase(filter))
    }
}

/// The palette entries a search lists.
pub fn filtered_palette_modules(filter: &Vec<char>, users: &Vec<String>) -> (r: Vec<PaletteModule>)
    ensures
        r@.map_values(|m: PaletteModule| m.entry()) == search_results(filter@, names_view(users@)),
{
    if filter.len() == 0 {
        let r: Vec<PaletteModule> = Vec::new();
        assert(r@.map_values(|m: PaletteModule| m.entry()) =~= Seq::<EntryView>::empty());
        return r;
    }
    let needle_text = string_from_chars(filter.as_slice());
    let needle_lower = to_lowercase(needle_text.as_str());
    let needle = crate::text::chars_of(needle_lower.as_str());
    let categories = ModuleCategory::all();
    let ghost users_v = names_view(users@);
    let mut r: Vec<PaletteModule> = Vec::new();
    let mut c: usize = 0;
    while c < 8
        invariant
            categories@ == category_order(),
            needle@ == lowercase(filter@),
            users_v == names_view(users@),
            c <= 8,
            r@.map_values(|m: PaletteModule| m.entry()) == matching(entries_upto(c as int, users_v), needle@),
        decreases 8 - c,
    {
        let entries = palette_modules_for(categories[c], users);
        let ghost prefix = entries_upto(c as int, users_v);
        let ghost cat = entries@.map_values(|m: PaletteModule| m.entry());
        let mut e: usize = 0;
        while e < entries.len()
            invariant
                needle@ == lowercase(filter@),
                cat == entries@.map_values(|m: PaletteModule| m.entry()),
                e <= entries@.len(),
                r@.map_values(|m: PaletteModule| m.entry()) == matching(prefix + cat.take(e as int), needle@),
            decreases entries@.len() - e,
        {
            let entry = &entries[e];
            let lower = to_lowercase(entry.name.as_str());
            let hay = crate::text::chars_of(lower.as_str());
            assert((prefix + cat.take(e + 1)).drop_last() =~= prefix + cat.take(e as int));
            assert((prefix + cat.take(e + 1)).last() == entry.entry());
            if contains_chars(&hay, &needle) {
                let ghost before = r@;
                r.push(PaletteModule { kind: entry.kind, name: entry.name.clone(), user: entry.user });
                assert(r@.map_values(|m: PaletteModule| m.entry()) =~= before.map_values(|m: PaletteModule| m.entry()).push(
                    entry.entry(),
                ));
            }
            e = e + 1;
        }
        assert(cat.take(e as int) =~= cat);
        assert(prefix + cat =~= entries_upto(c + 1, users_v));
        c = c + 1;
    }
    r
}


/// A search lists an entry exactly when the filter occurs somewhere in the
/// entry's lowercased name, at any offset, and keeps the entries' order.
pub proof fn law_matching_anywhere(es: Seq<EntryView>, needle: Seq<char>)
    ensures
        forall|e: EntryView| #[trigger] matching(es, needle).contains(e) <==> es.contains(e) && exists|k: int|
            #![trigger lowercase(e.1).subrange(k, k + needle.len())]
            0 <= k && k + needle.len() <= lowercase(e.1).len() && lowercase(e.1).subrange(k, k + needle.len()) == needle,
        matching(es, needle).len() <= es.len(),
    decreases es.len(),
{
    if es.len() > 0 {
        let front = es.drop_last();
        law_matching_anywhere(front, needle);
        assert forall|e: EntryView| #[trigger] matching(es, needle).contains(e) <==> es.contains(e) && exists|k: int|
            #![trigger lowercase(e.1).subrange(k, k + needle.len())]
            0 <= k && k + needle.len() <= lowercase(e.1).len() && lowercase(e.1).subrange(k, k + needle.len()) == needle by {
            let rest = matching(front, needle);
            if matching(es, needle).contains(e) {
                let j = choose|j: int| 0 <= j < matching(es, needle).len() && matching(es, needle)[j] == e;
                if has_infix(lowercase(es.last().1), needle) && j == rest.len() {
                    assert(es[es.len() - 1] == e);
                } else {
                    assert(rest[j] == e);
                    assert(rest.contains(e));
                    let i = choose|i: int| 0 <= i < front.len() && front[i] == e;
                    assert(es[i] == e);
                }
            }
            if es.contains(e) && exists|k: int|
                #![trigger lowercase(e.1).subrange(k, k + needle.len())]
                0 <= k && k + needle.len() <= lowercase(e.1).len() && lowercase(e.1).subrange(k, k + needle.len()) == needle {
                let i = choose|i: int| 0 <= i < es.len() && es[i] == e;
                let k = choose|k: int| #![trigger lowercase(e.1).subrange(k, k + needle.len())] 0 <= k && k + needle.len() <= lowercase(e.1).len() && lowercase(e.1).subrange(k, k + needle.len()) == needle;
                if i == es.len() - 1 {
                    assert(lowercase(es.last().1).subrange(k, k + needle.len()) == needle);
                    assert(has_infix(lowercase(es.last().1), needle));
                    assert(matching(es, needle)[rest.len() as int] == e);
                } else {
                    assert(front[i] == e);
                    assert(front.contains(e));
                    assert(rest.contains(e));
                    let j = choose|j: int| 0 <= j < rest.len() && rest[j] == e;
                    assert(matching(es, needle)[j] == e);
                }
            }
        }
    }
}

/// What a palette search lists: for a filter that is not empty, exactly the
/// palette entries whose lowercased name holds the lowercased filter at some
/// offset.
pub proof fn law_search_matches_anywhere(filter: Seq<char>, users: Seq<Seq<char>>)
    ensures
        filter.len() > 0 ==> forall|e: EntryView| #[trigger] search_results(filter, users).contains(e) <==> entries_upto(
            8,
            users,
        ).contains(e) && exists|k: int|
            #![trigger lowercase(e.1).subrange(k, k + lowercase(filter).len())]
            0 <= k && k + lowercase(filter).len() <= lowercase(e.1).len() && lowercase(e.1).subrange(k, k + lowercase(filter).len())
                == lowercase(filter),
        filter.len() == 0 ==> search_results(filter, users).len() == 0,
{
    law_matching_anywhere(entries_upto(8, users), lowercase(filter));
}
} // verus!
