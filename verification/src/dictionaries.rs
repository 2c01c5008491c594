//! Switching dictionaries on and off in the configuration.
//!
//! Bundled domain dictionaries are listed by name in `domains` when on; imported user
//! dictionaries are on by default and listed in `disabled` when off.

use vstd::prelude::*;
use crate::strings::str_equal;
use crate::text::{decimal, push_decimal};

verus! {

/// The views of a list of names.
pub open spec fn names(list: Seq<String>) -> Seq<Seq<char>> {
    list.map_values(|s: String| s@)
}

/// `list` without any entry equal to `name`.
pub open spec fn without(list: Seq<Seq<char>>, name: Seq<char>) -> Seq<Seq<char>> {
    list.filter(other_than(name))
}

/// Names other than `name`.
pub open spec fn other_than(name: Seq<char>) -> spec_fn(Seq<char>) -> bool {
    |s: Seq<char>| s != name
}

/// `list` with `name` appended unless it is already there.
pub open spec fn with(list: Seq<Seq<char>>, name: Seq<char>) -> Seq<Seq<char>> {
    if list.contains(name) {
        list
    } else {
        list.push(name)
    }
}

fn contains_name(list: &Vec<String>, name: &str) -> (r: bool)
    ensures
        r == names(list@).contains(name@),
{
    let mut i: usize = 0;
    while i < list.len()
        invariant
            i <= list.len(),
            forall|j: int| 0 <= j < i ==> list@[j]@ != name@,
        decreases list.len() - i,
    {
        if str_equal(list[i].as_str(), name) {
            assert(names(list@)[i as int] == name@);
            return true;
        }
        i = i + 1;
    }
    assert(!names(list@).contains(name@)) by {
        if names(list@).contains(name@) {
            let k = choose|k: int| 0 <= k < names(list@).len() && names(list@)[k] == name@;
            assert(list@[k]@ == name@);
        }
    }
    false
}

fn append_name(list: Vec<String>, name: &str) -> (r: Vec<String>)
    ensures
        names(r@) == names(list@).push(name@),
{
    let ghost before = list@;
    let mut list = list;
    list.push(String::from_str(name));
    assert(names(list@) =~= names(before).push(name@));
    list
}

fn remove_name(list: Vec<String>, name: &str) -> (r: Vec<String>)
    ensures
        names(r@) == without(names(list@), name@),
{
    let mut kept: Vec<String> = Vec::new();
    let mut i: usize = 0;
    while i < list.len()
        invariant
            i <= list.len(),
            names(kept@) == without(names(list@).take(i as int), name@),
        decreases list.len() - i,
    {
        let ghost before = names(list@).take(i as int);
        assert(names(list@).take(i + 1) =~= before.push(names(list@)[i as int]));
        reveal_with_fuel(Seq::filter, 1);
        assert(before.push(names(list@)[i as int]).drop_last() =~= before);
        if !str_equal(list[i].as_str(), name) {
            let ghost prev = names(kept@);
            kept.push(list[i].clone());
            assert(names(kept@) =~= prev.push(list@[i as int]@));
        }
        i = i + 1;
    }
    assert(names(list@).take(list.len() as int) =~= names(list@));
    kept
}

/// The domain list after switching bundled dictionary `stem` on or off: on appends it once,
/// off removes every entry of it.
pub fn toggle_domain(domains: Vec<String>, stem: &str, on: bool) -> (r: Vec<String>)
    ensures
        on ==> names(r@) == with(names(domains@), stem@),
        !on ==> names(r@) == without(names(domains@), stem@),
{
    if on {
        if !contains_name(&domains, stem) {
            append_name(domains, stem)
        } else {
            domains
        }
    } else {
        remove_name(domains, stem)
    }
}

/// The disabled list after switching user dictionary `stem` on or off: on removes every entry
/// of it, off appends it once.
pub fn toggle_user(disabled: Vec<String>, stem: &str, on: bool) -> (r: Vec<String>)
    ensures
        on ==> names(r@) == without(names(disabled@), stem@),
        !on ==> names(r@) == with(names(disabled@), stem@),
{
    if on {
        remove_name(disabled, stem)
    } else if !contains_name(&disabled, stem) {
        append_name(disabled, stem)
    } else {
        disabled
    }
}

/// What a dictionary file declares about itself.
#[derive(Debug)]
pub struct DictMetadata {
    pub name: String,
    pub license: String,
}

/// A dictionary as the list shows it.
#[derive(Debug)]
pub struct DictInfo {
    /// The file stem, the key used in the configuration.
    pub stem: String,
    /// `name · N 条 · 随包 / license`; broken files are marked.
    pub label: String,
    /// The file could not be opened: listed, but cannot be switched.
    pub broken: bool,
}

/// The label of a dictionary that opened: its declared name (else the stem) and entry count,
/// then `随包` for bundled ones or the declared licence, when there is one, for imported ones.
pub open spec fn dict_label_spec(stem: Seq<char>, metadata: Option<(Seq<char>, Seq<char>)>, entries: u64, builtin: bool) -> Seq<char> {
    let name = match metadata {
        Some((n, _)) => n,
        None => stem,
    };
    let license = match metadata {
        Some((_, l)) => l,
        None => Seq::<char>::empty(),
    };
    let head = name + " · "@ + decimal(entries as nat) + " 条"@;
    if builtin {
        head + " · 随包"@
    } else if license.len() > 0 {
        head + " · "@ + license
    } else {
        head
    }
}

/// The metadata as plain values.
pub open spec fn metadata_view(m: Option<DictMetadata>) -> Option<(Seq<char>, Seq<char>)> {
    match m {
        Some(d) => Some((d.name@, d.license@)),
        None => None,
    }
}

/// How a dictionary file is listed. `opened` is `None` when the file could not be read as a
/// dictionary, otherwise its metadata (if declared) and its entry count. `builtin` marks the
/// bundled ones.
pub fn dict_info(stem: String, opened: Option<(Option<DictMetadata>, u64)>, builtin: bool) -> (r: DictInfo)
    ensures
        r.stem == stem,
        opened is None ==> r.broken && r.label@ == stem@ + "（文件损坏）"@,
        opened matches Some((m, n)) ==> !r.broken && r.label@ == dict_label_spec(stem@, metadata_view(m), n, builtin),
{
    match opened {
        None => {
            let mut label = stem.clone();
            label.append("（文件损坏）");
            DictInfo { stem, label, broken: true }
        },
        Some((metadata, entries)) => {
            let ghost mv = metadata_view(metadata);
            let (name, license) = match metadata {
                Some(m) => (m.name, m.license),
                None => (stem.clone(), String::new()),
            };
            let mut label = name;
            label.append(" · ");
            push_decimal(&mut label, entries);
            label.append(" 条");
            if builtin {
                label.append(" · 随包");
            } else if license.as_str().unicode_len() > 0 {
                label.append(" · ");
                label.append(license.as_str());
            }
            assert(label@ =~= dict_label_spec(stem@, mv, entries, builtin));
            DictInfo { stem, label, broken: false }
        },
    }
}

/// A dictionary switched on is enabled afterwards, and one switched off is not; entries for
/// other dictionaries are kept.
pub proof fn lemma_toggle_sets_state(list: Seq<Seq<char>>, name: Seq<char>, other: Seq<char>)
    requires
        other != name,
    ensures
        with(list, name).contains(name),
        !without(list, name).contains(name),
        with(list, name).contains(other) == list.contains(other),
        without(list, name).contains(other) == list.contains(other),
{
    let pred = other_than(name);
    if !list.contains(name) {
        assert(list.push(name)[list.len() as int] == name);
    }
    if with(list, name).contains(other) && !list.contains(other) {
        let k = choose|k: int| 0 <= k < with(list, name).len() && with(list, name)[k] == other;
        assert(k < list.len() ==> list[k] == other);
    }
    if without(list, name).contains(name) {
        let k = choose|k: int| 0 <= k < without(list, name).len() && without(list, name)[k] == name;
        list.lemma_filter_pred(pred, k);
    }
    if list.contains(other) {
        let k = choose|k: int| 0 <= k < list.len() && list[k] == other;
        list.lemma_filter_contains(pred, k);
        if !list.contains(name) {
            assert(list.push(name)[k] == other);
        }
    }
    if without(list, name).contains(other) {
        let k = choose|k: int| 0 <= k < without(list, name).len() && without(list, name)[k] == other;
        list.lemma_filter_pred(pred, k);
        list.lemma_filter_contains_rev(pred, other);
    }
}

/// Switching on twice is the same as once; switching off twice is the same as once.
pub proof fn lemma_toggle_idempotent(list: Seq<Seq<char>>, name: Seq<char>)
    ensures
        with(with(list, name), name) == with(list, name),
        without(without(list, name), name) == without(list, name),
{
    assert(name.push('x').len() != name.len());
    lemma_toggle_sets_state(list, name, name.push('x'));
    let pred = other_than(name);
    let w = without(list, name);
    assert forall|i: int| 0 <= i < w.len() implies pred(#[trigger] w[i]) by {
        list.lemma_filter_pred(pred, i);
    }
    lemma_filter_all_kept(w, pred);
}

/// Switching a dictionary on and then off again restores the list it started from, when it
/// was not in the list: turning a domain on then off leaves `domains` as it was, and turning a
/// user dictionary off then on leaves `disabled` as it was.
pub proof fn lemma_toggle_round_trip(list: Seq<Seq<char>>, name: Seq<char>)
    requires
        !list.contains(name),
    ensures
        without(with(list, name), name) == list,
{
    let pred = other_than(name);
    let pushed = list.push(name);
    assert(pushed.drop_last() =~= list);
    assert(pushed.last() == name);
    reveal_with_fuel(Seq::filter, 1);
    assert(pushed.filter(pred) == list.filter(pred));
    assert forall|i: int| 0 <= i < list.len() implies pred(#[trigger] list[i]) by {
        assert(list.contains(list[i]));
    }
    lemma_filter_all_kept(list, pred);
}

/// Filtering a sequence whose entries all pass leaves it unchanged.
proof fn lemma_filter_all_kept(s: Seq<Seq<char>>, pred: spec_fn(Seq<char>) -> bool)
    requires
        forall|i: int| 0 <= i < s.len() ==> pred(#[trigger] s[i]),
    ensures
        s.filter(pred) == s,
    decreases s.len(),
{
    reveal_with_fuel(Seq::filter, 1);
    if s.len() > 0 {
        lemma_filter_all_kept(s.drop_last(), pred);
        assert(s.drop_last().push(s.last()) =~= s);
    } else {
        assert(s.filter(pred) =~= s);
    }
}

} // verus!
