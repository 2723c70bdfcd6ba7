use vstd::prelude::*;

use crate::config::{Preset, RuntimeParams};

verus! {

/// What the preset operations act on: the presets, the defaults they can be
/// restored to, the chosen preset, and the sampling parameters in use.
pub struct PresetState<F> {
    pub presets: Seq<Preset<F>>,
    pub snapshot: Seq<Preset<F>>,
    pub selected: Option<usize>,
    pub params: RuntimeParams<F>,
}

/// `p` with other sampling parameters.
pub open spec fn with_params<F>(p: Preset<F>, params: RuntimeParams<F>) -> Preset<F> {
    Preset { name: p.name, description: p.description, runtime_params: params }
}

/// Choosing preset `i`: its parameters come into use and it becomes the
/// chosen one. An index past the end changes nothing.
pub open spec fn choose_preset<F>(s: PresetState<F>, i: usize) -> PresetState<F> {
    if i < s.presets.len() {
        PresetState { params: s.presets[i as int].runtime_params, selected: Some(i), ..s }
    } else {
        s
    }
}

/// Overwriting the chosen preset with the parameters in use.
pub open spec fn overwrite_preset<F>(s: PresetState<F>) -> PresetState<F> {
    match s.selected {
        Some(i) => if i < s.presets.len() {
            PresetState {
                presets: s.presets.update(i as int, with_params(s.presets[i as int], s.params)),
                ..s
            }
        } else {
            s
        },
        None => s,
    }
}

/// The position of the first preset in `presets` named `name`, if any.
pub open spec fn find_named<F>(presets: Seq<Preset<F>>, name: Seq<char>) -> Option<int>
    decreases presets.len(),
{
    if presets.len() == 0 {
        None
    } else {
        match find_named(presets.drop_last(), name) {
            Some(j) => Some(j),
            None => if presets.last().name@ == name {
                Some(presets.len() - 1)
            } else {
                None
            },
        }
    }
}

/// The default of the chosen preset: the first default preset with its
/// name. A preset the user added has none.
pub open spec fn default_of<F>(s: PresetState<F>) -> Option<int> {
    match s.selected {
        Some(i) => if i < s.presets.len() {
            find_named(s.snapshot, s.presets[i as int].name@)
        } else {
            None
        },
        None => None,
    }
}

/// A name found at position `j`, and at no earlier one, is what
/// `find_named` finds.
pub proof fn lemma_find_named_prefix<F>(presets: Seq<Preset<F>>, name: Seq<char>, j: int)
    requires
        0 <= j < presets.len(),
        presets[j].name@ == name,
        find_named(presets.take(j), name) is None,
    ensures
        find_named(presets, name) == Some(j),
    decreases presets.len(),
{
    if j < presets.len() - 1 {
        assert(presets.drop_last().take(j) =~= presets.take(j));
        lemma_find_named_prefix(presets.drop_last(), name, j);
    } else {
        assert(presets.drop_last() =~= presets.take(j));
    }
}

/// Restoring the chosen preset to its default: the parameters of the
/// default preset with the same name replace those of the preset and those
/// in use. Without such a default nothing changes.
pub open spec fn restore_preset<F>(s: PresetState<F>) -> PresetState<F> {
    match default_of(s) {
        Some(j) => {
            let i = s.selected->0;
            let d = s.snapshot[j].runtime_params;
            PresetState {
                presets: s.presets.update(i as int, with_params(s.presets[i as int], d)),
                params: d,
                ..s
            }
        },
        None => s,
    }
}

/// What `find_named` finds is in range and has the name looked for, and
/// nothing before it has.
pub proof fn lemma_find_named<F>(presets: Seq<Preset<F>>, name: Seq<char>)
    ensures
        match find_named(presets, name) {
            Some(j) => 0 <= j < presets.len() && presets[j].name@ == name && forall|k: int|
                0 <= k < j ==> presets[k].name@ != name,
            None => forall|k: int| 0 <= k < presets.len() ==> presets[k].name@ != name,
        },
    decreases presets.len(),
{
    if presets.len() > 0 {
        let d = presets.drop_last();
        lemma_find_named(d, name);
        assert forall|k: int| 0 <= k < d.len() implies presets[k] == d[k] by {}
    }
}

/// The chosen index after preset `i` is deleted: cleared if it was `i`,
/// moved down if it came after.
pub open spec fn index_after_delete(selected: Option<usize>, i: usize) -> Option<usize> {
    match selected {
        Some(c) => if c == i {
            None
        } else if c > i {
            Some((c - 1) as usize)
        } else {
            Some(c)
        },
        None => None,
    }
}

/// Deleting preset `i`; the last preset is never deleted.
pub open spec fn delete_preset<F>(s: PresetState<F>, i: usize) -> PresetState<F> {
    if s.presets.len() <= 1 {
        s
    } else {
        PresetState {
            presets: s.presets.remove(i as int),
            selected: index_after_delete(s.selected, i),
            ..s
        }
    }
}

/// Adding the parameters in use as a new preset at the end.
pub open spec fn add_preset<F>(s: PresetState<F>, name: String, description: String) -> PresetState<
    F,
> {
    PresetState {
        presets: s.presets.push(Preset { name, description, runtime_params: s.params }),
        ..s
    }
}

/// Overwriting the preset just chosen changes no preset.
pub proof fn lemma_overwrite_after_choose<F>(s: PresetState<F>, i: usize)
    requires
        i < s.presets.len(),
    ensures
        overwrite_preset(choose_preset(s, i)).presets == s.presets,
{
    let p = s.presets[i as int];
    assert(with_params(p, p.runtime_params) == p);
    assert(s.presets.update(i as int, p) =~= s.presets);
}

/// Choosing a preset after overwriting it brings back the parameters that
/// were written into it.
pub proof fn lemma_choose_after_overwrite<F>(s: PresetState<F>)
    requires
        s.selected matches Some(i) && i < s.presets.len(),
    ensures
        choose_preset(overwrite_preset(s), s.selected->0).params == s.params,
        choose_preset(overwrite_preset(s), s.selected->0).presets.len() == s.presets.len(),
{
}

/// Restoring a preset puts the parameters of the default preset with its
/// name both in the preset and in use; the other presets, the names and the
/// defaults stay as they were.
pub proof fn lemma_restore_gives_defaults<F>(s: PresetState<F>)
    requires
        default_of(s) is Some,
    ensures
        ({
            let i = s.selected->0 as int;
            let d = s.snapshot[default_of(s)->0];
            &&& d.name@ == s.presets[i].name@
            &&& restore_preset(s).params == d.runtime_params
            &&& restore_preset(s).presets[i].runtime_params == d.runtime_params
            &&& restore_preset(s).presets[i].name == s.presets[i].name
            &&& restore_preset(s).presets.len() == s.presets.len()
            &&& forall|k: int|
                0 <= k < s.presets.len() && k != i ==> restore_preset(s).presets[k]
                    == s.presets[k]
            &&& restore_preset(s).snapshot == s.snapshot
        }),
{
    lemma_find_named(s.snapshot, s.presets[s.selected->0 as int].name@);
}

/// A preset without a default, such as one the user added, is left alone.
pub proof fn lemma_restore_without_default<F>(s: PresetState<F>)
    requires
        s.selected matches Some(i) && i < s.presets.len(),
        forall|k: int|
            0 <= k < s.snapshot.len() ==> s.snapshot[k].name@ != s.presets[s.selected->0 as int].name@,
    ensures
        restore_preset(s) == s,
{
    lemma_find_named(s.snapshot, s.presets[s.selected->0 as int].name@);
}

/// Restoring undoes overwriting: a built-in preset overwritten with other
/// parameters and then restored holds its default parameters again.
pub proof fn lemma_restore_undoes_overwrite<F>(s: PresetState<F>)
    requires
        default_of(s) is Some,
    ensures
        restore_preset(overwrite_preset(s)).presets[s.selected->0 as int].runtime_params
            == s.snapshot[default_of(s)->0].runtime_params,
        restore_preset(overwrite_preset(s)).params == s.snapshot[default_of(s)->0].runtime_params,
{
    let i = s.selected->0 as int;
    let o = overwrite_preset(s);
    assert(o.presets[i].name == s.presets[i].name);
    assert(default_of(o) == default_of(s));
    lemma_find_named(s.snapshot, s.presets[i].name@);
}

/// Deleting never leaves the list of presets empty.
pub proof fn lemma_delete_keeps_a_preset<F>(s: PresetState<F>, i: usize)
    requires
        s.presets.len() >= 1,
        s.presets.len() <= 1 || i < s.presets.len(),
    ensures
        delete_preset(s, i).presets.len() >= 1,
{
}

/// Deleting another preset keeps the chosen one chosen.
pub proof fn lemma_delete_keeps_choice<F>(s: PresetState<F>, i: usize)
    requires
        s.presets.len() > 1,
        i < s.presets.len(),
        s.selected matches Some(c) && c < s.presets.len() && c != i,
    ensures
        delete_preset(s, i).selected matches Some(c2) && c2 < delete_preset(s, i).presets.len()
            && delete_preset(s, i).presets[c2 as int] == s.presets[s.selected->0 as int],
{
}

/// Choosing a preset just added brings back the parameters it was made of.
pub proof fn lemma_choose_added<F>(s: PresetState<F>, name: String, description: String)
    requires
        s.presets.len() < usize::MAX,
    ensures
        choose_preset(add_preset(s, name, description), s.presets.len() as usize).params
            == s.params,
{
}

} // verus!
