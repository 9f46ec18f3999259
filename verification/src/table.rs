use vstd::prelude::*;

use crate::context::overlay;

verus! {

/// The value held under `key` in a list of entries; when a key occurs more
/// than once the last entry holds it, as when the entries are set in turn.
pub open spec fn lookup<V>(entries: Seq<(String, V)>, key: Seq<char>) -> Option<V>
    decreases entries.len(),
{
    if entries.len() == 0 {
        None
    } else if entries.last().0@ == key {
        Some(entries.last().1)
    } else {
        lookup(entries.drop_last(), key)
    }
}

/// No key occurs twice among `entries`.
pub open spec fn keys_unique<V>(entries: Seq<(String, V)>) -> bool {
    forall|i: int, j: int|
        0 <= i < entries.len() && 0 <= j < entries.len() && i != j ==> entries[i].0@
            != entries[j].0@
}

/// `merged` holds every key of `base` and of `top`, with the value from
/// `top` where `top` has the key.
pub open spec fn is_merge<V>(base: Seq<(String, V)>, top: Seq<(String, V)>, merged: Seq<(String, V)>) -> bool {
    forall|key: Seq<char>| #[trigger]
        lookup(merged, key) == overlay(lookup(base, key), lookup(top, key))
}

proof fn lemma_lookup_update_last<V>(
    entries: Seq<(String, V)>,
    j: int,
    entry: (String, V),
    key: Seq<char>,
)
    requires
        0 <= j < entries.len(),
        entries[j].0@ == entry.0@,
        forall|i: int| j < i < entries.len() ==> entries[i].0@ != entry.0@,
    ensures
        lookup(entries.update(j, entry), key) == (if key == entry.0@ {
            Some(entry.1)
        } else {
            lookup(entries, key)
        }),
    decreases entries.len(),
{
    let updated = entries.update(j, entry);
    if j == entries.len() - 1 {
        assert(updated.drop_last() =~= entries.drop_last());
    } else {
        let init = entries.drop_last();
        assert(updated.drop_last() =~= init.update(j, entry));
        assert forall|i: int| j < i < init.len() implies init[i].0@ != entry.0@ by {
            assert(init[i] == entries[i]);
        }
        lemma_lookup_update_last(init, j, entry, key);
        assert(updated.last() == entries.last());
    }
}

proof fn lemma_update_keeps_keys_unique<V>(entries: Seq<(String, V)>, j: int, entry: (String, V))
    requires
        keys_unique(entries),
        0 <= j < entries.len(),
        entries[j].0@ == entry.0@,
    ensures
        keys_unique(entries.update(j, entry)),
{
}

/// Where `key` last stands among `entries`.
fn last_position<V>(entries: &Vec<(String, V)>, key: &String) -> (r: Option<usize>)
    ensures
        match r {
            Some(j) => j < entries@.len() && entries@[j as int].0@ == key@ && forall|i: int|
                j < i < entries@.len() ==> entries@[i].0@ != key@,
            None => forall|i: int| 0 <= i < entries@.len() ==> entries@[i].0@ != key@,
        },
{
    let mut i: usize = entries.len();
    while i > 0
        invariant
            i <= entries@.len(),
            forall|m: int| i <= m < entries@.len() ==> entries@[m].0@ != key@,
        decreases i,
    {
        if entries[i - 1].0 == *key {
            return Some(i - 1);
        }
        i = i - 1;
    }
    None
}

/// The table `base` with every entry of `top` set into it in turn: keys of
/// `top` take `top`'s value, other keys keep the value they had.
pub fn merge_tables<V>(base: Vec<(String, V)>, top: Vec<(String, V)>) -> (out: Vec<(String, V)>)
    ensures
        keys_unique(base@) ==> keys_unique(out@),
        is_merge(base@, top@, out@),
{
    let ghost tops = top@;
    let ghost bases = base@;
    let total = top.len();
    let mut out = base;
    let mut rest = top;
    let mut n: usize = 0;
    while rest.len() > 0
        invariant
            total == tops.len(),
            n <= tops.len(),
            rest@ == tops.skip(n as int),
            keys_unique(bases) ==> keys_unique(out@),
            forall|key: Seq<char>| #[trigger]
                lookup(out@, key) == overlay(lookup(bases, key), lookup(tops.take(n as int), key)),
        decreases rest@.len(),
    {
        let ghost before = out@;
        let entry = rest.remove(0);
        assert(entry == tops[n as int]);
        assert(tops.take(n + 1).drop_last() =~= tops.take(n as int));
        let ghost key_view = entry.0@;
        match last_position(&out, &entry.0) {
            Some(j) => {
                proof {
                    assert forall|key: Seq<char>| #[trigger]
                        lookup(before.update(j as int, entry), key) == overlay(
                            lookup(bases, key),
                            lookup(tops.take(n + 1), key),
                        ) by {
                        lemma_lookup_update_last(before, j as int, entry, key);
                    }
                    if keys_unique(bases) {
                        lemma_update_keeps_keys_unique(before, j as int, entry);
                    }
                }
                out.set(j, entry);
            },
            None => {
                proof {
                    let pushed = before.push(entry);
                    assert(pushed.drop_last() =~= before);
                    assert(keys_unique(before) ==> keys_unique(pushed)) by {
                      if keys_unique(before) {
                        assert forall|i: int, k: int|
                            0 <= i < pushed.len() && 0 <= k < pushed.len() && i != k implies pushed[i].0@
                            != pushed[k].0@ by {
                            if i < before.len() && k < before.len() {
                                assert(pushed[i] == before[i] && pushed[k] == before[k]);
                            } else if i < before.len() {
                                assert(pushed[i] == before[i]);
                            } else if k < before.len() {
                                assert(pushed[k] == before[k]);
                            }
                        }
                      }
                    }
                    assert forall|key: Seq<char>| #[trigger]
                        lookup(pushed, key) == overlay(
                            lookup(bases, key),
                            lookup(tops.take(n + 1), key),
                        ) by {
                        if key != key_view {
                            assert(lookup(pushed, key) == lookup(before, key));
                        }
                    }
                }
                out.push(entry);
            },
        }
        n = n + 1;
        assert(rest@ =~= tops.skip(n as int));
    }
    assert(tops.take(n as int) =~= tops);
    out
}

/// Setting two tables into the defaults one after the other gives the same
/// values as setting their merge at once.
pub proof fn lemma_merge_associative<V>(
    defaults: Seq<(String, V)>,
    first: Seq<(String, V)>,
    second: Seq<(String, V)>,
    step: Seq<(String, V)>,
    stepwise: Seq<(String, V)>,
    combined: Seq<(String, V)>,
    at_once: Seq<(String, V)>,
)
    requires
        is_merge(defaults, first, step),
        is_merge(step, second, stepwise),
        is_merge(first, second, combined),
        is_merge(defaults, combined, at_once),
    ensures
        forall|key: Seq<char>| #[trigger] lookup(stepwise, key) == lookup(at_once, key),
{
    assert forall|key: Seq<char>| #[trigger] lookup(stepwise, key) == lookup(at_once, key) by {
        assert(lookup(stepwise, key) == overlay(lookup(step, key), lookup(second, key)));
        assert(lookup(step, key) == overlay(lookup(defaults, key), lookup(first, key)));
        assert(lookup(combined, key) == overlay(lookup(first, key), lookup(second, key)));
        assert(lookup(at_once, key) == overlay(lookup(defaults, key), lookup(combined, key)));
    }
}

/// Merging an empty table changes no value.
pub proof fn lemma_merge_empty_top<V>(base: Seq<(String, V)>, merged: Seq<(String, V)>)
    requires
        is_merge(base, Seq::empty(), merged),
    ensures
        forall|key: Seq<char>| #[trigger] lookup(merged, key) == lookup(base, key),
{
    assert forall|key: Seq<char>| #[trigger] lookup(merged, key) == lookup(base, key) by {
        assert(lookup(merged, key) == overlay(lookup(base, key), lookup(Seq::<(String, V)>::empty(), key)));
    }
}

} // verus!
