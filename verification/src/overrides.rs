//! Override selection: callers may withdraw named fragments from a generated
//! group, signaling intent to hand-write them. The requested identifiers are
//! honored in request order, each taking the first still-present fragment of
//! that name; an identifier matching nothing — unknown, or a duplicate whose
//! match was already taken — is a configuration error, and an error leaves no
//! partial output.

use vstd::prelude::*;

use crate::errors::ConfigError;
use crate::ir::EditConfig;
use crate::model::{Fragment, GeneratedModel, LiveDefPlan, MessageUnionDef};

verus! {

/// Index of the first fragment named `n`, or a negative sentinel when none
/// is.
pub open spec fn first_match(frags: Seq<Fragment>, n: Seq<char>) -> int
    decreases frags.len(),
{
    if frags.len() == 0 {
        -1
    } else if frags[0].name@ == n {
        0
    } else {
        let r = first_match(frags.drop_first(), n);
        if r < 0 {
            -1
        } else {
            r + 1
        }
    }
}

/// What `first_match` finds: a match in range, first of its name, or the
/// absence of any match.
pub proof fn lemma_first_match_props(frags: Seq<Fragment>, n: Seq<char>)
    ensures
        first_match(frags, n) >= 0 ==> {
            let j = first_match(frags, n);
            &&& 0 <= j < frags.len()
            &&& frags[j].name@ == n
            &&& forall|k: int| 0 <= k < j ==> (#[trigger] frags[k].name@) != n
        },
        first_match(frags, n) < 0 ==> forall|k: int|
            0 <= k < frags.len() ==> (#[trigger] frags[k].name@) != n,
    decreases frags.len(),
{
    if frags.len() > 0 && frags[0].name@ != n {
        let rest = frags.drop_first();
        lemma_first_match_props(rest, n);
        let r = first_match(rest, n);
        if r >= 0 {
            assert(frags[r + 1] == rest[r]);
            assert forall|k: int| 0 <= k < r + 1 implies (#[trigger] frags[k].name@) != n by {
                if k > 0 {
                    assert(frags[k] == rest[k - 1]);
                }
            }
        } else {
            assert forall|k: int|
                0 <= k < frags.len() implies (#[trigger] frags[k].name@) != n by {
                if k > 0 {
                    assert(frags[k] == rest[k - 1]);
                }
            }
        }
    }
}

/// An index that matches, with nothing matching before it, is the first
/// match.
proof fn lemma_first_match_found(frags: Seq<Fragment>, n: Seq<char>, j: int)
    requires
        0 <= j < frags.len(),
        frags[j].name@ == n,
        forall|k: int| 0 <= k < j ==> (#[trigger] frags[k].name@) != n,
    ensures
        first_match(frags, n) == j,
    decreases j,
{
    if j > 0 {
        let rest = frags.drop_first();
        assert(rest[j - 1] == frags[j]);
        assert forall|k: int| 0 <= k < j - 1 implies (#[trigger] rest[k].name@) != n by {
            assert(rest[k] == frags[k + 1]);
        }
        lemma_first_match_found(rest, n, j - 1);
    }
}

/// Every requested identifier, taken in request order, finds a fragment not
/// already taken by an earlier identifier.
pub open spec fn select_ok(ids: Seq<String>, frags: Seq<Fragment>) -> bool
    decreases ids.len(),
{
    ids.len() == 0 || {
        let j = first_match(frags, ids[0]@);
        j >= 0 && select_ok(ids.drop_first(), frags.remove(j))
    }
}

/// The withdrawn fragments, in request order: for each identifier the first
/// still-present fragment of that name.
pub open spec fn select_withdrawn(ids: Seq<String>, frags: Seq<Fragment>) -> Seq<Fragment>
    decreases ids.len(),
{
    if ids.len() == 0 {
        Seq::<Fragment>::empty()
    } else {
        let j = first_match(frags, ids[0]@);
        if j < 0 {
            Seq::<Fragment>::empty()
        } else {
            seq![frags[j]] + select_withdrawn(ids.drop_first(), frags.remove(j))
        }
    }
}

/// What stays emitted: the fragments no identifier took, keeping their
/// relative order.
pub open spec fn select_kept(ids: Seq<String>, frags: Seq<Fragment>) -> Seq<Fragment>
    decreases ids.len(),
{
    if ids.len() == 0 {
        frags
    } else {
        let j = first_match(frags, ids[0]@);
        if j < 0 {
            frags
        } else {
            select_kept(ids.drop_first(), frags.remove(j))
        }
    }
}

/// The request index of the first identifier that matches nothing still
/// present — an unknown name, or a duplicate whose match was already taken —
/// or a negative sentinel when every identifier matches.
pub open spec fn first_unmatched(ids: Seq<String>, frags: Seq<Fragment>) -> int
    decreases ids.len(),
{
    if ids.len() == 0 {
        -1
    } else {
        let j = first_match(frags, ids[0]@);
        if j < 0 {
            0
        } else {
            let r = first_unmatched(ids.drop_first(), frags.remove(j));
            if r < 0 {
                -1
            } else {
                r + 1
            }
        }
    }
}

/// Processing one more identifier: the selection stays viable exactly when
/// the identifier matches something the earlier ones left, and then it takes
/// that first match out of the kept list and appends it to the withdrawn
/// list.
proof fn lemma_select_push(ids: Seq<String>, id: String, frags: Seq<Fragment>)
    ensures
        select_ok(ids.push(id), frags) == (select_ok(ids, frags) && first_match(
            select_kept(ids, frags),
            id@,
        ) >= 0),
        (select_ok(ids, frags) && first_match(select_kept(ids, frags), id@) >= 0) ==> {
            let pre = select_kept(ids, frags);
            let j = first_match(pre, id@);
            &&& select_kept(ids.push(id), frags) == pre.remove(j)
            &&& select_withdrawn(ids.push(id), frags) == select_withdrawn(ids, frags).push(
                pre[j],
            )
        },
    decreases ids.len(),
{
    reveal_with_fuel(select_ok, 3);
    reveal_with_fuel(select_kept, 3);
    reveal_with_fuel(select_withdrawn, 3);
    if ids.len() == 0 {
        assert(ids.push(id)[0] == id);
        assert(ids.push(id).drop_first() =~= Seq::<String>::empty());
        let j = first_match(frags, id@);
        if j >= 0 {
            assert(seq![frags[j]] + select_withdrawn(Seq::<String>::empty(), frags.remove(j))
                =~= Seq::<Fragment>::empty().push(frags[j]));
        }
    } else {
        assert(ids.push(id)[0] == ids[0]);
        assert(ids.push(id).drop_first() =~= ids.drop_first().push(id));
        let j0 = first_match(frags, ids[0]@);
        if j0 >= 0 {
            lemma_select_push(ids.drop_first(), id, frags.remove(j0));
            let pre = select_kept(ids, frags);
            let j = first_match(pre, id@);
            if select_ok(ids, frags) && j >= 0 {
                assert(seq![frags[j0]] + select_withdrawn(ids.drop_first(), frags.remove(j0)).push(
                    pre[j],
                ) =~= (seq![frags[j0]] + select_withdrawn(ids.drop_first(), frags.remove(j0))).push(
                    pre[j],
                ));
            }
        }
    }
}

/// When the first `i` identifiers match and the `i`-th finds nothing left,
/// the `i`-th is the first unmatched identifier of the whole request.
proof fn lemma_first_unmatched_at(ids: Seq<String>, frags: Seq<Fragment>, i: int)
    requires
        0 <= i < ids.len(),
        select_ok(ids.take(i), frags),
        first_match(select_kept(ids.take(i), frags), ids[i]@) < 0,
    ensures
        first_unmatched(ids, frags) == i,
    decreases i,
{
    reveal_with_fuel(select_ok, 2);
    reveal_with_fuel(select_kept, 2);
    reveal_with_fuel(first_unmatched, 2);
    if i == 0 {
        assert(ids.take(0) =~= Seq::<String>::empty());
    } else {
        assert(ids.take(i)[0] == ids[0]);
        assert(ids.take(i).drop_first() =~= ids.drop_first().take(i - 1));
        let j0 = first_match(frags, ids[0]@);
        assert(ids.drop_first()[i - 1] == ids[i]);
        lemma_first_unmatched_at(ids.drop_first(), frags.remove(j0), i - 1);
    }
}

/// What a selection must produce from `frags`: with no selection everything
/// is emitted; with an empty list everything is withdrawn; otherwise every
/// identifier takes the first remaining fragment of its name, in request
/// order.
pub open spec fn partition_ok(
    selection: Option<Seq<String>>,
    frags: Seq<Fragment>,
    kept: Seq<Fragment>,
    withdrawn: Seq<Fragment>,
) -> bool {
    match selection {
        None => kept == frags && withdrawn =~= Seq::<Fragment>::empty(),
        Some(ids) => if ids.len() == 0 {
            kept =~= Seq::<Fragment>::empty() && withdrawn == frags
        } else {
            &&& select_ok(ids, frags)
            &&& kept == select_kept(ids, frags)
            &&& withdrawn == select_withdrawn(ids, frags)
        },
    }
}

/// The spec-level view of an optional name list.
pub open spec fn selection_view(selection: Option<Vec<String>>) -> Option<Seq<String>> {
    match selection {
        None => None,
        Some(v) => Some(v@),
    }
}

/// Finds the first fragment named `n`, if any.
fn find_first_named(frags: &Vec<Fragment>, n: &String) -> (r: Option<usize>)
    ensures
        match r {
            Some(j) => first_match(frags@, n@) == j as int,
            None => first_match(frags@, n@) < 0,
        },
{
    let mut j: usize = 0;
    while j < frags.len()
        invariant
            0 <= j <= frags@.len(),
            forall|k: int| 0 <= k < j ==> (#[trigger] frags@[k].name@) != n@,
        decreases frags@.len() - j,
    {
        if frags[j].name == *n {
            proof {
                lemma_first_match_found(frags@, n@, j as int);
            }
            return Some(j);
        }
        j += 1;
    }
    proof {
        lemma_first_match_props(frags@, n@);
    }
    None
}

/// One group's fragments, split into what stays emitted and what the caller
/// withdrew for hand-editing.
pub struct Partition {
    pub kept: Vec<Fragment>,
    pub withdrawn: Vec<Fragment>,
}

/// Partitions one group's fragments by identifier match. `None` withdraws
/// nothing; an empty list withdraws the whole group; otherwise the withdrawn
/// list carries, in request order, the first remaining fragment of each
/// requested name. An identifier matching nothing still present — unknown,
/// or a repeat whose match was already taken — is `UnknownOverrideTarget`,
/// naming the first such identifier, and nothing is withdrawn.
pub fn edit_select(selection: &Option<Vec<String>>, frags: Vec<Fragment>) -> (r: Result<
    Partition,
    ConfigError,
>)
    ensures
        match r {
            Ok(p) => partition_ok(selection_view(*selection), frags@, p.kept@, p.withdrawn@),
            Err(e) => {
                &&& e is UnknownOverrideTarget
                &&& *selection is Some
                &&& (selection->0)@.len() > 0
                &&& first_unmatched((selection->0)@, frags@) >= 0
                &&& (e->name)@ == (selection->0)@[first_unmatched((selection->0)@, frags@)]@
            },
        },
{
    if selection.is_none() {
        return Ok(Partition { kept: frags, withdrawn: Vec::new() });
    }
    let names = selection.as_ref().unwrap();
    let ghost ids = names@;
    proof {
        assert(ids == (selection->0)@);
    }
    if names.len() == 0 {
        return Ok(Partition { kept: Vec::new(), withdrawn: frags });
    }
    let ghost orig = frags@;
    let mut remaining = frags;
    let mut withdrawn: Vec<Fragment> = Vec::new();
    let mut failure: Option<String> = None;
    let ghost mut fail_at: int = 0;
    proof {
        assert(ids.take(0) =~= Seq::<String>::empty());
        assert(select_kept(ids.take(0), orig) == orig);
        assert(select_withdrawn(ids.take(0), orig) =~= Seq::<Fragment>::empty());
    }
    let mut i: usize = 0;
    while i < names.len() && failure.is_none()
        invariant
            0 <= i <= ids.len(),
            ids == names@,
            ids.len() > 0,
            failure is None ==> {
                &&& select_ok(ids.take(i as int), orig)
                &&& remaining@ == select_kept(ids.take(i as int), orig)
                &&& withdrawn@ == select_withdrawn(ids.take(i as int), orig)
            },
            failure matches Some(nm) ==> {
                &&& 0 <= fail_at < ids.len()
                &&& select_ok(ids.take(fail_at), orig)
                &&& first_match(select_kept(ids.take(fail_at), orig), ids[fail_at]@) < 0
                &&& nm@ == ids[fail_at]@
            },
        decreases ids.len() - i, (if failure is None { 1int } else { 0int }),
    {
        let wanted = &names[i];
        match find_first_named(&remaining, wanted) {
            Some(j) => {
                proof {
                    lemma_first_match_props(remaining@, wanted@);
                    lemma_select_push(ids.take(i as int), names@[i as int], orig);
                    assert(ids.take(i as int + 1) =~= ids.take(i as int).push(ids[i as int]));
                }
                let f = remaining.remove(j);
                withdrawn.push(f);
                i += 1;
            },
            None => {
                failure = Some(wanted.clone());
                proof {
                    fail_at = i as int;
                }
            },
        }
    }
    if let Some(nm) = failure {
        proof {
            lemma_first_unmatched_at(ids, orig, fail_at);
        }
        return Err(ConfigError::UnknownOverrideTarget { name: nm });
    }
    proof {
        assert(ids.take(ids.len() as int) =~= ids);
    }
    Ok(Partition { kept: remaining, withdrawn })
}

/// The selection addressed to one group has a first unmatched identifier,
/// and it is this name.
pub open spec fn unmatched_in_group(
    name: Seq<char>,
    selection: Option<Vec<String>>,
    frags: Seq<Fragment>,
) -> bool {
    &&& selection is Some
    &&& (selection->0)@.len() > 0
    &&& first_unmatched((selection->0)@, frags) >= 0
    &&& name == (selection->0)@[first_unmatched((selection->0)@, frags)]@
}

/// A whole generated model, partitioned: the two definitions with their
/// withdrawal flags, and each fragment group split into emitted and
/// withdrawn. The emitted side is placed verbatim; the withdrawn side goes
/// to the caller for hand-editing.
pub struct SelectedModel {
    pub script_def: MessageUnionDef,
    pub script_def_withdrawn: bool,
    pub live_def: LiveDefPlan,
    pub live_def_withdrawn: bool,
    pub script_methods: Partition,
    pub script_traits: Partition,
    pub live_methods: Partition,
    pub live_traits: Partition,
}

/// Applies the override selectors to every artifact group of a generated
/// model. The first unmatched identifier — message-type methods first, then
/// its traits, then the proxy's methods and traits — aborts the whole
/// selection: no partial output.
pub fn select_model(m: GeneratedModel, edit: &EditConfig) -> (r: Result<
    SelectedModel,
    ConfigError,
>)
    ensures
        match r {
            Ok(s) => {
                &&& s.script_def == m.script_def
                &&& s.live_def == m.live_def
                &&& s.script_def_withdrawn == edit.script.def
                &&& s.live_def_withdrawn == edit.live.def
                &&& partition_ok(
                    selection_view(edit.script.methods),
                    m.script_methods@,
                    s.script_methods.kept@,
                    s.script_methods.withdrawn@,
                )
                &&& partition_ok(
                    selection_view(edit.script.traits),
                    m.script_traits@,
                    s.script_traits.kept@,
                    s.script_traits.withdrawn@,
                )
                &&& partition_ok(
                    selection_view(edit.live.methods),
                    m.live_methods@,
                    s.live_methods.kept@,
                    s.live_methods.withdrawn@,
                )
                &&& partition_ok(
                    selection_view(edit.live.traits),
                    m.live_traits@,
                    s.live_traits.kept@,
                    s.live_traits.withdrawn@,
                )
            },
            Err(e) => {
                &&& e is UnknownOverrideTarget
                &&& {
                    ||| unmatched_in_group((e->name)@, edit.script.methods, m.script_methods@)
                    ||| unmatched_in_group((e->name)@, edit.script.traits, m.script_traits@)
                    ||| unmatched_in_group((e->name)@, edit.live.methods, m.live_methods@)
                    ||| unmatched_in_group((e->name)@, edit.live.traits, m.live_traits@)
                }
            },
        },
{
    let script_methods = match edit_select(&edit.script.methods, m.script_methods) {
        Ok(p) => p,
        Err(e) => {
            return Err(e);
        },
    };
    let script_traits = match edit_select(&edit.script.traits, m.script_traits) {
        Ok(p) => p,
        Err(e) => {
            return Err(e);
        },
    };
    let live_methods = match edit_select(&edit.live.methods, m.live_methods) {
        Ok(p) => p,
        Err(e) => {
            return Err(e);
        },
    };
    let live_traits = match edit_select(&edit.live.traits, m.live_traits) {
        Ok(p) => p,
        Err(e) => {
            return Err(e);
        },
    };
    Ok(SelectedModel {
        script_def: m.script_def,
        script_def_withdrawn: edit.script.def,
        live_def: m.live_def,
        live_def_withdrawn: edit.live.def,
        script_methods,
        script_traits,
        live_methods,
        live_traits,
    })
}

} // verus!
