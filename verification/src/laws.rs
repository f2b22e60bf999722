//! What holds of every plan.

use vstd::prelude::*;
use crate::activate::{
    activate_options, exe_dir, exe_dir_fragment, full_plan, maybe, prepend_fragment,
    removal_fragment, shims_plan, wants_prepend, Activate, ContextView, ExecutableView,
    STORE_PREFIX,
};
use crate::path_set::{elsewhere, holds_canonical, joined, without_canonical, EntryView};
use crate::paths::{path_same, path_same_is_equivalence, path_starts_with};
use crate::shell::{installs_hook, FragmentView};
use crate::shims::corrected;

verus! {

/// Taking a directory out leaves no entry that resolves to it.
pub proof fn without_leaves_none(path: Seq<EntryView>, canonical: Seq<char>)
    ensures
        !holds_canonical(without_canonical(path, canonical), canonical),
{
    let rest = without_canonical(path, canonical);
    assert forall|i: int| 0 <= i < rest.len() implies !path_same(
        (#[trigger] rest[i]).canonical,
        canonical,
    ) by {
        path.lemma_filter_pred(elsewhere(canonical), i);
    }
}

/// Taking a directory out leaves every other directory on the search path,
/// and brings none onto it, given that equality of paths is an equivalence.
pub proof fn without_keeps_others(path: Seq<EntryView>, canonical: Seq<char>, other: Seq<char>)
    requires
        path_same_is_equivalence(),
        !path_same(other, canonical),
    ensures
        holds_canonical(without_canonical(path, canonical), other) == holds_canonical(path, other),
{
    let keep = elsewhere(canonical);
    let rest = without_canonical(path, canonical);
    if holds_canonical(rest, other) {
        let i = choose|i: int|
            0 <= i < rest.len() && path_same((#[trigger] rest[i]).canonical, other);
        assert(rest.contains(rest[i]));
        path.lemma_filter_contains_rev(keep, rest[i]);
        let j = choose|j: int| 0 <= j < path.len() && path[j] == rest[i];
        assert(path_same(path[j].canonical, other));
    }
    if holds_canonical(path, other) {
        let j = choose|j: int|
            0 <= j < path.len() && path_same((#[trigger] path[j]).canonical, other);
        if path_same(path[j].canonical, canonical) {
            assert(path_same(other, path[j].canonical));
            assert(path_same(other, canonical));
        }
        path.lemma_filter_contains(keep, j);
        let i = choose|i: int| 0 <= i < rest.len() && rest[i] == path[j];
        assert(path_same(rest[i].canonical, other));
    }
}

/// Taking a directory out goes entry by entry, so what stays keeps the order
/// it had: a path in two parts is the two parts done one after the other, and
/// a single entry stays unless it resolves to the directory.
pub proof fn without_goes_entry_by_entry(
    path: Seq<EntryView>,
    more: Seq<EntryView>,
    entry: EntryView,
    canonical: Seq<char>,
)
    ensures
        without_canonical(path + more, canonical) == without_canonical(path, canonical)
            + without_canonical(more, canonical),
        without_canonical(seq![entry], canonical) == if path_same(entry.canonical, canonical) {
            Seq::<EntryView>::empty()
        } else {
            seq![entry]
        },
        without_canonical(Seq::empty(), canonical) == Seq::<EntryView>::empty(),
{
    let keep = elsewhere(canonical);
    let none = Seq::<EntryView>::empty();
    Seq::filter_distributes_over_add(path, more, keep);
    assert(none.filter(keep) =~= none) by {
        none.lemma_filter_len(keep);
    }
    none.lemma_filter_push(entry, keep);
    assert(none.push(entry) =~= seq![entry]);
}

/// Taking out a directory that the search path does not hold changes nothing.
pub proof fn without_keeps_what_is_elsewhere(path: Seq<EntryView>, canonical: Seq<char>)
    requires
        !holds_canonical(path, canonical),
    ensures
        without_canonical(path, canonical) == path,
    decreases path.len(),
{
    let keep = elsewhere(canonical);
    if path.len() == 0 {
        path.lemma_filter_len(keep);
        assert(path.filter(keep) =~= path);
    } else {
        let front = path.drop_last();
        assert forall|i: int| 0 <= i < front.len() implies !path_same(
            (#[trigger] front[i]).canonical,
            canonical,
        ) by {
            assert(!path_same(path[i].canonical, canonical));
        }
        without_keeps_what_is_elsewhere(front, canonical);
        assert(!path_same(path.last().canonical, canonical));
        front.lemma_filter_push(path.last(), keep);
        assert(front.push(path.last()) =~= path);
    }
}

/// A search path that holds the shims directory between other directories,
/// once or many times, under its own name or under another that resolves to
/// it, is corrected to those other directories in the order they had.
pub proof fn shims_leave_and_the_rest_stays(
    a: EntryView,
    b: EntryView,
    c: EntryView,
    between: Seq<EntryView>,
    shims: EntryView,
    separator: Seq<char>,
)
    requires
        !path_same(a.canonical, shims.canonical),
        !path_same(b.canonical, shims.canonical),
        !path_same(c.canonical, shims.canonical),
        between.len() > 0,
        forall|i: int|
            0 <= i < between.len() ==> path_same(
                (#[trigger] between[i]).canonical,
                shims.canonical,
            ),
    ensures
        corrected(seq![a, b] + between + seq![c], shims, separator) == Some(
            a.raw + separator + b.raw + separator + c.raw,
        ),
{
    let path = seq![a, b] + between + seq![c];
    let keep = elsewhere(shims.canonical);
    assert(path[2] == between[0]);
    without_goes_entry_by_entry(seq![a, b] + between, seq![c], c, shims.canonical);
    without_goes_entry_by_entry(seq![a, b], between, b, shims.canonical);
    without_goes_entry_by_entry(seq![a], seq![b], a, shims.canonical);
    assert(seq![a] + seq![b] =~= seq![a, b]);
    assert(between.filter(keep).len() == 0) by {
        assert(between.all(|e: EntryView| !keep(e)));
        between.lemma_all_neg_filter_empty(keep);
    }
    let rest = without_canonical(path, shims.canonical);
    assert(rest =~= seq![a, b, c]);
    assert(joined(rest, separator) == a.raw + separator + b.raw + separator + c.raw) by {
        assert(rest.drop_last() =~= seq![a, b]);
        assert(seq![a, b].drop_last() =~= seq![a]);
        reveal_with_fuel(joined, 3);
    }
}

/// Two names that resolve to one place are one directory: the search path
/// holds both or neither, and once the path holds one, the other is not put
/// in front of it, given that equality of paths is an equivalence.
pub proof fn aliases_are_one_directory(ctx: ContextView, dir: EntryView, alias: EntryView)
    requires
        path_same_is_equivalence(),
        path_same(dir.canonical, alias.canonical),
    ensures
        holds_canonical(ctx.path, dir.canonical) == holds_canonical(ctx.path, alias.canonical),
        holds_canonical(ctx.path, dir.canonical) ==> prepend_fragment(ctx, alias) is None,
        prepend_fragment(ContextView { path: seq![dir] + ctx.path, ..ctx }, alias) is None,
{
    let path = seq![dir] + ctx.path;
    assert(path_same(path[0].canonical, alias.canonical));
    assert(path_same(alias.canonical, dir.canonical));
    if holds_canonical(ctx.path, dir.canonical) {
        let i = choose|i: int|
            0 <= i < ctx.path.len() && path_same((#[trigger] ctx.path[i]).canonical, dir.canonical);
        assert(path_same(ctx.path[i].canonical, alias.canonical));
    }
    if holds_canonical(ctx.path, alias.canonical) {
        let i = choose|i: int|
            0 <= i < ctx.path.len() && path_same(
                (#[trigger] ctx.path[i]).canonical,
                alias.canonical,
            );
        assert(path_same(ctx.path[i].canonical, dir.canonical));
    }
}

/// A directory that resolves to a place below the package store is never put
/// in front of the search path, whatever the path holds.
pub proof fn store_is_never_prepended(ctx: ContextView, exe: ExecutableView, dir: EntryView)
    requires
        path_starts_with(dir.canonical, STORE_PREFIX@),
    ensures
        prepend_fragment(ctx, dir) is None,
        exe_dir(exe) == Some(dir) ==> exe_dir_fragment(ctx, exe) is None,
{
}

/// How many of `fragments` make the shell call the tool back.
pub open spec fn hooks(fragments: Seq<FragmentView>) -> nat
    decreases fragments.len(),
{
    if fragments.len() == 0 {
        0
    } else {
        hooks(fragments.drop_last()) + if installs_hook(fragments.last()) {
            1nat
        } else {
            0nat
        }
    }
}

/// A plan for shims only never asks for the activating script. A plan for
/// full activation asks for it once, as its last request, and that request
/// installs the hook unless the hook was declined: one hook, or none. What
/// stands before it, the prepend among it, is the same either way.
pub proof fn modes_exclude_each_other(args: Activate, ctx: ContextView, exe: ExecutableView)
    ensures
        full_plan(args, ctx, exe).drop_last() == maybe(removal_fragment(ctx)) + maybe(
            exe_dir_fragment(ctx, exe),
        ),
        forall|i: int|
            0 <= i < shims_plan(ctx, exe).len() ==> !((#[trigger] shims_plan(ctx, exe)[i]) is Activate),
        hooks(shims_plan(ctx, exe)) == 0,
        full_plan(args, ctx, exe).last() == (FragmentView::Activate {
            options: activate_options(args, exe),
        }),
        forall|i: int|
            0 <= i < full_plan(args, ctx, exe).len() - 1 ==> !((#[trigger] full_plan(
                args,
                ctx,
                exe,
            )[i]) is Activate),
        hooks(full_plan(args, ctx, exe)) == if args.no_hook_env {
            0nat
        } else {
            1nat
        },
{
    let shims = shims_plan(ctx, exe);
    let full = full_plan(args, ctx, exe);
    let first = maybe(removal_fragment(ctx)) + maybe(exe_dir_fragment(ctx, exe));
    assert(full.drop_last() =~= first);
    hooks_of_none(shims);
    hooks_of_none(first);
}

/// Requests other than for the activating script install no hook.
proof fn hooks_of_none(fragments: Seq<FragmentView>)
    requires
        forall|i: int| 0 <= i < fragments.len() ==> !((#[trigger] fragments[i]) is Activate),
    ensures
        hooks(fragments) == 0,
    decreases fragments.len(),
{
    if fragments.len() > 0 {
        hooks_of_none(fragments.drop_last());
    }
}

/// The search path that a shell holds once it has evaluated the script of a
/// full activation: the shims directory has left it, and the executable's
/// directory stands in front where the plan asked for that.
pub open spec fn path_after_full(ctx: ContextView, exe: ExecutableView) -> Seq<EntryView> {
    let rest = if removal_fragment(ctx) is Some {
        without_canonical(ctx.path, ctx.shims.canonical)
    } else {
        ctx.path
    };
    if exe_dir_fragment(ctx, exe) is Some {
        seq![exe_dir(exe)->0] + rest
    } else {
        rest
    }
}

/// Full activation planned again, in the environment that the first script
/// leaves: a shims directory that was taken out is not taken out a second
/// time, and a directory that was put in front is not put there a second
/// time, given that equality of paths is an equivalence.
pub proof fn second_activation_repeats_nothing(ctx: ContextView, exe: ExecutableView)
    requires
        path_same_is_equivalence(),
    ensures
        removal_fragment(ctx) is Some ==> removal_fragment(
            ContextView { path: path_after_full(ctx, exe), ..ctx },
        ) is None,
        exe_dir_fragment(ctx, exe) is Some ==> exe_dir_fragment(
            ContextView { path: path_after_full(ctx, exe), ..ctx },
            exe,
        ) is None,
{
    let shims = ctx.shims.canonical;
    let rest = without_canonical(ctx.path, shims);
    let after = path_after_full(ctx, exe);
    without_leaves_none(ctx.path, shims);
    if exe_dir_fragment(ctx, exe) is Some {
        let dir = exe_dir(exe)->0;
        assert(after[0] == dir);
        assert(path_same(after[0].canonical, dir.canonical));
        if removal_fragment(ctx) is Some && holds_canonical(after, shims) {
            let i = choose|i: int|
                0 <= i < after.len() && path_same((#[trigger] after[i]).canonical, shims);
            if i > 0 {
                assert(path_same(rest[i - 1].canonical, shims));
            } else {
                let j = choose|j: int|
                    0 <= j < ctx.path.len() && path_same((#[trigger] ctx.path[j]).canonical, shims);
                assert(path_same(shims, dir.canonical));
                assert(path_same(ctx.path[j].canonical, dir.canonical));
            }
        }
    }
}

/// Full activation planned again, in the environment that the first script
/// leaves, asks for the activating script and nothing else, provided the
/// executable's directory is not the shims directory itself, and given that
/// equality of paths is an equivalence.
pub proof fn second_activation_only_activates(
    args: Activate,
    ctx: ContextView,
    exe: ExecutableView,
)
    requires
        path_same_is_equivalence(),
        exe_dir(exe) matches Some(dir) ==> !path_same(dir.canonical, ctx.shims.canonical),
    ensures
        full_plan(args, ContextView { path: path_after_full(ctx, exe), ..ctx }, exe) == seq![
            FragmentView::Activate { options: activate_options(args, exe) },
        ],
{
    let shims = ctx.shims.canonical;
    let before = if removal_fragment(ctx) is Some {
        without_canonical(ctx.path, shims)
    } else {
        ctx.path
    };
    let next = ContextView { path: path_after_full(ctx, exe), ..ctx };
    without_leaves_none(ctx.path, shims);
    assert(!holds_canonical(before, shims));
    if exe_dir(exe) is Some {
        let dir = exe_dir(exe)->0;
        without_keeps_others(ctx.path, shims, dir.canonical);
        if wants_prepend(ctx.path, dir) {
            assert(next.path[0] == dir);
            assert(path_same(next.path[0].canonical, dir.canonical));
            if holds_canonical(next.path, shims) {
                let i = choose|i: int|
                    0 <= i < next.path.len() && path_same(
                        (#[trigger] next.path[i]).canonical,
                        shims,
                    );
                assert(path_same(before[i - 1].canonical, shims));
            }
        }
    }
    assert(full_plan(args, next, exe) =~= seq![
        FragmentView::Activate { options: activate_options(args, exe) },
    ]);
}

} // verus!
