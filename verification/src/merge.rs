//! Joining layout lists into one.

use vstd::prelude::*;
use crate::schema::{KeyboardLayout, KeyboardLayouts, LayoutList};

verus! {

/// The layouts of `lists`, one list after the other in the order given.
pub open spec fn joined_layouts(lists: Seq<LayoutList>) -> Seq<KeyboardLayout>
    decreases lists.len(),
{
    if lists.len() == 0 {
        Seq::empty()
    } else {
        joined_layouts(lists.drop_last()) + lists.last()@
    }
}

/// Joins any number of layout lists into one: the layouts of the first list,
/// then those of the second, and so on. Nothing is dropped and nothing is
/// reordered, also where two layouts carry the same name.
pub fn concat_layout_lists(layouts: Vec<LayoutList>) -> (joined: LayoutList)
    ensures
        joined@ == joined_layouts(layouts@),
{
    let ghost lists = layouts@;
    let mut new_layouts: Vec<KeyboardLayout> = Vec::new();
    for layout_list in it: layouts
        invariant
            it.seq() == lists,
            new_layouts@ == joined_layouts(lists.take(it.index() as int)),
    {
        let mut layout_list = layout_list;
        proof {
            let done = it.index() as int;
            assert(lists.take(done + 1).drop_last() == lists.take(done));
        }
        new_layouts.append(&mut layout_list.layout);
    }
    proof {
        assert(lists.take(lists.len() as int) == lists);
    }
    LayoutList { layout: new_layouts }
}

/// The layouts of a catalog merged from `base` and `extras`: those of the
/// base, then those of the extras.
pub open spec fn merged_layouts(base: KeyboardLayouts, extras: KeyboardLayouts) -> Seq<
    KeyboardLayout,
> {
    base@ + extras@
}

/// Extends the base catalog with the extras: the merged catalog holds the
/// layouts of `base`, then those of `extras`. Layouts are not compared with
/// each other: one that both catalogs name is there twice.
pub fn merge_rules(base: KeyboardLayouts, extras: KeyboardLayouts) -> (merged: KeyboardLayouts)
    ensures
        merged@ == merged_layouts(base, extras),
{
    let mut lists: Vec<LayoutList> = Vec::new();
    lists.push(base.layout_list);
    lists.push(extras.layout_list);
    let joined = concat_layout_lists(lists);
    proof {
        assert(lists@ =~= seq![base.layout_list, extras.layout_list]);
        lemma_joined_pair(base.layout_list, extras.layout_list);
    }
    KeyboardLayouts { layout_list: joined }
}

/// A merged catalog has as many layouts as the base and the extras have
/// together. Its first layouts are those of the base, each at the place it
/// had there and unchanged; the layouts of the extras follow in their order.
pub proof fn lemma_merged_keeps_base_in_front(base: KeyboardLayouts, extras: KeyboardLayouts)
    ensures
        merged_layouts(base, extras).len() == base@.len() + extras@.len(),
        merged_layouts(base, extras).take(base@.len() as int) == base@,
        merged_layouts(base, extras).skip(base@.len() as int) == extras@,
        forall|i: int|
            0 <= i < base@.len() ==> #[trigger] merged_layouts(base, extras)[i] == base@[i],
        forall|i: int|
            0 <= i < extras@.len() ==> #[trigger] merged_layouts(base, extras)[base@.len() + i]
                == extras@[i],
{
    let merged = merged_layouts(base, extras);
    assert(merged.take(base@.len() as int) =~= base@);
    assert(merged.skip(base@.len() as int) =~= extras@);
}

/// Two lists joined are the first list's layouts followed by the second's.
pub proof fn lemma_joined_pair(first: LayoutList, second: LayoutList)
    ensures
        joined_layouts(seq![first, second]) == first@ + second@,
{
    let lists = seq![first, second];
    assert(lists.drop_last() =~= seq![first]);
    assert(seq![first].drop_last() =~= Seq::<LayoutList>::empty());
    assert(joined_layouts(Seq::<LayoutList>::empty()) =~= Seq::<KeyboardLayout>::empty());
    assert(joined_layouts(seq![first]) =~= first@);
}

} // verus!
