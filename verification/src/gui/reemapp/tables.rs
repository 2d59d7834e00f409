//! Edits that the list tables make: reordering, deleting, adding and copying entries.

use crate::buttons::{Button, HoldButton};
use crate::config::{Layer, LayerView, Profile, ProfileView};
use crate::output::{output_items, Output};
use vstd::prelude::*;

verus! {

/// A list the tables can edit: a `Vec`, or the output list of a remap.
pub trait TableList<T>: Sized {
    /// The entries, in order.
    spec fn spec_items(&self) -> Seq<T>;

    /// The number of entries.
    fn len(&self) -> (len: usize)
        ensures
            len == self.spec_items().len(),
    ;

    /// Takes out the entry at `index`; the later entries move one place forward.
    fn remove(&mut self, index: usize) -> (item: T)
        requires
            index < old(self).spec_items().len(),
        ensures
            item == old(self).spec_items()[index as int],
            final(self).spec_items() == old(self).spec_items().remove(index as int),
    ;

    /// Appends an entry.
    fn push(&mut self, value: T)
        requires
            old(self).spec_items().len() < usize::MAX,
        ensures
            final(self).spec_items() == old(self).spec_items().push(value),
    ;

    /// Puts an entry at `index`; the entries from `index` on move one place back.
    fn insert(&mut self, index: usize, value: T)
        requires
            index <= old(self).spec_items().len(),
            old(self).spec_items().len() < usize::MAX,
        ensures
            final(self).spec_items() == old(self).spec_items().insert(index as int, value),
    ;
}

impl<T> TableList<T> for Vec<T> {
    open spec fn spec_items(&self) -> Seq<T> {
        self@
    }

    fn len(&self) -> (len: usize) {
        self.len()
    }

    fn remove(&mut self, index: usize) -> (item: T) {
        self.remove(index)
    }

    fn push(&mut self, value: T) {
        self.push(value)
    }

    fn insert(&mut self, index: usize, value: T) {
        self.insert(index, value)
    }
}

impl TableList<Button> for Output {
    open spec fn spec_items(&self) -> Seq<Button> {
        output_items(*self)
    }

    fn len(&self) -> (len: usize) {
        Output::len(self)
    }

    fn remove(&mut self, index: usize) -> (item: Button) {
        Output::remove(self, index)
    }

    fn push(&mut self, value: Button) {
        Output::push(self, value)
    }

    fn insert(&mut self, index: usize, value: Button) {
        Output::insert(self, index, value)
    }
}

/// `items` with the entries at `a` and `b` exchanged.
pub open spec fn swapped<T>(items: Seq<T>, a: int, b: int) -> Seq<T> {
    items.update(a, items[b]).update(b, items[a])
}

/// Exchanges the entries at `a` and `b`.
pub fn swap_items<T, L: TableList<T>>(list: &mut L, a: usize, b: usize)
    requires
        a < old(list).spec_items().len(),
        b < old(list).spec_items().len(),
    ensures
        final(list).spec_items() == swapped(old(list).spec_items(), a as int, b as int),
{
    if a == b {
        assert(swapped(list.spec_items(), a as int, b as int) =~= list.spec_items());
        return;
    }
    let ghost items = list.spec_items();
    // The length is a `usize`, so putting the two entries back cannot exceed it.
    let _len: usize = list.len();
    let (lo, hi): (usize, usize) = if a < b {
        (a, b)
    } else {
        (b, a)
    };
    let high = list.remove(hi);
    let low = list.remove(lo);
    list.insert(lo, high);
    list.insert(hi, low);
    assert(list.spec_items() =~= swapped(items, a as int, b as int));
}

/// What a rearrange table does with one frame's clicks: first the exchange that an arrow
/// asked for, then the deletion that the cross asked for.
pub open spec fn spec_rearranged<T>(
    items: Seq<T>,
    to_swap: Option<(usize, usize)>,
    to_delete: Option<usize>,
) -> Seq<T> {
    let after_swap = match to_swap {
        Some((a, b)) => swapped(items, a as int, b as int),
        None => items,
    };
    match to_delete {
        Some(i) => after_swap.remove(i as int),
        None => after_swap,
    }
}

/// Applies one frame's clicks of a rearrange table.
pub fn rearrange<T, L: TableList<T>>(
    list: &mut L,
    to_swap: Option<(usize, usize)>,
    to_delete: Option<usize>,
)
    requires
        to_swap matches Some((a, b)) ==> a < old(list).spec_items().len() && b < old(
            list,
        ).spec_items().len(),
        to_delete matches Some(i) ==> i < old(list).spec_items().len(),
    ensures
        final(list).spec_items() == spec_rearranged(old(list).spec_items(), to_swap, to_delete),
{
    if let Some((a, b)) = to_swap {
        swap_items(list, a, b);
    }
    if let Some(i) = to_delete {
        list.remove(i);
    }
}

/// Moving an entry up and then back down leaves the list as it was.
pub proof fn lemma_swap_twice<T>(items: Seq<T>, a: int, b: int)
    requires
        0 <= a < items.len(),
        0 <= b < items.len(),
    ensures
        swapped(swapped(items, a, b), a, b) == items,
{
    assert(swapped(swapped(items, a, b), a, b) =~= items);
}

/// Rearranging keeps every entry: an exchange only permutes the list.
pub proof fn lemma_swap_keeps_entries<T>(items: Seq<T>, a: int, b: int)
    requires
        0 <= a < items.len(),
        0 <= b < items.len(),
    ensures
        swapped(items, a, b).to_multiset() == items.to_multiset(),
{
    broadcast use {
        vstd::multiset::group_multiset_properties,
        vstd::multiset::group_multiset_axioms,
    };

    let once = items.update(a, items[b]);
    vstd::seq_lib::to_multiset_update(items, a, items[b]);
    vstd::seq_lib::to_multiset_update(once, b, items[a]);
    assert(once[b] == items[b]);
    vstd::seq_lib::to_multiset_contains(items, items[a]);
    vstd::seq_lib::to_multiset_contains(items, items[b]);
    assert(swapped(items, a, b).to_multiset() =~= items.to_multiset());
}

/// Adds `button` to the outputs unless it is already there.
pub fn push_unique_output(outputs: &mut Output, button: Button)
    requires
        output_items(*old(outputs)).len() < usize::MAX,
    ensures
        output_items(*final(outputs)) == if output_items(*old(outputs)).contains(button) {
            output_items(*old(outputs))
        } else {
            output_items(*old(outputs)).push(button)
        },
{
    if !outputs.contains(button) {
        outputs.push(button);
    }
}

/// Adds `button` to a layer's condition unless it is already there.
pub fn push_unique_hold_button(condition: &mut Vec<HoldButton>, button: HoldButton)
    ensures
        final(condition)@ == if old(condition)@.contains(button) {
            old(condition)@
        } else {
            old(condition)@.push(button)
        },
{
    let mut i: usize = 0;
    while i < condition.len()
        invariant
            i <= condition@.len(),
            condition@ == old(condition)@,
            forall|j: int| 0 <= j < i ==> condition@[j] != button,
        decreases condition@.len() - i,
    {
        if condition[i] == button {
            return;
        }
        i = i + 1;
    }
    condition.push(button);
}

/// Adding buttons one at a time never makes a list with a repeated button.
pub proof fn lemma_push_unique_keeps_distinct<T>(items: Seq<T>, item: T)
    requires
        items.no_duplicates(),
    ensures
        (if items.contains(item) {
            items
        } else {
            items.push(item)
        }).no_duplicates(),
{
}

/// An entry that can be duplicated under a name that marks it as a copy.
pub trait CopyListItem: Sized {
    /// `copy` is `original` with " (copy)" added to its name.
    spec fn spec_is_renamed_copy(original: Self, copy: Self) -> bool;

    /// A copy of this entry whose name marks it as a copy.
    fn clone_new_name(&self) -> (copy: Self)
        ensures
            Self::spec_is_renamed_copy(*self, copy),
    ;
}

impl CopyListItem for Profile {
    open spec fn spec_is_renamed_copy(original: Profile, copy: Profile) -> bool {
        copy@ == (ProfileView { name: original.name@ + " (copy)"@, ..original@ })
    }

    fn clone_new_name(&self) -> (copy: Profile) {
        Profile::clone_new_name(self)
    }
}

impl CopyListItem for Layer {
    open spec fn spec_is_renamed_copy(original: Layer, copy: Layer) -> bool {
        copy@ == (LayerView { name: original.name@ + " (copy)"@, ..original@ })
    }

    fn clone_new_name(&self) -> (copy: Layer) {
        Layer::clone_new_name(self)
    }
}

/// An entry with a checkbox that enables it.
pub trait EnableListItem: Sized {
    /// Whether the entry is enabled.
    spec fn spec_enabled(&self) -> bool;

    /// The entry with its enabled flag set to `enabled` and nothing else changed.
    spec fn spec_with_enabled(&self, enabled: bool) -> Self;

    /// The enabled flag, for the checkbox to change.
    fn enable_mut(&mut self) -> (enabled: &mut bool)
        ensures
            *enabled == old(self).spec_enabled(),
            *final(self) == old(self).spec_with_enabled(*final(enabled)),
    ;
}

impl EnableListItem for Profile {
    open spec fn spec_enabled(&self) -> bool {
        self.enabled
    }

    open spec fn spec_with_enabled(&self, enabled: bool) -> Profile {
        Profile { enabled, ..*self }
    }

    fn enable_mut(&mut self) -> (enabled: &mut bool) {
        &mut self.enabled
    }
}

impl EnableListItem for Layer {
    open spec fn spec_enabled(&self) -> bool {
        self.enabled
    }

    open spec fn spec_with_enabled(&self, enabled: bool) -> Layer {
        Layer { enabled, ..*self }
    }

    fn enable_mut(&mut self) -> (enabled: &mut bool) {
        &mut self.enabled
    }
}

/// Copies the entry at `index` and puts the copy right after it.
pub fn copy_item_after<T: CopyListItem>(list: &mut Vec<T>, index: usize)
    requires
        index < old(list)@.len(),
    ensures
        final(list)@.len() == old(list)@.len() + 1,
        forall|j: int| 0 <= j <= index ==> #[trigger] final(list)@[j] == old(list)@[j],
        T::spec_is_renamed_copy(old(list)@[index as int], final(list)@[index + 1]),
        forall|j: int|
            index + 1 < j < final(list)@.len() ==> #[trigger] final(list)@[j] == old(list)@[j - 1],
{
    // The length is a `usize` above `index`, so `index + 1` does not overflow.
    let _len: usize = list.len();
    let copy = list[index].clone_new_name();
    list.insert(index + 1, copy);
}

} // verus!
