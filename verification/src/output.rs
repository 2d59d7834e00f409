//! The list of buttons a remap produces, held in a `SmallVec` that keeps short lists inline.

use crate::buttons::Button;
use smallvec::SmallVec;
use vstd::prelude::*;

verus! {

/// How many outputs a remap holds before spilling to the heap.
pub const REMAP_SMALLVEC_LEN: usize = 8;

/// The buttons a remap sends, in order.
///
/// The list lives in a `SmallVec`, which keeps up to `REMAP_SMALLVEC_LEN` buttons inline.
/// Verus sees the list only through `output_items` and the methods below.
#[verifier::external_body]
#[derive(Debug, PartialEq, Eq, PartialOrd, Ord, Hash)]
pub struct Output {
    inner: SmallVec<[Button; REMAP_SMALLVEC_LEN]>,
}

/// The buttons held in an output list, in order.
pub uninterp spec fn output_items(output: Output) -> Seq<Button>;

impl Output {
    /// Calls `SmallVec::new`, which makes an empty list.
    #[verifier::external_body]
    pub fn new() -> (output: Output)
        ensures
            output_items(output) == Seq::<Button>::empty(),
    {
        Output { inner: SmallVec::new() }
    }

    /// Calls `SmallVec::len`, the number of items in the list.
    #[verifier::external_body]
    pub fn len(&self) -> (len: usize)
        ensures
            len == output_items(*self).len(),
    {
        self.inner.len()
    }

    /// Reads the item at `index` through `SmallVec::as_slice`.
    #[verifier::external_body]
    pub fn get(&self, index: usize) -> (button: Button)
        requires
            index < output_items(*self).len(),
        ensures
            button == output_items(*self)[index as int],
    {
        self.inner.as_slice()[index]
    }

    /// Calls `SmallVec::push`, which appends an item at the end.
    #[verifier::external_body]
    pub fn push(&mut self, button: Button)
        requires
            output_items(*old(self)).len() < usize::MAX,
        ensures
            output_items(*final(self)) == output_items(*old(self)).push(button),
    {
        self.inner.push(button)
    }

    /// Calls `SmallVec::remove`, which takes out the item at `index` and shifts the rest left.
    #[verifier::external_body]
    pub fn remove(&mut self, index: usize) -> (button: Button)
        requires
            index < output_items(*old(self)).len(),
        ensures
            button == output_items(*old(self))[index as int],
            output_items(*final(self)) == output_items(*old(self)).remove(index as int),
    {
        self.inner.remove(index)
    }

    /// Calls `SmallVec::insert`, which puts an item at `index` and shifts the rest right.
    #[verifier::external_body]
    pub fn insert(&mut self, index: usize, button: Button)
        requires
            index <= output_items(*old(self)).len(),
            output_items(*old(self)).len() < usize::MAX,
        ensures
            output_items(*final(self)) == output_items(*old(self)).insert(index as int, button),
    {
        self.inner.insert(index, button)
    }

    /// Calls `SmallVec::clone`, which copies each item (buttons are plain values).
    #[verifier::external_body]
    pub fn duplicate(&self) -> (copy: Output)
        ensures
            output_items(copy) == output_items(*self),
    {
        Output { inner: self.inner.clone() }
    }

    /// Whether `button` is in the list.
    pub fn contains(&self, button: Button) -> (found: bool)
        ensures
            found == output_items(*self).contains(button),
    {
        let len: usize = self.len();
        let mut i: usize = 0;
        while i < len
            invariant
                len == output_items(*self).len(),
                i <= len,
                forall|j: int| 0 <= j < i ==> output_items(*self)[j] != button,
            decreases len - i,
        {
            if self.get(i) == button {
                return true;
            }
            i = i + 1;
        }
        false
    }
}

impl Clone for Output {
    fn clone(&self) -> (copy: Self)
        ensures
            output_items(copy) == output_items(*self),
    {
        self.duplicate()
    }
}

/// One on/off flag per layer of a profile, held in a `SmallVec` that keeps short lists inline.
#[verifier::external_body]
#[derive(Debug, PartialEq, Eq, PartialOrd, Ord, Hash)]
pub struct LayerFlags {
    inner: SmallVec<[bool; REMAP_SMALLVEC_LEN]>,
}

/// The flags held in a flag list, in order.
pub uninterp spec fn flag_items(flags: LayerFlags) -> Seq<bool>;

impl LayerFlags {
    /// Calls `SmallVec::from_elem`, which makes a list of `len` copies of `false`.
    #[verifier::external_body]
    pub fn all_off(len: usize) -> (flags: LayerFlags)
        ensures
            flag_items(flags) == Seq::new(len as nat, |i: int| false),
    {
        LayerFlags { inner: SmallVec::from_elem(false, len) }
    }

    /// Calls `SmallVec::len`, the number of flags in the list.
    #[verifier::external_body]
    pub fn len(&self) -> (len: usize)
        ensures
            len == flag_items(*self).len(),
    {
        self.inner.len()
    }
}

} // verus!
