//! Whether the configuration being edited differs from the one last applied.
//!
//! The configuration window compares the two on every frame: unsaved changes keep the
//! settings dialog closed and offer Apply and Discard.

use crate::button_map::{lemma_values_at_index, ButtonMap};
use crate::buttons::{lemma_button_from_index_in_range, lemma_button_index_roundtrip, Button, HoldButton, BUTTON_COUNT};
use crate::config::{BaseRemapPolicy, Config, Layer, Profile, ProfileCondition, RemapPolicy};
use crate::output::{output_items, Output};
use vstd::prelude::*;

verus! {

/// Whether two output lists hold the same buttons in the same order.
pub fn same_outputs(a: &Output, b: &Output) -> (same: bool)
    ensures
        same == (output_items(*a) == output_items(*b)),
{
    let len: usize = a.len();
    if len != b.len() {
        return false;
    }
    let mut i: usize = 0;
    while i < len
        invariant
            len == output_items(*a).len(),
            len == output_items(*b).len(),
            i <= len,
            forall|j: int| 0 <= j < i ==> output_items(*a)[j] == output_items(*b)[j],
        decreases len - i,
    {
        if a.get(i) != b.get(i) {
            return false;
        }
        i = i + 1;
    }
    assert(output_items(*a) =~= output_items(*b));
    true
}

/// Whether two base-layer policies do the same.
fn same_base_policy(a: &BaseRemapPolicy, b: &BaseRemapPolicy) -> (same: bool)
    ensures
        same == (a@ == b@),
{
    match (a, b) {
        (BaseRemapPolicy::NoRemap, BaseRemapPolicy::NoRemap) => true,
        (BaseRemapPolicy::Remap(x), BaseRemapPolicy::Remap(y)) => same_outputs(x, y),
        _ => false,
    }
}

/// Whether two layer policies do the same.
fn same_policy(a: &RemapPolicy, b: &RemapPolicy) -> (same: bool)
    ensures
        same == (a@ == b@),
{
    match (a, b) {
        (RemapPolicy::Defer, RemapPolicy::Defer) => true,
        (RemapPolicy::NoRemap, RemapPolicy::NoRemap) => true,
        (RemapPolicy::Remap(x), RemapPolicy::Remap(y)) => same_outputs(x, y),
        _ => false,
    }
}

/// Whether two base layers do the same with every button.
fn same_base_policies(a: &ButtonMap<BaseRemapPolicy>, b: &ButtonMap<BaseRemapPolicy>) -> (same: bool)
    ensures
        same == (a@ == b@),
{
    let av = a.values();
    let bv = b.values();
    let mut i: usize = 0;
    while i < BUTTON_COUNT
        invariant
            av@ == a.spec_values(),
            bv@ == b.spec_values(),
            av@.len() == BUTTON_COUNT,
            bv@.len() == BUTTON_COUNT,
            i <= BUTTON_COUNT,
            forall|j: int| 0 <= j < i ==> (#[trigger] av@[j])@ == bv@[j]@,
        decreases BUTTON_COUNT - i,
    {
        if !same_base_policy(&av[i], &bv[i]) {
            proof {
                lemma_button_from_index_in_range(i);
                let button = Button::spec_from_index(i).unwrap();
                lemma_values_at_index(*a, button);
                lemma_values_at_index(*b, button);
                assert(a@[button] != b@[button]);
            }
            return false;
        }
        i = i + 1;
    }
    proof {
        assert forall|button: Button| #[trigger] a@[button] == b@[button] by {
            lemma_button_index_roundtrip(button);
            lemma_values_at_index(*a, button);
            lemma_values_at_index(*b, button);
            assert(av@[button.spec_index() as int]@ == bv@[button.spec_index() as int]@);
        }
        assert(a@ =~= b@);
    }
    true
}

/// Whether two layers do the same with every button.
fn same_policies(a: &ButtonMap<RemapPolicy>, b: &ButtonMap<RemapPolicy>) -> (same: bool)
    ensures
        same == (a@ == b@),
{
    let av = a.values();
    let bv = b.values();
    let mut i: usize = 0;
    while i < BUTTON_COUNT
        invariant
            av@ == a.spec_values(),
            bv@ == b.spec_values(),
            av@.len() == BUTTON_COUNT,
            bv@.len() == BUTTON_COUNT,
            i <= BUTTON_COUNT,
            forall|j: int| 0 <= j < i ==> (#[trigger] av@[j])@ == bv@[j]@,
        decreases BUTTON_COUNT - i,
    {
        if !same_policy(&av[i], &bv[i]) {
            proof {
                lemma_button_from_index_in_range(i);
                let button = Button::spec_from_index(i).unwrap();
                lemma_values_at_index(*a, button);
                lemma_values_at_index(*b, button);
                assert(a@[button] != b@[button]);
            }
            return false;
        }
        i = i + 1;
    }
    proof {
        assert forall|button: Button| #[trigger] a@[button] == b@[button] by {
            lemma_button_index_roundtrip(button);
            lemma_values_at_index(*a, button);
            lemma_values_at_index(*b, button);
            assert(av@[button.spec_index() as int]@ == bv@[button.spec_index() as int]@);
        }
        assert(a@ =~= b@);
    }
    true
}

/// Whether two profile conditions are the same.
fn same_condition(a: &ProfileCondition, b: &ProfileCondition) -> (same: bool)
    ensures
        same == (a@ == b@),
{
    match (a, b) {
        (ProfileCondition::Always, ProfileCondition::Always) => true,
        (
            ProfileCondition::TitleAndProcess { title: t1, process: p1 },
            ProfileCondition::TitleAndProcess { title: t2, process: p2 },
        ) => *t1 == *t2 && *p1 == *p2,
        (ProfileCondition::Title { title: t1 }, ProfileCondition::Title { title: t2 }) => *t1 == *t2,
        (ProfileCondition::Process { process: p1 }, ProfileCondition::Process { process: p2 }) =>
            *p1 == *p2,
        (ProfileCondition::OriBF, ProfileCondition::OriBF) => true,
        (ProfileCondition::OriBFDE, ProfileCondition::OriBFDE) => true,
        (ProfileCondition::OriWotW, ProfileCondition::OriWotW) => true,
        _ => false,
    }
}

/// Whether two layer conditions list the same buttons in the same order.
fn same_hold_buttons(a: &Vec<HoldButton>, b: &Vec<HoldButton>) -> (same: bool)
    ensures
        same == (a@ == b@),
{
    if a.len() != b.len() {
        return false;
    }
    let mut i: usize = 0;
    while i < a.len()
        invariant
            a@.len() == b@.len(),
            i <= a@.len(),
            forall|j: int| 0 <= j < i ==> a@[j] == b@[j],
        decreases a@.len() - i,
    {
        if a[i] != b[i] {
            return false;
        }
        i = i + 1;
    }
    assert(a@ =~= b@);
    true
}

/// Whether two layers are the same.
fn same_layer(a: &Layer, b: &Layer) -> (same: bool)
    ensures
        same == (a@ == b@),
{
    a.name == b.name && a.enabled == b.enabled && a.layer_type == b.layer_type
        && same_hold_buttons(&a.condition, &b.condition) && same_policies(&a.policy, &b.policy)
}

/// Whether two lists of layers are the same.
fn same_layers(a: &Vec<Layer>, b: &Vec<Layer>) -> (same: bool)
    ensures
        same == (a@.map_values(|l: Layer| l@) == b@.map_values(|l: Layer| l@)),
{
    if a.len() != b.len() {
        assert(a@.map_values(|l: Layer| l@).len() != b@.map_values(|l: Layer| l@).len());
        return false;
    }
    let mut i: usize = 0;
    while i < a.len()
        invariant
            a@.len() == b@.len(),
            i <= a@.len(),
            forall|j: int| 0 <= j < i ==> (#[trigger] a@[j])@ == b@[j]@,
        decreases a@.len() - i,
    {
        if !same_layer(&a[i], &b[i]) {
            assert(a@.map_values(|l: Layer| l@)[i as int] != b@.map_values(|l: Layer| l@)[i as int]);
            return false;
        }
        i = i + 1;
    }
    assert(a@.map_values(|l: Layer| l@) =~= b@.map_values(|l: Layer| l@));
    true
}

/// Whether two profiles are the same.
fn same_profile(a: &Profile, b: &Profile) -> (same: bool)
    ensures
        same == (a@ == b@),
{
    a.name == b.name && a.enabled == b.enabled && a.clip_cursor == b.clip_cursor
        && same_condition(&a.condition, &b.condition) && same_base_policies(
        &a.base.policy,
        &b.base.policy,
    ) && same_layers(&a.layers, &b.layers)
}

/// Whether the edited configuration differs from the applied one.
pub fn has_unsaved_changes(applied: &Config, edited: &Config) -> (changed: bool)
    ensures
        changed == (applied@ != edited@),
{
    if applied.show_rare_keys != edited.show_rare_keys {
        return true;
    }
    let a = &applied.profiles;
    let b = &edited.profiles;
    if a.len() != b.len() {
        assert(applied@.profiles.len() != edited@.profiles.len());
        return true;
    }
    let mut i: usize = 0;
    while i < a.len()
        invariant
            a == applied.profiles,
            b == edited.profiles,
            a@.len() == b@.len(),
            i <= a@.len(),
            forall|j: int| 0 <= j < i ==> (#[trigger] a@[j])@ == b@[j]@,
        decreases a@.len() - i,
    {
        if !same_profile(&a[i], &b[i]) {
            assert(applied@.profiles[i as int] != edited@.profiles[i as int]);
            return true;
        }
        i = i + 1;
    }
    assert(applied@.profiles =~= edited@.profiles);
    false
}

} // verus!
