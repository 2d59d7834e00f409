//! Which buttons the remap tables and the button pickers list, given the search box.

use crate::buttons::key::{KeyButton, KEY_BUTTON_COUNT};
use crate::buttons::mouse::MouseButton;
use crate::buttons::wheel::MouseWheelButton;
use crate::buttons::{Button, HoldButton};
use crate::config::{BaseLayer, BaseRemapPolicyView, Layer, RemapPolicyView};
use crate::gui::reemapp::RemapsSearchOpts;
use crate::gui::search::{lemma_match_anywhere, lowercase, name_matches, name_matches_term, prepare_search, search_term};
use crate::output::{output_items, Output};
use crate::seq_filter::{filtered, lemma_filtered_keeps, lemma_filtered_step};
use vstd::prelude::*;

verus! {

/// The order in which the tables list buttons: mouse buttons, wheel directions, then keys.
pub open spec fn spec_table_order() -> Seq<Button> {
    seq![
        Button::Mouse(MouseButton::Left),
        Button::Mouse(MouseButton::Middle),
        Button::Mouse(MouseButton::Right),
        Button::Mouse(MouseButton::X1),
        Button::Mouse(MouseButton::X2),
        Button::Wheel(MouseWheelButton::Up),
        Button::Wheel(MouseWheelButton::Down),
        Button::Wheel(MouseWheelButton::HorzRight),
        Button::Wheel(MouseWheelButton::HorzLeft),
    ] + Seq::new(KEY_BUTTON_COUNT as nat, |i: int| Button::Key(KeyButton::spec_from_index(i as usize).unwrap()))
}

/// The order in which the condition picker lists hold buttons: mouse buttons, then keys.
pub open spec fn spec_hold_table_order() -> Seq<HoldButton> {
    seq![
        HoldButton::Mouse(MouseButton::Left),
        HoldButton::Mouse(MouseButton::Middle),
        HoldButton::Mouse(MouseButton::Right),
        HoldButton::Mouse(MouseButton::X1),
        HoldButton::Mouse(MouseButton::X2),
    ] + Seq::new(KEY_BUTTON_COUNT as nat, |i: int| HoldButton::Key(KeyButton::spec_from_index(i as usize).unwrap()))
}

/// Every button, in the order the tables list them.
pub fn table_order() -> (buttons: Vec<Button>)
    ensures
        buttons@ == spec_table_order(),
{
    let mut buttons: Vec<Button> = Vec::new();
    let mice = MouseButton::all();
    let mut i: usize = 0;
    while i < mice.len()
        invariant
            i <= mice@.len(),
            mice@ == seq![MouseButton::Left, MouseButton::Middle, MouseButton::Right, MouseButton::X1, MouseButton::X2],
            buttons@ == mice@.take(i as int).map_values(|m: MouseButton| Button::Mouse(m)),
        decreases mice@.len() - i,
    {
        buttons.push(Button::Mouse(mice[i]));
        proof {
            assert(mice@.take(i + 1) =~= mice@.take(i as int).push(mice@[i as int]));
            assert(buttons@ =~= mice@.take(i + 1).map_values(|m: MouseButton| Button::Mouse(m)));
        }
        i = i + 1;
    }
    let wheels = MouseWheelButton::all();
    let mut i: usize = 0;
    let ghost start = buttons@;
    while i < wheels.len()
        invariant
            i <= wheels@.len(),
            wheels@ == seq![MouseWheelButton::Up, MouseWheelButton::Down, MouseWheelButton::HorzRight, MouseWheelButton::HorzLeft],
            buttons@ == start + wheels@.take(i as int).map_values(|w: MouseWheelButton| Button::Wheel(w)),
        decreases wheels@.len() - i,
    {
        buttons.push(Button::Wheel(wheels[i]));
        proof {
            assert(wheels@.take(i + 1) =~= wheels@.take(i as int).push(wheels@[i as int]));
            assert(buttons@ =~= start + wheels@.take(i + 1).map_values(|w: MouseWheelButton| Button::Wheel(w)));
        }
        i = i + 1;
    }
    let keys = KeyButton::all();
    let mut i: usize = 0;
    let ghost start = buttons@;
    while i < keys.len()
        invariant
            i <= keys@.len(),
            keys@.len() == KEY_BUTTON_COUNT,
            forall|j: usize| j < KEY_BUTTON_COUNT ==> KeyButton::spec_from_index(j) == Some(#[trigger] keys@[j as int]),
            buttons@.len() == start.len() + i,
            forall|j: int| 0 <= j < start.len() ==> buttons@[j] == start[j],
            forall|j: int| 0 <= j < i ==> #[trigger] buttons@[start.len() + j] == Button::Key(keys@[j]),
        decreases keys@.len() - i,
    {
        buttons.push(Button::Key(keys[i]));
        i = i + 1;
    }
    proof {
        let spec = spec_table_order();
        assert(start.len() == 9);
        assert forall|j: int| 0 <= j < 61 implies #[trigger] buttons@[j] == spec[j] by {
            if j >= 9 {
                let k = j - 9;
                assert(buttons@[start.len() + k] == Button::Key(keys@[k]));
                assert(KeyButton::spec_from_index(k as usize) == Some(keys@[k]));
            } else {
                assert(buttons@[j] == start[j]);
            }
        }
        assert(buttons@ =~= spec_table_order());
    }
    buttons
}

/// Every hold button, in the order the condition picker lists them.
pub fn hold_table_order() -> (buttons: Vec<HoldButton>)
    ensures
        buttons@ == spec_hold_table_order(),
{
    let mut buttons: Vec<HoldButton> = Vec::new();
    buttons.push(HoldButton::Mouse(MouseButton::Left));
    buttons.push(HoldButton::Mouse(MouseButton::Middle));
    buttons.push(HoldButton::Mouse(MouseButton::Right));
    buttons.push(HoldButton::Mouse(MouseButton::X1));
    buttons.push(HoldButton::Mouse(MouseButton::X2));
    let keys = KeyButton::all();
    let mut i: usize = 0;
    while i < keys.len()
        invariant
            i <= keys@.len(),
            keys@.len() == KEY_BUTTON_COUNT,
            forall|j: usize| j < KEY_BUTTON_COUNT ==> KeyButton::spec_from_index(j) == Some(#[trigger] keys@[j as int]),
            buttons@.len() == 5 + i,
            buttons@.take(5) == seq![
                HoldButton::Mouse(MouseButton::Left),
                HoldButton::Mouse(MouseButton::Middle),
                HoldButton::Mouse(MouseButton::Right),
                HoldButton::Mouse(MouseButton::X1),
                HoldButton::Mouse(MouseButton::X2),
            ],
            forall|j: int| 0 <= j < i ==> #[trigger] buttons@[5 + j] == HoldButton::Key(keys@[j]),
        decreases keys@.len() - i,
    {
        let ghost before = buttons@;
        buttons.push(HoldButton::Key(keys[i]));
        proof {
            assert(buttons@.take(5) =~= before.take(5));
        }
        i = i + 1;
    }
    proof {
        let spec = spec_hold_table_order();
        assert forall|j: int| 0 <= j < 57 implies #[trigger] buttons@[j] == spec[j] by {
            if j >= 5 {
                let k = j - 5;
                assert(buttons@[5 + k] == HoldButton::Key(keys@[k]));
                assert(KeyButton::spec_from_index(k as usize) == Some(keys@[k]));
            } else {
                assert(buttons@[j] == buttons@.take(5)[j]);
            }
        }
        assert(buttons@ =~= spec_hold_table_order());
    }
    buttons
}

/// Whether one of `outputs` has a name that matches the search term.
pub open spec fn some_output_matches(outputs: Seq<Button>, term: Seq<char>) -> bool {
    exists|i: int| 0 <= i < outputs.len() && name_matches(#[trigger] outputs[i].spec_name(), term)
}

/// Whether one of `outputs` has a name that matches the prepared search `term`.
pub fn any_output_matches(outputs: &Output, term: &str) -> (found: bool)
    ensures
        found == some_output_matches(output_items(*outputs), term@),
{
    let len: usize = outputs.len();
    let mut i: usize = 0;
    while i < len
        invariant
            len == output_items(*outputs).len(),
            i <= len,
            forall|j: int| 0 <= j < i ==> !name_matches(#[trigger] output_items(*outputs)[j].spec_name(), term@),
        decreases len - i,
    {
        let output = outputs.get(i);
        if name_matches_term(output.name(), term) {
            return true;
        }
        i = i + 1;
    }
    false
}

/// Whether the base layer's table lists `button`: its name, or the name of one of its
/// outputs, matches the search; and it is remapped, unless unmapped buttons are shown.
pub open spec fn spec_base_row_visible(
    policy: BaseRemapPolicyView,
    button: Button,
    term: Seq<char>,
    hide_unmapped: bool,
) -> bool {
    &&& (name_matches(button.spec_name(), term) || match policy {
        BaseRemapPolicyView::Remap(outputs) => some_output_matches(outputs, term),
        BaseRemapPolicyView::NoRemap => false,
    })
    &&& (!hide_unmapped || !(policy is NoRemap))
}

/// Whether a layer's table lists `button`: its name, or the name of one of its outputs,
/// matches the search; and it does something, unless deferred buttons are shown.
pub open spec fn spec_layer_row_visible(
    policy: RemapPolicyView,
    button: Button,
    term: Seq<char>,
    hide_deferred: bool,
) -> bool {
    &&& (name_matches(button.spec_name(), term) || match policy {
        RemapPolicyView::Remap(outputs) => some_output_matches(outputs, term),
        _ => false,
    })
    &&& (!hide_deferred || !(policy is Defer))
}

/// The buttons the base layer's table lists, in table order.
pub fn visible_base_remaps(layer: &BaseLayer, opts: &RemapsSearchOpts) -> (buttons: Vec<Button>)
    ensures
        buttons@ == filtered(
            spec_table_order(),
            |b: Button|
                spec_base_row_visible(
                    layer.policy@[b],
                    b,
                    search_term(opts.search_string@),
                    opts.hide_unmapped,
                ),
        ),
{
    let ghost keep = |b: Button|
        spec_base_row_visible(
            layer.policy@[b],
            b,
            search_term(opts.search_string@),
            opts.hide_unmapped,
        );
    let term = prepare_search(opts.search_string.as_str());
    let order = table_order();
    let mut buttons: Vec<Button> = Vec::new();
    let mut i: usize = 0;
    while i < order.len()
        invariant
            i <= order@.len(),
            order@ == spec_table_order(),
            term@ == search_term(opts.search_string@),
            keep == |b: Button|
        spec_base_row_visible(
            layer.policy@[b],
            b,
            search_term(opts.search_string@),
            opts.hide_unmapped,
        ),
            buttons@ == filtered(order@.take(i as int), keep),
        decreases order@.len() - i,
    {
        let button = order[i];
        let policy = layer.policy.get(button);
        let matches_search = name_matches_term(button.name(), term.as_str()) || match policy {
            crate::config::BaseRemapPolicy::Remap(outputs) => any_output_matches(outputs, term.as_str()),
            crate::config::BaseRemapPolicy::NoRemap => false,
        };
        let shown_by_filter = !opts.hide_unmapped || match policy {
            crate::config::BaseRemapPolicy::NoRemap => false,
            crate::config::BaseRemapPolicy::Remap(_) => true,
        };
        proof {
            lemma_filtered_step(order@, keep, i as int);
            assert(layer.policy@[button] == policy@);
        }
        if matches_search && shown_by_filter {
            buttons.push(button);
        }
        i = i + 1;
    }
    proof {
        assert(order@.take(order@.len() as int) =~= order@);
    }
    buttons
}

/// The buttons a layer's table lists, in table order.
pub fn visible_layer_remaps(layer: &Layer, opts: &RemapsSearchOpts) -> (buttons: Vec<Button>)
    ensures
        buttons@ == filtered(
            spec_table_order(),
            |b: Button|
                spec_layer_row_visible(
                    layer.policy@[b],
                    b,
                    search_term(opts.search_string@),
                    opts.hide_unmapped,
                ),
        ),
{
    let ghost keep = |b: Button|
        spec_layer_row_visible(
            layer.policy@[b],
            b,
            search_term(opts.search_string@),
            opts.hide_unmapped,
        );
    let term = prepare_search(opts.search_string.as_str());
    let order = table_order();
    let mut buttons: Vec<Button> = Vec::new();
    let mut i: usize = 0;
    while i < order.len()
        invariant
            i <= order@.len(),
            order@ == spec_table_order(),
            term@ == search_term(opts.search_string@),
            keep == |b: Button|
        spec_layer_row_visible(
            layer.policy@[b],
            b,
            search_term(opts.search_string@),
            opts.hide_unmapped,
        ),
            buttons@ == filtered(order@.take(i as int), keep),
        decreases order@.len() - i,
    {
        let button = order[i];
        let policy = layer.policy.get(button);
        let matches_search = name_matches_term(button.name(), term.as_str()) || match policy {
            crate::config::RemapPolicy::Remap(outputs) => any_output_matches(outputs, term.as_str()),
            _ => false,
        };
        let shown_by_filter = !opts.hide_unmapped || match policy {
            crate::config::RemapPolicy::Defer => false,
            _ => true,
        };
        proof {
            lemma_filtered_step(order@, keep, i as int);
            assert(layer.policy@[button] == policy@);
        }
        if matches_search && shown_by_filter {
            buttons.push(button);
        }
        i = i + 1;
    }
    proof {
        assert(order@.take(order@.len() as int) =~= order@);
    }
    buttons
}

/// The buttons the output picker lists for a search, in table order.
pub fn available_buttons(search: &str) -> (buttons: Vec<Button>)
    ensures
        buttons@ == filtered(spec_table_order(), |b: Button| name_matches(b.spec_name(), search_term(search@))),
{
    let ghost keep = |b: Button| name_matches(b.spec_name(), search_term(search@));
    let term = prepare_search(search);
    let order = table_order();
    let mut buttons: Vec<Button> = Vec::new();
    let mut i: usize = 0;
    while i < order.len()
        invariant
            i <= order@.len(),
            order@ == spec_table_order(),
            term@ == search_term(search@),
            keep == |b: Button| name_matches(b.spec_name(), search_term(search@)),
            buttons@ == filtered(order@.take(i as int), keep),
        decreases order@.len() - i,
    {
        let button = order[i];
        proof {
            lemma_filtered_step(order@, keep, i as int);
        }
        if name_matches_term(button.name(), term.as_str()) {
            buttons.push(button);
        }
        i = i + 1;
    }
    proof {
        assert(order@.take(order@.len() as int) =~= order@);
    }
    buttons
}

/// The hold buttons the condition picker lists for a search, in table order.
pub fn available_hold_buttons(search: &str) -> (buttons: Vec<HoldButton>)
    ensures
        buttons@ == filtered(spec_hold_table_order(), |b: HoldButton| name_matches(b.spec_name(), search_term(search@))),
{
    let ghost keep = |b: HoldButton| name_matches(b.spec_name(), search_term(search@));
    let term = prepare_search(search);
    let order = hold_table_order();
    let mut buttons: Vec<HoldButton> = Vec::new();
    let mut i: usize = 0;
    while i < order.len()
        invariant
            i <= order@.len(),
            order@ == spec_hold_table_order(),
            term@ == search_term(search@),
            keep == |b: HoldButton| name_matches(b.spec_name(), search_term(search@)),
            buttons@ == filtered(order@.take(i as int), keep),
        decreases order@.len() - i,
    {
        let button = order[i];
        proof {
            lemma_filtered_step(order@, keep, i as int);
        }
        if name_matches_term(button.name(), term.as_str()) {
            buttons.push(button);
        }
        i = i + 1;
    }
    proof {
        assert(order@.take(order@.len() as int) =~= order@);
    }
    buttons
}

/// An empty search lists every button.
pub proof fn lemma_empty_search_lists_all(items: Seq<Button>, term: Seq<char>)
    requires
        term.len() == 0,
    ensures
        filtered(items, |b: Button| name_matches(b.spec_name(), term)) == items,
    decreases items.len(),
{
    if items.len() > 0 {
        lemma_empty_search_lists_all(items.drop_last(), term);
        assert(items.drop_last().push(items.last()) =~= items);
    }
}

/// The tables list every button when nothing filters it out.
pub proof fn lemma_table_order_has_every_button(button: Button)
    ensures
        spec_table_order().contains(button),
{
    let order = spec_table_order();
    match button {
        Button::Mouse(m) => {
            let i: int = m.spec_index() as int;
            crate::buttons::mouse::lemma_index_roundtrip(m);
            assert(order[i] == button);
        },
        Button::Wheel(w) => {
            let i: int = 5 + w.spec_index();
            crate::buttons::wheel::lemma_index_roundtrip(w);
            assert(order[i] == button);
        },
        Button::Key(k) => {
            let i: int = 9 + k.spec_index();
            crate::buttons::key::lemma_index_roundtrip(k);
            assert(order[i] == button);
        },
    }
}

/// A layer's table finds a remapped button through the name of one of its outputs, whatever
/// the button's own name: with the search "scroll up", a key remapped to Scroll Up is listed.
/// The hide-deferred switch never hides it, since a remap is not deferred.
pub proof fn lemma_layer_row_found_by_output(
    layer: Layer,
    opts: RemapsSearchOpts,
    button: Button,
    outputs: Seq<Button>,
    j: int,
    at: int,
)
    requires
        layer.policy@[button] == RemapPolicyView::Remap(outputs),
        0 <= j < outputs.len(),
        0 <= at,
        at + search_term(opts.search_string@).len() <= lowercase(outputs[j].spec_name()).len(),
        lowercase(outputs[j].spec_name()).subrange(
            at,
            at + search_term(opts.search_string@).len(),
        ) == search_term(opts.search_string@),
    ensures
        filtered(
            spec_table_order(),
            |b: Button|
                spec_layer_row_visible(
                    layer.policy@[b],
                    b,
                    search_term(opts.search_string@),
                    opts.hide_unmapped,
                ),
        ).contains(button),
{
    let term = search_term(opts.search_string@);
    lemma_match_anywhere(outputs[j].spec_name(), term, at);
    let keep = |b: Button|
        spec_layer_row_visible(layer.policy@[b], b, term, opts.hide_unmapped);
    assert(keep(button));
    lemma_table_order_has_every_button(button);
    lemma_filtered_keeps(spec_table_order(), keep, button);
}

/// The base layer's table finds a remapped button through the name of one of its outputs,
/// whatever the button's own name; the hide-unmapped switch never hides a remap.
pub proof fn lemma_base_row_found_by_output(
    layer: BaseLayer,
    opts: RemapsSearchOpts,
    button: Button,
    outputs: Seq<Button>,
    j: int,
    at: int,
)
    requires
        layer.policy@[button] == BaseRemapPolicyView::Remap(outputs),
        0 <= j < outputs.len(),
        0 <= at,
        at + search_term(opts.search_string@).len() <= lowercase(outputs[j].spec_name()).len(),
        lowercase(outputs[j].spec_name()).subrange(
            at,
            at + search_term(opts.search_string@).len(),
        ) == search_term(opts.search_string@),
    ensures
        filtered(
            spec_table_order(),
            |b: Button|
                spec_base_row_visible(
                    layer.policy@[b],
                    b,
                    search_term(opts.search_string@),
                    opts.hide_unmapped,
                ),
        ).contains(button),
{
    let term = search_term(opts.search_string@);
    lemma_match_anywhere(outputs[j].spec_name(), term, at);
    let keep = |b: Button|
        spec_base_row_visible(layer.policy@[b], b, term, opts.hide_unmapped);
    assert(keep(button));
    lemma_table_order_has_every_button(button);
    lemma_filtered_keeps(spec_table_order(), keep, button);
}

/// The output picker lists every button whose lowercased name holds the search term
/// anywhere: "shift" finds "Left Shift" and "Right Shift" as well as "Shift (ambidextrous)".
pub proof fn lemma_picker_finds_anywhere(search: Seq<char>, button: Button, at: int)
    requires
        0 <= at,
        at + search_term(search).len() <= lowercase(button.spec_name()).len(),
        lowercase(button.spec_name()).subrange(at, at + search_term(search).len())
            == search_term(search),
    ensures
        filtered(spec_table_order(), |b: Button| name_matches(b.spec_name(), search_term(search))).contains(
            button,
        ),
{
    lemma_match_anywhere(button.spec_name(), search_term(search), at);
    let keep = |b: Button| name_matches(b.spec_name(), search_term(search));
    assert(keep(button));
    lemma_table_order_has_every_button(button);
    lemma_filtered_keeps(spec_table_order(), keep, button);
}


} // verus!
