//! Joining button names into the comma-separated lists shown to the user.

use crate::buttons::{Button, HoldButton};
use crate::output::{output_items, Output};
use vstd::prelude::*;

verus! {

/// `parts` joined with ", " between neighbours.
pub open spec fn spec_join(parts: Seq<Seq<char>>) -> Seq<char>
    decreases parts.len(),
{
    if parts.len() == 0 {
        Seq::empty()
    } else if parts.len() == 1 {
        parts[0]
    } else {
        spec_join(parts.drop_last()) + ", "@ + parts.last()
    }
}

/// The names of `buttons`, in order.
pub open spec fn spec_button_names(buttons: Seq<Button>) -> Seq<Seq<char>> {
    buttons.map_values(|b: Button| b.spec_name())
}

/// The names of `buttons`, in order, joined with ", ".
pub open spec fn spec_join_names(buttons: Seq<Button>) -> Seq<char> {
    spec_join(spec_button_names(buttons))
}

/// Hold buttons as members of all buttons.
pub open spec fn spec_hold_as_buttons(buttons: Seq<HoldButton>) -> Seq<Button> {
    buttons.map_values(|b: HoldButton| b.spec_to_button())
}

/// Appending one more part adds a separator and the part.
proof fn lemma_join_step(parts: Seq<Seq<char>>, i: int)
    requires
        1 <= i < parts.len(),
    ensures
        spec_join(parts.take(i + 1)) == spec_join(parts.take(i)) + ", "@ + parts[i],
{
    assert(parts.take(i + 1).drop_last() =~= parts.take(i));
}

/// The names of the buttons in `output`, joined with ", ".
pub fn join_names(output: &Output) -> (text: String)
    ensures
        text@ == spec_join_names(output_items(*output)),
{
    let ghost parts = spec_button_names(output_items(*output));
    let len: usize = output.len();
    let mut text = String::new();
    let mut i: usize = 0;
    while i < len
        invariant
            len == output_items(*output).len(),
            parts == spec_button_names(output_items(*output)),
            parts.len() == len,
            i <= len,
            text@ == spec_join(parts.take(i as int)),
        decreases len - i,
    {
        let button = output.get(i);
        if i == 0 {
            text.append(button.name());
            assert(parts.take(1) =~= seq![parts[0]]);
        } else {
            text.append(", ");
            text.append(button.name());
            proof {
                lemma_join_step(parts, i as int);
            }
        }
        i = i + 1;
    }
    assert(parts.take(len as int) =~= parts);
    text
}

/// The names of `buttons`, joined with ", ".
pub fn join_hold_names(buttons: &Vec<HoldButton>) -> (text: String)
    ensures
        text@ == spec_join_names(spec_hold_as_buttons(buttons@)),
{
    let ghost parts = spec_button_names(spec_hold_as_buttons(buttons@));
    let mut text = String::new();
    let mut i: usize = 0;
    while i < buttons.len()
        invariant
            parts == spec_button_names(spec_hold_as_buttons(buttons@)),
            parts.len() == buttons@.len(),
            i <= buttons@.len(),
            text@ == spec_join(parts.take(i as int)),
        decreases buttons@.len() - i,
    {
        let button = buttons[i];
        if i == 0 {
            text.append(button.name());
            assert(parts.take(1) =~= seq![parts[0]]);
        } else {
            text.append(", ");
            text.append(button.name());
            proof {
                lemma_join_step(parts, i as int);
            }
        }
        i = i + 1;
    }
    assert(parts.take(buttons@.len() as int) =~= parts);
    text
}

} // verus!
