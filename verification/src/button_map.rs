//! A total map from buttons to values, stored densely by button position.

use crate::buttons::{
    lemma_button_from_index_in_range, lemma_button_index_injective,
    lemma_button_index_roundtrip, Button, BUTTON_COUNT,
};
use vstd::prelude::*;

verus! {

/// A value for every button.
#[derive(Debug, PartialEq, Eq, PartialOrd, Ord, Hash)]
pub struct ButtonMap<V> {
    values: Vec<V>,
}

impl<V> ButtonMap<V> {
    #[verifier::type_invariant]
    spec fn well_formed(self) -> bool {
        self.values@.len() == BUTTON_COUNT
    }

    /// The value stored for `button`.
    pub closed spec fn spec_get(self, button: Button) -> V {
        self.values@[button.spec_index() as int]
    }

    /// The values in button-position order.
    pub closed spec fn spec_values(self) -> Seq<V> {
        self.values@
    }

    /// Builds a map from one value per button, listed in button-position order. Fails when
    /// the number of values is not the number of buttons.
    pub fn from_vec(values: Vec<V>) -> (map: Option<ButtonMap<V>>)
        ensures
            map is Some <==> values@.len() == BUTTON_COUNT,
            map matches Some(m) ==> m.spec_values() == values@ && forall|i: usize|
                i < BUTTON_COUNT ==> #[trigger] m.spec_get(
                    Button::spec_from_index(i).unwrap(),
                ) == values@[i as int],
    {
        if values.len() == BUTTON_COUNT {
            let map = ButtonMap { values };
            proof {
                assert forall|i: usize| i < BUTTON_COUNT implies #[trigger] map.spec_get(
                    Button::spec_from_index(i).unwrap(),
                ) == map.values@[i as int] by {
                    lemma_button_from_index_in_range(i);
                }
            }
            Some(map)
        } else {
            None
        }
    }

    /// The value stored for `button`.
    pub fn get(&self, button: Button) -> (value: &V)
        ensures
            *value == self.spec_get(button),
    {
        proof {
            use_type_invariant(self);
        }
        &self.values[button.index()]
    }

    /// Replaces the value stored for `button`; every other button keeps its value.
    pub fn set(&mut self, button: Button, value: V)
        ensures
            final(self).spec_get(button) == value,
            forall|other: Button|
                other != button ==> #[trigger] final(self).spec_get(other) == old(
                    self,
                ).spec_get(other),
    {
        proof {
            use_type_invariant(&*self);
        }
        let i: usize = button.index();
        self.values[i] = value;
        proof {
            assert forall|other: Button| other != button implies #[trigger] self.spec_get(other)
                == old(self).spec_get(other) by {
                lemma_button_index_injective(button, other);
            }
        }
    }

    /// The values in button-position order, as a vector.
    pub fn values(&self) -> (values: &Vec<V>)
        ensures
            values@ == self.spec_values(),
            values@.len() == BUTTON_COUNT,
    {
        proof {
            use_type_invariant(self);
        }
        &self.values
    }
}

impl<V: Clone> Clone for ButtonMap<V> {
    fn clone(&self) -> (copy: Self)
        ensures
            forall|button: Button|
                cloned::<V>(self.spec_get(button), #[trigger] copy.spec_get(button)),
    {
        proof {
            use_type_invariant(self);
        }
        let copy = ButtonMap { values: self.values.clone() };
        proof {
            assert forall|button: Button|
                cloned::<V>(self.spec_get(button), #[trigger] copy.spec_get(button)) by {
                lemma_button_index_roundtrip(button);
            }
        }
        copy
    }
}

impl<T: View> View for ButtonMap<T> {
    type V = Map<Button, T::V>;

    /// The view of the value stored for each button.
    open spec fn view(&self) -> Map<Button, T::V> {
        Map::new(|b: Button| true, |b: Button| self.spec_get(b)@)
    }
}

/// The value for a button sits at that button's position in the listed values.
pub proof fn lemma_values_at_index<V>(map: ButtonMap<V>, button: Button)
    ensures
        map.spec_values()[button.spec_index() as int] == map.spec_get(button),
{
    lemma_button_index_roundtrip(button);
}

} // verus!
