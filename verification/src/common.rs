//! Putting keys back before the front of a queue.
use std::collections::VecDeque;
use vstd::prelude::*;

verus! {

/// Moves the items of `front` before those of `typeahead`, in their order,
/// and leaves `front` empty.
pub fn move_to_front<T>(front: &mut Vec<T>, typeahead: &mut VecDeque<T>)
    ensures
        final(front)@ == Seq::<T>::empty(),
        final(typeahead)@ == old(front)@ + old(typeahead)@,
{
    while front.len() > 0
        invariant
            front@.len() <= old(front)@.len(),
            front@ == old(front)@.take(front@.len() as int),
            typeahead@ == old(front)@.skip(front@.len() as int) + old(typeahead)@,
        decreases front.len(),
    {
        match front.pop() {
            Some(key) => {
                typeahead.push_front(key);
            },
            None => {},
        }
    }
}

/// Copies the items of `front` before those of `typeahead`, in their order.
pub fn prepend<T: Copy>(front: &Vec<T>, typeahead: &mut VecDeque<T>)
    ensures
        final(typeahead)@ == front@ + old(typeahead)@,
{
    let mut i: usize = front.len();
    while i > 0
        invariant
            i <= front.len(),
            typeahead@ == front@.skip(i as int) + old(typeahead)@,
        decreases i,
    {
        i = i - 1;
        typeahead.push_front(front[i]);
    }
}

} // verus!
