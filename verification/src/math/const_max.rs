use vstd::prelude::*;

verus! {

/// The largest item (the first one among equals) of a slice that is not
/// empty.
pub fn const_max_usizes(items: &[usize]) -> (r: usize)
    requires
        items.len() > 0,
    ensures
        exists|i: int| 0 <= i < items.len() && items[i] == r,
        forall|j: int| 0 <= j < items.len() ==> items[j] <= r,
{
    let mut max_index: usize = 0;
    let mut index: usize = 0;
    while index < items.len()
        invariant
            0 <= max_index < items.len(),
            index <= items.len(),
            forall|j: int| 0 <= j < index ==> items[j] <= items[max_index as int],
        decreases items.len() - index,
    {
        let next_item = items[index];
        if next_item > items[max_index] {
            max_index = index;
        }
        index += 1;
    }
    items[max_index]
}

} // verus!
