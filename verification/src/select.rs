//! Choosing from a list: the first entry that is wanted, or the first entry of all.

use vstd::prelude::*;

verus! {

/// Something of which some values are wanted and others are not.
pub trait Selectable {
    /// The value is wanted.
    spec fn wanted(&self) -> bool;

    /// Whether this value is wanted.
    fn is_wanted(&self) -> (wanted: bool)
        ensures
            wanted == self.wanted(),
    ;
}

/// Which entries of a list are wanted.
pub open spec fn marks<T: Selectable>(items: Seq<T>) -> Seq<bool> {
    items.map_values(|item: T| item.wanted())
}

/// The first position at or behind `from` that is marked; the length where there is none.
pub open spec fn first_marked(marks: Seq<bool>, from: int) -> int
    decreases marks.len() - from,
{
    if from >= marks.len() {
        marks.len() as int
    } else if marks[from] {
        from
    } else {
        first_marked(marks, from + 1)
    }
}

/// The first marked position, or the first position where none is marked.
pub open spec fn chosen(marks: Seq<bool>) -> int {
    if first_marked(marks, 0) < marks.len() {
        first_marked(marks, 0)
    } else {
        0
    }
}

proof fn first_marked_is_least(marks: Seq<bool>, from: int)
    requires
        0 <= from <= marks.len(),
    ensures
        from <= first_marked(marks, from) <= marks.len(),
        forall|i: int| from <= i < first_marked(marks, from) ==> !marks[i],
        first_marked(marks, from) < marks.len() ==> marks[first_marked(marks, from)],
    decreases marks.len() - from,
{
    if from < marks.len() && !marks[from] {
        first_marked_is_least(marks, from + 1);
    }
}

/// A choice from a list that is not empty lies in the list; it is marked if anything is, and
/// then nothing before it is; and if nothing is marked it is the first entry.
pub proof fn chosen_is_first_marked(marks: Seq<bool>)
    requires
        marks.len() > 0,
    ensures
        0 <= chosen(marks) < marks.len(),
        marks.contains(true) <==> marks[chosen(marks)],
        forall|i: int| 0 <= i < chosen(marks) ==> !marks[i],
        !marks.contains(true) ==> chosen(marks) == 0,
{
    first_marked_is_least(marks, 0);
}

/// The position of the first wanted entry of a list, or of the first entry of all.
pub fn choose_first<T: Selectable>(items: &[T]) -> (index: usize)
    requires
        items@.len() > 0,
    ensures
        index < items@.len(),
        index == chosen(marks(items@)),
        forall|i: int| 0 <= i < index ==> !(#[trigger] items@[i]).wanted(),
        items@[index as int].wanted() || index == 0 && forall|i: int|
            0 <= i < items@.len() ==> !(#[trigger] items@[i]).wanted(),
{
    let mut i: usize = 0;
    while i < items.len()
        invariant
            i <= items@.len(),
            first_marked(marks(items@), 0) == first_marked(marks(items@), i as int),
            forall|k: int| 0 <= k < i ==> !(#[trigger] items@[k]).wanted(),
        decreases items@.len() - i,
    {
        if items[i].is_wanted() {
            return i;
        }
        i += 1;
    }
    0
}

} // verus!
