//! Copies that are known to mean the same as what they were made from.
use vstd::prelude::*;

verus! {

/// A value of which a second one with the same meaning can be made.
pub trait Duplicate: DeepView + Sized {
    fn duplicate(&self) -> (r: Self)
        ensures
            r.deep_view() == self.deep_view(),
    ;
}

impl Duplicate for String {
    fn duplicate(&self) -> (r: Self) {
        self.clone()
    }
}

impl Duplicate for u64 {
    fn duplicate(&self) -> (r: Self) {
        *self
    }
}

impl Duplicate for usize {
    fn duplicate(&self) -> (r: Self) {
        *self
    }
}

impl<T: Duplicate> Duplicate for Option<T> {
    fn duplicate(&self) -> (r: Self) {
        match self {
            Some(value) => Some(value.duplicate()),
            None => None,
        }
    }
}

impl<T: Duplicate> Duplicate for Vec<T> {
    fn duplicate(&self) -> (r: Self) {
        assert(self.deep_view().subrange(0, self@.len() as int) == self.deep_view());
        duplicate_range(self, 0, self.len())
    }
}

/// Copies the items from position `from` up to position `to`.
pub(crate) fn duplicate_range<T: Duplicate>(items: &Vec<T>, from: usize, to: usize) -> (r: Vec<T>)
    requires
        from <= to <= items@.len(),
    ensures
        r.deep_view() == items.deep_view().subrange(from as int, to as int),
{
    let mut out: Vec<T> = Vec::new();
    let mut i: usize = from;
    while i < to
        invariant
            from <= i <= to <= items@.len(),
            out@.len() == i - from,
            forall|j: int|
                0 <= j < out@.len() ==> (#[trigger] out@[j]).deep_view() == items@[from
                    + j].deep_view(),
        decreases to - i,
    {
        out.push(items[i].duplicate());
        i = i + 1;
    }
    assert(out.deep_view() =~= items.deep_view().subrange(from as int, to as int));
    out
}

} // verus!
