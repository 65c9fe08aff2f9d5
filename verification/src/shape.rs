//! Shapes: the extents of a tensor along its axes, and the number of
//! elements that a tensor of the shape holds.

use vstd::prelude::*;

verus! {

/// The number of elements of a tensor with the extents `dims`: their
/// product, which is 1 for no axis at all.
pub open spec fn element_count(dims: Seq<u32>) -> nat
    decreases dims.len(),
{
    if dims.len() == 0 {
        1
    } else {
        element_count(dims.drop_last()) * (dims.last() as nat)
    }
}

/// One more axis multiplies the count by its extent.
pub proof fn lemma_count_step(dims: Seq<u32>, i: int)
    requires
        0 <= i < dims.len(),
    ensures
        element_count(dims.take(i + 1)) == element_count(dims.take(i)) * (dims[i] as nat),
{
    assert(dims.take(i + 1).drop_last() =~= dims.take(i));
}

/// An axis of extent 0 leaves no element.
pub proof fn lemma_count_zero(dims: Seq<u32>, i: int)
    requires
        0 <= i < dims.len(),
        dims[i] == 0,
    ensures
        element_count(dims) == 0,
    decreases dims.len(),
{
    if i == dims.len() - 1 {
        assert(element_count(dims.drop_last()) * 0 == 0) by (nonlinear_arith);
    } else {
        lemma_count_zero(dims.drop_last(), i);
        assert(0 * (dims.last() as nat) == 0) by (nonlinear_arith);
    }
}

/// Without an axis of extent 0, the count of the whole shape is at least the
/// count of its first `i` axes.
pub proof fn lemma_count_grows(dims: Seq<u32>, i: int)
    requires
        0 <= i <= dims.len(),
        forall|j: int| 0 <= j < dims.len() ==> dims[j] != 0,
    ensures
        element_count(dims.take(i)) <= element_count(dims),
    decreases dims.len() - i,
{
    if i == dims.len() {
        assert(dims.take(i) =~= dims);
    } else {
        lemma_count_step(dims, i);
        lemma_count_grows(dims, i + 1);
        let head = element_count(dims.take(i));
        let extent = dims[i] as nat;
        assert(head <= head * extent) by (nonlinear_arith)
            requires
                extent >= 1,
        ;
    }
}

/// The extents of a tensor along its axes.
#[derive(Debug)]
pub struct Shape {
    dims: Vec<u32>,
}

impl View for Shape {
    type V = Seq<u32>;

    closed spec fn view(&self) -> Seq<u32> {
        self.dims@
    }
}

impl Shape {
    /// A shape with the given extents.
    pub fn new(dims: Vec<u32>) -> (shape: Shape)
        ensures
            shape@ == dims@,
    {
        Shape { dims }
    }

    /// The extents.
    pub fn dims(&self) -> (dims: &Vec<u32>)
        ensures
            dims@ == self@,
    {
        &self.dims
    }

    /// A second shape with the same extents.
    pub fn duplicate(&self) -> (shape: Shape)
        ensures
            shape@ == self@,
    {
        Shape { dims: self.dims.clone() }
    }

    /// Whether both shapes have the same extents.
    pub fn same_as(&self, other: &Shape) -> (same: bool)
        ensures
            same == (self@ == other@),
    {
        if self.dims.len() != other.dims.len() {
            return false;
        }
        let mut i: usize = 0;
        while i < self.dims.len()
            invariant
                i <= self.dims.len(),
                self.dims.len() == other.dims.len(),
                forall|j: int| 0 <= j < i ==> self.dims@[j] == other.dims@[j],
            decreases self.dims.len() - i,
        {
            if self.dims[i] != other.dims[i] {
                return false;
            }
            i += 1;
        }
        assert(self.dims@ =~= other.dims@);
        true
    }

    /// The number of elements, or `None` where that number is more than a
    /// `usize` holds.
    pub fn size(&self) -> (size: Option<usize>)
        ensures
            element_count(self@) <= usize::MAX ==> size == Some(element_count(self@) as usize),
            element_count(self@) > usize::MAX ==> size is None,
    {
        let mut i: usize = 0;
        while i < self.dims.len()
            invariant
                i <= self.dims.len(),
                forall|j: int| 0 <= j < i ==> self.dims@[j] != 0,
            decreases self.dims.len() - i,
        {
            if self.dims[i] == 0 {
                proof {
                    lemma_count_zero(self.dims@, i as int);
                }
                return Some(0);
            }
            i += 1;
        }
        let mut count: usize = 1;
        let mut k: usize = 0;
        assert(self.dims@.take(0) =~= Seq::<u32>::empty());
        while k < self.dims.len()
            invariant
                k <= self.dims.len(),
                forall|j: int| 0 <= j < self.dims.len() ==> self.dims@[j] != 0,
                count == element_count(self.dims@.take(k as int)),
            decreases self.dims.len() - k,
        {
            let extent: usize = self.dims[k] as usize;
            proof {
                lemma_count_step(self.dims@, k as int);
                lemma_count_grows(self.dims@, k + 1);
            }
            match count.checked_mul(extent) {
                Some(next) => {
                    count = next;
                },
                None => {
                    return None;
                },
            }
            k += 1;
        }
        assert(self.dims@.take(k as int) =~= self.dims@);
        Some(count)
    }

    /// Whether a buffer of `len` values fills a tensor of this shape.
    pub fn holds(&self, len: usize) -> (fits: bool)
        ensures
            fits == (len == element_count(self@)),
    {
        match self.size() {
            Some(size) => size == len,
            None => false,
        }
    }
}

} // verus!
