//! Tensors as this layer sees them: a shape and a flat buffer of values.
//! A value is kept as the bit pattern of a single-precision number, so the
//! value zero is the word 0.

use vstd::prelude::*;
use crate::shape::Shape;

verus! {

/// A buffer that holds `value` `len` times.
pub open spec fn constant(len: nat, value: u32) -> Seq<u32> {
    Seq::new(len, |i: int| value)
}

/// A buffer of `len` zeros.
pub open spec fn zeros(len: nat) -> Seq<u32> {
    constant(len, 0)
}

/// A buffer that holds `value` `len` times.
pub fn repeat(len: usize, value: u32) -> (data: Vec<u32>)
    ensures
        data@ == constant(len as nat, value),
{
    let mut data: Vec<u32> = Vec::new();
    let mut i: usize = 0;
    while i < len
        invariant
            i <= len,
            data@ == constant(i as nat, value),
        decreases len - i,
    {
        data.push(value);
        i += 1;
        assert(data@ =~= constant(i as nat, value));
    }
    data
}

/// What a tensor is: its extents and its values in storage order.
pub struct TensorView {
    pub shape: Seq<u32>,
    pub data: Seq<u32>,
}

/// A tensor in foreign storage. Code outside the function table sees one
/// only behind a shared reference: a view that cannot outlive the state it
/// was taken from.
#[derive(Debug)]
pub struct Tensor {
    shape: Shape,
    data: Vec<u32>,
}

impl View for Tensor {
    type V = TensorView;

    closed spec fn view(&self) -> TensorView {
        TensorView { shape: self.shape@, data: self.data@ }
    }
}

impl Tensor {
    /// A tensor of the given shape over the given values.
    pub fn new(shape: Shape, data: Vec<u32>) -> (tensor: Tensor)
        ensures
            tensor@ == (TensorView { shape: shape@, data: data@ }),
    {
        Tensor { shape, data }
    }

    /// A tensor of the given shape that holds 0 `len` times.
    pub fn zeroed(shape: Shape, len: usize) -> (tensor: Tensor)
        ensures
            tensor@ == (TensorView { shape: shape@, data: zeros(len as nat) }),
    {
        Tensor { shape, data: repeat(len, 0) }
    }

    /// The extents of the tensor.
    pub fn shape(&self) -> (shape: &Shape)
        ensures
            shape@ == self@.shape,
    {
        &self.shape
    }

    /// The values of the tensor in storage order.
    pub fn values(&self) -> (values: &Vec<u32>)
        ensures
            values@ == self@.data,
    {
        &self.data
    }

    /// A second tensor with the same shape and values.
    pub fn duplicate(&self) -> (tensor: Tensor)
        ensures
            tensor@ == self@,
    {
        Tensor { shape: self.shape.duplicate(), data: self.data.clone() }
    }
}

} // verus!
