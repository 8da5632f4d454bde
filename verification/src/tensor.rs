//! Typed views over device allocations.

use crate::client::{CommandQueue, Handle, QueueView};
use vstd::prelude::*;

verus! {

/// The element type a buffer is read as.
#[derive(Clone, Copy, Debug, PartialEq, Eq, Structural)]
pub enum ElemType {
    F32,
    F16,
    BF16,
    I32,
    U32,
}

impl ElemType {
    /// The number of bytes one element takes.
    pub open spec fn width(self) -> nat {
        match self {
            ElemType::F16 | ElemType::BF16 => 2,
            ElemType::F32 | ElemType::I32 | ElemType::U32 => 4,
        }
    }

    /// The number of bytes one element takes.
    pub fn size(self) -> (bytes: usize)
        ensures
            bytes == self.width(),
    {
        match self {
            ElemType::F16 | ElemType::BF16 => 2,
            ElemType::F32 | ElemType::I32 | ElemType::U32 => 4,
        }
    }
}

/// The number of elements of a shape: the product of its dimensions.
pub open spec fn num_elements(shape: Seq<usize>) -> nat
    decreases shape.len(),
{
    if shape.len() == 0 {
        1
    } else {
        shape[0] as nat * num_elements(shape.skip(1))
    }
}

/// The number of bytes that a buffer of this shape and element type takes.
pub open spec fn byte_size(shape: Seq<usize>, elem: ElemType) -> nat {
    num_elements(shape) * elem.width()
}

/// The distance, in elements, between neighbours along `axis` when the
/// elements lie row by row without gaps.
pub open spec fn stride_at(shape: Seq<usize>, axis: int) -> nat {
    num_elements(shape.skip(axis + 1))
}

/// Whether `strides` are those of a buffer laid out row by row without gaps.
pub open spec fn contiguous(shape: Seq<usize>, strides: Seq<usize>) -> bool {
    &&& strides.len() == shape.len()
    &&& forall|axis: int| 0 <= axis < shape.len() ==> strides[axis] == stride_at(shape, axis)
}

/// Whether the byte size of the shape, and the element count of each of its
/// trailing parts, can be held in a `usize`. The byte size is what the
/// client is asked for; the element counts of the trailing parts are the
/// strides.
pub open spec fn fits(shape: Seq<usize>, elem: ElemType) -> bool {
    &&& byte_size(shape, elem) <= usize::MAX
    &&& forall|axis: int|
        0 <= axis <= shape.len() ==> #[trigger] num_elements(shape.skip(axis)) <= usize::MAX
}

/// A typed buffer: an allocation read as elements of one type, arranged in
/// `D` dimensions.
#[derive(Clone, Copy, Debug, PartialEq, Eq)]
pub struct Tensor<const D: usize> {
    pub handle: Handle,
    pub shape: [usize; D],
    pub strides: [usize; D],
    pub elem: ElemType,
}

impl<const D: usize> Tensor<D> {
    /// The number of bytes the tensor's elements take.
    pub open spec fn bytes(self) -> nat {
        byte_size(self.shape@, self.elem)
    }

    /// The tensor's allocation is known to the queue and is exactly as large
    /// as the tensor's elements.
    pub open spec fn backed_by(self, queue: QueueView) -> bool {
        queue.knows(self.handle) && queue.sizes[self.handle.index as int] == self.bytes()
    }
}

/// A trailing part of a shape has the elements of its first dimension times
/// those of the rest.
pub proof fn lemma_num_elements_step(shape: Seq<usize>, axis: int)
    requires
        0 <= axis < shape.len(),
    ensures
        num_elements(shape.skip(axis)) == shape[axis] as nat * num_elements(shape.skip(axis + 1)),
{
    assert(shape.skip(axis).skip(1) =~= shape.skip(axis + 1));
}

/// Whether a buffer of this shape and element type has a byte size, and
/// strides, that a `usize` can hold.
pub fn shape_fits<const D: usize>(shape: &[usize; D], elem: ElemType) -> (ok: bool)
    ensures
        ok == fits(shape@, elem),
{
    let mut current: usize = 1;
    let mut index: usize = D;
    assert(shape@.skip(D as int) =~= Seq::empty());
    while index > 0
        invariant
            index <= D,
            shape@.len() == D,
            current == num_elements(shape@.skip(index as int)),
            forall|axis: int|
                index <= axis <= D ==> #[trigger] num_elements(shape@.skip(axis)) <= usize::MAX,
        decreases index,
    {
        index = index - 1;
        proof {
            lemma_num_elements_step(shape@, index as int);
        }
        match current.checked_mul(shape[index]) {
            Some(elements) => {
                assert(elements == num_elements(shape@.skip(index as int))) by (nonlinear_arith)
                    requires
                        elements == current * shape@[index as int],
                        num_elements(shape@.skip(index as int)) == shape@[index as int] as nat
                            * current as nat,
                ;
                current = elements;
            },
            None => {
                assert(num_elements(shape@.skip(index as int)) > usize::MAX) by (nonlinear_arith)
                    requires
                        current * shape@[index as int] > usize::MAX,
                        num_elements(shape@.skip(index as int)) == shape@[index as int] as nat
                            * current as nat,
                ;
                return false;
            },
        }
    }
    assert(shape@.skip(0) =~= shape@);
    current.checked_mul(elem.size()).is_some()
}

/// Reserves an uninitialised buffer for the given shape.
///
/// The client is asked for exactly as many bytes as the elements take. The
/// strides are those of a row-by-row layout without gaps. On a queue that
/// poisons, the request to poison the new allocation follows at once.
pub fn create_tensor<const D: usize>(
    shape: [usize; D],
    elem: ElemType,
    client: &mut CommandQueue,
) -> (tensor: Tensor<D>)
    requires
        fits(shape@, elem),
    ensures
        tensor.handle.index == old(client)@.sizes.len(),
        tensor.shape@ == shape@,
        tensor.elem == elem,
        contiguous(shape@, tensor.strides@),
        tensor.bytes() <= usize::MAX,
        final(client)@ == if old(client)@.poison {
            old(client)@.reserved(tensor.bytes() as usize).poisoned(tensor.handle)
        } else {
            old(client)@.reserved(tensor.bytes() as usize)
        },
        tensor.backed_by(final(client)@),
{
    let mut strides: [usize; D] = [0; D];
    let mut current: usize = 1;
    let mut index: usize = D;
    while index > 0
        invariant
            index <= D,
            shape@.len() == D,
            strides@.len() == D,
            fits(shape@, elem),
            current == num_elements(shape@.skip(index as int)),
            forall|axis: int| index <= axis < D ==> strides@[axis] == stride_at(shape@, axis),
        decreases index,
    {
        index = index - 1;
        strides[index] = current;
        proof {
            lemma_num_elements_step(shape@, index as int);
            let product = num_elements(shape@.skip(index as int));
            assert(product == current * shape@[index as int]) by (nonlinear_arith)
                requires
                    product == shape@[index as int] as nat * current as nat,
            ;
        }
        current = current * shape[index];
    }
    assert(shape@.skip(0) =~= shape@);
    let size: usize = current * elem.size();
    let handle = client.empty(size);
    if client.poisons() {
        client.poison(handle);
    }
    Tensor { handle, shape, strides, elem }
}

/// Reads a buffer as elements of another type. No data moves: the handle,
/// the shape and the strides stay, only the element type changes.
///
/// The cast is not checked. It is the caller's obligation that elements of
/// both types fill the same bytes; where they do, the bytes the elements
/// take stay the same as well.
pub fn bitcast_tensor<const D: usize>(tensor: Tensor<D>, elem: ElemType) -> (cast: Tensor<D>)
    ensures
        cast.handle == tensor.handle,
        cast.shape == tensor.shape,
        cast.strides == tensor.strides,
        cast.elem == elem,
        elem.width() == tensor.elem.width() ==> cast.bytes() == tensor.bytes(),
{
    Tensor { handle: tensor.handle, shape: tensor.shape, strides: tensor.strides, elem }
}

/// A reinterpretation changes nothing but the element type: casting back
/// gives the tensor that was there before.
pub proof fn lemma_bitcast_changes_only_the_element_type<const D: usize>(
    tensor: Tensor<D>,
    cast: Tensor<D>,
)
    requires
        cast.handle == tensor.handle,
        cast.shape == tensor.shape,
        cast.strides == tensor.strides,
    ensures
        (Tensor { elem: tensor.elem, ..cast }) == tensor,
        cast.elem.width() == tensor.elem.width() ==> cast.bytes() == tensor.bytes(),
{
}

/// A reinterpreted tensor whose elements fill the same bytes is backed by
/// every queue that backs the tensor it was made from.
pub proof fn lemma_bitcast_keeps_backing<const D: usize>(
    tensor: Tensor<D>,
    cast: Tensor<D>,
    queue: QueueView,
)
    requires
        cast.handle == tensor.handle,
        cast.shape == tensor.shape,
        cast.elem.width() == tensor.elem.width(),
        tensor.backed_by(queue),
    ensures
        cast.backed_by(queue),
{
}

/// Uploads the raw bytes of a fixed-layout value as a buffer of 32-bit words.
///
/// The bytes are uploaded as they are; the buffer counts one element for
/// every four of them.
pub fn create_uniform_buffer(bytes: &[u8], client: &mut CommandQueue) -> (tensor: Tensor<1>)
    requires
        bytes@.len() % 4 == 0,
    ensures
        tensor.handle.index == old(client)@.sizes.len(),
        tensor.elem == ElemType::U32,
        tensor.shape@ == seq![(bytes@.len() / 4) as usize],
        tensor.strides@ == seq![1usize],
        tensor.bytes() == bytes@.len(),
        tensor.bytes() % 4 == 0,
        final(client)@ == old(client)@.uploaded(bytes@),
        tensor.backed_by(final(client)@),
{
    let words: usize = bytes.len() / 4;
    let handle = client.create(bytes);
    let tensor = Tensor { handle, shape: [words], strides: [1], elem: ElemType::U32 };
    proof {
        assert(tensor.shape@.skip(1) =~= Seq::empty());
        assert(num_elements(tensor.shape@) == words * num_elements(Seq::empty()));
        assert(num_elements(tensor.shape@) == words) by (nonlinear_arith)
            requires
                num_elements(tensor.shape@) == words * 1,
        ;
    }
    tensor
}

} // verus!
