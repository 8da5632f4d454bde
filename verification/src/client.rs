//! The requests a compute client receives, recorded in submission order.
//!
//! Work on the device is asynchronous: a request is queued and the caller
//! goes on at once. A [`CommandQueue`] is that queue seen from the host. It
//! numbers the allocations it is asked for, so that later requests can name
//! them before the device has done anything, and it keeps every request for
//! the code that forwards them to the device.

use crate::dispatch::CubeCount;
use crate::kernel::{KernelVariant, VariantView};
use vstd::prelude::*;
use vstd::slice::slice_to_vec;

verus! {

/// A device allocation, named by the position at which the queue learned of
/// it. Copies of a handle name the same allocation.
#[derive(Clone, Copy, Debug, PartialEq, Eq, Structural)]
pub struct Handle {
    pub index: usize,
}

/// One request to the compute client.
#[derive(Debug)]
pub enum ClientOp {
    /// Reserve `size` bytes; their content is not initialised.
    Empty { handle: Handle, size: usize },
    /// Reserve room for `data` and upload it.
    Create { handle: Handle, data: Vec<u8> },
    /// Overwrite an allocation with a sentinel pattern that is not zero.
    Poison { handle: Handle },
    /// Run a kernel over the bindings, in the order the shader declares them.
    Execute { kernel: KernelVariant, count: CubeCount, bindings: Vec<Handle> },
}

/// The mathematical content of a [`ClientOp`].
pub enum OpView {
    Empty { handle: Handle, size: usize },
    Create { handle: Handle, data: Seq<u8> },
    Poison { handle: Handle },
    Execute { kernel: VariantView, count: CubeCount, bindings: Seq<Handle> },
}

impl View for ClientOp {
    type V = OpView;

    open spec fn view(&self) -> OpView {
        match *self {
            ClientOp::Empty { handle, size } => OpView::Empty { handle, size },
            ClientOp::Create { handle, data } => OpView::Create { handle, data: data@ },
            ClientOp::Poison { handle } => OpView::Poison { handle },
            ClientOp::Execute { kernel, count, bindings } => OpView::Execute {
                kernel: kernel@,
                count,
                bindings: bindings@,
            },
        }
    }
}

/// The requests of a list, each by its content.
pub open spec fn op_views(ops: Seq<ClientOp>) -> Seq<OpView> {
    ops.map_values(|op: ClientOp| op@)
}

/// The host's side of a compute client.
#[derive(Debug)]
pub struct CommandQueue {
    sizes: Vec<usize>,
    ops: Vec<ClientOp>,
    poison: bool,
}

/// The mathematical content of a [`CommandQueue`].
pub struct QueueView {
    /// The byte size of every allocation the queue knows, by handle index.
    pub sizes: Seq<usize>,
    /// The requests that were recorded and not yet taken, oldest first.
    pub ops: Seq<OpView>,
    /// Whether fresh, uninitialised allocations are to be poisoned.
    pub poison: bool,
}

impl QueueView {
    /// The handle that the next allocation gets.
    pub open spec fn next_handle(self) -> Handle {
        Handle { index: self.sizes.len() as usize }
    }

    /// Whether `handle` names an allocation of this queue.
    pub open spec fn knows(self, handle: Handle) -> bool {
        handle.index < self.sizes.len()
    }

    /// The queue after it learned of one more allocation of `size` bytes.
    pub open spec fn with_allocation(self, size: usize) -> QueueView {
        QueueView { sizes: self.sizes.push(size), ..self }
    }

    /// The queue after one more request was recorded.
    pub open spec fn with_op(self, op: OpView) -> QueueView {
        QueueView { ops: self.ops.push(op), ..self }
    }

    /// The queue after `size` uninitialised bytes were asked for.
    pub open spec fn reserved(self, size: usize) -> QueueView {
        self.with_allocation(size).with_op(OpView::Empty { handle: self.next_handle(), size })
    }

    /// The queue after the upload of `data` was asked for.
    pub open spec fn uploaded(self, data: Seq<u8>) -> QueueView {
        self.with_allocation(data.len() as usize).with_op(
            OpView::Create { handle: self.next_handle(), data },
        )
    }

    /// The queue after the poisoning of an allocation was asked for.
    pub open spec fn poisoned(self, handle: Handle) -> QueueView {
        self.with_op(OpView::Poison { handle })
    }

    /// The queue after a launch was asked for.
    pub open spec fn launched(self, kernel: VariantView, count: CubeCount, bindings: Seq<Handle>)
        -> QueueView {
        self.with_op(OpView::Execute { kernel, count, bindings })
    }
}

impl View for CommandQueue {
    type V = QueueView;

    closed spec fn view(&self) -> QueueView {
        QueueView { sizes: self.sizes@, ops: op_views(self.ops@), poison: self.poison }
    }
}

impl CommandQueue {
    /// A queue that knows no allocation and holds no request. With `poison`
    /// set, allocations whose content is not initialised get poisoned.
    pub fn new(poison: bool) -> (queue: CommandQueue)
        ensures
            queue@ == (QueueView { sizes: Seq::empty(), ops: Seq::empty(), poison }),
    {
        let queue = CommandQueue { sizes: Vec::new(), ops: Vec::new(), poison };
        assert(op_views(queue.ops@) =~= Seq::empty());
        queue
    }

    /// Whether uninitialised allocations are to be poisoned.
    pub fn poisons(&self) -> (poison: bool)
        ensures
            poison == self@.poison,
    {
        self.poison
    }

    /// The number of allocations the queue knows.
    pub fn allocations(&self) -> (count: usize)
        ensures
            count == self@.sizes.len(),
    {
        self.sizes.len()
    }

    /// The byte size of an allocation, if the queue knows it.
    pub fn size_of(&self, handle: Handle) -> (size: Option<usize>)
        ensures
            size == if self@.knows(handle) {
                Some(self@.sizes[handle.index as int])
            } else {
                None
            },
    {
        if handle.index < self.sizes.len() {
            Some(self.sizes[handle.index])
        } else {
            None
        }
    }

    /// Makes an allocation known that the device already holds. Nothing is
    /// requested of the client.
    pub fn adopt(&mut self, size: usize) -> (handle: Handle)
        ensures
            handle == old(self)@.next_handle(),
            handle.index == old(self)@.sizes.len(),
            final(self)@ == old(self)@.with_allocation(size),
    {
        let handle = Handle { index: self.sizes.len() };
        self.sizes.push(size);
        handle
    }

    fn record(&mut self, op: ClientOp)
        ensures
            final(self)@ == old(self)@.with_op(op@),
    {
        let ghost before = self.ops@;
        self.ops.push(op);
        assert(op_views(self.ops@) =~= op_views(before).push(op@));
    }

    /// Asks the client for `size` bytes whose content is not initialised.
    pub fn empty(&mut self, size: usize) -> (handle: Handle)
        ensures
            handle == old(self)@.next_handle(),
            handle.index == old(self)@.sizes.len(),
            final(self)@ == old(self)@.reserved(size),
    {
        let handle = self.adopt(size);
        self.record(ClientOp::Empty { handle, size });
        handle
    }

    /// Asks the client to upload `data` into a new allocation of its length.
    pub fn create(&mut self, data: &[u8]) -> (handle: Handle)
        ensures
            handle == old(self)@.next_handle(),
            handle.index == old(self)@.sizes.len(),
            final(self)@ == old(self)@.uploaded(data@),
    {
        let handle = self.adopt(data.len());
        self.record(ClientOp::Create { handle, data: slice_to_vec(data) });
        handle
    }

    /// Asks the client to fill an allocation with the sentinel pattern.
    pub fn poison(&mut self, handle: Handle)
        ensures
            final(self)@ == old(self)@.poisoned(handle),
    {
        self.record(ClientOp::Poison { handle });
    }

    /// Asks the client to run `kernel` with the given dispatch shape over
    /// the bindings, which keep their order.
    pub fn execute(&mut self, kernel: KernelVariant, count: CubeCount, bindings: Vec<Handle>)
        ensures
            final(self)@ == old(self)@.launched(kernel@, count, bindings@),
    {
        self.record(ClientOp::Execute { kernel, count, bindings });
    }

    /// Hands out the recorded requests, oldest first, and forgets them. The
    /// allocations stay known.
    pub fn take_ops(&mut self) -> (ops: Vec<ClientOp>)
        ensures
            op_views(ops@) == old(self)@.ops,
            final(self)@ == (QueueView { ops: Seq::empty(), ..old(self)@ }),
    {
        let mut ops: Vec<ClientOp> = Vec::new();
        std::mem::swap(&mut self.ops, &mut ops);
        assert(op_views(self.ops@) =~= Seq::empty());
        ops
    }
}

} // verus!
