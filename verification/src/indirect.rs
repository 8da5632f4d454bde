//! Indirect dispatch: sizing a launch from a count that only the device has.
//!
//! When the amount of work is the result of an earlier kernel, reading it
//! back would stall the pipeline. Instead a small kernel turns the count into
//! workgroup counts on the device, and the launch that follows takes its
//! dispatch shape from the buffer that kernel wrote.

use crate::client::{CommandQueue, Handle, QueueView};
use crate::dispatch::CubeCount;
use crate::kernel::{KernelVariant, VariantView};
use crate::tensor::{create_tensor, create_uniform_buffer, ElemType, Tensor};
use vstd::bytes::spec_u32_to_le_bytes;
use vstd::prelude::*;
use vstd::string::StringExecFns;

verus! {

/// Three words, each as four bytes with the least significant byte first.
pub open spec fn words_le(words: Seq<u32>) -> Seq<u8> {
    spec_u32_to_le_bytes(words[0]) + spec_u32_to_le_bytes(words[1]) + spec_u32_to_le_bytes(
        words[2],
    )
}

/// Three words, each as four bytes with the most significant byte first.
pub open spec fn words_be(words: Seq<u32>) -> Seq<u8> {
    spec_u32_to_le_bytes(words[0]).reverse() + spec_u32_to_le_bytes(words[1]).reverse()
        + spec_u32_to_le_bytes(words[2]).reverse()
}

/// Whether `bytes` are three words as a machine lays them out in memory, in
/// one byte order or the other.
pub open spec fn native_layout(words: Seq<u32>, bytes: Seq<u8>) -> bool {
    bytes == words_le(words) || bytes == words_be(words)
}

/// Calls `bytemuck::bytes_of` on an array of three words and copies what it
/// returns. `bytes_of` hands back the memory of the value as it is: twelve
/// bytes, the words in order, each in the byte order of the machine.
#[verifier::external_body]
fn uniform_bytes(words: &[u32; 3]) -> (bytes: Vec<u8>)
    ensures
        bytes@.len() == 12,
        native_layout(words@, bytes@),
{
    bytemuck::bytes_of(words).to_vec()
}

/// The kernel that computes workgroup counts on the device.
pub open spec fn dispatch_kernel() -> VariantView {
    VariantView {
        name: "CreateDispatchBuffer"@,
        flags: Seq::empty(),
        values: Seq::empty(),
        workgroup_size: seq![1u32, 1u32, 1u32],
    }
}

/// The kernel that computes workgroup counts on the device. It reads a
/// workgroup size and a thread count and writes, for each axis, the count
/// that [`crate::dispatch::calc_cube_count`] gives on the host. It has no
/// flags and runs as a single thread.
pub fn dispatch_buffer_kernel() -> (kernel: KernelVariant)
    ensures
        kernel@ == dispatch_kernel(),
{
    KernelVariant::without_flags(String::from_str("CreateDispatchBuffer"), [1, 1, 1])
}

/// The queue after the requests of an indirect dispatch were recorded:
/// upload the workgroup size, reserve three words for the counts, and run
/// the sizing kernel once over the uniform, the thread count and the counts.
pub open spec fn dispatch_plan(queue: QueueView, thread_nums: Handle, uniform: Seq<u8>)
    -> QueueView {
    let uniforms = queue.next_handle();
    let counts = queue.uploaded(uniform).next_handle();
    let reserved = queue.uploaded(uniform).reserved(12);
    let prepared = if queue.poison {
        reserved.poisoned(counts)
    } else {
        reserved
    };
    prepared.launched(
        dispatch_kernel(),
        CubeCount::Static(1, 1, 1),
        seq![uniforms, thread_nums, counts],
    )
}

/// Prepares the dispatch shape of a launch whose thread count is on the
/// device. The thread count is a buffer that the queue knows.
///
/// The returned buffer holds three words. Once the recorded requests have
/// run, they are the workgroup counts for `thread_nums` threads in groups of
/// `wg_size`, and the buffer can be the [`CubeCount::Dynamic`] shape of the
/// launch that follows. Nothing is read back and nothing is waited for: the
/// requests are the upload, the reservation and one launch.
pub fn create_dispatch_buffer(
    thread_nums: Tensor<1>,
    wg_size: [u32; 3],
    client: &mut CommandQueue,
) -> (counts: Tensor<1>)
    requires
        old(client)@.knows(thread_nums.handle),
    ensures
        counts.handle.index == old(client)@.sizes.len() + 1,
        counts.handle != thread_nums.handle,
        counts.elem == ElemType::U32,
        counts.shape@ == seq![3usize],
        counts.strides@ == seq![1usize],
        counts.backed_by(final(client)@),
        exists|uniform: Seq<u8>|
            native_layout(wg_size@, uniform) && final(client)@ == dispatch_plan(
                old(client)@,
                thread_nums.handle,
                uniform,
            ),
{
    let uniform: Vec<u8> = uniform_bytes(&wg_size);
    let uniforms_buffer = create_uniform_buffer(uniform.as_slice(), client);
    let shape: [usize; 1] = [3];
    proof {
        assert(shape@ =~= seq![3usize]);
        assert(shape@.skip(0) =~= shape@);
    }
    let counts = create_tensor(shape, ElemType::U32, client);
    let mut bindings: Vec<Handle> = Vec::new();
    bindings.push(uniforms_buffer.handle);
    bindings.push(thread_nums.handle);
    bindings.push(counts.handle);
    assert(bindings@ =~= seq![uniforms_buffer.handle, thread_nums.handle, counts.handle]);
    client.execute(dispatch_buffer_kernel(), CubeCount::Static(1, 1, 1), bindings);
    counts
}

} // verus!
