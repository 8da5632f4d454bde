use brush_kernel::client::{ClientOp, CommandQueue, Handle};
use brush_kernel::tensor::{
    bitcast_tensor, create_tensor, create_uniform_buffer, shape_fits, ElemType, Tensor,
};

#[test]
fn thousand_by_three_floats_take_12000_bytes() {
    let mut queue = CommandQueue::new(false);
    let tensor = create_tensor([1000, 3], ElemType::F32, &mut queue);
    assert_eq!(tensor.handle, Handle { index: 0 });
    assert_eq!(tensor.shape, [1000, 3]);
    assert_eq!(tensor.strides, [3, 1]);
    assert_eq!(tensor.elem, ElemType::F32);
    assert_eq!(queue.size_of(tensor.handle), Some(12000));
    let ops = queue.take_ops();
    assert_eq!(ops.len(), 1);
    assert!(matches!(ops[0], ClientOp::Empty { handle: Handle { index: 0 }, size: 12000 }));
}

#[test]
fn half_elements_take_two_bytes() {
    let mut queue = CommandQueue::new(false);
    let tensor = create_tensor([5, 7], ElemType::F16, &mut queue);
    assert_eq!(queue.size_of(tensor.handle), Some(70));
    let tensor = create_tensor([5, 7], ElemType::BF16, &mut queue);
    assert_eq!(queue.size_of(tensor.handle), Some(70));
}

#[test]
fn element_sizes() {
    assert_eq!(ElemType::F32.size(), 4);
    assert_eq!(ElemType::I32.size(), 4);
    assert_eq!(ElemType::U32.size(), 4);
    assert_eq!(ElemType::F16.size(), 2);
    assert_eq!(ElemType::BF16.size(), 2);
}

#[test]
fn strides_are_row_major() {
    let mut queue = CommandQueue::new(false);
    let tensor = create_tensor([2, 3, 4, 5], ElemType::I32, &mut queue);
    assert_eq!(tensor.strides, [60, 20, 5, 1]);
    assert_eq!(queue.size_of(tensor.handle), Some(480));
}

#[test]
fn scalar_tensor_holds_one_element() {
    let mut queue = CommandQueue::new(false);
    let shape: [usize; 0] = [];
    let tensor = create_tensor(shape, ElemType::U32, &mut queue);
    assert_eq!(queue.size_of(tensor.handle), Some(4));
}

#[test]
fn empty_dimension_takes_no_bytes() {
    let mut queue = CommandQueue::new(false);
    let tensor = create_tensor([4, 0, 3], ElemType::F32, &mut queue);
    assert_eq!(tensor.strides, [0, 3, 1]);
    assert_eq!(queue.size_of(tensor.handle), Some(0));
}

#[test]
fn handles_count_up() {
    let mut queue = CommandQueue::new(false);
    let first = create_tensor([1], ElemType::F32, &mut queue);
    let second = create_tensor([2], ElemType::F32, &mut queue);
    let third = create_uniform_buffer(&[0u8; 8], &mut queue);
    assert_eq!(first.handle.index, 0);
    assert_eq!(second.handle.index, 1);
    assert_eq!(third.handle.index, 2);
    assert_eq!(queue.allocations(), 3);
}

#[test]
fn poisoning_queue_poisons_fresh_buffers() {
    let mut queue = CommandQueue::new(true);
    assert!(queue.poisons());
    let tensor = create_tensor([10], ElemType::F32, &mut queue);
    let ops = queue.take_ops();
    assert_eq!(ops.len(), 2);
    assert!(matches!(ops[0], ClientOp::Empty { handle, size: 40 } if handle == tensor.handle));
    assert!(matches!(ops[1], ClientOp::Poison { handle } if handle == tensor.handle));
}

#[test]
fn uploaded_buffers_are_not_poisoned() {
    let mut queue = CommandQueue::new(true);
    create_uniform_buffer(&[1, 2, 3, 4], &mut queue);
    let ops = queue.take_ops();
    assert_eq!(ops.len(), 1);
    assert!(matches!(ops[0], ClientOp::Create { .. }));
}

#[test]
fn shape_fits_tells_what_a_usize_can_hold() {
    assert!(shape_fits(&[1000, 3], ElemType::F32));
    assert!(shape_fits(&[usize::MAX / 4], ElemType::F32));
    assert!(!shape_fits(&[usize::MAX / 4 + 1], ElemType::F32));
    assert!(shape_fits(&[usize::MAX / 2], ElemType::F16));
    assert!(!shape_fits(&[usize::MAX / 2], ElemType::F32));
    assert!(!shape_fits(&[usize::MAX, 2], ElemType::F16));
    assert!(!shape_fits(&[0, usize::MAX, usize::MAX], ElemType::F16));
    assert!(shape_fits(&[usize::MAX / 2, 0], ElemType::F16));
    assert!(shape_fits(&[0, usize::MAX / 2], ElemType::F32));
    assert!(shape_fits(&[0, usize::MAX], ElemType::F32));
    assert!(shape_fits(&[0, 0, usize::MAX], ElemType::F16));
    assert!(!shape_fits(&[0, usize::MAX, 2], ElemType::F32));
    assert!(shape_fits(&[2, usize::MAX / 8], ElemType::F32));
    assert!(!shape_fits(&[2, usize::MAX / 8 + 1], ElemType::F32));
    let scalar: [usize; 0] = [];
    assert!(shape_fits(&scalar, ElemType::F32));
}

#[test]
fn empty_buffer_may_have_large_strides() {
    let mut queue = CommandQueue::new(false);
    let tensor = create_tensor([0, usize::MAX / 2], ElemType::F32, &mut queue);
    assert_eq!(tensor.strides, [usize::MAX / 2, 1]);
    assert_eq!(queue.size_of(tensor.handle), Some(0));
    let ops = queue.take_ops();
    assert!(matches!(ops[0], ClientOp::Empty { size: 0, .. }));
}

#[test]
fn bytes_asked_for_are_elements_times_width() {
    let shapes: [[usize; 3]; 5] = [[1, 1, 1], [2, 3, 4], [7, 0, 9], [10, 1, 10], [5, 5, 5]];
    for shape in shapes {
        for elem in [ElemType::F32, ElemType::F16, ElemType::BF16, ElemType::I32, ElemType::U32] {
            let mut queue = CommandQueue::new(false);
            let tensor = create_tensor(shape, elem, &mut queue);
            let expected = shape[0] * shape[1] * shape[2] * elem.size();
            assert_eq!(queue.size_of(tensor.handle), Some(expected));
            assert_eq!(tensor.shape, shape);
        }
    }
}

#[test]
fn bitcast_changes_only_the_element_type() {
    let mut queue = CommandQueue::new(false);
    let floats = create_tensor([4, 6], ElemType::F32, &mut queue);
    let words = bitcast_tensor(floats, ElemType::U32);
    assert_eq!(words.handle, floats.handle);
    assert_eq!(words.shape, floats.shape);
    assert_eq!(words.strides, floats.strides);
    assert_eq!(words.elem, ElemType::U32);
    assert_eq!(queue.size_of(words.handle), Some(96));
    assert_eq!(queue.take_ops().len(), 1);
}

#[test]
fn bitcast_to_another_width_still_changes_only_the_element_type() {
    let mut queue = CommandQueue::new(false);
    let floats = create_tensor([4, 6], ElemType::F32, &mut queue);
    let halves = bitcast_tensor(floats, ElemType::F16);
    assert_eq!(halves.handle, floats.handle);
    assert_eq!(halves.shape, floats.shape);
    assert_eq!(halves.strides, floats.strides);
    assert_eq!(halves.elem, ElemType::F16);
    assert_eq!(queue.size_of(halves.handle), Some(96));
    assert_eq!(bitcast_tensor(halves, ElemType::F32), floats);
}

#[test]
fn bitcast_there_and_back_is_the_same_tensor() {
    let tensor = Tensor {
        handle: Handle { index: 7 },
        shape: [3, 5],
        strides: [5, 1],
        elem: ElemType::I32,
    };
    assert_eq!(bitcast_tensor(bitcast_tensor(tensor, ElemType::F32), ElemType::I32), tensor);
}

#[test]
fn uniform_buffer_counts_words() {
    let mut queue = CommandQueue::new(false);
    let bytes: Vec<u8> = (0u8..24).collect();
    let tensor = create_uniform_buffer(&bytes, &mut queue);
    assert_eq!(tensor.shape, [6]);
    assert_eq!(tensor.strides, [1]);
    assert_eq!(tensor.elem, ElemType::U32);
    assert_eq!(queue.size_of(tensor.handle), Some(24));
    let ops = queue.take_ops();
    assert_eq!(ops.len(), 1);
    match &ops[0] {
        ClientOp::Create { handle, data } => {
            assert_eq!(*handle, tensor.handle);
            assert_eq!(*data, bytes);
        }
        other => panic!("unexpected request {:?}", other),
    }
}

#[test]
fn uniform_bytes_decode_to_the_value_they_came_from() {
    let value: [f32; 3] = [1.5, -2.25, 1.0e-3];
    let mut bytes: Vec<u8> = Vec::new();
    for part in value {
        bytes.extend_from_slice(&part.to_ne_bytes());
    }
    let mut queue = CommandQueue::new(false);
    let tensor = create_uniform_buffer(&bytes, &mut queue);
    assert_eq!(tensor.shape, [3]);
    let ops = queue.take_ops();
    match &ops[0] {
        ClientOp::Create { data, .. } => {
            assert_eq!(data.len() % 4, 0);
            for (index, part) in value.iter().enumerate() {
                let word: [u8; 4] = [
                    data[4 * index],
                    data[4 * index + 1],
                    data[4 * index + 2],
                    data[4 * index + 3],
                ];
                assert_eq!(f32::from_ne_bytes(word).to_bits(), part.to_bits());
            }
        }
        other => panic!("unexpected request {:?}", other),
    }
}

#[test]
fn empty_uniform_buffer_has_no_words() {
    let mut queue = CommandQueue::new(false);
    let tensor = create_uniform_buffer(&[], &mut queue);
    assert_eq!(tensor.shape, [0]);
    assert_eq!(queue.size_of(tensor.handle), Some(0));
}
