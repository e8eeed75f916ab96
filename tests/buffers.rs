use violette::base::{BindingPoint, Context};
use violette::buffer::{next_multiple, pad_elements, unpad_elements, Buffer, BufferKind, BufferUsageHint, MappedBufferData};
use violette::calls::GlCall;
use violette::utils::Error;

fn float_bytes(values: &[f32]) -> Vec<u8> {
    values.iter().flat_map(|v| v.to_ne_bytes()).collect()
}

#[test]
fn next_multiple_rounds_up() {
    assert_eq!(next_multiple(4, 256), 256);
    assert_eq!(next_multiple(256, 256), 256);
    assert_eq!(next_multiple(257, 256), 512);
    assert_eq!(next_multiple(12, 4), 12);
    assert_eq!(next_multiple(13, 4), 16);
}

#[test]
fn upload_three_floats_and_read_back() {
    let mut ctx = Context::new(256, true);
    let data = float_bytes(&[1.0, 2.0, 3.0]);
    let mut b = Buffer::new(&ctx, 1, BufferKind::Array, 4).unwrap();
    assert!(b.is_empty());
    b.set(&mut ctx, &data, BufferUsageHint::Static).unwrap();
    assert_eq!(b.len(), 3);
    let calls = ctx.take_calls();
    assert_eq!(calls.len(), 3);
    match &calls[1] {
        GlCall::BufferData { kind, bytes, usage } => {
            assert_eq!(*kind, BufferKind::Array);
            assert_eq!(bytes, &data);
            assert_eq!(*usage, BufferUsageHint::Static);
        }
        other => panic!("unexpected call {:?}", other),
    }
    let slice = b.slice(0, 3).unwrap();
    assert_eq!(slice.offset(), 0);
    assert_eq!(slice.size(), 12);
    let guard = slice.read(&mut ctx);
    let calls = ctx.take_calls();
    assert!(matches!(calls[1], GlCall::MapRead { offset: 0, size: 12, .. }));
    let mapped = MappedBufferData::new(&slice, guard, &data).unwrap();
    let back: Vec<f32> = mapped
        .data()
        .chunks(4)
        .map(|c| f32::from_ne_bytes([c[0], c[1], c[2], c[3]]))
        .collect();
    assert_eq!(back, vec![1.0, 2.0, 3.0]);
    mapped.unmap(&mut ctx);
    assert_eq!(ctx.current(BindingPoint::Buffer(BufferKind::Array)), None);
}

#[test]
fn uniform_elements_are_padded_to_alignment() {
    let mut ctx = Context::new(256, true);
    let mut b = Buffer::new(&ctx, 2, BufferKind::Uniform, 12).unwrap();
    assert_eq!(b.stride(), 256);
    let data: Vec<u8> = (0u8..24).collect();
    b.set(&mut ctx, &data, BufferUsageHint::Dynamic).unwrap();
    assert_eq!(b.len(), 2);
    let calls = ctx.take_calls();
    let uploaded = match &calls[1] {
        GlCall::BufferData { bytes, .. } => bytes.clone(),
        other => panic!("unexpected call {:?}", other),
    };
    assert_eq!(uploaded.len(), 512);
    assert_eq!(&uploaded[0..12], &data[0..12]);
    assert!(uploaded[12..256].iter().all(|&x| x == 0));
    assert_eq!(&uploaded[256..268], &data[12..24]);
    let slice = b.slice(0, 2).unwrap();
    let guard = slice.read(&mut ctx);
    let mapped = MappedBufferData::new(&slice, guard, &uploaded).unwrap();
    assert_eq!(mapped.data(), &data[..]);
}

#[test]
fn uniform_offset_is_index_times_aligned_size() {
    let ctx = Context::new(256, true);
    let mut ctx2 = Context::new(256, true);
    let mut b = Buffer::new(&ctx, 3, BufferKind::Uniform, 100).unwrap();
    b.set(&mut ctx2, &vec![1u8; 500], BufferUsageHint::Static).unwrap();
    assert_eq!(b.at(0).unwrap().offset(), 0);
    assert_eq!(b.at(3).unwrap().offset(), 768);
    assert_eq!(b.at(4).unwrap().offset(), 1024);
    assert!(matches!(b.at(5), Err(Error::OutOfBounds)));
    let ctx64 = Context::new(64, true);
    let c = Buffer::new(&ctx64, 4, BufferKind::Uniform, 64).unwrap();
    assert_eq!(c.stride(), 64);
}

#[test]
fn array_offsets_are_tight() {
    let mut ctx = Context::new(256, true);
    let mut b = Buffer::new(&ctx, 3, BufferKind::Array, 8).unwrap();
    b.set(&mut ctx, &[0u8; 32], BufferUsageHint::Stream).unwrap();
    assert_eq!(b.at(3).unwrap().offset(), 24);
    let s = b.slice(1, 3).unwrap();
    assert_eq!((s.offset(), s.size()), (8, 16));
    assert!(matches!(b.slice(2, 5), Err(Error::OutOfBounds)));
    assert!(matches!(b.slice(3, 2), Err(Error::OutOfBounds)));
}

#[test]
fn buffer_construction_errors() {
    let ctx = Context::new(256, true);
    assert!(matches!(Buffer::new(&ctx, 1, BufferKind::Array, 0), Err(Error::ZeroSizedElement)));
    assert!(matches!(Buffer::new(&ctx, 0, BufferKind::Array, 4), Err(Error::NullHandle)));
    assert!(matches!(Buffer::new(&ctx, 1, BufferKind::Uniform, usize::MAX), Err(Error::OutOfBounds)));
}

#[test]
fn partial_element_is_refused() {
    let mut ctx = Context::new(256, true);
    let mut b = Buffer::new(&ctx, 1, BufferKind::Array, 4).unwrap();
    assert!(matches!(
        b.set(&mut ctx, &[1, 2, 3, 4, 5], BufferUsageHint::Static),
        Err(Error::PartialElement { len: 5, element_size: 4 })
    ));
    assert_eq!(b.len(), 0);
    assert!(ctx.take_calls().is_empty());
}

#[test]
fn with_data_uploads_statically() {
    let mut ctx = Context::new(256, true);
    let b = Buffer::with_data(&mut ctx, 6, BufferKind::ElementArray, 2, &[0, 0, 1, 0, 2, 0]).unwrap();
    assert_eq!(b.len(), 3);
    assert_eq!(b.kind(), BufferKind::ElementArray);
    let calls = ctx.take_calls();
    assert!(matches!(calls[1], GlCall::BufferData { usage: BufferUsageHint::Static, .. }));
}

#[test]
fn slice_writes_are_checked_and_padded() {
    let mut ctx = Context::new(16, true);
    let mut b = Buffer::new(&ctx, 8, BufferKind::Uniform, 4).unwrap();
    b.set(&mut ctx, &[0u8; 12], BufferUsageHint::Static).unwrap();
    ctx.take_calls();
    let s = b.slice(1, 3).unwrap();
    assert_eq!(s.alignment(), 16);
    assert!(matches!(s.set_all(&mut ctx, &[1u8; 4]), Err(Error::DataLength { expected: 8, actual: 4 })));
    s.set_all(&mut ctx, &[1, 2, 3, 4, 5, 6, 7, 8]).unwrap();
    let calls = ctx.take_calls();
    match &calls[1] {
        GlCall::WriteRange { offset, bytes, .. } => {
            assert_eq!(*offset, 16);
            assert_eq!(bytes.len(), 32);
            assert_eq!(&bytes[16..20], &[5, 6, 7, 8]);
        }
        other => panic!("unexpected call {:?}", other),
    }
    s.set(&mut ctx, 1, &[9, 9, 9, 9]).unwrap();
    let calls = ctx.take_calls();
    assert!(matches!(calls[1], GlCall::WriteRange { offset: 32, .. }));
    assert!(matches!(s.set(&mut ctx, 2, &[9, 9, 9, 9]), Err(Error::OutOfBounds)));
}

#[test]
fn mapped_length_must_match() {
    let mut ctx = Context::new(256, true);
    let mut b = Buffer::new(&ctx, 1, BufferKind::Array, 4).unwrap();
    b.set(&mut ctx, &[0u8; 8], BufferUsageHint::Static).unwrap();
    let s = b.slice(0, 2).unwrap();
    let g = s.read(&mut ctx);
    assert!(matches!(MappedBufferData::new(&s, g, &[0u8; 4]), Err(Error::DataLength { expected: 8, actual: 4 })));
}

#[test]
fn padding_helpers_exact_values() {
    assert_eq!(pad_elements(&[1, 2, 3, 4], 2, 3), vec![1, 2, 0, 3, 4, 0]);
    assert_eq!(unpad_elements(&[1, 2, 0, 3, 4, 0], 2, 3), vec![1, 2, 3, 4]);
    assert_eq!(pad_elements(&[], 2, 3), Vec::<u8>::new());
}

#[test]
fn buffer_delete_is_queued() {
    let mut ctx = Context::new(256, true);
    let b = Buffer::new(&ctx, 12, BufferKind::Array, 4).unwrap();
    b.delete(&mut ctx);
    assert!(matches!(ctx.take_calls()[0], GlCall::DeleteBuffer { id: 12 }));
}

#[test]
fn unmap_queues_unmap_then_restore() {
    let mut ctx = Context::new(256, true);
    let mut b = Buffer::new(&ctx, 1, BufferKind::Array, 4).unwrap();
    b.set(&mut ctx, &[0u8; 8], BufferUsageHint::Static).unwrap();
    let s = b.slice(0, 2).unwrap();
    let g = s.read(&mut ctx);
    ctx.take_calls();
    MappedBufferData::new(&s, g, &[0u8; 8]).unwrap().unmap(&mut ctx);
    let calls = ctx.take_calls();
    assert_eq!(calls.len(), 2);
    assert!(matches!(calls[0], GlCall::Unmap { kind: BufferKind::Array }));
    assert!(matches!(calls[1], GlCall::Bind { id: 0, .. }));
}
