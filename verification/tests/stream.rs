use rustacuda::function::{BlockSize, Function, GridSize};
use rustacuda::memory::{AsyncCopyDestination, DeviceBuffer, LockedBuffer};
use rustacuda::quick_init;
use rustacuda::stream::{Stream, StreamFlags, StreamOp};

#[test]
fn stream_callbacks_fire_in_enqueue_order() {
    let mut stream = Stream::new(StreamFlags::non_blocking(), None).unwrap();

    stream.add_callback(1).unwrap();
    stream.add_callback(2).unwrap();
    stream.add_callback(3).unwrap();
    stream.synchronize().unwrap();

    let completed = stream.completed_ops();
    assert_eq!(
        completed.as_slice(),
        &[
            StreamOp::Callback { token: 1 },
            StreamOp::Callback { token: 2 },
            StreamOp::Callback { token: 3 },
        ]
    );
}

#[test]
fn stream_keeps_order_across_joins() {
    let mut stream = Stream::new(StreamFlags::non_blocking(), None).unwrap();

    stream.add_callback(1).unwrap();
    stream.synchronize().unwrap();
    stream.add_callback(2).unwrap();
    stream.add_callback(3).unwrap();
    stream.synchronize().unwrap();

    let completed = stream.completed_ops();
    assert_eq!(
        completed.as_slice(),
        &[
            StreamOp::Callback { token: 1 },
            StreamOp::Callback { token: 2 },
            StreamOp::Callback { token: 3 },
        ]
    );
}

#[test]
fn stream_reports_flags_and_priority() {
    let stream = Stream::new(StreamFlags::non_blocking(), None).unwrap();
    assert_eq!(StreamFlags::non_blocking(), stream.get_flags().unwrap());
    assert_eq!(0, stream.get_priority().unwrap());

    let stream = Stream::new(StreamFlags::non_blocking(), Some(1)).unwrap();
    assert_eq!(1, stream.get_priority().unwrap());
}

#[test]
fn stream_flags_truncate_unknown_bits() {
    assert_eq!(StreamFlags::from_bits_truncate(0xff), StreamFlags::non_blocking());
    assert_eq!(StreamFlags::from_bits_truncate(0xfe), StreamFlags::empty());
}

#[test]
fn stream_records_a_launch_in_order() {
    let mut stream = Stream::new(StreamFlags::non_blocking(), None).unwrap();
    let func = Function::from_raw(0x77);

    stream
        .launch(&func, GridSize::x(1), BlockSize::x(128), 0, vec![10, 20])
        .unwrap();
    assert_eq!(stream.pending_ops().len(), 1);
    stream.synchronize().unwrap();

    let completed = stream.completed_ops();
    assert_eq!(completed.len(), 1);
    assert!(matches!(completed[0], StreamOp::Launch { func: 0x77, .. }));
    assert!(stream.pending_ops().is_empty());
    assert!(Stream::drop(stream).is_ok());
}

#[test]
fn async_copies_move_data_and_are_stream_ordered() {
    let mut ctx = quick_init().unwrap();
    let mut stream = Stream::new(StreamFlags::non_blocking(), None).unwrap();

    let staged = LockedBuffer::from_slice(&mut ctx, &[1u64, 2, 3, 4]).unwrap();
    let mut dev: DeviceBuffer<u64> = DeviceBuffer::from_slice(&mut ctx, &[0u64; 4]).unwrap();
    let mut back = LockedBuffer::new(&mut ctx, &0u64, 4).unwrap();

    dev.async_copy_from(&staged, &mut stream).unwrap();
    dev.async_copy_to(&mut back, &mut stream).unwrap();
    stream.synchronize().unwrap();

    assert_eq!(back.as_slice(), &[1u64, 2, 3, 4]);
    let completed = stream.completed_ops();
    assert_eq!(
        completed.as_slice(),
        &[StreamOp::Transfer { bytes: 32 }, StreamOp::Transfer { bytes: 32 }]
    );
}

#[test]
fn grid_and_block_sizes_convert_from_integers_and_tuples() {
    assert_eq!(GridSize::from(4u32), GridSize::xyz(4, 1, 1));
    assert_eq!(GridSize::from((2u32, 3u32)), GridSize::xyz(2, 3, 1));
    assert_eq!(GridSize::from((2u32, 3u32, 4u32)), GridSize::xyz(2, 3, 4));
    assert_eq!(BlockSize::from(128u32), BlockSize::xyz(128, 1, 1));
    assert_eq!(BlockSize::from((8u32, 8u32)), BlockSize::xyz(8, 8, 1));
    assert_eq!(BlockSize::from((4u32, 4u32, 4u32)), BlockSize::xyz(4, 4, 4));
}
