use rustacuda::memory::CopyDestination;
use rustacuda::memory::DeviceBuffer;
use rustacuda::quick_init;

#[test]
fn device_test_from_slice_drop() {
    let mut ctx = quick_init().unwrap();
    let buf = DeviceBuffer::from_slice(&mut ctx, &[0u64, 1, 2, 3, 4, 5]).unwrap();
    drop(buf);
}

#[test]
fn device_test_copy_to_from_device() {
    let mut ctx = quick_init().unwrap();
    let start = vec![0u64, 1, 2, 3, 4, 5];
    let mut end = vec![0u64, 0, 0, 0, 0, 0];
    let buf = DeviceBuffer::from_slice(&mut ctx, start.as_slice()).unwrap();
    buf.copy_to(&mut end).unwrap();
    assert_eq!(start, end);
}

#[test]
fn device_test_slice() {
    let mut ctx = quick_init().unwrap();
    let start = vec![0u64, 1, 2, 3, 4, 5];
    let mut end = vec![0u64, 0];
    let mut buf = DeviceBuffer::from_slice(&mut ctx, &[0u64, 0, 0, 0]).unwrap();
    buf.copy_from(&start[0..4].to_vec()).unwrap();
    buf.slice(0, 2).copy_to(&mut end).unwrap();
    assert_eq!(&start[0..2], end.as_slice());
}

#[test]
fn device_test_copy_device_slice_to_device() {
    let mut ctx = quick_init().unwrap();
    let start = DeviceBuffer::from_slice(&mut ctx, &[0u64, 1, 2, 3, 4, 5]).unwrap();
    let mut mid = DeviceBuffer::from_slice(&mut ctx, &[0u64, 0, 0, 0]).unwrap();
    let mut end = DeviceBuffer::from_slice(&mut ctx, &[0u64, 0]).unwrap();
    let mut host_end = vec![0u64, 0];
    start.slice(1, 5).copy_to(&mut mid).unwrap();
    end.copy_from(&mid.slice(1, 3)).unwrap();
    end.copy_to(&mut host_end).unwrap();
    assert_eq!(vec![2u64, 3], host_end);
}

#[test]
fn device_buffer_test_from_slice_drop() {
    let mut ctx = quick_init().unwrap();
    let buf = DeviceBuffer::from_slice(&mut ctx, &[0u64, 1, 2, 3, 4, 5]).unwrap();
    drop(buf);
}

#[test]
fn device_buffer_test_copy_to_from_device() {
    let mut ctx = quick_init().unwrap();
    let start = vec![0u64, 1, 2, 3, 4, 5];
    let mut end = vec![0u64, 0, 0, 0, 0, 0];
    let buf = DeviceBuffer::from_slice(&mut ctx, start.as_slice()).unwrap();
    buf.copy_to(&mut end).unwrap();
    assert_eq!(start, end);
}

#[test]
fn device_buffer_test_slice() {
    let mut ctx = quick_init().unwrap();
    let start = vec![0u64, 1, 2, 3, 4, 5];
    let mut end = vec![0u64, 0];
    let mut buf = DeviceBuffer::from_slice(&mut ctx, &[0u64, 0, 0, 0]).unwrap();
    buf.copy_from(&start[0..4].to_vec()).unwrap();
    buf.slice(0, 2).copy_to(&mut end).unwrap();
    assert_eq!(&start[0..2], end.as_slice());
}

#[test]
fn device_buffer_test_copy_device_slice_to_device() {
    let mut ctx = quick_init().unwrap();
    let start = DeviceBuffer::from_slice(&mut ctx, &[0u64, 1, 2, 3, 4, 5]).unwrap();
    let mut mid = DeviceBuffer::from_slice(&mut ctx, &[0u64, 0, 0, 0]).unwrap();
    let mut end = DeviceBuffer::from_slice(&mut ctx, &[0u64, 0]).unwrap();
    let mut host_end = vec![0u64, 0];
    start.slice(1, 5).copy_to(&mut mid).unwrap();
    end.copy_from(&mid.slice(1, 3)).unwrap();
    end.copy_to(&mut host_end).unwrap();
    assert_eq!(vec![2u64, 3], host_end);
}

#[test]
fn device_buffer_split_at_copies_back_both_halves() {
    let mut ctx = quick_init().unwrap();
    let buf = DeviceBuffer::from_slice(&mut ctx, &[0u64, 1, 2, 3, 4, 5]).unwrap();
    let (left, right) = buf.split_at(3);
    let mut left_host = vec![0u64, 0, 0];
    let mut right_host = vec![0u64, 0, 0];
    left.copy_to(&mut left_host).unwrap();
    right.copy_to(&mut right_host).unwrap();
    assert_eq!(vec![0u64, 1, 2], left_host);
    assert_eq!(vec![3u64, 4, 5], right_host);
    assert_eq!(left.len() + right.len(), buf.len());
}

#[test]
fn device_buffer_split_lengths_add_up_for_every_mid() {
    let mut ctx = quick_init().unwrap();
    let buf = DeviceBuffer::from_slice(&mut ctx, &[0u64, 1, 2, 3, 4, 5]).unwrap();
    let mut mid: usize = 0;
    while mid <= buf.len() {
        let (left, right) = buf.split_at(mid);
        assert_eq!(left.len() + right.len(), buf.len());
        mid += 1;
    }
}

#[test]
fn device_buffer_chunks_of_five_by_two_are_two_two_one() {
    let mut ctx = quick_init().unwrap();
    let buf = DeviceBuffer::from_slice(&mut ctx, &[1u64, 2, 3, 4, 5]).unwrap();
    let mut iter = buf.chunks(2);

    assert_eq!(iter.next().unwrap().len(), 2);

    let mut host_buf = vec![0u64, 0];
    iter.next().unwrap().copy_to(&mut host_buf).unwrap();
    assert_eq!(vec![3u64, 4], host_buf);

    assert_eq!(iter.next().unwrap().len(), 1);
    assert!(iter.next().is_none());
}

#[test]
fn device_buffer_chunk_contents_come_in_order() {
    let mut ctx = quick_init().unwrap();
    let buf = DeviceBuffer::from_slice(&mut ctx, &[10u64, 11, 12, 13, 14]).unwrap();
    let mut iter = buf.chunks(2);
    let mut seen: Vec<u64> = Vec::new();
    loop {
        let chunk = match iter.next() {
            Some(c) => c,
            None => break,
        };
        let mut host = vec![0u64; chunk.len()];
        chunk.copy_to(&mut host).unwrap();
        seen.extend(host);
    }
    assert_eq!(seen, vec![10u64, 11, 12, 13, 14]);
}

#[test]
fn device_buffer_zero_length_allocates_nothing_but_is_not_null() {
    let mut ctx = quick_init().unwrap();
    let empty: &[u64] = &[];
    let buf = DeviceBuffer::from_slice(&mut ctx, empty).unwrap();
    assert!(buf.is_empty());
    assert_ne!(buf.as_ptr(), 0);
    assert!(DeviceBuffer::drop(buf).is_ok());
}

#[test]
fn device_buffer_from_raw_parts_adopts_the_address() {
    let mut ctx = quick_init().unwrap();
    let mut buf = DeviceBuffer::from_slice(&mut ctx, &[0u64; 5]).unwrap();
    let ptr = buf.as_device_ptr();
    let size = buf.len();
    let rebuilt: DeviceBuffer<u64> = DeviceBuffer::from_raw_parts(ptr, size);
    assert_eq!(rebuilt.len(), 5);
    assert!(DeviceBuffer::drop(rebuilt).is_ok());
}
