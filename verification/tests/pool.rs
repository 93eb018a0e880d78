use linux_video::buffer::{Buffer, BufferM, MemRegion, TimeCode, TimeVal};
use linux_video::pool::QueueData;
use linux_video::types::{BufferFlag, BufferType, ContentType, Direction, Field, Memory};
use linux_video::utils::ErrorKind;

fn desc(index: u32, type_: BufferType, memory: Memory, length: u32) -> Buffer {
    Buffer {
        index,
        type_,
        bytes_used: 0,
        flags: BufferFlag::new(0),
        field: Field::Any,
        timestamp: TimeVal::zero(),
        timecode: TimeCode::zero(),
        sequence: 0,
        memory,
        m: match memory {
            Memory::Mmap => BufferM::Offset(index * 4096),
            _ => BufferM::Blank,
        },
        length,
    }
}

fn capture_descs(count: u32) -> Vec<Buffer> {
    (0..count).map(|i| desc(i, BufferType::VideoCapture, Memory::Mmap, 4096)).collect()
}

fn output_user_descs(count: u32) -> Vec<Buffer> {
    (0..count).map(|i| desc(i, BufferType::VideoOutput, Memory::UserPtr, 64)).collect()
}

#[test]
fn pool_uses_driver_count_not_request() {
    // The caller asked the driver for eight buffers, the driver granted
    // three: the pool is sized by the three reported descriptors.
    let descs = capture_descs(3);
    let pool = QueueData::new(Direction::In, ContentType::Video, Memory::Mmap, descs).unwrap();
    assert_eq!(pool.len(), 3);
    assert!(!pool.is_on());
    assert_eq!(pool.fifo_len(), 0);
    for i in 0..3 {
        assert!(!pool.is_queued(i));
        assert!(!pool.is_held(i));
        assert_eq!(pool.descriptor(i).index, i as u32);
    }
}

#[test]
fn pool_rejects_mismatched_descriptors() {
    // A descriptor whose index does not match its position is malformed.
    let mut descs = capture_descs(2);
    descs[1].index = 5;
    let r = QueueData::new(Direction::In, ContentType::Video, Memory::Mmap, descs);
    assert_eq!(r.err().unwrap().kind(), ErrorKind::InvalidData);
}

#[test]
fn pool_rejects_non_streaming_memory() {
    let descs = capture_descs(1);
    let r = QueueData::new(Direction::In, ContentType::Video, Memory::Overlay, descs);
    assert_eq!(r.err().unwrap().kind(), ErrorKind::InvalidInput);
}

#[test]
fn held_slot_never_selected() {
    // Hand out every slot, then check that a held slot is not a
    // resubmission candidate, is skipped by the unused scan, and is
    // rejected as a completion result.
    let mut pool =
        QueueData::new(Direction::Out, ContentType::Video, Memory::UserPtr, output_user_descs(2))
            .unwrap();
    let a = pool.acquire_unused().unwrap();
    assert_eq!(a, 0);
    // Slot 0 is held and at the front: nothing may be resubmitted.
    assert_eq!(pool.ready_front(), None);
    // The unused scan skips the held slot and picks the next free one.
    let b = pool.acquire_unused().unwrap();
    assert_eq!(b, 1);
    // A completion reporting a held slot is a protocol violation.
    let mut echo = pool.descriptor(0);
    echo.index = 0;
    let r = pool.complete(echo);
    assert_eq!(r.err().unwrap().kind(), ErrorKind::ProtocolViolation);
}

#[test]
fn completion_out_of_range_is_protocol_violation() {
    let mut pool =
        QueueData::new(Direction::In, ContentType::Video, Memory::Mmap, capture_descs(2)).unwrap();
    let mut echo = pool.descriptor(0);
    echo.index = 7;
    let r = pool.complete(echo);
    assert_eq!(r.err().unwrap().kind(), ErrorKind::ProtocolViolation);
}

#[test]
fn resubmission_follows_hand_out_order() {
    // Slots enter the ready queue in the order 0, 1, 2.  While 1 is still
    // held, only 0 may be submitted; 2 must wait even though it is ready.
    let mut pool =
        QueueData::new(Direction::Out, ContentType::Video, Memory::UserPtr, output_user_descs(3))
            .unwrap();
    assert_eq!(pool.acquire_unused(), Some(0));
    assert_eq!(pool.acquire_unused(), Some(1));
    assert_eq!(pool.acquire_unused(), Some(2));
    pool.release(0);
    pool.release(2);
    // Only the front is a candidate, and it is slot 0.
    assert_eq!(pool.ready_front(), Some(0));
    let _ = pool.prepare_submit();
    pool.confirm_queued();
    // Slot 1 is still held: slot 2 is not submitted ahead of it.
    assert_eq!(pool.ready_front(), None);
    pool.release(1);
    assert_eq!(pool.ready_front(), Some(1));
    let _ = pool.prepare_submit();
    pool.confirm_queued();
    assert_eq!(pool.ready_front(), Some(2));
}

#[test]
fn stream_off_is_idempotent() {
    // Prime and submit everything, then stop the stream twice: the second
    // stop changes nothing.
    let mut pool =
        QueueData::new(Direction::In, ContentType::Video, Memory::Mmap, capture_descs(2)).unwrap();
    pool.dequeue_all();
    while let Some(_i) = pool.ready_front() {
        let _ = pool.prepare_submit();
        pool.confirm_queued();
    }
    pool.set_on();
    assert!(pool.is_on());
    pool.set_off();
    assert!(!pool.is_on());
    let fifo_after_first: Vec<u32> = (0..pool.fifo_len()).map(|k| pool.fifo_at(k)).collect();
    let descs_after_first: Vec<Buffer> = (0..pool.len()).map(|i| pool.descriptor(i)).collect();
    pool.set_off();
    assert!(!pool.is_on());
    let fifo_after_second: Vec<u32> = (0..pool.fifo_len()).map(|k| pool.fifo_at(k)).collect();
    let descs_after_second: Vec<Buffer> = (0..pool.len()).map(|i| pool.descriptor(i)).collect();
    assert_eq!(fifo_after_first, fifo_after_second);
    assert_eq!(descs_after_first, descs_after_second);
    for i in 0..pool.len() {
        assert!(!pool.is_queued(i));
    }
}

#[test]
fn stream_off_releases_queued_buffers() {
    // Stopping the stream implicitly dequeues every queued buffer: they
    // all join the ready queue in index order.
    let mut pool =
        QueueData::new(Direction::In, ContentType::Video, Memory::Mmap, capture_descs(3)).unwrap();
    pool.dequeue_all();
    while let Some(_i) = pool.ready_front() {
        let _ = pool.prepare_submit();
        pool.confirm_queued();
    }
    pool.set_on();
    assert_eq!(pool.fifo_len(), 0);
    pool.set_off();
    assert_eq!(pool.fifo_len(), 3);
    for k in 0..3 {
        assert_eq!(pool.fifo_at(k), k as u32);
        assert!(!pool.is_queued(k));
    }
}

#[test]
fn completion_merges_driver_metadata() {
    // The driver's fresh metadata lands in the slot, with the slot's
    // identity and capacity pinned and the used length clamped.
    let mut pool =
        QueueData::new(Direction::In, ContentType::Video, Memory::Mmap, capture_descs(1)).unwrap();
    pool.dequeue_all();
    let _ = pool.prepare_submit();
    pool.confirm_queued();
    assert!(pool.is_queued(0));
    let mut echo = pool.descriptor(0);
    echo.bytes_used = 1_000_000;  // over the 4096-byte capacity
    echo.sequence = 42;
    echo.timestamp = TimeVal { sec: 7, usec: 9 };
    let got = pool.complete(echo).unwrap();
    assert_eq!(got, 0);
    let after = pool.descriptor(0);
    assert_eq!(after.bytes_used, 4096);
    assert_eq!(after.length, 4096);
    assert_eq!(after.sequence, 42);
    assert_eq!(after.timestamp, TimeVal { sec: 7, usec: 9 });
    assert!(!after.is_queued());
    assert!(pool.is_held(0));
    assert!(!pool.is_queued(0));
}

#[test]
fn mapped_region_length_matches_descriptor() {
    let d = desc(0, BufferType::VideoCapture, Memory::Mmap, 4096);
    let region = MemRegion::init(Memory::Mmap, &d);
    assert_eq!(region.len(), 4096);
    let d2 = desc(1, BufferType::VideoOutput, Memory::UserPtr, 321);
    let region2 = MemRegion::init(Memory::UserPtr, &d2);
    assert_eq!(region2.len(), 321);
}
