use linux_video::buffer::{Buffer, BufferM, TimeCode, TimeVal};
use linux_video::stream::{Stream, StreamAction, StreamEvent};
use linux_video::types::{BufferFlag, BufferType, ContentType, Direction, Field, Memory};

fn desc(index: u32, type_: BufferType, memory: Memory, length: u32) -> Buffer {
    Buffer {
        index,
        type_,
        bytes_used: 0,
        flags: BufferFlag::new(0),
        field: Field::Any,
        timestamp: TimeVal::zero(),
        timecode: TimeCode::zero(),
        sequence: 0,
        memory,
        m: match memory {
            Memory::Mmap => BufferM::Offset(index * 4096),
            _ => BufferM::Blank,
        },
        length,
    }
}

fn capture_stream(count: u32) -> Stream {
    let descs: Vec<Buffer> =
        (0..count).map(|i| desc(i, BufferType::VideoCapture, Memory::Mmap, 4096)).collect();
    Stream::new(Direction::In, ContentType::Video, Memory::Mmap, descs).unwrap()
}

fn output_stream(count: u32) -> Stream {
    let descs: Vec<Buffer> =
        (0..count).map(|i| desc(i, BufferType::VideoOutput, Memory::UserPtr, 16)).collect();
    Stream::new(Direction::Out, ContentType::Video, Memory::UserPtr, descs).unwrap()
}

/// Drive the start of a capture stream: prime, attach and submit every
/// slot, start.  Returns once the pool asks for its first dequeue.
fn start_capture(stream: &mut Stream) {
    let mut action = stream.step(StreamEvent::Begin).unwrap();
    while let StreamAction::Queue(_i) = action {
        let _descriptor = stream.prepare_submit();
        action = stream.step(StreamEvent::Queued).unwrap();
    }
    assert_eq!(action, StreamAction::StreamOn);
    let action = stream.step(StreamEvent::StreamedOn).unwrap();
    assert_eq!(action, StreamAction::Dequeue);
}

#[test]
fn capture_start_submits_every_slot() {
    // Immediately after a capture stream starts, all of its slots are
    // with the driver and the stream is on.
    let mut stream = capture_stream(4);
    start_capture(&mut stream);
    assert!(stream.is_on());
    assert_eq!(stream.len(), 4);
    for i in 0..4 {
        assert!(stream.queue.is_queued(i));
        assert!(!stream.queue.is_held(i));
    }
    assert_eq!(stream.queue.fifo_len(), 0);
}

#[test]
fn capture_submits_in_index_order_at_start() {
    let mut stream = capture_stream(3);
    let mut order: Vec<u32> = Vec::new();
    let mut action = stream.step(StreamEvent::Begin).unwrap();
    while let StreamAction::Queue(i) = action {
        order.push(i);
        let _descriptor = stream.prepare_submit();
        action = stream.step(StreamEvent::Queued).unwrap();
    }
    assert_eq!(order, vec![0, 1, 2]);
}

#[test]
fn output_yields_unused_slot_before_streaming() {
    // The first acquisition on a fresh output stream hands out a slot
    // that was neither queued nor held, without starting the stream.
    let mut stream = output_stream(2);
    let action = stream.step(StreamEvent::Begin).unwrap();
    match action {
        StreamAction::Yield(i) => {
            assert_eq!(i, 0);
            assert!(!stream.is_on());
            assert!(!stream.queue.is_queued(i as usize));
            assert!(stream.queue.is_held(i as usize));
        }
        other => panic!("expected a slot, got {:?}", other),
    }
    // A second acquisition still finds an unused slot.
    let action = stream.step(StreamEvent::Begin).unwrap();
    assert_eq!(action, StreamAction::Yield(1));
    assert!(!stream.is_on());
}

#[test]
fn output_starts_stream_when_no_slot_is_unused() {
    // Fill and release both slots: the next acquisition submits them,
    // finds no unused slot, and turns to the driver.
    let mut stream = output_stream(2);
    let a = match stream.step(StreamEvent::Begin).unwrap() {
        StreamAction::Yield(i) => i,
        other => panic!("expected a slot, got {:?}", other),
    };
    let b = match stream.step(StreamEvent::Begin).unwrap() {
        StreamAction::Yield(i) => i,
        other => panic!("expected a slot, got {:?}", other),
    };
    stream.release(a as usize);
    stream.release(b as usize);
    let mut action = stream.step(StreamEvent::Begin).unwrap();
    let mut submitted: Vec<u32> = Vec::new();
    while let StreamAction::Queue(i) = action {
        submitted.push(i);
        let _descriptor = stream.prepare_submit();
        action = stream.step(StreamEvent::Queued).unwrap();
    }
    assert_eq!(submitted, vec![a, b]);
    assert_eq!(action, StreamAction::StreamOn);
    let action = stream.step(StreamEvent::StreamedOn).unwrap();
    assert_eq!(action, StreamAction::Dequeue);
    assert!(stream.is_on());
}

#[test]
fn user_memory_round_trip_preserves_bytes() {
    // Write through a user-allocated region, submit the buffer, let the
    // driver echo it back unmodified: the bytes are preserved.
    let mut stream = output_stream(1);
    let i = match stream.step(StreamEvent::Begin).unwrap() {
        StreamAction::Yield(i) => i as usize,
        other => panic!("expected a slot, got {:?}", other),
    };
    let payload = [7u8, 13, 42, 99];
    for (pos, byte) in payload.iter().enumerate() {
        stream.queue.write_at(i, pos, *byte);
    }
    stream.queue.set_len(i, payload.len());
    assert_eq!(stream.queue.used_len(i), payload.len());
    stream.release(i);
    // The next acquisition submits the filled buffer.
    let action = stream.step(StreamEvent::Begin).unwrap();
    assert_eq!(action, StreamAction::Queue(i as u32));
    // Attaching writes the user memory into the descriptor.
    let attached = stream.prepare_submit();
    assert_eq!(attached.m, BufferM::UserRegion);
    assert_eq!(stream.descriptor(i).m, BufferM::UserRegion);
    let action = stream.step(StreamEvent::Queued).unwrap();
    assert_eq!(action, StreamAction::StreamOn);
    let action = stream.step(StreamEvent::StreamedOn).unwrap();
    assert_eq!(action, StreamAction::Dequeue);
    // The driver transmits the buffer and hands it back unmodified.
    let echo = stream.descriptor(i);
    let action = stream.step(StreamEvent::Completed(echo)).unwrap();
    assert_eq!(action, StreamAction::Yield(i as u32));
    for (pos, byte) in payload.iter().enumerate() {
        assert_eq!(stream.queue.read_at(i, pos), *byte);
    }
    assert_eq!(stream.queue.used_len(i), payload.len());
}

#[test]
fn set_len_clamps_to_capacity() {
    let mut stream = output_stream(1);
    let i = match stream.step(StreamEvent::Begin).unwrap() {
        StreamAction::Yield(i) => i as usize,
        other => panic!("expected a slot, got {:?}", other),
    };
    stream.queue.set_len(i, 1_000);
    assert_eq!(stream.queue.used_len(i), 16);
    assert_eq!(stream.queue.capacity(i), 16);
    stream.queue.set_len(i, 5);
    assert_eq!(stream.queue.used_len(i), 5);
}

#[test]
fn capture_acquisition_scenario() {
    // A pool of four mapped capture buffers: after start, four slots
    // exist and the stream is on; the first acquisition returns a slot
    // with its queued flag clear and the ready queue holding exactly it;
    // after its release the next acquisition resubmits it before asking
    // the driver for a new buffer.
    let mut stream = capture_stream(4);
    start_capture(&mut stream);
    assert_eq!(stream.len(), 4);
    assert!(stream.is_on());
    // The driver completes buffer 2 first.
    let mut echo = stream.descriptor(2);
    echo.sequence = 1;
    echo.bytes_used = 100;
    let action = stream.step(StreamEvent::Completed(echo)).unwrap();
    assert_eq!(action, StreamAction::Yield(2));
    assert!(!stream.queue.is_queued(2));
    assert!(!stream.descriptor(2).is_queued());
    assert_eq!(stream.queue.fifo_len(), 1);
    assert_eq!(stream.queue.fifo_at(0), 2);
    // Drop the handle; the next acquisition resubmits slot 2 before
    // dequeuing a new buffer.
    stream.release(2);
    let action = stream.step(StreamEvent::Begin).unwrap();
    assert_eq!(action, StreamAction::Queue(2));
    let _descriptor = stream.prepare_submit();
    let action = stream.step(StreamEvent::Queued).unwrap();
    assert_eq!(action, StreamAction::Dequeue);
}

#[test]
fn completion_of_unqueued_slot_is_rejected() {
    let mut stream = capture_stream(2);
    start_capture(&mut stream);
    let first = stream.descriptor(1);
    let ok = stream.step(StreamEvent::Completed(first)).unwrap();
    assert_eq!(ok, StreamAction::Yield(1));
    // Completing the same buffer again without resubmission means the
    // driver and the pool have diverged.
    let echo = stream.descriptor(1);
    let again = stream.step(StreamEvent::Completed(echo));
    assert!(again.is_err());
}

#[test]
fn shutdown_stops_and_releases() {
    let mut stream = capture_stream(2);
    start_capture(&mut stream);
    assert!(stream.is_on());
    stream.shutdown();
    assert!(!stream.is_on());
    for i in 0..2 {
        assert!(!stream.queue.is_queued(i));
    }
    // A second shutdown is harmless.
    stream.shutdown();
    assert!(!stream.is_on());
}
