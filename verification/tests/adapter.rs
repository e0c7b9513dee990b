use sink_bridge::adapter::uncompress_data_write;
use sink_bridge::adapter::FlushStatus;
use sink_bridge::adapter::WriteStatus;
use sink_bridge::sink::CappedSink;
use sink_bridge::sink::FailSink;
use sink_bridge::sink::StutterSink;
use sink_bridge::sink::ThrottledSink;
use sink_bridge::sink::VecSink;

#[test]
fn simple() {
    let input: Vec<u8> = (0..=255).cycle().take(1024 * 1024 + 123).collect();
    let mut adapter = uncompress_data_write(VecSink::new());
    let mut pos = 0;
    while pos < input.len() {
        let end = if pos + 8192 < input.len() {
            pos + 8192
        } else {
            input.len()
        };
        match adapter.write(&input[pos..end]) {
            WriteStatus::Accepted(n) => {
                assert_eq!(n, end - pos);
                pos = end;
            }
            other => panic!("write did not accept: {:?}", other),
        }
    }
    loop {
        match adapter.close() {
            FlushStatus::Complete => break,
            FlushStatus::NotReady => continue,
            FlushStatus::Failed => panic!("close failed"),
        }
    }
    assert_eq!(&input, adapter.downstream().data());
}

#[test]
fn fragmented_downstream_one_byte_per_attempt() {
    let input: Vec<u8> = (0..=255).cycle().take(300).collect();
    let mut adapter = uncompress_data_write(ThrottledSink::new(1));
    assert_eq!(adapter.write(&input), WriteStatus::Accepted(300));
    assert_eq!(adapter.close(), FlushStatus::Complete);
    assert_eq!(&input, adapter.downstream().data());
}

#[test]
fn chunk_boundaries_round_trip() {
    // lengths around the scratch-buffer size, delivered seven bytes at a time
    for len in [1023usize, 1024, 1025, 2048, 4097] {
        let input: Vec<u8> = (0..=255).cycle().take(len).collect();
        let mut adapter = uncompress_data_write(ThrottledSink::new(7));
        assert_eq!(adapter.write(&input), WriteStatus::Accepted(len));
        assert_eq!(adapter.close(), FlushStatus::Complete);
        assert_eq!(&input, adapter.downstream().data());
    }
}

#[test]
fn empty_queue_mid_stream_is_not_termination() {
    let mut adapter = uncompress_data_write(VecSink::new());
    assert_eq!(adapter.write(&[1, 2, 3]), WriteStatus::Accepted(3));
    // first flush drains everything and empties the queue
    assert_eq!(adapter.flush(), FlushStatus::Complete);
    assert_eq!(adapter.downstream().data(), &vec![1, 2, 3]);
    // flushing an empty queue completes without error ...
    assert_eq!(adapter.flush(), FlushStatus::Complete);
    // ... and a later write resumes forwarding, with no state corruption
    assert_eq!(adapter.write(&[4, 5]), WriteStatus::Accepted(2));
    assert_eq!(adapter.close(), FlushStatus::Complete);
    assert_eq!(adapter.downstream().data(), &vec![1, 2, 3, 4, 5]);
}

#[test]
fn idempotent_close() {
    let mut adapter = uncompress_data_write(VecSink::new());
    assert_eq!(adapter.write(&[9, 8, 7]), WriteStatus::Accepted(3));
    assert_eq!(adapter.close(), FlushStatus::Complete);
    assert_eq!(adapter.downstream().data(), &vec![9, 8, 7]);
    // closing again after full drain is a no-op that reports success
    assert_eq!(adapter.close(), FlushStatus::Complete);
    assert_eq!(adapter.downstream().data(), &vec![9, 8, 7]);
}

#[test]
fn interleaved_writes_preserve_order() {
    let a = [1u8, 2, 3];
    let b = [4u8, 5];
    let c = [6u8, 7, 8, 9];
    let mut adapter = uncompress_data_write(StutterSink::new());
    // nothing unsent yet, so the sink is not consulted and the write lands
    assert_eq!(adapter.write(&a), WriteStatus::Accepted(3));
    // now `a` is pending: the sink stutters once, the write must be retried
    assert_eq!(adapter.write(&b), WriteStatus::NotReady);
    assert_eq!(adapter.write(&b), WriteStatus::Accepted(2));
    assert_eq!(adapter.write(&c), WriteStatus::NotReady);
    assert_eq!(adapter.write(&c), WriteStatus::Accepted(4));
    assert_eq!(adapter.close(), FlushStatus::NotReady);
    assert_eq!(adapter.close(), FlushStatus::Complete);
    assert_eq!(adapter.downstream().data(), &vec![1, 2, 3, 4, 5, 6, 7, 8, 9]);
}

#[test]
fn zero_length_write_changes_nothing() {
    let mut adapter = uncompress_data_write(VecSink::new());
    assert_eq!(adapter.write(&[]), WriteStatus::Accepted(0));
    assert_eq!(adapter.downstream().data(), &Vec::<u8>::new());
    assert_eq!(adapter.close(), FlushStatus::Complete);
    assert_eq!(adapter.downstream().data(), &Vec::<u8>::new());
    // also after something was already delivered
    assert_eq!(adapter.write(&[42]), WriteStatus::Accepted(1));
    assert_eq!(adapter.close(), FlushStatus::Complete);
    assert_eq!(adapter.write(&[]), WriteStatus::Accepted(0));
    assert_eq!(adapter.close(), FlushStatus::Complete);
    assert_eq!(adapter.downstream().data(), &vec![42]);
}

#[test]
fn downstream_failure_propagates() {
    let mut adapter = uncompress_data_write(FailSink::new());
    // accepted into the queue: the sink is not consulted while nothing is pending
    assert_eq!(adapter.write(&[1, 2, 3]), WriteStatus::Accepted(3));
    // draining reaches the sink, which fails; the failure is propagated
    assert_eq!(adapter.close(), FlushStatus::Failed);
    // a further write runs its flush first and reports the same failure
    assert_eq!(adapter.write(&[4]), WriteStatus::Failed);
    assert!(adapter.downstream().failures() >= 2);
}

#[test]
fn downstream_closure_ends_forwarding_silently() {
    let mut adapter = uncompress_data_write(CappedSink::new(2));
    assert_eq!(adapter.write(&[10, 20, 30]), WriteStatus::Accepted(3));
    // the sink takes two bytes and closes; flush treats that as completion
    assert_eq!(adapter.close(), FlushStatus::Complete);
    assert_eq!(adapter.downstream().data(), &vec![10, 20]);
    // closing again completes again, still silently
    assert_eq!(adapter.close(), FlushStatus::Complete);
    assert_eq!(adapter.downstream().data(), &vec![10, 20]);
}
