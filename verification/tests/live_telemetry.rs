use chiaro::live_telemetry::{
    full_frame_is_due, CapturedTelemetrySample, LiveTelemetryProducer, LiveTelemetrySource,
    PendingBatch, BATCH_MAX_LATENCY, EVENT_WAIT_TIMEOUT, FULL_FRAME_INTERVAL,
};

const MILLISECOND: u64 = 1_000;

fn captured(captured_at: u64, packet_id: i32) -> CapturedTelemetrySample<i32> {
    CapturedTelemetrySample { captured_at, sample: packet_id }
}

#[test]
fn local_iracing_source_has_a_stable_transport_identity() {
    for on_windows in [false, true] {
        let info = LiveTelemetrySource::IracingSharedMemory.info(on_windows);

        assert_eq!(info.id(), "iracing_shared_memory");
        assert_eq!(info.display_name(), "iRacing on this PC");
        assert_eq!(info.is_available(), on_windows);
        assert_eq!(info.unavailable_reason().is_some(), !on_windows);
    }
}

#[test]
fn coalesces_two_samples_inside_the_latency_window() {
    let started_at = 5_000_000;
    let mut pending: PendingBatch<i32, (), ()> = PendingBatch::new();

    pending.push(captured(started_at, 10));
    assert!(!pending.is_due(started_at + 8 * MILLISECOND));
    assert_eq!(
        pending.wait_timeout(started_at + 8 * MILLISECOND),
        BATCH_MAX_LATENCY - 8 * MILLISECOND
    );

    pending.push(captured(started_at + 8 * MILLISECOND, 11));
    assert!(pending.is_due(started_at + 8 * MILLISECOND));

    let batch = pending.take().expect("two captured samples");
    let packet_ids = batch
        .samples
        .into_iter()
        .flatten()
        .map(|captured| captured.sample)
        .collect::<Vec<_>>();
    assert_eq!(packet_ids, vec![10, 11]);
    assert!(pending.is_empty());
    assert_eq!(pending.wait_timeout(started_at), EVENT_WAIT_TIMEOUT);
}

#[test]
fn flushes_one_sample_before_the_next_60_hz_tick() {
    let started_at = 5_000_000;
    let mut pending: PendingBatch<i32, (), ()> = PendingBatch::new();
    pending.push(captured(started_at, 0));

    assert!(!pending.is_due(started_at + BATCH_MAX_LATENCY - MILLISECOND));
    assert!(pending.is_due(started_at + BATCH_MAX_LATENCY));
    assert_eq!(pending.wait_timeout(started_at + BATCH_MAX_LATENCY), 0);

    let next_tick = started_at + 16_667;
    assert!(pending.is_due(next_tick));
    let first_batch = pending.take().expect("expired single-sample batch");
    assert_eq!(first_batch.samples.into_iter().flatten().count(), 1);

    pending.push(captured(next_tick, 0));
    assert!(!pending.is_due(next_tick));
}

#[test]
fn full_frames_are_refreshed_at_the_low_frequency_deadline() {
    let started_at = 5_000_000;
    assert!(full_frame_is_due(None, started_at));
    assert!(!full_frame_is_due(
        Some(started_at),
        started_at + FULL_FRAME_INTERVAL - MILLISECOND
    ));
    assert!(full_frame_is_due(Some(started_at), started_at + FULL_FRAME_INTERVAL));
}

#[test]
fn a_full_batch_takes_no_third_sample() {
    let mut pending: PendingBatch<i32, (), ()> = PendingBatch::new();
    pending.push(captured(0, 1));
    pending.push(captured(1, 2));
    pending.push(captured(2, 3));
    assert!(pending.is_due(2));
    let batch = pending.take().expect("full batch");
    let ids: Vec<i32> = batch.samples.into_iter().flatten().map(|c| c.sample).collect();
    assert_eq!(ids, vec![1, 2]);
    assert!(pending.take().is_none());
}

#[test]
fn a_clock_that_steps_back_keeps_the_batch_waiting() {
    let mut pending: PendingBatch<i32, (), ()> = PendingBatch::new();
    pending.push(captured(100_000, 1));
    assert!(!pending.is_due(50_000));
    assert_eq!(pending.wait_timeout(50_000), BATCH_MAX_LATENCY);
}

#[test]
fn the_producer_announces_the_connection_once_and_reads_per_batch() {
    let mut producer: LiveTelemetryProducer<i32, &str, &str> = LiveTelemetryProducer::new();
    let first = producer.accept_sample(1, 0);
    assert!(first.announce_connected);
    assert!(first.flushed.is_none());
    assert!(first.read_session_info);
    assert!(first.read_full_frame);
    producer.session_info_read(Some("info"));
    producer.full_frame_read(Some("frame"), 0);

    let second = producer.accept_sample(2, 8 * MILLISECOND);
    assert!(!second.announce_connected);
    assert!(second.flushed.is_none());
    assert!(!second.read_session_info);
    assert!(!second.read_full_frame);

    let batch = producer.flush_due(8 * MILLISECOND).expect("a full batch is due");
    assert_eq!(batch.latest_frame, Some("frame"));
    assert_eq!(batch.session_info, Some("info"));
    assert!(producer.flush_all().is_none());

    let third = producer.accept_sample(3, 20 * MILLISECOND);
    assert!(third.read_session_info);
    assert!(!third.read_full_frame);
    let fourth = producer.accept_sample(4, FULL_FRAME_INTERVAL + 40 * MILLISECOND);
    let flushed = fourth.flushed.expect("the waiting batch fell due before the sample");
    assert_eq!(flushed.samples.into_iter().flatten().count(), 1);
    assert!(fourth.read_full_frame);
    assert!(producer.wait_timeout(FULL_FRAME_INTERVAL + 40 * MILLISECOND) <= BATCH_MAX_LATENCY);
}

#[test]
fn the_producer_waits_until_its_batch_falls_due() {
    let mut producer: LiveTelemetryProducer<i32, &str, &str> = LiveTelemetryProducer::new();
    assert_eq!(producer.wait_timeout(5 * MILLISECOND), EVENT_WAIT_TIMEOUT);
    producer.accept_sample(1, 10 * MILLISECOND);
    assert_eq!(producer.wait_timeout(10 * MILLISECOND), BATCH_MAX_LATENCY);
    assert_eq!(producer.wait_timeout(13 * MILLISECOND), BATCH_MAX_LATENCY - 3 * MILLISECOND);
    assert_eq!(producer.wait_timeout(10 * MILLISECOND + BATCH_MAX_LATENCY + 1), 0);
}
