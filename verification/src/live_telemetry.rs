//! How live telemetry samples are batched on their way to the desktop.
//!
//! Times are microseconds on a monotonic clock, and durations are
//! microseconds too.
use vstd::prelude::*;

verus! {

/// How long one wait for an SDK update may last.
pub const EVENT_WAIT_TIMEOUT: u64 = 250_000;

/// How long the first sample of a batch may wait for company.
pub const BATCH_MAX_LATENCY: u64 = 16_000;

/// How many samples one batch holds.
pub const BATCH_SAMPLE_CAPACITY: usize = 2;

/// How often the full SDK frame is read again.
pub const FULL_FRAME_INTERVAL: u64 = 1_000_000;

/// The identifier of the local iRacing transport.
pub const IRACING_SHARED_MEMORY_ID: &'static str = "iracing_shared_memory";

/// The display name of the local iRacing transport.
pub const IRACING_SHARED_MEMORY_NAME: &'static str = "iRacing on this PC";

/// Why the local iRacing transport is missing off Windows.
pub const IRACING_WINDOWS_ONLY_REASON: &'static str =
    "Live iRacing telemetry is available only on Windows; IBT recordings remain available.";

/// What the desktop shows of a live telemetry transport.
#[derive(Debug, Clone, Copy, PartialEq, Eq)]
pub struct LiveTelemetrySourceInfo {
    pub id: &'static str,
    pub display_name: &'static str,
    pub unavailable_reason: Option<&'static str>,
}

impl LiveTelemetrySourceInfo {
    /// A transport that can be used here.
    pub fn available(id: &'static str, display_name: &'static str) -> (r: Self)
        ensures
            r.id == id,
            r.display_name == display_name,
            r.unavailable_reason is None,
    {
        LiveTelemetrySourceInfo { id, display_name, unavailable_reason: None }
    }

    /// A transport that cannot be used here, and why.
    pub fn unavailable(id: &'static str, display_name: &'static str, reason: &'static str) -> (r: Self)
        ensures
            r.id == id,
            r.display_name == display_name,
            r.unavailable_reason == Some(reason),
    {
        LiveTelemetrySourceInfo { id, display_name, unavailable_reason: Some(reason) }
    }

    pub fn id(&self) -> (r: &'static str)
        ensures
            r == self.id,
    {
        self.id
    }

    pub fn display_name(&self) -> (r: &'static str)
        ensures
            r == self.display_name,
    {
        self.display_name
    }

    pub fn unavailable_reason(&self) -> (r: Option<&'static str>)
        ensures
            r == self.unavailable_reason,
    {
        self.unavailable_reason
    }

    /// Whether the transport can be used here.
    pub fn is_available(&self) -> (r: bool)
        ensures
            r == (self.unavailable_reason is None),
    {
        self.unavailable_reason.is_none()
    }
}

/// A selectable live telemetry transport.
#[derive(Debug, Clone, Copy, PartialEq, Eq, Hash)]
pub enum LiveTelemetrySource {
    IracingSharedMemory,
}

impl Default for LiveTelemetrySource {
    fn default() -> (r: Self)
        ensures
            r == LiveTelemetrySource::IracingSharedMemory,
    {
        LiveTelemetrySource::IracingSharedMemory
    }
}

impl LiveTelemetrySource {
    /// What the desktop shows of this transport; `on_windows` says whether the
    /// program runs on Windows, the only system with iRacing shared memory.
    pub fn info(&self, on_windows: bool) -> (r: LiveTelemetrySourceInfo)
        ensures
            r.id == IRACING_SHARED_MEMORY_ID,
            r.display_name == IRACING_SHARED_MEMORY_NAME,
            r.unavailable_reason == (if on_windows {
                None
            } else {
                Some(IRACING_WINDOWS_ONLY_REASON)
            }),
    {
        match self {
            LiveTelemetrySource::IracingSharedMemory => {
                if on_windows {
                    LiveTelemetrySourceInfo::available(
                        IRACING_SHARED_MEMORY_ID,
                        IRACING_SHARED_MEMORY_NAME,
                    )
                } else {
                    LiveTelemetrySourceInfo::unavailable(
                        IRACING_SHARED_MEMORY_ID,
                        IRACING_SHARED_MEMORY_NAME,
                        IRACING_WINDOWS_ONLY_REASON,
                    )
                }
            },
        }
    }
}

/// One telemetry sample, stamped when it was copied from iRacing.
#[derive(Debug, Clone, Copy, PartialEq)]
pub struct CapturedTelemetrySample<S> {
    pub captured_at: u64,
    pub sample: S,
}

/// A small producer batch: samples of one short burst, the latest full frame
/// when it was read again, and the session information when it changed.
#[derive(Debug)]
pub struct LiveTelemetryBatch<S, F, I> {
    pub samples: [Option<CapturedTelemetrySample<S>>; 2],
    pub latest_frame: Option<F>,
    pub session_info: Option<I>,
}

impl<S: Copy, F, I> Default for LiveTelemetryBatch<S, F, I> {
    fn default() -> (r: Self)
        ensures
            r.samples[0] is None,
            r.samples[1] is None,
            r.latest_frame is None,
            r.session_info is None,
    {
        LiveTelemetryBatch { samples: [None, None], latest_frame: None, session_info: None }
    }
}

/// The samples that a batch holds, in the order in which they came.
pub open spec fn batch_samples<S, F, I>(batch: LiveTelemetryBatch<S, F, I>) -> Seq<CapturedTelemetrySample<S>> {
    match (batch.samples[0], batch.samples[1]) {
        (Some(a), Some(b)) => seq![a, b],
        (Some(a), None) => seq![a],
        (None, Some(b)) => seq![b],
        (None, None) => seq![],
    }
}

/// The batch that is being filled. It started when its first sample was
/// captured.
#[derive(Debug)]
pub struct PendingBatch<S, F, I> {
    batch: LiveTelemetryBatch<S, F, I>,
}

impl<S, F, I> PendingBatch<S, F, I> {
    /// The slots fill from the front.
    #[verifier::type_invariant]
    spec fn inv(self) -> bool {
        self.batch.samples[1] is Some ==> self.batch.samples[0] is Some
    }
}

impl<S: Copy, F, I> PendingBatch<S, F, I> {
    /// The samples waiting, in the order in which they came.
    pub closed spec fn spec_samples(&self) -> Seq<CapturedTelemetrySample<S>> {
        batch_samples(self.batch)
    }

    /// When the first waiting sample was captured.
    pub open spec fn spec_started_at(&self) -> Option<u64> {
        if self.spec_samples().len() > 0 {
            Some(self.spec_samples()[0].captured_at)
        } else {
            None
        }
    }

    /// The full frame that goes with the waiting samples.
    pub closed spec fn spec_latest_frame(&self) -> Option<F> {
        self.batch.latest_frame
    }

    /// The session information that goes with the waiting samples.
    pub closed spec fn spec_session_info(&self) -> Option<I> {
        self.batch.session_info
    }

    /// Whether the waiting samples should leave at `now`.
    pub open spec fn is_due_at(&self, now: u64) -> bool {
        self.spec_samples().len() > 0 && (self.spec_samples().len() == BATCH_SAMPLE_CAPACITY || (
        self.spec_started_at() matches Some(started) && now >= started && now - started
            >= BATCH_MAX_LATENCY))
    }

    /// An empty batch.
    pub fn new() -> (r: Self)
        ensures
            r.spec_samples().len() == 0,
            r.spec_started_at() is None,
            r.spec_latest_frame() is None,
            r.spec_session_info() is None,
    {
        PendingBatch { batch: LiveTelemetryBatch::default() }
    }

    /// Whether no sample is waiting.
    pub fn is_empty(&self) -> (r: bool)
        ensures
            r == (self.spec_samples().len() == 0),
    {
        proof {
            use_type_invariant(self);
        }
        self.batch.samples[0].is_none()
    }

    /// Adds `sample` behind the waiting ones; a full batch takes no more.
    pub fn push(&mut self, sample: CapturedTelemetrySample<S>)
        ensures
            old(self).spec_samples().len() < BATCH_SAMPLE_CAPACITY ==> final(self).spec_samples()
                == old(self).spec_samples().push(sample),
            old(self).spec_samples().len() >= BATCH_SAMPLE_CAPACITY ==> final(self).spec_samples()
                == old(self).spec_samples(),
            final(self).spec_started_at() == (match old(self).spec_started_at() {
                Some(t) => Some(t),
                None => Some(sample.captured_at),
            }),
            final(self).spec_latest_frame() == old(self).spec_latest_frame(),
            final(self).spec_session_info() == old(self).spec_session_info(),
    {
        proof {
            use_type_invariant(&*self);
        }
        let first = self.batch.samples[0];
        let second = self.batch.samples[1];
        if first.is_none() {
            self.batch.samples = [Some(sample), None];
        } else if second.is_none() {
            self.batch.samples = [first, Some(sample)];
        }
    }

    /// Attaches the full frame that was read with the first sample.
    pub fn set_latest_frame(&mut self, frame: Option<F>)
        ensures
            final(self).spec_latest_frame() == frame,
            final(self).spec_samples() == old(self).spec_samples(),
            final(self).spec_started_at() == old(self).spec_started_at(),
            final(self).spec_session_info() == old(self).spec_session_info(),
    {
        proof {
            use_type_invariant(&*self);
        }
        self.batch.latest_frame = frame;
    }

    /// Attaches the session information that was read with the first sample.
    pub fn set_session_info(&mut self, info: Option<I>)
        ensures
            final(self).spec_session_info() == info,
            final(self).spec_samples() == old(self).spec_samples(),
            final(self).spec_started_at() == old(self).spec_started_at(),
            final(self).spec_latest_frame() == old(self).spec_latest_frame(),
    {
        proof {
            use_type_invariant(&*self);
        }
        self.batch.session_info = info;
    }

    /// Whether the waiting samples should leave at `now`: the batch is full,
    /// or its first sample has waited `BATCH_MAX_LATENCY`.
    pub fn is_due(&self, now: u64) -> (r: bool)
        ensures
            r == self.is_due_at(now),
    {
        proof {
            use_type_invariant(self);
        }
        match self.batch.samples[0] {
            None => false,
            Some(first) => {
                if self.batch.samples[1].is_some() {
                    true
                } else {
                    now.saturating_sub(first.captured_at) >= BATCH_MAX_LATENCY
                }
            },
        }
    }

    /// How long the next wait for an update may last: until the waiting batch
    /// falls due, and never longer than `EVENT_WAIT_TIMEOUT`.
    pub fn wait_timeout(&self, now: u64) -> (r: u64)
        ensures
            r == wait_timeout_at(self.spec_started_at(), now),
    {
        proof {
            use_type_invariant(self);
        }
        match self.batch.samples[0] {
            None => EVENT_WAIT_TIMEOUT,
            Some(first) => {
                let left = BATCH_MAX_LATENCY.saturating_sub(now.saturating_sub(first.captured_at));
                if left <= EVENT_WAIT_TIMEOUT {
                    left
                } else {
                    EVENT_WAIT_TIMEOUT
                }
            },
        }
    }

    /// Hands out the waiting batch, if any sample waits, and starts afresh.
    pub fn take(&mut self) -> (r: Option<LiveTelemetryBatch<S, F, I>>)
        ensures
            old(self).spec_samples().len() == 0 ==> r is None && *final(self) == *old(self),
            old(self).spec_samples().len() > 0 ==> (r matches Some(batch) && batch_samples(batch)
                == old(self).spec_samples() && batch.latest_frame == old(self).spec_latest_frame()
                && batch.session_info == old(self).spec_session_info()),
            old(self).spec_samples().len() > 0 ==> final(self).spec_samples().len() == 0
                && final(self).spec_started_at() is None && final(self).spec_latest_frame() is None
                && final(self).spec_session_info() is None,
    {
        proof {
            use_type_invariant(&*self);
        }
        if self.batch.samples[0].is_none() {
            return None;
        }
        let mut batch = LiveTelemetryBatch::default();
        std::mem::swap(&mut batch, &mut self.batch);
        Some(batch)
    }
}

/// Whether the full SDK frame should be read again at `now`: it never was, or
/// `FULL_FRAME_INTERVAL` has passed since.
pub fn full_frame_is_due(last_full_frame_at: Option<u64>, now: u64) -> (r: bool)
    ensures
        r == full_frame_due(last_full_frame_at, now),
{
    match last_full_frame_at {
        None => true,
        Some(last) => now.saturating_sub(last) >= FULL_FRAME_INTERVAL,
    }
}

/// What the producer does after a sample arrived.
#[derive(Debug)]
pub struct SampleStep<S, F, I> {
    /// Whether to announce the connection: this is the first sample.
    pub announce_connected: bool,
    /// A batch that fell due before the sample came, to send first.
    pub flushed: Option<LiveTelemetryBatch<S, F, I>>,
    /// Whether to read the session information: the sample starts a batch.
    pub read_session_info: bool,
    /// Whether to read the full SDK frame: the sample starts a batch and the
    /// frame is due.
    pub read_full_frame: bool,
}

/// How long a wait for an update may last at `now` when the waiting batch
/// started at `started`: until the batch falls due, and never longer than
/// `EVENT_WAIT_TIMEOUT`; `EVENT_WAIT_TIMEOUT` when no batch waits.
pub open spec fn wait_timeout_at(started: Option<u64>, now: u64) -> int {
    match started {
        None => EVENT_WAIT_TIMEOUT as int,
        Some(started) => {
            let waited: int = if now >= started { now - started } else { 0 };
            let left: int = if waited <= BATCH_MAX_LATENCY { BATCH_MAX_LATENCY - waited } else { 0 };
            if left <= EVENT_WAIT_TIMEOUT { left } else { EVENT_WAIT_TIMEOUT as int }
        },
    }
}

/// The decisions of the live telemetry producer loop. The loop waits for
/// samples, reads, and sends; this state says when.
#[derive(Debug)]
pub struct LiveTelemetryProducer<S, F, I> {
    connected: bool,
    pending: PendingBatch<S, F, I>,
    last_full_frame_at: Option<u64>,
}

impl<S: Copy, F, I> LiveTelemetryProducer<S, F, I> {
    pub closed spec fn spec_connected(&self) -> bool {
        self.connected
    }

    pub closed spec fn spec_pending(&self) -> PendingBatch<S, F, I> {
        self.pending
    }

    pub closed spec fn spec_last_full_frame_at(&self) -> Option<u64> {
        self.last_full_frame_at
    }

    /// The state of a fresh connection: nothing announced, waiting or read.
    pub fn new() -> (r: Self)
        ensures
            !r.spec_connected(),
            r.spec_pending().spec_samples().len() == 0,
            r.spec_pending().spec_latest_frame() is None,
            r.spec_pending().spec_session_info() is None,
            r.spec_last_full_frame_at() is None,
    {
        LiveTelemetryProducer { connected: false, pending: PendingBatch::new(), last_full_frame_at: None }
    }

    /// The batch to send at `now`, when it is due.
    pub fn flush_due(&mut self, now: u64) -> (r: Option<LiveTelemetryBatch<S, F, I>>)
        ensures
            r is Some == old(self).spec_pending().is_due_at(now),
            r matches Some(batch) ==> batch_samples(batch) == old(self).spec_pending().spec_samples(),
            r is Some ==> final(self).spec_pending().spec_samples().len() == 0,
            r is None ==> final(self).spec_pending() == old(self).spec_pending(),
            final(self).spec_connected() == old(self).spec_connected(),
            final(self).spec_last_full_frame_at() == old(self).spec_last_full_frame_at(),
    {
        if self.pending.is_due(now) {
            self.pending.take()
        } else {
            None
        }
    }

    /// The batch to send before the loop ends, if any sample waits.
    pub fn flush_all(&mut self) -> (r: Option<LiveTelemetryBatch<S, F, I>>)
        ensures
            r is Some == (old(self).spec_pending().spec_samples().len() > 0),
            r matches Some(batch) ==> batch_samples(batch) == old(self).spec_pending().spec_samples(),
            final(self).spec_pending().spec_samples().len() == 0,
    {
        self.pending.take()
    }

    /// How long the next wait for a sample may last at `now`.
    pub fn wait_timeout(&self, now: u64) -> (r: u64)
        ensures
            r == wait_timeout_at(self.spec_pending().spec_started_at(), now),
    {
        self.pending.wait_timeout(now)
    }

    /// Takes in a sample captured at `captured_at`: a batch that fell due
    /// before it is handed out first, and a sample that starts a batch asks
    /// for the session information and, when it is due, the full frame.
    pub fn accept_sample(&mut self, sample: S, captured_at: u64) -> (r: SampleStep<S, F, I>)
        ensures
            r.announce_connected == !old(self).spec_connected(),
            final(self).spec_connected(),
            r.flushed is Some == old(self).spec_pending().is_due_at(captured_at),
            r.flushed matches Some(batch) ==> batch_samples(batch) == old(self).spec_pending().spec_samples(),
            ({
                let before = if r.flushed is Some {
                    Seq::<CapturedTelemetrySample<S>>::empty()
                } else {
                    old(self).spec_pending().spec_samples()
                };
                let captured = CapturedTelemetrySample { captured_at, sample };
                &&& r.read_session_info == (before.len() == 0)
                &&& r.read_full_frame == (before.len() == 0 && full_frame_due(
                    old(self).spec_last_full_frame_at(),
                    captured_at,
                ))
                &&& before.len() < BATCH_SAMPLE_CAPACITY ==> final(self).spec_pending().spec_samples()
                    == before.push(captured)
            }),
            final(self).spec_last_full_frame_at() == old(self).spec_last_full_frame_at(),
    {
        let announce_connected = !self.connected;
        self.connected = true;
        let flushed = if self.pending.is_due(captured_at) {
            self.pending.take()
        } else {
            None
        };
        let starts_batch = self.pending.is_empty();
        self.pending.push(CapturedTelemetrySample { captured_at, sample });
        let read_full_frame = starts_batch && full_frame_is_due(self.last_full_frame_at, captured_at);
        SampleStep { announce_connected, flushed, read_session_info: starts_batch, read_full_frame }
    }

    /// Attaches the session information read for the new batch.
    pub fn session_info_read(&mut self, info: Option<I>)
        ensures
            final(self).spec_pending().spec_session_info() == info,
            final(self).spec_pending().spec_samples() == old(self).spec_pending().spec_samples(),
            final(self).spec_last_full_frame_at() == old(self).spec_last_full_frame_at(),
            final(self).spec_connected() == old(self).spec_connected(),
    {
        self.pending.set_session_info(info);
    }

    /// Attaches a full frame read at `captured_at`; no frame leaves the
    /// state as it was.
    pub fn full_frame_read(&mut self, frame: Option<F>, captured_at: u64)
        ensures
            frame is Some ==> final(self).spec_pending().spec_latest_frame() == frame
                && final(self).spec_last_full_frame_at() == Some(captured_at),
            frame is None ==> final(self).spec_pending().spec_latest_frame() == old(self).spec_pending().spec_latest_frame()
                && final(self).spec_last_full_frame_at() == old(self).spec_last_full_frame_at(),
            final(self).spec_pending().spec_samples() == old(self).spec_pending().spec_samples(),
            final(self).spec_connected() == old(self).spec_connected(),
    {
        if frame.is_some() {
            self.pending.set_latest_frame(frame);
            self.last_full_frame_at = Some(captured_at);
        }
    }
}

/// Whether the full SDK frame is due at `now`.
pub open spec fn full_frame_due(last_full_frame_at: Option<u64>, now: u64) -> bool {
    match last_full_frame_at {
        None => true,
        Some(last) => now >= last && now - last >= FULL_FRAME_INTERVAL,
    }
}

/// What the live telemetry producer tells the desktop.
#[derive(Debug)]
pub enum LiveTelemetryMessage<S, F, I, T> {
    Waiting,
    Connected,
    Batch(LiveTelemetryBatch<S, F, I>),
    /// A same-frame sample and frame pair, with the session information.
    Snapshot { snapshot: T, session_info: Option<I> },
    Error(String),
}

} // verus!
