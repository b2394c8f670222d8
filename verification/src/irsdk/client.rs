//! What a shared-memory client hands on of each read: every update once, and
//! nothing while the SDK has no stable frame to copy.
use vstd::prelude::*;

verus! {

/// How a read of shared memory failed.
#[derive(Debug, Clone, PartialEq, Eq)]
pub enum SourceError {
    /// No stable frame could be copied this time; the next read may succeed.
    WouldBlock,
    /// The read failed for good, for the reason given.
    Failed(String),
}

/// Why a client read failed.
#[derive(Debug, Clone, PartialEq, Eq)]
pub enum ClientError {
    /// The read of shared memory failed, for the reason given.
    Source(String),
    /// The desktop sample holds a value that is not finite.
    NonFinite,
}

/// The update counters of the last sample, frame, snapshot and session
/// information handed on.
#[derive(Debug, Clone, Copy, PartialEq, Eq)]
pub struct Client {
    pub last_sample_packet_id: Option<i32>,
    pub last_frame_packet_id: Option<i32>,
    pub last_snapshot_packet_id: Option<i32>,
    pub last_session_info_update: Option<i32>,
}

/// What a client hands on of a read stamped `id`, after `last`: nothing when
/// the SDK had no stable frame or the update was handed on already, an error
/// when the read failed or its sample is not finite, and the read otherwise.
pub open spec fn handed_on<T>(read: Result<T, SourceError>, id: i32, finite: bool, last: Option<i32>) -> Result<Option<T>, ClientError> {
    match read {
        Err(SourceError::WouldBlock) => Ok(None),
        Err(SourceError::Failed(reason)) => Err(ClientError::Source(reason)),
        Ok(value) => if last == Some(id) {
            Ok(None)
        } else if !finite {
            Err(ClientError::NonFinite)
        } else {
            Ok(Some(value))
        },
    }
}

/// The counter kept after a read: the read's own when it was handed on.
pub open spec fn kept<T>(result: Result<Option<T>, ClientError>, id: i32, last: Option<i32>) -> Option<i32> {
    match result {
        Ok(Some(_)) => Some(id),
        _ => last,
    }
}

impl Client {
    /// A client that has handed on nothing yet.
    pub fn connect() -> (r: Self)
        ensures
            r.last_sample_packet_id is None,
            r.last_frame_packet_id is None,
            r.last_snapshot_packet_id is None,
            r.last_session_info_update is None,
    {
        Client {
            last_sample_packet_id: None,
            last_frame_packet_id: None,
            last_snapshot_packet_id: None,
            last_session_info_update: None,
        }
    }

    /// Hands on a desktop sample with packet id `packet_id` unless it was
    /// handed on already; a sample with a value that is not finite is an error.
    pub fn read_latest<S>(&mut self, read: Result<S, SourceError>, packet_id: i32, is_finite: bool) -> (r: Result<Option<S>, ClientError>)
        ensures
            r == handed_on(read, packet_id, is_finite, old(self).last_sample_packet_id),
            final(self).last_sample_packet_id == kept(r, packet_id, old(self).last_sample_packet_id),
            final(self).last_frame_packet_id == old(self).last_frame_packet_id,
            final(self).last_snapshot_packet_id == old(self).last_snapshot_packet_id,
            final(self).last_session_info_update == old(self).last_session_info_update,
    {
        let sample = match read {
            Ok(sample) => sample,
            Err(SourceError::WouldBlock) => return Ok(None),
            Err(SourceError::Failed(reason)) => return Err(ClientError::Source(reason)),
        };
        if self.last_sample_packet_id == Some(packet_id) {
            return Ok(None);
        }
        if !is_finite {
            return Err(ClientError::NonFinite);
        }
        self.last_sample_packet_id = Some(packet_id);
        Ok(Some(sample))
    }

    /// Hands on a full frame with packet id `packet_id` unless it was handed
    /// on already.
    pub fn read_all<F>(&mut self, read: Result<F, SourceError>, packet_id: i32) -> (r: Result<Option<F>, ClientError>)
        ensures
            r == handed_on(read, packet_id, true, old(self).last_frame_packet_id),
            final(self).last_frame_packet_id == kept(r, packet_id, old(self).last_frame_packet_id),
            final(self).last_sample_packet_id == old(self).last_sample_packet_id,
            final(self).last_snapshot_packet_id == old(self).last_snapshot_packet_id,
            final(self).last_session_info_update == old(self).last_session_info_update,
    {
        let frame = match read {
            Ok(frame) => frame,
            Err(SourceError::WouldBlock) => return Ok(None),
            Err(SourceError::Failed(reason)) => return Err(ClientError::Source(reason)),
        };
        if self.last_frame_packet_id == Some(packet_id) {
            return Ok(None);
        }
        self.last_frame_packet_id = Some(packet_id);
        Ok(Some(frame))
    }

    /// Hands on a same-frame snapshot with packet id `packet_id` unless it
    /// was handed on already; a sample with a value that is not finite is an
    /// error.
    pub fn read_snapshot<T>(&mut self, read: Result<T, SourceError>, packet_id: i32, is_finite: bool) -> (r: Result<Option<T>, ClientError>)
        ensures
            r == handed_on(read, packet_id, is_finite, old(self).last_snapshot_packet_id),
            final(self).last_snapshot_packet_id == kept(r, packet_id, old(self).last_snapshot_packet_id),
            final(self).last_sample_packet_id == old(self).last_sample_packet_id,
            final(self).last_frame_packet_id == old(self).last_frame_packet_id,
            final(self).last_session_info_update == old(self).last_session_info_update,
    {
        let snapshot = match read {
            Ok(snapshot) => snapshot,
            Err(SourceError::WouldBlock) => return Ok(None),
            Err(SourceError::Failed(reason)) => return Err(ClientError::Source(reason)),
        };
        if self.last_snapshot_packet_id == Some(packet_id) {
            return Ok(None);
        }
        if !is_finite {
            return Err(ClientError::NonFinite);
        }
        self.last_snapshot_packet_id = Some(packet_id);
        Ok(Some(snapshot))
    }

    /// Whether the session information must be read again: its update
    /// counter differs from the one last handed on.
    pub fn session_info_changed(&self, update_count: i32) -> (r: bool)
        ensures
            r == (self.last_session_info_update != Some(update_count)),
    {
        self.last_session_info_update != Some(update_count)
    }

    /// Hands on session information with update counter `update_count`
    /// unless it was handed on already.
    pub fn read_session_info<I>(&mut self, read: Result<I, SourceError>, update_count: i32) -> (r: Result<Option<I>, ClientError>)
        ensures
            r == handed_on(read, update_count, true, old(self).last_session_info_update),
            final(self).last_session_info_update == kept(r, update_count, old(self).last_session_info_update),
            final(self).last_sample_packet_id == old(self).last_sample_packet_id,
            final(self).last_frame_packet_id == old(self).last_frame_packet_id,
            final(self).last_snapshot_packet_id == old(self).last_snapshot_packet_id,
    {
        let info = match read {
            Ok(info) => info,
            Err(SourceError::WouldBlock) => return Ok(None),
            Err(SourceError::Failed(reason)) => return Err(ClientError::Source(reason)),
        };
        if self.last_session_info_update == Some(update_count) {
            return Ok(None);
        }
        self.last_session_info_update = Some(update_count);
        Ok(Some(info))
    }
}

/// A read that was handed on is not handed on again: the same update read
/// once more gives nothing.
pub proof fn lemma_updates_handed_on_once<T>(value: T, again: T, id: i32, finite: bool, last: Option<i32>)
    ensures
        handed_on(Ok::<T, SourceError>(value), id, finite, last) matches Ok(Some(_)) ==> handed_on(
            Ok::<T, SourceError>(again),
            id,
            finite,
            kept(handed_on(Ok::<T, SourceError>(value), id, finite, last), id, last),
        ) == Ok::<Option<T>, ClientError>(None),
{
}

} // verus!
