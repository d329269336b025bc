//! The values that the DDS transport attaches to a sample, as plain data.
//!
//! The transport's own types keep their fields to themselves. Each type here
//! holds the same information in the open, in the form in which the transport
//! converts it without loss: a time as its 64 ticks, a sequence number as its
//! `i64`, a GUID as its sixteen bytes. The code that talks to the transport
//! converts at the boundary; everything on this side of it works on these
//! types.
use vstd::prelude::*;

verus! {

/// A time instant of the transport.
///
/// The upper 32 bits of `ticks` count the seconds since the Unix epoch, the
/// lower 32 bits the fraction of a second in units of 2^-32 s.
#[derive(Clone, Copy, Debug, PartialEq, Eq, Hash)]
pub struct Timestamp {
    pub ticks: u64,
}

impl Timestamp {
    /// The Unix epoch itself.
    pub fn zero() -> (t: Timestamp)
        ensures
            t.ticks == 0,
    {
        Timestamp { ticks: 0 }
    }

    /// The instant that is `ticks` ticks after the epoch.
    pub fn from_ticks(ticks: u64) -> (t: Timestamp)
        ensures
            t.ticks == ticks,
    {
        Timestamp { ticks }
    }

    /// The number of ticks between the epoch and this instant.
    pub fn to_ticks(self) -> (ticks: u64)
        ensures
            ticks == self.ticks,
    {
        self.ticks
    }
}

/// The number that a sending endpoint gives to a sample. Each endpoint counts
/// upwards on its own; numbers of different endpoints are unrelated.
#[derive(Clone, Copy, Debug, PartialEq, Eq, Hash)]
pub struct SequenceNumber {
    pub value: i64,
}

/// The identifier of an endpoint of the transport, unique in its domain and
/// the same for as long as the endpoint lives.
#[derive(Clone, Copy, Debug, PartialEq, Eq, Hash)]
pub struct GUID {
    pub bytes: [u8; 16],
}

/// The identity of one sample: the endpoint that sent it and the number that
/// this endpoint gave it. A reply names the request it answers by the
/// request's identity.
#[derive(Clone, Copy, Debug, PartialEq, Eq, Hash)]
pub struct SampleIdentity {
    pub writer_guid: GUID,
    pub sequence_number: SequenceNumber,
}

/// Why reading from the transport failed. "Nothing there to read" is no
/// failure and has no variant here.
#[derive(Debug, Clone, PartialEq, Eq)]
pub enum ReadError {
    /// The bytes received could not be decoded.
    Deserialization { reason: String },
    /// An instance was disposed that this reader never saw.
    UnknownKey { details: String },
    /// A thread of the transport has failed while holding a lock.
    Poisoned { reason: String },
    /// Something happened that the transport promises never happens.
    Internal { reason: String },
}

/// What a read from the transport comes to.
pub type ReadResult<T> = Result<T, ReadError>;

/// What the transport records of a sample besides its payload.
#[derive(Debug, Clone, PartialEq, Eq)]
pub struct SampleInfo {
    /// When the sender says it sent the sample, if it said so.
    pub source_timestamp: Option<Timestamp>,
    /// The endpoint that wrote the sample.
    pub publication_handle: GUID,
    /// The number that this endpoint gave the sample.
    pub sequence_number: SequenceNumber,
    /// The request that the sample answers, if it was sent as a reply.
    pub related_sample_identity: Option<SampleIdentity>,
}

impl SampleInfo {
    /// The identity of the sample: who wrote it, and under which number.
    pub fn sample_identity(&self) -> (id: SampleIdentity)
        ensures
            id.writer_guid == self.publication_handle,
            id.sequence_number == self.sequence_number,
    {
        SampleIdentity {
            writer_guid: self.publication_handle,
            sequence_number: self.sequence_number,
        }
    }
}

/// A sample as a reader of the transport hands it over: the decoded message
/// and what the transport recorded of this very sample.
#[derive(Debug, Clone, PartialEq, Eq)]
pub struct Sample<M> {
    /// The endpoint that wrote the sample.
    pub writer_guid: GUID,
    /// The number that this endpoint gave the sample.
    pub sequence_number: SequenceNumber,
    /// When the sender says it sent the sample, if it said so.
    pub source_timestamp: Option<Timestamp>,
    /// The request that the sample answers, if it was sent as a reply.
    pub related_sample_identity: Option<SampleIdentity>,
    /// The decoded message.
    pub value: M,
}

} // verus!
