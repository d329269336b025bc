//! Publishing and receiving typed messages.
//!
//! A publisher hands each message to the transport together with the time of
//! sending. A subscription gets samples from the transport and gives each one
//! out as a message paired with its [`MessageInfo`]. The calls into the
//! transport are made by the caller of this module; what is asked of the
//! transport, and what becomes of its answer, is decided here.
use vstd::prelude::*;
use vstd::std_specs::convert::FromSpecImpl;
use crate::transport::{GUID, ReadError, ReadResult, Sample, SampleIdentity, SampleInfo, SequenceNumber, Timestamp};

verus! {

/// What is known of a received message besides its content.
///
/// One is made for each sample that is given out, from what the transport
/// recorded of that sample, and belongs to it alone.
#[derive(Debug, Clone, PartialEq, Eq)]
pub struct MessageInfo {
    received_timestamp: Timestamp,
    source_timestamp: Option<Timestamp>,
    sequence_number: SequenceNumber,
    publisher: GUID,
    related_sample_identity: Option<SampleIdentity>,
}

/// What a [`MessageInfo`] holds.
pub struct MessageInfoView {
    /// When the message was received. No clock is read for it yet: it is
    /// the epoch.
    pub received_timestamp: Timestamp,
    /// When the sender says it sent the message, if it said so.
    pub source_timestamp: Option<Timestamp>,
    /// The number that the sending endpoint gave the message.
    pub sequence_number: SequenceNumber,
    /// The endpoint that sent the message.
    pub publisher: GUID,
    /// The request that the message answers, if it was sent as a reply.
    pub related_sample_identity: Option<SampleIdentity>,
}

impl View for MessageInfo {
    type V = MessageInfoView;

    closed spec fn view(&self) -> MessageInfoView {
        MessageInfoView {
            received_timestamp: self.received_timestamp,
            source_timestamp: self.source_timestamp,
            sequence_number: self.sequence_number,
            publisher: self.publisher,
            related_sample_identity: self.related_sample_identity,
        }
    }
}

/// The metadata of a message that the transport recorded as `info`: received
/// at the epoch, everything else as in `info`.
pub open spec fn info_of_sample_info(info: SampleInfo) -> MessageInfoView {
    MessageInfoView {
        received_timestamp: Timestamp { ticks: 0 },
        source_timestamp: info.source_timestamp,
        sequence_number: info.sequence_number,
        publisher: info.publication_handle,
        related_sample_identity: info.related_sample_identity,
    }
}

/// The metadata of the message that `sample` carries: received at the epoch,
/// everything else as the transport recorded it of this sample.
pub open spec fn info_of_sample<M>(sample: Sample<M>) -> MessageInfoView {
    MessageInfoView {
        received_timestamp: Timestamp { ticks: 0 },
        source_timestamp: sample.source_timestamp,
        sequence_number: sample.sequence_number,
        publisher: sample.writer_guid,
        related_sample_identity: sample.related_sample_identity,
    }
}

impl MessageInfo {
    /// When the message was received.
    pub fn received_timestamp(&self) -> (t: Timestamp)
        ensures
            t == self@.received_timestamp,
    {
        self.received_timestamp
    }

    /// When the sender says it sent the message, if it said so.
    pub fn source_timestamp(&self) -> (t: Option<Timestamp>)
        ensures
            t == self@.source_timestamp,
    {
        self.source_timestamp
    }

    /// The endpoint that sent the message.
    pub fn writer_guid(&self) -> (guid: GUID)
        ensures
            guid == self@.publisher,
    {
        self.publisher
    }

    /// The identity of the message as a sample: who sent it, and under which
    /// number.
    pub fn sample_identity(&self) -> (id: SampleIdentity)
        ensures
            id.writer_guid == self@.publisher,
            id.sequence_number == self@.sequence_number,
    {
        SampleIdentity { writer_guid: self.writer_guid(), sequence_number: self.sequence_number }
    }

    /// The request that the message answers, if it was sent as a reply.
    pub fn related_sample_identity(&self) -> (id: Option<SampleIdentity>)
        ensures
            id == self@.related_sample_identity,
    {
        self.related_sample_identity
    }
}

impl From<&SampleInfo> for MessageInfo {
    fn from(sample_info: &SampleInfo) -> (info: MessageInfo)
        ensures
            info@ == info_of_sample_info(*sample_info),
    {
        MessageInfo {
            received_timestamp: Timestamp::zero(),
            source_timestamp: sample_info.source_timestamp,
            sequence_number: sample_info.sample_identity().sequence_number,
            publisher: sample_info.publication_handle,
            related_sample_identity: sample_info.related_sample_identity,
        }
    }
}

impl FromSpecImpl<&SampleInfo> for MessageInfo {
    // `from` is specified by its own `ensures`, over views.
    open spec fn obeys_from_spec() -> bool {
        false
    }

    open spec fn from_spec(sample_info: &SampleInfo) -> MessageInfo {
        arbitrary()
    }
}

impl<M> From<&Sample<M>> for MessageInfo {
    fn from(sample: &Sample<M>) -> (info: MessageInfo)
        ensures
            info@ == info_of_sample(*sample),
    {
        MessageInfo {
            received_timestamp: Timestamp::zero(),
            source_timestamp: sample.source_timestamp,
            sequence_number: sample.sequence_number,
            publisher: sample.writer_guid,
            related_sample_identity: sample.related_sample_identity,
        }
    }
}

impl<M> FromSpecImpl<&Sample<M>> for MessageInfo {
    // `from` is specified by its own `ensures`, over views.
    open spec fn obeys_from_spec() -> bool {
        false
    }

    open spec fn from_spec(sample: &Sample<M>) -> MessageInfo {
        arbitrary()
    }
}

/// `pair` is what `sample` is given out as: the message that the sample
/// carried, with the metadata of this very sample.
pub open spec fn delivers<M>(sample: Sample<M>, pair: (M, MessageInfo)) -> bool {
    &&& pair.0 == sample.value
    &&& pair.1@ == info_of_sample(sample)
}

/// The reason given where the endless stream of samples ends after all.
pub open spec fn stream_ended_reason() -> Seq<char> {
    "async_take(): SimpleDataReader value stream unexpectedly ended!"@
}

/// Parts a sample into its message and the metadata of that message.
pub fn sample_to_value_and_messageinfo<M>(sample: Sample<M>) -> (pair: (M, MessageInfo))
    ensures
        delivers(sample, pair),
{
    let mi = MessageInfo::from(&sample);
    (sample.value, mi)
}

/// What a subscription gives out when it was asked to take a message without
/// waiting, and the transport, asked for one sample, answered `taken`.
///
/// A sample is given out as its message and metadata, "nothing there" stays
/// "nothing there", and a failure of the transport is passed on as it is.
pub fn take_result<M>(taken: ReadResult<Option<Sample<M>>>) -> (r: ReadResult<
    Option<(M, MessageInfo)>,
>)
    ensures
        match taken {
            Ok(Some(sample)) => r matches Ok(Some(pair)) && delivers(sample, pair),
            Ok(None) => r matches Ok(None),
            Err(e) => r matches Err(err) && err == e,
        },
{
    match taken {
        Ok(Some(sample)) => Ok(Some(sample_to_value_and_messageinfo(sample))),
        Ok(None) => Ok(None),
        Err(e) => Err(e),
    }
}

/// What a subscription gives out for one item of the transport's stream of
/// samples: the sample as its message and metadata, a failure as it is.
pub fn stream_item_result<M>(item: ReadResult<Sample<M>>) -> (r: ReadResult<(M, MessageInfo)>)
    ensures
        match item {
            Ok(sample) => r matches Ok(pair) && delivers(sample, pair),
            Err(e) => r matches Err(err) && err == e,
        },
{
    match item {
        Ok(sample) => Ok(sample_to_value_and_messageinfo(sample)),
        Err(e) => Err(e),
    }
}

/// What a subscription gives out when it waited for the next item of the
/// transport's stream of samples and the stream answered `next`.
///
/// The stream is meant never to end. Where it does, that is reported as an
/// internal error and not as "nothing there".
pub fn async_take_result<M>(next: Option<ReadResult<Sample<M>>>) -> (r: ReadResult<
    (M, MessageInfo),
>)
    ensures
        match next {
            Some(Ok(sample)) => r matches Ok(pair) && delivers(sample, pair),
            Some(Err(e)) => r matches Err(err) && err == e,
            None => r matches Err(ReadError::Internal { reason }) && reason@
                == stream_ended_reason(),
        },
{
    match next {
        Some(Err(e)) => Err(e),
        Some(Ok(sample)) => Ok(sample_to_value_and_messageinfo(sample)),
        None => Err(
            ReadError::Internal {
                reason: "async_take(): SimpleDataReader value stream unexpectedly ended!".to_owned(),
            },
        ),
    }
}

/// What a publisher asks the transport to write.
#[derive(Debug, Clone, PartialEq, Eq)]
pub struct WriteRequest<M> {
    /// The message, whole and unchanged.
    pub message: M,
    /// The time of sending that the transport is to stamp on the message.
    pub source_timestamp: Option<Timestamp>,
}

/// What a publisher asks of the transport in order to publish `message` at
/// the time `now`: to write the message itself, stamped with that time.
///
/// The transport hands an unsent message back in its failure. As the request
/// holds the message unchanged, what comes back is the message that was
/// given here.
pub fn write_request<M>(message: M, now: Timestamp) -> (request: WriteRequest<M>)
    ensures
        request.message == message,
        request.source_timestamp == Some(now),
{
    WriteRequest { message, source_timestamp: Some(now) }
}

} // verus!
