//! Log entries with up to four topics.
//!
//! The host takes a log entry as a data payload, a topic count and four topic
//! slots.  A slot beyond the count carries no topic.

use vstd::prelude::*;
use crate::types::Topic;
use crate::width::{host_size, to_host_size};

verus! {

/// One log entry, as it is handed to the host beside its data payload.
#[derive(Debug, Clone, Copy, PartialEq, Eq)]
pub struct LogRequest {
    /// The length of the data payload as the host receives it.
    pub length: u32,
    /// How many topics the host is told to read.
    pub topic_count: u32,
    /// The first topic slot.
    pub topic1: Option<Topic>,
    /// The second topic slot.
    pub topic2: Option<Topic>,
    /// The third topic slot.
    pub topic3: Option<Topic>,
    /// The fourth topic slot.
    pub topic4: Option<Topic>,
}

impl LogRequest {
    /// The topics that are handed over, in the order of their slots.
    pub open spec fn topics(self) -> Seq<Topic> {
        slot_topics(self.topic1) + slot_topics(self.topic2) + slot_topics(self.topic3)
            + slot_topics(self.topic4)
    }

    /// The topics fill the leading slots, one for each that is counted, and
    /// every slot beyond the count is empty.
    pub open spec fn well_formed(self) -> bool {
        &&& self.topic_count <= 4
        &&& (self.topic1 is Some <==> self.topic_count >= 1)
        &&& (self.topic2 is Some <==> self.topic_count >= 2)
        &&& (self.topic3 is Some <==> self.topic_count >= 3)
        &&& (self.topic4 is Some <==> self.topic_count >= 4)
    }
}

/// The topic in a slot, as a sequence of one or none.
pub open spec fn slot_topics(slot: Option<Topic>) -> Seq<Topic> {
    match slot {
        Some(topic) => seq![topic],
        None => Seq::empty(),
    }
}

/// What a slot holds for a topic that may be absent.
pub open spec fn slot_of(topic: Option<&Topic>) -> Option<Topic> {
    match topic {
        Some(topic) => Some(*topic),
        None => None,
    }
}

fn fill_slot(topic: Option<&Topic>) -> (slot: Option<Topic>)
    ensures
        slot == slot_of(topic),
{
    match topic {
        Some(topic) => Some(*topic),
        None => None,
    }
}

/// Lays out a log entry from a payload, a topic count and four topics that
/// may each be absent.  Length and count reach the host as their low 32
/// bits, so the host is never told to read more than the payload holds.
fn log(
    data: &[u8],
    topic_count: usize,
    topic1: Option<&Topic>,
    topic2: Option<&Topic>,
    topic3: Option<&Topic>,
    topic4: Option<&Topic>,
) -> (request: LogRequest)
    ensures
        request == (LogRequest {
            length: host_size(data.len()),
            topic_count: host_size(topic_count),
            topic1: slot_of(topic1),
            topic2: slot_of(topic2),
            topic3: slot_of(topic3),
            topic4: slot_of(topic4),
        }),
        request.length <= data.len(),
{
    LogRequest {
        length: to_host_size(data.len()),
        topic_count: to_host_size(topic_count),
        topic1: fill_slot(topic1),
        topic2: fill_slot(topic2),
        topic3: fill_slot(topic3),
        topic4: fill_slot(topic4),
    }
}

/// Lays out a log entry without a topic: all four slots are empty.
pub fn log0(data: &[u8]) -> (request: LogRequest)
    ensures
        request == (LogRequest {
            length: host_size(data.len()),
            topic_count: 0,
            topic1: None,
            topic2: None,
            topic3: None,
            topic4: None,
        }),
        request.well_formed(),
        request.length <= data.len(),
        request.topics() == Seq::<Topic>::empty(),
{
    log(data, 0, None, None, None, None)
}

/// Lays out a log entry with one topic: the first slot holds it, the other
/// three are empty.
pub fn log1(data: &[u8], topic1: &Topic) -> (request: LogRequest)
    ensures
        request == (LogRequest {
            length: host_size(data.len()),
            topic_count: 1,
            topic1: Some(*topic1),
            topic2: None,
            topic3: None,
            topic4: None,
        }),
        request.well_formed(),
        request.length <= data.len(),
        request.topics() == seq![*topic1],
{
    log(data, 1, Some(topic1), None, None, None)
}

/// Lays out a log entry with two topics: the first two slots hold them in
/// order, the other two are empty.
pub fn log2(data: &[u8], topic1: &Topic, topic2: &Topic) -> (request: LogRequest)
    ensures
        request == (LogRequest {
            length: host_size(data.len()),
            topic_count: 2,
            topic1: Some(*topic1),
            topic2: Some(*topic2),
            topic3: None,
            topic4: None,
        }),
        request.well_formed(),
        request.length <= data.len(),
        request.topics() == seq![*topic1, *topic2],
{
    log(data, 2, Some(topic1), Some(topic2), None, None)
}

/// Lays out a log entry with three topics: the first three slots hold them
/// in order, the last is empty.
pub fn log3(data: &[u8], topic1: &Topic, topic2: &Topic, topic3: &Topic) -> (request: LogRequest)
    ensures
        request == (LogRequest {
            length: host_size(data.len()),
            topic_count: 3,
            topic1: Some(*topic1),
            topic2: Some(*topic2),
            topic3: Some(*topic3),
            topic4: None,
        }),
        request.well_formed(),
        request.length <= data.len(),
        request.topics() == seq![*topic1, *topic2, *topic3],
{
    log(data, 3, Some(topic1), Some(topic2), Some(topic3), None)
}

/// Lays out a log entry with four topics: each slot holds one, in order.
pub fn log4(
    data: &[u8],
    topic1: &Topic,
    topic2: &Topic,
    topic3: &Topic,
    topic4: &Topic,
) -> (request: LogRequest)
    ensures
        request == (LogRequest {
            length: host_size(data.len()),
            topic_count: 4,
            topic1: Some(*topic1),
            topic2: Some(*topic2),
            topic3: Some(*topic3),
            topic4: Some(*topic4),
        }),
        request.well_formed(),
        request.length <= data.len(),
        request.topics() == seq![*topic1, *topic2, *topic3, *topic4],
{
    log(data, 4, Some(topic1), Some(topic2), Some(topic3), Some(topic4))
}

/// In a well-formed log entry the host is told to read exactly the topics
/// that are handed over.
pub proof fn lemma_count_matches_topics(request: LogRequest)
    requires
        request.well_formed(),
    ensures
        request.topics().len() == request.topic_count,
{
}

} // verus!
