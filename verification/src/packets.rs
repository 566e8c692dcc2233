//! The MQTT control packets that a client hands to its event loop.

use vstd::prelude::*;
use bytes::Bytes;

verus! {

#[verifier::external_type_specification]
#[verifier::external_body]
pub struct ExBytes(Bytes);

/// The bytes that a `Bytes` buffer holds, in order.
pub uninterp spec fn bytes_content(b: Bytes) -> Seq<u8>;

/// Calls `<bytes::Bytes as From<Vec<u8>>>::from`, which takes over the
/// vector's allocation: the buffer holds the vector's bytes, in order.
#[verifier::external_body]
fn bytes_from_vec(v: Vec<u8>) -> (b: Bytes)
    ensures
        bytes_content(b) == v@,
{
    Bytes::from(v)
}

/// Specifies `<bytes::Bytes as Clone>::clone`, which gives a second handle
/// on the same shared buffer: the copy holds the same bytes.
pub assume_specification[ <Bytes as Clone>::clone ](b: &Bytes) -> (c: Bytes)
    ensures
        bytes_content(c) == bytes_content(*b),
;

/// Quality of service of a publication.
#[derive(Clone, Copy, Debug, PartialEq, Eq, Structural)]
pub enum QoS {
    AtMostOnce,
    AtLeastOnce,
    ExactlyOnce,
}

/// A publication of `payload` on `topic`.
#[derive(Clone, Debug, PartialEq, Eq)]
pub struct Publish {
    pub dup: bool,
    pub qos: QoS,
    pub retain: bool,
    pub topic: String,
    pub pkid: u16,
    pub payload: Bytes,
}

impl Publish {
    /// A publication that the client has not yet numbered, sent or retained.
    pub open spec fn is_fresh(self, topic: Seq<char>, qos: QoS) -> bool {
        &&& !self.dup
        &&& self.qos == qos
        &&& !self.retain
        &&& self.topic@ == topic
        &&& self.pkid == 0
    }

    /// A fresh publication whose payload holds the bytes of `payload`.
    pub fn new(topic: String, qos: QoS, payload: Vec<u8>) -> (p: Publish)
        ensures
            p.is_fresh(topic@, qos),
            bytes_content(p.payload) == payload@,
    {
        Publish { dup: false, qos, retain: false, topic, pkid: 0, payload: bytes_from_vec(payload) }
    }

    /// A fresh publication that carries the buffer `payload` itself.
    pub fn from_bytes(topic: String, qos: QoS, payload: Bytes) -> (p: Publish)
        ensures
            p.is_fresh(topic@, qos),
            p.payload == payload,
    {
        Publish { dup: false, qos, retain: false, topic, pkid: 0, payload }
    }
}

/// Acknowledgement of a publication of quality `AtLeastOnce`.
#[derive(Clone, Copy, Debug, PartialEq, Eq)]
pub struct PubAck {
    pub pkid: u16,
}

impl PubAck {
    pub fn new(pkid: u16) -> (a: PubAck)
        ensures
            a.pkid == pkid,
    {
        PubAck { pkid }
    }
}

/// First acknowledgement of a publication of quality `ExactlyOnce`.
#[derive(Clone, Copy, Debug, PartialEq, Eq)]
pub struct PubRec {
    pub pkid: u16,
}

impl PubRec {
    pub fn new(pkid: u16) -> (a: PubRec)
        ensures
            a.pkid == pkid,
    {
        PubRec { pkid }
    }
}

/// A topic filter and the quality of service asked for it.
#[derive(Clone, Debug, PartialEq, Eq)]
pub struct SubscribeFilter {
    pub path: String,
    pub qos: QoS,
}

impl SubscribeFilter {
    pub fn new(path: String, qos: QoS) -> (f: SubscribeFilter)
        ensures
            f.path == path,
            f.qos == qos,
    {
        SubscribeFilter { path, qos }
    }
}

/// A subscription to one or more topic filters.
#[derive(Clone, Debug, PartialEq, Eq)]
pub struct Subscribe {
    pub pkid: u16,
    pub filters: Vec<SubscribeFilter>,
}

impl Subscribe {
    /// A subscription to the single filter `path`.
    pub fn new(path: String, qos: QoS) -> (s: Subscribe)
        ensures
            s.pkid == 0,
            s.filters@ == seq![(SubscribeFilter { path, qos })],
    {
        let filter = SubscribeFilter::new(path, qos);
        Subscribe { pkid: 0, filters: vec![filter] }
    }

    /// A subscription to the filters `topics`, in their order.
    pub fn new_many(topics: Vec<SubscribeFilter>) -> (s: Subscribe)
        ensures
            s.pkid == 0,
            s.filters@ == topics@,
    {
        Subscribe { pkid: 0, filters: topics }
    }
}

/// A request to leave one or more topics.
#[derive(Clone, Debug, PartialEq, Eq)]
pub struct Unsubscribe {
    pub pkid: u16,
    pub topics: Vec<String>,
}

impl Unsubscribe {
    /// A request to leave the single topic `topic`.
    pub fn new(topic: String) -> (u: Unsubscribe)
        ensures
            u.pkid == 0,
            u.topics@ == seq![topic],
    {
        Unsubscribe { pkid: 0, topics: vec![topic] }
    }
}

/// What a client asks its event loop to do.
#[derive(Clone, Debug, PartialEq, Eq)]
pub enum Request {
    Publish(Publish),
    PubAck(PubAck),
    PubRec(PubRec),
    Subscribe(Subscribe),
    Unsubscribe(Unsubscribe),
    Disconnect,
}

} // verus!
