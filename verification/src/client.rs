//! Client handles that turn calls into MQTT requests and hand them to the
//! event loop over a bounded channel.
//!
//! Every call either hands its request over or gives the very same request
//! back inside the error: no request is lost or altered on the way.

use vstd::prelude::*;
use bytes::Bytes;
use flume::{Receiver, Sender};
use crate::channel;
use crate::channel::request_capacity;
use tokio::runtime::Runtime;
use crate::packets::{
    bytes_content, PubAck, PubRec, Publish, QoS, Request, Subscribe, SubscribeFilter, Unsubscribe,
};

verus! {

/// Why a request did not reach the event loop. Each variant holds the
/// request that was refused.
#[derive(Debug)]
pub enum ClientError {
    /// A waiting send failed: the event loop is gone.
    Request(Request),
    /// A send that does not wait failed: the channel was full, or the event
    /// loop is gone.
    TryRequest(Request),
}

/// How to reach the broker.
#[derive(Debug)]
pub struct MqttOptions {
    pub client_id: String,
    pub broker_addr: String,
    pub port: u16,
}

/// The receiving side of a client's requests: the options it connects with
/// and the channel that its clients fill.
pub struct EventLoop {
    pub options: MqttOptions,
    pub requests_rx: Receiver<Request>,
    pub requests_tx: Sender<Request>,
}

impl EventLoop {
    /// An event loop whose request channel holds at most `cap` requests.
    pub fn new(options: MqttOptions, cap: usize) -> (e: EventLoop)
        ensures
            e.options == options,
            request_capacity(e.requests_tx) == Some(cap),
    {
        let (requests_tx, requests_rx) = channel::bounded_requests(cap);
        EventLoop { options, requests_rx, requests_tx }
    }
}

/// `r` is the request that a publication of `payload` on `topic` makes.
pub open spec fn publish_with(
    r: Request,
    topic: Seq<char>,
    qos: QoS,
    retain: bool,
    payload: Seq<u8>,
) -> bool {
    &&& r matches Request::Publish(p)
    &&& !p.dup
    &&& p.qos == qos
    &&& p.retain == retain
    &&& p.topic@ == topic
    &&& p.pkid == 0
    &&& bytes_content(p.payload) == payload
}

/// `r` is the request that a publication of the buffer `payload` on `topic`
/// makes.
pub open spec fn publish_bytes_with(
    r: Request,
    topic: Seq<char>,
    qos: QoS,
    retain: bool,
    payload: Bytes,
) -> bool {
    &&& r matches Request::Publish(p)
    &&& !p.dup
    &&& p.qos == qos
    &&& p.retain == retain
    &&& p.topic@ == topic
    &&& p.pkid == 0
    &&& p.payload == payload
}

/// `r` is a subscription to `filters`, in their order.
pub open spec fn subscribe_with(r: Request, filters: Seq<SubscribeFilter>) -> bool {
    &&& r matches Request::Subscribe(s)
    &&& s.pkid == 0
    &&& s.filters@ == filters
}

/// `r` is a request to leave the single topic `topic`.
pub open spec fn unsubscribe_with(r: Request, topic: String) -> bool {
    &&& r matches Request::Unsubscribe(u)
    &&& u.pkid == 0
    &&& u.topics@ == seq![topic]
}

/// The acknowledgement that a received publication calls for: none at
/// quality `AtMostOnce`, a `PubAck` at `AtLeastOnce`, a `PubRec` at
/// `ExactlyOnce`, each with the publication's packet identifier.
pub open spec fn ack_for(publish: Publish) -> Option<Request> {
    match publish.qos {
        QoS::AtMostOnce => None,
        QoS::AtLeastOnce => Some(Request::PubAck(PubAck { pkid: publish.pkid })),
        QoS::ExactlyOnce => Some(Request::PubRec(PubRec { pkid: publish.pkid })),
    }
}

/// `r` answers a send that does not wait, of a request that meets `sent`:
/// success, or `TryRequest` with that request.
pub open spec fn try_answered(r: Result<(), ClientError>, sent: spec_fn(Request) -> bool) -> bool {
    match r {
        Ok(()) => true,
        Err(ClientError::TryRequest(back)) => sent(back),
        Err(ClientError::Request(_)) => false,
    }
}

/// `r` answers a waiting send of a request that meets `sent`: success, or
/// `Request` with that request.
pub open spec fn answered(r: Result<(), ClientError>, sent: spec_fn(Request) -> bool) -> bool {
    match r {
        Ok(()) => true,
        Err(ClientError::Request(back)) => sent(back),
        Err(ClientError::TryRequest(_)) => false,
    }
}

/// Publishing a buffer makes the request that publishing its bytes makes:
/// the two kinds of publication differ only in who owns the payload.
pub proof fn lemma_publish_bytes_publishes_its_bytes(
    r: Request,
    topic: Seq<char>,
    qos: QoS,
    retain: bool,
    payload: Bytes,
)
    requires
        publish_bytes_with(r, topic, qos, retain, payload),
    ensures
        publish_with(r, topic, qos, retain, bytes_content(payload)),
{
}

/// What a send that does not wait answers, for each outcome of the
/// channel: success, or the refused request inside `TryRequest`.
pub fn try_send_outcome(sent: Result<(), Request>) -> (r: Result<(), ClientError>)
    ensures
        match sent {
            Ok(()) => r is Ok,
            Err(back) => r == Err::<(), ClientError>(ClientError::TryRequest(back)),
        },
{
    match sent {
        Ok(()) => Ok(()),
        Err(back) => Err(ClientError::TryRequest(back)),
    }
}

/// What a waiting send answers, for each outcome of the channel: success,
/// or the refused request inside `Request`.
pub fn send_outcome(sent: Result<(), Request>) -> (r: Result<(), ClientError>)
    ensures
        match sent {
            Ok(()) => r is Ok,
            Err(back) => r == Err::<(), ClientError>(ClientError::Request(back)),
        },
{
    match sent {
        Ok(()) => Ok(()),
        Err(back) => Err(ClientError::Request(back)),
    }
}

/// A send of a buffer's publication answers as a send of the publication
/// of its bytes would: success, or that request given back.
pub proof fn lemma_publish_bytes_answers_as_publish(
    r: Result<(), ClientError>,
    topic: Seq<char>,
    qos: QoS,
    retain: bool,
    payload: Bytes,
)
    ensures
        answered(r, |q: Request| publish_bytes_with(q, topic, qos, retain, payload)) ==> answered(
            r,
            |q: Request| publish_with(q, topic, qos, retain, bytes_content(payload)),
        ),
        try_answered(r, |q: Request| publish_bytes_with(q, topic, qos, retain, payload))
            ==> try_answered(
            r,
            |q: Request| publish_with(q, topic, qos, retain, bytes_content(payload)),
        ),
{
}

/// The request that publishes `payload` on `topic`.
pub fn publish_request(topic: String, qos: QoS, retain: bool, payload: Vec<u8>) -> (r: Request)
    ensures
        publish_with(r, topic@, qos, retain, payload@),
{
    let mut publish = Publish::new(topic, qos, payload);
    publish.retain = retain;
    Request::Publish(publish)
}

/// The request that publishes the buffer `payload` on `topic`.
pub fn publish_bytes_request(topic: String, qos: QoS, retain: bool, payload: Bytes) -> (r: Request)
    ensures
        publish_bytes_with(r, topic@, qos, retain, payload),
{
    let mut publish = Publish::from_bytes(topic, qos, payload);
    publish.retain = retain;
    Request::Publish(publish)
}

/// The request that subscribes to `topic` alone.
pub fn subscribe_request(topic: String, qos: QoS) -> (r: Request)
    ensures
        subscribe_with(r, seq![(SubscribeFilter { path: topic, qos })]),
{
    Request::Subscribe(Subscribe::new(topic, qos))
}

/// The request that subscribes to `topics`, in their order.
pub fn subscribe_many_request(topics: Vec<SubscribeFilter>) -> (r: Request)
    ensures
        subscribe_with(r, topics@),
{
    Request::Subscribe(Subscribe::new_many(topics))
}

/// The request that leaves `topic`.
pub fn unsubscribe_request(topic: String) -> (r: Request)
    ensures
        unsubscribe_with(r, topic),
{
    Request::Unsubscribe(Unsubscribe::new(topic))
}

/// The acknowledgement that `publish` calls for, if any.
pub fn get_ack_req(publish: &Publish) -> (r: Option<Request>)
    ensures
        r == ack_for(*publish),
{
    let ack = match publish.qos {
        QoS::AtMostOnce => return None,
        QoS::AtLeastOnce => Request::PubAck(PubAck::new(publish.pkid)),
        QoS::ExactlyOnce => Request::PubRec(PubRec::new(publish.pkid)),
    };
    Some(ack)
}

/// A handle that hands requests to an event loop. Sends that wait for room
/// in the channel are made from asynchronous code, around
/// [`publish_request`] and its siblings; the sends here do not wait.
#[derive(Debug)]
pub struct AsyncClient {
    request_tx: Sender<Request>,
}

impl Clone for AsyncClient {
    fn clone(&self) -> (c: Self)
        ensures
            c.sender() == self.sender(),
    {
        AsyncClient { request_tx: channel::clone_sender(&self.request_tx) }
    }
}

impl AsyncClient {
    /// The channel end that this client sends on.
    pub closed spec fn sender(&self) -> Sender<Request> {
        self.request_tx
    }

    /// A client and the event loop that it feeds, over a channel of
    /// capacity `cap`.
    pub fn new(options: MqttOptions, cap: usize) -> (r: (AsyncClient, EventLoop))
        ensures
            r.1.options == options,
            r.0.sender() == r.1.requests_tx,
            request_capacity(r.1.requests_tx) == Some(cap),
    {
        let eventloop = EventLoop::new(options, cap);
        let request_tx = channel::clone_sender(&eventloop.requests_tx);
        let client = AsyncClient { request_tx };
        (client, eventloop)
    }

    /// The channel end that this client sends on, for the sends that wait
    /// inside asynchronous code.
    pub fn request_tx(&self) -> (tx: &Sender<Request>)
        ensures
            *tx == self.sender(),
    {
        &self.request_tx
    }

    /// A client that sends on `request_tx`.
    pub fn from_senders(request_tx: Sender<Request>) -> (c: AsyncClient)
        ensures
            c.sender() == request_tx,
    {
        AsyncClient { request_tx }
    }

    /// Hands `request` over without waiting.
    fn try_send_request(&self, request: Request) -> (r: Result<(), ClientError>)
        ensures
            try_answered(r, |q: Request| q == request),
    {
        try_send_outcome(channel::try_send(&self.request_tx, request))
    }

    /// Hands `request` over, waiting for room in the channel.
    fn send_request(&self, request: Request) -> (r: Result<(), ClientError>)
        ensures
            answered(r, |q: Request| q == request),
    {
        send_outcome(channel::send_blocking(&self.request_tx, request))
    }

    /// Attempts to send a publication of `payload` on `topic`.
    pub fn try_publish(&self, topic: String, qos: QoS, retain: bool, payload: Vec<u8>) -> (r:
        Result<(), ClientError>)
        ensures
            try_answered(r, |q: Request| publish_with(q, topic@, qos, retain, payload@)),
    {
        let publish = publish_request(topic, qos, retain, payload);
        self.try_send_request(publish)
    }

    /// Attempts to send the acknowledgement that `publish` calls for; there
    /// is nothing to send at quality `AtMostOnce`.
    pub fn try_ack(&self, publish: &Publish) -> (r: Result<(), ClientError>)
        ensures
            match ack_for(*publish) {
                None => r is Ok,
                Some(ack) => try_answered(r, |q: Request| q == ack),
            },
    {
        let ack = get_ack_req(publish);
        if let Some(ack) = ack {
            self.try_send_request(ack)
        } else {
            Ok(())
        }
    }

    /// Attempts to send a subscription to `topic`.
    pub fn try_subscribe(&self, topic: String, qos: QoS) -> (r: Result<(), ClientError>)
        ensures
            try_answered(
                r,
                |q: Request| subscribe_with(q, seq![(SubscribeFilter { path: topic, qos })]),
            ),
    {
        let request = subscribe_request(topic, qos);
        self.try_send_request(request)
    }

    /// Attempts to send a subscription to `topics`.
    pub fn try_subscribe_many(&self, topics: Vec<SubscribeFilter>) -> (r: Result<(), ClientError>)
        ensures
            try_answered(r, |q: Request| subscribe_with(q, topics@)),
    {
        let request = subscribe_many_request(topics);
        self.try_send_request(request)
    }

    /// Attempts to send a request to leave `topic`.
    pub fn try_unsubscribe(&self, topic: String) -> (r: Result<(), ClientError>)
        ensures
            try_answered(r, |q: Request| unsubscribe_with(q, topic)),
    {
        let request = unsubscribe_request(topic);
        self.try_send_request(request)
    }

    /// Attempts to send a disconnection.
    pub fn try_disconnect(&self) -> (r: Result<(), ClientError>)
        ensures
            try_answered(r, |q: Request| q == Request::Disconnect),
    {
        self.try_send_request(Request::Disconnect)
    }
}

/// A handle that hands requests to an event loop from synchronous code:
/// `publish` and its siblings wait for room in the channel, the `try_`
/// methods do not.
pub struct Client {
    client: AsyncClient,
}

impl Clone for Client {
    fn clone(&self) -> (c: Self)
        ensures
            c.sender() == self.sender(),
    {
        Client { client: self.client.clone() }
    }
}

#[verifier::external_type_specification]
#[verifier::external_body]
pub struct ExRuntime(Runtime);

#[verifier::external_type_specification]
#[verifier::external_body]
pub struct ExIoError(std::io::Error);

/// Builds a tokio runtime with `Builder::new_current_thread`, every driver
/// switched on by `enable_all`, and `build`. Whether it can be built rests on
/// the machine (`build` fails with an I/O error when the drivers cannot be
/// set up), so nothing is stated of the outcome.
#[verifier::external_body]
fn current_thread_runtime() -> Result<Runtime, std::io::Error> {
    tokio::runtime::Builder::new_current_thread().enable_all().build()
}

/// What the event loop reports to its connection.
#[derive(Debug, PartialEq, Eq)]
pub enum Event {
    /// A request that the event loop took from its clients and handled.
    Outgoing(Request),
}

/// Why the event loop could not make progress.
#[derive(Debug, PartialEq, Eq)]
pub enum ConnectionError {
    /// Every client is gone: no request can come any more.
    RequestsDone,
    /// The link to the broker failed, for this reason.
    Network(String),
}

/// What iterating a connection yields for one outcome of polling its event
/// loop: the outcome itself, except that the end of the requests ends the
/// iteration.
pub open spec fn next_item_of(polled: Result<Event, ConnectionError>) -> Option<
    Result<Event, ConnectionError>,
> {
    match polled {
        Ok(v) => Some(Ok(v)),
        Err(ConnectionError::RequestsDone) => None,
        Err(e) => Some(Err(e)),
    }
}

/// What iterating a connection yields for the outcome `polled` of one poll
/// of its event loop.
pub fn next_item(polled: Result<Event, ConnectionError>) -> (r: Option<
    Result<Event, ConnectionError>,
>)
    ensures
        r == next_item_of(polled),
{
    match polled {
        Ok(v) => Some(Ok(v)),
        Err(ConnectionError::RequestsDone) => None,
        Err(e) => Some(Err(e)),
    }
}

/// An event loop and the runtime that drives it. Iterating over a
/// connection is what makes the event loop progress; the runtime is lent to
/// the iterator while it lives.
pub struct Connection {
    pub eventloop: EventLoop,
    pub runtime: Option<Runtime>,
}

impl Connection {
    fn new(eventloop: EventLoop, runtime: Runtime) -> (c: Connection)
        ensures
            c.eventloop == eventloop,
            c.runtime == Some(runtime),
    {
        Connection { eventloop, runtime: Some(runtime) }
    }
}

impl Client {
    /// The channel end that this client sends on.
    pub closed spec fn sender(&self) -> Sender<Request> {
        self.client.sender()
    }

    /// A client and the connection that it feeds, over a channel of capacity
    /// `cap`, with a runtime of its own for the connection; fails when the
    /// runtime cannot be built.
    pub fn new(options: MqttOptions, cap: usize) -> (r: Result<(Client, Connection), std::io::Error>)
        ensures
            r matches Ok((c, conn)) ==> {
                &&& conn.eventloop.options == options
                &&& c.sender() == conn.eventloop.requests_tx
                &&& request_capacity(conn.eventloop.requests_tx) == Some(cap)
                &&& conn.runtime is Some
            },
    {
        let (client, eventloop) = AsyncClient::new(options, cap);
        let client = Client { client };
        let runtime = match current_thread_runtime() {
            Ok(runtime) => runtime,
            Err(e) => return Err(e),
        };
        let connection = Connection::new(eventloop, runtime);
        Ok((client, connection))
    }

    /// Sends a publication of `payload` on `topic`, waiting for room in the
    /// channel.
    pub fn publish(&mut self, topic: String, qos: QoS, retain: bool, payload: Vec<u8>) -> (r: Result<
        (),
        ClientError,
    >)
        ensures
            *final(self) == *old(self),
            answered(r, |q: Request| publish_with(q, topic@, qos, retain, payload@)),
    {
        let publish = publish_request(topic, qos, retain, payload);
        self.client.send_request(publish)
    }

    /// Attempts to send a publication of `payload` on `topic`.
    pub fn try_publish(&mut self, topic: String, qos: QoS, retain: bool, payload: Vec<u8>) -> (r:
        Result<(), ClientError>)
        ensures
            *final(self) == *old(self),
            try_answered(r, |q: Request| publish_with(q, topic@, qos, retain, payload@)),
    {
        self.client.try_publish(topic, qos, retain, payload)
    }

    /// Sends the acknowledgement that `publish` calls for, waiting for room
    /// in the channel; there is nothing to send at quality `AtMostOnce`.
    pub fn ack(&self, publish: &Publish) -> (r: Result<(), ClientError>)
        ensures
            match ack_for(*publish) {
                None => r is Ok,
                Some(ack) => answered(r, |q: Request| q == ack),
            },
    {
        let ack = get_ack_req(publish);
        if let Some(ack) = ack {
            self.client.send_request(ack)
        } else {
            Ok(())
        }
    }

    /// Attempts to send the acknowledgement that `publish` calls for.
    pub fn try_ack(&self, publish: &Publish) -> (r: Result<(), ClientError>)
        ensures
            match ack_for(*publish) {
                None => r is Ok,
                Some(ack) => try_answered(r, |q: Request| q == ack),
            },
    {
        self.client.try_ack(publish)
    }

    /// Sends a subscription to `topic`, waiting for room in the channel.
    pub fn subscribe(&mut self, topic: String, qos: QoS) -> (r: Result<(), ClientError>)
        ensures
            *final(self) == *old(self),
            answered(
                r,
                |q: Request| subscribe_with(q, seq![(SubscribeFilter { path: topic, qos })]),
            ),
    {
        let request = subscribe_request(topic, qos);
        self.client.send_request(request)
    }

    /// Attempts to send a subscription to `topic`.
    pub fn try_subscribe(&mut self, topic: String, qos: QoS) -> (r: Result<(), ClientError>)
        ensures
            *final(self) == *old(self),
            try_answered(
                r,
                |q: Request| subscribe_with(q, seq![(SubscribeFilter { path: topic, qos })]),
            ),
    {
        self.client.try_subscribe(topic, qos)
    }

    /// Sends a subscription to `topics`, waiting for room in the channel.
    pub fn subscribe_many(&mut self, topics: Vec<SubscribeFilter>) -> (r: Result<(), ClientError>)
        ensures
            *final(self) == *old(self),
            answered(r, |q: Request| subscribe_with(q, topics@)),
    {
        let request = subscribe_many_request(topics);
        self.client.send_request(request)
    }

    /// Attempts to send a subscription to `topics`.
    pub fn try_subscribe_many(&mut self, topics: Vec<SubscribeFilter>) -> (r: Result<
        (),
        ClientError,
    >)
        ensures
            *final(self) == *old(self),
            try_answered(r, |q: Request| subscribe_with(q, topics@)),
    {
        self.client.try_subscribe_many(topics)
    }

    /// Sends a request to leave `topic`, waiting for room in the channel.
    pub fn unsubscribe(&mut self, topic: String) -> (r: Result<(), ClientError>)
        ensures
            *final(self) == *old(self),
            answered(r, |q: Request| unsubscribe_with(q, topic)),
    {
        let request = unsubscribe_request(topic);
        self.client.send_request(request)
    }

    /// Attempts to send a request to leave `topic`.
    pub fn try_unsubscribe(&mut self, topic: String) -> (r: Result<(), ClientError>)
        ensures
            *final(self) == *old(self),
            try_answered(r, |q: Request| unsubscribe_with(q, topic)),
    {
        self.client.try_unsubscribe(topic)
    }

    /// Sends a disconnection, waiting for room in the channel.
    pub fn disconnect(&mut self) -> (r: Result<(), ClientError>)
        ensures
            *final(self) == *old(self),
            answered(r, |q: Request| q == Request::Disconnect),
    {
        self.client.send_request(Request::Disconnect)
    }

    /// Attempts to send a disconnection.
    pub fn try_disconnect(&mut self) -> (r: Result<(), ClientError>)
        ensures
            *final(self) == *old(self),
            try_answered(r, |q: Request| q == Request::Disconnect),
    {
        self.client.try_disconnect()
    }
}

} // verus!
