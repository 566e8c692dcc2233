//! The broker's console link: a connection to the router that answers the
//! console's questions about the router and its connections, and the routes
//! of the console's HTTP interface.

use vstd::prelude::*;
use std::sync::Arc;
use flume::{Receiver, Sender};
use crate::channel;
use crate::channel::notification_capacity;

verus! {

/// Specifies `String::push`, which appends `ch` to the string.
pub assume_specification[ String::push ](s: &mut String, ch: char)
    ensures
        final(s)@ == old(s)@.push(ch),
;

/// The number by which the router knows a connection.
pub type ConnectionId = usize;

/// Where the console listens, as the text of a socket address.
#[derive(Debug, Clone, PartialEq, Eq)]
pub struct ConsoleSettings {
    pub listen: String,
}

/// The part of the broker's configuration that the console serves.
#[derive(Debug, Clone, PartialEq, Eq)]
pub struct Config {
    pub id: usize,
    pub console: ConsoleSettings,
}

/// A connection as the router sees it: its client identifier, whether its
/// session starts clean, and where the router sends what is meant for it.
#[derive(Debug)]
pub struct Connection {
    pub id: String,
    pub clean: bool,
    pub tx: Sender<Notification>,
}

impl Connection {
    /// A connection that is not a device of this broker, and the receiving
    /// end of the channel (of capacity `capacity`) that the router answers it
    /// on.
    pub fn new_remote(id: &str, clean: bool, capacity: usize) -> (r: (
        Connection,
        Receiver<Notification>,
    ))
        ensures
            r.0.id@ == id@,
            r.0.clean == clean,
            notification_capacity(r.1) == Some(capacity),
    {
        let (tx, rx) = channel::bounded_notifications(capacity);
        let connection = Connection { id: id.to_owned(), clean, tx };
        (connection, rx)
    }
}

/// A question about the broker's state.
#[derive(Debug, PartialEq, Eq)]
pub enum MetricsRequest {
    Router,
    Connection(String),
}

impl Clone for MetricsRequest {
    fn clone(&self) -> (c: Self)
        ensures
            c == *self,
    {
        match self {
            MetricsRequest::Router => MetricsRequest::Router,
            MetricsRequest::Connection(id) => MetricsRequest::Connection(id.clone()),
        }
    }
}

/// What a connection tells the router.
#[derive(Debug)]
pub enum Event {
    Connect(Connection),
    Metrics(MetricsRequest),
}

/// The router's counters.
#[derive(Debug, Clone, PartialEq, Eq)]
pub struct RouterMetrics {
    pub router_id: usize,
    pub total_connections: usize,
    pub total_subscriptions: usize,
}

/// What the router knows of one connection.
#[derive(Debug, Clone, PartialEq, Eq)]
pub struct ConnectionMetrics {
    pub id: String,
    pub subscriptions: Vec<String>,
}

/// The router's answer to a [`MetricsRequest`].
#[derive(Debug, Clone, PartialEq, Eq)]
pub enum MetricsReply {
    Router(RouterMetrics),
    Connection(ConnectionMetrics),
}

/// The router's answer to a connection request: the new connection's
/// number and whether a session was resumed, or why it was refused.
#[derive(Debug, PartialEq, Eq)]
pub enum ConnectionAck {
    Success((ConnectionId, bool)),
    Failure(String),
}

/// What the router tells a connection.
#[derive(Debug, PartialEq, Eq)]
pub enum Notification {
    ConnectionAck(ConnectionAck),
    Metrics(MetricsReply),
}

/// Why the console could not get an answer from the router.
#[derive(Debug, PartialEq, Eq)]
pub enum ConsoleError {
    /// The router no longer takes events.
    RouterClosed,
    /// The router dropped the console's connection.
    LinkClosed,
    /// The router refused the console's connection, for this reason.
    ConnectionRefused(String),
    /// The router answered with something that does not answer the question.
    UnexpectedNotification(Notification),
}

/// What the router's answer `notification` to a connection request means
/// for the console: the number of the accepted connection, or the error.
pub open spec fn ack_outcome(notification: Notification) -> Result<ConnectionId, ConsoleError> {
    match notification {
        Notification::ConnectionAck(ConnectionAck::Success((id, _))) => Ok(id),
        Notification::ConnectionAck(ConnectionAck::Failure(reason)) => Err(
            ConsoleError::ConnectionRefused(reason),
        ),
        _ => Err(ConsoleError::UnexpectedNotification(notification)),
    }
}

/// Reads the router's answer to the console's connection request.
pub fn connection_id(notification: Notification) -> (r: Result<ConnectionId, ConsoleError>)
    ensures
        r == ack_outcome(notification),
{
    match notification {
        Notification::ConnectionAck(ConnectionAck::Success((id, _))) => Ok(id),
        Notification::ConnectionAck(ConnectionAck::Failure(reason)) => Err(
            ConsoleError::ConnectionRefused(reason),
        ),
        other => Err(ConsoleError::UnexpectedNotification(other)),
    }
}

/// `reply` is of the kind that `request` asks for.
pub open spec fn reply_answers(request: MetricsRequest, reply: MetricsReply) -> bool {
    match request {
        MetricsRequest::Router => reply is Router,
        MetricsRequest::Connection(_) => reply is Connection,
    }
}

/// What the router's answer `notification` to `request` means for the
/// console: the reply, if it is of the kind asked for, or the error.
pub open spec fn metrics_outcome(request: MetricsRequest, notification: Notification) -> Result<
    MetricsReply,
    ConsoleError,
> {
    match notification {
        Notification::Metrics(reply) => if reply_answers(request, reply) {
            Ok(reply)
        } else {
            Err(ConsoleError::UnexpectedNotification(notification))
        },
        _ => Err(ConsoleError::UnexpectedNotification(notification)),
    }
}

/// `r` is what the console may get for asking the router `request`: a
/// reply of the kind asked for; the router's or the link's closing; or an
/// answer that is not such a reply.
pub open spec fn metrics_answered(request: MetricsRequest, r: Result<MetricsReply, ConsoleError>) -> bool {
    match r {
        Ok(reply) => reply_answers(request, reply),
        Err(ConsoleError::UnexpectedNotification(n)) => !(n matches Notification::Metrics(reply)
            && reply_answers(request, reply)),
        Err(ConsoleError::ConnectionRefused(_)) => false,
        Err(_) => true,
    }
}

/// Reads the router's answer to the question `request`.
pub fn accept_metrics_reply(request: &MetricsRequest, notification: Notification) -> (r: Result<
    MetricsReply,
    ConsoleError,
>)
    ensures
        r == metrics_outcome(*request, notification),
{
    let answers = match (request, &notification) {
        (MetricsRequest::Router, Notification::Metrics(MetricsReply::Router(_))) => true,
        (MetricsRequest::Connection(_), Notification::Metrics(MetricsReply::Connection(_))) => true,
        _ => false,
    };
    if answers {
        match notification {
            Notification::Metrics(reply) => Ok(reply),
            other => Err(ConsoleError::UnexpectedNotification(other)),
        }
    } else {
        Err(ConsoleError::UnexpectedNotification(notification))
    }
}

/// The client identifier of the console's connection.
pub open spec fn console_client_id() -> Seq<char> {
    seq!['c', 'o', 'n', 's', 'o', 'l', 'e']
}

/// The console's connection: named `console`, with a clean session, and
/// answered over a channel of capacity 10; with the receiving end of that
/// channel.
pub fn console_connection() -> (r: (Connection, Receiver<Notification>))
    ensures
        r.0.id@ == console_client_id(),
        r.0.clean,
        notification_capacity(r.1) == Some(10usize),
{
    let r = Connection::new_remote("console", true, 10);
    proof {
        reveal_strlit("console");
    }
    r
}

/// The message that asks the router to take `connection`: a connection
/// that has no number yet speaks as number 0.
pub fn connect_message(connection: Connection) -> (m: (ConnectionId, Event))
    ensures
        m == (0usize, Event::Connect(connection)),
{
    (0, Event::Connect(connection))
}

/// The message in which connection `id` asks the router `request`.
pub fn metrics_message(id: ConnectionId, request: MetricsRequest) -> (m: (ConnectionId, Event))
    ensures
        m == (id, Event::Metrics(request)),
{
    (id, Event::Metrics(request))
}

/// What the console makes of what came over its link after it asked
/// `request`: the link's closing, or the reading of the answer.
pub open spec fn metrics_reply_of(request: MetricsRequest, received: Option<Notification>) -> Result<
    MetricsReply,
    ConsoleError,
> {
    match received {
        None => Err(ConsoleError::LinkClosed),
        Some(n) => metrics_outcome(request, n),
    }
}

/// Reads what came over the link after the console asked `request`.
pub fn metrics_reply(request: &MetricsRequest, received: Option<Notification>) -> (r: Result<
    MetricsReply,
    ConsoleError,
>)
    ensures
        r == metrics_reply_of(*request, received),
{
    match received {
        Some(notification) => accept_metrics_reply(request, notification),
        None => Err(ConsoleError::LinkClosed),
    }
}

/// The console's connection to the router.
pub struct ConsoleLink {
    config: Arc<Config>,
    id: ConnectionId,
    router_tx: Sender<(ConnectionId, Event)>,
    link_rx: Receiver<Notification>,
    acknowledgement: Ghost<Notification>,
}

impl ConsoleLink {
    /// The router's answer to the connection request that this link was
    /// made from.
    pub closed spec fn acknowledgement(&self) -> Notification {
        self.acknowledgement@
    }

    /// The link speaks under the number that the router's answer gave it.
    pub open spec fn is_acknowledged(&self) -> bool {
        ack_outcome(self.acknowledgement()) == Ok::<ConnectionId, ConsoleError>(self.link_id())
    }

    /// The configuration that the console serves.
    pub closed spec fn served_config(&self) -> Config {
        *self.config
    }

    /// The channel on which the console talks to the router.
    pub closed spec fn router_sender(&self) -> Sender<(ConnectionId, Event)> {
        self.router_tx
    }

    /// The number by which the router knows the console.
    pub closed spec fn link_id(&self) -> ConnectionId {
        self.id
    }

    /// The channel on which the router answers the console.
    pub closed spec fn link_receiver(&self) -> Receiver<Notification> {
        self.link_rx
    }

    /// The link that the router's answer `received` to the console's
    /// connection request makes: the console under the number that the
    /// router gave, or why there is none.
    pub fn from_ack(
        config: Arc<Config>,
        router_tx: Sender<(ConnectionId, Event)>,
        link_rx: Receiver<Notification>,
        received: Option<Notification>,
    ) -> (r: Result<ConsoleLink, ConsoleError>)
        ensures
            match received {
                None => r == Err::<ConsoleLink, ConsoleError>(ConsoleError::LinkClosed),
                Some(n) => match ack_outcome(n) {
                    Ok(id) => r matches Ok(link) && {
                        &&& link.link_id() == id
                        &&& link.acknowledgement() == n
                        &&& link.is_acknowledged()
                        &&& link.served_config() == *config
                        &&& link.router_sender() == router_tx
                        &&& link.link_receiver() == link_rx
                    },
                    Err(e) => r matches Err(e2) && e2 == e,
                },
            },
    {
        let notification = match received {
            Some(notification) => notification,
            None => return Err(ConsoleError::LinkClosed),
        };
        let ghost acknowledgement = notification;
        match connection_id(notification) {
            Ok(id) => Ok(
                ConsoleLink { config, id, router_tx, link_rx, acknowledgement: Ghost(acknowledgement) },
            ),
            Err(e) => Err(e),
        }
    }

    /// Connects the console to the router behind `router_tx`: sends it a
    /// clean connection named `console` whose answers come over a channel
    /// of capacity 10, and waits for the router's answer. The router must be
    /// running for this to return.
    pub fn new(config: Arc<Config>, router_tx: Sender<(ConnectionId, Event)>) -> (r: Result<
        ConsoleLink,
        ConsoleError,
    >)
        ensures
            r matches Ok(link) ==> {
                &&& link.is_acknowledged()
                &&& link.served_config() == *config
                &&& link.router_sender() == router_tx
                &&& notification_capacity(link.link_receiver()) == Some(10usize)
            },
            r matches Err(ConsoleError::UnexpectedNotification(n)) ==> !(n is ConnectionAck),
    {
        let (connection, link_rx) = console_connection();
        let message = connect_message(connection);
        if channel::send(&router_tx, message).is_err() {
            return Err(ConsoleError::RouterClosed);
        }
        let received = channel::recv(&link_rx);
        ConsoleLink::from_ack(config, router_tx, link_rx, received)
    }

    /// The configuration that the console serves.
    pub fn config(&self) -> (c: &Config)
        ensures
            *c == self.served_config(),
    {
        &*self.config
    }

    /// Asks the router `request` over the console's connection and waits for
    /// the answer.
    pub fn metrics(&self, request: MetricsRequest) -> (r: Result<MetricsReply, ConsoleError>)
        ensures
            metrics_answered(request, r),
    {
        let asked = request.clone();
        let message = metrics_message(self.id, request);
        if channel::send(&self.router_tx, message).is_err() {
            return Err(ConsoleError::RouterClosed);
        }
        let received = channel::recv(&self.link_rx);
        metrics_reply(&asked, received)
    }
}

/// A link speaks to the router under the number that the router's
/// acknowledgement gave it: for every number and session flag, a link made
/// from `Success((id, session))` has the number `id`, which
/// [`ConsoleLink::metrics`] puts in every question it asks.
pub proof fn law_link_speaks_under_acknowledged_number(
    link: ConsoleLink,
    id: ConnectionId,
    session: bool,
)
    requires
        link.is_acknowledged(),
        link.acknowledgement() == Notification::ConnectionAck(ConnectionAck::Success((id, session))),
    ensures
        link.link_id() == id,
{
}

/// A page of the console's HTTP interface.
#[derive(Debug, PartialEq, Eq)]
pub enum ConsoleRoute {
    /// `node/config`: the broker's configuration.
    Config,
    /// `node/router`: the router's counters.
    Router,
    /// `node/<id>`: what the router knows of connection `<id>`.
    Connection(String),
}

/// What the console serves on a page.
#[derive(Debug, PartialEq, Eq)]
pub enum ConsoleReply {
    /// The configuration, as [`ConsoleLink::config`] gives it.
    Config,
    /// The router's answer.
    Metrics(MetricsReply),
}

/// The question that the router is asked for `route`, if any.
pub open spec fn route_question(route: ConsoleRoute) -> Option<MetricsRequest> {
    match route {
        ConsoleRoute::Config => None,
        ConsoleRoute::Router => Some(MetricsRequest::Router),
        ConsoleRoute::Connection(id) => Some(MetricsRequest::Connection(id)),
    }
}

/// The question that the router is asked for `route`, if any.
pub fn metrics_question(route: ConsoleRoute) -> (q: Option<MetricsRequest>)
    ensures
        q == route_question(route),
{
    match route {
        ConsoleRoute::Config => None,
        ConsoleRoute::Router => Some(MetricsRequest::Router),
        ConsoleRoute::Connection(id) => Some(MetricsRequest::Connection(id)),
    }
}

impl ConsoleLink {
    /// Serves `route`: the configuration needs no question; the other pages
    /// ask the router.
    pub fn serve(&self, route: ConsoleRoute) -> (r: Result<ConsoleReply, ConsoleError>)
        ensures
            match route_question(route) {
                None => r == Ok::<ConsoleReply, ConsoleError>(ConsoleReply::Config),
                Some(question) => match r {
                    Ok(ConsoleReply::Config) => false,
                    Ok(ConsoleReply::Metrics(reply)) => reply_answers(question, reply),
                    Err(e) => metrics_answered(question, Err(e)),
                },
            },
    {
        match metrics_question(route) {
            None => Ok(ConsoleReply::Config),
            Some(question) => match self.metrics(question) {
                Ok(reply) => Ok(ConsoleReply::Metrics(reply)),
                Err(e) => Err(e),
            },
        }
    }
}

pub open spec fn node_prefix() -> Seq<char> {
    seq!['n', 'o', 'd', 'e', '/']
}

pub open spec fn config_segment() -> Seq<char> {
    seq!['c', 'o', 'n', 'f', 'i', 'g']
}

pub open spec fn router_segment() -> Seq<char> {
    seq!['r', 'o', 'u', 't', 'e', 'r']
}

/// The second segment of a request path of the form `[/]node/<segment>[/]`,
/// where the segment is not empty and holds no `/`; `None` for any other
/// path. The leading and the trailing `/` are each optional.
pub open spec fn node_segment(path: Seq<char>) -> Option<Seq<char>> {
    let rest = if path.len() > 0 && path[0] == '/' {
        path.skip(1)
    } else {
        path
    };
    if rest.len() >= 5 && rest.take(5) == node_prefix() {
        let tail = rest.skip(5);
        let segment = if tail.len() > 0 && tail.last() == '/' {
            tail.drop_last()
        } else {
            tail
        };
        if segment.len() > 0 && !segment.contains('/') {
            Some(segment)
        } else {
            None
        }
    } else {
        None
    }
}

/// The path `/node/<id>`, with or without a trailing `/`, has `<id>` as
/// its segment, for every `<id>` that is not empty and holds no `/`: so
/// [`route`] sends it to the page of connection `<id>`, unless `<id>` is
/// `config` or `router`.
pub proof fn lemma_node_path_segment(id: Seq<char>, trailing: bool)
    requires
        id.len() > 0,
        !id.contains('/'),
    ensures
        node_segment(
            seq!['/'] + node_prefix() + id + (if trailing {
                seq!['/']
            } else {
                Seq::<char>::empty()
            }),
        ) == Some(id),
{
    let end = if trailing {
        seq!['/']
    } else {
        Seq::<char>::empty()
    };
    let path = seq!['/'] + node_prefix() + id + end;
    let rest = path.skip(1);
    assert(rest =~= node_prefix() + id + end);
    assert(rest.take(5) =~= node_prefix());
    let tail = rest.skip(5);
    assert(tail =~= id + end);
    if trailing {
        assert(tail.drop_last() =~= id);
    } else {
        assert(tail.last() == id[id.len() - 1]);
        assert(tail.last() != '/');
    }
}

/// The characters of `s`, in order.
fn chars_of(s: &str) -> (v: Vec<char>)
    ensures
        v@ == s@,
{
    let mut v: Vec<char> = Vec::new();
    for c in it: s.chars()
        invariant
            v@ == it.seq().take(it.index()),
    {
        v.push(c);
    }
    v
}

/// `v[lo..lo + word.len()]` spells `word`.
fn spells_at(v: &Vec<char>, lo: usize, word: &Vec<char>) -> (b: bool)
    requires
        lo + word.len() <= v.len(),
    ensures
        b == (v@.subrange(lo as int, lo + word.len()) == word@),
{
    let mut k: usize = 0;
    while k < word.len()
        invariant
            lo + word.len() <= v.len(),
            k <= word.len(),
            v@.subrange(lo as int, lo + k) == word@.take(k as int),
        decreases word.len() - k,
    {
        if v[lo + k] != word[k] {
            assert(v@.subrange(lo as int, lo + word.len())[k as int] != word@[k as int]);
            return false;
        }
        k = k + 1;
        assert(v@.subrange(lo as int, lo + k) =~= word@.take(k as int));
    }
    assert(word@.take(word.len() as int) =~= word@);
    true
}

/// Where the text after the optional leading `/` of `path` starts.
pub open spec fn path_start(path: Seq<char>) -> int {
    if path.len() > 0 && path[0] == '/' {
        1
    } else {
        0
    }
}

/// Where the text before the optional trailing `/` of `path` ends, for a
/// path whose segment starts at `lo`.
pub open spec fn segment_end(path: Seq<char>, lo: int) -> int {
    if path.len() > lo && path[path.len() - 1] == '/' {
        path.len() - 1
    } else {
        path.len() as int
    }
}

proof fn lemma_node_segment_shape(path: Seq<char>)
    ensures
        ({
            let start = path_start(path);
            let lo = start + 5;
            let hi = segment_end(path, lo);
            if path.len() >= lo && path.subrange(start, lo) == node_prefix() {
                node_segment(path) == (if hi > lo && !path.subrange(lo, hi).contains('/') {
                    Some(path.subrange(lo, hi))
                } else {
                    None::<Seq<char>>
                })
            } else {
                node_segment(path) is None
            }
        }),
{
    let start = path_start(path);
    let rest = if path.len() > 0 && path[0] == '/' {
        path.skip(1)
    } else {
        path
    };
    assert(rest =~= path.subrange(start, path.len() as int));
    let lo = start + 5;
    if path.len() >= lo {
        assert(rest.take(5) =~= path.subrange(start, lo));
        let tail = rest.skip(5);
        assert(tail =~= path.subrange(lo, path.len() as int));
        let hi = segment_end(path, lo);
        if tail.len() > 0 && tail.last() == '/' {
            assert(tail.drop_last() =~= path.subrange(lo, hi));
        } else {
            assert(tail =~= path.subrange(lo, hi));
        }
    }
}

/// The page that the request path `path` names, the way the console's
/// filters `node/config`, then `node/router`, then `node/<id>` match it.
pub fn route(path: &str) -> (r: Option<ConsoleRoute>)
    ensures
        match node_segment(path@) {
            None => r is None,
            Some(segment) => if segment == config_segment() {
                r == Some(ConsoleRoute::Config)
            } else if segment == router_segment() {
                r == Some(ConsoleRoute::Router)
            } else {
                r matches Some(ConsoleRoute::Connection(id)) && id@ == segment
            },
        },
{
    let v = chars_of(path);
    proof {
        lemma_node_segment_shape(v@);
    }
    let n = v.len();
    let start: usize = if n > 0 && v[0] == '/' {
        1
    } else {
        0
    };
    let prefix = vec!['n', 'o', 'd', 'e', '/'];
    if n - start < 5 {
        return None;
    }
    if !spells_at(&v, start, &prefix) {
        return None;
    }
    let lo = start + 5;
    let hi: usize = if n > lo && v[n - 1] == '/' {
        n - 1
    } else {
        n
    };
    let ghost segment = v@.subrange(lo as int, hi as int);
    if hi == lo {
        return None;
    }
    let mut id = String::new();
    let mut i = lo;
    while i < hi
        invariant
            lo <= i <= hi <= v.len(),
            segment == v@.subrange(lo as int, hi as int),
            node_segment(path@) == (if !segment.contains('/') {
                Some(segment)
            } else {
                None::<Seq<char>>
            }),
            id@ == v@.subrange(lo as int, i as int),
            forall|j: int| lo <= j < i ==> v@[j] != '/',
        decreases hi - i,
    {
        if v[i] == '/' {
            assert(segment[i - lo] == '/');
            assert(segment.contains('/'));
            return None;
        }
        id.push(v[i]);
        i = i + 1;
        assert(id@ =~= v@.subrange(lo as int, i as int));
    }
    assert(!segment.contains('/')) by {
        if segment.contains('/') {
            let j = choose|j: int| 0 <= j < segment.len() && segment[j] == '/';
            assert(v@[lo + j] == '/');
        }
    }
    let config = vec!['c', 'o', 'n', 'f', 'i', 'g'];
    let router = vec!['r', 'o', 'u', 't', 'e', 'r'];
    if hi - lo == 6 && spells_at(&v, lo, &config) {
        Some(ConsoleRoute::Config)
    } else if hi - lo == 6 && spells_at(&v, lo, &router) {
        Some(ConsoleRoute::Router)
    } else {
        Some(ConsoleRoute::Connection(id))
    }
}

} // verus!
