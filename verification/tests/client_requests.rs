use bytes::Bytes;
use rumqtt::client::{
    get_ack_req, next_item, ConnectionError, Event, publish_bytes_request, send_outcome, try_send_outcome, publish_request, subscribe_many_request,
    subscribe_request, unsubscribe_request, AsyncClient, Client, ClientError, MqttOptions,
};
use rumqtt::packets::{
    PubAck, PubRec, Publish, QoS, Request, Subscribe, SubscribeFilter, Unsubscribe,
};

fn options() -> MqttOptions {
    MqttOptions {
        client_id: "test-client".to_string(),
        broker_addr: "localhost".to_string(),
        port: 1883,
    }
}

fn expected_publish(topic: &str, qos: QoS, retain: bool, payload: &[u8]) -> Request {
    Request::Publish(Publish {
        dup: false,
        qos,
        retain,
        topic: topic.to_string(),
        pkid: 0,
        payload: Bytes::from(payload.to_vec()),
    })
}

#[test]
fn publish_new_is_fresh_and_keeps_payload() {
    let p = Publish::new("a/b".to_string(), QoS::AtLeastOnce, vec![1, 2, 3]);
    assert!(!p.dup);
    assert!(!p.retain);
    assert_eq!(p.pkid, 0);
    assert_eq!(p.qos, QoS::AtLeastOnce);
    assert_eq!(p.topic, "a/b");
    assert_eq!(&p.payload[..], &[1u8, 2, 3][..]);
}

#[test]
fn publish_request_sets_retain() {
    let r = publish_request("t".to_string(), QoS::ExactlyOnce, true, b"hello".to_vec());
    assert_eq!(r, expected_publish("t", QoS::ExactlyOnce, true, b"hello"));
}

#[test]
fn publish_bytes_request_carries_the_buffer() {
    let r = publish_bytes_request("t".to_string(), QoS::AtMostOnce, false, Bytes::from_static(b"xy"));
    assert_eq!(r, expected_publish("t", QoS::AtMostOnce, false, b"xy"));
}

#[test]
fn publish_bytes_and_publish_agree() {
    let a = publish_request("t".to_string(), QoS::AtLeastOnce, true, vec![9, 8]);
    let b = publish_bytes_request("t".to_string(), QoS::AtLeastOnce, true, Bytes::from(vec![9, 8]));
    assert_eq!(a, b);
}

#[test]
fn subscribe_requests() {
    let r = subscribe_request("x/#".to_string(), QoS::AtLeastOnce);
    assert_eq!(
        r,
        Request::Subscribe(Subscribe {
            pkid: 0,
            filters: vec![SubscribeFilter { path: "x/#".to_string(), qos: QoS::AtLeastOnce }],
        })
    );
    let filters = vec![
        SubscribeFilter::new("a".to_string(), QoS::AtMostOnce),
        SubscribeFilter::new("b".to_string(), QoS::ExactlyOnce),
    ];
    let r = subscribe_many_request(filters.clone());
    assert_eq!(r, Request::Subscribe(Subscribe { pkid: 0, filters }));
}

#[test]
fn unsubscribe_request_names_the_topic() {
    let r = unsubscribe_request("x/y".to_string());
    assert_eq!(r, Request::Unsubscribe(Unsubscribe { pkid: 0, topics: vec!["x/y".to_string()] }));
}

fn publish_with_qos(qos: QoS, pkid: u16) -> Publish {
    let mut p = Publish::new("t".to_string(), qos, vec![]);
    p.pkid = pkid;
    p
}

#[test]
fn ack_of_at_most_once_is_none() {
    assert_eq!(get_ack_req(&publish_with_qos(QoS::AtMostOnce, 4)), None);
}

#[test]
fn ack_of_at_least_once_is_puback() {
    assert_eq!(
        get_ack_req(&publish_with_qos(QoS::AtLeastOnce, 4)),
        Some(Request::PubAck(PubAck::new(4)))
    );
}

#[test]
fn ack_of_exactly_once_is_pubrec() {
    assert_eq!(
        get_ack_req(&publish_with_qos(QoS::ExactlyOnce, 11)),
        Some(Request::PubRec(PubRec::new(11)))
    );
}

#[test]
fn try_publish_reaches_the_event_loop() {
    let (client, eventloop) = AsyncClient::new(options(), 10);
    assert_eq!(eventloop.options.client_id, "test-client");
    assert_eq!(eventloop.requests_tx.capacity(), Some(10));
    assert!(client.request_tx().same_channel(&eventloop.requests_tx));
    client.try_publish("t".to_string(), QoS::AtLeastOnce, false, vec![5]).unwrap();
    let got = eventloop.requests_rx.try_recv().unwrap();
    assert_eq!(got, expected_publish("t", QoS::AtLeastOnce, false, &[5]));
}

#[test]
fn try_publish_on_a_full_channel_hands_the_request_back() {
    let (client, eventloop) = AsyncClient::new(options(), 1);
    client.try_disconnect().unwrap();
    match client.try_publish("t".to_string(), QoS::AtMostOnce, true, vec![1, 2]) {
        Err(ClientError::TryRequest(r)) => {
            assert_eq!(r, expected_publish("t", QoS::AtMostOnce, true, &[1, 2]))
        }
        other => panic!("unexpected {:?}", other),
    }
    assert_eq!(eventloop.requests_rx.try_recv().unwrap(), Request::Disconnect);
    assert!(eventloop.requests_rx.try_recv().is_err());
}

#[test]
fn try_send_without_receiver_hands_the_request_back() {
    let (tx, rx) = flume::bounded(10);
    drop(rx);
    let client = AsyncClient::from_senders(tx);
    match client.try_unsubscribe("x".to_string()) {
        Err(ClientError::TryRequest(r)) => {
            assert_eq!(r, Request::Unsubscribe(Unsubscribe { pkid: 0, topics: vec!["x".to_string()] }))
        }
        other => panic!("unexpected {:?}", other),
    }
}

#[test]
fn try_ack_sends_only_what_is_owed() {
    let (tx, rx) = flume::bounded(10);
    let client = AsyncClient::from_senders(tx);
    client.try_ack(&publish_with_qos(QoS::AtMostOnce, 1)).unwrap();
    assert!(rx.try_recv().is_err());
    client.try_ack(&publish_with_qos(QoS::AtLeastOnce, 2)).unwrap();
    assert_eq!(rx.try_recv().unwrap(), Request::PubAck(PubAck { pkid: 2 }));
    client.try_ack(&publish_with_qos(QoS::ExactlyOnce, 3)).unwrap();
    assert_eq!(rx.try_recv().unwrap(), Request::PubRec(PubRec { pkid: 3 }));
}

#[test]
fn try_subscribe_and_many_reach_the_channel() {
    let (tx, rx) = flume::bounded(10);
    let client = AsyncClient::from_senders(tx);
    client.try_subscribe("a".to_string(), QoS::ExactlyOnce).unwrap();
    client
        .try_subscribe_many(vec![SubscribeFilter::new("b".to_string(), QoS::AtMostOnce)])
        .unwrap();
    assert_eq!(rx.try_recv().unwrap(), Request::Subscribe(Subscribe::new("a".to_string(), QoS::ExactlyOnce)));
    assert_eq!(
        rx.try_recv().unwrap(),
        Request::Subscribe(Subscribe {
            pkid: 0,
            filters: vec![SubscribeFilter { path: "b".to_string(), qos: QoS::AtMostOnce }],
        })
    );
}

#[test]
fn clones_send_on_the_same_channel() {
    let (tx, rx) = flume::bounded(10);
    let client = AsyncClient::from_senders(tx);
    let other = client.clone();
    other.try_disconnect().unwrap();
    assert_eq!(rx.try_recv().unwrap(), Request::Disconnect);
}

#[test]
fn sync_client_sends_in_order() {
    let (mut client, connection) = Client::new(options(), 20).unwrap();
    assert!(connection.runtime.is_some());
    assert_eq!(connection.eventloop.requests_tx.capacity(), Some(20));
    let eventloop = &connection.eventloop;
    client.publish("t".to_string(), QoS::AtLeastOnce, false, vec![1]).unwrap();
    client.subscribe("s".to_string(), QoS::AtMostOnce).unwrap();
    client.subscribe_many(vec![SubscribeFilter::new("m".to_string(), QoS::AtLeastOnce)]).unwrap();
    client.unsubscribe("u".to_string()).unwrap();
    client.ack(&publish_with_qos(QoS::ExactlyOnce, 7)).unwrap();
    client.ack(&publish_with_qos(QoS::AtMostOnce, 8)).unwrap();
    client.try_publish("t2".to_string(), QoS::AtMostOnce, true, vec![]).unwrap();
    client.try_subscribe("s2".to_string(), QoS::AtLeastOnce).unwrap();
    client.try_subscribe_many(vec![]).unwrap();
    client.try_unsubscribe("u2".to_string()).unwrap();
    client.try_ack(&publish_with_qos(QoS::AtLeastOnce, 9)).unwrap();
    client.disconnect().unwrap();
    client.try_disconnect().unwrap();
    let rx = &eventloop.requests_rx;
    assert_eq!(rx.try_recv().unwrap(), expected_publish("t", QoS::AtLeastOnce, false, &[1]));
    assert_eq!(rx.try_recv().unwrap(), Request::Subscribe(Subscribe::new("s".to_string(), QoS::AtMostOnce)));
    assert_eq!(
        rx.try_recv().unwrap(),
        Request::Subscribe(Subscribe::new("m".to_string(), QoS::AtLeastOnce))
    );
    assert_eq!(rx.try_recv().unwrap(), Request::Unsubscribe(Unsubscribe::new("u".to_string())));
    assert_eq!(rx.try_recv().unwrap(), Request::PubRec(PubRec { pkid: 7 }));
    assert_eq!(rx.try_recv().unwrap(), expected_publish("t2", QoS::AtMostOnce, true, &[]));
    assert_eq!(rx.try_recv().unwrap(), Request::Subscribe(Subscribe::new("s2".to_string(), QoS::AtLeastOnce)));
    assert_eq!(rx.try_recv().unwrap(), Request::Subscribe(Subscribe { pkid: 0, filters: vec![] }));
    assert_eq!(rx.try_recv().unwrap(), Request::Unsubscribe(Unsubscribe::new("u2".to_string())));
    assert_eq!(rx.try_recv().unwrap(), Request::PubAck(PubAck { pkid: 9 }));
    assert_eq!(rx.try_recv().unwrap(), Request::Disconnect);
    assert_eq!(rx.try_recv().unwrap(), Request::Disconnect);
    assert!(rx.try_recv().is_err());
}

#[test]
fn waiting_send_without_event_loop_hands_the_request_back() {
    let (mut client, connection) = Client::new(options(), 10).unwrap();
    drop(connection);
    match client.publish("t".to_string(), QoS::ExactlyOnce, false, vec![3]) {
        Err(ClientError::Request(r)) => assert_eq!(r, expected_publish("t", QoS::ExactlyOnce, false, &[3])),
        other => panic!("unexpected {:?}", other),
    }
    match client.try_disconnect() {
        Err(ClientError::TryRequest(r)) => assert_eq!(r, Request::Disconnect),
        other => panic!("unexpected {:?}", other),
    }
    match client.ack(&publish_with_qos(QoS::AtLeastOnce, 5)) {
        Err(ClientError::Request(r)) => assert_eq!(r, Request::PubAck(PubAck { pkid: 5 })),
        other => panic!("unexpected {:?}", other),
    }
    assert!(client.ack(&publish_with_qos(QoS::AtMostOnce, 5)).is_ok());
}

#[test]
fn cloned_publication_keeps_its_payload() {
    let p = Publish::new("t".to_string(), QoS::AtMostOnce, vec![4, 5, 6]);
    let q = p.clone();
    assert_eq!(&q.payload[..], &[4u8, 5, 6][..]);
    assert_eq!(p, q);
}

#[test]
fn outcomes_of_the_channel() {
    assert!(try_send_outcome(Ok(())).is_ok());
    assert!(send_outcome(Ok(())).is_ok());
    match try_send_outcome(Err(Request::Disconnect)) {
        Err(ClientError::TryRequest(r)) => assert_eq!(r, Request::Disconnect),
        other => panic!("unexpected {:?}", other),
    }
    match send_outcome(Err(Request::PubAck(PubAck { pkid: 3 }))) {
        Err(ClientError::Request(r)) => assert_eq!(r, Request::PubAck(PubAck { pkid: 3 })),
        other => panic!("unexpected {:?}", other),
    }
}

#[test]
fn iteration_items() {
    assert_eq!(
        next_item(Ok(Event::Outgoing(Request::Disconnect))),
        Some(Ok(Event::Outgoing(Request::Disconnect)))
    );
    assert_eq!(next_item(Err(ConnectionError::RequestsDone)), None);
    assert_eq!(
        next_item(Err(ConnectionError::Network("reset".to_string()))),
        Some(Err(ConnectionError::Network("reset".to_string())))
    );
}

#[test]
fn clones_of_a_sync_client_share_the_channel() {
    let (client, connection) = Client::new(options(), 4).unwrap();
    let mut other = client.clone();
    other.try_disconnect().unwrap();
    assert_eq!(connection.eventloop.requests_rx.try_recv().unwrap(), Request::Disconnect);
}
