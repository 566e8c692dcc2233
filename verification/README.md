# rumqtt

A verified core of an MQTT client front end and of a broker's console link.

- `src/packets.rs`: the control packets that a client hands to its event loop
  (`Publish`, `PubAck`, `PubRec`, `Subscribe`, `Unsubscribe`, `Request`).
  Payloads are `bytes::Bytes` buffers, whose contents the contracts name.
- `src/channel.rs`: the `flume` channel ends and the sends and receives that
  the library makes, each with what holds of every outcome.
- `src/client.rs`: `AsyncClient` and `Client`, which build requests and hand
  them over; every refused request comes back unchanged inside `ClientError`.
  `EventLoop` and `MqttOptions` hold only what the clients need: the options
  and the request channel. `Connection` pairs the event loop with its tokio
  runtime, and `next_item` decides what iterating it yields.
- `src/console.rs`: the broker's console link to its router, the reading of
  the router's answers, and the routes of the console's HTTP pages.
- `app/lib.rs`: the sends that await, the connection's iterator,
  the error messages, the JSON forms of
  the console's pages and the HTTP server.

`tests/` runs the library against the real `flume` and `bytes` crates.
