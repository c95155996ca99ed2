# mqtt_client

The decision core of an MQTT client for small devices, verified with Verus.

The library performs no input or output. `MqttClient` keeps the connection
state, the packet identifiers, the last will and the keep-alive clock. Its
methods `connect`, `publish`, `publish_with_retain`, `subscribe` and `poll` begin
an operation; `step` takes what the transport and the packet codec reported and
answers with what to do next, until the operation is done.

- `src/machine.rs`: the states of an operation, its events and actions, and the
  transitions that the contracts speak of
- `src/client.rs`: the client
- `src/options.rs`: its configuration
- `src/packet.rs`, `src/error.rs`: packets and errors as values
- `src/transport.rs`: how outcomes of a byte transport become client errors
- `src/storage.rs`, `src/time.rs`: what is taken from `heapless` and `embassy_time`
- `src/laws/`: what holds across operations, proved
- `app/`: the asynchronous client that drives the core over a transport (TCP on
  `embassy_net` among them) and a packet codec of the user's choice
- `tests/`: tests on concrete values
