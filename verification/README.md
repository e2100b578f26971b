# ecr17_protocol

The Italian ECR17 payment-terminal protocol (Nexi Group POS terminals over a LAN), with
its core proved correct by Verus.

## Layout

- `src/` — the verified library, free of I/O:
  - `lrc` — the LRC checksum (base `0x7F`, XOR-folded) and its four framing modes;
  - `codec` — `STX payload ETX LRC` application frames, `SOH … EOT` progress frames,
    `ACK`/`NAK` control frames;
  - `protocol` — one builder per request (`P X p i c H U C T G E R K s S`), every field
    fixed-width and checked;
  - `response` — the response parsers (`E/V/s/T/C/e/K`, DCC block, VAS XML values);
  - `session` — the exchange as a state machine: ACK/NAK handshake with bounded
    retransmission, timeouts, progress and receipt forwarding, receipt draining, and the
    splitting of the inbound byte stream into frames;
  - `retry`, `client` — the commands' messages, the mapping of responses onto typed
    results, and the money-safe recovery after a failure: a financial command is never
    replayed after a reconnect;
  - `transport` — an in-memory scripted transport for exercising exchanges;
  - `text`, `error`, `types` — strings as bytes, errors with their messages, the data model.
- `tests/` — the test suite.
- `app/` — the async side: the client over an async transport (tokio TCP or the
  in-memory one) that performs what the state machine asks for, and the serde model.
