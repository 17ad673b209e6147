# RunenNet over QUIC

A QUIC binding for RunenNet delivery flows whose decisions are verified with
[Verus](https://github.com/verus-lang/verus).

* `src/` is the library. It holds the wire codecs, the validation of endpoint and profile
  limits, the TLS and transport configuration, the exchange of settings, negotiation, flow
  control, datagrams, the judgement of failures, and the driver that orders them. Every
  function states what it returns and how it changes its state; laws that relate several
  functions are proof functions whose names begin with `law_`.
* `app/` is the host side: sockets, streams, polling, and standard errors. It also names what
  a host brings, namely the delivery core, the negotiation manager and the stream bindings.
* `tests/` runs the library from outside, with a small delivery core and a small negotiation
  manager.

Where the library needs the core, the manager or the transport, an operation stops with what
is to be asked, and a second operation takes the answer. Room in memory is asked for before an
operation begins, so that what the operation does is settled whether or not there was room.
