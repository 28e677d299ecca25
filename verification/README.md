# cyper_core

The logic of a byte stream that hyper drives over the transports of compio, verified with Verus.

- `src/stream.rs`: the stream, what it answers about itself, and what it asks of its transport.
- `src/answer.rs`: what the stream makes of the transport's answers.
- `src/action.rs`: the requests and answers themselves.
- `src/cursor.rs`: what is taken for granted of hyper's read cursor.
- `app/`: the stream with the traits of hyper and futures, over the real transports.

The library performs no IO. `app/` polls the transport that the stream lends out, and hands the
answer back.
