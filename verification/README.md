# mesh

The request paths of a router in front of gRPC inference workers: how a chat, generation or
responses request is prepared, which workers are asked and how, how the token streams of a
single worker or of a prefill/decode pair become one stream, and how that stream becomes the
answer that the client gets, as a whole or event by event.

- `src/` is the library. It decides and computes. Its functions carry contracts, which Verus
  proves. The exceptions are the few private functions that call outside crates: their
  contracts are trusted, and the one that draws a random number promises nothing of it.
  Floating-point numbers are carried by their bits.
  - `comm`: error responses, placement, server-sent events
  - `protocols`: the requests and responses of the endpoints
  - `prepare`: from a request to a payload for the workers
  - `grpc`: worker streams, the merging of prefill and decode, the pipeline
  - `token_handle`: the token stream that everything else reads
  - `render`: the generation endpoint's answers
  - `openai`: the responses endpoint
  - `json`, `text`, `ids`, `float`, `duplicate`, `tokenizer`: what the others stand on
- `app/` is ordinary Rust around it: sockets, clocks, wire formats and waiting.
- `tests/` runs the library.

What holds across functions is stated by the proof functions whose names begin with `law_`.
