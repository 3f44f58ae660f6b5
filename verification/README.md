# f5_programmability

Small HTTP programs for F5's Wasm programmability runtime (NGINX, BIG-IP),
split in two:

- `src/`: the library, verified with Verus. It holds what the programs
  decide and compute: the LLM token counter (running sums kept in a
  key-value store, driven as an exchange of store requests and replies),
  the redaction of social security numbers, the HTML page of request
  headers, the routes and bodies of the body demos and of the example
  origin, and WebP transcoding through the `image` crate.
- `app/`: the request handlers of the programs, which do the I/O with
  `wstd` (requests, upstream calls, JSON) and the F5 key-value store
  bindings generated by `wit-bindgen`, and call the library.
- `tests/`: tests of the library.
