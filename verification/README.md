# wasi_fetch

An HTTP client for WebAssembly components, in the style of reqwest, whose
logic is verified with Verus.

- `src/` is the verified library: the request builder (`request.rs`), the
  header collection (`headers.rs`), request methods (`method.rs`), URI
  parsing and redirect resolution (`uri.rs`), the buffered body
  (`body.rs`) and the error type (`error.rs`). The redirect loop is a state
  machine, `Exchange`: it says which request to send next and, for each
  response, whether a redirect is followed, the response is delivered, or the
  exchange fails.
- `app/` drives the `wasi:http` transport through `wasip3`: it runs the
  exchange loop, streams response bodies, and converts between the `http`
  crate's types and the library's.
- `tests/` exercises the library.
