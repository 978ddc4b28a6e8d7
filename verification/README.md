# http_muncher

Rust bindings to the `http-parser` C library, with the Rust-side logic verified
by Verus.

- `src/` — the verified library:
  - `method.rs`: `HttpMethod`, its codes and names (`http_method_str`);
  - `errno.rs`: `HttpErrno`, its codes, names and descriptions;
  - `status.rs`: `HttpStatus`, the decoding of the parser's packed status word
    (status code, method, error number, upgrade flag);
  - `version.rs`: the decoding of the library's packed version number;
  - `callback.rs`: the values exchanged with the C library around callbacks.
- `app/` — the parser front end (`Parser`, `ParserHandler`, `ParserSettings`,
  `version`), which calls the C library through raw pointers and FFI.
- `tests/` — tests of the library.
