# rustls_verify

Verification of TLS peers: server and client certificate chains, server names,
and the signatures that peers make over the handshake.

* `src/` is the library, verified with Verus. `pki` holds everything that is
  assumed of the `webpki` and `ring` crates; `handshake`, `server` and `client`
  hold the verifiers; `signed_struct`, `codec` and `enums` the wire format of
  handshake signatures; `message` the content that TLS 1.3 signatures cover;
  `anchors`, `key` and `server_name` the inputs; `error` and `pki_error` the
  answers; `markers` the proofs of having verified something.
* `tests/` runs the library with real keys and certificates.
* `app/` connects the library to `std::net` and `std::fmt`.
