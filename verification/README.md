# up_transport_vsomeip

The logic of a SOME/IP transport for Eclipse uProtocol, written in Verus: every function in
`src/` carries a contract. The functions that call the `bimap` crate, `up_rust` (URI parsing
and message building) or `String::from_utf8` are trusted wrappers marked
`#[verifier::external_body]`, whose contracts Verus believes; every other function is proved
against its contract.

## Layout

- `src/` — the verified library.
  - `ids`, `status`, `uuid`, `uri`: identifiers, status codes and URIs, with the arithmetic that
    splits and joins SOME/IP ids.
  - `frame_wire`: the binary form in which a uProtocol frame travels as a SOME/IP payload;
    decoding succeeds exactly on the encodings of well-formed frames and gives them back.
  - `determinations`, `determine_message_type`: what registration a pair of filters asks for.
  - `message_conversions`, `client`: what a frame or message becomes on SOME/IP and back, with
    request correlation.
  - `extern_fn_registry`, `message_handler_registry`, `listener_registry`,
    `client_listener_registry`, `application_registry`, `subscription_handler_registry`,
    `rpc_correlation`, `vsomeip_offered_requested`, `storage`: the registries, with the invariants
    they keep and the laws that tie their operations together.
  - `vsomeip_config`: the applications that a vsomeip configuration text declares.
  - `transport`: the decisions of the transport around its SOME/IP applications.
  - `bimaps`, `listener_config`: the two-way maps of the `bimap` crate and what they hold.
- `tests/` — tests of the library.
- `app/` — the parts that talk to vsomeip and to `up_rust`: conversions, the engine thread that
  owns the SOME/IP applications, and the two transports (the client and the transport with an
  assumed payload encoding) that implement `UTransport`.
