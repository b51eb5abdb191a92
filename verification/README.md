# lenso_support_web_plugin

The linked Web surface for the Lenso Support Case capability, split in two.

- `src/` is the verified library. It takes every decision the surface makes:
  which problem document answers a Support Case domain error (`errors`), how a
  variant name becomes a problem code (`naming`), what each route checks before
  it forwards a request and what it forwards (`routes`), how an API request is
  authenticated step by step (`auth`), and how responses are built (`response`).
  Problem documents are produced by `lenso-capability-http-endpoint`.
- `app/` is the host-facing shell: the Plugin declaration, the async Endpoint
  handlers, JSON decoding and encoding, and the calls to the bound Auth and
  Support Case Providers. It hands plain values to the library and performs
  what the library decides.
