# hermetic

The verified core of a command-line tool for Railgun transactions whose network
egress is owned by Rust and routed through Tor, with the Railgun SDK running in
an embedded Deno worker that has no network permission.

- `src/` is the library, verified with Verus: the wallet manifest, the
  allowlist and shaping of reverse HTTP requests, the permissions and calls of
  the embedded runtime, transaction parsing and affordability, the choice of
  public signer, the Tor connector's target decision, and the sidecar line
  protocol.
- `app/` is the command line around it: clap, Tor (Arti), Alloy providers and
  signers, the Deno worker, the file system and the sidecar process.
- `tests/` exercises the library on concrete values.
