# tls_server_hs

The server's side of a TLS handshake, from the `ClientHello` to the choice of
protocol version, certificate and cipher suite, written in Rust and verified
with Verus.

- `src/client_hello.rs`: validation of a `ClientHello`, host name, signature schemes
- `src/expect.rs`: the state that waits for a `ClientHello`, and how it goes on
- `src/extensions.rs`: the extensions of the server's reply
- `src/fingerprint.rs`, `src/text.rs`: the fingerprint of a client
- `src/hs.rs`: shared refusals, and the rule for resuming a session
- `src/laws.rs`: what holds of the handshake as a whole
- `src/dns.rs`: host names; whether bytes are a DNS name is decided by `webpki`
- the other files of `src/`: messages, code points, suites, configuration, connection

The caller sends the alerts that a connection has put in line, supplies the
server's random value, and implements `ResolvesServerCert` to find certificates.
