# gel_protocol

Verified codecs and rules of the Gel (EdgeDB) wire protocol client, written in
Verus.

- `src/wire.rs`: big-endian integers on the wire and the reads and writes of
  the `bytes` crate.
- `src/raw_scalar.rs`: decoding of scalar values (`RawCodec`).
- `src/scalar_arg.rs`: query arguments: encoding, descriptor checks, values.
- `src/roundtrip.rs`: the laws that tie encoding and decoding together.
- `src/descriptors.rs`: type descriptors and the scalar check.
- `src/protocol.rs`: the one-byte enumerations of the messages.
- `src/messages.rs`: the layouts of the protocol's messages, their decoding
  and encoding, and the recognition of a message within a group.
- `src/enum_derive.rs`: what the `Queryable` derive for enums decides.
- `src/target.rs`: connection targets, with and without TLS, and their text.
- `src/stream_errors.rs`: stream errors and the common TLS error classes.

`app/` holds what touches the operating system, the network, the TLS
backends, floating point numbers and procedural macros.

Date-times are counted in microseconds from 2000-01-01 and are limited to the
years 1 to 9999.
