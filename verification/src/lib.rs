//! Binary codecs for the scalar types of the Gel wire protocol, the protocol's
//! enumerations, and the connection targets and TLS errors of its streams.
pub mod descriptors;
pub mod enum_derive;
pub mod errors;
pub mod messages;
pub mod model;
pub mod protocol;
pub mod raw_scalar;
pub mod roundtrip;
pub mod scalar_arg;
pub mod stream_errors;
pub mod target;
pub mod value;
pub mod wire;
