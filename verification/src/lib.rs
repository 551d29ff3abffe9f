//! Value codec for the systemd DBus interface.
//!
//! The crate's core is a pair of stack-based visitors that translate between
//! statically typed records and the transport's dynamically typed wire-value
//! grammar: an [`encode::Encoder`] that accumulates wire values while walking
//! a value's structure, and a [`decode::Decoder`] that rebuilds a typed value
//! from a flat sequence of wire values.  Around the codec stand the record
//! types exchanged with the systemd manager and the match-rule strings used
//! for signal subscriptions.  The transport itself — the bus connection and
//! its blocking calls — lives outside this crate and only converts between
//! its own value representation and [`WireValue`] at the boundary.

pub mod wire;
pub mod text;
pub mod decode;
pub mod encode;
pub mod records;
pub mod rules;
pub mod laws;

pub use decode::{decode, Decodable, DecodeResult, Decoder, DecoderError};
pub use encode::{encode, Encodable, EncodeResult, Encoder, EncoderError};
pub use records::{
    Job, ObjectPath, UnitAux, UnitFile, UnitFileChange, UnitFileChanges, UnitProperty, UnitStatus,
};
pub use rules::{rule_string, Match};
pub use wire::WireValue;
