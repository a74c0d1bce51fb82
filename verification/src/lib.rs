//! Response envelopes in the JSend convention.
//!
//! Every response says how the call went, as one of three kinds, and carries
//! what belongs to that kind: a `success` may carry data, a `fail` always
//! does, and an `error` has a message and may have a code and data.
//!
//! [`JSendResponse`] is the envelope, with a constructor for each kind and
//! accessors that read a field whatever the kind. [`wire`] holds its encoded
//! form, key by key, and [`laws`] what holds of every envelope and record.

pub mod envelope;
pub mod laws;
pub mod status;
pub mod wire;

pub use envelope::JSendResponse;
