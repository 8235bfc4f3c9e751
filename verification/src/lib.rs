//! Encoding of structured values as BigQuery SQL literals.
//!
//! The encoder is driven from outside, one call for each scalar and for each
//! boundary of an aggregate. It writes the literal to a buffer as the calls
//! come, and infers the type of what it wrote, so that the elements of an
//! array can be held to one type and the members of its structs to one
//! order.

pub mod error;
pub mod ser;
pub mod types;
pub mod value;

pub use error::Error;
pub use ser::encode::{encode, encode_typed, to_bytes, to_string};
pub use ser::identifier::{format_as_identifier, to_identifier, IdentifierSerializer};
pub use ser::serializer::{SeqSerializer, Serializer};
pub use ser::struct_serializer::{FieldsBuffer, FieldsBufferDecision, StructSerializer};
pub use ser::typed_serializer::TypedSerializer;
pub use ser::unsupported::UnsupportedSerializer;
pub use types::{CheckType, Field, Type};
pub use value::Value;
