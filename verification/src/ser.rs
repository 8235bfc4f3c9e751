//! The encoder: the literal grammar and the states that write it.

pub mod encode;
pub mod identifier;
pub mod literal;
pub mod serializer;
pub mod shape;
pub mod struct_serializer;
pub mod text;
pub mod typed_serializer;
pub mod unsupported;
