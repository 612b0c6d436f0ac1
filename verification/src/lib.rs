//! The content-rendering core of a logic-less template engine.
//!
//! A compiled template (`template::Template`) is a tree of text chunks and
//! named tags.  Any data shape joins rendering by implementing the content
//! capability protocol (`content::Content`), whose operations write to an
//! output sink (`encoder::Encoder`) exactly what the value's ghost model
//! prescribes.  Built-in adapters cover strings, booleans, integers,
//! optionals, fallible values, vectors and string-keyed maps
//! (`fields::FieldMap`); field names dispatch through precomputed stable
//! hashes (`hash::field_hash`) with literal-name tie-breaks.

pub mod content;
pub mod encoder;
pub mod fields;
pub mod hash;
pub mod laws;
pub mod template;

pub use content::Content;
pub use encoder::{EncodeError, Encoder};
pub use fields::FieldMap;
pub use hash::field_hash;
pub use template::{Node, Section, Template};
