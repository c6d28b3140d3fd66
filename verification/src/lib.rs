//! Reference-counted byte buffers and UTF-8 validated strings.
//!
//! Two value types make up the library: an immutable shared byte buffer
//! (`bytes::Bytes`) and a UTF-8 validated string built on top of it
//! (`bytestring::ByteString`). The functions here construct these values
//! from plain inputs (slices, encoded text, base64), convert between the
//! two, slice, clone, release and swap them, and export their contents as
//! zero-terminated unit vectors in three text encodings.

pub mod buffer;
pub mod ext;
pub mod text;
pub mod unicode;
