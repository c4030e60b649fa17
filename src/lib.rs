//! Reads the textual tags of FLAC files: checks the stream signature, walks the
//! metadata blocks up to the Vorbis comment block, and decodes its entries one at
//! a time.
pub mod error;
pub mod files;
pub mod metaflac;
pub mod stream;

pub use error::{Error, Malformed};
pub use metaflac::VorbisComment;
