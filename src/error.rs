use std::path::PathBuf;
use vstd::prelude::*;

verus! {

/// `std::path::PathBuf`, carried through the decoder untouched so that an error
/// can say which file it was raised for.
#[verifier::external_type_specification]
#[verifier::external_body]
pub struct ExPathBuf(PathBuf);

/// Why a Vorbis comment entry could not be decoded.
#[derive(Debug, PartialEq, Eq)]
pub enum Malformed {
    /// The entry's bytes are not valid UTF-8.
    InvalidUtf8,
    /// The entry has no `=` between key and value; holds the entry's text.
    MissingDelimiter(String),
    /// A length field points past the end of the block.
    OutOfBounds,
}

/// The ways decoding one file can fail.
#[derive(Debug, PartialEq, Eq)]
pub enum Error {
    /// The byte source ended before a read of the stated size was complete.
    UnexpectedEof,
    /// The file does not start with the FLAC stream signature.
    InvalidFlacHeader(PathBuf),
    /// An entry of the Vorbis comment block could not be decoded.
    MalformedVorbisComment(Malformed),
}

} // verus!
