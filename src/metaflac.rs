use crate::error::{Error, Malformed};
use std::path::PathBuf;
use vstd::prelude::*;
use vstd::string::StringSliceAdditionalSpecFns;
use vstd::utf8::*;

verus! {

/// The byte that separates an entry's key from its value (`=`).
pub const DELIMITER: u8 = 0x3d;

/// The little-endian 32-bit number held by `b[at..at + 4]`.
pub open spec fn le32(b: Seq<u8>, at: int) -> nat {
    (b[at] as nat) + (b[at + 1] as nat) * 256 + (b[at + 2] as nat) * 65536 + (b[at + 3] as nat)
        * 16777216
}

/// `m` is the position of the first `=` in `b`.
pub open spec fn first_delimiter(b: Seq<u8>, m: int) -> bool {
    &&& 0 <= m < b.len()
    &&& b[m] == DELIMITER
    &&& forall|j: int| 0 <= j < m ==> b[j] != DELIMITER
}

/// `b` holds at least one `=`.
pub open spec fn has_delimiter(b: Seq<u8>) -> bool {
    exists|m: int| 0 <= m < b.len() && b[m] == DELIMITER
}

/// Reads the little-endian 32-bit number at `b[at..at + 4]`.
pub(crate) fn read_le32(b: &[u8], at: usize) -> (r: u32)
    requires
        at + 4 <= b@.len(),
    ensures
        r as nat == le32(b@, at as int),
{
    (b[at] as u32) + (b[at + 1] as u32) * 256 + (b[at + 2] as u32) * 65536 + (b[at + 3] as u32)
        * 16777216
}

/// Relies on `std::str::from_utf8`: it succeeds exactly when the bytes are valid
/// UTF-8, and the text it then returns is made of those same bytes.
#[verifier::external_body]
fn utf8_text(b: &[u8]) -> (r: Option<&str>)
    ensures
        r is Some <==> valid_utf8(b@),
        r matches Some(s) ==> s.spec_bytes() == b@,
{
    std::str::from_utf8(b).ok()
}

/// What the decoding of one entry made of the bytes `b` gives: `Ok` exactly when
/// `b` is UTF-8 text holding a `=`, with the key before the first `=` and the
/// value after it; otherwise the error that says why.
pub open spec fn decodes_entry(b: Seq<u8>, r: Result<(&str, &str), Error>) -> bool {
    &&& (r is Ok <==> valid_utf8(b) && has_delimiter(b))
    &&& (r matches Ok(kv) ==> forall|m: int|
        #![trigger first_delimiter(b, m)]
        first_delimiter(b, m) ==> kv.0.spec_bytes() == b.subrange(0, m) && kv.1.spec_bytes()
            == b.subrange(m + 1, b.len() as int))
    &&& (!valid_utf8(b) ==> r == Err::<(&str, &str), Error>(
        Error::MalformedVorbisComment(Malformed::InvalidUtf8),
    ))
    &&& (valid_utf8(b) && !has_delimiter(b) ==> (r matches Err(
        Error::MalformedVorbisComment(Malformed::MissingDelimiter(s)),
    ) && s@ == decode_utf8(b)))
}

/// The block `b` is long enough for its vendor string and its entry count.
pub open spec fn comment_header_fits(b: Seq<u8>) -> bool {
    b.len() >= 4 && 8 + le32(b, 0) <= b.len()
}

/// The length prefix at `at` and the entry that it announces lie inside `b`.
pub open spec fn entry_fits(b: Seq<u8>, at: int) -> bool {
    &&& 0 <= at
    &&& at + 4 <= b.len()
    &&& at + 4 + le32(b, at) <= b.len()
}

/// The bytes of the entry whose length prefix stands at `at`.
pub open spec fn entry_body(b: Seq<u8>, at: int) -> Seq<u8> {
    b.subrange(at + 4, at + 4 + le32(b, at))
}

/// Splits one Vorbis comment entry at its first `=` into key and value.
pub fn read_vorbis_comment(bytes: &[u8]) -> (r: Result<(&str, &str), Error>)
    ensures
        decodes_entry(bytes@, r),
{
    let text = match utf8_text(bytes) {
        Some(t) => t,
        None => return Err(Error::MalformedVorbisComment(Malformed::InvalidUtf8)),
    };
    let mut m: usize = 0;
    while m < bytes.len() && bytes[m] != DELIMITER
        invariant
            m <= bytes@.len(),
            forall|j: int| 0 <= j < m ==> bytes@[j] != DELIMITER,
        decreases bytes@.len() - m,
    {
        m = m + 1;
    }
    if m == bytes.len() {
        proof {
            encode_utf8_decode_utf8(text@);
        }
        return Err(Error::MalformedVorbisComment(Malformed::MissingDelimiter(text.to_owned())));
    }
    proof {
        assert(first_delimiter(bytes@, m as int));
        is_char_boundary_iff_not_is_continuation_byte(bytes@, m as int);
    }
    let (key, rest) = text.split_at(m);
    proof {
        let rb = rest.spec_bytes();
        assert(rb[0] == DELIMITER);
        encode_utf8_valid_utf8(rest@);
        reveal_with_fuel(is_char_boundary, 2);
        assert(is_char_boundary(rb, 1));
    }
    let (_, value) = rest.split_at(1);
    proof {
        assert forall|k: int| #![trigger first_delimiter(bytes@, k)]
            first_delimiter(bytes@, k) implies k == m by {
            if k < m {
                assert(bytes@[k] != DELIMITER);
            } else if k > m {
                assert(bytes@[m as int] != DELIMITER);
            }
        }
        assert(value.spec_bytes() =~= bytes@.subrange(m + 1, bytes@.len() as int));
    }
    Ok((key, value))
}

/// A forward cursor over the entries of one Vorbis comment block. The block's
/// bytes stay with the caller and are handed to each call of `next`.
#[derive(Debug, PartialEq, Eq)]
pub struct VorbisComment {
    /// The file the block was read from.
    pub path: PathBuf,
    num_comments: u32,
    i: usize,
    curr: u32,
}

impl VorbisComment {
    /// The file that this cursor reads the tags of.
    pub closed spec fn file(&self) -> PathBuf {
        self.path
    }

    /// The number of entries that the block declares.
    pub closed spec fn declared(&self) -> nat {
        self.num_comments as nat
    }

    /// The number of entries handed out so far.
    pub closed spec fn emitted(&self) -> nat {
        self.curr as nat
    }

    /// Where the length prefix of the next entry stands in the block.
    pub closed spec fn cursor(&self) -> nat {
        self.i as nat
    }

    /// A cursor for a file without a Vorbis comment block: it has no entries.
    pub fn empty(path: PathBuf) -> (r: VorbisComment)
        ensures
            r.file() == path,
            r.declared() == 0,
            r.emitted() == 0,
            r.cursor() == 0,
    {
        VorbisComment { path, num_comments: 0, i: 0, curr: 0 }
    }

    /// A cursor at the first entry of the block `bytes`: it skips the vendor
    /// string and reads the entry count, without checking that count against
    /// the length of the block.
    pub fn from_bytes(path: PathBuf, bytes: &[u8]) -> (r: VorbisComment)
        requires
            comment_header_fits(bytes@),
        ensures
            r.file() == path,
            r.declared() == le32(bytes@, 4 + le32(bytes@, 0) as int),
            r.emitted() == 0,
            r.cursor() == 8 + le32(bytes@, 0),
    {
        let vendor_length = read_le32(bytes, 0) as usize;
        let n = bytes.len();
        assert(8 + vendor_length <= n);
        let num_comments = read_le32(bytes, 4 + vendor_length);
        VorbisComment { path, num_comments, i: 8 + vendor_length, curr: 0 }
    }

    /// Decodes the next entry of the block `bytes` into key and value, or gives
    /// `None` once all declared entries have been handed out.
    pub fn next<'b>(&mut self, bytes: &'b [u8]) -> (r: Result<Option<(&'b str, &'b str)>, Error>)
        ensures
            final(self).file() == old(self).file(),
            final(self).declared() == old(self).declared(),
            old(self).emitted() >= old(self).declared() ==> r == Ok::<
                Option<(&'b str, &'b str)>,
                Error,
            >(None) && *final(self) == *old(self),
            old(self).emitted() < old(self).declared() && !entry_fits(
                bytes@,
                old(self).cursor() as int,
            ) ==> r == Err::<Option<(&'b str, &'b str)>, Error>(
                Error::MalformedVorbisComment(Malformed::OutOfBounds),
            ) && *final(self) == *old(self),
            old(self).emitted() < old(self).declared() && entry_fits(
                bytes@,
                old(self).cursor() as int,
            ) ==> match r {
                Ok(Some(kv)) => {
                    &&& decodes_entry(entry_body(bytes@, old(self).cursor() as int), Ok(kv))
                    &&& final(self).emitted() == old(self).emitted() + 1
                    &&& final(self).cursor() == old(self).cursor() + 4 + le32(
                        bytes@,
                        old(self).cursor() as int,
                    )
                },
                Ok(None) => false,
                Err(e) => {
                    &&& decodes_entry(entry_body(bytes@, old(self).cursor() as int), Err(e))
                    &&& *final(self) == *old(self)
                },
            },
    {
        if self.curr >= self.num_comments {
            return Ok(None);
        }
        if self.i > bytes.len() || bytes.len() - self.i < 4 {
            return Err(Error::MalformedVorbisComment(Malformed::OutOfBounds));
        }
        let comment_length = read_le32(bytes, self.i) as usize;
        if bytes.len() - self.i - 4 < comment_length {
            return Err(Error::MalformedVorbisComment(Malformed::OutOfBounds));
        }
        let start = self.i + 4;
        match read_vorbis_comment(&bytes[start..start + comment_length]) {
            Ok((key, value)) => {
                self.curr = self.curr + 1;
                self.i = start + comment_length;
                Ok(Some((key, value)))
            },
            Err(e) => Err(e),
        }
    }
}

} // verus!
