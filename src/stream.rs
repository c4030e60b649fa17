use crate::error::{Error, Malformed};
use crate::metaflac::{comment_header_fits, le32, read_le32, VorbisComment};
use std::path::PathBuf;
use vstd::prelude::*;

verus! {

/// The block type of the Vorbis comment block, which carries the tags.
pub const VORBIS_COMMENT: u8 = 4;

/// `f` starts with the stream signature `fLaC`.
pub open spec fn has_signature(f: Seq<u8>) -> bool {
    &&& f.len() >= 4
    &&& f[0] == 0x66
    &&& f[1] == 0x4c
    &&& f[2] == 0x61
    &&& f[3] == 0x43
}

/// The top bit of a header's first byte marks the last metadata block.
pub open spec fn header_is_last(h0: u8) -> bool {
    h0 >= 128
}

/// The low seven bits of a header's first byte give the block type.
pub open spec fn header_type(h0: u8) -> u8 {
    (h0 % 128) as u8
}

/// The big-endian 24-bit payload length held by the last three header bytes.
pub open spec fn header_length(f: Seq<u8>, at: int) -> nat {
    (f[at + 1] as nat) * 65536 + (f[at + 2] as nat) * 256 + (f[at + 3] as nat)
}

/// What a reader does after the four header bytes of a metadata block.
#[derive(Debug, PartialEq, Eq)]
pub enum BlockAction {
    /// Read this many payload bytes: they are the Vorbis comment block.
    ReadTags(u32),
    /// The last block has gone by without tags.
    Stop,
    /// Move forward past this many payload bytes and read the next header.
    Skip(u32),
}

/// The action that the header at `f[at..at + 4]` calls for.
pub open spec fn action_of(f: Seq<u8>, at: int) -> BlockAction {
    let len = header_length(f, at) as u32;
    if header_type(f[at]) == VORBIS_COMMENT {
        BlockAction::ReadTags(len)
    } else if header_is_last(f[at]) {
        BlockAction::Stop
    } else {
        BlockAction::Skip(len)
    }
}

/// Where the walk over the metadata blocks ends.
pub enum Scan {
    /// The Vorbis comment block's payload: where it starts and how long it is.
    Tags(nat, nat),
    /// The last block went by and none was a Vorbis comment block.
    NoTags,
    /// The bytes ran out in a header or in a payload.
    Eof,
}

/// The walk over the metadata blocks of `f` from the header at `pos`.
pub open spec fn scan(f: Seq<u8>, pos: int) -> Scan
    decreases f.len() - pos,
{
    if pos < 0 || pos + 4 > f.len() {
        Scan::Eof
    } else {
        let len = header_length(f, pos);
        if pos + 4 + len > f.len() {
            if header_type(f[pos]) != VORBIS_COMMENT && header_is_last(f[pos]) {
                Scan::NoTags
            } else {
                Scan::Eof
            }
        } else if header_type(f[pos]) == VORBIS_COMMENT {
            Scan::Tags((pos + 4) as nat, len)
        } else if header_is_last(f[pos]) {
            Scan::NoTags
        } else {
            scan(f, pos + 4 + len)
        }
    }
}

/// Tells whether `ident` is the stream signature `fLaC`.
pub fn has_flac_signature(ident: &[u8]) -> (r: bool)
    ensures
        r == has_signature(ident@),
{
    ident.len() >= 4 && ident[0] == 0x66 && ident[1] == 0x4c && ident[2] == 0x61 && ident[3]
        == 0x43
}

/// Decodes the header of a metadata block into what to do next.
pub fn block_action(header: &[u8]) -> (r: BlockAction)
    requires
        header@.len() == 4,
    ensures
        r == action_of(header@, 0),
{
    let len = (header[1] as u32) * 65536 + (header[2] as u32) * 256 + (header[3] as u32);
    if header[0] % 128 == VORBIS_COMMENT {
        BlockAction::ReadTags(len)
    } else if header[0] >= 128 {
        BlockAction::Stop
    } else {
        BlockAction::Skip(len)
    }
}

/// Appends `file[start..end]` to the empty `data`.
fn copy_range(file: &[u8], start: usize, end: usize, data: &mut Vec<u8>)
    requires
        start <= end <= file@.len(),
        old(data)@.len() == 0,
    ensures
        final(data)@ == file@.subrange(start as int, end as int),
{
    let mut k: usize = start;
    while k < end
        invariant
            start <= k <= end <= file@.len(),
            data@ == file@.subrange(start as int, k as int),
        decreases end - k,
    {
        data.push(file[k]);
        k = k + 1;
        proof {
            assert(data@ =~= file@.subrange(start as int, k as int));
        }
    }
}

/// A cursor over the Vorbis comment block `block`, or the error for a block too
/// short for its vendor string and entry count.
pub fn comment_from_block(path: PathBuf, block: &[u8]) -> (r: Result<VorbisComment, Error>)
    ensures
        comment_header_fits(block@) ==> (r matches Ok(c) && c.file() == path && c.declared()
            == le32(block@, 4 + le32(block@, 0) as int) && c.emitted() == 0 && c.cursor() == 8
            + le32(block@, 0)),
        !comment_header_fits(block@) ==> r == Err::<VorbisComment, Error>(
            Error::MalformedVorbisComment(Malformed::OutOfBounds),
        ),
{
    if block.len() < 8 || block.len() - 8 < read_le32(block, 0) as usize {
        return Err(Error::MalformedVorbisComment(Malformed::OutOfBounds));
    }
    Ok(VorbisComment::from_bytes(path, block))
}

/// Decodes the FLAC stream held whole in `file`: checks the signature, walks the
/// metadata blocks and stops at the first Vorbis comment block, whose payload it
/// leaves in `data` for the returned cursor to read.
pub fn read_from_bytes(path: PathBuf, file: &[u8], data: &mut Vec<u8>) -> (r: Result<
    VorbisComment,
    Error,
>)
    ensures
        !has_signature(file@) ==> r == Err::<VorbisComment, Error>(Error::InvalidFlacHeader(path))
            && final(data)@ == old(data)@,
        has_signature(file@) ==> match scan(file@, 4) {
            Scan::Eof => r == Err::<VorbisComment, Error>(Error::UnexpectedEof)
                && final(data)@.len() == 0,
            Scan::NoTags => final(data)@.len() == 0 && (r matches Ok(c) && c.file() == path
                && c.declared() == 0 && c.emitted() == 0),
            Scan::Tags(start, len) => {
                &&& final(data)@ == file@.subrange(start as int, (start + len) as int)
                &&& comment_header_fits(final(data)@) ==> (r matches Ok(c) && c.file() == path
                    && c.declared() == le32(final(data)@, 4 + le32(final(data)@, 0) as int)
                    && c.emitted() == 0 && c.cursor() == 8 + le32(final(data)@, 0))
                &&& !comment_header_fits(final(data)@) ==> r == Err::<VorbisComment, Error>(
                    Error::MalformedVorbisComment(Malformed::OutOfBounds),
                )
            },
        },
{
    if !has_flac_signature(file) {
        return Err(Error::InvalidFlacHeader(path));
    }
    data.clear();
    let mut pos: usize = 4;
    loop
        invariant
            has_signature(file@),
            4 <= pos <= file@.len(),
            scan(file@, pos as int) == scan(file@, 4),
            data@.len() == 0,
        decreases file@.len() - pos,
    {
        if file.len() - pos < 4 {
            return Err(Error::UnexpectedEof);
        }
        let action = block_action(&file[pos..pos + 4]);
        proof {
            let h = file@.subrange(pos as int, pos + 4);
            assert(h[0] == file@[pos as int]);
            assert(h[1] == file@[pos + 1]);
            assert(h[2] == file@[pos + 2]);
            assert(h[3] == file@[pos + 3]);
            assert(header_length(h, 0) == header_length(file@, pos as int));
            assert(header_length(h, 0) < 16777216);
        }
        match action {
            BlockAction::ReadTags(len) => {
                if file.len() - pos - 4 < len as usize {
                    return Err(Error::UnexpectedEof);
                }
                copy_range(file, pos + 4, pos + 4 + len as usize, data);
                return comment_from_block(path, data.as_slice());
            },
            BlockAction::Stop => {
                return Ok(VorbisComment::empty(path));
            },
            BlockAction::Skip(len) => {
                if file.len() - pos - 4 < len as usize {
                    return Err(Error::UnexpectedEof);
                }
                pos = pos + 4 + len as usize;
            },
        }
    }
}

/// The stream signature `fLaC`.
pub open spec fn signature() -> Seq<u8> {
    seq![0x66u8, 0x4cu8, 0x61u8, 0x43u8]
}

/// A block type and payload that a metadata block header can describe.
pub open spec fn describable(ty: u8, payload: Seq<u8>) -> bool {
    ty < 128 && payload.len() < 16777216
}

/// The bytes of one metadata block: its header, then its payload.
pub open spec fn block_bytes(last: bool, ty: u8, payload: Seq<u8>) -> Seq<u8> {
    let n = payload.len();
    seq![
        (if last { ty + 128 } else { ty as int }) as u8,
        (n / 65536) as u8,
        ((n / 256) % 256) as u8,
        (n % 256) as u8,
    ] + payload
}

/// A run of metadata blocks, none of them marked last, each given by its type
/// and payload.
pub open spec fn plain_blocks(bs: Seq<(u8, Seq<u8>)>) -> Seq<u8>
    decreases bs.len(),
{
    if bs.len() == 0 {
        Seq::empty()
    } else {
        block_bytes(false, bs[0].0, bs[0].1) + plain_blocks(bs.drop_first())
    }
}

/// Every block of `bs` can be described by a header and is not a Vorbis comment block.
pub open spec fn skippable(bs: Seq<(u8, Seq<u8>)>) -> bool {
    forall|i: int|
        0 <= i < bs.len() ==> describable(#[trigger] bs[i].0, bs[i].1) && bs[i].0
            != VORBIS_COMMENT
}

/// The header of a block written by `block_bytes` reads back as its type, its
/// last-block mark and its payload length.
proof fn lemma_header_reads_back(f: Seq<u8>, pos: int, last: bool, ty: u8, payload: Seq<u8>)
    requires
        describable(ty, payload),
        0 <= pos,
        pos + 4 + payload.len() <= f.len(),
        f.subrange(pos, pos + 4 + payload.len()) == block_bytes(last, ty, payload),
    ensures
        header_type(f[pos]) == ty,
        header_is_last(f[pos]) == last,
        header_length(f, pos) == payload.len(),
{
    let b = block_bytes(last, ty, payload);
    assert(f[pos] == b[0]);
    assert(f[pos + 1] == b[1]);
    assert(f[pos + 2] == b[2]);
    assert(f[pos + 3] == b[3]);
    let n = payload.len() as u32;
    assert((n / 65536) * 65536 + ((n / 256) % 256) * 256 + n % 256 == n) by (bit_vector)
        requires
            n < 0x1000000u32,
    ;
}

/// The walk passes over a run of skippable blocks without a stop.
proof fn lemma_skip_plain_blocks(f: Seq<u8>, pos: int, bs: Seq<(u8, Seq<u8>)>)
    requires
        skippable(bs),
        0 <= pos,
        pos + plain_blocks(bs).len() <= f.len(),
        f.subrange(pos, pos + plain_blocks(bs).len()) == plain_blocks(bs),
    ensures
        scan(f, pos) == scan(f, pos + plain_blocks(bs).len()),
    decreases bs.len(),
{
    if bs.len() > 0 {
        let first = block_bytes(false, bs[0].0, bs[0].1);
        let tail = plain_blocks(bs.drop_first());
        let step = first.len() as int;
        assert(describable(bs[0].0, bs[0].1) && bs[0].0 != VORBIS_COMMENT);
        assert(f.subrange(pos, pos + step) =~= first) by {
            assert(plain_blocks(bs).subrange(0, step) =~= first);
        }
        lemma_header_reads_back(f, pos, false, bs[0].0, bs[0].1);
        assert(skippable(bs.drop_first())) by {
            assert forall|i: int| 0 <= i < bs.drop_first().len() implies describable(
                #[trigger] bs.drop_first()[i].0,
                bs.drop_first()[i].1,
            ) && bs.drop_first()[i].0 != VORBIS_COMMENT by {
                assert(bs.drop_first()[i] == bs[i + 1]);
            }
        }
        assert(f.subrange(pos + step, pos + step + tail.len()) =~= tail) by {
            assert(plain_blocks(bs).subrange(step, step + tail.len()) =~= tail);
        }
        lemma_skip_plain_blocks(f, pos + step, bs.drop_first());
    }
}

/// However many plain blocks stand before it, the walk over the metadata blocks
/// passes over each of them by its stated length and stops at the Vorbis comment
/// block that follows, whose payload it then reads.
pub proof fn lemma_tags_found_after_plain_blocks(
    bs: Seq<(u8, Seq<u8>)>,
    last: bool,
    tags: Seq<u8>,
    rest: Seq<u8>,
)
    requires
        skippable(bs),
        describable(VORBIS_COMMENT, tags),
    ensures
        ({
            let f = signature() + plain_blocks(bs) + block_bytes(last, VORBIS_COMMENT, tags) + rest;
            let start = 8 + plain_blocks(bs).len() as int;
            &&& has_signature(f)
            &&& scan(f, 4) == Scan::Tags(start as nat, tags.len())
            &&& f.subrange(start, start + tags.len() as int) == tags
        }),
{
    let p = plain_blocks(bs);
    let t = block_bytes(last, VORBIS_COMMENT, tags);
    let f = signature() + p + t + rest;
    let at = 4 + p.len() as int;
    assert(f.subrange(4, at) =~= p);
    lemma_skip_plain_blocks(f, 4, bs);
    assert(f.subrange(at, at + t.len()) =~= t);
    lemma_header_reads_back(f, at, last, VORBIS_COMMENT, tags);
    assert(f.subrange(at + 4, at + 4 + tags.len()) =~= tags);
}

/// A stream whose first metadata block is marked last and is not a Vorbis
/// comment block ends the walk without tags, whatever follows it.
pub proof fn lemma_last_plain_block_has_no_tags(ty: u8, payload: Seq<u8>, rest: Seq<u8>)
    requires
        describable(ty, payload),
        ty != VORBIS_COMMENT,
    ensures
        has_signature(signature() + block_bytes(true, ty, payload) + rest),
        scan(signature() + block_bytes(true, ty, payload) + rest, 4) == Scan::NoTags,
{
    let b = block_bytes(true, ty, payload);
    let f = signature() + b + rest;
    assert(f.subrange(4, 4 + b.len() as int) =~= b);
    lemma_header_reads_back(f, 4, true, ty, payload);
}

} // verus!
