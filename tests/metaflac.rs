use flacdb::files::is_flac_file_name;
use flacdb::metaflac::read_vorbis_comment;
use flacdb::stream::{block_action, has_flac_signature, read_from_bytes, BlockAction};
use flacdb::{Error, Malformed, VorbisComment};
use std::path::PathBuf;

fn le32(n: u32) -> Vec<u8> {
    n.to_le_bytes().to_vec()
}

fn comment_block(vendor: &str, entries: &[&[u8]], declared: u32) -> Vec<u8> {
    let mut b = le32(vendor.len() as u32);
    b.extend_from_slice(vendor.as_bytes());
    b.extend_from_slice(&le32(declared));
    for e in entries {
        b.extend_from_slice(&le32(e.len() as u32));
        b.extend_from_slice(e);
    }
    b
}

fn block(last: bool, ty: u8, payload: &[u8]) -> Vec<u8> {
    let n = payload.len() as u32;
    let mut b = vec![if last { ty | 0x80 } else { ty }, (n >> 16) as u8, (n >> 8) as u8, n as u8];
    b.extend_from_slice(payload);
    b
}

fn test_tag_file() -> Vec<u8> {
    let mut f = b"fLaC".to_vec();
    f.extend(block(false, 0, &[0u8; 34]));
    f.extend(block(true, 4, &comment_block("reference libFLAC", &[b"TEST=1", b"TEST=2"], 2)));
    f.extend_from_slice(&[0xff, 0xf8, 0x01, 0x02]);
    f
}

#[test]
fn reads_all_tags() {
    let path = PathBuf::from("test-data/test-tag.flac");
    let file = test_tag_file();
    let mut buf = Vec::new();
    let mut vorbis_comments = read_from_bytes(path.clone(), &file, &mut buf).unwrap();

    assert_eq!(Some(("TEST", "1")), vorbis_comments.next(&*buf).unwrap());
    assert_eq!(Some(("TEST", "2")), vorbis_comments.next(&*buf).unwrap());
    assert_eq!(None, vorbis_comments.next(&*buf).unwrap());
}

#[test]
fn minimal_container_end_to_end() {
    let mut file = b"fLaC".to_vec();
    file.extend(block(true, 4, &comment_block("", &[b"TEST=1", b"TEST=2"], 2)));
    let mut buf = vec![9, 9, 9];
    let mut c = read_from_bytes(PathBuf::from("a.flac"), &file, &mut buf).unwrap();
    assert_eq!(buf, file[8..].to_vec());
    assert_eq!(c.path, PathBuf::from("a.flac"));
    assert_eq!(Some(("TEST", "1")), c.next(&buf).unwrap());
    assert_eq!(Some(("TEST", "2")), c.next(&buf).unwrap());
    assert_eq!(None, c.next(&buf).unwrap());
    assert_eq!(None, c.next(&buf).unwrap());
    assert_eq!(None, c.next(&buf).unwrap());
}

#[test]
fn wrong_signature_is_rejected_before_anything_else() {
    let mut file = b"OggS".to_vec();
    file.extend(block(true, 4, &comment_block("", &[b"A=B"], 1)));
    let mut buf = vec![1, 2, 3];
    let r = read_from_bytes(PathBuf::from("x.ogg"), &file, &mut buf);
    assert_eq!(r, Err(Error::InvalidFlacHeader(PathBuf::from("x.ogg"))));
    assert_eq!(buf, vec![1, 2, 3]);
}

#[test]
fn short_file_has_no_signature() {
    let mut buf = Vec::new();
    let r = read_from_bytes(PathBuf::from("s"), b"fLa", &mut buf);
    assert_eq!(r, Err(Error::InvalidFlacHeader(PathBuf::from("s"))));
    let r = read_from_bytes(PathBuf::from("e"), b"", &mut buf);
    assert_eq!(r, Err(Error::InvalidFlacHeader(PathBuf::from("e"))));
}

#[test]
fn last_block_without_tags_gives_no_entries() {
    let mut file = b"fLaC".to_vec();
    file.extend(block(true, 0, &[7u8; 34]));
    file.extend(block(false, 4, &comment_block("", &[b"A=B"], 1)));
    let mut buf = vec![5, 5];
    let mut c = read_from_bytes(PathBuf::from("n.flac"), &file, &mut buf).unwrap();
    assert!(buf.is_empty());
    assert_eq!(c, VorbisComment::empty(PathBuf::from("n.flac")));
    for _ in 0..3 {
        assert_eq!(Ok(None), c.next(&buf));
    }
}

fn file_with_skipped_blocks(n: usize) -> Vec<u8> {
    let mut file = b"fLaC".to_vec();
    for k in 0..n {
        let payload = vec![4u8; 3 * k + 1];
        file.extend(block(false, (k % 3) as u8, &payload));
    }
    file.extend(block(false, 4, &comment_block("v", &[b"ARTIST=X", b"TITLE=Y"], 2)));
    file.extend(block(true, 1, &[0u8; 5]));
    file
}

#[test]
fn tags_found_after_any_number_of_blocks() {
    for n in [0usize, 1, 2, 17] {
        let file = file_with_skipped_blocks(n);
        let mut buf = Vec::new();
        let mut c = read_from_bytes(PathBuf::from("m.flac"), &file, &mut buf).unwrap();
        assert_eq!(buf, comment_block("v", &[b"ARTIST=X", b"TITLE=Y"], 2));
        assert_eq!(Some(("ARTIST", "X")), c.next(&buf).unwrap());
        assert_eq!(Some(("TITLE", "Y")), c.next(&buf).unwrap());
        assert_eq!(None, c.next(&buf).unwrap());
    }
}

#[test]
fn large_block_length_is_skipped() {
    let mut file = b"fLaC".to_vec();
    file.extend(block(false, 1, &vec![0u8; 0x012345]));
    file.extend(block(true, 4, &comment_block("", &[b"K=V"], 1)));
    let mut buf = Vec::new();
    let mut c = read_from_bytes(PathBuf::from("l"), &file, &mut buf).unwrap();
    assert_eq!(Some(("K", "V")), c.next(&buf).unwrap());
}

#[test]
fn stream_ending_in_a_header_or_payload() {
    let mut buf = Vec::new();
    let r = read_from_bytes(PathBuf::from("a"), b"fLaC", &mut buf);
    assert_eq!(r, Err(Error::UnexpectedEof));
    let mut file = b"fLaC".to_vec();
    file.extend(block(false, 0, &[1u8; 10]));
    file.truncate(file.len() - 1);
    assert_eq!(read_from_bytes(PathBuf::from("b"), &file, &mut buf), Err(Error::UnexpectedEof));
    let mut file = b"fLaC".to_vec();
    file.extend(block(true, 4, &comment_block("", &[b"A=1"], 1)));
    file.pop();
    assert_eq!(read_from_bytes(PathBuf::from("c"), &file, &mut buf), Err(Error::UnexpectedEof));
    assert!(buf.is_empty());
    let mut file = b"fLaC".to_vec();
    file.extend_from_slice(&[0x00, 0x00, 0x00]);
    assert_eq!(read_from_bytes(PathBuf::from("d"), &file, &mut buf), Err(Error::UnexpectedEof));
}

#[test]
fn comment_block_too_short_for_its_header() {
    let mut file = b"fLaC".to_vec();
    file.extend(block(true, 4, &[3, 0, 0, 0, b'a', b'b']));
    let mut buf = Vec::new();
    let r = read_from_bytes(PathBuf::from("t"), &file, &mut buf);
    assert_eq!(r, Err(Error::MalformedVorbisComment(Malformed::OutOfBounds)));
    assert_eq!(buf, vec![3, 0, 0, 0, b'a', b'b']);
}

#[test]
fn splits_on_first_equals() {
    assert_eq!(read_vorbis_comment(b"A=B=C"), Ok(("A", "B=C")));
    assert_eq!(read_vorbis_comment(b"=x"), Ok(("", "x")));
    assert_eq!(read_vorbis_comment(b"KEY="), Ok(("KEY", "")));
    assert_eq!(read_vorbis_comment("TITRE=\u{e9}t\u{e9}".as_bytes()), Ok(("TITRE", "\u{e9}t\u{e9}")));
}

#[test]
fn entry_without_equals_is_malformed() {
    assert_eq!(
        read_vorbis_comment(b"NOEQUALS"),
        Err(Error::MalformedVorbisComment(Malformed::MissingDelimiter("NOEQUALS".to_string())))
    );
    assert_eq!(
        read_vorbis_comment(b""),
        Err(Error::MalformedVorbisComment(Malformed::MissingDelimiter(String::new())))
    );
}

#[test]
fn entry_with_invalid_utf8_is_malformed() {
    assert_eq!(
        read_vorbis_comment(&[b'A', b'=', 0xff]),
        Err(Error::MalformedVorbisComment(Malformed::InvalidUtf8))
    );
}

#[test]
fn malformed_entry_through_cursor() {
    let block = comment_block("", &[b"GOOD=1", b"BAD"], 2);
    let mut c = VorbisComment::from_bytes(PathBuf::from("p"), &block);
    assert_eq!(Some(("GOOD", "1")), c.next(&block).unwrap());
    assert_eq!(
        c.next(&block),
        Err(Error::MalformedVorbisComment(Malformed::MissingDelimiter("BAD".to_string())))
    );
}

#[test]
fn declared_count_past_the_buffer_is_malformed() {
    let block = comment_block("", &[b"A=1"], 3);
    let mut c = VorbisComment::from_bytes(PathBuf::from("p"), &block);
    assert_eq!(Some(("A", "1")), c.next(&block).unwrap());
    assert_eq!(c.next(&block), Err(Error::MalformedVorbisComment(Malformed::OutOfBounds)));
    let mut block = comment_block("", &[b"B=22"], 1);
    block.truncate(block.len() - 2);
    let mut c = VorbisComment::from_bytes(PathBuf::from("q"), &block);
    assert_eq!(c.next(&block), Err(Error::MalformedVorbisComment(Malformed::OutOfBounds)));
}

#[test]
fn from_bytes_skips_vendor_string() {
    let block = comment_block("reference libFLAC 1.3.2 20170101", &[b"X=y", b"X=z"], 2);
    let mut c = VorbisComment::from_bytes(PathBuf::from("v"), &block);
    assert_eq!(c.path, PathBuf::from("v"));
    assert_eq!(Some(("X", "y")), c.next(&block).unwrap());
    assert_eq!(Some(("X", "z")), c.next(&block).unwrap());
    assert_eq!(None, c.next(&block).unwrap());
}

#[test]
fn empty_cursor_has_no_entries() {
    let mut c = VorbisComment::empty(PathBuf::from("e"));
    assert_eq!(Ok(None), c.next(&[]));
    assert_eq!(Ok(None), c.next(b"anything"));
}

#[test]
fn block_headers_decode() {
    assert_eq!(block_action(&[0x84, 0x00, 0x01, 0x02]), BlockAction::ReadTags(258));
    assert_eq!(block_action(&[0x04, 0x12, 0x34, 0x56]), BlockAction::ReadTags(0x123456));
    assert_eq!(block_action(&[0x81, 0x00, 0x00, 0x22]), BlockAction::Stop);
    assert_eq!(block_action(&[0x00, 0x00, 0x00, 0x22]), BlockAction::Skip(34));
    assert_eq!(block_action(&[0x7f, 0xff, 0xff, 0xff]), BlockAction::Skip(0xffffff));
}

#[test]
fn signature_check() {
    assert!(has_flac_signature(b"fLaC"));
    assert!(has_flac_signature(b"fLaC\x00"));
    assert!(!has_flac_signature(b"fLac"));
    assert!(!has_flac_signature(b"fLa"));
}

#[test]
fn flac_file_names() {
    assert!(is_flac_file_name("song.flac"));
    assert!(is_flac_file_name("SONG.FLAC"));
    assert!(is_flac_file_name("x.FlAc"));
    assert!(is_flac_file_name("flac"));
    assert!(is_flac_file_name("\u{e9}t\u{e9}.flac"));
    assert!(!is_flac_file_name("song.mp3"));
    assert!(!is_flac_file_name("lac"));
    assert!(!is_flac_file_name(""));
    assert!(!is_flac_file_name("song.flac.bak"));
    assert!(!is_flac_file_name("song.fla\u{e7}"));
}
