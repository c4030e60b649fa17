use vstd::prelude::*;
use vstd::string::StringSliceAdditionalSpecFns;

verus! {

/// The byte `c` with an ASCII lower-case letter raised to upper case.
pub open spec fn ascii_upper(c: u8) -> u8 {
    if 0x61 <= c <= 0x7a {
        (c - 32) as u8
    } else {
        c
    }
}

/// The bytes `b` end in `FLAC`, in any mix of ASCII case.
pub open spec fn ends_with_flac(b: Seq<u8>) -> bool {
    let n = b.len() as int;
    &&& n >= 4
    &&& ascii_upper(b[n - 4]) == 0x46
    &&& ascii_upper(b[n - 3]) == 0x4c
    &&& ascii_upper(b[n - 2]) == 0x41
    &&& ascii_upper(b[n - 1]) == 0x43
}

fn upper(c: u8) -> (r: u8)
    ensures
        r == ascii_upper(c),
{
    if 0x61 <= c && c <= 0x7a {
        c - 32
    } else {
        c
    }
}

/// Tells whether a file name marks a FLAC file: it ends in `flac`, whatever the
/// ASCII case of its letters.
pub fn is_flac_file_name(name: &str) -> (r: bool)
    ensures
        r == ends_with_flac(name.spec_bytes()),
{
    let b = name.as_bytes();
    let n = b.len();
    n >= 4 && upper(b[n - 4]) == 0x46 && upper(b[n - 3]) == 0x4c && upper(b[n - 2]) == 0x41
        && upper(b[n - 1]) == 0x43
}

} // verus!
