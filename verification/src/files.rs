//! Writing text to files, described as data: the caller performs the write.
use vstd::prelude::*;
use vstd::slice::slice_to_vec;
use vstd::utf8::encode_utf8;

verus! {

/// A file to create (or truncate) holding exactly `bytes`.
#[derive(Debug)]
pub struct FileWrite {
    pub path: String,
    pub bytes: Vec<u8>,
}

/// Describes writing `contents` into the file `filename`: the file is
/// created, or emptied when it exists, and receives the UTF-8 bytes of the
/// text.
pub fn write_to_file(filename: &str, contents: &str) -> (res: FileWrite)
    ensures
        res.path@ == filename@,
        res.bytes@ == encode_utf8(contents@),
{
    let bytes = slice_to_vec(contents.as_bytes());
    FileWrite { path: filename.to_owned(), bytes }
}

} // verus!
