use vstd::prelude::*;
use vstd::string::StringExecFns;

use crate::digits::{zero_padded, zero_padded_digits};
use crate::text::{append_char, append_chars};

verus! {

/// What `Path::file_stem` gives for a path: its file name without the final extension.
pub uninterp spec fn file_stem_of(path: Seq<char>) -> Option<Seq<char>>;

/// What `Path::extension` gives for a path: the final extension of its file name.
pub uninterp spec fn extension_of(path: Seq<char>) -> Option<Seq<char>>;

/// What `Path::parent` gives for a path: the path without its final component.
pub uninterp spec fn parent_of(path: Seq<char>) -> Option<Seq<char>>;

/// What `Path::join` gives for a directory and a file name.
pub uninterp spec fn joined(dir: Seq<char>, name: Seq<char>) -> Seq<char>;

/// Relies on `std::path::Path::file_stem`; the input is UTF-8, so the lossy
/// conversion of the result keeps it as it is.
#[verifier::external_body]
fn path_file_stem(path: &str) -> (r: Option<String>)
    ensures
        r matches Some(s) ==> file_stem_of(path@) == Some(s@),
        r is None ==> file_stem_of(path@) is None,
{
    std::path::Path::new(path).file_stem().map(|s| s.to_string_lossy().into_owned())
}

/// Relies on `std::path::Path::extension`; the input is UTF-8, so the lossy
/// conversion of the result keeps it as it is.
#[verifier::external_body]
fn path_extension(path: &str) -> (r: Option<String>)
    ensures
        r matches Some(s) ==> extension_of(path@) == Some(s@),
        r is None ==> extension_of(path@) is None,
{
    std::path::Path::new(path).extension().map(|s| s.to_string_lossy().into_owned())
}

/// Relies on `std::path::Path::parent`; the input is UTF-8, so the lossy
/// conversion of the result keeps it as it is.
#[verifier::external_body]
fn path_parent(path: &str) -> (r: Option<String>)
    ensures
        r matches Some(s) ==> parent_of(path@) == Some(s@),
        r is None ==> parent_of(path@) is None,
{
    std::path::Path::new(path).parent().map(|p| p.to_string_lossy().into_owned())
}

/// Relies on `std::path::Path::join`: `name` placed inside the directory `dir`.
#[verifier::external_body]
fn path_join(dir: &str, name: &str) -> (r: String)
    ensures
        r@ == joined(dir@, name@),
{
    std::path::Path::new(dir).join(name).to_string_lossy().into_owned()
}

/// The default file name stem when the base path supplies none.
pub open spec fn default_stem() -> Seq<char> {
    seq!['r', 'e', 'c', 'o', 'r', 'd', 'i', 'n', 'g']
}

/// The default extension when the base path supplies none.
pub open spec fn default_ext() -> Seq<char> {
    seq!['t', 's']
}

/// A non-empty optional part, or the default in its place.
pub open spec fn part_or(part: Option<Seq<char>>, default: Seq<char>) -> Seq<char> {
    match part {
        Some(p) => if p.len() > 0 { p } else { default },
        None => default,
    }
}

/// The stem of a base path's file name, `recording` where it has none.
pub open spec fn stem_spec(base: Seq<char>) -> Seq<char> {
    part_or(file_stem_of(base), default_stem())
}

/// The extension of a base path's file name, `ts` where it has none.
pub open spec fn ext_spec(base: Seq<char>) -> Seq<char> {
    part_or(extension_of(base), default_ext())
}

/// Width to which a segment's index is zero-padded in its file name.
pub const INDEX_WIDTH: u64 = 5;

/// `{stem}_{channel}_{timestamp}_{index:05}.{ext}`
pub open spec fn segment_file_name_spec(
    stem: Seq<char>,
    channel: Seq<char>,
    timestamp: Seq<char>,
    index: u64,
    ext: Seq<char>,
) -> Seq<char> {
    stem + seq!['_'] + channel + seq!['_'] + timestamp + seq!['_']
        + zero_padded(index as nat, INDEX_WIDTH as nat) + seq!['.'] + ext
}

/// The path of the segment with the given timestamp and index: its file name
/// inside the base path's parent directory, or alone where that is empty.
pub open spec fn segment_path_spec(
    base: Seq<char>,
    channel: Seq<char>,
    timestamp: Seq<char>,
    index: u64,
) -> Seq<char> {
    let name = segment_file_name_spec(stem_spec(base), channel, timestamp, index, ext_spec(base));
    match parent_of(base) {
        Some(dir) => if dir.len() > 0 { joined(dir, name) } else { name },
        None => name,
    }
}

/// A non-empty optional part, or `default` in its place.
fn part_or_default(part: Option<String>, default: &str) -> (r: String)
    ensures
        r@ == part_or(
            match part {
                Some(p) => Some(p@),
                None => None,
            },
            default@,
        ),
{
    match part {
        Some(p) => {
            if p.as_str().is_empty() {
                default.to_owned()
            } else {
                p
            }
        },
        None => default.to_owned(),
    }
}

/// Splits a base path into the stem and the extension of its file name,
/// each replaced by its default where it is missing or empty.
pub fn split_stem_ext(path: &str) -> (r: (String, String))
    ensures
        r.0@ == stem_spec(path@),
        r.1@ == ext_spec(path@),
{
    proof {
        reveal_strlit("recording");
        reveal_strlit("ts");
        assert("recording"@ =~= default_stem());
        assert("ts"@ =~= default_ext());
    }
    let stem = part_or_default(path_file_stem(path), "recording");
    let ext = part_or_default(path_extension(path), "ts");
    (stem, ext)
}

/// Builds the file name `{stem}_{channel}_{timestamp}_{index:05}.{ext}`.
pub fn segment_file_name(stem: &str, channel: &str, timestamp: &str, index: u64, ext: &str) -> (r:
    String)
    ensures
        r@ == segment_file_name_spec(stem@, channel@, timestamp@, index, ext@),
{
    let mut name = String::new();
    name.append(stem);
    append_char(&mut name, '_');
    name.append(channel);
    append_char(&mut name, '_');
    name.append(timestamp);
    append_char(&mut name, '_');
    let digits = zero_padded_digits(index, INDEX_WIDTH);
    append_chars(&mut name, &digits);
    append_char(&mut name, '.');
    name.append(ext);
    assert(name@ =~= segment_file_name_spec(stem@, channel@, timestamp@, index, ext@));
    name
}

/// The path of the segment for `timestamp` and `index`, derived from the
/// base path and the channel.
pub fn segment_path(base: &str, channel: &str, timestamp: &str, index: u64) -> (r: String)
    ensures
        r@ == segment_path_spec(base@, channel@, timestamp@, index),
{
    let (stem, ext) = split_stem_ext(base);
    let name = segment_file_name(stem.as_str(), channel, timestamp, index, ext.as_str());
    match path_parent(base) {
        Some(dir) => {
            if dir.as_str().is_empty() {
                name
            } else {
                path_join(dir.as_str(), name.as_str())
            }
        },
        None => name,
    }
}

} // verus!
