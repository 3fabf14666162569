//! What the library takes from the standard library and from other crates
//! without a proof of its own.
use std::io::{Cursor, Read};
use vstd::prelude::*;
use vstd::utf8::encode_utf8;
use md5::{Digest, Md5};
use url::form_urlencoded::Serializer;
use zip::ZipArchive;
use unicode_segmentation::UnicodeSegmentation;
use unicode_width::UnicodeWidthStr;
use crate::numbers::capital_hex;
use crate::strings::{lower_text, texts};

verus! {

/// `String::push` puts one character behind the text.
pub assume_specification[ String::push ](s: &mut String, c: char)
    ensures
        final(s)@ == old(s)@.push(c),
;

/// The characters that `char::is_alphanumeric` accepts.
pub uninterp spec fn is_alphanumeric(c: char) -> bool;

/// Calls `char::is_alphanumeric`, which reads the Unicode tables of letters and numbers. The
/// contract names the answer, and says that among the characters of ASCII the letters and the
/// digits are accepted, and no others.
#[verifier::external_body]
pub(crate) fn is_alphanumeric_char(c: char) -> (r: bool)
    ensures
        r == is_alphanumeric(c),
        c < '\u{80}' ==> r == ('0' <= c <= '9' || 'A' <= c <= 'Z' || 'a' <= c <= 'z'),
{
    c.is_alphanumeric()
}

/// The lower case of a text, as `str::to_lowercase` gives it.
pub uninterp spec fn lowercase(s: Seq<char>) -> Seq<char>;

/// Whether a text is made of ASCII characters.
pub open spec fn is_ascii_text(s: Seq<char>) -> bool {
    forall|i: int| 0 <= i < s.len() ==> #[trigger] s[i] < '\u{80}'
}

/// Calls `str::to_lowercase`, which reads the Unicode case mappings. The contract names the
/// result, and says that on a text of ASCII characters the capitals become small letters and
/// nothing else changes.
#[verifier::external_body]
pub(crate) fn to_lowercase(s: &str) -> (r: String)
    ensures
        r@ == lowercase(s@),
        is_ascii_text(s@) ==> r@ == lower_text(s@),
{
    s.to_lowercase()
}

/// The extended grapheme clusters of a text, as `UnicodeSegmentation::graphemes` finds them.
pub uninterp spec fn graphemes(s: Seq<char>) -> Seq<Seq<char>>;

/// Texts one behind the other.
pub open spec fn flat(v: Seq<Seq<char>>) -> Seq<char>
    decreases v.len(),
{
    if v.len() == 0 {
        Seq::empty()
    } else {
        flat(v.drop_last()) + v.last()
    }
}

/// Whether a text is made of the visible characters of ASCII and the blank.
pub open spec fn is_plain(s: Seq<char>) -> bool {
    forall|i: int| 0 <= i < s.len() ==> ' ' <= #[trigger] s[i] <= '~'
}

/// Calls `UnicodeSegmentation::graphemes` for extended clusters and copies each. The contract names
/// the clusters, and says that none is empty, that one behind the other they are the text, and
/// that of a text of visible ASCII characters and blanks each character is a cluster.
#[verifier::external_body]
pub(crate) fn clusters(s: &str) -> (r: Vec<String>)
    ensures
        texts(r@) == graphemes(s@),
        flat(texts(r@)) == s@,
        forall|i: int| 0 <= i < r@.len() ==> (#[trigger] texts(r@)[i]).len() > 0,
        is_plain(s@) ==> texts(r@) == s@.map_values(|c: char| seq![c]),
{
    s.graphemes(true).map(String::from).collect()
}

/// The columns that a text takes on a terminal, as `UnicodeWidthStr::width` counts them.
pub uninterp spec fn display_width(s: Seq<char>) -> usize;

/// Calls `UnicodeWidthStr::width`. The contract names the width, and says that visible ASCII
/// characters and blanks take one column each.
#[verifier::external_body]
pub(crate) fn columns(s: &str) -> (r: usize)
    ensures
        r == display_width(s@),
        is_plain(s@) ==> r == s@.len(),
{
    s.width()
}

/// The MD5 digest of bytes, as `Md5::digest` computes it.
pub uninterp spec fn md5_of(data: Seq<u8>) -> Seq<u8>;

/// Calls `Md5::digest`. The contract names the digest and says that it has sixteen bytes.
#[verifier::external_body]
pub(crate) fn md5_digest(data: &[u8]) -> (r: Vec<u8>)
    ensures
        r@ == md5_of(data@),
        r@.len() == 16,
{
    Md5::digest(data).to_vec()
}

/// Whether a byte stands for itself in a form: a letter, a digit, or one of `*-._`.
pub open spec fn is_form_byte(b: u8) -> bool {
    (48 <= b <= 57) || (65 <= b <= 90) || (97 <= b <= 122) || b == 42 || b == 45 || b == 46 || b
        == 95
}

/// Bytes in a form: each stands for itself, is a plus sign for the blank, or is written as its two
/// hexadecimal digits behind a percent sign.
pub open spec fn form_encoded(b: Seq<u8>) -> Seq<char>
    decreases b.len(),
{
    if b.len() == 0 {
        Seq::empty()
    } else {
        form_encoded(b.drop_last()) + (if is_form_byte(b.last()) {
            seq![b.last() as char]
        } else if b.last() == 32 {
            seq!['+']
        } else {
            seq!['%', capital_hex(b.last() as nat / 16), capital_hex(b.last() as nat % 16)]
        })
    }
}

/// A query with one more pair, behind an ampersand if it is not the first.
pub open spec fn with_pair(query: Seq<char>, name: Seq<char>, value: Seq<char>) -> Seq<char> {
    (if query.len() == 0 {
        query
    } else {
        query + "&"@
    }) + form_encoded(encode_utf8(name)) + "="@ + form_encoded(encode_utf8(value))
}

/// Calls `form_urlencoded::Serializer::append_pair` on a serializer that holds a query. The contract
/// says that the pair is put behind the query: an ampersand unless the query is empty, the name,
/// an equals sign and the value, name and value encoded as in a form.
#[verifier::external_body]
pub(crate) fn append_pair(query: String, name: &str, value: &str) -> (r: String)
    ensures
        r@ == with_pair(query@, name@, value@),
{
    Serializer::new(query).append_pair(name, value).finish()
}

/// The list of texts that `serde_json::from_str` reads in a text, if it reads one.
pub uninterp spec fn json_texts(s: Seq<char>) -> Option<Seq<Seq<char>>>;

/// Calls `serde_json::from_str` for a list of texts, and drops the error. The contract names the
/// outcome.
#[verifier::external_body]
pub(crate) fn read_texts(s: &str) -> (r: Option<Vec<String>>)
    ensures
        match r {
            Some(v) => json_texts(s@) == Some(texts(v@)),
            None => json_texts(s@) is None,
        },
{
    serde_json::from_str::<Vec<String>>(s).ok()
}

/// The text that `serde_json::to_string` writes for a list of texts.
pub uninterp spec fn texts_json(v: Seq<Seq<char>>) -> Seq<char>;

/// Calls `serde_json::to_string` on a list of texts, which fails for no such list. The contract names
/// the text, and says that `serde_json::from_str` reads the list in it again.
#[verifier::external_body]
pub(crate) fn write_texts(v: &Vec<String>) -> (r: Option<String>)
    ensures
        r is Some,
        r->0@ == texts_json(texts(v@)),
        json_texts(r->0@) == Some(texts(v@)),
{
    serde_json::to_string(v).ok()
}

/// The number of entries that `ZipArchive::new` finds in bytes, or why it finds no archive.
pub uninterp spec fn archive_len(bytes: Seq<u8>) -> Result<usize, Seq<char>>;

/// Calls `ZipArchive::new` on bytes in memory, and `ZipArchive::len`. The contract names the outcome:
/// the number of entries, or the words of the error.
#[verifier::external_body]
pub(crate) fn zip_len(bytes: &[u8]) -> (r: Result<usize, String>)
    ensures
        match r {
            Ok(n) => archive_len(bytes@) == Ok::<usize, Seq<char>>(n),
            Err(e) => archive_len(bytes@) == Err::<usize, Seq<char>>(e@),
        },
{
    match ZipArchive::new(Cursor::new(bytes)) {
        Ok(archive) => Ok(archive.len()),
        Err(e) => Err(e.to_string()),
    }
}

/// The name of an entry of an archive, as `ZipArchive::by_index` and `ZipFile::name` give it.
pub uninterp spec fn archive_entry_name(bytes: Seq<u8>, i: usize) -> Result<Seq<char>, Seq<char>>;

/// Calls `ZipArchive::by_index` on an archive in memory, and `ZipFile::name`. The contract names the
/// outcome: the name of the entry, or the words of the error.
#[verifier::external_body]
pub(crate) fn zip_entry_name(bytes: &[u8], i: usize) -> (r: Result<String, String>)
    ensures
        match r {
            Ok(s) => archive_entry_name(bytes@, i) == Ok::<Seq<char>, Seq<char>>(s@),
            Err(e) => archive_entry_name(bytes@, i) == Err::<Seq<char>, Seq<char>>(e@),
        },
{
    let mut archive = ZipArchive::new(Cursor::new(bytes)).map_err(|e| e.to_string())?;
    let file = archive.by_index(i).map_err(|e| e.to_string())?;
    Ok(file.name().to_string())
}

/// The contents of an entry of an archive, as `Read::read_to_end` gives them.
pub uninterp spec fn archive_entry_bytes(bytes: Seq<u8>, i: usize) -> Result<Seq<u8>, Seq<char>>;

/// Calls `Read::read_to_end` on an entry of an archive in memory. The contract names the outcome: the
/// contents of the entry, or the words of the error.
#[verifier::external_body]
pub(crate) fn zip_entry_bytes(bytes: &[u8], i: usize) -> (r: Result<Vec<u8>, String>)
    ensures
        match r {
            Ok(v) => archive_entry_bytes(bytes@, i) == Ok::<Seq<u8>, Seq<char>>(v@),
            Err(e) => archive_entry_bytes(bytes@, i) == Err::<Seq<u8>, Seq<char>>(e@),
        },
{
    let mut archive = ZipArchive::new(Cursor::new(bytes)).map_err(|e| e.to_string())?;
    let mut file = archive.by_index(i).map_err(|e| e.to_string())?;
    let mut out = Vec::new();
    file.read_to_end(&mut out).map_err(|e| e.to_string())?;
    Ok(out)
}

} // verus!
