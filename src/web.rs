//! Pure parts of the runtime's web-platform operations: encoding labels, the UTF-8 byte
//! order mark, and the storage quota.
use crate::text::{lower_of, lowercase};
use vstd::prelude::*;

verus! {

/// The most bytes of keys and values that one storage area may hold: 5 MiB.
pub const STORAGE_SIZE_LIMIT: usize = 5242880;

/// The name of the encoding that `encoding_rs::Encoding::for_label_no_replacement` finds for
/// `label`, if any.
pub uninterp spec fn encoding_name_for_label(label: Seq<char>) -> Option<Seq<char>>;

/// Relies on `encoding_rs::Encoding::for_label_no_replacement` on the label's bytes, and on
/// `Encoding::name`.
#[verifier::external_body]
fn encoding_name(label: &str) -> (r: Option<String>)
    ensures
        match r {
            Some(name) => encoding_name_for_label(label@) == Some(name@),
            None => encoding_name_for_label(label@) is None,
        },
{
    match encoding_rs::Encoding::for_label_no_replacement(label.as_bytes()) {
        Some(encoding) => Some(encoding.name().to_string()),
        None => None,
    }
}

/// The canonical, lower-case name of the encoding that `label` stands for; an unknown label
/// is an error that quotes it.
pub fn op_encoding_normalize_label(label: &str) -> (r: Result<String, String>)
    ensures
        match r {
            Ok(name) => encoding_name_for_label(label@) matches Some(n) && name@ == lower_of(n),
            Err(_) => encoding_name_for_label(label@) is None,
        },
{
    match encoding_name(label) {
        Some(name) => Ok(lowercase(name.as_str())),
        None => {
            let mut message = String::from_str("The encoding label provided ('");
            message.append(label);
            message.append("') is invalid.");
            Err(message)
        },
    }
}

/// Whether `buf` starts with the UTF-8 byte order mark.
pub open spec fn has_utf8_bom(buf: Seq<u8>) -> bool {
    buf.len() >= 3 && buf[0] == 0xefu8 && buf[1] == 0xbbu8 && buf[2] == 0xbfu8
}

/// Where the text of a UTF-8 buffer starts: after its byte order mark, unless the mark is to
/// be kept.
pub fn utf8_text_start(buf: &[u8], ignore_bom: bool) -> (r: usize)
    ensures
        r == (if !ignore_bom && has_utf8_bom(buf@) {
            3usize
        } else {
            0usize
        }),
{
    if !ignore_bom && buf.len() >= 3 && buf[0] == 0xef && buf[1] == 0xbb && buf[2] == 0xbf {
        3
    } else {
        0
    }
}

/// Whether a storage area that holds `used` bytes has room for an item whose key and value
/// take `key_len` and `value_len` bytes.
pub fn storage_has_room(used: usize, key_len: usize, value_len: usize) -> (r: bool)
    ensures
        r == (used + key_len + value_len < STORAGE_SIZE_LIMIT),
{
    if used >= STORAGE_SIZE_LIMIT || key_len >= STORAGE_SIZE_LIMIT || value_len
        >= STORAGE_SIZE_LIMIT {
        return false;
    }
    used + key_len + value_len < STORAGE_SIZE_LIMIT
}

} // verus!
