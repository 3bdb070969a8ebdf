//! The media-upload endpoint: its response shape and the verified compute
//! parts of the call, the image digest and the mime type by file extension.

use crate::crypto::{hex_chars, hex_encode, sha256, sha256_of};
use crate::error::WeChatPayError;
use crate::text::str_eq;
use vstd::prelude::*;

verus! {

/// The response of the media-upload endpoint.
#[derive(Debug)]
pub struct UploadImageResponse {
    /// The media id the upload is referred to by.
    pub media_id: String,
}

/// The lower-case hex SHA-256 digest that the upload's meta part carries.
pub fn sha256_hex(data: &[u8]) -> (r: String)
    ensures
        r@ == hex_chars(sha256_of(data@)),
{
    let digest = sha256(data);
    hex_encode(digest.as_slice())
}

/// The characters after the last `'.'`; the whole string when there is
/// no `'.'`.
pub open spec fn ext_chars(s: Seq<char>) -> Seq<char>
    decreases s.len(),
{
    if s.len() == 0 {
        s
    } else if s.last() == '.' {
        Seq::<char>::empty()
    } else {
        ext_chars(s.drop_last()).push(s.last())
    }
}

/// The mime type for an image file extension, among the accepted ones.
pub open spec fn mime_for(ext: Seq<char>) -> Option<Seq<char>> {
    if ext == "jpg"@ || ext == "jpeg"@ {
        Some("image/jpeg"@)
    } else if ext == "png"@ {
        Some("image/png"@)
    } else if ext == "bmp"@ {
        Some("image/bmp"@)
    } else {
        None
    }
}

proof fn lemma_ext_chars_after_dot(s: Seq<char>, i: int)
    requires
        0 <= i < s.len(),
        s[i] == '.',
        forall|j: int| i < j < s.len() ==> s[j] != '.',
    ensures
        ext_chars(s) == s.subrange(i + 1, s.len() as int),
    decreases s.len(),
{
    if i == s.len() - 1 {
        assert(s.last() == '.');
        assert(s.subrange(i + 1, s.len() as int) =~= Seq::<char>::empty());
    } else {
        assert(s.last() != '.');
        lemma_ext_chars_after_dot(s.drop_last(), i);
        assert(ext_chars(s) =~= s.subrange(i + 1, s.len() as int)) by {
            assert(s.drop_last().subrange(i + 1, s.len() - 1) =~= s.subrange(i + 1, s.len() - 1));
        }
    }
}

proof fn lemma_ext_chars_no_dot(s: Seq<char>)
    requires
        forall|j: int| 0 <= j < s.len() ==> s[j] != '.',
    ensures
        ext_chars(s) == s,
    decreases s.len(),
{
    if s.len() > 0 {
        lemma_ext_chars_no_dot(s.drop_last());
        assert(ext_chars(s) =~= s);
    }
}

/// The mime type an uploaded image is sent under, read off the file
/// extension; an extension outside the accepted ones is rejected.
pub fn mime_for_filename(filename: &str) -> (r: Result<&'static str, WeChatPayError>)
    ensures
        mime_for(ext_chars(filename@)) matches Some(m) ==> (r matches Ok(s) && s@ == m),
        mime_for(ext_chars(filename@)) is None ==> (r matches Err(e) && e matches
            WeChatPayError::Unknown(_)),
{
    let len = filename.unicode_len();
    let mut j: usize = 0;
    let mut i: usize = 0;
    while i < len
        invariant
            0 <= i <= len,
            0 <= j <= i,
            len == filename@.len(),
            j == 0 ==> forall|k: int| 0 <= k < i ==> filename@[k] != '.',
            j > 0 ==> filename@[j - 1] == '.',
            forall|k: int| j <= k < i ==> filename@[k] != '.',
        decreases len - i,
    {
        if filename.get_char(i) == '.' {
            j = i + 1;
        }
        i += 1;
    }
    proof {
        if j == 0 {
            lemma_ext_chars_no_dot(filename@);
        } else {
            lemma_ext_chars_after_dot(filename@, j - 1);
        }
    }
    let ext = filename.substring_char(j, len);
    proof {
        assert(ext@ =~= ext_chars(filename@));
    }
    if str_eq(ext, "jpg") || str_eq(ext, "jpeg") {
        Ok("image/jpeg")
    } else if str_eq(ext, "png") {
        Ok("image/png")
    } else if str_eq(ext, "bmp") {
        Ok("image/bmp")
    } else {
        Err(WeChatPayError::Unknown(String::from_str("Unsupported image format")))
    }
}

} // verus!
