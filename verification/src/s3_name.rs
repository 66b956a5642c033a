//! The address of the remote object: `s3://`, the bucket, a slash, the key.

use vstd::prelude::*;
use vstd::string::StrSliceExecFns;
use crate::text::chars_of;

verus! {

/// What every address begins with.
pub open spec fn s3_scheme() -> Seq<char> {
    seq!['s', '3', ':', '/', '/']
}

/// The part of a key after its last slash; the whole key if it has none.
pub open spec fn file_name_of(key: Seq<char>) -> Seq<char> {
    match key.index_of_last('/') {
        Some(slash) => key.skip(slash + 1),
        None => key,
    }
}

/// The bucket, the key and the file name of an address: the bucket is what
/// stands between the scheme and the first slash after it, the key is all
/// that follows that slash. No parts for a text that does not begin with the
/// scheme, or has no slash after it.
pub open spec fn s3_parts(filename: Seq<char>) -> Option<(Seq<char>, Seq<char>, Seq<char>)> {
    if !s3_scheme().is_prefix_of(filename) {
        None
    } else {
        let rest = filename.skip(5);
        match rest.index_of_first('/') {
            Some(slash) => {
                let key = rest.skip(slash + 1);
                Some((rest.take(slash), key, file_name_of(key)))
            },
            None => None,
        }
    }
}

/// The first slash of a text is where a slash stands with none before it.
proof fn lemma_first_slash(text: Seq<char>, slash: int)
    requires
        0 <= slash < text.len(),
        text[slash] == '/',
        forall|j: int| 0 <= j < slash ==> text[j] != '/',
    ensures
        text.index_of_first('/') == Some(slash),
{
    text.index_of_first_ensures('/');
}

/// The last slash of a text is where a slash stands with none after it.
proof fn lemma_last_slash(text: Seq<char>, slash: int)
    requires
        0 <= slash < text.len(),
        text[slash] == '/',
        forall|j: int| slash < j < text.len() ==> text[j] != '/',
    ensures
        text.index_of_last('/') == Some(slash),
{
    text.index_of_last_ensures('/');
}

/// A text without a slash has neither a first nor a last one.
proof fn lemma_no_slash(text: Seq<char>)
    requires
        forall|j: int| 0 <= j < text.len() ==> text[j] != '/',
    ensures
        text.index_of_first('/').is_none(),
        text.index_of_last('/').is_none(),
{
    text.index_of_first_ensures('/');
    text.index_of_last_ensures('/');
}

/// Takes an address apart into bucket, key and file name.
pub fn parse_s3_filename(filename: &str) -> (parts: Option<(String, String, String)>)
    ensures
        match parts {
            Some((bucket, key, file_name)) => s3_parts(filename@) == Some(
                (bucket@, key@, file_name@),
            ),
            None => s3_parts(filename@).is_none(),
        },
{
    let chars = chars_of(filename);
    let n = chars.len();
    if n < 5 || chars[0] != 's' || chars[1] != '3' || chars[2] != ':' || chars[3] != '/'
        || chars[4] != '/' {
        return None;
    }
    let ghost rest = filename@.skip(5);
    let mut slash: usize = 5;
    while slash < n && chars[slash] != '/'
        invariant
            5 <= slash <= n,
            n == chars@.len(),
            chars@ == filename@,
            rest == filename@.skip(5),
            forall|j: int| 0 <= j < slash - 5 ==> rest[j] != '/',
        decreases n - slash,
    {
        slash += 1;
    }
    if slash == n {
        proof {
            lemma_no_slash(rest);
        }
        return None;
    }
    proof {
        lemma_first_slash(rest, slash - 5);
    }
    let ghost key = rest.skip(slash - 5 + 1);
    let mut start: usize = n;
    while start > slash + 1 && chars[start - 1] != '/'
        invariant
            slash + 1 <= start <= n,
            n == chars@.len(),
            chars@ == filename@,
            key == filename@.subrange(slash + 1, n as int),
            forall|j: int| start - (slash + 1) <= j < key.len() ==> key[j] != '/',
        decreases start,
    {
        start -= 1;
    }
    proof {
        if start == slash + 1 {
            lemma_no_slash(key);
        } else {
            lemma_last_slash(key, start - 1 - (slash + 1));
        }
    }
    let bucket = filename.substring_char(5, slash).to_owned();
    let key_text = filename.substring_char(slash + 1, n).to_owned();
    let file_name = filename.substring_char(start, n).to_owned();
    Some((bucket, key_text, file_name))
}

} // verus!
