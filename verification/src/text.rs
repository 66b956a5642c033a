//! Questions about text that the records' names and the store's addresses
//! raise, answered character by character.

use vstd::prelude::*;
use vstd::std_specs::iter::IteratorSpec;

verus! {

/// The characters of a text, in order.
pub fn chars_of(text: &str) -> (chars: Vec<char>)
    ensures
        chars@ == text@,
{
    let mut chars: Vec<char> = Vec::new();
    let mut rest = text.chars();
    loop
        invariant
            chars@.len() <= text@.len(),
            rest.remaining() == text@.skip(chars@.len() as int),
            chars@ == text@.take(chars@.len() as int),
        decreases text@.len() - chars@.len(),
    {
        match rest.next() {
            Some(c) => {
                chars.push(c);
            },
            None => {
                return chars;
            },
        }
    }
}

/// Whether the text begins with the prefix.
pub fn starts_with(text: &str, prefix: &str) -> (yes: bool)
    ensures
        yes == prefix@.is_prefix_of(text@),
{
    let mut rest = text.chars();
    let mut wanted = prefix.chars();
    let ghost mut k: int = 0;
    loop
        invariant
            0 <= k <= prefix@.len(),
            k <= text@.len(),
            wanted.remaining() == prefix@.skip(k),
            rest.remaining() == text@.skip(k),
            prefix@.take(k) == text@.take(k),
        decreases prefix@.len() - k,
    {
        match wanted.next() {
            None => {
                return true;
            },
            Some(w) => {
                match rest.next() {
                    None => {
                        return false;
                    },
                    Some(c) => {
                        if c != w {
                            return false;
                        }
                    },
                }
            },
        }
        proof {
            k = k + 1;
        }
    }
}

/// Calls `String::push`, which appends the character to the end of the
/// string.
#[verifier::external_body]
fn push_char(text: &mut String, c: char)
    ensures
        final(text)@ == old(text)@.push(c),
{
    text.push(c)
}

/// The text made of the characters, in order.
pub fn string_of(chars: &Vec<char>) -> (text: String)
    ensures
        text@ == chars@,
{
    let mut text = String::new();
    let mut i: usize = 0;
    while i < chars.len()
        invariant
            i <= chars.len(),
            text@ == chars@.take(i as int),
        decreases chars.len() - i,
    {
        push_char(&mut text, chars[i]);
        i += 1;
    }
    text
}

/// The text with every occurrence of the pattern replaced, going from left
/// to right and never looking into what has been put in. The empty pattern
/// occurs nowhere.
pub open spec fn replaced(text: Seq<char>, pattern: Seq<char>, with: Seq<char>) -> Seq<char>
    decreases text.len(),
{
    if pattern.len() == 0 || text.len() < pattern.len() {
        text
    } else if pattern.is_prefix_of(text) {
        with + replaced(text.skip(pattern.len() as int), pattern, with)
    } else {
        seq![text[0]] + replaced(text.skip(1), pattern, with)
    }
}

/// A query string with its escaped square brackets written out: first every
/// `%5B` becomes `[`, then every `%5D` becomes `]`.
pub open spec fn brackets_decoded(encoded: Seq<char>) -> Seq<char> {
    replaced(replaced(encoded, seq!['%', '5', 'B'], seq!['[']), seq!['%', '5', 'D'], seq![']'])
}

/// Whether the pattern stands in the text at the position.
fn matches_at(text: &Vec<char>, at: usize, pattern: &Vec<char>) -> (yes: bool)
    requires
        at <= text.len(),
    ensures
        yes == pattern@.is_prefix_of(text@.skip(at as int)),
{
    let ghost rest = text@.skip(at as int);
    if pattern.len() > text.len() - at {
        return false;
    }
    let mut k: usize = 0;
    while k < pattern.len()
        invariant
            k <= pattern.len(),
            at <= text.len(),
            pattern.len() <= text.len() - at,
            rest == text@.skip(at as int),
            forall|j: int| 0 <= j < k ==> pattern@[j] == rest[j],
        decreases pattern.len() - k,
    {
        if pattern[k] != text[at + k] {
            return false;
        }
        k += 1;
    }
    true
}

/// The characters with every occurrence of the pattern replaced.
pub fn replace_all(text: &Vec<char>, pattern: &Vec<char>, with: &Vec<char>) -> (out: Vec<char>)
    ensures
        out@ == replaced(text@, pattern@, with@),
{
    if pattern.len() == 0 {
        return text.clone();
    }
    let mut out: Vec<char> = Vec::new();
    let mut i: usize = 0;
    assert(text@.skip(0) =~= text@);
    while i < text.len()
        invariant
            i <= text.len(),
            pattern.len() > 0,
            out@ + replaced(text@.skip(i as int), pattern@, with@) == replaced(
                text@,
                pattern@,
                with@,
            ),
        decreases text.len() - i,
    {
        let ghost rest = text@.skip(i as int);
        let ghost before = out@;
        if matches_at(text, i, pattern) {
            let mut k: usize = 0;
            while k < with.len()
                invariant
                    k <= with.len(),
                    out@ == before + with@.take(k as int),
                decreases with.len() - k,
            {
                out.push(with[k]);
                k += 1;
            }
            i += pattern.len();
            assert(rest.skip(pattern@.len() as int) =~= text@.skip(i as int));
        } else {
            out.push(text[i]);
            i += 1;
            assert(rest.skip(1) =~= text@.skip(i as int));
        }
    }
    out
}

/// Writes out the escaped square brackets of a query string.
pub fn decode_brackets(encoded_str: &str) -> (decoded: String)
    ensures
        decoded@ == brackets_decoded(encoded_str@),
{
    let open_escape = vec!['%', '5', 'B'];
    let close_escape = vec!['%', '5', 'D'];
    let open_bracket = vec!['['];
    let close_bracket = vec![']'];
    assert(open_escape@ =~= seq!['%', '5', 'B'] && open_bracket@ =~= seq!['[']);
    assert(close_escape@ =~= seq!['%', '5', 'D'] && close_bracket@ =~= seq![']']);
    let chars = chars_of(encoded_str);
    let once = replace_all(&chars, &open_escape, &open_bracket);
    let twice = replace_all(&once, &close_escape, &close_bracket);
    string_of(&twice)
}

} // verus!
