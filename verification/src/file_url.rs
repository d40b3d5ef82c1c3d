//! From a `file://` URL to a path with backslashes.

use crate::text::{chars_of, starts_with};
use vstd::prelude::*;

verus! {

/// `url` without one leading `file:///`; where it has none, without one
/// leading `file://`; where it has neither, as it is. The scheme counts only
/// as it is written here, in lower case.
pub open spec fn without_scheme(url: Seq<char>) -> Seq<char> {
    if "file:///"@.is_prefix_of(url) {
        url.skip("file:///"@.len() as int)
    } else if "file://"@.is_prefix_of(url) {
        url.skip("file://"@.len() as int)
    } else {
        url
    }
}

/// A backslash for a forward slash, every other character for itself.
pub open spec fn backslash_for_slash(c: char) -> char {
    if c == '/' {
        '\\'
    } else {
        c
    }
}

/// `text` with a backslash in place of each forward slash.
pub open spec fn with_backslashes(text: Seq<char>) -> Seq<char> {
    text.map_values(|c: char| backslash_for_slash(c))
}

/// The path that `url` stands for: the scheme is taken off, and what is left
/// is written with backslashes.
pub open spec fn windows_path(url: Seq<char>) -> Seq<char> {
    with_backslashes(without_scheme(url))
}

/// The conversion is total: it leaves no forward slash behind.
pub proof fn lemma_no_slash_left(text: Seq<char>)
    ensures
        !with_backslashes(text).contains('/'),
{
}

/// Turns `url` into a path with backslashes. The three-slash scheme is looked
/// for before the two-slash one, so that of `file:///C:/a` no slash is left in
/// front of the drive.
pub fn windows_path_of(url: &str) -> (path: String)
    ensures
        path@ == windows_path(url@),
        !path@.contains('/'),
{
    let chars = chars_of(url);
    let rooted = chars_of("file:///");
    let plain = chars_of("file://");
    let start: usize = if starts_with(chars.as_slice(), rooted.as_slice()) {
        rooted.len()
    } else if starts_with(chars.as_slice(), plain.as_slice()) {
        plain.len()
    } else {
        0
    };
    let ghost rest = without_scheme(url@);
    let mut path = String::new();
    let mut i: usize = start;
    while i < chars.len()
        invariant
            start <= i <= chars.len(),
            rest == chars@.skip(start as int),
            path@ == with_backslashes(rest.take(i - start)),
        decreases chars.len() - i,
    {
        let c = chars[i];
        path.push(if c == '/' { '\\' } else { c });
        i += 1;
    }
    proof {
        lemma_no_slash_left(rest);
    }
    path
}

} // verus!
