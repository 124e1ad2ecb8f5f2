//! The naming of stored objects: every write goes to a name that carries a
//! freshly drawn token, so that no write lands on the name of an earlier one.

use vstd::prelude::*;
use vstd::string::*;
use crate::trusted::{file_extension_of, file_stem_of, path_extension, path_file_stem};

verus! {

/// The stem, the token and the extension, put together as
/// `<stem>-<token>.<extension>`; without an extension the dot is left out too.
pub open spec fn unique_name(stem: Seq<char>, token: Seq<char>, extension: Seq<char>) -> Seq<char> {
    if extension.len() == 0 {
        stem + "-"@ + token
    } else {
        stem + "-"@ + token + "."@ + extension
    }
}

/// The stem under which a file name is stored: its own, or `file` where it
/// has none.
pub open spec fn stem_of(filename: Seq<char>) -> Seq<char> {
    match file_stem_of(filename) {
        Some(stem) => stem,
        None => "file"@,
    }
}

/// The extension under which a file name is stored: its own, or none.
pub open spec fn extension_of(filename: Seq<char>) -> Seq<char> {
    match file_extension_of(filename) {
        Some(extension) => extension,
        None => Seq::empty(),
    }
}

/// The name under which a file is stored, given the token drawn for it.
pub open spec fn unique_name_for(filename: Seq<char>, token: Seq<char>) -> Seq<char> {
    unique_name(stem_of(filename), token, extension_of(filename))
}

/// Puts a stored name together from its three parts.
pub fn compose_unique_name(stem: &str, token: &str, extension: &str) -> (name: String)
    ensures
        name@ == unique_name(stem@, token@, extension@),
{
    let mut name = stem.to_owned();
    name.append("-");
    name.append(token);
    if !extension.is_empty() {
        name.append(".");
        name.append(extension);
    }
    name
}

/// The name under which `filename` is stored with the given token.
pub fn unique_name_with(filename: &str, token: &str) -> (name: String)
    ensures
        name@ == unique_name_for(filename@, token@),
{
    let extension = match path_extension(filename) {
        Some(extension) => extension,
        None => String::new(),
    };
    let stem = match path_file_stem(filename) {
        Some(stem) => stem,
        None => "file".to_owned(),
    };
    compose_unique_name(stem.as_str(), token, extension.as_str())
}

/// Two names made from the same stem and extension are equal only if their
/// tokens are.
pub proof fn lemma_unique_name_injective(
    stem: Seq<char>,
    extension: Seq<char>,
    token_a: Seq<char>,
    token_b: Seq<char>,
)
    requires
        unique_name(stem, token_a, extension) == unique_name(stem, token_b, extension),
    ensures
        token_a == token_b,
{
    let head = stem + "-"@;
    let a = unique_name(stem, token_a, extension);
    let b = unique_name(stem, token_b, extension);
    let tail: Seq<char> = if extension.len() == 0 {
        Seq::empty()
    } else {
        "."@ + extension
    };
    assert(a == head + token_a + tail);
    assert(b == head + token_b + tail);
    assert(a.len() == head.len() + token_a.len() + tail.len());
    assert(b.len() == head.len() + token_b.len() + tail.len());
    assert(token_a == a.subrange(head.len() as int, (head.len() + token_a.len()) as int));
    assert(token_b == b.subrange(head.len() as int, (head.len() + token_b.len()) as int));
}

} // verus!
