//! From a request path to the key of the object it names.

use vstd::prelude::*;
use vstd::string::*;

verus! {

/// The object key that a request path names: the path without its leading
/// `/` where it has one, the path itself where it has none. Exactly one
/// character is dropped; nothing is decoded or collapsed.
pub open spec fn key_of(path: Seq<char>) -> Seq<char> {
    if path.len() > 0 && path[0] == '/' {
        path.skip(1)
    } else {
        path
    }
}

/// Maps a request path to its object key.
pub fn key(path: &str) -> (k: &str)
    ensures
        k@ == key_of(path@),
{
    let n: usize = path.unicode_len();
    if n > 0 && path.get_char(0) == '/' {
        path.substring_char(1, n)
    } else {
        path
    }
}

/// A path without a leading `/` is its own key, so a key that has none is
/// left as it is when it is normalized again.
pub proof fn lemma_key_of_unprefixed(path: Seq<char>)
    requires
        path.len() == 0 || path[0] != '/',
    ensures
        key_of(path) == path,
{
}

/// Putting one `/` in front of any text and taking the key gives the text
/// back, whatever it starts with.
pub proof fn lemma_key_of_prefixed(rest: Seq<char>)
    ensures
        key_of(seq!['/'] + rest) == rest,
{
    assert((seq!['/'] + rest).skip(1) =~= rest);
}

/// A path that does not begin with two separators yields a key without a
/// leading separator, and normalizing that key again changes nothing.
pub proof fn lemma_key_of_settles(path: Seq<char>)
    requires
        !(path.len() >= 2 && path[0] == '/' && path[1] == '/'),
    ensures
        key_of(path).len() == 0 || key_of(path)[0] != '/',
        key_of(key_of(path)) == key_of(path),
{
}

/// The key is the path or the path less one character, never less.
pub proof fn lemma_key_of_length(path: Seq<char>)
    ensures
        path.len() - 1 <= key_of(path).len() <= path.len(),
        key_of(path).is_suffix_of(path),
{
    if path.len() > 0 && path[0] == '/' {
        assert(path =~= path.take(1) + path.skip(1));
    } else {
        assert(path =~= Seq::<char>::empty() + path);
    }
}

} // verus!
