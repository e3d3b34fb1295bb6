//! The authorizer: does a raw `Authorization` header present the configured
//! pair of name and password in the Basic scheme?

use crate::config::Config;
use vstd::prelude::*;
use vstd::slice::*;
use vstd::utf8::valid_utf8;

verus! {

/// The byte `:`, which parts the name from the password.
pub const COLON: u8 = 58;

/// The bytes of `Basic `, with which a header of the Basic scheme begins.
pub open spec fn basic_prefix() -> Seq<u8> {
    seq![66u8, 97u8, 115u8, 105u8, 99u8, 32u8]
}

/// What `base64::decode` makes of `input`: the decoded bytes, or `None`
/// where it reports an error. It depends on the input alone.
pub uninterp spec fn base64_decoded(input: Seq<u8>) -> Option<Seq<u8>>;

/// `text` is UTF-8 and reads as `user`, one colon, `pass`, the colon being
/// the first one in `text`: so a password may hold colons, a name may not.
pub open spec fn presents(user: Seq<u8>, pass: Seq<u8>, text: Seq<u8>) -> bool {
    &&& valid_utf8(text)
    &&& !user.contains(COLON)
    &&& text == user + seq![COLON] + pass
}

/// Whether a payload can be handed to the decoder, which sizes its buffer
/// at four thirds of the payload's length: no payload that a machine of
/// today can hold fails this.
pub open spec fn fits_decoder(payload: Seq<u8>) -> bool {
    payload.len() * 4 <= usize::MAX
}

/// `header` begins with `Basic ` and what follows decodes to a text that
/// presents the configured pair. A payload that cannot be handed to the
/// decoder counts as one that does not decode.
pub open spec fn authorizes(config: &Config, header: Seq<u8>) -> bool {
    &&& basic_prefix().is_prefix_of(header)
    &&& fits_decoder(header.skip(6))
    &&& match base64_decoded(header.skip(6)) {
        Some(text) => presents(config.user_bytes(), config.pass_bytes(), text),
        None => false,
    }
}

/// Calls `base64::decode`, which decodes with the standard alphabet, and
/// turns its error into `None`. Believed: the outcome is the one that
/// `base64_decoded` names. The bound keeps the capacity that the function
/// computes first, four thirds of the length, inside `usize`.
#[verifier::external_body]
fn decode_base64(input: &[u8]) -> (out: Option<Vec<u8>>)
    requires
        fits_decoder(input@),
    ensures
        match out {
            Some(bytes) => base64_decoded(input@) == Some(bytes@),
            None => base64_decoded(input@) is None,
        },
{
    base64::decode(input).ok()
}

/// Calls `std::str::from_utf8` and says whether it accepted the bytes.
/// Believed: it accepts exactly the well-formed UTF-8 sequences.
#[verifier::external_body]
fn is_utf8(bytes: &[u8]) -> (ok: bool)
    ensures
        ok == valid_utf8(bytes@),
{
    std::str::from_utf8(bytes).is_ok()
}

/// Whether two byte strings are the same.
fn same_bytes(a: &[u8], b: &[u8]) -> (same: bool)
    ensures
        same == (a@ == b@),
{
    if a.len() != b.len() {
        return false;
    }
    let mut i: usize = 0;
    while i < a.len()
        invariant
            a@.len() == b@.len(),
            i <= a@.len(),
            forall|j: int| 0 <= j < i ==> a@[j] == b@[j],
        decreases a@.len() - i,
    {
        if a[i] != b[i] {
            return false;
        }
        i += 1;
    }
    assert(a@ =~= b@);
    true
}

/// Where the first colon of `text` stands, if it has one.
fn first_colon(text: &[u8]) -> (at: Option<usize>)
    ensures
        at matches Some(i) ==> i < text@.len() && text@[i as int] == COLON && !text@.take(
            i as int,
        ).contains(COLON),
        at is None ==> !text@.contains(COLON),
{
    let mut i: usize = 0;
    while i < text.len()
        invariant
            i <= text@.len(),
            forall|j: int| 0 <= j < i ==> text@[j] != COLON,
        decreases text@.len() - i,
    {
        if text[i] == COLON {
            return Some(i);
        }
        i += 1;
    }
    None
}

/// Decides on the decoded payload of a header: it must be UTF-8 text that
/// splits at its first colon into the configured name and password, byte
/// for byte.
pub fn presents_credentials(config: &Config, decoded: &[u8]) -> (ok: bool)
    ensures
        ok == presents(config.user_bytes(), config.pass_bytes(), decoded@),
{
    let user = config.username.as_str().as_bytes();
    let pass = config.password.as_str().as_bytes();
    if !is_utf8(decoded) {
        return false;
    }
    match first_colon(decoded) {
        None => {
            proof {
                if decoded@ == user@ + seq![COLON] + pass@ {
                    assert(decoded@[user@.len() as int] == COLON);
                }
            }
            false
        },
        Some(i) => {
            let end: usize = decoded.len();
            let name = slice_subrange(decoded, 0, i);
            let word = slice_subrange(decoded, i + 1, end);
            let ok = same_bytes(name, user) && same_bytes(word, pass);
            proof {
                if ok {
                    assert(decoded@ =~= user@ + seq![COLON] + pass@);
                    assert(decoded@.take(i as int) =~= user@);
                } else if decoded@ == user@ + seq![COLON] + pass@ && !user@.contains(COLON) {
                    let n: int = user@.len() as int;
                    assert(decoded@[n] == COLON);
                    if n < i {
                        assert(decoded@.take(i as int)[n] == COLON);
                    } else if n > i {
                        assert(user@[i as int] == decoded@[i as int]);
                    }
                    assert(name@ =~= user@);
                    assert(word@ =~= pass@);
                }
            }
            ok
        },
    }
}

/// Says whether the raw value of an `Authorization` header presents the
/// configured credentials. Every malformed value is answered with `false`.
pub fn authenticated(config: &Config, authz: &[u8]) -> (ok: bool)
    ensures
        ok == authorizes(config, authz@),
        !basic_prefix().is_prefix_of(authz@) ==> !ok,
        base64_decoded(authz@.skip(6)) is None ==> !ok,
        base64_decoded(authz@.skip(6)) is Some && !valid_utf8(base64_decoded(authz@.skip(6)).unwrap())
            ==> !ok,
{
    if authz.len() < 6 || authz[0] != 66 || authz[1] != 97 || authz[2] != 115 || authz[3] != 105
        || authz[4] != 99 || authz[5] != 32 {
        return false;
    }
    assert(basic_prefix() =~= authz@.subrange(0, 6));
    let payload = slice_subrange(authz, 6, authz.len());
    assert(payload@ =~= authz@.skip(6));
    if payload.len() > usize::MAX / 4 {
        return false;
    }
    match decode_base64(payload) {
        Some(text) => presents_credentials(config, text.as_slice()),
        None => false,
    }
}

/// A header that does not begin with `Basic ` is never accepted.
pub proof fn lemma_other_scheme_rejected(config: &Config, header: Seq<u8>)
    requires
        !basic_prefix().is_prefix_of(header),
    ensures
        !authorizes(config, header),
{
}

/// A header whose payload the decoder refuses is never accepted.
pub proof fn lemma_undecodable_rejected(config: &Config, header: Seq<u8>)
    requires
        base64_decoded(header.skip(6)) is None,
    ensures
        !authorizes(config, header),
{
}

/// A header whose payload decodes to bytes that are not UTF-8 is never
/// accepted.
pub proof fn lemma_non_utf8_rejected(config: &Config, header: Seq<u8>, text: Seq<u8>)
    requires
        base64_decoded(header.skip(6)) == Some(text),
        !valid_utf8(text),
    ensures
        !authorizes(config, header),
{
}

/// A decoded text without a colon presents no credentials, whatever is
/// configured.
pub proof fn lemma_no_colon_rejected(user: Seq<u8>, pass: Seq<u8>, text: Seq<u8>)
    requires
        !text.contains(COLON),
    ensures
        !presents(user, pass, text),
{
    if text == user + seq![COLON] + pass {
        assert(text[user.len() as int] == COLON);
    }
}

/// Only the first colon parts name from password: a text is accepted for at
/// most one pair, so the colons after the first belong to the password.
pub proof fn lemma_split_is_unique(
    user: Seq<u8>,
    pass: Seq<u8>,
    other_user: Seq<u8>,
    other_pass: Seq<u8>,
    text: Seq<u8>,
)
    requires
        presents(user, pass, text),
        presents(other_user, other_pass, text),
    ensures
        user == other_user,
        pass == other_pass,
{
    let n: int = user.len() as int;
    let m: int = other_user.len() as int;
    assert(text[n] == COLON);
    assert(text[m] == COLON);
    if n < m {
        assert(other_user[n] == text[n]);
    } else if m < n {
        assert(user[m] == text[m]);
    }
    assert(user =~= text.take(n));
    assert(other_user =~= text.take(m));
    assert(pass =~= text.skip(n + 1));
    assert(other_pass =~= text.skip(m + 1));
}

} // verus!
