//! How the bytes that the authorizer compares relate to the text they spell.

use crate::auth::{authorizes, base64_decoded, basic_prefix, fits_decoder, presents, COLON};
use crate::config::Config;
use vstd::prelude::*;
use vstd::utf8::*;

verus! {

/// No byte of a character's UTF-8 encoding is a colon, but the one byte of
/// the colon itself.
pub proof fn lemma_scalar_colon(c: u32)
    ensures
        encode_scalar(c).contains(COLON) <==> c == 58,
{
    let bytes = encode_scalar(c);
    assert(c <= 0x7F ==> (((c & 0x7F) as u8 == 58u8) <==> c == 58)) by (bit_vector);
    assert(0xC0u8 | (((c >> 6) & 0x1F) as u8) != 58u8) by (bit_vector);
    assert(0xE0u8 | (((c >> 12) & 0x0F) as u8) != 58u8) by (bit_vector);
    assert(0xF0u8 | (((c >> 18) & 0x7) as u8) != 58u8) by (bit_vector);
    assert(0x80u8 | ((c & 0x3F) as u8) != 58u8) by (bit_vector);
    assert(0x80u8 | (((c >> 6) & 0x3F) as u8) != 58u8) by (bit_vector);
    assert(0x80u8 | (((c >> 12) & 0x3F) as u8) != 58u8) by (bit_vector);
    if has_width_1_encoding(c) {
        assert(bytes[0] == leading_byte_width_1(c));
        if c == 58 {
            assert(bytes[0] == COLON);
        }
    } else {
        assert(c != 58);
    }
    if bytes.contains(COLON) {
        let i: int = choose|i: int| 0 <= i < bytes.len() && bytes[i] == COLON;
        assert(bytes[i] == COLON);
    }
}

/// The encoding of a text in two parts is the encoding of the first part
/// followed by that of the second.
pub proof fn lemma_encode_concat(a: Seq<char>, b: Seq<char>)
    ensures
        encode_utf8(a + b) == encode_utf8(a) + encode_utf8(b),
    decreases a.len(),
{
    if a.len() == 0 {
        assert(a + b =~= b);
        assert(encode_utf8(a) + encode_utf8(b) =~= encode_utf8(b));
    } else {
        lemma_encode_concat(a.drop_first(), b);
        assert((a + b).drop_first() =~= a.drop_first() + b);
        assert((a + b)[0] == a[0]);
        assert(encode_utf8(a + b) =~= encode_utf8(a) + encode_utf8(b));
    }
}

/// A text holds a colon exactly where its encoding holds the colon byte.
pub proof fn lemma_encode_colon(s: Seq<char>)
    ensures
        encode_utf8(s).contains(COLON) <==> s.contains(':'),
    decreases s.len(),
{
    if s.len() == 0 {
        assert(encode_utf8(s) =~= Seq::<u8>::empty());
    } else {
        let first: u32 = s[0] as u32;
        let head = encode_scalar(first);
        let tail = encode_utf8(s.drop_first());
        char_is_scalar(s[0]);
        char_u32_cast(s[0], first);
        char_u32_cast(':', 58);
        lemma_scalar_colon(first);
        lemma_encode_colon(s.drop_first());
        assert(encode_utf8(s) == head + tail);
        if s.contains(':') {
            let i: int = choose|i: int| 0 <= i < s.len() && s[i] == ':';
            if i == 0 {
                assert(first == 58);
                let j: int = choose|j: int| 0 <= j < head.len() && head[j] == COLON;
                assert((head + tail)[j] == COLON);
            } else {
                assert(s.drop_first()[i - 1] == ':');
                let j: int = choose|j: int| 0 <= j < tail.len() && tail[j] == COLON;
                assert((head + tail)[head.len() + j] == COLON);
            }
        }
        if encode_utf8(s).contains(COLON) {
            let j: int = choose|j: int| 0 <= j < (head + tail).len() && (head + tail)[j] == COLON;
            if j < head.len() {
                assert(head[j] == COLON);
                assert(first == 58);
                assert(s[0] == ':');
            } else {
                assert(tail[j - head.len()] == COLON);
                let i: int = choose|i: int|
                    0 <= i < s.drop_first().len() && s.drop_first()[i] == ':';
                assert(s[i + 1] == ':');
            }
        }
    }
}

/// Read as text, the authorizer's rule is this: a text presents a name and
/// a password exactly if the name holds no colon and the text is the name,
/// one colon, and the password, character for character.
pub proof fn lemma_presents_text(user: Seq<char>, pass: Seq<char>, text: Seq<char>)
    ensures
        presents(encode_utf8(user), encode_utf8(pass), encode_utf8(text)) <==> (!user.contains(':')
            && text == user + seq![':'] + pass),
{
    broadcast use encode_utf8_valid_utf8, encode_utf8_decode_utf8;

    let joined = user + seq![':'] + pass;
    lemma_encode_colon(user);
    lemma_encode_concat(user + seq![':'], pass);
    lemma_encode_concat(user, seq![':']);
    lemma_scalar_colon(58);
    assert(seq![':'].drop_first() =~= Seq::<char>::empty());
    assert(encode_utf8(seq![':']) =~= seq![COLON]) by {
        assert(encode_utf8(Seq::<char>::empty()) =~= Seq::<u8>::empty());
        assert(58u32 & 0x7F == 58u32) by (bit_vector);
        assert(seq![':'][0] as u32 == 58);
    }
    assert(encode_utf8(joined) == encode_utf8(user) + seq![COLON] + encode_utf8(pass));
    if encode_utf8(text) == encode_utf8(joined) {
        assert(decode_utf8(encode_utf8(text)) == text);
        assert(decode_utf8(encode_utf8(joined)) == joined);
    }
}

/// A header of the Basic scheme whose payload decodes to the encoding of a
/// text is accepted exactly if the configured name holds no colon and the
/// text is that name, one colon, and the configured password.
pub proof fn lemma_authorizes_text(config: &Config, header: Seq<u8>, text: Seq<char>)
    requires
        basic_prefix().is_prefix_of(header),
        fits_decoder(header.skip(6)),
        base64_decoded(header.skip(6)) == Some(encode_utf8(text)),
    ensures
        authorizes(config, header) <==> (!config.username@.contains(':') && text
            == config.username@ + seq![':'] + config.password@),
{
    lemma_presents_text(config.username@, config.password@, text);
}

} // verus!
