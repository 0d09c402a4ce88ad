//! Where nul bytes come from: in UTF-8 only the nul character is written
//! with one, so a nul byte in the bytes of a text is a nul character in
//! the text.

use vstd::prelude::*;
use vstd::utf8::{encode_scalar, encode_utf8, is_scalar};
use crate::native_string::{first_nul_at, nul_free};

verus! {

/// The encoding of the nul character begins with the nul byte, and no
/// other character has a nul byte anywhere in its encoding.
proof fn lemma_scalar_bytes(scalar: u32)
    requires
        is_scalar(scalar),
    ensures
        encode_scalar(scalar).len() > 0,
        scalar == 0 ==> encode_scalar(scalar)[0] == 0,
        scalar != 0 ==> nul_free(encode_scalar(scalar)),
{
    if 0 < scalar <= 0x7F {
        assert((scalar & 0x7F) as u8 != 0) by (bit_vector)
            requires
                0 < scalar <= 0x7F,
        ;
    }
    assert((0u32 & 0x7F) as u8 == 0) by (bit_vector);
    assert(forall|low: u8| 0x80u8 | low != 0) by (bit_vector);
    assert(forall|low: u8| 0xC0u8 | low != 0) by (bit_vector);
    assert(forall|low: u8| 0xE0u8 | low != 0) by (bit_vector);
    assert(forall|low: u8| 0xF0u8 | low != 0) by (bit_vector);
}

/// The nul character is the one whose number is zero.
proof fn lemma_nul_char_is_zero(c: char)
    ensures
        c == '\0' <==> c as u32 == 0,
{
    vstd::utf8::char_u32_cast(c, c as u32);
    vstd::utf8::char_u32_cast('\0', 0u32);
}

/// Two runs of bytes joined hold no nul byte exactly when neither does.
proof fn lemma_nul_free_joined(head: Seq<u8>, tail: Seq<u8>)
    ensures
        nul_free(head + tail) <==> nul_free(head) && nul_free(tail),
{
    let joined = head + tail;
    if nul_free(joined) {
        assert forall|i: int| 0 <= i < head.len() implies head[i] != 0 by {
            assert(joined[i] == head[i]);
        }
        assert forall|i: int| 0 <= i < tail.len() implies tail[i] != 0 by {
            assert(joined[head.len() + i] == tail[i]);
        }
    }
    if nul_free(head) && nul_free(tail) {
        assert forall|i: int| 0 <= i < joined.len() implies joined[i] != 0 by {
            if i < head.len() {
                assert(joined[i] == head[i]);
            } else {
                assert(joined[i] == tail[i - head.len()]);
            }
        }
    }
}

/// Behind bytes without a nul, the first nul byte stands as far into the
/// whole as it stands into what follows them, and their length more.
proof fn lemma_first_nul_joined(head: Seq<u8>, tail: Seq<u8>, at: int)
    requires
        nul_free(head),
        first_nul_at(tail, at),
    ensures
        first_nul_at(head + tail, head.len() + at),
{
    let joined = head + tail;
    assert(joined[head.len() + at] == tail[at]);
    assert forall|i: int| 0 <= i < head.len() + at implies joined[i] != 0 by {
        if i < head.len() {
            assert(joined[i] == head[i]);
        } else {
            assert(joined[i] == tail[i - head.len()]);
        }
    }
}

/// A text holds the nul character exactly when its first character is
/// one or the rest of it holds one.
proof fn lemma_contains_nul_unfolds(text: Seq<char>)
    requires
        text.len() > 0,
    ensures
        text.contains('\0') <==> text[0] == '\0' || text.drop_first().contains('\0'),
{
    let rest = text.drop_first();
    if text.contains('\0') {
        let k = choose|k: int| 0 <= k < text.len() && text[k] == '\0';
        if k > 0 {
            assert(rest[k - 1] == '\0');
        }
    }
    if rest.contains('\0') {
        let k = choose|k: int| 0 <= k < rest.len() && rest[k] == '\0';
        assert(text[k + 1] == '\0');
    }
}

/// The bytes of a text hold no nul byte exactly when the text holds no
/// nul character.
pub proof fn lemma_nul_free_text(text: Seq<char>)
    ensures
        nul_free(encode_utf8(text)) <==> !text.contains('\0'),
    decreases text.len(),
{
    if text.len() > 0 {
        let head = encode_scalar(text[0] as u32);
        let rest = text.drop_first();
        vstd::utf8::char_is_scalar(text[0]);
        lemma_scalar_bytes(text[0] as u32);
        lemma_nul_char_is_zero(text[0]);
        lemma_nul_free_text(rest);
        lemma_nul_free_joined(head, encode_utf8(rest));
        lemma_contains_nul_unfolds(text);
        assert(encode_utf8(text) == head + encode_utf8(rest));
    }
}

/// The first nul byte in the bytes of a text stands where the encoding
/// of the characters before the first nul character ends.
pub proof fn lemma_first_nul_char(text: Seq<char>, k: int)
    requires
        0 <= k < text.len(),
        text[k] == '\0',
        !text.take(k).contains('\0'),
    ensures
        first_nul_at(encode_utf8(text), encode_utf8(text.take(k)).len() as int),
    decreases k,
{
    let head = encode_scalar(text[0] as u32);
    let rest = text.drop_first();
    vstd::utf8::char_is_scalar(text[0]);
    lemma_scalar_bytes(text[0] as u32);
    lemma_nul_char_is_zero(text[0]);
    assert(encode_utf8(text) == head + encode_utf8(rest));
    if k == 0 {
        assert(text.take(0) =~= Seq::<char>::empty());
        assert(encode_utf8(text)[0] == head[0]);
    } else {
        let before = text.take(k);
        let between = rest.take(k - 1);
        assert(before[0] == text[0]);
        assert(before.drop_first() =~= between);
        assert(encode_utf8(before) == head + encode_utf8(between));
        lemma_contains_nul_unfolds(before);
        lemma_first_nul_char(rest, k - 1);
        lemma_first_nul_joined(head, encode_utf8(rest), encode_utf8(between).len() as int);
    }
}

} // verus!
