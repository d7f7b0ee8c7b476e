//! Standard base64, as the `base64` crate encodes and decodes it.
//!
//! The encoding is stated here in full: three bytes give four characters
//! of the alphabet `A`-`Z`, `a`-`z`, `0`-`9`, `+`, `/`, and a last group of
//! one or two bytes is filled up with `=`. The crate's standard engine
//! writes exactly this text, and reads nothing else.

use base64::Engine;
use vstd::prelude::*;

verus! {

/// The character that stands for a six-bit value.
pub open spec fn base64_char(v: int) -> char
    recommends
        0 <= v < 64,
{
    if v < 26 {
        ((v + 65) as u8) as char
    } else if v < 52 {
        ((v + 71) as u8) as char
    } else if v < 62 {
        ((v - 4) as u8) as char
    } else if v == 62 {
        '+'
    } else {
        '/'
    }
}

/// The four characters that stand for a group of one, two or three bytes.
pub open spec fn base64_group(group: Seq<u8>) -> Seq<char>
    recommends
        1 <= group.len() <= 3,
{
    let c0 = base64_char(group[0] as int / 4);
    if group.len() == 1 {
        seq![c0, base64_char((group[0] as int % 4) * 16), '=', '=']
    } else {
        let c1 = base64_char((group[0] as int % 4) * 16 + group[1] as int / 16);
        if group.len() == 2 {
            seq![c0, c1, base64_char((group[1] as int % 16) * 4), '=']
        } else {
            seq![
                c0,
                c1,
                base64_char((group[1] as int % 16) * 4 + group[2] as int / 64),
                base64_char(group[2] as int % 64),
            ]
        }
    }
}

/// The base64 text of a byte sequence: standard alphabet, padded with `=`.
pub open spec fn base64_text(data: Seq<u8>) -> Seq<char>
    decreases data.len(),
{
    if data.len() == 0 {
        Seq::empty()
    } else if data.len() <= 3 {
        base64_group(data)
    } else {
        base64_group(data.take(3)) + base64_text(data.skip(3))
    }
}

/// The bytes that `text` is the base64 text of, if it is that of any.
pub open spec fn base64_bytes(text: Seq<char>) -> Option<Seq<u8>> {
    if exists|b: Seq<u8>| base64_text(b) == text {
        Some(choose|b: Seq<u8>| base64_text(b) == text)
    } else {
        None
    }
}

/// Whether `c` belongs to the padded standard base64 alphabet.
pub open spec fn is_base64_char(c: char) -> bool {
    ||| 'A' <= c <= 'Z'
    ||| 'a' <= c <= 'z'
    ||| '0' <= c <= '9'
    ||| c == '+'
    ||| c == '/'
    ||| c == '='
}

/// Different values have different characters, all of the alphabet and
/// none of them the padding character.
pub proof fn lemma_base64_char(u: int, v: int)
    requires
        0 <= u < 64,
        0 <= v < 64,
    ensures
        base64_char(u) == base64_char(v) ==> u == v,
        base64_char(u) != '=',
        is_base64_char(base64_char(u)),
{
}

/// A group of bytes is read off its four characters: groups of different
/// lengths differ in their padding, and groups of the same length in a
/// character.
pub proof fn lemma_base64_group_is_injective(a: Seq<u8>, b: Seq<u8>)
    requires
        1 <= a.len() <= 3,
        1 <= b.len() <= 3,
        base64_group(a) == base64_group(b),
    ensures
        a == b,
{
    let ta = base64_group(a);
    let tb = base64_group(b);
    assert(ta[0] == tb[0] && ta[1] == tb[1] && ta[2] == tb[2] && ta[3] == tb[3]);
    let a0 = a[0] as int;
    let b0 = b[0] as int;
    lemma_base64_char(a0 / 4, b0 / 4);
    if a.len() == 1 {
        if b.len() == 1 {
            lemma_base64_char((a0 % 4) * 16, (b0 % 4) * 16);
        } else if b.len() == 2 {
            lemma_base64_char((b[1] as int % 16) * 4, 0);
        } else {
            lemma_base64_char(b[2] as int % 64, 0);
        }
    } else {
        let a1 = a[1] as int;
        if b.len() == 1 {
            if a.len() == 2 {
                lemma_base64_char((a1 % 16) * 4, 0);
            } else {
                lemma_base64_char(a[2] as int % 64, 0);
            }
        } else {
            let b1 = b[1] as int;
            lemma_base64_char((a0 % 4) * 16 + a1 / 16, (b0 % 4) * 16 + b1 / 16);
            if a.len() == 2 {
                if b.len() == 2 {
                    lemma_base64_char((a1 % 16) * 4, (b1 % 16) * 4);
                } else {
                    lemma_base64_char(b[2] as int % 64, 0);
                }
            } else {
                let a2 = a[2] as int;
                if b.len() == 2 {
                    lemma_base64_char(a2 % 64, 0);
                } else {
                    let b2 = b[2] as int;
                    lemma_base64_char((a1 % 16) * 4 + a2 / 64, (b1 % 16) * 4 + b2 / 64);
                    lemma_base64_char(a2 % 64, b2 % 64);
                }
            }
        }
    }
    assert(a =~= b);
}

/// The text has four characters for every three bytes begun, all of them
/// of the alphabet.
pub proof fn lemma_base64_text_shape(data: Seq<u8>)
    ensures
        base64_text(data).len() == 4 * ((data.len() + 2) / 3),
        forall|i: int|
            0 <= i < base64_text(data).len() ==> is_base64_char(#[trigger] base64_text(data)[i]),
    decreases data.len(),
{
    if data.len() > 0 {
        let head = if data.len() <= 3 {
            data
        } else {
            data.take(3)
        };
        let group = base64_group(head);
        lemma_base64_char(head[0] as int / 4, 0);
        if head.len() == 1 {
            lemma_base64_char((head[0] as int % 4) * 16, 0);
        } else {
            lemma_base64_char((head[0] as int % 4) * 16 + head[1] as int / 16, 0);
            if head.len() == 2 {
                lemma_base64_char((head[1] as int % 16) * 4, 0);
            } else {
                lemma_base64_char((head[1] as int % 16) * 4 + head[2] as int / 64, 0);
                lemma_base64_char(head[2] as int % 64, 0);
            }
        }
        assert(group.len() == 4);
        assert(is_base64_char(group[0]) && is_base64_char(group[1]) && is_base64_char(group[2])
            && is_base64_char(group[3]));
        if data.len() > 3 {
            lemma_base64_text_shape(data.skip(3));
            let rest = base64_text(data.skip(3));
            let text = base64_text(data);
            assert(text == group + rest);
            assert forall|i: int| 0 <= i < text.len() implies is_base64_char(#[trigger] text[i]) by {
                if i >= 4 {
                    assert(text[i] == rest[i - 4]);
                } else {
                    assert(text[i] == group[i]);
                }
            }
        }
    }
}

/// No text is the base64 text of two different byte sequences.
pub proof fn lemma_base64_text_is_injective(a: Seq<u8>, b: Seq<u8>)
    requires
        base64_text(a) == base64_text(b),
    ensures
        a == b,
    decreases a.len(),
{
    lemma_base64_text_shape(a);
    lemma_base64_text_shape(b);
    if a.len() == 0 || b.len() == 0 {
        assert(a =~= b);
    } else if a.len() <= 3 {
        assert(b.len() <= 3);
        lemma_base64_group_is_injective(a, b);
    } else {
        assert(b.len() > 3);
        let ga = base64_group(a.take(3));
        let gb = base64_group(b.take(3));
        let ra = base64_text(a.skip(3));
        let rb = base64_text(b.skip(3));
        assert(ga.len() == 4 && gb.len() == 4);
        assert(ga =~= (ga + ra).take(4));
        assert(gb =~= (gb + rb).take(4));
        assert(ra =~= (ga + ra).skip(4));
        assert(rb =~= (gb + rb).skip(4));
        lemma_base64_group_is_injective(a.take(3), b.take(3));
        lemma_base64_text_is_injective(a.skip(3), b.skip(3));
        assert(a =~= a.take(3) + a.skip(3));
        assert(b =~= b.take(3) + b.skip(3));
    }
}

/// Decoding the text of a byte sequence gives the sequence back.
pub proof fn lemma_base64_round_trip(data: Seq<u8>)
    ensures
        base64_bytes(base64_text(data)) == Some(data),
{
    let found = choose|b: Seq<u8>| base64_text(b) == base64_text(data);
    lemma_base64_text_is_injective(found, data);
}

/// Executable form of [`base64_char`].
pub fn symbol(v: u8) -> (c: char)
    requires
        v < 64,
    ensures
        c == base64_char(v as int),
{
    if v < 26 {
        (v + 65) as char
    } else if v < 52 {
        (v + 71) as char
    } else if v < 62 {
        (v - 4) as char
    } else if v == 62 {
        '+'
    } else {
        '/'
    }
}

/// Appends the four characters of a group of one, two or three bytes.
pub fn push_group(out: &mut Vec<char>, group: &[u8])
    requires
        1 <= group@.len() <= 3,
    ensures
        final(out)@ == old(out)@ + base64_group(group@),
{
    let b0 = group[0];
    out.push(symbol(b0 / 4));
    if group.len() == 1 {
        out.push(symbol((b0 % 4) * 16));
        out.push('=');
        out.push('=');
    } else {
        let b1 = group[1];
        out.push(symbol((b0 % 4) * 16 + b1 / 16));
        if group.len() == 2 {
            out.push(symbol((b1 % 16) * 4));
            out.push('=');
        } else {
            let b2 = group[2];
            out.push(symbol((b1 % 16) * 4 + b2 / 64));
            out.push(symbol(b2 % 64));
        }
    }
    assert(out@ =~= old(out)@ + base64_group(group@));
}

/// Writes the base64 text of `data` by the definition, without the crate.
/// What [`encode`] gives can be held against it.
pub fn encode_by_definition(data: &[u8]) -> (r: String)
    ensures
        r@ == base64_text(data@),
{
    let mut out: Vec<char> = Vec::new();
    let mut i: usize = 0;
    assert(data@.skip(0) =~= data@);
    while data.len() - i > 3
        invariant
            i <= data.len(),
            out@ + base64_text(data@.skip(i as int)) == base64_text(data@),
        decreases data.len() - i,
    {
        let ghost before = out@;
        let ghost rest = data@.skip(i as int);
        let group = vstd::slice::slice_subrange(data, i, i + 3);
        push_group(&mut out, group);
        proof {
            assert(group@ =~= rest.take(3));
            assert(rest.skip(3) =~= data@.skip(i + 3));
            assert(out@ + base64_text(data@.skip(i + 3)) =~= before + base64_text(rest));
        }
        i += 3;
    }
    if i < data.len() {
        let ghost before = out@;
        let group = vstd::slice::slice_subrange(data, i, data.len());
        assert(group@ =~= data@.skip(i as int));
        push_group(&mut out, group);
        assert(out@ =~= before + base64_text(data@.skip(i as int)));
    } else {
        assert(out@ + Seq::<char>::empty() =~= out@);
    }
    crate::text::from_chars(out.as_slice())
}

/// Whether the base64 text of `len` bytes fits in one allocation.
pub open spec fn encodable_len(len: nat) -> bool {
    len <= (isize::MAX / 4) * 3
}

/// Whether `data` is short enough to be encoded.
pub fn can_encode(data: &[u8]) -> (r: bool)
    ensures
        r == encodable_len(data@.len()),
{
    data.len() <= (isize::MAX as usize / 4) * 3
}

/// Calls `Engine::encode` of `base64::engine::general_purpose::STANDARD`,
/// which writes the padded text in the standard alphabet. The crate builds
/// the text in one buffer, which must fit an allocation.
#[verifier::external_body]
pub fn encode(data: &[u8]) -> (r: String)
    requires
        encodable_len(data@.len()),
    ensures
        r@ == base64_text(data@),
{
    base64::engine::general_purpose::STANDARD.encode(data)
}

/// Calls `Engine::decode` of `base64::engine::general_purpose::STANDARD`
/// and drops the crate's error value. That engine accepts canonical text
/// only (padding required, no stray bits in the last symbol): what it
/// gives encodes to the text it was given, and where it fails nothing
/// does.
#[verifier::external_body]
pub fn decode(data: &str) -> (r: Option<Vec<u8>>)
    ensures
        r matches Some(v) ==> base64_text(v@) == data@,
        r is None ==> forall|b: Seq<u8>| #[trigger] base64_text(b) != data@,
{
    base64::engine::general_purpose::STANDARD.decode(data).ok()
}

/// The bytes that `text` encodes, or `None` where it is no canonical base64.
pub fn decode_bytes(text: &str) -> (r: Option<Vec<u8>>)
    ensures
        match r {
            Some(v) => base64_bytes(text@) == Some(v@),
            None => base64_bytes(text@) is None,
        },
{
    match decode(text) {
        Some(v) => {
            proof {
                lemma_base64_round_trip(v@);
            }
            Some(v)
        },
        None => None,
    }
}

} // verus!
