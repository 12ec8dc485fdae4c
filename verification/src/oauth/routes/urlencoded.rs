//! `application/x-www-form-urlencoded` serialization of a name/value pair.
//!
//! Each text is taken as its UTF-8 bytes; ASCII letters, digits and `*-._`
//! stand for themselves, a space becomes `+`, and every other byte becomes `%`
//! followed by its two upper-case hex digits.
use vstd::prelude::*;
use vstd::utf8::*;

verus! {

/// A byte that the serializer writes out unchanged.
pub open spec fn form_unchanged(b: u8) -> bool {
    b == 0x2a || b == 0x2d || b == 0x2e || b == 0x5f || (0x30 <= b && b <= 0x39) || (0x41 <= b
        && b <= 0x5a) || (0x61 <= b && b <= 0x7a)
}

/// An upper-case hex digit.
pub open spec fn hex_digit(d: u8) -> char {
    if d < 10 {
        (0x30 + d) as char
    } else {
        (0x41 + d - 10) as char
    }
}

/// What one byte is written as.
pub open spec fn form_byte(b: u8) -> Seq<char> {
    if form_unchanged(b) {
        seq![b as char]
    } else if b == 0x20 {
        seq!['+']
    } else {
        seq!['%', hex_digit(b / 16), hex_digit(b % 16)]
    }
}

/// What a sequence of bytes is written as.
pub open spec fn form_bytes(s: Seq<u8>) -> Seq<char>
    decreases s.len(),
{
    if s.len() == 0 {
        Seq::empty()
    } else {
        form_byte(s[0]) + form_bytes(s.drop_first())
    }
}

/// A name/value pair in the urlencoded form syntax: `name=value`, each part
/// serialized from its UTF-8 bytes.
pub open spec fn form_pair(name: Seq<char>, value: Seq<char>) -> Seq<char> {
    form_bytes(encode_utf8(name)) + seq!['='] + form_bytes(encode_utf8(value))
}

/// A character that cannot end a field or a query: none of `&`, `=`, `#`,
/// `?` or a space.
pub open spec fn inert(c: char) -> bool {
    c != '&' && c != '=' && c != '#' && c != '?' && c != ' '
}

proof fn lemma_form_byte_inert(b: u8)
    ensures
        forall|i: int| 0 <= i < form_byte(b).len() ==> inert(#[trigger] form_byte(b)[i]),
{
    let e = form_byte(b);
    if form_unchanged(b) {
        assert(b != 0x26 && b != 0x3d && b != 0x23 && b != 0x3f && b != 0x20);
        assert(inert(e[0]));
    } else if b == 0x20 {
        assert(inert(e[0]));
    } else {
        let hi = b / 16;
        let lo = b % 16;
        assert(hi < 16 && lo < 16);
        assert(inert(e[0]));
        assert(inert(e[1]));
        assert(inert(e[2]));
    }
}

/// Every serialized text is inert: no `&`, `=`, `#`, `?` or space survives
/// serialization.
pub proof fn law_serialized_text_is_inert(s: Seq<u8>)
    ensures
        forall|i: int| 0 <= i < form_bytes(s).len() ==> inert(#[trigger] form_bytes(s)[i]),
    decreases s.len(),
{
    if s.len() > 0 {
        lemma_form_byte_inert(s[0]);
        law_serialized_text_is_inert(s.drop_first());
        let a = form_byte(s[0]);
        let b = form_bytes(s.drop_first());
        assert forall|i: int| 0 <= i < form_bytes(s).len() implies inert(#[trigger] form_bytes(s)[i]) by {
            if i < a.len() {
                assert(form_bytes(s)[i] == a[i]);
            } else {
                assert(form_bytes(s)[i] == b[i - a.len()]);
            }
        }
    }
}

proof fn lemma_hex_digit_injective(a: u8, b: u8)
    requires
        a < 16,
        b < 16,
        hex_digit(a) == hex_digit(b),
    ensures
        a == b,
{
    assert(hex_digit(a) as u32 == hex_digit(b) as u32);
}

/// Serialization loses nothing: different byte sequences are written as
/// different texts.
pub proof fn law_serialization_is_injective(a: Seq<u8>, b: Seq<u8>)
    requires
        form_bytes(a) == form_bytes(b),
    ensures
        a == b,
    decreases a.len(),
{
    if a.len() == 0 {
        if b.len() > 0 {
            assert(form_bytes(b).len() >= form_byte(b[0]).len());
        }
        assert(b.len() == 0);
        assert(a =~= b);
    } else {
        if b.len() == 0 {
            assert(form_bytes(a).len() >= form_byte(a[0]).len());
            assert(false);
        }
        let x = a[0];
        let y = b[0];
        let fa = form_bytes(a);
        assert(fa == form_byte(x) + form_bytes(a.drop_first()));
        assert(fa == form_byte(y) + form_bytes(b.drop_first()));
        assert(fa[0] == form_byte(x)[0]);
        assert(fa[0] == form_byte(y)[0]);
        if form_unchanged(x) {
            assert(form_byte(x)[0] == x as char);
            assert(x as char != '+' && x as char != '%');
            assert(form_unchanged(y)) by {
                if !form_unchanged(y) {
                    assert(form_byte(y)[0] == '+' || form_byte(y)[0] == '%');
                }
            }
            assert(x as u32 == y as u32);
        } else if x == 0x20 {
            assert(y == 0x20) by {
                if form_unchanged(y) {
                    assert((y as char) != '+');
                } else if y != 0x20 {
                    assert(form_byte(y)[0] == '%');
                }
            }
        } else {
            assert(!form_unchanged(y) && y != 0x20) by {
                if form_unchanged(y) {
                    assert((y as char) != '%');
                }
            }
            assert(fa[1] == form_byte(x)[1] && fa[1] == form_byte(y)[1]);
            assert(fa[2] == form_byte(x)[2] && fa[2] == form_byte(y)[2]);
            lemma_hex_digit_injective(x / 16, y / 16);
            lemma_hex_digit_injective(x % 16, y % 16);
        }
        assert(x == y);
        let n = form_byte(x).len();
        assert(form_bytes(a.drop_first()) =~= fa.subrange(n as int, fa.len() as int));
        assert(form_bytes(b.drop_first()) =~= fa.subrange(n as int, fa.len() as int));
        law_serialization_is_injective(a.drop_first(), b.drop_first());
        assert(a =~= seq![x] + a.drop_first());
        assert(b =~= seq![y] + b.drop_first());
    }
}

/// The value of a serialized pair can be recovered: two values written
/// under the same name give the same text only when they are equal.
pub proof fn law_pair_value_is_recoverable(name: Seq<char>, v1: Seq<char>, v2: Seq<char>)
    requires
        form_pair(name, v1) == form_pair(name, v2),
    ensures
        v1 == v2,
{
    let n = form_bytes(encode_utf8(name));
    let p = form_pair(name, v1);
    let start = n.len() + 1;
    assert(form_bytes(encode_utf8(v1)) =~= p.subrange(start as int, p.len() as int));
    assert(form_bytes(encode_utf8(v2)) =~= form_pair(name, v2).subrange(start as int, p.len() as int));
    law_serialization_is_injective(encode_utf8(v1), encode_utf8(v2));
    encode_utf8_decode_utf8(v1);
    encode_utf8_decode_utf8(v2);
}

/// A serialized pair is one field: its only `=` separates name from value,
/// and it holds no `&`, whatever the name and value hold.
pub proof fn law_pair_is_one_field(name: Seq<char>, value: Seq<char>)
    ensures
        form_pair(name, value)[form_bytes(encode_utf8(name)).len() as int] == '=',
        forall|i: int|
            0 <= i < form_pair(name, value).len() && #[trigger] form_pair(name, value)[i] == '='
                ==> i == form_bytes(encode_utf8(name)).len(),
        forall|i: int| 0 <= i < form_pair(name, value).len() ==> #[trigger] form_pair(name, value)[i] != '&',
{
    let n = form_bytes(encode_utf8(name));
    let v = form_bytes(encode_utf8(value));
    law_serialized_text_is_inert(encode_utf8(name));
    law_serialized_text_is_inert(encode_utf8(value));
    let p = form_pair(name, value);
    assert(p == n + seq!['='] + v);
    assert forall|i: int| 0 <= i < p.len() implies (#[trigger] p[i] == '=' ==> i == n.len()) && p[i] != '&' by {
        if i < n.len() {
            assert(p[i] == n[i]);
            assert(inert(n[i]));
        } else if i > n.len() {
            assert(p[i] == v[i - n.len() - 1]);
            assert(inert(v[i - n.len() - 1]));
        }
    }
}

/// `serde_urlencoded::to_string` on a single `(name, value)` pair of strings.
/// For string pairs its source never fails (the empty string handed back on an
/// error is never reached), and it writes the pair through
/// `form_urlencoded`'s `append_pair` into an empty string: the contract
/// claims the text `form_pair(name, value)`.
#[verifier::external_body]
pub(crate) fn encode_pair(name: &str, value: &str) -> (r: String)
    ensures
        r@ == form_pair(name@, value@),
{
    match serde_urlencoded::to_string([(name, value)]) {
        Ok(text) => text,
        Err(_) => String::new(),
    }
}

} // verus!
