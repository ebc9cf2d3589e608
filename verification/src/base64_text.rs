//! Standard base64 (the `A-Z a-z 0-9 + /` alphabet, padded with `=`).
use base64::prelude::{Engine as _, BASE64_STANDARD};
use vstd::prelude::*;

verus! {

/// The padding character, `=`.
pub const PAD: u8 = 61;

/// The character that stands for the six-bit value `v`.
pub open spec fn symbol(v: int) -> u8 {
    if v < 26 {
        (65 + v) as u8
    } else if v < 52 {
        (97 + v - 26) as u8
    } else if v < 62 {
        (48 + v - 52) as u8
    } else if v == 62 {
        43
    } else {
        47
    }
}

/// The four characters for three bytes, six bits to a character.
pub open spec fn quad(a: u8, b: u8, c: u8) -> Seq<u8> {
    seq![
        symbol(a as int / 4),
        symbol(a as int % 4 * 16 + b as int / 16),
        symbol(b as int % 16 * 4 + c as int / 64),
        symbol(c as int % 64),
    ]
}

/// The padded base64 encoding of `data`.
pub open spec fn base64_text(data: Seq<u8>) -> Seq<u8>
    decreases data.len(),
{
    if data.len() == 0 {
        Seq::empty()
    } else if data.len() == 1 {
        quad(data[0], 0, 0).take(2) + seq![PAD, PAD]
    } else if data.len() == 2 {
        quad(data[0], data[1], 0).take(3) + seq![PAD]
    } else {
        quad(data[0], data[1], data[2]) + base64_text(data.skip(3))
    }
}

/// The bytes that `text` encodes, where it is a base64 encoding at all.
pub open spec fn base64_value(text: Seq<u8>) -> Option<Seq<u8>> {
    if exists|data: Seq<u8>| #[trigger] base64_text(data) == text {
        Some(choose|data: Seq<u8>| #[trigger] base64_text(data) == text)
    } else {
        None
    }
}

/// The description that `base64::DecodeError` gives of what is wrong with `text`.
pub uninterp spec fn base64_fault(text: Seq<u8>) -> Seq<char>;

/// `base64::Engine::decode` of `BASE64_STANDARD`.
///
/// Trusted: the engine accepts exactly the padded encodings (it rejects foreign characters, missing
/// or surplus padding, and set bits behind the last byte) and hands back the encoded bytes. A
/// rejected text is described by the error's display form, which depends on the text alone.
#[verifier::external_body]
fn standard_decode(text: &[u8]) -> (r: Result<Vec<u8>, String>)
    ensures
        r matches Ok(data) ==> base64_text(data@) == text@,
        r is Err ==> (forall|data: Seq<u8>| #[trigger] base64_text(data) != text@),
        r matches Err(fault) ==> fault@ == base64_fault(text@),
{
    BASE64_STANDARD.decode(text).map_err(|e| e.to_string())
}

proof fn lemma_symbol_injective(v: int, w: int)
    requires
        0 <= v < 64,
        0 <= w < 64,
        symbol(v) == symbol(w),
    ensures
        v == w,
{
}

proof fn lemma_quad_injective(a: u8, b: u8, c: u8, x: u8, y: u8, z: u8)
    requires
        quad(a, b, c) == quad(x, y, z),
    ensures
        a == x,
        b == y,
        c == z,
{
    let l = quad(a, b, c);
    let r = quad(x, y, z);
    assert(l[0] == r[0] && l[1] == r[1] && l[2] == r[2] && l[3] == r[3]);
    lemma_symbol_injective(a as int / 4, x as int / 4);
    lemma_symbol_injective(a as int % 4 * 16 + b as int / 16, x as int % 4 * 16 + y as int / 16);
    lemma_symbol_injective(b as int % 16 * 4 + c as int / 64, y as int % 16 * 4 + z as int / 64);
    lemma_symbol_injective(c as int % 64, z as int % 64);
}

/// An encoding fills whole groups of four characters, one group for every three bytes begun.
pub proof fn base64_text_len(data: Seq<u8>)
    ensures
        base64_text(data).len() == (data.len() + 2) / 3 * 4,
    decreases data.len(),
{
    if data.len() > 2 {
        base64_text_len(data.skip(3));
    }
}

/// Every character of an encoding is ASCII.
pub proof fn base64_text_ascii(data: Seq<u8>)
    ensures
        forall|i: int| 0 <= i < base64_text(data).len() ==> #[trigger] base64_text(data)[i] < 128,
    decreases data.len(),
{
    if data.len() > 2 {
        base64_text_ascii(data.skip(3));
        let head = quad(data[0], data[1], data[2]);
        let tail = base64_text(data.skip(3));
        assert forall|i: int| 0 <= i < base64_text(data).len() implies #[trigger] base64_text(
            data,
        )[i] < 128 by {
            if i >= 4 {
                assert(base64_text(data)[i] == tail[i - 4]);
            } else {
                assert(base64_text(data)[i] == head[i]);
            }
        }
    }
}

/// No two byte sequences share an encoding.
pub proof fn base64_text_injective(a: Seq<u8>, b: Seq<u8>)
    requires
        base64_text(a) == base64_text(b),
    ensures
        a == b,
    decreases a.len(),
{
    base64_text_len(a);
    base64_text_len(b);
    let t = base64_text(a);
    if a.len() == 0 {
        assert(a =~= b);
    } else {
        let qa = quad(a[0], if a.len() > 1 { a[1] } else { 0 }, if a.len() > 2 { a[2] } else { 0 });
        let qb = quad(b[0], if b.len() > 1 { b[1] } else { 0 }, if b.len() > 2 { b[2] } else { 0 });
        if a.len() > 2 && b.len() > 2 {
            assert(qa =~= t.take(4));
            assert(qb =~= t.take(4));
            lemma_quad_injective(a[0], a[1], a[2], b[0], b[1], b[2]);
            assert(base64_text(a.skip(3)) =~= t.skip(4));
            assert(base64_text(b.skip(3)) =~= t.skip(4));
            base64_text_injective(a.skip(3), b.skip(3));
            assert(a =~= seq![a[0], a[1], a[2]] + a.skip(3));
            assert(b =~= seq![b[0], b[1], b[2]] + b.skip(3));
        } else {
            assert(t[2] == PAD <==> a.len() == 1);
            assert(t[3] == PAD <==> a.len() <= 2);
            assert(t[2] == PAD <==> b.len() == 1);
            assert(t[3] == PAD <==> b.len() <= 2);
            assert(qa[0] == t[0] == qb[0] && qa[1] == t[1] == qb[1]);
            assert(qa =~= qb);
            lemma_quad_injective(
                a[0],
                if a.len() > 1 { a[1] } else { 0 },
                if a.len() > 2 { a[2] } else { 0 },
                b[0],
                if b.len() > 1 { b[1] } else { 0 },
                if b.len() > 2 { b[2] } else { 0 },
            );
            assert(a =~= b);
        }
    }
}

/// Decoding undoes encoding, whatever the bytes.
pub proof fn base64_round_trip(data: Seq<u8>)
    ensures
        base64_value(base64_text(data)) == Some(data),
{
    let text = base64_text(data);
    assert(base64_text(data) == text);
    let value = choose|d: Seq<u8>| #[trigger] base64_text(d) == text;
    base64_text_injective(value, data);
}

/// Decodes padded base64. A text that is no encoding is described in the error.
pub fn decode(text: &[u8]) -> (r: Result<Vec<u8>, String>)
    ensures
        match r {
            Ok(data) => base64_value(text@) == Some(data@),
            Err(fault) => base64_value(text@) is None && fault@ == base64_fault(text@),
        },
{
    match standard_decode(text) {
        Ok(data) => {
            proof {
                base64_round_trip(data@);
            }
            Ok(data)
        },
        Err(fault) => Err(fault),
    }
}

/// The 64 characters in their order: the capitals, the small letters, the digits, `+` and `/`.
pub proof fn alphabet(v: int)
    requires
        0 <= v < 64,
    ensures
        v < 26 ==> symbol(v) as int == 'A' as int + v,
        26 <= v < 52 ==> symbol(v) as int == 'a' as int + (v - 26),
        52 <= v < 62 ==> symbol(v) as int == '0' as int + (v - 52),
        v == 62 ==> symbol(v) as char == '+',
        v == 63 ==> symbol(v) as char == '/',
{
}

/// Three bytes, read as one number of 24 bits, are written as its four digits to the base 64. Of one
/// byte or two, followed by zeros, the digits that hold them are kept and `=` fills the group.
pub proof fn one_group(a: u8, b: u8, c: u8)
    ensures
        base64_text(seq![a, b, c]) == ({
            let n = a as int * 65536 + b as int * 256 + c as int;
            seq![symbol(n / 262144), symbol(n / 4096 % 64), symbol(n / 64 % 64), symbol(n % 64)]
        }),
        base64_text(seq![a, b]) == ({
            let n = a as int * 65536 + b as int * 256;
            seq![symbol(n / 262144), symbol(n / 4096 % 64), symbol(n / 64 % 64), 61u8]
        }),
        base64_text(seq![a]) == ({
            let n = a as int * 65536;
            seq![symbol(n / 262144), symbol(n / 4096 % 64), 61u8, 61u8]
        }),
{
    reveal_with_fuel(base64_text, 2);
    lemma_digits(a as int, b as int, c as int);
    lemma_digits(a as int, b as int, 0);
    lemma_digits(a as int, 0, 0);
    assert(seq![a, b, c].skip(3) =~= Seq::empty());
    assert(quad(a, b, c) + Seq::<u8>::empty() =~= quad(a, b, c));
    assert(quad(a, b, 0).take(3) + seq![PAD] =~= seq![
        quad(a, b, 0)[0],
        quad(a, b, 0)[1],
        quad(a, b, 0)[2],
        61u8,
    ]);
    assert(quad(a, 0, 0).take(2) + seq![PAD, PAD] =~= seq![
        quad(a, 0, 0)[0],
        quad(a, 0, 0)[1],
        61u8,
        61u8,
    ]);
}

proof fn lemma_digits(a: int, b: int, c: int)
    requires
        0 <= a < 256,
        0 <= b < 256,
        0 <= c < 256,
    ensures
        (a * 65536 + b * 256 + c) / 262144 == a / 4,
        (a * 65536 + b * 256 + c) / 4096 % 64 == a % 4 * 16 + b / 16,
        (a * 65536 + b * 256 + c) / 64 % 64 == b % 16 * 4 + c / 64,
        (a * 65536 + b * 256 + c) % 64 == c % 64,
{
}

/// Whole groups of three bytes are encoded apart from what follows them.
pub proof fn groups_are_independent(head: Seq<u8>, tail: Seq<u8>)
    requires
        head.len() % 3 == 0,
    ensures
        base64_text(head + tail) == base64_text(head) + base64_text(tail),
    decreases head.len(),
{
    if head.len() == 0 {
        assert(head + tail =~= tail);
    } else {
        assert((head + tail).skip(3) =~= head.skip(3) + tail);
        groups_are_independent(head.skip(3), tail);
        assert(base64_text(head + tail) =~= base64_text(head) + base64_text(tail));
    }
}

/// The encoding of any bytes is decoded to those bytes.
pub proof fn decode_undoes_encoding(text: &[u8], data: Seq<u8>, r: Result<Vec<u8>, String>)
    requires
        call_ensures(decode, (text,), r),
        text@ == base64_text(data),
    ensures
        r matches Ok(decoded) && decoded@ == data,
{
    base64_round_trip(data);
}

/// A text that is the encoding of no bytes is refused, with the description that it is given.
pub proof fn decode_refuses_all_else(text: &[u8], r: Result<Vec<u8>, String>)
    requires
        call_ensures(decode, (text,), r),
        forall|data: Seq<u8>| #[trigger] base64_text(data) != text@,
    ensures
        r matches Err(fault) && fault@ == base64_fault(text@),
{
}

} // verus!
