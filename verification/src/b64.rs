//! URL-safe base64 without padding (the token segment encoding).

use vstd::prelude::*;
use crate::text::{chars_of, string_of};

verus! {

/// The URL-safe base64 alphabet: `A-Z`, `a-z`, `0-9`, `-`, `_`.
pub open spec fn alpha(v: int) -> char {
    if v < 26 {
        (65 + v) as char
    } else if v < 52 {
        (97 + (v - 26)) as char
    } else if v < 62 {
        (48 + (v - 52)) as char
    } else if v == 62 {
        '-'
    } else {
        '_'
    }
}

/// The alphabet index of a character, if it is in the alphabet.
pub open spec fn alpha_index(c: char) -> Option<int> {
    let u = c as int;
    if 65 <= u && u <= 90 {
        Some(u - 65)
    } else if 97 <= u && u <= 122 {
        Some(u - 97 + 26)
    } else if 48 <= u && u <= 57 {
        Some(u - 48 + 52)
    } else if c == '-' {
        Some(62)
    } else if c == '_' {
        Some(63)
    } else {
        None
    }
}

/// Encoding of a full three-byte group.
pub open spec fn enc3(b0: u8, b1: u8, b2: u8) -> Seq<char> {
    seq![
        alpha((b0 / 4) as int),
        alpha((b0 % 4) * 16 + b1 / 16),
        alpha((b1 % 16) * 4 + b2 / 64),
        alpha((b2 % 64) as int),
    ]
}

/// Encoding of a trailing two-byte group (padding trimmed).
pub open spec fn enc2(b0: u8, b1: u8) -> Seq<char> {
    seq![alpha((b0 / 4) as int), alpha((b0 % 4) * 16 + b1 / 16), alpha((b1 % 16) * 4)]
}

/// Encoding of a trailing one-byte group (padding trimmed).
pub open spec fn enc1(b0: u8) -> Seq<char> {
    seq![alpha((b0 / 4) as int), alpha((b0 % 4) * 16)]
}

/// URL-safe, unpadded base64 of a byte sequence.
pub open spec fn encode_spec(b: Seq<u8>) -> Seq<char>
    decreases b.len(),
{
    if b.len() == 0 {
        Seq::empty()
    } else if b.len() == 1 {
        enc1(b[0])
    } else if b.len() == 2 {
        enc2(b[0], b[1])
    } else {
        enc3(b[0], b[1], b[2]) + encode_spec(b.subrange(3, b.len() as int))
    }
}

/// Bytes of a full four-symbol group.
pub open spec fn dec4(a: int, b: int, c: int, d: int) -> Seq<u8> {
    seq![(a * 4 + b / 16) as u8, ((b % 16) * 16 + c / 4) as u8, ((c % 4) * 64 + d) as u8]
}

/// Bytes of a sequence of 6-bit symbol values: every complete byte of the
/// concatenated bit stream, trailing partial bits dropped.
pub open spec fn decode_values(v: Seq<int>) -> Seq<u8>
    decreases v.len(),
{
    if v.len() <= 1 {
        Seq::empty()
    } else if v.len() == 2 {
        dec4(v[0], v[1], 0, 0).take(1)
    } else if v.len() == 3 {
        dec4(v[0], v[1], v[2], 0).take(2)
    } else {
        dec4(v[0], v[1], v[2], v[3]) + decode_values(v.subrange(4, v.len() as int))
    }
}

/// Whether every character is in the alphabet.
pub open spec fn all_in_alphabet(t: Seq<char>) -> bool {
    forall|i: int| 0 <= i < t.len() ==> (#[trigger] alpha_index(t[i])).is_some()
}

/// The symbol values of text whose characters are all in the alphabet.
pub open spec fn values_of(t: Seq<char>) -> Seq<int> {
    t.map_values(|c: char| alpha_index(c).unwrap())
}

/// Decoding: `None` when a character is outside the alphabet, else the
/// bytes of the bit stream.
pub open spec fn decode_spec(t: Seq<char>) -> Option<Seq<u8>> {
    if all_in_alphabet(t) {
        Some(decode_values(values_of(t)))
    } else {
        None
    }
}

proof fn lemma_alpha_char(v: int)
    requires
        0 <= v < 64,
    ensures
        alpha_index(alpha(v)) == Some(v),
        alpha(v) != '.',
        alpha(v) != '=',
{
}

/// The alphabet character of a symbol value.
pub fn alpha_char(v: u8) -> (r: char)
    requires
        v < 64,
    ensures
        r == alpha(v as int),
{
    if v < 26 {
        (65 + v) as char
    } else if v < 52 {
        (97 + (v - 26)) as char
    } else if v < 62 {
        (48 + (v - 52)) as char
    } else if v == 62 {
        '-'
    } else {
        '_'
    }
}

/// The alphabet index of a character, if any.
pub fn alpha_value(c: char) -> (r: Option<u8>)
    ensures
        match alpha_index(c) {
            Some(v) => r == Some(v as u8) && v < 64,
            None => r.is_none(),
        },
{
    if 'A' <= c && c <= 'Z' {
        Some((c as u8) - 65)
    } else if 'a' <= c && c <= 'z' {
        Some((c as u8) - 97 + 26)
    } else if '0' <= c && c <= '9' {
        Some((c as u8) - 48 + 52)
    } else if c == '-' {
        Some(62)
    } else if c == '_' {
        Some(63)
    } else {
        None
    }
}

proof fn lemma_encode_append(x: Seq<u8>, y: Seq<u8>)
    requires
        x.len() % 3 == 0,
    ensures
        encode_spec(x + y) == encode_spec(x) + encode_spec(y),
    decreases x.len(),
{
    if x.len() == 0 {
        assert(x + y =~= y);
    } else {
        let xy = x + y;
        assert(xy.subrange(3, xy.len() as int) =~= x.subrange(3, x.len() as int) + y);
        lemma_encode_append(x.subrange(3, x.len() as int), y);
        assert(xy[0] == x[0] && xy[1] == x[1] && xy[2] == x[2]);
        assert(encode_spec(x) == enc3(x[0], x[1], x[2]) + encode_spec(x.subrange(3, x.len() as int)));
    }
}

proof fn lemma_decode_append(x: Seq<int>, y: Seq<int>)
    requires
        x.len() % 4 == 0,
    ensures
        decode_values(x + y) == decode_values(x) + decode_values(y),
    decreases x.len(),
{
    if x.len() == 0 {
        assert(x + y =~= y);
    } else {
        let xy = x + y;
        assert(xy.subrange(4, xy.len() as int) =~= x.subrange(4, x.len() as int) + y);
        lemma_decode_append(x.subrange(4, x.len() as int), y);
        assert(xy[0] == x[0] && xy[1] == x[1] && xy[2] == x[2] && xy[3] == x[3]);
    }
}

/// Encodes bytes as URL-safe base64 without padding, as characters.
pub fn encode_chars(bytes: &[u8]) -> (r: Vec<char>)
    ensures
        r@ == encode_spec(bytes@),
{
    let mut out: Vec<char> = Vec::new();
    let n = bytes.len();
    let mut i: usize = 0;
    while n - i >= 3
        invariant
            n == bytes@.len(),
            i % 3 == 0,
            i <= n,
            out@ == encode_spec(bytes@.take(i as int)),
        decreases n - i,
    {
        let b0 = bytes[i];
        let b1 = bytes[i + 1];
        let b2 = bytes[i + 2];
        out.push(alpha_char(b0 / 4));
        out.push(alpha_char((b0 % 4) * 16 + b1 / 16));
        out.push(alpha_char((b1 % 16) * 4 + b2 / 64));
        out.push(alpha_char(b2 % 64));
        proof {
            let g = bytes@.subrange(i as int, i + 3);
            assert(bytes@.take(i + 3) =~= bytes@.take(i as int) + g);
            lemma_encode_append(bytes@.take(i as int), g);
            assert(g.subrange(3, 3) =~= Seq::<u8>::empty());
            assert(encode_spec(g) == enc3(b0, b1, b2) + encode_spec(Seq::<u8>::empty()));
        }
        i = i + 3;
    }
    let ghost head = bytes@.take(i as int);
    let ghost tail = bytes@.subrange(i as int, n as int);
    proof {
        assert(bytes@ =~= head + tail);
        lemma_encode_append(head, tail);
    }
    if n - i == 1 {
        let b0 = bytes[i];
        out.push(alpha_char(b0 / 4));
        out.push(alpha_char((b0 % 4) * 16));
        assert(encode_spec(tail) == enc1(b0));
    } else if n - i == 2 {
        let b0 = bytes[i];
        let b1 = bytes[i + 1];
        out.push(alpha_char(b0 / 4));
        out.push(alpha_char((b0 % 4) * 16 + b1 / 16));
        out.push(alpha_char((b1 % 16) * 4));
        assert(encode_spec(tail) == enc2(b0, b1));
    } else {
        assert(tail.len() == 0);
    }
    assert(out@ =~= encode_spec(head) + encode_spec(tail));
    out
}

/// Decodes URL-safe unpadded base64 characters; `None` when a character is
/// outside the alphabet.
pub fn decode_chars(text: &Vec<char>) -> (r: Option<Vec<u8>>)
    ensures
        match decode_spec(text@) {
            Some(b) => r.is_some() && r->0@ == b,
            None => r.is_none(),
        },
{
    let mut vals: Vec<u8> = Vec::new();
    let mut i: usize = 0;
    while i < text.len()
        invariant
            i <= text.len(),
            vals@.len() == i,
            forall|j: int| 0 <= j < i ==> (#[trigger] alpha_index(text@[j])).is_some(),
            forall|j: int| 0 <= j < i ==> #[trigger] vals@[j] < 64,
            forall|j: int| 0 <= j < i ==> #[trigger] vals@[j] as int == alpha_index(text@[j]).unwrap(),
        decreases text.len() - i,
    {
        match alpha_value(text[i]) {
            Some(v) => {
                vals.push(v);
            },
            None => {
                assert(!all_in_alphabet(text@));
                return None;
            },
        }
        i = i + 1;
    }
    let ghost vs = values_of(text@);
    assert(all_in_alphabet(text@));
    assert forall|j: int| 0 <= j < vs.len() implies #[trigger] vs[j] == vals@[j] as int && vals@[j] < 64 by {
        assert(vals@[j] as int == alpha_index(text@[j]).unwrap());
    }
    let mut out: Vec<u8> = Vec::new();
    let n = vals.len();
    let mut k: usize = 0;
    while n - k >= 4
        invariant
            n == vals@.len(),
            n == vs.len(),
            forall|j: int| 0 <= j < vs.len() ==> #[trigger] vs[j] == vals@[j] as int && vals@[j] < 64,
            k % 4 == 0,
            k <= n,
            out@ == decode_values(vs.take(k as int)),
        decreases n - k,
    {
        let a = vals[k];
        let b = vals[k + 1];
        let c = vals[k + 2];
        let d = vals[k + 3];
        assert(vs[k as int] == a && vs[k + 1] == b && vs[k + 2] == c && vs[k + 3] == d);
        out.push(a * 4 + b / 16);
        out.push((b % 16) * 16 + c / 4);
        out.push((c % 4) * 64 + d);
        proof {
            let g = vs.subrange(k as int, k + 4);
            assert(vs.take(k + 4) =~= vs.take(k as int) + g);
            lemma_decode_append(vs.take(k as int), g);
            assert(g.subrange(4, 4) =~= Seq::<int>::empty());
            assert(g[0] == a && g[1] == b && g[2] == c && g[3] == d);
            assert(decode_values(g) == dec4(g[0], g[1], g[2], g[3]) + decode_values(g.subrange(4, 4)));
            assert(decode_values(g) =~= dec4(a as int, b as int, c as int, d as int));
        }
        k = k + 4;
    }
    let ghost head = vs.take(k as int);
    let ghost tail = vs.subrange(k as int, n as int);
    proof {
        assert(vs =~= head + tail);
        lemma_decode_append(head, tail);
    }
    if n - k == 2 {
        let a = vals[k];
        let b = vals[k + 1];
        assert(vs[k as int] == a && vs[k + 1] == b);
        out.push(a * 4 + b / 16);
        assert(decode_values(tail) =~= dec4(a as int, b as int, 0, 0).take(1));
    } else if n - k == 3 {
        let a = vals[k];
        let b = vals[k + 1];
        let c = vals[k + 2];
        assert(vs[k as int] == a && vs[k + 1] == b && vs[k + 2] == c);
        out.push(a * 4 + b / 16);
        out.push((b % 16) * 16 + c / 4);
        assert(decode_values(tail) =~= dec4(a as int, b as int, c as int, 0).take(2));
    } else {
        assert(decode_values(tail) =~= Seq::<u8>::empty());
    }
    assert(out@ =~= decode_values(head) + decode_values(tail));
    Some(out)
}

proof fn lemma_group_arith(b0: u8, b1: u8, b2: u8)
    ensures
        ({
            let x0 = (b0 / 4) as int;
            let x1 = (b0 % 4) * 16 + b1 / 16;
            let x2 = (b1 % 16) * 4 + b2 / 64;
            let x3 = (b2 % 64) as int;
            &&& 0 <= x0 < 64 && 0 <= x1 < 64 && 0 <= x2 < 64 && 0 <= x3 < 64
            &&& (x0 * 4 + x1 / 16) == b0 as int
            &&& ((x1 % 16) * 16 + x2 / 4) == b1 as int
            &&& ((x2 % 4) * 64 + x3) == b2 as int
            &&& (((b1 % 16) * 4) % 4) * 64 == 0
            &&& ((b0 % 4) * 16) % 16 == 0
        }),
{
    let x1 = (b0 % 4) * 16 + b1 / 16;
    let x2 = (b1 % 16) * 4 + b2 / 64;
    assert(x1 / 16 == b0 % 4 && x1 % 16 == b1 / 16);
    assert(x2 / 4 == b1 % 16 && x2 % 4 == b2 / 64);
}

proof fn lemma_encode_props(b: Seq<u8>)
    ensures
        all_in_alphabet(encode_spec(b)),
        !encode_spec(b).contains('.'),
        decode_values(values_of(encode_spec(b))) == b,
        encode_spec(b).len() == 0 <==> b.len() == 0,
    decreases b.len(),
{
    let e = encode_spec(b);
    if b.len() == 0 {
        assert(values_of(e) =~= Seq::<int>::empty());
        assert(b =~= Seq::<u8>::empty());
    } else if b.len() == 1 {
        lemma_group_arith(b[0], 0, 0);
        lemma_alpha_char((b[0] / 4) as int);
        lemma_alpha_char((b[0] % 4) * 16);
        let v = values_of(e);
        assert(v[0] == (b[0] / 4) as int && v[1] == (b[0] % 4) * 16);
        assert(decode_values(v) =~= b);
    } else if b.len() == 2 {
        lemma_group_arith(b[0], b[1], 0);
        lemma_alpha_char((b[0] / 4) as int);
        lemma_alpha_char((b[0] % 4) * 16 + b[1] / 16);
        lemma_alpha_char((b[1] % 16) * 4);
        let v = values_of(e);
        assert(v[0] == (b[0] / 4) as int && v[1] == (b[0] % 4) * 16 + b[1] / 16 && v[2] == (b[1] % 16) * 4);
        assert(decode_values(v) =~= b);
    } else {
        let rest = b.subrange(3, b.len() as int);
        lemma_encode_props(rest);
        lemma_group_arith(b[0], b[1], b[2]);
        lemma_alpha_char((b[0] / 4) as int);
        lemma_alpha_char((b[0] % 4) * 16 + b[1] / 16);
        lemma_alpha_char((b[1] % 16) * 4 + b[2] / 64);
        lemma_alpha_char((b[2] % 64) as int);
        let g = enc3(b[0], b[1], b[2]);
        let er = encode_spec(rest);
        assert(e == g + er);
        assert forall|i: int| 0 <= i < e.len() implies (#[trigger] alpha_index(e[i])).is_some() by {
            if i >= 4 {
                assert(e[i] == er[i - 4]);
            }
        }
        assert(!e.contains('.')) by {
            if e.contains('.') {
                let i = choose|i: int| 0 <= i < e.len() && e[i] == '.';
                if i >= 4 {
                    assert(er[i - 4] == '.');
                }
            }
        }
        let v = values_of(e);
        let vg = values_of(g);
        let vr = values_of(er);
        assert(v =~= vg + vr);
        lemma_decode_append(vg, vr);
        assert(vg[0] == (b[0] / 4) as int && vg[1] == (b[0] % 4) * 16 + b[1] / 16);
        assert(vg[2] == (b[1] % 16) * 4 + b[2] / 64 && vg[3] == (b[2] % 64) as int);
        assert(vg.subrange(4, 4) =~= Seq::<int>::empty());
        assert(decode_values(vg) == dec4(vg[0], vg[1], vg[2], vg[3]) + decode_values(vg.subrange(4, 4)));
        assert(decode_values(vg) =~= b.take(3));
        assert(b =~= b.take(3) + rest);
    }
}

/// Encodes bytes as URL-safe base64 without padding.
pub fn b64url_encode(bytes: &[u8]) -> (r: String)
    ensures
        r@ == encode_spec(bytes@),
{
    string_of(&encode_chars(bytes))
}

/// Decodes URL-safe unpadded base64; `None` when a character is outside the
/// alphabet.
pub fn b64url_decode(text: &str) -> (r: Option<Vec<u8>>)
    ensures
        match decode_spec(text@) {
            Some(b) => r.is_some() && r->0@ == b,
            None => r.is_none(),
        },
{
    decode_chars(&chars_of(text))
}


/// Decoding an encoding gives the bytes back.
pub proof fn lemma_round_trip(b: Seq<u8>)
    ensures
        decode_spec(encode_spec(b)) == Some(b),
{
    lemma_encode_props(b);
}

/// An encoding holds no `.` (the token segment separator), and is empty
/// exactly when the bytes are.
pub proof fn lemma_encoding_shape(b: Seq<u8>)
    ensures
        !encode_spec(b).contains('.'),
        encode_spec(b).len() == 0 <==> b.len() == 0,
{
    lemma_encode_props(b);
}

} // verus!
