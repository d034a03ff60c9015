use vstd::prelude::*;

verus! {

/// Unicode `White_Space` (the property `str::trim` strips).
pub open spec fn is_white_space(c: char) -> bool {
    ||| ('\u{9}' <= c && c <= '\u{d}')
    ||| c == ' '
    ||| c == '\u{85}'
    ||| c == '\u{a0}'
    ||| c == '\u{1680}'
    ||| ('\u{2000}' <= c && c <= '\u{200a}')
    ||| c == '\u{2028}'
    ||| c == '\u{2029}'
    ||| c == '\u{202f}'
    ||| c == '\u{205f}'
    ||| c == '\u{3000}'
}

/// Whether a character is white space in the sense `str::trim` uses.
pub fn is_white_space_char(c: char) -> (r: bool)
    ensures
        r == is_white_space(c),
{
    ('\u{9}' <= c && c <= '\u{d}') || c == ' ' || c == '\u{85}' || c == '\u{a0}' || c == '\u{1680}'
        || ('\u{2000}' <= c && c <= '\u{200a}') || c == '\u{2028}' || c == '\u{2029}'
        || c == '\u{202f}' || c == '\u{205f}' || c == '\u{3000}'
}

} // verus!

verus! {

/// The characters of a string slice, in order.
pub fn chars_of(s: &str) -> (r: Vec<char>)
    ensures
        r@ == s@,
{
    let mut out: Vec<char> = Vec::new();
    for c in it: s.chars()
        invariant
            out@ == it.seq().take(it.index() as int),
    {
        out.push(c);
    }
    out
}

} // verus!

verus! {

/// Appends one character to a string (`String::push`).
#[verifier::external_body]
pub(crate) fn push_char(s: &mut String, c: char)
    ensures
        final(s)@ == old(s)@.push(c),
{
    s.push(c);
}

/// A string holding exactly the given characters.
pub fn string_of(chars: &Vec<char>) -> (r: String)
    ensures
        r@ == chars@,
{
    let mut out = String::new();
    let mut i: usize = 0;
    while i < chars.len()
        invariant
            i <= chars.len(),
            out@ == chars@.take(i as int),
        decreases chars.len() - i,
    {
        push_char(&mut out, chars[i]);
        assert(chars@.take(i as int).push(chars@[i as int]) =~= chars@.take(i + 1));
        i = i + 1;
    }
    assert(chars@.take(chars.len() as int) =~= chars@);
    out
}

/// Appends the characters of `tail` to `out`.
pub fn extend_chars(out: &mut Vec<char>, tail: &Vec<char>)
    ensures
        final(out)@ == old(out)@ + tail@,
{
    let mut i: usize = 0;
    while i < tail.len()
        invariant
            i <= tail.len(),
            out@ == old(out)@ + tail@.take(i as int),
        decreases tail.len() - i,
    {
        out.push(tail[i]);
        assert(old(out)@ + tail@.take(i + 1) =~= old(out)@ + tail@.take(i as int) + seq![tail@[i as int]]);
        i = i + 1;
    }
    assert(tail@.take(tail.len() as int) =~= tail@);
}

/// Appends the characters of a string slice to `out`.
pub fn extend_str(out: &mut Vec<char>, tail: &str)
    ensures
        final(out)@ == old(out)@ + tail@,
{
    let t = chars_of(tail);
    extend_chars(out, &t);
}

/// Whether two string slices hold the same characters.
pub fn same_text(a: &str, b: &str) -> (r: bool)
    ensures
        r == (a@ == b@),
{
    let x = chars_of(a);
    let y = chars_of(b);
    same_chars(&x, &y)
}

/// Whether two character vectors are equal.
pub fn same_chars(x: &Vec<char>, y: &Vec<char>) -> (r: bool)
    ensures
        r == (x@ == y@),
{
    if x.len() != y.len() {
        return false;
    }
    let mut i: usize = 0;
    while i < x.len()
        invariant
            x.len() == y.len(),
            i <= x.len(),
            forall|j: int| 0 <= j < i ==> x@[j] == y@[j],
        decreases x.len() - i,
    {
        if x[i] != y[i] {
            return false;
        }
        i = i + 1;
    }
    assert(x@ =~= y@);
    true
}

/// Whether a character occurs in a sequence.
pub fn contains_char(x: &Vec<char>, c: char) -> (r: bool)
    ensures
        r == x@.contains(c),
{
    let mut i: usize = 0;
    while i < x.len()
        invariant
            i <= x.len(),
            forall|j: int| 0 <= j < i ==> x@[j] != c,
        decreases x.len() - i,
    {
        if x[i] == c {
            assert(x@[i as int] == c);
            return true;
        }
        i = i + 1;
    }
    false
}

// ---------------------------------------------------------------------------
// trimming

/// The sequence with its leading white space removed.
pub open spec fn trim_start_spec(s: Seq<char>) -> Seq<char>
    decreases s.len(),
{
    if s.len() > 0 && is_white_space(s[0]) {
        trim_start_spec(s.drop_first())
    } else {
        s
    }
}

/// The sequence with its trailing white space removed.
pub open spec fn trim_end_spec(s: Seq<char>) -> Seq<char>
    decreases s.len(),
{
    if s.len() > 0 && is_white_space(s.last()) {
        trim_end_spec(s.drop_last())
    } else {
        s
    }
}

/// What `str::trim` leaves of a sequence.
pub open spec fn trim_spec(s: Seq<char>) -> Seq<char> {
    trim_end_spec(trim_start_spec(s))
}

proof fn lemma_trim_start_skip(s: Seq<char>, i: int)
    requires
        0 <= i <= s.len(),
        forall|j: int| 0 <= j < i ==> is_white_space(#[trigger] s[j]),
    ensures
        trim_start_spec(s) == trim_start_spec(s.subrange(i, s.len() as int)),
    decreases i,
{
    if i > 0 {
        assert(is_white_space(s[0]));
        let t = s.drop_first();
        assert forall|j: int| 0 <= j < i - 1 implies is_white_space(#[trigger] t[j]) by {
            assert(t[j] == s[j + 1]);
        }
        lemma_trim_start_skip(t, i - 1);
        assert(t.subrange(i - 1, t.len() as int) =~= s.subrange(i, s.len() as int));
    } else {
        assert(s.subrange(0, s.len() as int) =~= s);
    }
}

proof fn lemma_trim_end_skip(s: Seq<char>, k: int)
    requires
        0 <= k <= s.len(),
        forall|j: int| k <= j < s.len() ==> is_white_space(#[trigger] s[j]),
    ensures
        trim_end_spec(s) == trim_end_spec(s.subrange(0, k)),
    decreases s.len() - k,
{
    if k < s.len() {
        assert(is_white_space(s.last()));
        let t = s.drop_last();
        assert forall|j: int| k <= j < t.len() implies is_white_space(#[trigger] t[j]) by {
            assert(t[j] == s[j]);
        }
        lemma_trim_end_skip(t, k);
        assert(t.subrange(0, k) =~= s.subrange(0, k));
    } else {
        assert(s.subrange(0, k) =~= s);
    }
}

proof fn lemma_trim_start_index(s: Seq<char>) -> (i: int)
    ensures
        0 <= i <= s.len(),
        trim_start_spec(s) == s.subrange(i, s.len() as int),
        forall|k: int| 0 <= k < i ==> is_white_space(#[trigger] s[k]),
        i < s.len() ==> !is_white_space(s[i]),
    decreases s.len(),
{
    if s.len() > 0 && is_white_space(s[0]) {
        let d = s.drop_first();
        let i1 = lemma_trim_start_index(d);
        assert(d.subrange(i1, d.len() as int) =~= s.subrange(i1 + 1, s.len() as int));
        assert forall|k: int| 0 <= k < i1 + 1 implies is_white_space(#[trigger] s[k]) by {
            if k > 0 {
                assert(s[k] == d[k - 1]);
            }
        }
        if i1 + 1 < s.len() {
            assert(s[i1 + 1] == d[i1]);
        }
        i1 + 1
    } else {
        assert(s.subrange(0, s.len() as int) =~= s);
        0
    }
}

proof fn lemma_trim_end_index(s: Seq<char>) -> (j: int)
    ensures
        0 <= j <= s.len(),
        trim_end_spec(s) == s.subrange(0, j),
        forall|k: int| j <= k < s.len() ==> is_white_space(#[trigger] s[k]),
        j > 0 ==> !is_white_space(s[j - 1]),
    decreases s.len(),
{
    if s.len() > 0 && is_white_space(s.last()) {
        let d = s.drop_last();
        let j1 = lemma_trim_end_index(d);
        assert(d.subrange(0, j1) =~= s.subrange(0, j1));
        assert forall|k: int| j1 <= k < s.len() implies is_white_space(#[trigger] s[k]) by {
            if k < s.len() - 1 {
                assert(s[k] == d[k]);
            }
        }
        if j1 > 0 {
            assert(s[j1 - 1] == d[j1 - 1]);
        }
        j1
    } else {
        assert(s.subrange(0, s.len() as int) =~= s);
        s.len() as int
    }
}

/// Trimming cuts one contiguous piece out of a text: everything dropped
/// before it and after it is white space, and the piece, when not empty,
/// neither starts nor ends with white space.
pub proof fn lemma_trim_shape(s: Seq<char>)
    ensures
        exists|i: int, j: int| {
            &&& 0 <= i <= j <= s.len()
            &&& #[trigger] s.subrange(i, j) == trim_spec(s)
            &&& forall|k: int| 0 <= k < i ==> is_white_space(#[trigger] s[k])
            &&& forall|k: int| j <= k < s.len() ==> is_white_space(#[trigger] s[k])
            &&& i < j ==> !is_white_space(s[i]) && !is_white_space(s[j - 1])
        },
{
    let i = lemma_trim_start_index(s);
    let t = s.subrange(i, s.len() as int);
    let j1 = lemma_trim_end_index(t);
    let j = i + j1;
    assert(t.subrange(0, j1) =~= s.subrange(i, j));
    assert forall|k: int| j <= k < s.len() implies is_white_space(#[trigger] s[k]) by {
        assert(s[k] == t[k - i]);
    }
    if i < j {
        assert(s[i] == t[0]);
        assert(s[j - 1] == t[j1 - 1]);
    }
    assert(s.subrange(i, j) == trim_spec(s));
}

/// `str::trim` over characters: leading and trailing white space removed.
pub fn trim_chars(s: &Vec<char>) -> (r: Vec<char>)
    ensures
        r@ == trim_spec(s@),
{
    let mut i: usize = 0;
    while i < s.len() && is_white_space_char(s[i])
        invariant
            i <= s.len(),
            forall|j: int| 0 <= j < i ==> is_white_space(#[trigger] s@[j]),
        decreases s.len() - i,
    {
        i = i + 1;
    }
    proof {
        lemma_trim_start_skip(s@, i as int);
    }
    let ghost rest = s@.subrange(i as int, s@.len() as int);
    assert(trim_start_spec(rest) == rest);
    let mut k: usize = s.len();
    while k > i && is_white_space_char(s[k - 1])
        invariant
            i <= k <= s.len(),
            forall|j: int| k <= j < s.len() ==> is_white_space(#[trigger] s@[j]),
        decreases k,
    {
        k = k - 1;
    }
    proof {
        assert forall|j: int| k - i <= j < rest.len() implies is_white_space(#[trigger] rest[j]) by {
            assert(rest[j] == s@[j + i]);
        }
        lemma_trim_end_skip(rest, k - i);
        let core = rest.subrange(0, k - i);
        assert(core =~= s@.subrange(i as int, k as int));
        if core.len() > 0 {
            assert(core.last() == s@[k - 1]);
        }
    }
    let mut out: Vec<char> = Vec::new();
    let mut p: usize = i;
    while p < k
        invariant
            i <= p <= k <= s.len(),
            out@ == s@.subrange(i as int, p as int),
        decreases k - p,
    {
        out.push(s[p]);
        assert(s@.subrange(i as int, p + 1) =~= s@.subrange(i as int, p as int).push(s@[p as int]));
        p = p + 1;
    }
    out
}

/// `str::trim` over a string slice, as characters.
pub fn trim_str(s: &str) -> (r: Vec<char>)
    ensures
        r@ == trim_spec(s@),
{
    let c = chars_of(s);
    trim_chars(&c)
}

// ---------------------------------------------------------------------------
// case folding

/// ASCII lowercase of one character (`char::to_ascii_lowercase`).
pub open spec fn ascii_lower(c: char) -> char {
    if 'A' <= c && c <= 'Z' {
        ((c as u32) + 32) as char
    } else {
        c
    }
}

/// ASCII lowercase of a sequence (`str::to_ascii_lowercase`).
pub open spec fn ascii_lower_seq(s: Seq<char>) -> Seq<char> {
    s.map_values(|c: char| ascii_lower(c))
}

/// Whether every character is ASCII.
pub open spec fn all_ascii(s: Seq<char>) -> bool {
    forall|i: int| 0 <= i < s.len() ==> (s[i] as u32) < 128
}

/// ASCII uppercase of one character (`char::to_ascii_uppercase`).
pub open spec fn ascii_upper(c: char) -> char {
    if 'a' <= c && c <= 'z' {
        ((c as u32) - 32) as char
    } else {
        c
    }
}

/// ASCII uppercase of a sequence (`str::to_ascii_uppercase`).
pub open spec fn ascii_upper_seq(s: Seq<char>) -> Seq<char> {
    s.map_values(|c: char| ascii_upper(c))
}

/// Whether a text is a lowercase word: ASCII lowercase letters, digits and
/// underscores only.
pub open spec fn lower_word(s: Seq<char>) -> bool {
    forall|i: int| 0 <= i < s.len() ==> ('a' <= #[trigger] s[i] && s[i] <= 'z') || ('0' <= s[i] && s[i] <= '9') || s[i] == '_'
}

/// A lowercase word is ASCII, its own ASCII lowercase, and the ASCII
/// lowercase of its ASCII uppercase.
pub proof fn lemma_lower_word_case(s: Seq<char>)
    requires
        lower_word(s),
    ensures
        all_ascii(s),
        ascii_lower_seq(s) == s,
        all_ascii(ascii_upper_seq(s)),
        ascii_lower_seq(ascii_upper_seq(s)) == s,
{
    assert forall|i: int| 0 <= i < s.len() implies (s[i] as u32) < 128 && ascii_lower(s[i]) == s[i]
        && (ascii_upper(s[i]) as u32) < 128 && ascii_lower(ascii_upper(s[i])) == s[i] by {
        let c = s[i];
        if 'a' <= c && c <= 'z' {
            let u = ((c as u32) - 32) as char;
            assert(u as u32 == (c as u32) - 32);
            assert('A' <= u && u <= 'Z');
            assert(((u as u32) + 32) as char == c);
        }
    }
    assert(ascii_lower_seq(s) =~= s);
    assert(ascii_lower_seq(ascii_upper_seq(s)) =~= s);
}

/// ASCII lowercase of one character.
pub fn ascii_lower_char(c: char) -> (r: char)
    ensures
        r == ascii_lower(c),
{
    if 'A' <= c && c <= 'Z' {
        let v: u8 = (c as u8) + 32;
        char_of_byte(v)
    } else {
        c
    }
}

/// The character with a given byte value below 128.
pub fn char_of_byte(v: u8) -> (r: char)
    requires
        v < 128,
    ensures
        r == (v as u32) as char,
        r as u32 == v as u32,
{
    v as char
}

/// ASCII lowercase of a character vector.
pub fn ascii_lower_chars(s: &Vec<char>) -> (r: Vec<char>)
    ensures
        r@ == ascii_lower_seq(s@),
{
    let mut out: Vec<char> = Vec::new();
    let mut i: usize = 0;
    while i < s.len()
        invariant
            i <= s.len(),
            out@ == ascii_lower_seq(s@.take(i as int)),
        decreases s.len() - i,
    {
        let c = ascii_lower_char(s[i]);
        out.push(c);
        assert(ascii_lower_seq(s@.take(i + 1)) =~= ascii_lower_seq(s@.take(i as int)).push(c));
        i = i + 1;
    }
    assert(s@.take(s.len() as int) =~= s@);
    out
}

/// What `str::to_lowercase` returns for a string (full Unicode lowercase
/// mapping, as implemented by the standard library).
pub uninterp spec fn unicode_lowercase(s: Seq<char>) -> Seq<char>;

/// `str::to_lowercase`: the Unicode lowercase of a string. Claimed: the
/// result is `unicode_lowercase` of the input, and on all-ASCII input it is
/// the ASCII lowercase (std maps every ASCII letter to its ASCII lowercase
/// and leaves other ASCII characters unchanged). Nothing more is claimed of
/// non-ASCII input.
#[verifier::external_body]
pub(crate) fn to_lowercase(s: &str) -> (r: String)
    ensures
        r@ == unicode_lowercase(s@),
        all_ascii(s@) ==> r@ == ascii_lower_seq(s@),
{
    s.to_lowercase()
}

// ---------------------------------------------------------------------------
// decimal text

/// The decimal digit character of a value below ten.
pub open spec fn digit_char(d: nat) -> char {
    (48 + d) as char
}

/// The decimal representation of an unsigned number (`u64`'s `Display`).
pub open spec fn decimal_spec(n: nat) -> Seq<char>
    decreases n,
{
    if n < 10 {
        seq![digit_char(n)]
    } else {
        decimal_spec(n / 10).push(digit_char(n % 10))
    }
}

/// The number a text of decimal digits denotes (most significant first).
pub open spec fn digits_value(s: Seq<char>) -> nat
    decreases s.len(),
{
    if s.len() == 0 {
        0
    } else {
        digits_value(s.drop_last()) * 10 + ((s.last() as int - 48) as nat)
    }
}

/// The decimal text of a number is its digits, most significant first: it
/// holds only the characters `0` to `9`, starts with `0` only when it is
/// `0` itself, and reads back as the number.
pub proof fn lemma_decimal_reads_back(n: nat)
    ensures
        decimal_spec(n).len() > 0,
        forall|k: int| 0 <= k < decimal_spec(n).len() ==> '0' <= #[trigger] decimal_spec(n)[k] && decimal_spec(n)[k] <= '9',
        decimal_spec(n)[0] == '0' ==> n == 0 && decimal_spec(n).len() == 1,
        digits_value(decimal_spec(n)) == n,
    decreases n,
{
    assert(digit_char(n % 10) as int == 48 + n % 10);
    if n < 10 {
        let d = decimal_spec(n);
        assert(d.drop_last() =~= Seq::<char>::empty());
        assert(digits_value(d.drop_last()) == 0);
        assert(digit_char(n) as int == 48 + n);
        assert(d.last() == digit_char(n));
    } else {
        lemma_decimal_reads_back(n / 10);
        let p = decimal_spec(n / 10);
        let d = decimal_spec(n);
        assert(d == p.push(digit_char(n % 10)));
        assert(d.drop_last() =~= p);
        assert forall|k: int| 0 <= k < d.len() implies '0' <= #[trigger] d[k] && d[k] <= '9' by {
            if k < p.len() {
                assert(d[k] == p[k]);
            }
        }
        assert(d[0] == p[0]);
        assert((n / 10) * 10 + n % 10 == n);
        assert(digits_value(d) == digits_value(p) * 10 + ((d.last() as int - 48) as nat));
        assert(d.last() == digit_char(n % 10));
        assert(digits_value(p) * 10 == (n / 10) * 10);
    }
}


/// The decimal text of an unsigned number.
pub fn decimal_text(n: u128) -> (r: Vec<char>)
    ensures
        r@ == decimal_spec(n as nat),
    decreases n,
{
    let d: u128 = n % 10;
    let c = char_of_byte((48 + d) as u8);
    if n < 10 {
        let mut out: Vec<char> = Vec::new();
        out.push(c);
        assert(out@ =~= seq![digit_char(n as nat)]);
        out
    } else {
        let mut out = decimal_text(n / 10);
        out.push(c);
        out
    }
}

/// The decimal representation of a signed number (`i64`'s `Display`).
pub open spec fn signed_decimal_spec(n: int) -> Seq<char> {
    if n < 0 {
        seq!['-'] + decimal_spec((-n) as nat)
    } else {
        decimal_spec(n as nat)
    }
}

/// The decimal text of a signed number.
pub fn signed_decimal_text(n: i64) -> (r: Vec<char>)
    ensures
        r@ == signed_decimal_spec(n as int),
{
    if n < 0 {
        let m: u64 = if n == i64::MIN { 9223372036854775808u64 } else { (-n) as u64 };
        let mut out: Vec<char> = Vec::new();
        out.push('-');
        let digits = decimal_text(m as u128);
        extend_chars(&mut out, &digits);
        assert(out@ =~= seq!['-'] + decimal_spec((-n) as nat));
        out
    } else {
        decimal_text(n as u128)
    }
}

// ---------------------------------------------------------------------------
// ordering

/// Lexicographic order on character sequences by scalar value (the order
/// `str`'s `Ord` uses, since UTF-8 preserves scalar order).
pub open spec fn seq_lt(a: Seq<char>, b: Seq<char>) -> bool
    decreases a.len(),
{
    if a.len() == 0 {
        b.len() > 0
    } else if b.len() == 0 {
        false
    } else if a[0] != b[0] {
        a[0] < b[0]
    } else {
        seq_lt(a.drop_first(), b.drop_first())
    }
}

proof fn lemma_seq_lt_witness(a: Seq<char>, b: Seq<char>) -> (i: int)
    requires
        seq_lt(a, b),
    ensures
        0 <= i <= a.len(),
        i < b.len(),
        a.take(i) == b.take(i),
        i == a.len() || a[i] < b[i],
    decreases a.len(),
{
    if a.len() == 0 || a[0] != b[0] {
        assert(a.take(0) =~= b.take(0));
        0
    } else {
        let j = lemma_seq_lt_witness(a.drop_first(), b.drop_first());
        assert(a.take(j + 1) =~= seq![a[0]] + a.drop_first().take(j));
        assert(b.take(j + 1) =~= seq![b[0]] + b.drop_first().take(j));
        if j < a.drop_first().len() {
            assert(a[j + 1] == a.drop_first()[j]);
            assert(b[j + 1] == b.drop_first()[j]);
        }
        j + 1
    }
}

proof fn lemma_seq_lt_from_witness(a: Seq<char>, b: Seq<char>, i: int)
    requires
        0 <= i <= a.len(),
        i < b.len(),
        a.take(i) == b.take(i),
        i == a.len() || a[i] < b[i],
    ensures
        seq_lt(a, b),
    decreases a.len(),
{
    if a.len() > 0 && i > 0 {
        assert(a[0] == a.take(i)[0] && b[0] == b.take(i)[0]);
        let a1 = a.drop_first();
        let b1 = b.drop_first();
        assert(a1.take(i - 1) =~= a.take(i).drop_first());
        assert(b1.take(i - 1) =~= b.take(i).drop_first());
        if i < a.len() {
            assert(a1[i - 1] == a[i] && b1[i - 1] == b[i]);
        }
        lemma_seq_lt_from_witness(a1, b1, i - 1);
    }
}

/// The order on texts is the lexicographic one, ascending by character:
/// `a` sorts before `b` exactly when `a` is a proper prefix of `b`, or when
/// at the first place they differ `a` holds the smaller character.
pub proof fn lemma_seq_lt_lexicographic(a: Seq<char>, b: Seq<char>)
    ensures
        seq_lt(a, b) <==> exists|i: int| 0 <= i <= a.len() && i < b.len() && #[trigger] a.take(i) == b.take(i)
            && (i == a.len() || a[i] < b[i]),
{
    if seq_lt(a, b) {
        let i = lemma_seq_lt_witness(a, b);
        assert(a.take(i) == b.take(i));
    }
    if exists|i: int| 0 <= i <= a.len() && i < b.len() && #[trigger] a.take(i) == b.take(i)
        && (i == a.len() || a[i] < b[i]) {
        let i = choose|i: int| 0 <= i <= a.len() && i < b.len() && #[trigger] a.take(i) == b.take(i)
            && (i == a.len() || a[i] < b[i]);
        lemma_seq_lt_from_witness(a, b, i);
    }
}

/// Non-strict lexicographic order.
pub open spec fn seq_le(a: Seq<char>, b: Seq<char>) -> bool {
    a == b || seq_lt(a, b)
}

/// Whether `a` sorts strictly before `b`.
pub fn chars_lt(a: &Vec<char>, b: &Vec<char>) -> (r: bool)
    ensures
        r == seq_lt(a@, b@),
{
    let mut i: usize = 0;
    assert(a@.subrange(0, a@.len() as int) =~= a@);
    assert(b@.subrange(0, b@.len() as int) =~= b@);
    while i < a.len() && i < b.len() && a[i] == b[i]
        invariant
            i <= a.len(),
            i <= b.len(),
            forall|j: int| 0 <= j < i ==> a@[j] == b@[j],
            seq_lt(a@, b@) == seq_lt(a@.subrange(i as int, a@.len() as int), b@.subrange(i as int, b@.len() as int)),
        decreases a.len() - i,
    {
        let ghost sa = a@.subrange(i as int, a@.len() as int);
        let ghost sb = b@.subrange(i as int, b@.len() as int);
        assert(sa.drop_first() =~= a@.subrange(i + 1, a@.len() as int));
        assert(sb.drop_first() =~= b@.subrange(i + 1, b@.len() as int));
        i = i + 1;
    }
    let ghost sa = a@.subrange(i as int, a@.len() as int);
    let ghost sb = b@.subrange(i as int, b@.len() as int);
    if i == a.len() {
        i < b.len()
    } else if i == b.len() {
        false
    } else {
        assert(sa[0] == a@[i as int]);
        assert(sb[0] == b@[i as int]);
        a[i] < b[i]
    }
}

/// Every pair of sequences is ordered one way, the other, or equal.
pub proof fn lemma_seq_lt_total(a: Seq<char>, b: Seq<char>)
    ensures
        a == b || seq_lt(a, b) || seq_lt(b, a),
    decreases a.len(),
{
    if a.len() > 0 && b.len() > 0 && a[0] == b[0] {
        lemma_seq_lt_total(a.drop_first(), b.drop_first());
        if a.drop_first() == b.drop_first() {
            assert(a =~= seq![a[0]] + a.drop_first());
            assert(b =~= seq![b[0]] + b.drop_first());
        }
    } else if a.len() == 0 && b.len() == 0 {
        assert(a =~= b);
    } else if a.len() > 0 && b.len() > 0 && a[0] != b[0] {
    }
}

/// The order is irreflexive and asymmetric.
pub proof fn lemma_seq_lt_asym(a: Seq<char>, b: Seq<char>)
    ensures
        !(seq_lt(a, b) && seq_lt(b, a)),
        !seq_lt(a, a),
    decreases a.len(),
{
    if a.len() > 0 && b.len() > 0 {
        lemma_seq_lt_asym(a.drop_first(), b.drop_first());
    }
    if a.len() > 0 {
        lemma_seq_lt_asym(a.drop_first(), a.drop_first());
    }
}

/// The order is transitive.
pub proof fn lemma_seq_lt_trans(a: Seq<char>, b: Seq<char>, c: Seq<char>)
    requires
        seq_lt(a, b),
        seq_lt(b, c),
    ensures
        seq_lt(a, c),
    decreases a.len(),
{
    if a.len() > 0 && b.len() > 0 && c.len() > 0 {
        if a[0] == b[0] && b[0] == c[0] {
            lemma_seq_lt_trans(a.drop_first(), b.drop_first(), c.drop_first());
        }
    }
}

} // verus!

verus! {

/// Whether a sequence of texts is in non-decreasing lexicographic order.
pub open spec fn texts_sorted(s: Seq<Seq<char>>) -> bool {
    forall|i: int, j: int| 0 <= i < j < s.len() ==> seq_le(#[trigger] s[i], #[trigger] s[j])
}

proof fn lemma_le_trans(a: Seq<char>, b: Seq<char>, c: Seq<char>)
    requires
        seq_le(a, b),
        seq_le(b, c),
    ensures
        seq_le(a, c),
{
    if seq_lt(a, b) && seq_lt(b, c) {
        lemma_seq_lt_trans(a, b, c);
    }
}

/// The views of a vector of character vectors.
pub open spec fn rows_view(v: Seq<Vec<char>>) -> Seq<Seq<char>> {
    v.map_values(|r: Vec<char>| r@)
}

/// Sorts texts into non-decreasing lexicographic order (a stable insertion
/// sort): the result is sorted and holds exactly the input's texts.
pub fn sort_texts(input: &Vec<Vec<char>>) -> (r: Vec<Vec<char>>)
    ensures
        texts_sorted(rows_view(r@)),
        rows_view(r@).to_multiset() == rows_view(input@).to_multiset(),
        r@.len() == input@.len(),
{
    broadcast use vstd::seq_lib::group_to_multiset_ensures;
    let mut out: Vec<Vec<char>> = Vec::new();
    let mut i: usize = 0;
    assert(rows_view(out@) =~= rows_view(input@.take(0)));
    while i < input.len()
        invariant
            i <= input.len(),
            out@.len() == i,
            texts_sorted(rows_view(out@)),
            rows_view(out@).to_multiset() == rows_view(input@.take(i as int)).to_multiset(),
        decreases input.len() - i,
    {
        let x = input[i].clone();
        let mut k: usize = 0;
        while k < out.len() && !chars_lt(&x, &out[k])
            invariant
                k <= out.len(),
                forall|j: int| 0 <= j < k ==> seq_le(#[trigger] rows_view(out@)[j], x@),
            decreases out.len() - k,
        {
            proof {
                lemma_seq_lt_total(x@, out@[k as int]@);
                assert(rows_view(out@)[k as int] == out@[k as int]@);
            }
            k = k + 1;
        }
        let ghost old_rows = rows_view(out@);
        proof {
            if k < out.len() {
                assert(old_rows[k as int] == out@[k as int]@);
                assert(seq_lt(x@, old_rows[k as int]));
            }
        }
        out.insert(k, x.clone());
        let ghost new_rows = rows_view(out@);
        proof {
            assert(new_rows =~= old_rows.take(k as int).push(x@) + old_rows.skip(k as int));
            assert forall|a: int, b: int| 0 <= a < b < new_rows.len() implies seq_le(#[trigger] new_rows[a], #[trigger] new_rows[b]) by {
                if b < k {
                    assert(new_rows[a] == old_rows[a] && new_rows[b] == old_rows[b]);
                } else if b == k {
                    assert(new_rows[a] == old_rows[a]);
                } else if a < k {
                    assert(new_rows[a] == old_rows[a] && new_rows[b] == old_rows[b - 1]);
                    assert(seq_le(old_rows[a], x@));
                    assert(seq_lt(x@, old_rows[k as int]));
                    if b - 1 > k {
                        assert(seq_le(old_rows[k as int], old_rows[b - 1]));
                    }
                    lemma_le_trans(old_rows[a], x@, old_rows[k as int]);
                    lemma_le_trans(old_rows[a], old_rows[k as int], old_rows[b - 1]);
                } else if a == k {
                    assert(new_rows[b] == old_rows[b - 1]);
                    if b - 1 > k {
                        assert(seq_le(old_rows[k as int], old_rows[b - 1]));
                    }
                    lemma_le_trans(x@, old_rows[k as int], old_rows[b - 1]);
                } else {
                    assert(new_rows[a] == old_rows[a - 1] && new_rows[b] == old_rows[b - 1]);
                }
            }
            vstd::seq_lib::lemma_multiset_commutative(old_rows.take(k as int).push(x@), old_rows.skip(k as int));
            vstd::seq_lib::lemma_multiset_commutative(old_rows.take(k as int), old_rows.skip(k as int));
            assert(old_rows =~= old_rows.take(k as int) + old_rows.skip(k as int));
            let t = rows_view(input@.take(i + 1));
            assert(t =~= rows_view(input@.take(i as int)).push(x@));
            rows_view(input@.take(i as int)).to_multiset_ensures();
            old_rows.take(k as int).to_multiset_ensures();
            assert(rows_view(input@.take(i as int)).push(x@).to_multiset() == rows_view(input@.take(i as int)).to_multiset().insert(x@));
            assert(old_rows.take(k as int).push(x@).to_multiset() == old_rows.take(k as int).to_multiset().insert(x@));
        }
        i = i + 1;
    }
    assert(input@.take(input.len() as int) =~= input@);
    out
}

} // verus!

verus! {

/// Texts joined by a separator.
pub open spec fn join_spec(items: Seq<Seq<char>>, sep: Seq<char>) -> Seq<char>
    decreases items.len(),
{
    if items.len() == 0 {
        Seq::empty()
    } else if items.len() == 1 {
        items[0]
    } else {
        join_spec(items.drop_last(), sep) + sep + items.last()
    }
}

/// Joins texts with a separator.
pub fn join_texts(items: &Vec<Vec<char>>, sep: &str) -> (r: Vec<char>)
    ensures
        r@ == join_spec(rows_view(items@), sep@),
{
    let mut out: Vec<char> = Vec::new();
    let mut i: usize = 0;
    while i < items.len()
        invariant
            i <= items.len(),
            out@ == join_spec(rows_view(items@).take(i as int), sep@),
        decreases items.len() - i,
    {
        if i > 0 {
            extend_str(&mut out, sep);
        }
        extend_chars(&mut out, &items[i]);
        proof {
            let v = rows_view(items@);
            assert(v.take(i + 1).drop_last() =~= v.take(i as int));
            assert(v.take(i + 1).last() == items@[i as int]@);
            if i == 0 {
                assert(join_spec(v.take(1), sep@) == v.take(1)[0]);
                assert(out@ =~= join_spec(v.take(1), sep@));
            }
        }
        i = i + 1;
    }
    assert(rows_view(items@).take(items.len() as int) =~= rows_view(items@));
    out
}

/// The texts of a list that occur among the keys, in list order.
pub open spec fn present_spec(list: Seq<Seq<char>>, keys: Seq<Seq<char>>) -> Seq<Seq<char>>
    decreases list.len(),
{
    if list.len() == 0 {
        Seq::empty()
    } else if keys.contains(list.last()) {
        present_spec(list.drop_last(), keys).push(list.last())
    } else {
        present_spec(list.drop_last(), keys)
    }
}

/// The hits of a fence: a text is listed exactly when it is both in the
/// fence and among the keys; no hit means no fenced key was given; hits keep
/// the fence's order and never repeat what the fence does not repeat.
pub proof fn lemma_present_hits(list: Seq<Seq<char>>, keys: Seq<Seq<char>>, t: Seq<char>)
    ensures
        present_spec(list, keys).contains(t) == (list.contains(t) && keys.contains(t)),
        (present_spec(list, keys).len() == 0) == (forall|i: int| 0 <= i < list.len() ==> !keys.contains(#[trigger] list[i])),
        present_spec(list, keys).len() <= list.len(),
    decreases list.len(),
{
    if list.len() > 0 {
        let d = list.drop_last();
        lemma_present_hits(d, keys, t);
        assert(list =~= d.push(list.last()));
        assert(list.contains(t) == (d.contains(t) || list.last() == t)) by {
            if list.contains(t) {
                let i = choose|i: int| 0 <= i < list.len() && list[i] == t;
                if i < d.len() {
                    assert(d[i] == t);
                }
            }
            if d.contains(t) {
                let i = choose|i: int| 0 <= i < d.len() && d[i] == t;
                assert(list[i] == t);
            }
            if list.last() == t {
                assert(list[list.len() - 1] == t);
            }
        }
        let r = present_spec(list, keys);
        let rd = present_spec(d, keys);
        if keys.contains(list.last()) {
            assert(r == rd.push(list.last()));
            assert(r.contains(t) == (rd.contains(t) || list.last() == t)) by {
                if r.contains(t) {
                    let i = choose|i: int| 0 <= i < r.len() && r[i] == t;
                    if i < rd.len() {
                        assert(rd[i] == t);
                    }
                }
                if rd.contains(t) {
                    let i = choose|i: int| 0 <= i < rd.len() && rd[i] == t;
                    assert(r[i] == t);
                }
                if list.last() == t {
                    assert(r[r.len() - 1] == t);
                }
            }
            assert(!(forall|i: int| 0 <= i < list.len() ==> !keys.contains(#[trigger] list[i]))) by {
                assert(list[list.len() - 1] == list.last());
            }
        } else {
            assert(r == rd);
            if forall|i: int| 0 <= i < d.len() ==> !keys.contains(#[trigger] d[i]) {
                assert forall|i: int| 0 <= i < list.len() implies !keys.contains(#[trigger] list[i]) by {
                    if i < d.len() {
                        assert(list[i] == d[i]);
                    }
                }
            } else {
                let i = choose|i: int| 0 <= i < d.len() && keys.contains(#[trigger] d[i]);
                assert(list[i] == d[i]);
            }
        }
    }
}

/// Whether a text is among texts.
pub fn contains_text(keys: &Vec<String>, t: &str) -> (r: bool)
    ensures
        r == keys@.map_values(|s: String| s@).contains(t@),
{
    let ghost kv = keys@.map_values(|s: String| s@);
    let mut i: usize = 0;
    while i < keys.len()
        invariant
            i <= keys.len(),
            kv == keys@.map_values(|s: String| s@),
            forall|j: int| 0 <= j < i ==> kv[j] != t@,
        decreases keys.len() - i,
    {
        if same_text(keys[i].as_str(), t) {
            assert(kv[i as int] == t@);
            return true;
        }
        i = i + 1;
    }
    false
}

/// The members of a fixed list that occur among the keys, in list order.
pub fn present_texts(list: &Vec<&str>, keys: &Vec<String>) -> (r: Vec<Vec<char>>)
    ensures
        rows_view(r@) == present_spec(list@.map_values(|s: &str| s@), keys@.map_values(|s: String| s@)),
{
    let ghost lv = list@.map_values(|s: &str| s@);
    let ghost kv = keys@.map_values(|s: String| s@);
    let mut out: Vec<Vec<char>> = Vec::new();
    let mut i: usize = 0;
    while i < list.len()
        invariant
            i <= list.len(),
            lv == list@.map_values(|s: &str| s@),
            kv == keys@.map_values(|s: String| s@),
            rows_view(out@) == present_spec(lv.take(i as int), kv),
        decreases list.len() - i,
    {
        let item = list[i];
        proof {
            assert(lv.take(i + 1).drop_last() =~= lv.take(i as int));
            assert(lv.take(i + 1).last() == item@);
        }
        if contains_text(keys, item) {
            out.push(chars_of(item));
            assert(rows_view(out@) =~= rows_view(out@.drop_last()).push(item@));
        }
        i = i + 1;
    }
    assert(lv.take(list.len() as int) =~= lv);
    out
}

} // verus!
