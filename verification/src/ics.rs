//! The /ics body builder: a minimal RFC 5545 VCALENDAR with one VEVENT.

use vstd::prelude::*;
use vstd::utf8::{encode_utf8, char_is_scalar};
use crate::ids::{uuid_text, uuid_text_spec, utc_stamp, utc_stamp_spec, now_micros};
use crate::rows::EventRow;
use crate::text::{chars_of, string_of, extend_chars, extend_str};

verus! {

/// The escaped form of one character of a TEXT property value.
pub open spec fn escape_char(c: char) -> Seq<char> {
    if c == '\\' {
        seq!['\\', '\\']
    } else if c == ';' {
        seq!['\\', ';']
    } else if c == ',' {
        seq!['\\', ',']
    } else if c == '\n' {
        seq!['\\', 'n']
    } else {
        seq![c]
    }
}

/// RFC 5545 TEXT escaping: backslash, semicolon, comma and newline.
pub open spec fn escape_spec(s: Seq<char>) -> Seq<char>
    decreases s.len(),
{
    if s.len() == 0 {
        Seq::empty()
    } else {
        escape_spec(s.drop_last()) + escape_char(s.last())
    }
}

/// Escaping works character by character: the escape of a concatenation is
/// the concatenation of the escapes (so every occurrence of a special
/// character is escaped, not only the first), and a single character
/// escapes to a backslash pair for `\`, `;`, `,` and newline (`\n`), and to
/// itself otherwise.
pub proof fn lemma_escape_per_char(a: Seq<char>, b: Seq<char>, c: char)
    ensures
        escape_spec(a + b) == escape_spec(a) + escape_spec(b),
        escape_spec(seq![c]) == if c == '\\' {
            seq!['\\', '\\']
        } else if c == ';' {
            seq!['\\', ';']
        } else if c == ',' {
            seq!['\\', ',']
        } else if c == '\n' {
            seq!['\\', 'n']
        } else {
            seq![c]
        },
    decreases b.len(),
{
    assert(seq![c].drop_last() =~= Seq::<char>::empty());
    assert(escape_spec(seq![c]) =~= escape_spec(Seq::<char>::empty()) + escape_char(c));
    if b.len() == 0 {
        assert(a + b =~= a);
        assert(escape_spec(a) + escape_spec(b) =~= escape_spec(a));
    } else {
        lemma_escape_per_char(a, b.drop_last(), c);
        assert((a + b).drop_last() =~= a + b.drop_last());
        assert((a + b).last() == b.last());
        assert(escape_spec(a + b) =~= escape_spec(a) + escape_spec(b));
    }
}

/// Escapes one TEXT property value, as characters.
pub fn escape_chars(raw: &str) -> (r: Vec<char>)
    ensures
        r@ == escape_spec(raw@),
{
    let s = chars_of(raw);
    let mut out: Vec<char> = Vec::new();
    let mut i: usize = 0;
    while i < s.len()
        invariant
            i <= s.len(),
            s@ == raw@,
            out@ == escape_spec(s@.take(i as int)),
        decreases s.len() - i,
    {
        let c = s[i];
        if c == '\\' {
            out.push('\\');
            out.push('\\');
        } else if c == ';' {
            out.push('\\');
            out.push(';');
        } else if c == ',' {
            out.push('\\');
            out.push(',');
        } else if c == '\n' {
            out.push('\\');
            out.push('n');
        } else {
            out.push(c);
        }
        assert(s@.take(i + 1).drop_last() =~= s@.take(i as int));
        assert(out@ =~= escape_spec(s@.take(i as int)) + escape_char(c));
        i = i + 1;
    }
    assert(s@.take(s.len() as int) =~= s@);
    out
}

/// The UTF-8 width of a character, in octets.
pub open spec fn char_octets(c: char) -> nat {
    if (c as u32) <= 0x7F {
        1
    } else if (c as u32) <= 0x7FF {
        2
    } else if (c as u32) <= 0xFFFF {
        3
    } else {
        4
    }
}

/// The UTF-8 length of a text, in octets.
pub open spec fn octets(s: Seq<char>) -> nat
    decreases s.len(),
{
    if s.len() == 0 {
        0
    } else {
        char_octets(s[0]) + octets(s.drop_first())
    }
}

/// The octet count is the length of the UTF-8 encoding.
pub proof fn lemma_octets_utf8(s: Seq<char>)
    ensures
        encode_utf8(s).len() == octets(s),
    decreases s.len(),
{
    if s.len() > 0 {
        char_is_scalar(s[0]);
        lemma_octets_utf8(s.drop_first());
    }
}

/// Folding from a point where the current physical line already holds
/// `used` octets: a character that would carry the line past 75 octets
/// starts a new line (CRLF, then a space that counts toward the new line).
/// Characters are never split.
pub open spec fn fold_from(s: Seq<char>, used: nat) -> Seq<char>
    decreases s.len(),
{
    if s.len() == 0 {
        Seq::empty()
    } else if used + char_octets(s[0]) > 75 {
        seq!['\r', '\n', ' ', s[0]] + fold_from(s.drop_first(), 1 + char_octets(s[0]))
    } else {
        seq![s[0]] + fold_from(s.drop_first(), used + char_octets(s[0]))
    }
}

/// RFC 5545 line folding: a line of at most 75 octets is kept; a longer one
/// is cut by octets so that every physical line (the continuation's leading
/// space included) holds at most 75 octets, the first line at most 74.
pub open spec fn fold_spec(s: Seq<char>) -> Seq<char> {
    if encode_utf8(s).len() <= 75 {
        s
    } else {
        fold_from(s, 1)
    }
}

/// Whether every physical line of a text (lines end at CRLF) fits in 75
/// octets, the current line already holding `used`.
pub open spec fn lines_fit(t: Seq<char>, used: nat) -> bool
    decreases t.len(),
{
    if t.len() == 0 {
        true
    } else if t.len() >= 2 && t[0] == '\r' && t[1] == '\n' {
        lines_fit(t.skip(2), 0)
    } else {
        used + char_octets(t[0]) <= 75 && lines_fit(t.drop_first(), used + char_octets(t[0]))
    }
}

/// A folded text with every fold (CRLF followed by a space) removed.
pub open spec fn unfold(t: Seq<char>) -> Seq<char>
    decreases t.len(),
{
    if t.len() >= 3 && t[0] == '\r' && t[1] == '\n' && t[2] == ' ' {
        unfold(t.skip(3))
    } else if t.len() == 0 {
        Seq::empty()
    } else {
        seq![t[0]] + unfold(t.drop_first())
    }
}

proof fn lemma_lines_fit_mono(t: Seq<char>, u: nat, v: nat)
    requires
        lines_fit(t, u),
        v <= u,
    ensures
        lines_fit(t, v),
    decreases t.len(),
{
    if t.len() > 0 && !(t.len() >= 2 && t[0] == '\r' && t[1] == '\n') {
        lemma_lines_fit_mono(t.drop_first(), u + char_octets(t[0]), v + char_octets(t[0]));
    }
}

proof fn lemma_short_line_fits(s: Seq<char>, used: nat)
    requires
        !s.contains('\r'),
        used + octets(s) <= 75,
    ensures
        lines_fit(s, used),
        unfold(s) == s,
    decreases s.len(),
{
    if s.len() > 0 {
        assert(s[0] != '\r');
        let d = s.drop_first();
        assert forall|k: int| 0 <= k < d.len() implies d[k] != '\r' by {
            assert(d[k] == s[k + 1]);
        }
        lemma_short_line_fits(d, used + char_octets(s[0]));
        assert(s =~= seq![s[0]] + d);
    }
}

proof fn lemma_fold_from_law(s: Seq<char>, used: nat)
    requires
        !s.contains('\r'),
        used <= 75,
    ensures
        lines_fit(fold_from(s, used), used),
        unfold(fold_from(s, used)) == s,
    decreases s.len(),
{
    if s.len() > 0 {
        let c = s[0];
        assert(c != '\r');
        let d = s.drop_first();
        assert forall|k: int| 0 <= k < d.len() implies d[k] != '\r' by {
            assert(d[k] == s[k + 1]);
        }
        let w = char_octets(c);
        if used + w > 75 {
            let rest = fold_from(d, 1 + w);
            lemma_fold_from_law(d, 1 + w);
            let t = seq!['\r', '\n', ' ', c] + rest;
            assert(t.skip(2) =~= seq![' ', c] + rest);
            assert((seq![' ', c] + rest).drop_first() =~= seq![c] + rest);
            assert((seq![c] + rest).drop_first() =~= rest);
            assert(t.skip(3) =~= seq![c] + rest);
            let u = seq![' ', c] + rest;
            let v = seq![c] + rest;
            assert(t[0] == '\r' && t[1] == '\n');
            assert(u[0] == ' ' && v[0] == c);
            assert(lines_fit(v, 1) == (1 + w <= 75 && lines_fit(rest, 1 + w)));
            assert(lines_fit(u, 0) == (0 + 1 <= 75 && lines_fit(v, 1)));
            assert(lines_fit(t, used) == lines_fit(u, 0));
            assert(unfold(seq![c] + rest) == seq![c] + unfold(rest));
            assert(s =~= seq![c] + d);
        } else {
            let rest = fold_from(d, used + w);
            lemma_fold_from_law(d, used + w);
            let t = seq![c] + rest;
            assert(t.drop_first() =~= rest);
            assert(t[0] == c);
            assert(lines_fit(t, used) == (used + w <= 75 && lines_fit(rest, used + w)));
            assert(s =~= seq![c] + d);
        }
    }
}

/// Whether every fold (CRLF followed by a space) of a text stands where the
/// character after it would have carried the current line past 75 octets,
/// the current line already holding `used`.
pub open spec fn folds_tight(t: Seq<char>, used: nat) -> bool
    decreases t.len(),
{
    if t.len() == 0 {
        true
    } else if t.len() >= 4 && t[0] == '\r' && t[1] == '\n' && t[2] == ' ' {
        used + char_octets(t[3]) > 75 && folds_tight(t.skip(3), 1)
    } else {
        folds_tight(t.drop_first(), used + char_octets(t[0]))
    }
}

proof fn lemma_plain_is_tight(s: Seq<char>, used: nat)
    requires
        !s.contains('\r'),
    ensures
        folds_tight(s, used),
    decreases s.len(),
{
    if s.len() > 0 {
        assert(s[0] != '\r');
        let d = s.drop_first();
        assert forall|k: int| 0 <= k < d.len() implies d[k] != '\r' by {
            assert(d[k] == s[k + 1]);
        }
        lemma_plain_is_tight(d, used + char_octets(s[0]));
    }
}

proof fn lemma_fold_from_tight(s: Seq<char>, used: nat)
    requires
        !s.contains('\r'),
    ensures
        folds_tight(fold_from(s, used), used),
    decreases s.len(),
{
    if s.len() > 0 {
        let c = s[0];
        assert(c != '\r');
        let d = s.drop_first();
        assert forall|k: int| 0 <= k < d.len() implies d[k] != '\r' by {
            assert(d[k] == s[k + 1]);
        }
        let w = char_octets(c);
        if used + w > 75 {
            let rest = fold_from(d, 1 + w);
            lemma_fold_from_tight(d, 1 + w);
            let t = seq!['\r', '\n', ' ', c] + rest;
            assert(t.skip(3) =~= seq![c] + rest);
            assert((seq![c] + rest).drop_first() =~= rest);
            assert(t[0] == '\r' && t[1] == '\n' && t[2] == ' ' && t[3] == c);
            assert((seq![c] + rest)[0] == c);
            assert(folds_tight(seq![c] + rest, 1) == folds_tight(rest, 1 + w));
        } else {
            let rest = fold_from(d, used + w);
            lemma_fold_from_tight(d, used + w);
            let t = seq![c] + rest;
            assert(t.drop_first() =~= rest);
            assert(t[0] == c);
        }
    }
}

/// Folding is as late as it can be: a line of at most 75 octets comes back
/// unchanged, and in a longer one every fold stands where the next
/// character would have carried the physical line past 75 octets (one
/// octet of the first line is held back, so it holds at most 74).
pub proof fn lemma_fold_only_when_full(s: Seq<char>)
    requires
        !s.contains('\r'),
    ensures
        octets(s) <= 75 ==> fold_spec(s) == s,
        folds_tight(fold_spec(s), if octets(s) <= 75 { 0 } else { 1 }),
{
    lemma_octets_utf8(s);
    if octets(s) <= 75 {
        lemma_plain_is_tight(s, 0);
    } else {
        lemma_fold_from_tight(s, 1);
    }
}

/// Folding keeps the content and the limit: for a line without a carriage
/// return, removing the inserted folds gives the line back, and every
/// physical line of the result holds at most 75 octets.
pub proof fn lemma_fold_law(s: Seq<char>)
    requires
        !s.contains('\r'),
    ensures
        unfold(fold_spec(s)) == s,
        lines_fit(fold_spec(s), 0),
{
    lemma_octets_utf8(s);
    if encode_utf8(s).len() <= 75 {
        lemma_short_line_fits(s, 0);
    } else {
        lemma_fold_from_law(s, 1);
        lemma_lines_fit_mono(fold_spec(s), 1, 0);
    }
}

/// The UTF-8 width of a character, in octets.
pub fn char_width(c: char) -> (r: u64)
    ensures
        r == char_octets(c),
{
    let v = c as u32;
    if v <= 0x7F {
        1
    } else if v <= 0x7FF {
        2
    } else if v <= 0xFFFF {
        3
    } else {
        4
    }
}

/// Folds one line, as characters.
pub fn fold_chars_of(line: &str) -> (r: Vec<char>)
    ensures
        r@ == fold_spec(line@),
{
    let s = chars_of(line);
    if line.as_bytes().len() <= 75 {
        return s;
    }
    let mut out: Vec<char> = Vec::new();
    let mut used: u64 = 1;
    let mut i: usize = 0;
    assert(s@.skip(0) =~= s@);
    assert(out@ + fold_from(s@, 1) =~= fold_from(s@, 1));
    while i < s.len()
        invariant
            i <= s.len(),
            s@ == line@,
            used <= 75,
            out@ + fold_from(s@.skip(i as int), used as nat) == fold_from(s@, 1),
        decreases s.len() - i,
    {
        let c = s[i];
        let w = char_width(c);
        let ghost before = out@;
        proof {
            assert(s@.skip(i as int)[0] == c);
            assert(s@.skip(i as int).drop_first() =~= s@.skip(i + 1));
        }
        if used + w > 75 {
            out.push('\r');
            out.push('\n');
            out.push(' ');
            out.push(c);
            used = 1 + w;
            proof {
                assert(out@ =~= before + seq!['\r', '\n', ' ', c]);
                assert(out@ + fold_from(s@.skip(i + 1), used as nat) =~= before + (seq!['\r', '\n', ' ', c] + fold_from(s@.skip(i + 1), used as nat)));
            }
        } else {
            out.push(c);
            used = used + w;
            proof {
                assert(out@ =~= before + seq![c]);
                assert(out@ + fold_from(s@.skip(i + 1), used as nat) =~= before + (seq![c] + fold_from(s@.skip(i + 1), used as nat)));
            }
        }
        i = i + 1;
    }
    assert(s@.skip(s.len() as int) =~= Seq::<char>::empty());
    assert(out@ + Seq::<char>::empty() =~= out@);
    assert(s@.skip(0) =~= s@);
    out
}

/// Lines joined by CRLF.
pub open spec fn join_crlf(lines: Seq<Seq<char>>) -> Seq<char>
    decreases lines.len(),
{
    if lines.len() == 0 {
        Seq::empty()
    } else if lines.len() == 1 {
        lines[0]
    } else {
        join_crlf(lines.drop_last()) + seq!['\r', '\n'] + lines.last()
    }
}

/// The VEVENT's UID text.
pub open spec fn uid_spec(event_id: u128, slot: Option<u128>) -> Seq<char> {
    match slot {
        Some(s) => "event-"@ + uuid_text_spec(event_id) + "-slot-"@ + uuid_text_spec(s) + "@event.module"@,
        None => "event-"@ + uuid_text_spec(event_id) + "@event.module"@,
    }
}

/// The unfolded lines of the calendar, when every instant can be stamped.
pub open spec fn ics_lines_spec(event_id: u128, name: Seq<char>, slot: Option<u128>, begin: i64, end: i64, now: i64) -> Option<Seq<Seq<char>>> {
    match (utc_stamp_spec(now), utc_stamp_spec(begin), utc_stamp_spec(end)) {
        (Some(st), Some(sb), Some(se)) => Some(seq![
            "BEGIN:VCALENDAR"@,
            "VERSION:2.0"@,
            "PRODID:-//backbone-events//core//EN"@,
            "CALSCALE:GREGORIAN"@,
            "BEGIN:VEVENT"@,
            "UID:"@ + uid_spec(event_id, slot),
            "DTSTAMP:"@ + st,
            "DTSTART:"@ + sb,
            "DTEND:"@ + se,
            "SUMMARY:"@ + escape_spec(name),
            "END:VEVENT"@,
            "END:VCALENDAR"@,
        ]),
        _ => None,
    }
}

/// The calendar body: the event's window (narrowed to the slot's hours when
/// the scope names a slot), stamped at `now`; `None` when an instant lies
/// outside what chrono can format.
pub open spec fn ics_body_spec(event: EventRow, slot_window: Option<(u128, i64, i64)>, now: i64) -> Option<Seq<char>> {
    let (begin, end, slot) = match slot_window {
        Some((id, b, e)) => (b, e, Some(id)),
        None => (event.date_begin, event.date_end, None::<u128>),
    };
    match ics_lines_spec(event.id, event.name@, slot, begin, end, now) {
        Some(lines) => Some(join_crlf(lines.map_values(|l: Seq<char>| fold_spec(l)))),
        None => None,
    }
}

/// The calendar of a slot-scoped capability spans the slot's hours and
/// names the slot in its UID; an event-wide one spans the event's window.
/// The body is the twelve lines of one VEVENT, in order, each folded and
/// joined by CRLF: the UID, the stamp of `now`, the start and end of the
/// window (start first), and the escaped event name; `None` exactly when
/// one of those three instants cannot be stamped.
pub proof fn lemma_ics_window(event: EventRow, slot_window: Option<(u128, i64, i64)>, now: i64)
    ensures
        ics_body_spec(event, slot_window, now) == ({
            let begin = match slot_window { Some(w) => w.1, None => event.date_begin };
            let end = match slot_window { Some(w) => w.2, None => event.date_end };
            let uid = match slot_window {
                Some(w) => "event-"@ + uuid_text_spec(event.id) + "-slot-"@ + uuid_text_spec(w.0) + "@event.module"@,
                None => "event-"@ + uuid_text_spec(event.id) + "@event.module"@,
            };
            if utc_stamp_spec(now) is Some && utc_stamp_spec(begin) is Some && utc_stamp_spec(end) is Some {
                Some(join_crlf(seq![
                    "BEGIN:VCALENDAR"@,
                    "VERSION:2.0"@,
                    "PRODID:-//backbone-events//core//EN"@,
                    "CALSCALE:GREGORIAN"@,
                    "BEGIN:VEVENT"@,
                    "UID:"@ + uid,
                    "DTSTAMP:"@ + utc_stamp_spec(now)->0,
                    "DTSTART:"@ + utc_stamp_spec(begin)->0,
                    "DTEND:"@ + utc_stamp_spec(end)->0,
                    "SUMMARY:"@ + escape_spec(event.name@),
                    "END:VEVENT"@,
                    "END:VCALENDAR"@,
                ].map_values(|l: Seq<char>| fold_spec(l))))
            } else {
                None
            }
        }),
{
}

/// Builds the calendar body stamped at a given instant.
pub fn build_ics_at(event: &EventRow, slot_window: Option<(u128, i64, i64)>, now: i64) -> (r: Option<String>)
    ensures
        match ics_body_spec(*event, slot_window, now) {
            Some(b) => r.is_some() && r->0@ == b,
            None => r.is_none(),
        },
{
    let (begin, end, slot) = match slot_window {
        Some((id, b, e)) => (b, e, Some(id)),
        None => (event.date_begin, event.date_end, None),
    };
    let st = match utc_stamp(now) { Some(x) => x, None => return None };
    let sb = match utc_stamp(begin) { Some(x) => x, None => return None };
    let se = match utc_stamp(end) { Some(x) => x, None => return None };
    let mut uid: Vec<char> = Vec::new();
    extend_str(&mut uid, "UID:");
    extend_str(&mut uid, "event-");
    let et = uuid_text(event.id);
    extend_str(&mut uid, et.as_str());
    match slot {
        Some(s) => {
            extend_str(&mut uid, "-slot-");
            let stx = uuid_text(s);
            extend_str(&mut uid, stx.as_str());
        },
        None => {},
    }
    extend_str(&mut uid, "@event.module");
    let mut l_stamp: Vec<char> = Vec::new();
    extend_str(&mut l_stamp, "DTSTAMP:");
    extend_str(&mut l_stamp, st.as_str());
    let mut l_start: Vec<char> = Vec::new();
    extend_str(&mut l_start, "DTSTART:");
    extend_str(&mut l_start, sb.as_str());
    let mut l_end: Vec<char> = Vec::new();
    extend_str(&mut l_end, "DTEND:");
    extend_str(&mut l_end, se.as_str());
    let mut l_sum: Vec<char> = Vec::new();
    extend_str(&mut l_sum, "SUMMARY:");
    let esc = escape_chars(event.name.as_str());
    extend_chars(&mut l_sum, &esc);
    let ghost lines = ics_lines_spec(event.id, event.name@, slot, begin, end, now)->0;
    proof {
        assert(uid@ =~= "UID:"@ + uid_spec(event.id, slot));
        assert(l_stamp@ =~= lines[6]);
        assert(l_start@ =~= lines[7]);
        assert(l_end@ =~= lines[8]);
        assert(l_sum@ =~= lines[9]);
    }
    let mut all: Vec<Vec<char>> = Vec::new();
    all.push(chars_of("BEGIN:VCALENDAR"));
    all.push(chars_of("VERSION:2.0"));
    all.push(chars_of("PRODID:-//backbone-events//core//EN"));
    all.push(chars_of("CALSCALE:GREGORIAN"));
    all.push(chars_of("BEGIN:VEVENT"));
    all.push(uid);
    all.push(l_stamp);
    all.push(l_start);
    all.push(l_end);
    all.push(l_sum);
    all.push(chars_of("END:VEVENT"));
    all.push(chars_of("END:VCALENDAR"));
    let ghost folded = lines.map_values(|l: Seq<char>| fold_spec(l));
    assert(all@.len() == 12);
    assert(forall|k: int| 0 <= k < 12 ==> #[trigger] all@[k]@ == lines[k]);
    let mut body: Vec<char> = Vec::new();
    let mut k: usize = 0;
    while k < all.len()
        invariant
            k <= all.len(),
            all@.len() == 12,
            lines.len() == 12,
            folded == lines.map_values(|l: Seq<char>| fold_spec(l)),
            forall|j: int| 0 <= j < 12 ==> #[trigger] all@[j]@ == lines[j],
            body@ == join_crlf(folded.take(k as int)),
        decreases all.len() - k,
    {
        let line = string_of(&all[k]);
        let f = fold_chars_of(line.as_str());
        if k > 0 {
            body.push('\r');
            body.push('\n');
        }
        extend_chars(&mut body, &f);
        proof {
            assert(folded.take(k + 1).drop_last() =~= folded.take(k as int));
            assert(folded[k as int] == fold_spec(lines[k as int]));
            if k == 0 {
                assert(join_crlf(folded.take(1)) == folded[0]);
            }
        }
        k = k + 1;
    }
    assert(folded.take(12) =~= folded);
    Some(string_of(&body))
}

/// Builds the calendar body stamped now; whatever instant the clock gives,
/// the body is `ics_body_spec` at that instant.
pub fn build_ics(event: &EventRow, slot_window: Option<(u128, i64, i64)>) -> (r: Option<String>)
    ensures
        exists|now: i64| match #[trigger] ics_body_spec(*event, slot_window, now) {
            Some(b) => r.is_some() && r->0@ == b,
            None => r.is_none(),
        },
{
    let now = now_micros();
    build_ics_at(event, slot_window, now)
}


/// Escapes one TEXT property value: backslash, semicolon and comma gain a
/// backslash, a newline becomes `\n`.
pub fn ics_escape(raw: &str) -> (r: String)
    ensures
        r@ == escape_spec(raw@),
{
    string_of(&escape_chars(raw))
}

/// Folds one content line: a line of at most 75 octets is kept; a longer one
/// is cut by UTF-8 octets, never inside a character, so that each physical
/// line (the continuation's leading space included) holds at most 75 octets.
pub fn ics_fold(line: &str) -> (r: String)
    ensures
        r@ == fold_spec(line@),
{
    string_of(&fold_chars_of(line))
}

/// The calendar feed of a capability: its event, its slot, and the body.
#[derive(Debug, Clone)]
pub struct IcsFeed {
    pub event_id: u128,
    pub slot_id: Option<u128>,
    pub body: String,
}

/// The feed of a published event over the capability's pinned event and
/// resolved slot window, stamped at `now`; `None` when an instant lies
/// outside what chrono can format.
pub fn ics_feed_at(event_id: u128, event: &EventRow, slot_window: Option<(u128, i64, i64)>, now: i64) -> (r: Option<IcsFeed>)
    ensures
        match ics_body_spec(*event, slot_window, now) {
            Some(b) => r.is_some() && r->0.event_id == event_id && r->0.body@ == b && r->0.slot_id == match slot_window {
                Some(w) => Some(w.0),
                None => None::<u128>,
            },
            None => r.is_none(),
        },
{
    let slot_id = match slot_window {
        Some((id, _, _)) => Some(id),
        None => None,
    };
    match build_ics_at(event, slot_window, now) {
        Some(body) => Some(IcsFeed { event_id, slot_id, body }),
        None => None,
    }
}

} // verus!
