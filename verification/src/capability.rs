//! Capability tokens: HMAC-SHA256 over a domain-separated message,
//! base64url-encoded, compared in constant time.
//!
//! Token shape: `v1.<payload-b64url>.<sig-b64url>` where the payload is the
//! compact JSON of the claims and the signature is
//! HMAC-SHA256(secret, "event-capability-v1\n" + purpose + "\n" + payload-b64url).
//! Every malformed arm is the same uniform refusal (`EventNotPublished`).
//! The JSON encoding of the claims is done by the caller; this module frames,
//! signs and checks bytes, and judges the decoded claims.

use vstd::prelude::*;
use vstd::utf8::encode_utf8;
use crate::b64::{encode_chars, decode_chars, encode_spec, decode_spec, lemma_round_trip, lemma_encoding_shape};
use crate::error::EventError;
use crate::ids::{uuid_text, uuid_text_spec, uuid_parse, uuid_parse_spec};
use crate::text::{chars_of, string_of, extend_chars, extend_str, same_chars, same_text, sort_texts,
    texts_sorted, rows_view, seq_le, seq_lt, lemma_seq_lt_asym, lemma_seq_lt_trans, lemma_seq_lt_total};

verus! {

/// The /ics capability purpose (expiry + rotation).
pub const PURPOSE_ICS: &'static str = "event-ics-access";

/// The my-tickets capability purpose (never expires).
pub const PURPOSE_TICKET_REPORT: &'static str = "event-registration-ticket-report-access";

/// The domain-separation label (first arm of every MAC message).
pub const CAPABILITY_CONTEXT: &'static str = "event-capability-v1";

/// The env var holding the module's capability secret.
pub const EVENT_CAPABILITY_SECRET_ENV: &'static str = "EVENT_CAPABILITY_SECRET";

/// Default /ics token lifetime (rotation cadence): 24h.
pub const ICS_TOKEN_TTL_SECS: i64 = 86400;

/// HMAC-SHA256 of a message under a key.
pub uninterp spec fn hmac_sha256_spec(key: Seq<u8>, msg: Seq<u8>) -> Seq<u8>;

/// `hmac::Hmac::<sha2::Sha256>::new_from_slice(key)`, `update(msg)`,
/// `finalize()`. Claimed: the tag is `hmac_sha256_spec(key, msg)` and is 32
/// bytes long (SHA-256's output size). `new_from_slice` accepts keys of any
/// length for HMAC (longer keys are hashed), so the call always yields a tag.
#[verifier::external_body]
fn hmac_sha256(key: &[u8], msg: &[u8]) -> (r: Option<Vec<u8>>)
    ensures
        r.is_some(),
        r->0@ == hmac_sha256_spec(key@, msg@),
        r->0@.len() == 32,
{
    match <hmac::Hmac<sha2::Sha256> as hmac::Mac>::new_from_slice(key) {
        Ok(mut mac) => {
            hmac::Mac::update(&mut mac, msg);
            Some(hmac::Mac::finalize(mac).into_bytes().to_vec())
        },
        Err(_) => None,
    }
}

/// `subtle::ConstantTimeEq::ct_eq` on byte slices, read with `unwrap_u8`.
/// Claimed: 1 exactly when the slices are equal, 0 otherwise (the slice impl
/// returns 0 on a length mismatch and compares every byte otherwise).
#[verifier::external_body]
fn ct_eq_bytes(a: &[u8], b: &[u8]) -> (r: u8)
    ensures
        r == 0 || r == 1,
        (r == 1) == (a@ == b@),
{
    subtle::ConstantTimeEq::ct_eq(a, b).unwrap_u8()
}

/// The message a capability signature covers.
pub open spec fn mac_message(purpose: Seq<char>, payload_b64: Seq<char>) -> Seq<char> {
    "event-capability-v1"@ + "\n"@ + purpose + "\n"@ + payload_b64
}

/// The signature of a payload segment under a secret and purpose.
pub open spec fn signature_spec(secret: Seq<char>, purpose: Seq<char>, payload_b64: Seq<char>) -> Seq<u8> {
    hmac_sha256_spec(encode_utf8(secret), encode_utf8(mac_message(purpose, payload_b64)))
}

/// Signs a payload segment; refuses an empty secret (fail-closed).
pub fn sign(secret: &str, purpose: &str, payload_b64: &str) -> (r: Result<Vec<u8>, EventError>)
    ensures
        secret@.len() == 0 ==> r == Err::<Vec<u8>, EventError>(EventError::EventCapabilitySecretNotConfigured),
        secret@.len() > 0 ==> r.is_ok() && r->Ok_0@ == signature_spec(secret@, purpose@, payload_b64@),
        secret@.len() > 0 ==> signature_spec(secret@, purpose@, payload_b64@).len() == 32,
{
    let sc = chars_of(secret);
    if sc.len() == 0 {
        return Err(EventError::EventCapabilitySecretNotConfigured);
    }
    let mut msg: Vec<char> = Vec::new();
    extend_str(&mut msg, CAPABILITY_CONTEXT);
    extend_str(&mut msg, "\n");
    extend_str(&mut msg, purpose);
    extend_str(&mut msg, "\n");
    extend_str(&mut msg, payload_b64);
    let m = string_of(&msg);
    assert(m@ =~= mac_message(purpose@, payload_b64@));
    let tag = hmac_sha256(secret.as_bytes(), m.as_str().as_bytes());
    match tag {
        Some(t) => Ok(t),
        None => Err(EventError::Internal(string_of(&chars_of("capability secret rejected by HMAC")))),
    }
}

/// The token for a payload and its signature.
pub open spec fn token_spec(payload: Seq<u8>, sig: Seq<u8>) -> Seq<char> {
    "v1."@ + encode_spec(payload) + "."@ + encode_spec(sig)
}

/// The index of the first `.` (the length when there is none).
pub open spec fn dot_index(s: Seq<char>) -> int
    decreases s.len(),
{
    if s.len() == 0 {
        0
    } else if s[0] == '.' {
        0
    } else {
        1 + dot_index(s.drop_first())
    }
}

/// `splitn(3, '.')` of a token: version, payload segment and signature
/// segment, missing pieces empty.
pub open spec fn split_token(t: Seq<char>) -> (Seq<char>, Seq<char>, Seq<char>) {
    let i = dot_index(t);
    if i >= t.len() {
        (t, Seq::empty(), Seq::empty())
    } else {
        let rest = t.subrange(i + 1, t.len() as int);
        let j = dot_index(rest);
        if j >= rest.len() {
            (t.subrange(0, i), rest, Seq::empty())
        } else {
            (t.subrange(0, i), rest.subrange(0, j), rest.subrange(j + 1, rest.len() as int))
        }
    }
}

/// What verifying a token's envelope yields: the payload bytes, or the
/// refusal.
pub open spec fn envelope_spec(secret: Seq<char>, purpose: Seq<char>, token: Seq<char>) -> Result<Seq<u8>, EventError> {
    if secret.len() == 0 {
        Err(EventError::EventCapabilitySecretNotConfigured)
    } else {
        let (v, p, s) = split_token(token);
        if v != "v1"@ || p.len() == 0 || s.len() == 0 {
            Err(EventError::EventNotPublished)
        } else {
            let expected = signature_spec(secret, purpose, p);
            match decode_spec(s) {
                None => Err(EventError::EventNotPublished),
                Some(given) => if expected.len() != given.len() || expected != given {
                    Err(EventError::EventNotPublished)
                } else {
                    match decode_spec(p) {
                        None => Err(EventError::EventNotPublished),
                        Some(payload) => Ok(payload),
                    }
                },
            }
        }
    }
}

proof fn lemma_dot_index_bounds(s: Seq<char>)
    ensures
        0 <= dot_index(s) <= s.len(),
        dot_index(s) < s.len() ==> s[dot_index(s)] == '.',
        forall|k: int| 0 <= k < dot_index(s) ==> s[k] != '.',
    decreases s.len(),
{
    if s.len() > 0 && s[0] != '.' {
        lemma_dot_index_bounds(s.drop_first());
        assert forall|k: int| 0 <= k < dot_index(s) implies s[k] != '.' by {
            if k > 0 {
                assert(s[k] == s.drop_first()[k - 1]);
            }
        }
    }
}

proof fn lemma_dot_index_of_prefix(a: Seq<char>, b: Seq<char>)
    requires
        !a.contains('.'),
    ensures
        dot_index(a + b) == a.len() + dot_index(b),
    decreases a.len(),
{
    if a.len() > 0 {
        assert(a[0] != '.') by {
            if a[0] == '.' {
                assert(a.contains('.'));
            }
        }
        let t = a.drop_first();
        assert(!t.contains('.')) by {
            if t.contains('.') {
                let k = choose|k: int| 0 <= k < t.len() && t[k] == '.';
                assert(a[k + 1] == '.');
            }
        }
        lemma_dot_index_of_prefix(t, b);
        assert((a + b).drop_first() =~= t + b);
    } else {
        assert(a + b =~= b);
    }
}

/// Finds the first `.` at or after `from`.
fn find_dot(t: &Vec<char>, from: usize) -> (r: usize)
    requires
        from <= t.len(),
    ensures
        r == from + dot_index(t@.subrange(from as int, t@.len() as int)),
        from <= r <= t.len(),
{
    let mut i: usize = from;
    proof {
        lemma_dot_index_bounds(t@.subrange(from as int, t@.len() as int));
    }
    while i < t.len() && t[i] != '.'
        invariant
            from <= i <= t.len(),
            forall|k: int| from <= k < i ==> t@[k] != '.',
        decreases t.len() - i,
    {
        i = i + 1;
    }
    proof {
        let s = t@.subrange(from as int, t@.len() as int);
        let d = dot_index(s);
        lemma_dot_index_bounds(s);
        if d < i - from {
            assert(s[d] == t@[from + d]);
        }
        if d > i - from {
            assert(s[i - from] == t@[i as int]);
        }
    }
    i
}

/// Copies `t[from..to]`.
fn slice_chars(t: &Vec<char>, from: usize, to: usize) -> (r: Vec<char>)
    requires
        from <= to <= t.len(),
    ensures
        r@ == t@.subrange(from as int, to as int),
{
    let mut out: Vec<char> = Vec::new();
    let mut i: usize = from;
    while i < to
        invariant
            from <= i <= to <= t.len(),
            out@ == t@.subrange(from as int, i as int),
        decreases to - i,
    {
        out.push(t[i]);
        assert(t@.subrange(from as int, i + 1) =~= t@.subrange(from as int, i as int).push(t@[i as int]));
        i = i + 1;
    }
    out
}

/// Splits a token into its three segments.
fn split_token_exec(t: &Vec<char>) -> (r: (Vec<char>, Vec<char>, Vec<char>))
    ensures
        (r.0@, r.1@, r.2@) == split_token(t@),
{
    let i = find_dot(t, 0);
    assert(t@.subrange(0, t@.len() as int) =~= t@);
    if i >= t.len() {
        let v = slice_chars(t, 0, t.len());
        assert(v@ =~= t@);
        return (v, Vec::new(), Vec::new());
    }
    let v = slice_chars(t, 0, i);
    let j = find_dot(t, i + 1);
    let ghost rest = t@.subrange(i + 1, t@.len() as int);
    if j >= t.len() {
        let p = slice_chars(t, i + 1, t.len());
        (v, p, Vec::new())
    } else {
        let p = slice_chars(t, i + 1, j);
        let s = slice_chars(t, j + 1, t.len());
        assert(p@ =~= rest.subrange(0, j - (i + 1)));
        assert(s@ =~= rest.subrange(j - (i + 1) + 1, rest.len() as int));
        (v, p, s)
    }
}

/// The decoded claims of a token (the caller parses the payload's JSON).
#[derive(Debug, Clone)]
pub struct CapabilityClaims {
    pub purpose: String,
    /// Unix seconds; `0` never expires.
    pub exp: i64,
    /// The purpose-scoped scope: the event id first, then the slot id (ics)
    /// or the sorted registration ids (ticket report).
    pub data: Vec<String>,
}

/// The character views of a list of strings.
pub open spec fn texts_view(v: Seq<String>) -> Seq<Seq<char>> {
    v.map_values(|s: String| s@)
}

impl CapabilityClaims {
    /// Frames and signs a payload (the compact JSON of these claims) into a
    /// token; refuses an empty secret.
    pub fn mint(&self, secret: &str, payload: &[u8]) -> (r: Result<String, EventError>)
        ensures
            secret@.len() == 0 ==> r == Err::<String, EventError>(EventError::EventCapabilitySecretNotConfigured),
            secret@.len() > 0 ==> r.is_ok() && r->Ok_0@ == token_spec(
                payload@,
                signature_spec(secret@, self.purpose@, encode_spec(payload@)),
            ),
            secret@.len() > 0 ==> signature_spec(secret@, self.purpose@, encode_spec(payload@)).len() == 32,
    {
        let payload_b64 = encode_chars(payload);
        let pb = string_of(&payload_b64);
        let sig = sign(secret, self.purpose.as_str(), pb.as_str());
        match sig {
            Err(e) => Err(e),
            Ok(sig) => {
                let sig_b64 = encode_chars(sig.as_slice());
                let mut out: Vec<char> = Vec::new();
                extend_str(&mut out, "v1.");
                extend_chars(&mut out, &payload_b64);
                extend_str(&mut out, ".");
                extend_chars(&mut out, &sig_b64);
                Ok(string_of(&out))
            },
        }
    }

    /// Checks a token's version, signature (constant time) and encoding,
    /// and returns the payload bytes (the claims' JSON) for the caller to
    /// parse. Every malformed arm is the uniform `EventNotPublished`.
    pub fn verify_envelope(secret: &str, expected_purpose: &str, token: &str) -> (r: Result<Vec<u8>, EventError>)
        ensures
            match envelope_spec(secret@, expected_purpose@, token@) {
                Ok(p) => r.is_ok() && r->Ok_0@ == p,
                Err(e) => r == Err::<Vec<u8>, EventError>(e),
            },
    {
        let sc = chars_of(secret);
        if sc.len() == 0 {
            return Err(EventError::EventCapabilitySecretNotConfigured);
        }
        let t = chars_of(token);
        let (v, p, s) = split_token_exec(&t);
        let v1 = chars_of("v1");
        if !same_chars(&v, &v1) || p.len() == 0 || s.len() == 0 {
            return Err(EventError::EventNotPublished);
        }
        let ps = string_of(&p);
        let expected = match sign(secret, expected_purpose, ps.as_str()) {
            Ok(x) => x,
            Err(e) => return Err(e),
        };
        let given = match decode_chars(&s) {
            Some(g) => g,
            None => return Err(EventError::EventNotPublished),
        };
        if expected.len() != given.len() || ct_eq_bytes(expected.as_slice(), given.as_slice()) == 0 {
            return Err(EventError::EventNotPublished);
        }
        match decode_chars(&p) {
            Some(payload) => Ok(payload),
            None => Err(EventError::EventNotPublished),
        }
    }

    /// Judges decoded claims: the purpose must match, and a non-zero `exp`
    /// must lie strictly after `now_secs`. `parsed` is `None` when the payload
    /// did not parse as claims (the uniform refusal).
    pub fn accept(parsed: Option<CapabilityClaims>, expected_purpose: &str, now_secs: i64) -> (r: Result<CapabilityClaims, EventError>)
        ensures
            match parsed {
                None => r == Err::<CapabilityClaims, EventError>(EventError::EventNotPublished),
                Some(c) => if c.purpose@ != expected_purpose@ || (c.exp != 0 && now_secs >= c.exp) {
                    r == Err::<CapabilityClaims, EventError>(EventError::EventNotPublished)
                } else {
                    r == Ok::<CapabilityClaims, EventError>(c)
                },
            },
    {
        match parsed {
            None => Err(EventError::EventNotPublished),
            Some(c) => {
                if !same_text(c.purpose.as_str(), expected_purpose) {
                    return Err(EventError::EventNotPublished);
                }
                if c.exp != 0 && now_secs >= c.exp {
                    return Err(EventError::EventNotPublished);
                }
                Ok(c)
            },
        }
    }
}

/// The ids' canonical texts.
pub open spec fn id_texts(ids: Seq<u128>) -> Seq<Seq<char>> {
    ids.map_values(|id: u128| uuid_text_spec(id))
}

/// The claims of an /ics capability: one event, optionally one slot, expiring
/// `ttl_secs` after `now_secs`.
pub fn ics_capability_claims(event_id: u128, slot_id: Option<u128>, now_secs: i64, ttl_secs: i64) -> (r: CapabilityClaims)
    requires
        i64::MIN <= now_secs + ttl_secs <= i64::MAX,
    ensures
        r.purpose@ == PURPOSE_ICS@,
        r.exp == now_secs + ttl_secs,
        texts_view(r.data@) == match slot_id {
            Some(slot) => seq![uuid_text_spec(event_id), uuid_text_spec(slot)],
            None => seq![uuid_text_spec(event_id)],
        },
{
    let mut data: Vec<String> = Vec::new();
    data.push(uuid_text(event_id));
    match slot_id {
        Some(slot) => {
            data.push(uuid_text(slot));
        },
        None => {},
    }
    assert(texts_view(data@) =~= match slot_id {
        Some(slot) => seq![uuid_text_spec(event_id), uuid_text_spec(slot)],
        None => seq![uuid_text_spec(event_id)],
    });
    CapabilityClaims { purpose: string_of(&chars_of(PURPOSE_ICS)), exp: now_secs + ttl_secs, data }
}

/// The claims of a ticket-report capability: one event plus the registration
/// ids' texts sorted, never expiring (`exp = 0`).
pub fn ticket_report_capability_claims(event_id: u128, registration_ids: &[u128]) -> (r: CapabilityClaims)
    ensures
        r.purpose@ == PURPOSE_TICKET_REPORT@,
        r.exp == 0,
        r.data@.len() == registration_ids@.len() + 1,
        texts_view(r.data@)[0] == uuid_text_spec(event_id),
        texts_sorted(texts_view(r.data@).drop_first()),
        texts_view(r.data@).drop_first().to_multiset() == id_texts(registration_ids@).to_multiset(),
{
    let mut rows: Vec<Vec<char>> = Vec::new();
    let mut i: usize = 0;
    while i < registration_ids.len()
        invariant
            i <= registration_ids.len(),
            rows_view(rows@) == id_texts(registration_ids@.take(i as int)),
        decreases registration_ids.len() - i,
    {
        let t = uuid_text(registration_ids[i]);
        rows.push(chars_of(t.as_str()));
        assert(id_texts(registration_ids@.take(i + 1)) =~= id_texts(registration_ids@.take(i as int)).push(t@));
        assert(rows_view(rows@) =~= rows_view(rows@.drop_last()).push(t@));
        i = i + 1;
    }
    assert(registration_ids@.take(registration_ids.len() as int) =~= registration_ids@);
    let sorted = sort_texts(&rows);
    let mut data: Vec<String> = Vec::new();
    data.push(uuid_text(event_id));
    let mut k: usize = 0;
    while k < sorted.len()
        invariant
            k <= sorted.len(),
            data@.len() == k + 1,
            texts_view(data@)[0] == uuid_text_spec(event_id),
            texts_view(data@).drop_first() == rows_view(sorted@).take(k as int),
        decreases sorted.len() - k,
    {
        let s = string_of(&sorted[k]);
        data.push(s);
        assert(texts_view(data@).drop_first() =~= rows_view(sorted@).take(k + 1));
        k = k + 1;
    }
    assert(rows_view(sorted@).take(sorted.len() as int) =~= rows_view(sorted@));
    CapabilityClaims { purpose: string_of(&chars_of(PURPOSE_TICKET_REPORT)), exp: 0, data }
}

/// Mapping two sequences that hold the same items (as a multiset) gives
/// two sequences that hold the same items.
proof fn lemma_map_multiset<A, B>(s1: Seq<A>, s2: Seq<A>, f: spec_fn(A) -> B)
    requires
        s1.to_multiset() == s2.to_multiset(),
    ensures
        s1.map_values(f).to_multiset() == s2.map_values(f).to_multiset(),
    decreases s1.len(),
{
    broadcast use vstd::seq_lib::group_to_multiset_ensures;
    broadcast use vstd::multiset::group_multiset_axioms;
    if s1.len() == 0 {
        vstd::seq_lib::to_multiset_len(s1);
        vstd::seq_lib::to_multiset_len(s2);
        assert(s2.len() == 0);
        assert(s1.map_values(f) =~= s2.map_values(f));
    } else {
        let x = s1.last();
        let t1 = s1.drop_last();
        assert(s1 =~= t1.push(x));
        assert(s1.to_multiset().count(x) > 0);
        assert(s2.to_multiset().count(x) > 0);
        assert(s2.contains(x));
        let j = choose|j: int| 0 <= j < s2.len() && s2[j] == x;
        let t2 = s2.remove(j);
        assert(t2.to_multiset() == s2.to_multiset().remove(x));
        assert(t1.to_multiset() =~= s1.to_multiset().remove(x));
        lemma_map_multiset(t1, t2, f);
        let m1 = s1.map_values(f);
        let m2 = s2.map_values(f);
        assert(m1 =~= t1.map_values(f).push(f(x)));
        assert(m2.remove(j) =~= t2.map_values(f));
        assert(m2[j] == f(x));
        assert(m2.remove(j).to_multiset() == m2.to_multiset().remove(f(x)));
        assert(m2.to_multiset().count(f(x)) > 0);
        assert(m2.to_multiset() =~= m2.to_multiset().remove(f(x)).insert(f(x)));
        assert(m1.to_multiset() =~= m2.to_multiset());
    }
}

/// Two sorted lists of texts holding the same texts are the same list.
proof fn lemma_sorted_texts_unique(x: Seq<Seq<char>>, y: Seq<Seq<char>>)
    requires
        texts_sorted(x),
        texts_sorted(y),
        x.to_multiset() == y.to_multiset(),
    ensures
        x == y,
{
    let leq = |a: Seq<char>, b: Seq<char>| seq_le(a, b);
    assert forall|a: Seq<char>, b: Seq<char>| #[trigger] leq(a, b) && leq(b, a) implies a == b by {
        lemma_seq_lt_asym(a, b);
    }
    assert forall|a: Seq<char>, b: Seq<char>, c: Seq<char>| #[trigger] leq(a, b) && #[trigger] leq(b, c) implies leq(a, c) by {
        if seq_lt(a, b) && seq_lt(b, c) {
            lemma_seq_lt_trans(a, b, c);
        }
    }
    assert forall|a: Seq<char>, b: Seq<char>| #[trigger] leq(a, b) || leq(b, a) by {
        lemma_seq_lt_total(a, b);
    }
    assert forall|a: Seq<char>| #[trigger] leq(a, a) by {}
    assert(vstd::relations::total_ordering(leq));
    assert(vstd::relations::sorted_by(x, leq));
    assert(vstd::relations::sorted_by(y, leq));
    vstd::seq_lib::lemma_sorted_unique(x, y, leq);
}

/// The ticket-report claims do not depend on the order of the registration
/// ids: for two id lists holding the same ids (as a multiset), any two data
/// lists meeting `ticket_report_capability_claims`'s contract (the event
/// text, then the sorted id texts) are the same list.
pub proof fn lemma_ticket_claims_order_free(event_id: u128, ids1: Seq<u128>, ids2: Seq<u128>, d1: Seq<Seq<char>>, d2: Seq<Seq<char>>)
    requires
        ids1.to_multiset() == ids2.to_multiset(),
        d1.len() == ids1.len() + 1,
        d2.len() == ids2.len() + 1,
        d1[0] == uuid_text_spec(event_id),
        d2[0] == uuid_text_spec(event_id),
        texts_sorted(d1.drop_first()),
        texts_sorted(d2.drop_first()),
        d1.drop_first().to_multiset() == id_texts(ids1).to_multiset(),
        d2.drop_first().to_multiset() == id_texts(ids2).to_multiset(),
    ensures
        d1 == d2,
{
    lemma_map_multiset(ids1, ids2, |id: u128| uuid_text_spec(id));
    assert(id_texts(ids1) == ids1.map_values(|id: u128| uuid_text_spec(id)));
    lemma_sorted_texts_unique(d1.drop_first(), d2.drop_first());
    assert(d1 =~= seq![d1[0]] + d1.drop_first());
    assert(d2 =~= seq![d2[0]] + d2.drop_first());
}

/// The ids among texts that parse, in order (`filter_map(parse)`).
pub open spec fn parsed_ids(texts: Seq<Seq<char>>) -> Seq<u128>
    decreases texts.len(),
{
    if texts.len() == 0 {
        Seq::empty()
    } else {
        let head = match uuid_parse_spec(texts[0]) {
            Some(id) => seq![id],
            None => Seq::empty(),
        };
        head + parsed_ids(texts.drop_first())
    }
}

impl CapabilityClaims {
    /// The pinned event: the first data arm as an id, else the uniform
    /// refusal.
    pub open spec fn event_spec(self) -> Result<u128, EventError> {
        if self.data@.len() == 0 {
            Err(EventError::EventNotPublished)
        } else {
            match uuid_parse_spec(self.data@[0]@) {
                Some(id) => Ok(id),
                None => Err(EventError::EventNotPublished),
            }
        }
    }

    /// The pinned event id.
    pub fn pinned_event(&self) -> (r: Result<u128, EventError>)
        ensures
            r == self.event_spec(),
    {
        if self.data.len() == 0 {
            return Err(EventError::EventNotPublished);
        }
        match uuid_parse(self.data[0].as_str()) {
            Some(id) => Ok(id),
            None => Err(EventError::EventNotPublished),
        }
    }

    /// The /ics slot scope: no second arm is no scope; a second arm that
    /// does not parse is the uniform refusal.
    pub fn pinned_slot(&self) -> (r: Result<Option<u128>, EventError>)
        ensures
            self.data@.len() < 2 ==> r == Ok::<Option<u128>, EventError>(None),
            self.data@.len() >= 2 ==> r == match uuid_parse_spec(self.data@[1]@) {
                Some(id) => Ok::<Option<u128>, EventError>(Some(id)),
                None => Err(EventError::EventNotPublished),
            },
    {
        if self.data.len() < 2 {
            return Ok(None);
        }
        match uuid_parse(self.data[1].as_str()) {
            Some(id) => Ok(Some(id)),
            None => Err(EventError::EventNotPublished),
        }
    }

    /// The pinned registration ids: every data arm after the first that
    /// parses, in order (unparseable arms are skipped).
    pub fn pinned_registrations(&self) -> (r: Vec<u128>)
        ensures
            self.data@.len() == 0 ==> r@.len() == 0,
            self.data@.len() > 0 ==> r@ == parsed_ids(texts_view(self.data@).drop_first()),
    {
        let mut acc: Vec<u128> = Vec::new();
        let n = self.data.len();
        if n == 0 {
            return acc;
        }
        let ghost tv = texts_view(self.data@);
        let ghost all = tv.drop_first();
        let mut k: usize = 1;
        assert(all.subrange(0, all.len() as int) =~= all);
        assert(acc@ + parsed_ids(all) =~= parsed_ids(all));
        while k < n
            invariant
                1 <= k <= n,
                n == self.data@.len(),
                tv == texts_view(self.data@),
                all == tv.drop_first(),
                all.len() == n - 1,
                parsed_ids(all) == acc@ + parsed_ids(all.subrange(k - 1, all.len() as int)),
            decreases n - k,
        {
            let ghost sub = all.subrange(k - 1, all.len() as int);
            assert(sub[0] == self.data@[k as int]@);
            assert(sub.drop_first() =~= all.subrange(k as int, all.len() as int));
            match uuid_parse(self.data[k].as_str()) {
                Some(id) => {
                    acc.push(id);
                    assert(acc@ + parsed_ids(sub.drop_first()) =~= acc@.drop_last() + (seq![id] + parsed_ids(sub.drop_first())));
                },
                None => {
                    assert(Seq::<u128>::empty() + parsed_ids(sub.drop_first()) =~= parsed_ids(sub.drop_first()));
                },
            }
            k = k + 1;
        }
        proof {
            let last = all.subrange(n - 1, all.len() as int);
            assert(last.len() == 0);
            assert(acc@ + parsed_ids(last) =~= acc@);
        }
        acc
    }
}

/// The envelope check only ever accepts what the secret signed: an empty
/// secret refuses every token as not configured, and a token that is
/// accepted is `v1.` then a payload segment without a `.`, then `.` and a
/// segment that decodes to the HMAC of that payload segment under the
/// secret and the expected purpose; what comes back is the decoding of the
/// payload segment.
pub proof fn lemma_envelope_accepts_only_signed(secret: Seq<char>, purpose: Seq<char>, token: Seq<char>)
    ensures
        secret.len() == 0 ==> envelope_spec(secret, purpose, token)
            == Err::<Seq<u8>, EventError>(EventError::EventCapabilitySecretNotConfigured),
        envelope_spec(secret, purpose, token) matches Ok(x) ==> exists|p: Seq<char>, s: Seq<char>| {
            &&& #[trigger] ("v1."@ + p + "."@ + s) == token
            &&& p.len() > 0
            &&& !p.contains('.')
            &&& decode_spec(s) == Some(signature_spec(secret, purpose, p))
            &&& decode_spec(p) == Some(x)
        },
{
    if envelope_spec(secret, purpose, token) is Ok {
        let i = dot_index(token);
        lemma_dot_index_bounds(token);
        let rest = token.subrange(i + 1, token.len() as int);
        lemma_dot_index_bounds(rest);
        let j = dot_index(rest);
        let v = token.subrange(0, i);
        let p = rest.subrange(0, j);
        let s = rest.subrange(j + 1, rest.len() as int);
        assert(i < token.len());
        assert(j < rest.len());
        assert(v == "v1"@);
        reveal_strlit("v1.");
        reveal_strlit("v1");
        reveal_strlit(".");
        assert(token =~= v + "."@ + p + "."@ + s) by {
            assert(token[i] == '.');
            assert(rest[j] == '.');
            assert(token =~= token.subrange(0, i) + seq![token[i]] + rest);
            assert(rest =~= p + seq![rest[j]] + s);
        }
        assert("v1."@ =~= v + "."@);
        assert(("v1."@ + p + "."@ + s) =~= token);
        assert(!p.contains('.')) by {
            if p.contains('.') {
                let k = choose|k: int| 0 <= k < p.len() && p[k] == '.';
                assert(rest[k] == '.');
            }
        }
    }
}

/// A token minted under a non-empty secret for a non-empty payload passes
/// the envelope check under the same secret and purpose, and yields the
/// payload back. (`mint` guarantees the signature is 32 bytes long.)
pub proof fn lemma_minted_token_verifies(secret: Seq<char>, purpose: Seq<char>, payload: Seq<u8>)
    requires
        secret.len() > 0,
        payload.len() > 0,
        signature_spec(secret, purpose, encode_spec(payload)).len() == 32,
    ensures
        envelope_spec(
            secret,
            purpose,
            token_spec(payload, signature_spec(secret, purpose, encode_spec(payload))),
        ) == Ok::<Seq<u8>, EventError>(payload),
{
    let p = encode_spec(payload);
    let sig = signature_spec(secret, purpose, p);
    let s = encode_spec(sig);
    let t = token_spec(payload, sig);
    reveal_strlit("v1.");
    reveal_strlit("v1");
    reveal_strlit(".");
    lemma_encoding_shape(payload);
    lemma_encoding_shape(sig);
    lemma_round_trip(payload);
    lemma_round_trip(sig);
    let v1 = "v1"@;
    assert(!v1.contains('.')) by {
        if v1.contains('.') {
            let k = choose|k: int| 0 <= k < v1.len() && v1[k] == '.';
            assert(k == 0 || k == 1);
        }
    }
    let tail = "."@ + p + "."@ + s;
    assert(t =~= v1 + tail);
    lemma_dot_index_of_prefix(v1, tail);
    assert(tail[0] == '.');
    assert(dot_index(tail) == 0);
    let rest = t.subrange(3, t.len() as int);
    assert(rest =~= p + ("."@ + s));
    lemma_dot_index_of_prefix(p, "."@ + s);
    assert(("."@ + s)[0] == '.');
    assert(dot_index(rest) == p.len());
    assert(t.subrange(0, 2) =~= v1);
    assert(rest.subrange(0, p.len() as int) =~= p);
    assert(rest.subrange(p.len() as int + 1, rest.len() as int) =~= s);
}

} // verus!
