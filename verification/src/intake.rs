//! The guarded intake: fixed-window throttles (per identity and per IP),
//! the caller-address posture, and the command handed to the one register
//! verb.

use vstd::prelude::*;
use crate::error::EventError;
use crate::ids::system_unix_secs;
use crate::rows::RegisterCommand;
use crate::text::{chars_of, string_of, extend_str, extend_chars, same_text, same_chars, trim_chars, trim_spec,
    ascii_lower_chars, ascii_lower_seq, to_lowercase, unicode_lowercase};

verus! {

/// The env var declaring whether intake traffic arrives through a trusted
/// reverse proxy.
pub const EVENT_TRUSTED_PROXY_ENV: &'static str = "EVENT_TRUSTED_PROXY";

/// /ics throttle defaults (max hits, window seconds), per token and per IP.
pub const ICS_THROTTLE: (u64, u64) = (30, 60);

/// One throttle bucket: the key, the window start (Unix seconds) and the
/// hits counted in the window.
#[derive(Debug, Clone)]
pub struct WindowEntry {
    pub key: String,
    pub start: u64,
    pub count: u64,
}

/// In-memory fixed-window throttle, per key. A window is measured from the
/// first hit inside it.
#[derive(Debug, Clone)]
pub struct FixedWindows {
    entries: Vec<WindowEntry>,
}

/// The bucket of a key in a list of buckets (the first match).
pub open spec fn lookup(entries: Seq<(Seq<char>, u64, u64)>, key: Seq<char>) -> Option<(u64, u64)>
    decreases entries.len(),
{
    if entries.len() == 0 {
        None
    } else if entries[0].0 == key {
        Some((entries[0].1, entries[0].2))
    } else {
        lookup(entries.drop_first(), key)
    }
}

/// The bucket a hit sees: the stored one while its window is open, else a
/// fresh window starting now.
pub open spec fn current_bucket(stored: Option<(u64, u64)>, now: u64, window_secs: u64) -> (u64, u64) {
    match stored {
        Some((start, count)) => if (if now >= start { now - start } else { 0 }) < window_secs {
            (start, count)
        } else {
            (now, 0)
        },
        None => (now, 0),
    }
}

/// Whether a hit is allowed under the budget, given the bucket it sees.
pub open spec fn hit_allowed(bucket: (u64, u64), max: u64) -> bool {
    bucket.1 < max
}

/// The bucket stored after a hit.
pub open spec fn bucket_after(bucket: (u64, u64), max: u64) -> (u64, u64) {
    if bucket.1 < max {
        (bucket.0, (bucket.1 + 1) as u64)
    } else {
        bucket
    }
}

proof fn lemma_lookup_push(e: Seq<(Seq<char>, u64, u64)>, x: (Seq<char>, u64, u64), k: Seq<char>)
    requires
        lookup(e, x.0).is_none(),
    ensures
        lookup(e.push(x), k) == if k == x.0 { Some((x.1, x.2)) } else { lookup(e, k) },
    decreases e.len(),
{
    if e.len() > 0 {
        assert(e.push(x)[0] == e[0]);
        assert(e.push(x).drop_first() =~= e.drop_first().push(x));
        if e[0].0 != x.0 {
            lemma_lookup_push(e.drop_first(), x, k);
        }
    } else {
        assert(e.push(x)[0] == x);
        assert(e.push(x).drop_first() =~= Seq::<(Seq<char>, u64, u64)>::empty());
        assert(lookup(Seq::<(Seq<char>, u64, u64)>::empty(), k).is_none());
    }
}

proof fn lemma_lookup_update(e: Seq<(Seq<char>, u64, u64)>, i: int, x: (Seq<char>, u64, u64), k: Seq<char>)
    requires
        0 <= i < e.len(),
        e[i].0 == x.0,
        forall|j: int| 0 <= j < i ==> e[j].0 != x.0,
    ensures
        lookup(e.update(i, x), k) == if k == x.0 { Some((x.1, x.2)) } else { lookup(e, k) },
    decreases i,
{
    if i > 0 {
        assert(e.update(i, x)[0] == e[0]);
        assert(e.update(i, x).drop_first() =~= e.drop_first().update(i - 1, x));
        lemma_lookup_update(e.drop_first(), i - 1, x, k);
    } else {
        assert(e.update(0, x)[0] == x);
        assert(e.update(0, x).drop_first() =~= e.drop_first());
    }
}

proof fn lemma_lookup_prefix_miss(e: Seq<(Seq<char>, u64, u64)>, i: int, k: Seq<char>)
    requires
        0 <= i <= e.len(),
        forall|j: int| 0 <= j < i ==> e[j].0 != k,
    ensures
        lookup(e, k) == lookup(e.subrange(i, e.len() as int), k),
    decreases i,
{
    if i > 0 {
        assert(e.drop_first().subrange(i - 1, e.drop_first().len() as int) =~= e.subrange(i, e.len() as int));
        lemma_lookup_prefix_miss(e.drop_first(), i - 1, k);
    } else {
        assert(e.subrange(0, e.len() as int) =~= e);
    }
}

impl FixedWindows {
    /// The buckets, as (key, window start, count).
    pub closed spec fn view_entries(&self) -> Seq<(Seq<char>, u64, u64)> {
        self.entries@.map_values(|w: WindowEntry| (w.key@, w.start, w.count))
    }

    /// The stored bucket of a key.
    pub open spec fn bucket(&self, key: Seq<char>) -> Option<(u64, u64)> {
        lookup(self.view_entries(), key)
    }

    /// No buckets.
    pub fn new() -> (r: Self)
        ensures
            forall|k: Seq<char>| r.bucket(k).is_none(),
    {
        let r = FixedWindows { entries: Vec::new() };
        assert(r.view_entries() =~= Seq::<(Seq<char>, u64, u64)>::empty());
        r
    }

    /// Records a hit at `now` (Unix seconds); returns false when the key is
    /// over budget in its current window. A stale window restarts at `now`.
    pub fn allow_at(&mut self, key: &str, max: u64, window_secs: u64, now: u64) -> (r: bool)
        ensures
            ({
                let b = current_bucket(old(self).bucket(key@), now, window_secs);
                &&& r == hit_allowed(b, max)
                &&& final(self).bucket(key@) == Some(bucket_after(b, max))
                &&& forall|k: Seq<char>| k != key@ ==> final(self).bucket(k) == old(self).bucket(k)
            }),
    {
        let ghost e0 = self.view_entries();
        let mut i: usize = 0;
        while i < self.entries.len() && !same_text(self.entries[i].key.as_str(), key)
            invariant
                i <= self.entries.len(),
                e0 == self.view_entries(),
                e0.len() == self.entries@.len(),
                forall|j: int| 0 <= j < i ==> #[trigger] e0[j].0 != key@,
            decreases self.entries.len() - i,
        {
            assert(e0[i as int].0 == self.entries@[i as int].key@);
            i = i + 1;
        }
        proof {
            lemma_lookup_prefix_miss(e0, i as int, key@);
        }
        if i < self.entries.len() {
            let start0 = self.entries[i].start;
            let count0 = self.entries[i].count;
            proof {
                assert(e0[i as int] == (key@, start0, count0));
                let rest = e0.subrange(i as int, e0.len() as int);
                assert(rest[0] == e0[i as int]);
            }
            let elapsed: u64 = if now >= start0 { now - start0 } else { 0 };
            let (start, count) = if elapsed < window_secs { (start0, count0) } else { (now, 0u64) };
            let allowed = count < max;
            let new_count: u64 = if allowed { count + 1 } else { count };
            let entry = WindowEntry { key: self.entries[i].key.clone(), start, count: new_count };
            self.entries.set(i, entry);
            proof {
                assert(self.view_entries() =~= e0.update(i as int, (key@, start, new_count)));
                assert forall|k: Seq<char>| true implies lookup(self.view_entries(), k) == (if k == key@ { Some((start, new_count)) } else { lookup(e0, k) }) by {
                    lemma_lookup_update(e0, i as int, (key@, start, new_count), k);
                }
            }
            allowed
        } else {
            let allowed = 0 < max;
            let new_count: u64 = if allowed { 1 } else { 0 };
            let entry = WindowEntry { key: string_of(&chars_of(key)), start: now, count: new_count };
            self.entries.push(entry);
            proof {
                assert(e0.subrange(i as int, e0.len() as int).len() == 0);
                assert(self.view_entries() =~= e0.push((key@, now, new_count)));
                assert forall|k: Seq<char>| true implies lookup(self.view_entries(), k) == (if k == key@ { Some((now, new_count)) } else { lookup(e0, k) }) by {
                    lemma_lookup_push(e0, (key@, now, new_count), k);
                }
            }
            allowed
        }
    }

    /// Records a hit now (the system clock); whatever second the clock
    /// reads, the outcome is `allow_at` at that second.
    pub fn allow(&mut self, key: &str, max: u64, window_secs: u64) -> (r: bool)
        ensures
            exists|now: u64| {
                let b = #[trigger] current_bucket(old(self).bucket(key@), now, window_secs);
                &&& r == hit_allowed(b, max)
                &&& final(self).bucket(key@) == Some(bucket_after(b, max))
                &&& forall|k: Seq<char>| k != key@ ==> final(self).bucket(k) == old(self).bucket(k)
            },
    {
        let now = system_unix_secs();
        self.allow_at(key, max, window_secs, now)
    }
}

/// The fixed-window rule of one hit: a key without a bucket, or whose
/// window opened `window_secs` or more seconds ago, starts a fresh window
/// at `now` with no hit counted; a younger window is kept as it is. A hit
/// is allowed exactly while fewer than `max` hits were counted in the
/// window, and an allowed hit counts one more in the same window, while a
/// refused one changes nothing.
pub proof fn lemma_fixed_window_rule(start: u64, count: u64, now: u64, window_secs: u64, max: u64)
    ensures
        current_bucket(None, now, window_secs) == (now, 0u64),
        start <= now && now - start < window_secs ==> current_bucket(Some((start, count)), now, window_secs) == (start, count),
        start <= now && now - start >= window_secs ==> current_bucket(Some((start, count)), now, window_secs) == (now, 0u64),
        hit_allowed((start, count), max) <==> count < max,
        count < max ==> bucket_after((start, count), max) == (start, (count + 1) as u64),
        count >= max ==> bucket_after((start, count), max) == (start, count),
{
}

/// The retry hint of a throttle refusal is the shorter of the two windows
/// (in seconds, as a `u32`), and one second when that window is zero.
pub proof fn lemma_retry_after_rule(t: IntakeThrottles)
    ensures
        t.per_identity_window_secs >= 1 && t.per_identity_window_secs <= t.per_ip_window_secs
            && t.per_identity_window_secs <= u32::MAX ==> retry_after_spec(t) == t.per_identity_window_secs,
        t.per_ip_window_secs >= 1 && t.per_ip_window_secs <= t.per_identity_window_secs
            && t.per_ip_window_secs <= u32::MAX ==> retry_after_spec(t) == t.per_ip_window_secs,
        t.per_identity_window_secs == 0 || t.per_ip_window_secs == 0 ==> retry_after_spec(t) == 1,
{
}

/// The bucket after `k` successive hits that all land inside its open
/// window.
pub open spec fn after_hits(b: (u64, u64), max: u64, k: nat) -> (u64, u64)
    decreases k,
{
    if k == 0 {
        b
    } else {
        bucket_after(after_hits(b, max, (k - 1) as nat), max)
    }
}

/// How many of `k` successive hits inside the bucket's open window are
/// allowed.
pub open spec fn allowed_hits(b: (u64, u64), max: u64, k: nat) -> nat
    decreases k,
{
    if k == 0 {
        0
    } else {
        allowed_hits(b, max, (k - 1) as nat) + if hit_allowed(after_hits(b, max, (k - 1) as nat), max) {
            1nat
        } else {
            0nat
        }
    }
}

/// The budget of a window: of `k` successive hits on a key inside one open
/// window whose bucket has counted `count <= max` hits, exactly
/// `min(k, max - count)` are allowed, the window never moves and the count
/// never passes `max`.
pub proof fn lemma_window_budget(b: (u64, u64), max: u64, k: nat)
    requires
        b.1 <= max,
    ensures
        allowed_hits(b, max, k) == if k <= max - b.1 { k } else { (max - b.1) as nat },
        after_hits(b, max, k).0 == b.0,
        after_hits(b, max, k).1 == b.1 + allowed_hits(b, max, k),
        after_hits(b, max, k).1 <= max,
    decreases k,
{
    if k > 0 {
        lemma_window_budget(b, max, (k - 1) as nat);
    }
}

/// One call of `allow_at` on `key` at `now`, as a relation between the
/// windows before and after and the answer (its contract).
pub open spec fn allow_step(before: FixedWindows, after: FixedWindows, key: Seq<char>, max: u64, window_secs: u64, now: u64, r: bool) -> bool {
    let b = current_bucket(before.bucket(key), now, window_secs);
    &&& r == hit_allowed(b, max)
    &&& after.bucket(key) == Some(bucket_after(b, max))
    &&& forall|k: Seq<char>| k != key ==> after.bucket(k) == before.bucket(k)
}

proof fn lemma_same_second_prefix(states: Seq<FixedWindows>, results: Seq<bool>, key: Seq<char>, max: u64, window_secs: u64, now: u64, j: int)
    requires
        window_secs >= 1,
        states.len() == results.len() + 1,
        current_bucket(states[0].bucket(key), now, window_secs) == (now, 0u64),
        forall|i: int| #![trigger results[i]] 0 <= i < results.len() ==> allow_step(states[i], states[i + 1], key, max, window_secs, now, results[i]),
        0 < j <= results.len(),
    ensures
        states[j].bucket(key) == Some((now, if j <= max { j as u64 } else { max })),
        forall|i: int| 0 <= i < j ==> results[i] == (i + 1 <= max),
    decreases j,
{
    let i = j - 1;
    assert(allow_step(states[i], states[i + 1], key, max, window_secs, now, results[i]));
    if j > 1 {
        lemma_same_second_prefix(states, results, key, max, window_secs, now, j - 1);
    }
}

/// The budget of one second: on a key with no live window (never hit, or
/// its window over), `n` successive hits at the same second with a window of
/// at least one second allow exactly the first `min(n, max)`: the `i`-th hit
/// (from 1) is allowed exactly when `i <= max`, a refused hit is not
/// counted, and the key's count ends at `min(n, max)` in a window starting at
/// that second.
pub proof fn lemma_same_second_hits(states: Seq<FixedWindows>, results: Seq<bool>, key: Seq<char>, max: u64, window_secs: u64, now: u64)
    requires
        window_secs >= 1,
        states.len() == results.len() + 1,
        current_bucket(states[0].bucket(key), now, window_secs) == (now, 0u64),
        forall|i: int| #![trigger results[i]] 0 <= i < results.len() ==> allow_step(states[i], states[i + 1], key, max, window_secs, now, results[i]),
    ensures
        forall|i: int| 0 <= i < results.len() ==> results[i] == (i + 1 <= max),
        results.len() > 0 ==> states.last().bucket(key) == Some((now, if results.len() <= max { results.len() as u64 } else { max })),
{
    if results.len() > 0 {
        lemma_same_second_prefix(states, results, key, max, window_secs, now, results.len() as int);
    }
}

/// The intake throttle policy.
#[derive(Debug, Clone, Copy)]
pub struct IntakeThrottles {
    pub per_identity_max: u64,
    pub per_identity_window_secs: u64,
    pub per_ip_max: u64,
    pub per_ip_window_secs: u64,
}

impl Default for IntakeThrottles {
    /// 5 per identity per hour, 30 per IP per hour.
    fn default() -> (r: Self)
        ensures
            r.per_identity_max == 5,
            r.per_identity_window_secs == 3600,
            r.per_ip_max == 30,
            r.per_ip_window_secs == 3600,
    {
        IntakeThrottles { per_identity_max: 5, per_identity_window_secs: 3600, per_ip_max: 30, per_ip_window_secs: 3600 }
    }
}

/// The identity throttle key of an email.
pub open spec fn identity_key(email: Seq<char>) -> Seq<char> {
    "identity:"@ + unicode_lowercase(email)
}

/// The IP throttle key of an address.
pub open spec fn ip_key(ip: Seq<char>) -> Seq<char> {
    "ip:"@ + ip
}

/// The retry hint of a throttle refusal: the shorter window, at least one
/// second.
pub open spec fn retry_after_spec(t: IntakeThrottles) -> u32 {
    let m = if t.per_identity_window_secs <= t.per_ip_window_secs { t.per_identity_window_secs } else { t.per_ip_window_secs };
    (if m >= 1 { m } else { 1 }) as u32
}

/// One attendee answer (recorded, not read by the register verb).
#[derive(Debug, Clone)]
pub struct IntakeAnswer {
    pub question_id: u128,
    pub value_text: Option<String>,
    pub value_answer_id: Option<u128>,
}

/// The allowlisted intake payload.
#[derive(Debug, Clone)]
pub struct IntakePayload {
    pub name: String,
    pub email: String,
    pub phone: Option<String>,
    pub company_name: Option<String>,
    pub event_slot_id: Option<u128>,
    pub event_ticket_id: Option<u128>,
    pub answers: Vec<IntakeAnswer>,
}

/// The intake executor's guard: the throttle windows and the policy. The
/// register verb it funnels into is composed by the caller.
#[derive(Debug, Clone)]
pub struct IntakeService {
    pub windows: FixedWindows,
    pub throttles: IntakeThrottles,
}

impl IntakeService {
    /// Empty windows under a policy.
    pub fn new(throttles: IntakeThrottles) -> (r: Self)
        ensures
            r.throttles == throttles,
            forall|k: Seq<char>| r.windows.bucket(k).is_none(),
    {
        IntakeService { windows: FixedWindows::new(), throttles }
    }

    /// The throttle gate at `now`, as a relation between the service before
    /// and after the call and its result.
    pub open spec fn gate_outcome(before: Self, after: Self, email: Seq<char>, client_ip: Seq<char>, now: u64, r: Result<(), EventError>) -> bool {
        let t = before.throttles;
        let bi = current_bucket(before.windows.bucket(identity_key(email)), now, t.per_identity_window_secs);
        let id_ok = hit_allowed(bi, t.per_identity_max);
        let w1 = before.windows.bucket(ip_key(client_ip));
        let w1b = if identity_key(email) == ip_key(client_ip) { Some(bucket_after(bi, t.per_identity_max)) } else { w1 };
        let bp = current_bucket(w1b, now, t.per_ip_window_secs);
        let ip_ok = hit_allowed(bp, t.per_ip_max);
        &&& after.windows.bucket(identity_key(email)) == if id_ok && identity_key(email) == ip_key(client_ip) {
            Some(bucket_after(bp, t.per_ip_max))
        } else {
            Some(bucket_after(bi, t.per_identity_max))
        }
        &&& id_ok ==> after.windows.bucket(ip_key(client_ip)) == Some(bucket_after(bp, t.per_ip_max))
        &&& (!id_ok && identity_key(email) != ip_key(client_ip)) ==> after.windows.bucket(ip_key(client_ip)) == w1
        &&& r == if id_ok && ip_ok { Ok::<(), EventError>(()) } else {
            Err(EventError::EventThrottled { retry_after_secs: retry_after_spec(t) })
        }
        &&& after.throttles == before.throttles
    }

    /// The throttle gate at `now`: the identity window first, then (only if
    /// it allowed) the IP window; either refusal is `EventThrottled`.
    pub fn gate_at(&mut self, email: &str, client_ip: &str, now: u64) -> (r: Result<(), EventError>)
        ensures
            Self::gate_outcome(*old(self), *final(self), email@, client_ip@, now, r),
    {
        let lowered = to_lowercase(email);
        let mut k1: Vec<char> = Vec::new();
        extend_str(&mut k1, "identity:");
        extend_str(&mut k1, lowered.as_str());
        let key1 = string_of(&k1);
        let mut k2: Vec<char> = Vec::new();
        extend_str(&mut k2, "ip:");
        extend_str(&mut k2, client_ip);
        let key2 = string_of(&k2);
        let t = self.throttles;
        let ok = if !self.windows.allow_at(key1.as_str(), t.per_identity_max, t.per_identity_window_secs, now) {
            false
        } else {
            self.windows.allow_at(key2.as_str(), t.per_ip_max, t.per_ip_window_secs, now)
        };
        if !ok {
            let m = if t.per_identity_window_secs <= t.per_ip_window_secs { t.per_identity_window_secs } else { t.per_ip_window_secs };
            let m1 = if m >= 1 { m } else { 1 };
            return Err(EventError::EventThrottled { retry_after_secs: m1 as u32 });
        }
        Ok(())
    }

    /// The throttle gate now (the system clock).
    pub fn gate(&mut self, email: &str, client_ip: &str) -> (r: Result<(), EventError>)
        ensures
            exists|now: u64| #[trigger] Self::gate_outcome(*old(self), *final(self), email@, client_ip@, now, r),
    {
        let now = system_unix_secs();
        self.gate_at(email, client_ip, now)
    }
}

/// The register command an intake funnels into: the payload's identity and
/// slot/ticket ids, no party, no officer, the lead queue armed.
pub fn intake_command(event_id: u128, payload: IntakePayload) -> (r: RegisterCommand)
    ensures
        r.event_id == event_id,
        r.event_slot_id == payload.event_slot_id,
        r.event_ticket_id == payload.event_ticket_id,
        r.name == payload.name,
        r.email == payload.email,
        r.phone == payload.phone,
        r.company_name == payload.company_name,
        r.partner_id.is_none(),
        r.actor.is_none(),
        !r.lead_rule_skip,
{
    RegisterCommand {
        event_id,
        event_slot_id: payload.event_slot_id,
        event_ticket_id: payload.event_ticket_id,
        name: payload.name,
        email: payload.email,
        phone: payload.phone,
        company_name: payload.company_name,
        partner_id: None,
        actor: None,
        lead_rule_skip: false,
    }
}

/// The text after the last comma (the whole text when there is none).
pub open spec fn last_segment(s: Seq<char>) -> Seq<char>
    decreases s.len(),
{
    if s.len() == 0 {
        s
    } else if s.last() == ',' {
        Seq::empty()
    } else {
        last_segment(s.drop_last()).push(s.last())
    }
}

/// The caller address for rate shaping: the rightmost forwarded hop (trimmed,
/// when non-empty) only under the trusted-proxy posture, else the socket IP,
/// else `"unknown"`.
pub open spec fn caller_ip_spec(forwarded: Option<Seq<char>>, socket_ip: Option<Seq<char>>, trusted_proxy: bool) -> Seq<char> {
    let fwd = if trusted_proxy {
        match forwarded {
            Some(f) => {
                let t = trim_spec(last_segment(f));
                if t.len() > 0 { Some(t) } else { None }
            },
            None => None,
        }
    } else {
        None
    };
    match fwd {
        Some(t) => t,
        None => match socket_ip {
            Some(s) => s,
            None => "unknown"@,
        },
    }
}

/// Without a trusted proxy the forwarding header is never read: the caller
/// is the socket address (or `unknown`) whatever the header says; with one,
/// a non-blank last hop of the header wins over the socket.
pub proof fn lemma_caller_ip_posture(f1: Option<Seq<char>>, f2: Option<Seq<char>>, socket_ip: Option<Seq<char>>)
    ensures
        caller_ip_spec(f1, socket_ip, false) == caller_ip_spec(f2, socket_ip, false),
        caller_ip_spec(f1, socket_ip, false) == match socket_ip { Some(s) => s, None => "unknown"@ },
        f1 matches Some(f) && trim_spec(last_segment(f)).len() > 0 ==> caller_ip_spec(f1, socket_ip, true) == trim_spec(last_segment(f1->0)),
{
}

/// Resolves the caller address (see `caller_ip_spec`).
pub fn caller_ip(forwarded: Option<&str>, socket_ip: Option<&str>, trusted_proxy: bool) -> (r: String)
    ensures
        r@ == caller_ip_spec(
            match forwarded { Some(f) => Some(f@), None => None },
            match socket_ip { Some(s) => Some(s@), None => None },
            trusted_proxy,
        ),
{
    if trusted_proxy {
        match forwarded {
            Some(f) => {
                let fc = chars_of(f);
                let mut i: usize = fc.len();
                assert(fc@.take(fc@.len() as int) =~= fc@);
                assert(last_segment(fc@) =~= last_segment(fc@.take(i as int)) + fc@.subrange(i as int, fc.len() as int));
                while i > 0 && fc[i - 1] != ','
                    invariant
                        i <= fc.len(),
                        fc@ == f@,
                        forall|j: int| i <= j < fc.len() ==> fc@[j] != ',',
                        last_segment(fc@) == last_segment(fc@.take(i as int)) + fc@.subrange(i as int, fc.len() as int),
                    decreases i,
                {
                    proof {
                        let p = fc@.take(i as int);
                        assert(p.drop_last() =~= fc@.take(i - 1));
                        assert(p.last() == fc@[i - 1]);
                        assert(last_segment(p) == last_segment(fc@.take(i - 1)).push(fc@[i - 1]));
                        assert(fc@.subrange(i - 1, fc.len() as int) =~= seq![fc@[i - 1]] + fc@.subrange(i as int, fc.len() as int));
                    }
                    i = i - 1;
                }
                proof {
                    if i > 0 {
                        assert(fc@.take(i as int).last() == ',');
                    }
                    assert(last_segment(fc@.take(i as int)) =~= Seq::<char>::empty());
                }
                let mut seg: Vec<char> = Vec::new();
                let mut p: usize = i;
                while p < fc.len()
                    invariant
                        i <= p <= fc.len(),
                        seg@ == fc@.subrange(i as int, p as int),
                    decreases fc.len() - p,
                {
                    seg.push(fc[p]);
                    assert(fc@.subrange(i as int, p + 1) =~= fc@.subrange(i as int, p as int).push(fc@[p as int]));
                    p = p + 1;
                }
                assert(last_segment(fc@) =~= seg@);
                let t = trim_chars(&seg);
                if t.len() > 0 {
                    return string_of(&t);
                }
            },
            None => {},
        }
    }
    match socket_ip {
        Some(s) => string_of(&chars_of(s)),
        None => string_of(&chars_of("unknown")),
    }
}

/// Whether a trusted-proxy setting arms the posture: `true`, `1`, `yes` or
/// `on` in any ASCII case, surrounding white space ignored.
pub open spec fn trusted_proxy_spec(raw: Seq<char>) -> bool {
    let t = ascii_lower_seq(trim_spec(raw));
    t == "true"@ || t == "1"@ || t == "yes"@ || t == "on"@
}

/// Parses a trusted-proxy setting (fail-closed: anything else is off).
pub fn trusted_proxy_flag(raw: &str) -> (r: bool)
    ensures
        r == trusted_proxy_spec(raw@),
{
    let t = ascii_lower_chars(&trim_chars(&chars_of(raw)));
    same_chars(&t, &chars_of("true")) || same_chars(&t, &chars_of("1")) || same_chars(&t, &chars_of("yes"))
        || same_chars(&t, &chars_of("on"))
}

} // verus!
