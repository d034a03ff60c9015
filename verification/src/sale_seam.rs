//! The sale seam's decisions: the exactly-once delivery key, the free/paid
//! birth linkage of a mint, the mint-or-heal fork, and the typed bridge
//! commands.

use vstd::prelude::*;
use crate::error::EventError;
use crate::ids::{uuid_text, uuid_text_spec};
use crate::rows::{RegisterCommand, SaleLink};
use crate::text::{chars_of, string_of, extend_str, trim_str, trim_spec};

verus! {

/// One step of reading a decimal amount: the state after `c`. States: 0
/// start, 1 after the sign, 2 integer digits, 3 a point with no digit yet,
/// 4 digits with a point, 5 after the exponent mark, 6 after the exponent's
/// sign, 7 exponent digits, 8 refused.
pub open spec fn amount_step(state: u8, c: char) -> u8 {
    let digit = '0' <= c && c <= '9';
    let sign = c == '+' || c == '-';
    let point = c == '.';
    let exp = c == 'e' || c == 'E';
    if state == 0 {
        if sign { 1 } else if digit { 2 } else if point { 3 } else { 8 }
    } else if state == 1 {
        if digit { 2 } else if point { 3 } else { 8 }
    } else if state == 2 {
        if digit { 2 } else if point { 4 } else if exp { 5 } else { 8 }
    } else if state == 3 {
        if digit { 4 } else { 8 }
    } else if state == 4 {
        if digit { 4 } else if exp { 5 } else { 8 }
    } else if state == 5 {
        if sign { 6 } else if digit { 7 } else { 8 }
    } else if state == 6 || state == 7 {
        if digit { 7 } else { 8 }
    } else {
        8
    }
}

/// Reads an amount from a state: the final state, and whether a mantissa
/// digit other than `0` was seen.
pub open spec fn amount_scan(s: Seq<char>, state: u8, nonzero: bool) -> (u8, bool)
    decreases s.len(),
{
    if s.len() == 0 {
        (state, nonzero)
    } else {
        let c = s[0];
        let nz = nonzero || (state <= 4 && '1' <= c && c <= '9');
        amount_scan(s.drop_first(), amount_step(state, c), nz)
    }
}

/// Whether the grand total (surrounding white space dropped) is a decimal
/// amount (an optional sign, digits with at most one point and at least one
/// digit, an optional exponent) whose magnitude is zero. Anything
/// unreadable is not zero: the order is treated as paid.
pub open spec fn grand_total_zero_spec(raw: Seq<char>) -> bool {
    let (state, nonzero) = amount_scan(trim_spec(raw), 0, false);
    (state == 2 || state == 4 || state == 7) && !nonzero
}

/// Whether a character can stand in a decimal amount at all.
pub open spec fn amount_char(c: char) -> bool {
    ('0' <= c && c <= '9') || c == '+' || c == '-' || c == '.' || c == 'e' || c == 'E'
}

proof fn lemma_scan_zeros(s: Seq<char>)
    requires
        forall|k: int| 0 <= k < s.len() ==> s[k] == '0',
    ensures
        amount_scan(s, 2, false) == (2u8, false),
    decreases s.len(),
{
    if s.len() > 0 {
        lemma_scan_zeros(s.drop_first());
    }
}

proof fn lemma_scan_refused(s: Seq<char>, state: u8, nonzero: bool)
    requires
        state == 8 || exists|k: int| 0 <= k < s.len() && !amount_char(#[trigger] s[k]),
    ensures
        amount_scan(s, state, nonzero).0 == 8,
    decreases s.len(),
{
    if s.len() > 0 {
        let d = s.drop_first();
        let st = amount_step(state, s[0]);
        if state != 8 && amount_char(s[0]) {
            let k = choose|k: int| 0 <= k < s.len() && !amount_char(#[trigger] s[k]);
            assert(k > 0);
            assert(!amount_char(d[k - 1]));
        }
        lemma_scan_refused(d, st, nonzero || (state <= 4 && '1' <= s[0] && s[0] <= '9'));
    }
}

proof fn lemma_scan_nonzero_digit(s: Seq<char>, state: u8, nonzero: bool)
    requires
        state <= 4 || state == 8,
        forall|k: int| 0 <= k < s.len() ==> #[trigger] s[k] != 'e' && s[k] != 'E',
        nonzero || exists|k: int| 0 <= k < s.len() && '1' <= #[trigger] s[k] && s[k] <= '9',
    ensures
        amount_scan(s, state, nonzero).0 == 8 || amount_scan(s, state, nonzero).1,
    decreases s.len(),
{
    if s.len() > 0 {
        let c = s[0];
        let d = s.drop_first();
        let nz = nonzero || (state <= 4 && '1' <= c && c <= '9');
        let st = amount_step(state, c);
        assert(c != 'e' && c != 'E');
        assert forall|k: int| 0 <= k < d.len() implies #[trigger] d[k] != 'e' && d[k] != 'E' by {
            assert(d[k] == s[k + 1]);
        }
        if st == 8 {
            lemma_scan_refused(d, 8, nz);
        } else {
            if !nz {
                let k = choose|k: int| 0 <= k < s.len() && '1' <= #[trigger] s[k] && s[k] <= '9';
                if k == 0 {
                    assert(state == 8);
                } else {
                    assert(d[k - 1] == s[k]);
                }
            }
            lemma_scan_nonzero_digit(d, st, nz);
        }
    }
}

/// The zero test reads the magnitude: a total made of `0` digits only (white
/// space around it aside) is zero; a total with a digit `1` to `9` and no
/// exponent is not; and a total holding any character that no decimal
/// amount holds is not zero (it is read as paid).
pub proof fn lemma_grand_total_zero_rules(raw: Seq<char>)
    ensures
        trim_spec(raw).len() > 0 && (forall|k: int| 0 <= k < trim_spec(raw).len() ==> #[trigger] trim_spec(raw)[k] == '0')
            ==> grand_total_zero_spec(raw),
        (forall|k: int| 0 <= k < trim_spec(raw).len() ==> #[trigger] trim_spec(raw)[k] != 'e' && trim_spec(raw)[k] != 'E')
            && (exists|k: int| 0 <= k < trim_spec(raw).len() && '1' <= #[trigger] trim_spec(raw)[k] && trim_spec(raw)[k] <= '9')
            ==> !grand_total_zero_spec(raw),
        (exists|k: int| 0 <= k < trim_spec(raw).len() && !amount_char(#[trigger] trim_spec(raw)[k]))
            ==> !grand_total_zero_spec(raw),
{
    let t = trim_spec(raw);
    if t.len() > 0 && (forall|k: int| 0 <= k < t.len() ==> #[trigger] t[k] == '0') {
        let d = t.drop_first();
        assert forall|k: int| 0 <= k < d.len() implies d[k] == '0' by {
            assert(d[k] == t[k + 1]);
        }
        lemma_scan_zeros(d);
        assert(t[0] == '0');
    }
    if (forall|k: int| 0 <= k < t.len() ==> #[trigger] t[k] != 'e' && t[k] != 'E')
        && (exists|k: int| 0 <= k < t.len() && '1' <= #[trigger] t[k] && t[k] <= '9') {
        lemma_scan_nonzero_digit(t, 0, false);
    }
    if exists|k: int| 0 <= k < t.len() && !amount_char(#[trigger] t[k]) {
        lemma_scan_refused(t, 0, false);
    }
}

/// The zero-amount fact of a confirmed order: whether its grand total reads
/// as a decimal of magnitude zero (the order is free).
pub fn grand_total_is_zero(raw: &str) -> (r: bool)
    ensures
        r == grand_total_zero_spec(raw@),
{
    let t = trim_str(raw);
    let mut state: u8 = 0;
    let mut nonzero = false;
    let mut i: usize = 0;
    assert(t@.skip(0) =~= t@);
    while i < t.len()
        invariant
            i <= t.len(),
            t@ == trim_spec(raw@),
            amount_scan(t@, 0, false) == amount_scan(t@.skip(i as int), state, nonzero),
        decreases t.len() - i,
    {
        let c = t[i];
        proof {
            assert(t@.skip(i as int)[0] == c);
            assert(t@.skip(i as int).drop_first() =~= t@.skip(i + 1));
        }
        let digit = '0' <= c && c <= '9';
        let sign = c == '+' || c == '-';
        let point = c == '.';
        let exp = c == 'e' || c == 'E';
        if state <= 4 && '1' <= c && c <= '9' {
            nonzero = true;
        }
        state = if state == 0 {
            if sign { 1 } else if digit { 2 } else if point { 3 } else { 8 }
        } else if state == 1 {
            if digit { 2 } else if point { 3 } else { 8 }
        } else if state == 2 {
            if digit { 2 } else if point { 4 } else if exp { 5 } else { 8 }
        } else if state == 3 {
            if digit { 4 } else { 8 }
        } else if state == 4 {
            if digit { 4 } else if exp { 5 } else { 8 }
        } else if state == 5 {
            if sign { 6 } else if digit { 7 } else { 8 }
        } else if state == 6 || state == 7 {
            if digit { 7 } else { 8 }
        } else {
            8
        };
        i = i + 1;
    }
    assert(t@.skip(t.len() as int) =~= Seq::<char>::empty());
    (state == 2 || state == 4 || state == 7) && !nonzero
}

/// The default consumer key in the seam inbox.
pub const SALE_SEAM_CONSUMER: &'static str = "event-sale-seam";

/// The outcome of one seam verb call.
#[derive(Debug, Clone, Copy, PartialEq, Eq, Structural)]
pub struct SeamOutcome {
    pub already_applied: bool,
    pub registrations_touched: usize,
    pub booths_latched_paid: usize,
}

impl SeamOutcome {
    /// The no-op outcome of a redelivered fact.
    pub fn redelivered() -> (r: Self)
        ensures
            r.already_applied,
            r.registrations_touched == 0,
            r.booths_latched_paid == 0,
    {
        SeamOutcome { already_applied: true, registrations_touched: 0, booths_latched_paid: 0 }
    }

    /// The outcome of an applied fact.
    pub fn applied(touched: usize, latched: usize) -> (r: Self)
        ensures
            !r.already_applied,
            r.registrations_touched == touched,
            r.booths_latched_paid == latched,
    {
        SeamOutcome { already_applied: false, registrations_touched: touched, booths_latched_paid: latched }
    }
}

/// The exactly-once key of a delivery: `<verb>:<delivery id>` when the host
/// supplies one, else `<verb>:<order id>`.
pub open spec fn claim_key_spec(verb: Seq<char>, delivery_id: Option<Seq<char>>, order_id: u128) -> Seq<char> {
    match delivery_id {
        Some(d) => verb + ":"@ + d,
        None => verb + ":"@ + uuid_text_spec(order_id),
    }
}

/// Builds the exactly-once key of a delivery.
pub fn claim_key(verb: &str, delivery_id: Option<&str>, order_id: u128) -> (r: String)
    ensures
        r@ == claim_key_spec(verb@, match delivery_id { Some(d) => Some(d@), None => None }, order_id),
{
    let mut out: Vec<char> = Vec::new();
    extend_str(&mut out, verb);
    extend_str(&mut out, ":");
    match delivery_id {
        Some(d) => extend_str(&mut out, d),
        None => {
            let t = uuid_text(order_id);
            extend_str(&mut out, t.as_str());
        },
    }
    string_of(&out)
}

/// The birth linkage of a minted registration: a free (zero-total) order is
/// born `open` as `free`; a paid one is born `draft` (held) as `to_pay`. The
/// mirrored order state is `sale`.
pub fn sale_link(order_id: u128, free: bool) -> (r: SaleLink)
    ensures
        r.sale_order_id == order_id,
        r.sale_order_state@ == "sale"@,
        r.sale_status@ == if free { "free"@ } else { "to_pay"@ },
        r.initial_state@ == if free { "open"@ } else { "draft"@ },
{
    SaleLink {
        sale_order_id: order_id,
        sale_order_state: string_of(&chars_of("sale")),
        sale_status: string_of(&chars_of(if free { "free" } else { "to_pay" })),
        initial_state: string_of(&chars_of(if free { "open" } else { "draft" })),
    }
}

/// The confirmed-order fork: no linked registration yet mints; otherwise the
/// linked group is healed (free) or held (paid).
#[derive(Debug, Clone, Copy, PartialEq, Eq, Structural)]
pub enum ConfirmAction {
    Mint,
    HealFree,
    HoldPaid,
}

/// Chooses the confirmed-order action from the linked-row count and the
/// free/paid fact.
pub fn confirm_action(linked: i64, free: bool) -> (r: ConfirmAction)
    ensures
        r == if linked == 0 { ConfirmAction::Mint } else if free { ConfirmAction::HealFree } else { ConfirmAction::HoldPaid },
{
    if linked == 0 {
        ConfirmAction::Mint
    } else if free {
        ConfirmAction::HealFree
    } else {
        ConfirmAction::HoldPaid
    }
}

/// One attendee of a confirmed order.
#[derive(Debug, Clone)]
pub struct RegistrationSpec {
    pub event_id: u128,
    pub event_slot_id: Option<u128>,
    pub event_ticket_id: Option<u128>,
    pub name: String,
    pub email: String,
    pub phone: Option<String>,
    pub company_name: Option<String>,
    pub partner_id: Option<u128>,
}

/// SalesOrderConfirmed: the typed bridge command.
#[derive(Debug, Clone)]
pub struct OrderConfirmed {
    pub delivery_id: Option<String>,
    pub order_id: u128,
    pub org_unit_id: Option<u128>,
    pub customer_id: Option<u128>,
    /// The order grand total as its raw decimal string.
    pub grand_total: String,
    pub currency: Option<String>,
    pub registrations: Vec<RegistrationSpec>,
}

/// SalesOrderCancelled: the typed bridge command.
#[derive(Debug, Clone)]
pub struct OrderCancelled {
    pub delivery_id: Option<String>,
    pub order_id: u128,
    pub org_unit_id: Option<u128>,
    pub customer_id: Option<u128>,
}

/// The paid fact: the typed bridge command.
#[derive(Debug, Clone)]
pub struct OrderPaid {
    pub delivery_id: Option<String>,
    pub order_id: u128,
    pub line_ids: Vec<u128>,
}

/// Whether a register command carries an attendee spec (the system actor,
/// the lead queue armed).
pub open spec fn command_of_spec(spec: RegistrationSpec, cmd: RegisterCommand) -> bool {
    &&& cmd.event_id == spec.event_id
    &&& cmd.event_slot_id == spec.event_slot_id
    &&& cmd.event_ticket_id == spec.event_ticket_id
    &&& cmd.name@ == spec.name@
    &&& cmd.email@ == spec.email@
    &&& cmd.phone == spec.phone
    &&& cmd.company_name == spec.company_name
    &&& cmd.partner_id == spec.partner_id
    &&& cmd.actor.is_none()
    &&& !cmd.lead_rule_skip
}

/// The mint commands of a confirmed order: refuses an order with no
/// attendee specs, else one register command per spec, in order.
pub fn confirmed_commands(cmd: &OrderConfirmed) -> (r: Result<Vec<RegisterCommand>, EventError>)
    ensures
        cmd.registrations@.len() == 0 ==> r.is_err() && r->Err_0 is Validation
            && r->Err_0->Validation_0@ == "SalesOrderConfirmed carries no attendee specs \u{2014} nothing to mint"@,
        cmd.registrations@.len() > 0 ==> r.is_ok() && r->Ok_0@.len() == cmd.registrations@.len()
            && forall|i: int| 0 <= i < cmd.registrations@.len() ==> command_of_spec(#[trigger] cmd.registrations@[i], r->Ok_0@[i]),
{
    if cmd.registrations.len() == 0 {
        return Err(EventError::Validation(string_of(&chars_of("SalesOrderConfirmed carries no attendee specs \u{2014} nothing to mint"))));
    }
    let mut out: Vec<RegisterCommand> = Vec::new();
    let mut i: usize = 0;
    while i < cmd.registrations.len()
        invariant
            i <= cmd.registrations.len(),
            out@.len() == i,
            forall|j: int| 0 <= j < i ==> command_of_spec(#[trigger] cmd.registrations@[j], out@[j]),
        decreases cmd.registrations.len() - i,
    {
        let spec = &cmd.registrations[i];
        let c = RegisterCommand {
            event_id: spec.event_id,
            event_slot_id: spec.event_slot_id,
            event_ticket_id: spec.event_ticket_id,
            name: spec.name.clone(),
            email: spec.email.clone(),
            phone: spec.phone.clone(),
            company_name: spec.company_name.clone(),
            partner_id: spec.partner_id,
            actor: None,
            lead_rule_skip: false,
        };
        out.push(c);
        i = i + 1;
    }
    Ok(out)
}

} // verus!
