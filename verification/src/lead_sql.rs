//! The lead engine's eligibility query, composed from typed predicate rows.
//!
//! Parameter numbering: `$1` is the event, `$2` the rule, `$3` the batch
//! cap; predicates number from `$4` upward, each taking one parameter for
//! its value list and the `question_answer` axis one more for its question,
//! in the order the caller binds them.

use vstd::prelude::*;
use crate::error::EventError;
use crate::rows::LeadPredicateRow;
use crate::text::{chars_of, string_of, extend_str, extend_chars, same_text, decimal_text, decimal_spec};

verus! {

/// The statement before the predicate clauses: the eligible domain (open or
/// done, active) of the event, less the registrations the rule already
/// recorded.
pub open spec fn eligible_head() -> Seq<char> {
    "SELECT r.id, r.name, r.email, r.phone, r.company_name, r.partner_id,\n                      r.sale_order_id, (r.metadata->>'created_at')::timestamptz AS created_at\n                 FROM event.registrations r\n                WHERE r.event_id = $1\n                  AND r.state IN ('open','done') AND r.active\n                  AND NOT EXISTS (\n                      SELECT 1 FROM event.lead_provenance_registrations j\n                        JOIN event.lead_provenances p ON p.id = j.provenance_id\n                       WHERE p.rule_id = $2 AND j.registration_id = r.id)"@
}

/// The statement after the predicate clauses: walk order and the cap.
pub open spec fn eligible_tail() -> Seq<char> {
    "\n                ORDER BY r.id\n                LIMIT $3"@
}

/// The value-list subquery of parameter `param`.
pub open spec fn values_sql(param: nat) -> Seq<char> {
    "SELECT (v #>> '{}')::uuid FROM jsonb_array_elements($"@ + decimal_spec(param) + "::jsonb) v"@
}

/// The clause of one predicate axis whose values are parameter `param`
/// (and, on `question_answer`, whose question is `param + 1`); none for an
/// axis outside the vocabulary.
pub open spec fn clause_sql(axis: Seq<char>, param: nat) -> Option<Seq<char>> {
    if axis == "event"@ {
        Some(" AND r.event_id IN ("@ + values_sql(param) + ")"@)
    } else if axis == "event_type"@ {
        Some(
            " AND EXISTS (SELECT 1 FROM event.events e JOIN event.types t ON t.id = e.event_type_id WHERE e.id = r.event_id AND t.id IN ("@
                + values_sql(param) + "))"@,
        )
    } else if axis == "company"@ {
        Some(" AND r.org_unit_id IN ("@ + values_sql(param) + ")"@)
    } else if axis == "question_answer"@ {
        Some(
            " AND EXISTS (SELECT 1 FROM event.registration_answers ra WHERE ra.registration_id = r.id AND ra.question_id = $"@
                + decimal_spec(param + 1) + " AND ra.value_answer_id IN ("@ + values_sql(param) + "))"@,
        )
    } else {
        None
    }
}

/// The parameters one predicate axis takes.
pub open spec fn params_of(axis: Seq<char>) -> nat {
    if axis == "question_answer"@ {
        2
    } else {
        1
    }
}

/// The conjunction of the clauses of predicates `i..` numbered from
/// `param`, or the first axis outside the vocabulary.
pub open spec fn clauses_from(preds: Seq<LeadPredicateRow>, i: int, param: nat) -> Result<Seq<char>, Seq<char>>
    decreases preds.len() - i,
{
    if i < 0 || i >= preds.len() {
        Ok(Seq::empty())
    } else {
        match clause_sql(preds[i].axis@, param) {
            None => Err(preds[i].axis@),
            Some(c) => match clauses_from(preds, i + 1, param + params_of(preds[i].axis@)) {
                Ok(rest) => Ok(c + rest),
                Err(a) => Err(a),
            },
        }
    }
}

/// The parameters all predicates from `i` on take.
pub open spec fn params_from(preds: Seq<LeadPredicateRow>, i: int) -> nat
    decreases preds.len() - i,
{
    if i < 0 || i >= preds.len() {
        0
    } else {
        params_of(preds[i].axis@) + params_from(preds, i + 1)
    }
}

/// How many of the predicates `s..i` are on the `question_answer` axis.
pub open spec fn qa_between(preds: Seq<LeadPredicateRow>, s: int, i: int) -> nat
    decreases i - s,
{
    if i <= s {
        0
    } else {
        qa_between(preds, s, i - 1) + if preds[i - 1].axis@ == "question_answer"@ { 1nat } else { 0nat }
    }
}

proof fn lemma_qa_between_head(preds: Seq<LeadPredicateRow>, s: int, i: int)
    requires
        s < i,
    ensures
        qa_between(preds, s, i) == (if preds[s].axis@ == "question_answer"@ { 1nat } else { 0nat }) + qa_between(preds, s + 1, i),
    decreases i - s,
{
    assert(qa_between(preds, s, s) == 0);
    assert(qa_between(preds, s + 1, s + 1) == 0);
    if i - 1 > s {
        lemma_qa_between_head(preds, s, i - 1);
        assert(qa_between(preds, s + 1, i) == qa_between(preds, s + 1, i - 1)
            + if preds[i - 1].axis@ == "question_answer"@ { 1nat } else { 0nat });
    }
}

proof fn lemma_clauses_hold_each(preds: Seq<LeadPredicateRow>, s: int, p: nat, i: int)
    requires
        0 <= s <= i < preds.len(),
        clauses_from(preds, s, p) is Ok,
    ensures
        (clause_sql(preds[i].axis@, (p + (i - s) + qa_between(preds, s, i)) as nat) matches Some(c)
            && exists|off: int| 0 <= off && off + c.len() <= clauses_from(preds, s, p)->Ok_0.len()
                && #[trigger] clauses_from(preds, s, p)->Ok_0.subrange(off, off + c.len()) == c),
    decreases i - s,
{
    let cs = clause_sql(preds[s].axis@, p)->0;
    let q = p + params_of(preds[s].axis@);
    let all = clauses_from(preds, s, p)->Ok_0;
    assert(clause_sql(preds[s].axis@, p) is Some);
    assert(clauses_from(preds, s + 1, q) is Ok);
    assert(all == cs + clauses_from(preds, s + 1, q)->Ok_0);
    assert(qa_between(preds, s, s) == 0);
    if i == s {
        assert((p + (i - s) + qa_between(preds, s, i)) as nat == p);
        assert(all.subrange(0, 0int + cs.len()) =~= cs);
    } else {
        lemma_clauses_hold_each(preds, s + 1, q, i);
        lemma_qa_between_head(preds, s, i);
        assert(q + (i - (s + 1)) + qa_between(preds, s + 1, i) == p + (i - s) + qa_between(preds, s, i));
        let rest = clauses_from(preds, s + 1, q)->Ok_0;
        let c = clause_sql(preds[i].axis@, (q + (i - (s + 1)) + qa_between(preds, s + 1, i)) as nat)->0;
        let off = choose|off: int| 0 <= off && off + c.len() <= rest.len()
            && #[trigger] rest.subrange(off, off + c.len()) == c;
        assert(all == cs + rest);
        assert(all.subrange(cs.len() + off, cs.len() + off + c.len()) =~= rest.subrange(off, off + c.len()));
        let o2 = cs.len() + off;
        assert(clauses_from(preds, s, p)->Ok_0.subrange(o2, o2 + c.len()) == c);
    }
}

/// The composed conjunction: it exists exactly when every predicate's axis
/// is one of `event`, `event_type`, `company`, `question_answer` (else the
/// first axis outside them is named), and it holds the clause of every
/// predicate `i`, with its value list bound to parameter `4 + i` plus one
/// for each `question_answer` predicate before it (whose question takes
/// the parameter after its values).
pub proof fn lemma_clause_numbering(preds: Seq<LeadPredicateRow>)
    ensures
        forall|axis: Seq<char>, param: nat| #[trigger] clause_sql(axis, param) is Some
            <==> (axis == "event"@ || axis == "event_type"@ || axis == "company"@ || axis == "question_answer"@),
        clauses_from(preds, 0, 4) is Ok <==> forall|i: int| 0 <= i < preds.len() ==> {
            let a = (#[trigger] preds[i]).axis@;
            a == "event"@ || a == "event_type"@ || a == "company"@ || a == "question_answer"@
        },
        clauses_from(preds, 0, 4) is Ok ==> forall|i: int| 0 <= i < preds.len() ==>
            ((#[trigger] clause_sql(preds[i].axis@, (4 + i + qa_between(preds, 0, i)) as nat)) matches Some(c)
            && exists|off: int| 0 <= off && off + c.len() <= clauses_from(preds, 0, 4)->Ok_0.len()
                && #[trigger] clauses_from(preds, 0, 4)->Ok_0.subrange(off, off + c.len()) == c),
{
    lemma_clauses_ok_iff(preds, 0, 4);
    if clauses_from(preds, 0, 4) is Ok {
        assert forall|i: int| 0 <= i < preds.len() implies
            ((#[trigger] clause_sql(preds[i].axis@, (4 + i + qa_between(preds, 0, i)) as nat)) matches Some(c)
            && exists|off: int| 0 <= off && off + c.len() <= clauses_from(preds, 0, 4)->Ok_0.len()
                && #[trigger] clauses_from(preds, 0, 4)->Ok_0.subrange(off, off + c.len()) == c) by {
            lemma_clauses_hold_each(preds, 0, 4, i);
        }
    }
}

proof fn lemma_clauses_ok_iff(preds: Seq<LeadPredicateRow>, s: int, p: nat)
    requires
        0 <= s <= preds.len(),
    ensures
        clauses_from(preds, s, p) is Ok <==> forall|i: int| s <= i < preds.len() ==> {
            let a = (#[trigger] preds[i]).axis@;
            a == "event"@ || a == "event_type"@ || a == "company"@ || a == "question_answer"@
        },
    decreases preds.len() - s,
{
    if s < preds.len() {
        lemma_clauses_ok_iff(preds, s + 1, p + params_of(preds[s].axis@));
    }
}

fn values_text(param: u128) -> (r: Vec<char>)
    ensures
        r@ == values_sql(param as nat),
{
    let mut v: Vec<char> = Vec::new();
    extend_str(&mut v, "SELECT (v #>> '{}')::uuid FROM jsonb_array_elements($");
    extend_chars(&mut v, &decimal_text(param));
    extend_str(&mut v, "::jsonb) v");
    v
}

/// The clause of one predicate, if its axis is in the vocabulary.
pub fn clause_text(axis: &str, param: u128) -> (r: Option<Vec<char>>)
    requires
        param < u128::MAX,
    ensures
        match clause_sql(axis@, param as nat) {
            Some(c) => r.is_some() && r->0@ == c,
            None => r.is_none(),
        },
{
    let values = values_text(param);
    let mut c: Vec<char> = Vec::new();
    if same_text(axis, "event") {
        extend_str(&mut c, " AND r.event_id IN (");
        extend_chars(&mut c, &values);
        extend_str(&mut c, ")");
        Some(c)
    } else if same_text(axis, "event_type") {
        extend_str(
            &mut c,
            " AND EXISTS (SELECT 1 FROM event.events e JOIN event.types t ON t.id = e.event_type_id WHERE e.id = r.event_id AND t.id IN (",
        );
        extend_chars(&mut c, &values);
        extend_str(&mut c, "))");
        Some(c)
    } else if same_text(axis, "company") {
        extend_str(&mut c, " AND r.org_unit_id IN (");
        extend_chars(&mut c, &values);
        extend_str(&mut c, ")");
        Some(c)
    } else if same_text(axis, "question_answer") {
        extend_str(
            &mut c,
            " AND EXISTS (SELECT 1 FROM event.registration_answers ra WHERE ra.registration_id = r.id AND ra.question_id = $",
        );
        extend_chars(&mut c, &decimal_text(param + 1));
        extend_str(&mut c, " AND ra.value_answer_id IN (");
        extend_chars(&mut c, &values);
        extend_str(&mut c, "))");
        Some(c)
    } else {
        None
    }
}

/// The eligibility query of one rule: the eligible domain of the event,
/// less what the rule recorded, narrowed by the conjunction of its typed
/// predicates. A stored axis outside the vocabulary is corruption, refused
/// as `Internal`.
pub fn eligible_sql(predicates: &Vec<LeadPredicateRow>) -> (r: Result<String, EventError>)
    ensures
        match clauses_from(predicates@, 0, 4) {
            Ok(c) => r.is_ok() && r->Ok_0@ == eligible_head() + c + eligible_tail(),
            Err(axis) => r.is_err() && r->Err_0 is Internal && r->Err_0->Internal_0@
                == "predicate axis outside the closed vocabulary: "@ + axis,
        },
{
    let mut clauses: Vec<char> = Vec::new();
    let mut param: u128 = 4;
    let mut i: usize = 0;
    while i < predicates.len()
        invariant
            i <= predicates.len(),
            4 <= param <= 4 + 2 * i,
            clauses_from(predicates@, 0, 4) == match clauses_from(predicates@, i as int, param as nat) {
                Ok(rest) => Ok(clauses@ + rest),
                Err(a) => Err(a),
            },
        decreases predicates.len() - i,
    {
        let p = &predicates[i];
        match clause_text(p.axis.as_str(), param) {
            None => {
                let mut m: Vec<char> = Vec::new();
                extend_str(&mut m, "predicate axis outside the closed vocabulary: ");
                extend_str(&mut m, p.axis.as_str());
                return Err(EventError::Internal(string_of(&m)));
            },
            Some(c) => {
                proof {
                    match clauses_from(predicates@, i + 1, (param + params_of(p.axis@)) as nat) {
                        Ok(rest) => {
                            assert(clauses@ + (c@ + rest) =~= (clauses@ + c@) + rest);
                        },
                        Err(_) => {},
                    }
                }
                extend_chars(&mut clauses, &c);
                if same_text(p.axis.as_str(), "question_answer") {
                    param = param + 2;
                } else {
                    param = param + 1;
                }
            },
        }
        i = i + 1;
    }
    let mut sql: Vec<char> = Vec::new();
    extend_str(
        &mut sql,
        "SELECT r.id, r.name, r.email, r.phone, r.company_name, r.partner_id,\n                      r.sale_order_id, (r.metadata->>'created_at')::timestamptz AS created_at\n                 FROM event.registrations r\n                WHERE r.event_id = $1\n                  AND r.state IN ('open','done') AND r.active\n                  AND NOT EXISTS (\n                      SELECT 1 FROM event.lead_provenance_registrations j\n                        JOIN event.lead_provenances p ON p.id = j.provenance_id\n                       WHERE p.rule_id = $2 AND j.registration_id = r.id)",
    );
    extend_chars(&mut sql, &clauses);
    extend_str(&mut sql, "\n                ORDER BY r.id\n                LIMIT $3");
    Ok(string_of(&sql))
}

} // verus!
