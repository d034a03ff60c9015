//! The grouping of a batch of eligible registrations: sale-linked
//! registrations group per sale order, walk-ins per event and calendar day.
//! Groups come out ordered by (grouping, group key), members in walk order.

use vstd::prelude::*;
use crate::ids::{uuid_text, uuid_text_spec, utc_day, utc_day_spec};
use crate::leads::{view_of, LeadGroup, LeadRegistrationView};
use crate::rows::EligibleRegistration;
use crate::text::{chars_of, string_of, extend_str, extend_chars, same_chars, chars_lt, seq_lt, lemma_seq_lt_total,
    lemma_seq_lt_asym, lemma_seq_lt_trans};

verus! {

/// The calendar day a walk-in is grouped under: the UTC day of its creation
/// instant, or `unknown-day`.
pub open spec fn day_text(created_at: Option<i64>) -> Seq<char> {
    match created_at {
        Some(m) => match utc_day_spec(m) {
            Some(d) => d,
            None => "unknown-day"@,
        },
        None => "unknown-day"@,
    }
}

/// The (grouping, group key) a registration of an event falls in: its sale
/// order's id text under `per_order`, else `event:day` under
/// `per_event_day`.
pub open spec fn group_of(event_id: u128, r: EligibleRegistration) -> (Seq<char>, Seq<char>) {
    match r.sale_order_id {
        Some(order) => ("per_order"@, uuid_text_spec(order)),
        None => ("per_event_day"@, uuid_text_spec(event_id) + ":"@ + day_text(r.created_at)),
    }
}

/// The order on (grouping, group key) pairs: by grouping, then by key.
pub open spec fn pair_lt(a: (Seq<char>, Seq<char>), b: (Seq<char>, Seq<char>)) -> bool {
    seq_lt(a.0, b.0) || (a.0 == b.0 && seq_lt(a.1, b.1))
}

proof fn lemma_pair_lt_trans(a: (Seq<char>, Seq<char>), b: (Seq<char>, Seq<char>), c: (Seq<char>, Seq<char>))
    requires
        pair_lt(a, b),
        pair_lt(b, c),
    ensures
        pair_lt(a, c),
{
    if seq_lt(a.0, b.0) && seq_lt(b.0, c.0) {
        lemma_seq_lt_trans(a.0, b.0, c.0);
    } else if seq_lt(a.1, b.1) && seq_lt(b.1, c.1) && a.0 == b.0 && b.0 == c.0 {
        lemma_seq_lt_trans(a.1, b.1, c.1);
    }
}

proof fn lemma_pair_lt_total(a: (Seq<char>, Seq<char>), b: (Seq<char>, Seq<char>))
    ensures
        a == b || pair_lt(a, b) || pair_lt(b, a),
{
    lemma_seq_lt_total(a.0, b.0);
    lemma_seq_lt_total(a.1, b.1);
}

proof fn lemma_pair_lt_asym(a: (Seq<char>, Seq<char>), b: (Seq<char>, Seq<char>))
    ensures
        !(pair_lt(a, b) && pair_lt(b, a)),
        !pair_lt(a, a),
{
    lemma_seq_lt_asym(a.0, b.0);
    lemma_seq_lt_asym(a.1, b.1);
}

/// Groups are ordered by their grouping first and by their key within one
/// grouping, each text lexicographically.
pub proof fn lemma_group_order(a: (Seq<char>, Seq<char>), b: (Seq<char>, Seq<char>))
    ensures
        pair_lt(a, b) <==> (seq_lt(a.0, b.0) || (a.0 == b.0 && seq_lt(a.1, b.1))),
        a.0 != b.0 ==> (pair_lt(a, b) <==> seq_lt(a.0, b.0)),
{
}

/// Whether (a0, a1) sorts strictly before (b0, b1).
fn pair_less(a0: &Vec<char>, a1: &Vec<char>, b0: &Vec<char>, b1: &Vec<char>) -> (r: bool)
    ensures
        r == pair_lt((a0@, a1@), (b0@, b1@)),
{
    chars_lt(a0, b0) || (same_chars(a0, b0) && chars_lt(a1, b1))
}

/// The (grouping, group key) of a registration, as characters.
pub fn group_key_of(event_id: u128, r: &EligibleRegistration) -> (k: (Vec<char>, Vec<char>))
    ensures
        (k.0@, k.1@) == group_of(event_id, *r),
{
    match r.sale_order_id {
        Some(order) => {
            let key = uuid_text(order);
            (chars_of("per_order"), chars_of(key.as_str()))
        },
        None => {
            let mut key = chars_of(uuid_text(event_id).as_str());
            extend_str(&mut key, ":");
            let day: Option<String> = match r.created_at {
                Some(m) => utc_day(m),
                None => None,
            };
            match day {
                Some(d) => extend_str(&mut key, d.as_str()),
                None => extend_str(&mut key, "unknown-day"),
            }
            (chars_of("per_event_day"), key)
        },
    }
}

/// One planned group: its grouping, its key, and the indices of its members
/// in the batch.
#[derive(Debug, Clone)]
pub struct PlannedGroup {
    pub grouping: String,
    pub group_key: String,
    pub members: Vec<usize>,
}

/// The (grouping, group key) of a planned group.
pub open spec fn planned_key(g: PlannedGroup) -> (Seq<char>, Seq<char>) {
    (g.grouping@, g.group_key@)
}

/// Groups strictly ordered by (grouping, group key) (so no key twice).
pub open spec fn plan_sorted(gs: Seq<PlannedGroup>) -> bool {
    forall|a: int, b: int|
        0 <= a < b < gs.len() ==> pair_lt(planned_key(#[trigger] gs[a]), planned_key(#[trigger] gs[b]))
}

/// A group's members: at least one, strictly increasing batch indices below
/// `n`, each a registration of the group's key.
pub open spec fn members_ok(g: PlannedGroup, event_id: u128, batch: Seq<EligibleRegistration>, n: int) -> bool {
    &&& g.members@.len() > 0
    &&& forall|x: int, y: int| 0 <= x < y < g.members@.len() ==> g.members@[x] < g.members@[y]
    &&& forall|x: int|
        #![trigger g.members@[x]]
        0 <= x < g.members@.len() ==> (g.members@[x] as int) < n && group_of(event_id, batch[g.members@[x] as int])
            == planned_key(g)
}

/// Whether some group holds batch index `j`.
pub open spec fn covered(gs: Seq<PlannedGroup>, j: int) -> bool {
    exists|k: int| 0 <= k < gs.len() && (#[trigger] gs[k]).members@.contains(j as usize)
}

/// Whether `gs` is the grouping of the first `n` registrations of a batch:
/// groups ordered by key, every member of its group's key and in walk
/// order, every registration in some group.
pub open spec fn plan_of(gs: Seq<PlannedGroup>, event_id: u128, batch: Seq<EligibleRegistration>, n: int) -> bool {
    &&& plan_sorted(gs)
    &&& forall|k: int| 0 <= k < gs.len() ==> members_ok(#[trigger] gs[k], event_id, batch, n)
    &&& forall|j: int| 0 <= j < n ==> covered(gs, j)
}

proof fn lemma_insert_new_group(
    gs: Seq<PlannedGroup>,
    p: int,
    g: PlannedGroup,
    event_id: u128,
    batch: Seq<EligibleRegistration>,
    i: int,
)
    requires
        0 <= i < batch.len(),
        batch.len() <= usize::MAX,
        plan_of(gs, event_id, batch, i),
        0 <= p <= gs.len(),
        forall|q: int| 0 <= q < p ==> pair_lt(planned_key(#[trigger] gs[q]), planned_key(g)),
        p < gs.len() ==> pair_lt(planned_key(g), planned_key(gs[p])),
        g.members@ == seq![i as usize],
        planned_key(g) == group_of(event_id, batch[i]),
    ensures
        plan_of(gs.insert(p, g), event_id, batch, i + 1),
{
    let ns = gs.insert(p, g);
    gs.insert_ensures(p, g);
    assert forall|a: int, b: int| 0 <= a < b < ns.len() implies pair_lt(
        planned_key(#[trigger] ns[a]),
        planned_key(#[trigger] ns[b]),
    ) by {
        if b < p {
        } else if b == p {
        } else if a < p {
            assert(ns[b] == gs[b - 1]);
        } else if a == p {
            assert(ns[b] == gs[b - 1]);
            if b - 1 > p {
                lemma_pair_lt_trans(planned_key(g), planned_key(gs[p]), planned_key(gs[b - 1]));
            }
        } else {
            assert(ns[a] == gs[a - 1]);
            assert(ns[b] == gs[b - 1]);
        }
    }
    assert forall|k: int| 0 <= k < ns.len() implies members_ok(#[trigger] ns[k], event_id, batch, i + 1) by {
        if k < p {
            assert(members_ok(gs[k], event_id, batch, i));
        } else if k == p {
            assert(ns[k] == g);
            assert(g.members@[0] == i as usize);
        } else {
            assert(ns[k] == gs[k - 1]);
            assert(members_ok(gs[k - 1], event_id, batch, i));
        }
    }
    assert forall|j: int| 0 <= j < i + 1 implies covered(ns, j) by {
        if j == i {
            assert(ns[p].members@.contains(i as usize)) by {
                assert(ns[p].members@[0] == i as usize);
            }
        } else {
            assert(covered(gs, j));
            let k = choose|k: int| 0 <= k < gs.len() && (#[trigger] gs[k]).members@.contains(j as usize);
            if k < p {
                assert(ns[k] == gs[k]);
            } else {
                assert(ns[k + 1] == gs[k]);
            }
        }
    }
}

proof fn lemma_grow_group(
    gs: Seq<PlannedGroup>,
    p: int,
    g: PlannedGroup,
    event_id: u128,
    batch: Seq<EligibleRegistration>,
    i: int,
)
    requires
        0 <= i < batch.len(),
        batch.len() <= usize::MAX,
        plan_of(gs, event_id, batch, i),
        0 <= p < gs.len(),
        planned_key(g) == planned_key(gs[p]),
        g.members@ == gs[p].members@.push(i as usize),
        planned_key(g) == group_of(event_id, batch[i]),
    ensures
        plan_of(gs.update(p, g), event_id, batch, i + 1),
{
    let ns = gs.update(p, g);
    assert forall|a: int, b: int| 0 <= a < b < ns.len() implies pair_lt(
        planned_key(#[trigger] ns[a]),
        planned_key(#[trigger] ns[b]),
    ) by {
        assert(planned_key(ns[a]) == planned_key(gs[a]));
        assert(planned_key(ns[b]) == planned_key(gs[b]));
    }
    assert forall|k: int| 0 <= k < ns.len() implies members_ok(#[trigger] ns[k], event_id, batch, i + 1) by {
        assert(members_ok(gs[k], event_id, batch, i));
        if k == p {
            let old_m = gs[p].members@;
            let m = g.members@;
            assert forall|x: int, y: int| 0 <= x < y < m.len() implies m[x] < m[y] by {
                assert(m[x] == old_m[x]);
                if y == old_m.len() {
                    assert(m[y] == i as usize);
                    assert((old_m[x] as int) < i);
                } else {
                    assert(m[y] == old_m[y]);
                }
            }
            assert forall|x: int| #![trigger m[x]] 0 <= x < m.len() implies (m[x] as int) < i + 1 && group_of(
                event_id,
                batch[m[x] as int],
            ) == planned_key(g) by {
                if x < old_m.len() {
                    assert(m[x] == old_m[x]);
                } else {
                    assert(m[x] == i as usize);
                }
            }
        }
    }
    assert forall|j: int| 0 <= j < i + 1 implies covered(ns, j) by {
        if j == i {
            assert(ns[p].members@[ns[p].members@.len() - 1] == i as usize);
        } else {
            assert(covered(gs, j));
            let k = choose|k: int| 0 <= k < gs.len() && (#[trigger] gs[k]).members@.contains(j as usize);
            if k == p {
                let x = choose|x: int| 0 <= x < gs[p].members@.len() && gs[p].members@[x] == j as usize;
                assert(ns[p].members@[x] == j as usize);
            } else {
                assert(ns[k] == gs[k]);
            }
        }
    }
}

/// Groups a batch of eligible registrations of an event: one group per
/// sale order for sale-linked registrations, one per event and calendar day
/// for walk-ins; groups ordered by (grouping, group key), each group's
/// members in walk order, every registration in a group.
pub fn plan_groups(event_id: u128, batch: &Vec<EligibleRegistration>) -> (r: Vec<PlannedGroup>)
    ensures
        plan_of(r@, event_id, batch@, batch@.len() as int),
{
    let mut groups: Vec<PlannedGroup> = Vec::new();
    let mut i: usize = 0;
    while i < batch.len()
        invariant
            i <= batch.len(),
            plan_of(groups@, event_id, batch@, i as int),
        decreases batch.len() - i,
    {
        let (k0, k1) = group_key_of(event_id, &batch[i]);
        let ghost key = (k0@, k1@);
        let mut p: usize = 0;
        let mut stop = false;
        let mut found = false;
        while p < groups.len() && !stop
            invariant
                key == (k0@, k1@),
                p <= groups.len(),
                !stop ==> !found,
                forall|q: int| 0 <= q < p ==> pair_lt(planned_key(#[trigger] groups@[q]), key),
                stop ==> p < groups.len() && !pair_lt(planned_key(groups@[p as int]), key) && found == (
                planned_key(groups@[p as int]) == key),
            decreases groups.len() - p, if stop { 0int } else { 1int },
        {
            let a0 = chars_of(groups[p].grouping.as_str());
            let a1 = chars_of(groups[p].group_key.as_str());
            if pair_less(&a0, &a1, &k0, &k1) {
                p = p + 1;
            } else {
                found = same_chars(&a0, &k0) && same_chars(&a1, &k1);
                stop = true;
            }
        }
        let ghost gs = groups@;
        if found {
            let mut g = groups.remove(p);
            g.members.push(i);
            groups.insert(p, g);
            proof {
                assert(groups@ =~= gs.update(p as int, g));
                lemma_grow_group(gs, p as int, g, event_id, batch@, i as int);
            }
        } else {
            let mut members: Vec<usize> = Vec::new();
            members.push(i);
            let g = PlannedGroup { grouping: string_of(&k0), group_key: string_of(&k1), members };
            proof {
                if p < gs.len() {
                    lemma_pair_lt_total(planned_key(gs[p as int]), key);
                }
            }
            groups.insert(p, g);
            proof {
                lemma_insert_new_group(gs, p as int, g, event_id, batch@, i as int);
            }
        }
        i = i + 1;
    }
    groups
}

/// Every registration of a planned batch lands in exactly one group.
pub proof fn lemma_one_group_each(gs: Seq<PlannedGroup>, event_id: u128, batch: Seq<EligibleRegistration>, j: int)
    requires
        plan_of(gs, event_id, batch, batch.len() as int),
        batch.len() <= usize::MAX,
        0 <= j < batch.len(),
    ensures
        covered(gs, j),
        forall|k1: int, k2: int|
            0 <= k1 < gs.len() && 0 <= k2 < gs.len() && (#[trigger] gs[k1]).members@.contains(j as usize)
                && (#[trigger] gs[k2]).members@.contains(j as usize) ==> k1 == k2,
{
    assert forall|k1: int, k2: int|
        0 <= k1 < gs.len() && 0 <= k2 < gs.len() && (#[trigger] gs[k1]).members@.contains(j as usize)
            && (#[trigger] gs[k2]).members@.contains(j as usize) implies k1 == k2 by {
        assert(members_ok(gs[k1], event_id, batch, batch.len() as int));
        assert(members_ok(gs[k2], event_id, batch, batch.len() as int));
        let x1 = choose|x: int| 0 <= x < gs[k1].members@.len() && gs[k1].members@[x] == j as usize;
        let x2 = choose|x: int| 0 <= x < gs[k2].members@.len() && gs[k2].members@[x] == j as usize;
        assert(gs[k1].members@[x1] == j as usize);
        assert(gs[k2].members@[x2] == j as usize);
        assert(planned_key(gs[k1]) == group_of(event_id, batch[j]));
        assert(planned_key(gs[k2]) == group_of(event_id, batch[j]));
        lemma_pair_lt_asym(planned_key(gs[k1]), planned_key(gs[k2]));
        if k1 < k2 {
            assert(pair_lt(planned_key(gs[k1]), planned_key(gs[k2])));
        } else if k2 < k1 {
            assert(pair_lt(planned_key(gs[k2]), planned_key(gs[k1])));
        }
    }
}

/// The group keys: a sale-linked registration is keyed by its sale order
/// under `per_order`; a walk-in created at an instant chrono can place is
/// keyed by the event and the UTC calendar day of that very instant under
/// `per_event_day` (a walk-in without a placeable instant goes under
/// `unknown-day`).
pub proof fn lemma_group_keys(event_id: u128, r: EligibleRegistration)
    ensures
        r.sale_order_id is Some ==> group_of(event_id, r) == ("per_order"@, uuid_text_spec(r.sale_order_id->0)),
        r.sale_order_id is None ==> group_of(event_id, r) == ("per_event_day"@, uuid_text_spec(event_id) + ":"@ + match r.created_at {
            Some(instant) => match utc_day_spec(instant) {
                Some(day) => day,
                None => "unknown-day"@,
            },
            None => "unknown-day"@,
        }),
{
}

/// Two walk-ins of one event created on UTC days chrono can place share a
/// group key exactly when they were created on the same day.
pub proof fn lemma_walk_ins_share_key_iff_same_day(event_id: u128, r1: EligibleRegistration, r2: EligibleRegistration, d1: Seq<char>, d2: Seq<char>)
    requires
        r1.sale_order_id is None,
        r2.sale_order_id is None,
        r1.created_at matches Some(m1) && utc_day_spec(m1) == Some(d1),
        r2.created_at matches Some(m2) && utc_day_spec(m2) == Some(d2),
    ensures
        (group_of(event_id, r1) == group_of(event_id, r2)) == (d1 == d2),
{
    let p = uuid_text_spec(event_id) + ":"@;
    let k1 = p + d1;
    let k2 = p + d2;
    assert(group_of(event_id, r1).1 =~= k1);
    assert(group_of(event_id, r2).1 =~= k2);
    assert(k1.subrange(p.len() as int, k1.len() as int) =~= d1);
    assert(k2.subrange(p.len() as int, k2.len() as int) =~= d2);
}

/// In a planned batch, two walk-ins created on UTC days chrono can place are
/// in one group exactly when they were created on the same day: walk-ins of
/// different days never share a lead, and walk-ins of one day always do.
pub proof fn lemma_plan_groups_walk_ins_by_day(
    gs: Seq<PlannedGroup>,
    event_id: u128,
    batch: Seq<EligibleRegistration>,
    j1: int,
    j2: int,
    d1: Seq<char>,
    d2: Seq<char>,
)
    requires
        plan_of(gs, event_id, batch, batch.len() as int),
        batch.len() <= usize::MAX,
        0 <= j1 < batch.len(),
        0 <= j2 < batch.len(),
        batch[j1].sale_order_id is None,
        batch[j2].sale_order_id is None,
        batch[j1].created_at matches Some(m1) && utc_day_spec(m1) == Some(d1),
        batch[j2].created_at matches Some(m2) && utc_day_spec(m2) == Some(d2),
    ensures
        (exists|k: int| 0 <= k < gs.len() && (#[trigger] gs[k]).members@.contains(j1 as usize)
            && gs[k].members@.contains(j2 as usize)) == (d1 == d2),
{
    lemma_walk_ins_share_key_iff_same_day(event_id, batch[j1], batch[j2], d1, d2);
    lemma_one_group_each(gs, event_id, batch, j1);
    lemma_one_group_each(gs, event_id, batch, j2);
    let k1 = choose|k: int| 0 <= k < gs.len() && (#[trigger] gs[k]).members@.contains(j1 as usize);
    let k2 = choose|k: int| 0 <= k < gs.len() && (#[trigger] gs[k]).members@.contains(j2 as usize);
    assert(members_ok(gs[k1], event_id, batch, batch.len() as int));
    assert(members_ok(gs[k2], event_id, batch, batch.len() as int));
    let x1 = choose|x: int| 0 <= x < gs[k1].members@.len() && gs[k1].members@[x] == j1 as usize;
    let x2 = choose|x: int| 0 <= x < gs[k2].members@.len() && gs[k2].members@[x] == j2 as usize;
    assert(gs[k1].members@[x1] == j1 as usize);
    assert(gs[k2].members@[x2] == j2 as usize);
    assert(planned_key(gs[k1]) == group_of(event_id, batch[j1]));
    assert(planned_key(gs[k2]) == group_of(event_id, batch[j2]));
    if d1 == d2 {
        lemma_pair_lt_asym(planned_key(gs[k1]), planned_key(gs[k2]));
        if k1 < k2 {
            assert(pair_lt(planned_key(gs[k1]), planned_key(gs[k2])));
        } else if k2 < k1 {
            assert(pair_lt(planned_key(gs[k2]), planned_key(gs[k1])));
        }
        assert(k1 == k2);
        assert(gs[k1].members@.contains(j2 as usize));
    } else {
        assert forall|k: int| 0 <= k < gs.len() && (#[trigger] gs[k]).members@.contains(j1 as usize)
            implies !gs[k].members@.contains(j2 as usize) by {
            assert(k == k1);
            if gs[k].members@.contains(j2 as usize) {
                assert(k == k2);
            }
        }
    }
}

/// The sink's views of a group's members, in member order.
pub fn candidates_of(batch: &Vec<EligibleRegistration>, members: &Vec<usize>) -> (r: Vec<LeadRegistrationView>)
    requires
        forall|x: int| 0 <= x < members@.len() ==> (#[trigger] members@[x] as int) < batch@.len(),
    ensures
        r@.len() == members@.len(),
        forall|x: int| 0 <= x < members@.len() ==> {
            let m = batch@[members@[x] as int];
            &&& (#[trigger] r@[x]).id == m.id
            &&& r@[x].name == m.name
            &&& r@[x].email == m.email
            &&& r@[x].phone == m.phone
            &&& r@[x].company_name == m.company_name
            &&& r@[x].partner_id == m.partner_id
            &&& r@[x].sale_order_id == m.sale_order_id
        },
{
    let mut out: Vec<LeadRegistrationView> = Vec::new();
    let mut x: usize = 0;
    while x < members.len()
        invariant
            x <= members.len(),
            forall|y: int| 0 <= y < members@.len() ==> (#[trigger] members@[y] as int) < batch@.len(),
            out@.len() == x,
            forall|y: int| 0 <= y < x ==> {
                let m = batch@[members@[y] as int];
                &&& (#[trigger] out@[y]).id == m.id
                &&& out@[y].name == m.name
                &&& out@[y].email == m.email
                &&& out@[y].phone == m.phone
                &&& out@[y].company_name == m.company_name
                &&& out@[y].partner_id == m.partner_id
                &&& out@[y].sale_order_id == m.sale_order_id
            },
        decreases members.len() - x,
    {
        let idx = members[x];
        assert((members@[x as int] as int) < batch@.len());
        out.push(view_of(&batch[idx]));
        x = x + 1;
    }
    out
}

/// The group the sink receives: the rule, the event, the planned group's
/// grouping and key, and its full membership.
pub fn lead_group(rule_id: u128, event_id: u128, planned: &PlannedGroup, registrations: Vec<LeadRegistrationView>) -> (r: LeadGroup)
    ensures
        r.rule_id == rule_id,
        r.event_id == event_id,
        r.group_key@ == planned.group_key@,
        r.grouping@ == planned.grouping@,
        r.registrations@ == registrations@,
{
    LeadGroup {
        rule_id,
        event_id,
        group_key: planned.group_key.clone(),
        grouping: planned.grouping.clone(),
        registrations,
    }
}

} // verus!
