//! The aggregation pass: a single linear, stable run-length merge.
//!
//! Consecutive records with the same identity tuple collapse into one record
//! whose `quantity` counts the run; non-consecutive duplicates are left
//! apart on purpose (backends enumerate identical cards contiguously).

use vstd::prelude::*;

use crate::model::{same_identity, Device};
use crate::model::eq_identity;

verus! {

/// Every record carries quantity 1, as backends hand their lists out.
pub open spec fn all_quantities_one(s: Seq<Device>) -> bool {
    forall|i: int| 0 <= i < s.len() ==> #[trigger] s[i].quantity == 1
}

/// The record `cand` with its count raised by one; every identity field is
/// kept.
pub open spec fn bump_quantity(cand: Device) -> Device {
    Device {
        model: cand.model,
        cuda: cand.cuda,
        clocks: cand.clocks,
        memory: cand.memory,
        quantity: (cand.quantity + 1) as usize,
    }
}

/// The merged output for the input `seq![cand] + rest`: records of `rest`
/// whose identity matches the current candidate raise its count; the first
/// mismatch emits the candidate and starts a new one.
pub open spec fn spec_aggregate_from(rest: Seq<Device>, cand: Device) -> Seq<Device>
    decreases rest.len(),
{
    if rest.len() == 0 {
        seq![cand]
    } else if same_identity(rest[0], cand) {
        spec_aggregate_from(rest.drop_first(), bump_quantity(cand))
    } else {
        seq![cand] + spec_aggregate_from(rest.drop_first(), rest[0])
    }
}

/// The merged output for a whole input sequence; empty input gives empty
/// output.
pub open spec fn spec_aggregate(s: Seq<Device>) -> Seq<Device> {
    if s.len() == 0 {
        Seq::<Device>::empty()
    } else {
        spec_aggregate_from(s.drop_first(), s[0])
    }
}

/// Merges consecutive records of the same identity into counted groups.
///
/// The input is one backend's raw enumeration, each record counting a single
/// card; the output is its run-length merge, in first-seen order.
pub fn aggregate(devices: Vec<Device>) -> (r: Vec<Device>)
    requires
        all_quantities_one(devices@),
    ensures
        r@ == spec_aggregate(devices@),
{
    let ghost input = devices@;
    let mut devices = devices;
    let mut out: Vec<Device> = Vec::new();
    if devices.len() == 0 {
        proof {
            assert(out@ =~= spec_aggregate(input));
        }
        return out;
    }
    let mut cand = devices.remove(0);
    proof {
        assert(devices@ =~= input.drop_first());
        assert(out@ + spec_aggregate_from(devices@, cand) =~= spec_aggregate(input));
    }
    while devices.len() > 0
        invariant
            all_quantities_one(devices@),
            input.len() <= usize::MAX,
            cand.quantity + devices@.len() <= input.len(),
            cand.quantity >= 1,
            out@ + spec_aggregate_from(devices@, cand) == spec_aggregate(input),
        decreases devices@.len(),
    {
        let ghost before = devices@;
        let ghost prev = cand;
        let next = devices.remove(0);
        proof {
            assert(devices@ =~= before.drop_first());
        }
        if eq_identity(&next, &cand) {
            cand.quantity = cand.quantity + 1;
            proof {
                assert(cand == bump_quantity(prev));
                assert(spec_aggregate_from(before, prev) == spec_aggregate_from(
                    devices@,
                    cand,
                ));
            }
        } else {
            let finished = cand;
            cand = next;
            out.push(finished);
            proof {
                assert(spec_aggregate_from(before, prev) == seq![prev] + spec_aggregate_from(
                    devices@,
                    cand,
                ));
                assert(out@ + spec_aggregate_from(devices@, cand) =~= out@.drop_last() + (
                seq![prev] + spec_aggregate_from(devices@, cand)));
            }
        }
    }
    let ghost last = cand;
    out.push(cand);
    proof {
        assert(out@ =~= out@.drop_last() + seq![last]);
        assert(out@ =~= spec_aggregate(input));
    }
    out
}

/// The total number of cards described by a sequence of records.
pub open spec fn sum_quantities(s: Seq<Device>) -> int
    decreases s.len(),
{
    if s.len() == 0 {
        0
    } else {
        s[0].quantity + sum_quantities(s.drop_first())
    }
}

proof fn lemma_sum_from(rest: Seq<Device>, cand: Device)
    requires
        all_quantities_one(rest),
        cand.quantity + rest.len() <= usize::MAX,
    ensures
        sum_quantities(spec_aggregate_from(rest, cand)) == cand.quantity + rest.len(),
    decreases rest.len(),
{
    if rest.len() == 0 {
        assert(spec_aggregate_from(rest, cand) == seq![cand]);
        assert(seq![cand].drop_first() =~= Seq::<Device>::empty());
        assert(sum_quantities(Seq::<Device>::empty()) == 0);
        assert(sum_quantities(seq![cand]) == cand.quantity);
    } else {
        assert(all_quantities_one(rest.drop_first())) by {
            assert(forall|i: int|
                0 <= i < rest.drop_first().len() ==> #[trigger] rest.drop_first()[i].quantity
                    == rest[i + 1].quantity);
        }
        if same_identity(rest[0], cand) {
            lemma_sum_from(rest.drop_first(), bump_quantity(cand));
        } else {
            assert(rest[0].quantity == 1);
            lemma_sum_from(rest.drop_first(), rest[0]);
            let tail = spec_aggregate_from(rest.drop_first(), rest[0]);
            assert((seq![cand] + tail)[0] == cand);
            assert((seq![cand] + tail).drop_first() =~= tail);
        }
    }
}

/// Aggregation preserves the card count: on a raw list whose records each
/// count one card, the merged records' quantities sum to the input length.
pub proof fn lemma_aggregate_preserves_count(s: Seq<Device>)
    requires
        all_quantities_one(s),
        s.len() <= usize::MAX,
    ensures
        sum_quantities(spec_aggregate(s)) == s.len(),
{
    if s.len() > 0 {
        assert(all_quantities_one(s.drop_first())) by {
            assert(forall|i: int|
                0 <= i < s.drop_first().len() ==> #[trigger] s.drop_first()[i].quantity == s[i
                    + 1].quantity);
        }
        assert(s[0].quantity == 1);
        lemma_sum_from(s.drop_first(), s[0]);
    }
}

proof fn lemma_adjacent_from(rest: Seq<Device>, cand: Device)
    ensures
        spec_aggregate_from(rest, cand).len() >= 1,
        same_identity(spec_aggregate_from(rest, cand)[0], cand),
        forall|j: int|
            0 <= j < spec_aggregate_from(rest, cand).len() - 1 ==> !same_identity(
                #[trigger] spec_aggregate_from(rest, cand)[j],
                spec_aggregate_from(rest, cand)[j + 1],
            ),
    decreases rest.len(),
{
    let r = spec_aggregate_from(rest, cand);
    if rest.len() == 0 {
        assert(same_identity(cand, cand));
    } else if same_identity(rest[0], cand) {
        lemma_adjacent_from(rest.drop_first(), bump_quantity(cand));
        assert(same_identity(r[0], bump_quantity(cand)));
        assert(same_identity(r[0], cand));
    } else {
        lemma_adjacent_from(rest.drop_first(), rest[0]);
        let tail = spec_aggregate_from(rest.drop_first(), rest[0]);
        assert(r =~= seq![cand] + tail);
        assert(r[0] == cand);
        assert(same_identity(cand, cand));
        assert(!same_identity(r[0], r[1])) by {
            assert(r[1] == tail[0]);
            assert(same_identity(tail[0], rest[0]));
            assert(!same_identity(rest[0], cand));
        }
        assert(forall|j: int| 1 <= j < r.len() - 1 ==> !same_identity(#[trigger] r[j], r[j + 1]))
            by {
            assert(forall|j: int|
                1 <= j < r.len() - 1 ==> #[trigger] r[j] == tail[j - 1] && r[j + 1] == tail[j]);
        }
    }
}

/// No two neighbouring records of the merged output share an identity: each
/// maximal run of identical raw records becomes exactly one output record.
pub proof fn lemma_aggregate_adjacent_distinct(s: Seq<Device>)
    ensures
        forall|j: int|
            0 <= j < spec_aggregate(s).len() - 1 ==> !same_identity(
                #[trigger] spec_aggregate(s)[j],
                spec_aggregate(s)[j + 1],
            ),
{
    if s.len() > 0 {
        lemma_adjacent_from(s.drop_first(), s[0]);
    }
}

/// Some record of `s` has the identity of `d`.
pub open spec fn contains_identity(s: Seq<Device>, d: Device) -> bool {
    exists|i: int| 0 <= i < s.len() && same_identity(#[trigger] s[i], d)
}

proof fn lemma_contains_identity_drop_first(s: Seq<Device>, d: Device)
    requires
        s.len() > 0,
        contains_identity(s.drop_first(), d),
    ensures
        contains_identity(s, d),
{
    let i = choose|i: int|
        0 <= i < s.drop_first().len() && same_identity(#[trigger] s.drop_first()[i], d);
    assert(s[i + 1] == s.drop_first()[i]);
    assert(same_identity(s[i + 1], d));
}

proof fn lemma_identities_from(rest: Seq<Device>, cand: Device)
    ensures
        forall|j: int|
            0 <= j < spec_aggregate_from(rest, cand).len() ==> same_identity(
                #[trigger] spec_aggregate_from(rest, cand)[j],
                cand,
            ) || contains_identity(rest, spec_aggregate_from(rest, cand)[j]),
    decreases rest.len(),
{
    let r = spec_aggregate_from(rest, cand);
    if rest.len() == 0 {
        assert(same_identity(r[0], cand));
    } else if same_identity(rest[0], cand) {
        lemma_identities_from(rest.drop_first(), bump_quantity(cand));
        let rr = spec_aggregate_from(rest.drop_first(), bump_quantity(cand));
        assert(r == rr);
        assert forall|j: int|
            0 <= j < r.len() implies same_identity(#[trigger] r[j], cand) || contains_identity(
            rest,
            r[j],
        ) by {
            if same_identity(rr[j], bump_quantity(cand)) {
                assert(same_identity(r[j], cand));
            } else {
                lemma_contains_identity_drop_first(rest, r[j]);
            }
        }
    } else {
        lemma_identities_from(rest.drop_first(), rest[0]);
        let tail = spec_aggregate_from(rest.drop_first(), rest[0]);
        assert(r =~= seq![cand] + tail);
        assert forall|j: int|
            0 <= j < r.len() implies same_identity(#[trigger] r[j], cand) || contains_identity(
            rest,
            r[j],
        ) by {
            if j == 0 {
                assert(r[0] == cand);
                assert(same_identity(r[0], cand));
            } else {
                assert(r[j] == tail[j - 1]);
                if same_identity(tail[j - 1], rest[0]) {
                    assert(same_identity(rest[0], r[j]));
                    assert(contains_identity(rest, r[j]));
                } else {
                    lemma_contains_identity_drop_first(rest, r[j]);
                }
            }
        }
    }
}

/// Aggregation invents nothing: every merged record has the identity of some
/// raw input record.
pub proof fn lemma_aggregate_identities_from_input(s: Seq<Device>)
    ensures
        forall|j: int|
            0 <= j < spec_aggregate(s).len() ==> contains_identity(
                s,
                #[trigger] spec_aggregate(s)[j],
            ),
{
    if s.len() > 0 {
        lemma_identities_from(s.drop_first(), s[0]);
        let r = spec_aggregate(s);
        assert forall|j: int| 0 <= j < r.len() implies contains_identity(s, #[trigger] r[j]) by {
            if same_identity(r[j], s[0]) {
                assert(same_identity(s[0], r[j]));
                assert(contains_identity(s, r[j]));
            } else {
                lemma_contains_identity_drop_first(s, r[j]);
            }
        }
    }
}

/// Non-consecutive duplicates are not merged: two records of one identity
/// with a different record between them stay three output records.
pub proof fn lemma_interleaved_not_merged(a: Device, b: Device)
    requires
        !same_identity(a, b),
    ensures
        spec_aggregate(seq![a, b, a]) == seq![a, b, a],
{
    assert(!same_identity(b, a));
    let s = seq![a, b, a];
    assert(s.drop_first() =~= seq![b, a]);
    assert(seq![b, a].drop_first() =~= seq![a]);
    assert(seq![a].drop_first() =~= Seq::<Device>::empty());
    assert(spec_aggregate_from(seq![a], b) == seq![b] + spec_aggregate_from(
        Seq::<Device>::empty(),
        a,
    ));
    assert(spec_aggregate(s) =~= seq![a, b, a]);
}

/// The round trip of a doubled record: two records of one identity followed
/// by a different one merge to that record counted twice, then the other.
pub proof fn lemma_doubled_then_other(x1: Device, x2: Device, y: Device)
    requires
        same_identity(x1, x2),
        !same_identity(x1, y),
    ensures
        spec_aggregate(seq![x1, x2, y]) == seq![bump_quantity(x1), y],
{
    let s = seq![x1, x2, y];
    assert(s.drop_first() =~= seq![x2, y]);
    assert(seq![x2, y].drop_first() =~= seq![y]);
    assert(seq![y].drop_first() =~= Seq::<Device>::empty());
    assert(same_identity(x2, x1));
    assert(!same_identity(y, bump_quantity(x1)));
    assert(spec_aggregate_from(seq![y], bump_quantity(x1)) == seq![bump_quantity(x1)]
        + spec_aggregate_from(Seq::<Device>::empty(), y));
    assert(spec_aggregate(s) =~= seq![bump_quantity(x1), y]);
}

/// Empty input aggregates to empty output.
pub proof fn lemma_aggregate_empty()
    ensures
        spec_aggregate(Seq::<Device>::empty()) == Seq::<Device>::empty(),
{
}


} // verus!
