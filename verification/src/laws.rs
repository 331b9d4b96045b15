//! Laws of the fan-in sink and of the statement model.
//!
//! The coordinator runs its tasks one after another, so the output is
//! simply their lines in task order; but nothing more than per-producer
//! order is ever promised.  The theorems here cover every interleaving:
//! however statements from concurrent producers arrive at the sink, the
//! lines written for one producer keep that producer's emission order,
//! and every emitted statement is written exactly once.

use vstd::prelude::*;
use crate::chars::lemma_dec_digits;
use crate::encode::{enc_ref, enc_statement};
use crate::ident::{label_of, seg_label, wf_segs, AnonSegV};
use crate::statement::{wf_statement, RefV, StatementV};

verus! {

/// One arrival at the sink: the producer it came from and the statement.
pub type Arrival = (int, StatementV);

/// The statements of producer `k` among the arrivals, in arrival order.
pub open spec fn project(arrivals: Seq<Arrival>, k: int) -> Seq<StatementV>
    decreases arrivals.len(),
{
    if arrivals.len() == 0 {
        Seq::empty()
    } else {
        (if arrivals[0].0 == k {
            seq![arrivals[0].1]
        } else {
            Seq::empty()
        }) + project(arrivals.drop_first(), k)
    }
}

/// The lines the sink writes for producer `k`, in output order: the
/// sink writes one line per arrival, in arrival order.
pub open spec fn project_lines(arrivals: Seq<Arrival>, k: int) -> Seq<Seq<char>>
    decreases arrivals.len(),
{
    if arrivals.len() == 0 {
        Seq::empty()
    } else {
        (if arrivals[0].0 == k {
            seq![enc_statement(arrivals[0].1)]
        } else {
            Seq::empty()
        }) + project_lines(arrivals.drop_first(), k)
    }
}

/// The arrivals are an interleaving of the producers' emissions: every
/// arrival belongs to a producer, and each producer's statements arrive
/// exactly in its emission order.
pub open spec fn is_interleaving(emissions: Seq<Seq<StatementV>>, arrivals: Seq<Arrival>)
    -> bool {
    &&& forall|t: int| 0 <= t < arrivals.len()
        ==> 0 <= (#[trigger] arrivals[t]).0 < emissions.len()
    &&& forall|k: int| 0 <= k < emissions.len()
        ==> project(arrivals, k) == #[trigger] emissions[k]
}

/// The lines written for one producer are the encodings of its
/// projected statements, in order.
proof fn lemma_project_lines(arrivals: Seq<Arrival>, k: int)
    ensures
        project_lines(arrivals, k) == project(arrivals, k).map_values(
            |s: StatementV| enc_statement(s)),
    decreases arrivals.len(),
{
    let f = |s: StatementV| enc_statement(s);
    if arrivals.len() == 0 {
        assert(project_lines(arrivals, k) =~= project(arrivals, k).map_values(f));
    } else {
        lemma_project_lines(arrivals.drop_first(), k);
        assert(project_lines(arrivals, k) =~= project(arrivals, k).map_values(f)) by {
            let rest = project(arrivals.drop_first(), k);
            if arrivals[0].0 == k {
                assert(project(arrivals, k) =~= seq![arrivals[0].1] + rest);
            } else {
                assert(project(arrivals, k) =~= rest);
            }
        }
    }
}

/// Statements from one producer are written in that producer's order:
/// for any interleaving of the emissions, the lines the sink writes for
/// producer `k`, taken in output order, are exactly the encodings of
/// producer `k`'s statements in emission order.
pub proof fn lemma_fan_in_order(emissions: Seq<Seq<StatementV>>, arrivals: Seq<Arrival>,
    k: int)
    requires
        is_interleaving(emissions, arrivals),
        0 <= k < emissions.len(),
    ensures
        project_lines(arrivals, k) == emissions[k].map_values(
            |s: StatementV| enc_statement(s)),
{
    lemma_project_lines(arrivals, k);
    assert(project(arrivals, k) == emissions[k]);
}

/// The number of statements of the first `n` producers.
pub open spec fn total_len_upto(emissions: Seq<Seq<StatementV>>, n: int) -> int
    decreases n,
{
    if n <= 0 {
        0
    } else {
        total_len_upto(emissions, n - 1) + emissions[n - 1].len()
    }
}

/// The number of arrivals attributed to the first `n` producers.
pub open spec fn proj_sum(arrivals: Seq<Arrival>, n: int) -> int
    decreases n,
{
    if n <= 0 {
        0
    } else {
        proj_sum(arrivals, n - 1) + project(arrivals, n - 1).len()
    }
}

/// Appending one arrival extends its producer's projection and no
/// other.
proof fn lemma_project_push(arrivals: Seq<Arrival>, x: Arrival, k: int)
    ensures
        project(arrivals.push(x), k) == project(arrivals, k)
            + (if x.0 == k { seq![x.1] } else { Seq::empty() }),
    decreases arrivals.len(),
{
    let w = arrivals.push(x);
    assert(w.len() == arrivals.len() + 1);
    if arrivals.len() == 0 {
        assert(w[0] == x);
        assert(w.drop_first() =~= Seq::<Arrival>::empty());
        assert(project(Seq::<Arrival>::empty(), k) == Seq::<StatementV>::empty());
        if x.0 == k {
            assert(project(w, k) =~= seq![x.1]);
            assert(project(arrivals, k) + seq![x.1] =~= seq![x.1]);
        } else {
            assert(project(w, k) =~= Seq::<StatementV>::empty());
            assert(project(arrivals, k) + Seq::<StatementV>::empty()
                =~= Seq::<StatementV>::empty());
        }
    } else {
        assert(w[0] == arrivals[0]);
        assert(w.drop_first() =~= arrivals.drop_first().push(x));
        lemma_project_push(arrivals.drop_first(), x, k);
        crate::chars::lemma_concat_assoc(
            if arrivals[0].0 == k { seq![arrivals[0].1] } else { Seq::empty() },
            project(arrivals.drop_first(), k),
            if x.0 == k { seq![x.1] } else { Seq::empty() },
        );
    }
}

/// One more arrival raises exactly its own producer's count.
proof fn lemma_proj_sum_push(arrivals: Seq<Arrival>, x: Arrival, n: int)
    ensures
        proj_sum(arrivals.push(x), n) == proj_sum(arrivals, n)
            + if 0 <= x.0 < n { 1 as int } else { 0 as int },
    decreases n,
{
    if n > 0 {
        lemma_proj_sum_push(arrivals, x, n - 1);
        lemma_project_push(arrivals, x, n - 1);
    }
}

/// An empty arrival sequence has empty projections.
proof fn lemma_proj_sum_empty(arrivals: Seq<Arrival>, n: int)
    requires
        arrivals.len() == 0,
    ensures
        proj_sum(arrivals, n) == 0,
    decreases n,
{
    if n > 0 {
        lemma_proj_sum_empty(arrivals, n - 1);
    }
}

/// A sequence of arrivals whose producers all lie below `n` is counted
/// fully by the first `n` projections.
proof fn lemma_proj_sum_total(arrivals: Seq<Arrival>, n: int)
    requires
        forall|t: int| 0 <= t < arrivals.len() ==> 0 <= (#[trigger] arrivals[t]).0 < n,
    ensures
        proj_sum(arrivals, n) == arrivals.len(),
    decreases arrivals.len(),
{
    if arrivals.len() == 0 {
        lemma_proj_sum_empty(arrivals, n);
    } else {
        let head = arrivals.drop_last();
        let x = arrivals.last();
        assert(arrivals =~= head.push(x));
        assert(forall|t: int| 0 <= t < head.len()
            ==> 0 <= (#[trigger] head[t]).0 < n) by {
            assert(forall|t: int| 0 <= t < head.len() ==> #[trigger] head[t] == arrivals[t]);
        }
        lemma_proj_sum_total(head, n);
        lemma_proj_sum_push(head, x, n);
    }
}

/// The projection counts agree with the emission lengths, prefix by
/// prefix.
proof fn lemma_total_eq(emissions: Seq<Seq<StatementV>>, arrivals: Seq<Arrival>, n: int)
    requires
        is_interleaving(emissions, arrivals),
        n <= emissions.len(),
    ensures
        proj_sum(arrivals, n) == total_len_upto(emissions, n),
    decreases n,
{
    if n > 0 {
        lemma_total_eq(emissions, arrivals, n - 1);
        assert(project(arrivals, n - 1) == emissions[n - 1]);
    }
}

/// Every emitted statement arrives exactly once: an interleaving of the
/// emissions has as many arrivals as the producers have statements.
pub proof fn lemma_fan_in_complete(emissions: Seq<Seq<StatementV>>, arrivals: Seq<Arrival>)
    requires
        is_interleaving(emissions, arrivals),
    ensures
        arrivals.len() == total_len_upto(emissions, emissions.len() as int),
{
    lemma_proj_sum_total(arrivals, emissions.len() as int);
    lemma_total_eq(emissions, arrivals, emissions.len() as int);
}

/// The arrivals of one producer on its own: its statements in order,
/// each tagged with the producer.
pub open spec fn tag(sts: Seq<StatementV>, k: int) -> Seq<Arrival>
    decreases sts.len(),
{
    if sts.len() == 0 {
        Seq::empty()
    } else {
        seq![(k, sts[0])] + tag(sts.drop_first(), k)
    }
}

/// Projection distributes over concatenation of arrival sequences.
proof fn lemma_project_append(x: Seq<Arrival>, y: Seq<Arrival>, k: int)
    ensures
        project(x + y, k) == project(x, k) + project(y, k),
    decreases x.len(),
{
    if x.len() == 0 {
        assert(x + y =~= y);
        assert(project(x, k) + project(y, k) =~= project(y, k));
    } else {
        assert((x + y)[0] == x[0]);
        assert((x + y).len() > 0);
        assert((x + y).drop_first() =~= x.drop_first() + y);
        lemma_project_append(x.drop_first(), y, k);
        crate::chars::lemma_concat_assoc(
            if x[0].0 == k { seq![x[0].1] } else { Seq::empty() },
            project(x.drop_first(), k),
            project(y, k),
        );
    }
}

/// A producer's own tagged statements project back to themselves; any
/// other producer sees nothing in them.
proof fn lemma_project_tag(sts: Seq<StatementV>, k: int, k2: int)
    ensures
        k2 == k ==> project(tag(sts, k), k2) == sts,
        k2 != k ==> project(tag(sts, k), k2) == Seq::<StatementV>::empty(),
    decreases sts.len(),
{
    if sts.len() == 0 {
        assert(project(tag(sts, k), k2) =~= Seq::<StatementV>::empty());
    } else {
        let w = tag(sts, k);
        assert(w[0] == (k, sts[0]));
        assert(w.len() > 0);
        assert(w.drop_first() =~= tag(sts.drop_first(), k));
        lemma_project_tag(sts.drop_first(), k, k2);
        if k2 == k {
            assert(project(w, k2) =~= seq![sts[0]] + project(tag(sts.drop_first(), k), k2));
            assert(seq![sts[0]] + sts.drop_first() =~= sts);
        } else {
            assert(project(w, k2) =~= project(tag(sts.drop_first(), k), k2));
        }
    }
}

/// Every tagged arrival carries its producer's tag.
proof fn lemma_tag_tags(sts: Seq<StatementV>, k: int)
    ensures
        tag(sts, k).len() == sts.len(),
        forall|t: int| 0 <= t < tag(sts, k).len() ==> (#[trigger] tag(sts, k)[t]).0 == k,
    decreases sts.len(),
{
    if sts.len() > 0 {
        lemma_tag_tags(sts.drop_first(), k);
        assert forall|t: int| 0 <= t < tag(sts, k).len()
            implies (#[trigger] tag(sts, k)[t]).0 == k by {
            if t > 0 {
                assert(tag(sts, k)[t] == tag(sts.drop_first(), k)[t - 1]);
            }
        }
    }
}

/// The sequential coordinator realizes the fan-in model: running one
/// task to completion and then the other, in order, is an interleaving
/// of the two emission sequences.
pub proof fn lemma_sequential_run_interleaves(a: Seq<StatementV>, b: Seq<StatementV>)
    ensures
        is_interleaving(seq![a, b], tag(a, 0) + tag(b, 1)),
{
    let arrivals = tag(a, 0) + tag(b, 1);
    lemma_tag_tags(a, 0);
    lemma_tag_tags(b, 1);
    assert forall|t: int| 0 <= t < arrivals.len()
        implies 0 <= (#[trigger] arrivals[t]).0 < 2 by {
        if t < tag(a, 0).len() {
            assert(arrivals[t] == tag(a, 0)[t]);
        } else {
            assert(arrivals[t] == tag(b, 1)[t - tag(a, 0).len()]);
        }
    }
    lemma_project_append(tag(a, 0), tag(b, 1), 0);
    lemma_project_append(tag(a, 0), tag(b, 1), 1);
    lemma_project_tag(a, 0, 0);
    lemma_project_tag(a, 0, 1);
    lemma_project_tag(b, 1, 0);
    lemma_project_tag(b, 1, 1);
    assert(project(arrivals, 0) =~= a);
    assert(project(arrivals, 1) =~= b);
    assert(seq![a, b][0] == a);
    assert(seq![a, b][1] == b);
}

/// The label of a well-formed identity path is never empty.
pub proof fn lemma_label_nonempty(segs: Seq<AnonSegV>)
    requires
        wf_segs(segs),
    ensures
        label_of(segs).len() > 0,
{
    lemma_dec_digits(segs[0].num);
    assert(seg_label(segs[0]).len() > 0);
}

/// Every statement's subject is non-empty: the encoded subject of a
/// well-formed statement has at least one character.
pub proof fn lemma_subject_nonempty(s: StatementV)
    requires
        wf_statement(s),
    ensures
        enc_ref(s.subject).len() > 0,
{
    match s.subject {
        RefV::Named(iri) => {
            assert(enc_ref(s.subject).len() == 2 + iri.len());
        }
        RefV::Anonymous(segs) => {
            lemma_label_nonempty(segs);
        }
    }
}

} // verus!
