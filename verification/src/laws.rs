//! The properties the decoder keeps, stated over the spec-level models and
//! proved once and for all.
//!
//! The per-call facts — what one decode returns, that each transient buffer
//! a decode acquires is released exactly once — live in the `ensures` of
//! `TypedInit::from_raw` and of the accessors; here stand the laws that
//! relate whole traversals to the graph they walk.

use vstd::prelude::*;
use crate::error::ErrorView;
use crate::foreign::{arg_name_bytes, dag_args, list_elems, RawValue};
use crate::init::{
    lossy_utf8, spec_dag_get, spec_dag_pairs_from, spec_decode, spec_list_from, spec_list_get,
    InitView,
};

verus! {

/// Decoding a bit succeeds, with the foreign integer, exactly where that
/// integer is 0 or 1; anything else fails with `InvalidBitRange`.
pub proof fn lemma_decode_bit(g: Seq<RawValue>, h: int, b: i8)
    requires
        0 <= h < g.len(),
        g[h] == RawValue::Bit(b),
    ensures
        (b == 0 || b == 1) ==> spec_decode(g, h) == Ok::<InitView, ErrorView>(InitView::Bit(b)),
        !(b == 0 || b == 1) ==> spec_decode(g, h) == Err::<InitView, ErrorView>(
            ErrorView::InvalidBitRange,
        ),
{
}

/// Decoding a bit array of length at least 1 yields an owned sequence equal,
/// index for index, to the foreign buffer; an empty one fails with
/// `NullPointer`. (That the transient buffer is released exactly once is the
/// ledger clause of `TypedInit::from_raw`.)
pub proof fn lemma_decode_bits(g: Seq<RawValue>, h: int, v: Vec<i8>)
    requires
        0 <= h < g.len(),
        g[h] == RawValue::Bits(v),
    ensures
        v@.len() >= 1 ==> spec_decode(g, h) == Ok::<InitView, ErrorView>(InitView::Bits(v@)),
        v@.len() == 0 ==> spec_decode(g, h) == Err::<InitView, ErrorView>(ErrorView::NullPointer),
{
}

/// Traversing a list whose elements all decode yields exactly one element
/// per index, in index order, then ends. The list's reported length is a
/// pure function of the foreign graph, which no traversal changes, so a
/// partial traversal leaves it untouched.
pub proof fn lemma_list_iterate_yields_all(g: Seq<RawValue>, h: int)
    requires
        0 <= h < g.len(),
        g[h] is List,
        forall|j: int| 0 <= j < list_elems(g, h).len() ==> #[trigger] spec_list_get(g, h, j)
            is Some,
    ensures
        spec_list_from(g, h, 0).len() == list_elems(g, h).len(),
        forall|j: int| 0 <= j < list_elems(g, h).len() ==> #[trigger] spec_list_from(g, h, 0)[j]
            == spec_list_get(g, h, j)->Some_0,
{
    lemma_list_from_all_ok(g, h, 0);
    assert forall|j: int| 0 <= j < list_elems(g, h).len() implies #[trigger] spec_list_from(
        g,
        h,
        0,
    )[j] == spec_list_get(g, h, j)->Some_0 by {
        assert(spec_list_from(g, h, 0)[j - 0] == spec_list_get(g, h, j)->Some_0);
    }
}

proof fn lemma_list_from_all_ok(g: Seq<RawValue>, h: int, i: int)
    requires
        0 <= h < g.len(),
        g[h] is List,
        0 <= i <= list_elems(g, h).len(),
        forall|j: int| i <= j < list_elems(g, h).len() ==> #[trigger] spec_list_get(g, h, j)
            is Some,
    ensures
        spec_list_from(g, h, i).len() == list_elems(g, h).len() - i,
        forall|j: int| i <= j < list_elems(g, h).len() ==> #[trigger] spec_list_from(g, h, i)[j
            - i] == spec_list_get(g, h, j)->Some_0,
    decreases list_elems(g, h).len() - i,
{
    if i < list_elems(g, h).len() {
        lemma_list_from_all_ok(g, h, i + 1);
        assert forall|j: int| i <= j < list_elems(g, h).len() implies #[trigger] spec_list_from(
            g,
            h,
            i,
        )[j - i] == spec_list_get(g, h, j)->Some_0 by {
            if j > i {
                assert(spec_list_from(g, h, i + 1)[j - (i + 1)] == spec_list_get(g, h, j)->Some_0);
            }
        }
    }
}

/// The pairs a dag traversal yields when every argument value decodes: one
/// pair per named argument, none for positional ones.
pub open spec fn spec_named_pairs_from(g: Seq<RawValue>, h: int, i: int) -> Seq<
    (Seq<char>, InitView),
>
    decreases dag_args(g, h).len() - i,
{
    if i < 0 || i >= dag_args(g, h).len() {
        Seq::empty()
    } else {
        match (spec_dag_get(g, h, i), arg_name_bytes(g, h, i)) {
            (Some(v), Some(b)) => seq![(lossy_utf8(b), v)] + spec_named_pairs_from(g, h, i + 1),
            _ => spec_named_pairs_from(g, h, i + 1),
        }
    }
}

/// How many of the arguments from index `i` on carry a name.
pub open spec fn named_count(g: Seq<RawValue>, h: int, i: int) -> nat
    decreases dag_args(g, h).len() - i,
{
    if i < 0 || i >= dag_args(g, h).len() {
        0
    } else if arg_name_bytes(g, h, i) is Some {
        1 + named_count(g, h, i + 1)
    } else {
        named_count(g, h, i + 1)
    }
}

/// Traversing a dag node of M arguments, K of them named, whose values all
/// decode, yields exactly the K named (name, value) pairs, in the arguments'
/// original relative order; the M − K positional arguments are skipped
/// silently and never end the traversal early.
pub proof fn lemma_dag_iterate_named_pairs(g: Seq<RawValue>, h: int)
    requires
        0 <= h < g.len(),
        g[h] is Dag,
        forall|j: int| 0 <= j < dag_args(g, h).len() ==> #[trigger] spec_dag_get(g, h, j) is Some,
    ensures
        spec_dag_pairs_from(g, h, 0) == spec_named_pairs_from(g, h, 0),
        spec_dag_pairs_from(g, h, 0).len() == named_count(g, h, 0),
{
    lemma_dag_pairs_from_all_ok(g, h, 0);
}

proof fn lemma_dag_pairs_from_all_ok(g: Seq<RawValue>, h: int, i: int)
    requires
        0 <= h < g.len(),
        g[h] is Dag,
        0 <= i,
        forall|j: int| i <= j < dag_args(g, h).len() ==> #[trigger] spec_dag_get(g, h, j) is Some,
    ensures
        spec_dag_pairs_from(g, h, i) == spec_named_pairs_from(g, h, i),
        spec_dag_pairs_from(g, h, i).len() == named_count(g, h, i),
    decreases dag_args(g, h).len() - i,
{
    if i < dag_args(g, h).len() {
        lemma_dag_pairs_from_all_ok(g, h, i + 1);
    }
}

} // verus!
