//! The periodic reading of a finite table: position `k` of the endless
//! repetition of a table of length `len` is entry `k mod len`, where the
//! remainder is the mathematical one and is never negative.

use vstd::prelude::*;
use vstd::arithmetic::div_mod::{
    lemma_fundamental_div_mod,
    lemma_fundamental_div_mod_converse,
    lemma_mod_bound,
};

verus! {

/// The table index that position `k` falls on when a table of length `len`
/// is repeated without end in both directions.
pub open spec fn wrap(k: int, len: int) -> int {
    k % len
}

/// The sample at position `k` of the endless repetition of `table`.
pub open spec fn periodic<S>(table: Seq<S>, k: int) -> S {
    table[wrap(k, table.len() as int)]
}

/// The index one entry after index `i`: the first entry follows the last.
pub open spec fn step_forward(i: int, len: int) -> int {
    if i + 1 == len {
        0
    } else {
        i + 1
    }
}

/// The index one entry before index `i`: the last entry precedes the first.
pub open spec fn step_backward(i: int, len: int) -> int {
    if i == 0 {
        len - 1
    } else {
        i - 1
    }
}

/// The four table indices read around `position`: the one before it, its own,
/// and the two after it, each wrapped into the table.
pub open spec fn tap_indices(position: int, len: int) -> (int, int, int, int) {
    (
        wrap(position - 1, len),
        wrap(position, len),
        wrap(position + 1, len),
        wrap(position + 2, len),
    )
}

/// A wrapped index lies inside the table, whatever the position and however
/// short the table.
pub proof fn lemma_wrap_in_bounds(k: int, len: int)
    requires
        len > 0,
    ensures
        0 <= wrap(k, len) < len,
{
    lemma_mod_bound(k, len);
}

/// A position inside the table is its own index.
pub proof fn lemma_wrap_inside(k: int, len: int)
    requires
        0 <= k < len,
    ensures
        wrap(k, len) == k,
{
    lemma_fundamental_div_mod_converse(k, len, 0, k);
}

/// Moving a position by whole table lengths, forwards or backwards, does not
/// change the index it falls on.
pub proof fn lemma_wrap_whole_turns(k: int, turns: int, len: int)
    requires
        len > 0,
    ensures
        wrap(k + turns * len, len) == wrap(k, len),
{
    let q = k / len;
    let r = k % len;
    lemma_fundamental_div_mod(k, len);
    lemma_mod_bound(k, len);
    assert(k + turns * len == (q + turns) * len + r) by (nonlinear_arith)
        requires
            k == len * q + r,
    ;
    lemma_fundamental_div_mod_converse(k + turns * len, len, q + turns, r);
}

/// One step forwards moves the index one up, and from the last entry to the
/// first.
pub proof fn lemma_wrap_step_forward(k: int, len: int)
    requires
        len > 0,
    ensures
        wrap(k + 1, len) == step_forward(wrap(k, len), len),
{
    let q = k / len;
    let r = k % len;
    lemma_fundamental_div_mod(k, len);
    lemma_mod_bound(k, len);
    if r + 1 == len {
        assert(k + 1 == (q + 1) * len + 0) by (nonlinear_arith)
            requires
                k == len * q + r,
                r + 1 == len,
        ;
        lemma_fundamental_div_mod_converse(k + 1, len, q + 1, 0);
    } else {
        assert(k + 1 == q * len + (r + 1)) by (nonlinear_arith)
            requires
                k == len * q + r,
        ;
        lemma_fundamental_div_mod_converse(k + 1, len, q, r + 1);
    }
}

/// One step backwards moves the index one down, and from the first entry to
/// the last: it never leaves the table on the negative side.
pub proof fn lemma_wrap_step_backward(k: int, len: int)
    requires
        len > 0,
    ensures
        wrap(k - 1, len) == step_backward(wrap(k, len), len),
{
    lemma_wrap_step_forward(k - 1, len);
    lemma_mod_bound(k - 1, len);
    lemma_mod_bound(k, len);
}

/// The four indices read around any position lie inside the table.
pub proof fn lemma_tap_indices_in_bounds(position: int, len: int)
    requires
        len > 0,
    ensures
        0 <= tap_indices(position, len).0 < len,
        0 <= tap_indices(position, len).1 < len,
        0 <= tap_indices(position, len).2 < len,
        0 <= tap_indices(position, len).3 < len,
{
    lemma_wrap_in_bounds(position - 1, len);
    lemma_wrap_in_bounds(position, len);
    lemma_wrap_in_bounds(position + 1, len);
    lemma_wrap_in_bounds(position + 2, len);
}

/// The four indices read around a position are consecutive entries of the
/// table taken as a ring, starting one before the position's own.
pub proof fn lemma_tap_indices_by_steps(position: int, len: int)
    requires
        len > 0,
    ensures
        tap_indices(position, len).0 == step_backward(wrap(position, len), len),
        tap_indices(position, len).1 == wrap(position, len),
        tap_indices(position, len).2 == step_forward(wrap(position, len), len),
        tap_indices(position, len).3 == step_forward(
            step_forward(wrap(position, len), len),
            len,
        ),
{
    lemma_wrap_step_backward(position, len);
    lemma_wrap_step_forward(position, len);
    lemma_wrap_step_forward(position + 1, len);
}

/// Reading around a position outside the table gives the indices of the
/// position inside the table that lies whole table lengths away from it: the
/// seam between the last entry and the first is crossed like any other step.
pub proof fn lemma_tap_indices_whole_turns(position: int, turns: int, len: int)
    requires
        len > 0,
    ensures
        tap_indices(position + turns * len, len) == tap_indices(position, len),
{
    lemma_wrap_whole_turns(position - 1, turns, len);
    lemma_wrap_whole_turns(position, turns, len);
    lemma_wrap_whole_turns(position + 1, turns, len);
    lemma_wrap_whole_turns(position + 2, turns, len);
}

/// In a table of at least four entries the four indices read around a
/// position are four different entries.
pub proof fn lemma_tap_indices_distinct(position: int, len: int)
    requires
        len >= 4,
    ensures
        tap_indices(position, len).0 != tap_indices(position, len).1,
        tap_indices(position, len).0 != tap_indices(position, len).2,
        tap_indices(position, len).0 != tap_indices(position, len).3,
        tap_indices(position, len).1 != tap_indices(position, len).2,
        tap_indices(position, len).1 != tap_indices(position, len).3,
        tap_indices(position, len).2 != tap_indices(position, len).3,
{
    lemma_wrap_in_bounds(position - 1, len);
    lemma_wrap_step_forward(position - 1, len);
    lemma_wrap_step_forward(position, len);
    lemma_wrap_step_forward(position + 1, len);
}

/// The endless repetition of a table has the table's length as a period.
pub proof fn lemma_periodic_whole_turns<S>(table: Seq<S>, k: int, turns: int)
    requires
        table.len() > 0,
    ensures
        periodic(table, k + turns * table.len()) == periodic(table, k),
{
    lemma_wrap_whole_turns(k, turns, table.len() as int);
}

/// Inside the table the endless repetition is the table itself.
pub proof fn lemma_periodic_inside<S>(table: Seq<S>, k: int)
    requires
        0 <= k < table.len(),
    ensures
        periodic(table, k) == table[k],
{
    lemma_wrap_inside(k, table.len() as int);
}

} // verus!
