//! Grid-wide laws of the automaton, stated and proved once over the
//! specification model that the executable contracts use.

use vstd::prelude::*;
use crate::universe::Universe;
use crate::universe::wrap_coordinate;

verus! {

/// On a degenerate 1x1 torus every shifted coordinate normalizes to the
/// single coordinate 0: wraparound cannot escape a one-cell axis.
pub proof fn lemma_wrap_unit_bound(value: int)
    ensures
        wrap_coordinate(value, 1) == 0,
{
}

/// Determinism of one generation: two grids in the same state compute
/// the same next generation, whatever host drives them and whenever.
pub proof fn lemma_next_generation_deterministic(a: Universe, b: Universe)
    requires
        a.same_state(b),
    ensures
        a.next_generation() == b.next_generation(),
{
    assert(a.next_generation() =~= b.next_generation());
}

/// A run of the simulation: each state advances to the next, the way
/// tick leaves the grid.
pub open spec fn is_run(states: Seq<Universe>) -> bool {
    forall|i: int|
        0 <= i < states.len() - 1 ==> #[trigger] states[i].advances_to(states[i + 1])
}

/// Determinism over any number of generations: two runs that begin in
/// the same state stay in the same state step for step, so advancing a
/// fixed initial grid n times always yields the same cell buffer.
pub proof fn lemma_runs_deterministic(a: Seq<Universe>, b: Seq<Universe>, i: int)
    requires
        is_run(a),
        is_run(b),
        a.len() == b.len(),
        a.len() >= 1,
        a[0].same_state(b[0]),
        0 <= i < a.len(),
    ensures
        a[i].same_state(b[i]),
    decreases i,
{
    if i > 0 {
        lemma_runs_deterministic(a, b, i - 1);
        assert(a[i - 1].advances_to(a[i - 1 + 1]));
        assert(b[i - 1].advances_to(b[i - 1 + 1]));
        lemma_next_generation_deterministic(a[i - 1], b[i - 1]);
    }
}

/// The first n rendered rows hold n * (width + 1) characters.
proof fn lemma_rendered_rows_upto_len(u: Universe, n: int)
    requires
        n >= 0,
    ensures
        u.rendered_rows_upto(n).len() == n * (u.spec_width() + 1),
    decreases n,
{
    if n > 0 {
        lemma_rendered_rows_upto_len(u, n - 1);
        assert(u.rendered_row(n - 1).len() == u.spec_width() + 1);
        assert(u.rendered_rows_upto(n).len() == u.rendered_rows_upto(n - 1).len()
            + u.rendered_row(n - 1).len());
        assert(n * (u.spec_width() + 1) == (n - 1) * (u.spec_width() + 1) + (u.spec_width()
            + 1)) by (nonlinear_arith);
    }
}

/// The snapshot's length: width glyphs plus one newline per row, so
/// height * (width + 1) characters in all.
pub proof fn lemma_rendered_length(u: Universe)
    requires
        u.wf(),
    ensures
        u.rendered().len() == u.spec_height() * (u.spec_width() + 1),
{
    lemma_rendered_rows_upto_len(u, u.spec_height() as int);
}

/// The first n rendered rows of two grids in the same state agree.
proof fn lemma_rendered_rows_upto_deterministic(a: Universe, b: Universe, n: int)
    requires
        a.same_state(b),
    ensures
        a.rendered_rows_upto(n) == b.rendered_rows_upto(n),
    decreases n,
{
    if n > 0 {
        lemma_rendered_rows_upto_deterministic(a, b, n - 1);
        assert(a.rendered_row(n - 1) =~= b.rendered_row(n - 1));
    }
}

/// Rendering reads the grid and nothing else: two grids in the same
/// state render to the same text, so rendering twice without an
/// intervening tick returns identical snapshots.
pub proof fn lemma_rendered_deterministic(a: Universe, b: Universe)
    requires
        a.same_state(b),
    ensures
        a.rendered() == b.rendered(),
{
    lemma_rendered_rows_upto_deterministic(a, b, a.spec_height() as int);
}

} // verus!
