//! How many rows the mixture's sort can produce, and how wide a scratch slot
//! has to be: asked once, here.
//!
//! [`sorted_rows`] is the kernel's bound and takes the tile as a parameter:
//! which tile a batch gets is a tuning decision, and a bound the kernel
//! guarantees must not depend on one.

use crate::arith;
use crate::arith::div_ceil_u64;
use crate::metal::dag::Dispatch;
use crate::metal::geometry::DecodeGeometry;
use crate::metal::tuning;
use crate::metal::tuning::Tuning;
use vstd::prelude::*;

verus! {

/// Whether the routed projections run as matmuls over the sorted stack, or as
/// a matvec one row at a time.
///
/// Only a matmul pads each touched expert's run to a whole tile.
#[derive(Clone, Copy, Debug, PartialEq, Eq, Structural)]
pub enum RoutedProjection {
    /// The routed GEMM over the padded stack.
    Matmul,
    /// One row at a time; the sort is a pure grouping with no padding.
    Matvec,
}

/// Sorted rows a batch of pairs can produce at a tile: one per pair at tile
/// one; otherwise every touched expert can waste all but one row of a tile,
/// and the stack is a whole number of tiles.
pub open spec fn sorted_bound(n_pairs: int, n_experts: int, tile: int) -> int {
    if tile <= 1 {
        n_pairs
    } else {
        arith::ceil_div(n_pairs + arith::smaller(n_pairs, n_experts) * (tile - 1), tile) * tile
    }
}

/// The bound fits 64 bits, and so does each step of computing it.
proof fn lemma_sorted_bound_fits(n: int, touched: int, tile: int)
    requires
        0 <= n <= u32::MAX,
        0 <= touched <= n,
        1 < tile <= u32::MAX,
    ensures
        0 <= touched * (tile - 1),
        n + touched * (tile - 1) + tile <= u64::MAX,
        0 <= arith::ceil_div(n + touched * (tile - 1), tile) * tile,
        arith::ceil_div(n + touched * (tile - 1), tile) * tile <= u64::MAX,
{
    assert(0 <= touched * (tile - 1) <= 0xffff_ffff * 0xffff_fffe) by (nonlinear_arith)
        requires
            0 <= touched <= 0xffff_ffff,
            0 <= tile - 1 <= 0xffff_fffe,
    ;
    let bound = n + touched * (tile - 1);
    lemma_ceil_mul(bound, tile);
}

/// Rounding up to a whole number of `b` keeps at least `a` and adds less than
/// `b`.
proof fn lemma_ceil_mul(a: int, b: int)
    requires
        a >= 0,
        b > 0,
    ensures
        a <= arith::ceil_div(a, b) * b < a + b,
        0 <= arith::ceil_div(a, b),
        (arith::ceil_div(a, b) * b) % b == 0,
{
    let q = arith::ceil_div(a, b);
    vstd::arithmetic::div_mod::lemma_fundamental_div_mod(a + b - 1, b);
    vstd::arithmetic::div_mod::lemma_mod_bound(a + b - 1, b);
    vstd::arithmetic::mul::lemma_mul_is_commutative(b, q);
    vstd::arithmetic::div_mod::lemma_mod_multiples_basic(q, b);
    vstd::arithmetic::div_mod::lemma_div_pos_is_pos(a + b - 1, b);
}

/// How many sorted rows a batch of `n_pairs` can produce, at a given tile.
///
/// The worst case rather than the actual: the real count depends on how the
/// router spread the rows.
pub fn sorted_rows(n_pairs: u32, n_experts: u32, tile: u32) -> (rows: u64)
    ensures
        rows == sorted_bound(n_pairs as int, n_experts as int, tile as int),
{
    let n: u64 = n_pairs as u64;
    if tile <= 1 {
        return n;
    }
    let t: u64 = tile as u64;
    let touched: u64 = if n_pairs <= n_experts {
        n
    } else {
        n_experts as u64
    };
    proof {
        lemma_sorted_bound_fits(n as int, touched as int, t as int);
    }
    let bound: u64 = n + touched * (t - 1);
    div_ceil_u64(bound, t) * t
}

/// The pairs of a fire: one per token and expert slot, and at least one token's.
pub open spec fn routed_pairs(g: DecodeGeometry, n_tokens: int) -> int {
    arith::larger(n_tokens, 1) * g.experts_per_token
}

/// A pair count as the tile and the bound read it: 32 bits, saturating.
pub open spec fn clipped(pairs: int) -> int {
    arith::smaller(pairs, u32::MAX as int)
}

/// The extent of the mixture's sorted stack for one fire.
pub open spec fn sorted_stack(
    g: DecodeGeometry,
    t: Tuning,
    n_tokens: int,
    run: RoutedProjection,
) -> int {
    let pairs = routed_pairs(g, n_tokens);
    match run {
        RoutedProjection::Matvec => pairs,
        RoutedProjection::Matmul => sorted_bound(
            clipped(pairs),
            g.n_experts as int,
            tuning::tile_rows(t, clipped(pairs) as u32, g.n_experts) as int,
        ),
    }
}

/// A fire's pairs fit 64 bits.
proof fn lemma_pairs_fit(n: int, k: int)
    requires
        0 <= n <= u32::MAX,
        0 <= k <= u32::MAX,
    ensures
        0 <= n * k <= u64::MAX,
{
    assert(0 <= n * k <= 0xffff_ffff * 0xffff_ffff) by (nonlinear_arith)
        requires
            0 <= n <= 0xffff_ffff,
            0 <= k <= 0xffff_ffff,
    ;
}

/// The extent of the mixture's sorted `(token, slot)` stack for one fire.
pub fn moe_sorted_rows(
    geometry: &DecodeGeometry,
    tuning: &Tuning,
    n_tokens: u32,
    run: RoutedProjection,
) -> (rows: u64)
    ensures
        rows == sorted_stack(*geometry, *tuning, n_tokens as int, run),
{
    let n: u32 = if n_tokens < 1 {
        1
    } else {
        n_tokens
    };
    proof {
        lemma_pairs_fit(n as int, geometry.experts_per_token as int);
    }
    let pairs: u64 = n as u64 * geometry.experts_per_token as u64;
    if run == RoutedProjection::Matvec {
        return pairs;
    }
    let pairs: u32 = if pairs > u32::MAX as u64 {
        u32::MAX
    } else {
        pairs as u32
    };
    let tile: u32 = tuning.moe_tile_rows(pairs, geometry.n_experts);
    sorted_rows(pairs, geometry.n_experts, tile)
}

/// The widest dense activation, in elements per row: the MLP, the
/// linear-attention in-projection, its float preparation (two gate scalars per
/// value head beside the value rows, at twice the pitch), its normalized
/// query and key rows, and the packed query.
pub open spec fn widest_dense(g: DecodeGeometry) -> int {
    let prep = 2 * (2 * g.gdn_v_heads + g.gdn_v_heads * g.gdn_v_dim);
    let qk = 2 * (g.gdn_v_heads * g.gdn_k_dim);
    let q = g.n_q_heads * g.head_dim;
    arith::larger(
        arith::larger(
            arith::larger(arith::larger(g.intermediate as int, g.gdn_conv_dim as int), prep),
            qk,
        ),
        q,
    )
}

/// The widest routed activation at one token: the sorted stack at the model's
/// width and at the experts', the router's logits, and the shared expert.
pub open spec fn widest_routed(g: DecodeGeometry, t: Tuning) -> int {
    let sorted = sorted_stack(g, t, 1, RoutedProjection::Matmul);
    arith::larger(
        arith::larger(
            arith::larger(sorted * g.hidden, sorted * g.moe_intermediate),
            g.n_experts as int,
        ),
        g.shared_intermediate as int,
    )
}

/// The widest activation that ping-pongs through the step, at one token.
pub open spec fn widest_elems(g: DecodeGeometry, t: Tuning) -> int {
    if g.n_experts > 0 {
        arith::larger(widest_dense(g), widest_routed(g, t))
    } else {
        widest_dense(g)
    }
}

/// The larger of two.
fn max_u64(a: u64, b: u64) -> (m: u64)
    ensures
        m == arith::larger(a as int, b as int),
{
    if a >= b {
        a
    } else {
        b
    }
}

/// The product of two.
fn times(a: u64, b: u32) -> (p: u64)
    requires
        a * b <= u64::MAX,
    ensures
        p == a * b,
{
    assert(0 <= a * b) by (nonlinear_arith);
    a * b as u64
}

/// The widest activation that ping-pongs through the step, in elements, at
/// one row per token.
pub fn scratch_widest_elems(geometry: &DecodeGeometry, tuning: &Tuning) -> (widest: u64)
    requires
        widest_elems(*geometry, *tuning) <= u64::MAX,
    ensures
        widest == widest_elems(*geometry, *tuning),
{
    let g = *geometry;
    proof {
        lemma_pairs_fit(g.gdn_v_heads as int, g.gdn_v_dim as int);
        lemma_pairs_fit(g.gdn_v_heads as int, g.gdn_k_dim as int);
        lemma_pairs_fit(g.n_q_heads as int, g.head_dim as int);
    }
    let gdn_prep: u64 = 2 * (2 * g.gdn_v_heads as u64 + times(g.gdn_v_heads as u64, g.gdn_v_dim));
    let gdn_qk: u64 = 2 * times(g.gdn_v_heads as u64, g.gdn_k_dim);
    let q: u64 = times(g.n_q_heads as u64, g.head_dim);
    let mut widest: u64 = max_u64(g.intermediate as u64, g.gdn_conv_dim as u64);
    widest = max_u64(widest, gdn_prep);
    widest = max_u64(widest, gdn_qk);
    widest = max_u64(widest, q);
    if g.is_moe() {
        let sorted: u64 = moe_sorted_rows(geometry, tuning, 1, RoutedProjection::Matmul);
        let at_hidden: u64 = times(sorted, g.hidden);
        let at_experts: u64 = times(sorted, g.moe_intermediate);
        let mut routed: u64 = max_u64(at_hidden, at_experts);
        routed = max_u64(routed, g.n_experts as u64);
        routed = max_u64(routed, g.shared_intermediate as u64);
        widest = max_u64(widest, routed);
    }
    widest
}

/// One scratch slot's element count: every token's row of the widest
/// activation, and the padded stack of a mixture, which does not scale with
/// the tokens.
pub open spec fn slot_elems(g: DecodeGeometry, t: Tuning, max_tokens: int) -> int {
    let n = arith::larger(max_tokens, 1);
    let rows = widest_elems(g, t) * n;
    if g.n_experts > 0 {
        arith::larger(
            rows,
            sorted_stack(g, t, n, RoutedProjection::Matmul) * arith::larger(
                g.hidden as int,
                g.moe_intermediate as int,
            ),
        )
    } else {
        rows
    }
}

/// One scratch slot's element count for a fire of up to `max_tokens` rows.
pub fn scratch_slot_elems(geometry: &DecodeGeometry, tuning: &Tuning, max_tokens: u32) -> (elems:
    u64)
    requires
        slot_elems(*geometry, *tuning, max_tokens as int) <= u64::MAX,
    ensures
        elems == slot_elems(*geometry, *tuning, max_tokens as int),
{
    let g = *geometry;
    let n: u32 = if max_tokens < 1 {
        1
    } else {
        max_tokens
    };
    proof {
        lemma_widest_is_positive(g, *tuning);
        let w = widest_elems(g, *tuning);
        assert(w <= w * n) by (nonlinear_arith)
            requires
                w >= 0,
                n >= 1,
        ;
    }
    let mut elems: u64 = times(scratch_widest_elems(geometry, tuning), n);
    if g.is_moe() {
        let wide: u32 = if g.hidden >= g.moe_intermediate {
            g.hidden
        } else {
            g.moe_intermediate
        };
        let sorted: u64 = moe_sorted_rows(geometry, tuning, n, RoutedProjection::Matmul);
        elems = max_u64(elems, times(sorted, wide));
    }
    elems
}

/// No activation is narrower than nothing.
proof fn lemma_widest_is_positive(g: DecodeGeometry, t: Tuning)
    ensures
        widest_elems(g, t) >= 0,
{
}

/// Which row axis a scratch value scales on.
#[derive(Clone, Copy, Debug, PartialEq, Eq, Structural)]
pub enum RowAxis {
    /// One row per token.
    Body,
    /// One row per sampled row.
    Tail,
    /// One row per sorted `(token, slot)` pair, tile-padded.
    Sorted,
}

impl Default for RowAxis {
    fn default() -> (axis: Self)
        ensures
            axis == RowAxis::Body,
    {
        RowAxis::Body
    }
}

/// One scratch value's shape: its producer's output shape, in activation
/// elements of two bytes.
#[derive(Clone, Copy, Debug, PartialEq, Eq, Structural)]
pub struct ValueExtent {
    /// Elements per row.
    pub elems: u32,
    /// The row axis.
    pub axis: RowAxis,
}

impl Default for ValueExtent {
    fn default() -> (extent: Self)
        ensures
            extent == (ValueExtent { elems: 0, axis: RowAxis::Body }),
    {
        ValueExtent { elems: 0, axis: RowAxis::Body }
    }
}

/// One use of a scratch value by a dispatch.
#[derive(Clone, Copy, Debug, PartialEq, Eq, Structural)]
pub struct Use {
    /// The dispatch.
    pub ordinal: u32,
    /// The value.
    pub value: u32,
    /// Whether it is written.
    pub is_write: bool,
}

/// Which pool colour each value lives in.
#[derive(Debug, PartialEq, Eq)]
pub struct Coloring {
    /// Each value's colour, when it has one.
    pub color: Vec<Option<u32>>,
    /// How many colours there are.
    pub colors_used: u32,
}

/// What the writes of a value claim for it.
#[derive(Clone, Copy, Debug, PartialEq, Eq, Structural)]
pub struct Claim {
    /// The widest row of any write.
    pub elems: u32,
    /// The most rows of any write.
    pub rows: u32,
}

/// What a value that nothing has written claims.
pub open spec fn no_claim() -> Claim {
    Claim { elems: 0, rows: 0 }
}

/// What one write of an extent claims.
pub open spec fn claim_of(e: ValueExtent, rows: u32, head_rows: u32, sorted: u32) -> Claim {
    Claim { elems: e.elems, rows: rows_along(e.axis, rows, head_rows, sorted) as u32 }
}

/// The wider of two claims on one value, in each respect.
pub open spec fn wider(a: Claim, b: Claim) -> Claim {
    Claim {
        elems: arith::larger(a.elems as int, b.elems as int) as u32,
        rows: arith::larger(a.rows as int, b.rows as int) as u32,
    }
}

/// Elements a claim takes.
pub open spec fn claimed(c: Claim) -> int {
    c.rows * c.elems
}

/// What `f` answers for a dispatch.
pub open spec fn answer<F: Fn(&Dispatch) -> ValueExtent>(f: F, d: Dispatch) -> ValueExtent {
    choose|e: ValueExtent| call_ensures(f, (&d,), e)
}

/// What `f` answers for a dispatch is an answer it gives.
pub open spec fn has_answered<F: Fn(&Dispatch) -> ValueExtent>(f: F, d: Dispatch) -> bool {
    call_ensures(f, (&d,), answer(f, d))
}

/// `f` can be asked of a dispatch and answers it always alike.
pub open spec fn answers_alike<F: Fn(&Dispatch) -> ValueExtent>(f: F, d: Dispatch) -> bool {
    &&& call_requires(f, (&d,))
    &&& forall|x: ValueExtent, y: ValueExtent|
        #![trigger call_ensures(f, (&d,), x), call_ensures(f, (&d,), y)]
        call_ensures(f, (&d,), x) && call_ensures(f, (&d,), y) ==> x == y
}

/// A use writes one of the first `values` values.
pub open spec fn writes_one_of(u: Use, values: int) -> bool {
    u.is_write && u.value < values
}

/// Every use that writes one of the first `values` values is of a dispatch of
/// the list, and `f` can be asked of that one. Of no other is it asked.
pub open spec fn answers_the_writes<F: Fn(&Dispatch) -> ValueExtent>(
    f: F,
    dag: Seq<Dispatch>,
    uses: Seq<Use>,
    values: int,
) -> bool {
    forall|i: int|
        0 <= i < uses.len() && writes_one_of(#[trigger] uses[i], values) ==> uses[i].ordinal
            < dag.len() && answers_alike(f, dag[uses[i].ordinal as int])
}

/// What `f` answers for each of the dispatches.
pub open spec fn answers<F: Fn(&Dispatch) -> ValueExtent>(
    f: F,
    dag: Seq<Dispatch>,
) -> Seq<ValueExtent> {
    Seq::new(dag.len(), |i: int| answer(f, dag[i]))
}

/// The widest claim the uses make on a value, in a fire of so many rows: the
/// value's writers each claim their own extent, by ordinal, and reads claim
/// nothing.
pub open spec fn claim(
    uses: Seq<Use>,
    extents: Seq<ValueExtent>,
    value: int,
    rows: u32,
    head_rows: u32,
    sorted: u32,
) -> Claim
    decreases uses.len(),
{
    if uses.len() == 0 {
        no_claim()
    } else {
        let before = claim(uses.drop_last(), extents, value, rows, head_rows, sorted);
        let u = uses.last();
        if u.is_write && u.value == value {
            wider(
                before,
                claim_of(extents[u.ordinal as int], rows, head_rows, sorted),
            )
        } else {
            before
        }
    }
}

/// Rows of a fire along an axis.
pub open spec fn rows_along(axis: RowAxis, rows: u32, head_rows: u32, sorted: u32) -> int {
    let body = arith::larger(rows as int, 1);
    match axis {
        RowAxis::Body => body,
        RowAxis::Tail => if head_rows == 0 {
            body
        } else {
            arith::smaller(head_rows as int, body)
        },
        RowAxis::Sorted => sorted as int,
    }
}

/// Elements a value of an extent needs.
pub open spec fn needed(e: ValueExtent, rows: u32, head_rows: u32, sorted: u32) -> int {
    rows_along(e.axis, rows, head_rows, sorted) * e.elems
}

/// The widest need among the first `n` values of a colour.
pub open spec fn colour_need(
    colors: Seq<Option<u32>>,
    held: Seq<Claim>,
    colour: int,
    n: int,
) -> int
    decreases n,
{
    if n <= 0 {
        0
    } else {
        let before = colour_need(colors, held, colour, n - 1);
        if colors[n - 1] == Some(colour as u32) {
            arith::larger(before, claimed(held[n - 1]))
        } else {
            before
        }
    }
}

/// Every value's widest claim.
pub open spec fn claims(
    uses: Seq<Use>,
    extents: Seq<ValueExtent>,
    values: nat,
    rows: u32,
    head_rows: u32,
    sorted: u32,
) -> Seq<Claim> {
    Seq::new(values, |v: int| claim(uses, extents, v, rows, head_rows, sorted))
}

/// Elements a colour must hold: the widest need of its values, or the fallback
/// when none of them needs anything.
pub open spec fn colour_elems(
    uses: Seq<Use>,
    coloring: Coloring,
    extents: Seq<ValueExtent>,
    rows: u32,
    head_rows: u32,
    sorted: u32,
    fallback_elems: u64,
    colour: int,
) -> int {
    let values = coloring.color@.len();
    let need = colour_need(
        coloring.color@,
        claims(uses, extents, values, rows, head_rows, sorted),
        colour,
        values as int,
    );
    if need == 0 {
        fallback_elems as int
    } else {
        need
    }
}

/// A use writes a value that lives in a colour.
pub open spec fn writes_colour(u: Use, coloring: Coloring, colour: int) -> bool {
    u.is_write && u.value < coloring.color@.len() && coloring.color@[u.value as int] == Some(
        colour as u32,
    )
}

/// Rows along an axis.
fn axis_rows(axis: RowAxis, rows: u32, head_rows: u32, sorted: u32) -> (n: u32)
    ensures
        n == rows_along(axis, rows, head_rows, sorted),
{
    let body: u32 = if rows < 1 {
        1
    } else {
        rows
    };
    match axis {
        RowAxis::Body => body,
        RowAxis::Tail => if head_rows == 0 || head_rows > body {
            body
        } else {
            head_rows
        },
        RowAxis::Sorted => sorted,
    }
}

/// The wider of two claims.
fn widen(a: Claim, b: Claim) -> (w: Claim)
    ensures
        w == wider(a, b),
{
    Claim {
        elems: if b.elems > a.elems {
            b.elems
        } else {
            a.elems
        },
        rows: if b.rows > a.rows {
            b.rows
        } else {
            a.rows
        },
    }
}

/// How many elements each pool colour must hold, for a `rows`-token fire
/// sampling `head_rows`.
///
/// Read off the values rather than the dispatch kinds: a colour is sized by
/// the widest value in it. `extent_of` answers for the writer, and a value
/// written more than once keeps the widest row and the most rows of its
/// writes, so an in-place pass can never shrink a slot under the value already
/// living in it.
pub fn pool_colour_elems<F: Fn(&Dispatch) -> ValueExtent>(
    dag: &[Dispatch],
    uses: &[Use],
    coloring: &Coloring,
    extent_of: F,
    rows: u32,
    head_rows: u32,
    sorted: u32,
    fallback_elems: u64,
) -> (elems: Vec<u64>)
    requires
        answers_the_writes(extent_of, dag@, uses@, coloring.color@.len() as int),
        forall|v: int|
            0 <= v < coloring.color@.len() ==> (#[trigger] coloring.color@[v] matches Some(c)
                ==> c < coloring.colors_used),
    ensures
        elems@.len() == coloring.colors_used,
        forall|c: int|
            0 <= c < elems@.len() ==> #[trigger] elems@[c] == colour_elems(
                uses@,
                *coloring,
                answers(extent_of, dag@),
                rows,
                head_rows,
                sorted,
                fallback_elems,
                c,
            ),
        forall|k: int|
            0 <= k < uses@.len() && writes_one_of(
                #[trigger] uses@[k],
                coloring.color@.len() as int,
            ) ==> has_answered(extent_of, dag@[uses@[k].ordinal as int]),
        forall|k: int, c: int|
            #![trigger uses@[k], elems@[c]]
            0 <= k < uses@.len() && 0 <= c < elems@.len() && writes_colour(
                uses@[k],
                *coloring,
                c,
            ) ==> needed(
                answer(extent_of, dag@[uses@[k].ordinal as int]),
                rows,
                head_rows,
                sorted,
            ) <= elems@[c],
{
    let values: usize = coloring.color.len();
    let held = widest_claims(dag, uses, values, &extent_of, rows, head_rows, sorted);
    let count: usize = coloring.colors_used as usize;
    let mut elems: Vec<u64> = Vec::new();
    let mut i: usize = 0;
    while i < count
        invariant
            i <= count,
            elems@.len() == i,
            forall|c: int| 0 <= c < i ==> #[trigger] elems@[c] == 0,
        decreases count - i,
    {
        elems.push(0);
        i += 1;
    }
    let mut v: usize = 0;
    while v < values
        invariant
            v <= values,
            values == coloring.color@.len(),
            values == held@.len(),
            count == coloring.colors_used,
            elems@.len() == count,
            forall|k: int|
                0 <= k < coloring.color@.len() ==> (#[trigger] coloring.color@[k] matches Some(c)
                    ==> c < coloring.colors_used),
            forall|c: int|
                0 <= c < count ==> #[trigger] elems@[c] == colour_need(
                    coloring.color@,
                    held@,
                    c,
                    v as int,
                ),
        decreases values - v,
    {
        let ghost before = elems@;
        if let Some(colour) = coloring.color[v] {
            assert(coloring.color@[v as int] matches Some(c) ==> c < coloring.colors_used);
            let n: u32 = held[v].rows;
            proof {
                lemma_pairs_fit(n as int, held@[v as int].elems as int);
            }
            let need: u64 = times(n as u64, held[v].elems);
            let most: u64 = elems[colour as usize];
            elems.set(colour as usize, max_u64(most, need));
        }
        assert forall|c: int| 0 <= c < count implies #[trigger] elems@[c] == colour_need(
            coloring.color@,
            held@,
            c,
            v + 1,
        ) by {
            assert(before[c] == colour_need(coloring.color@, held@, c, v as int));
        }
        v += 1;
    }
    let mut k: usize = 0;
    while k < count
        invariant
            k <= count,
            elems@.len() == count,
            values == coloring.color@.len(),
            held@ == claims(
                uses@,
                answers(extent_of, dag@),
                values as nat,
                rows,
                head_rows,
                sorted,
            ),
            forall|c: int|
                k <= c < count ==> #[trigger] elems@[c] == colour_need(
                    coloring.color@,
                    held@,
                    c,
                    values as int,
                ),
            forall|c: int|
                0 <= c < k ==> #[trigger] elems@[c] == colour_elems(
                    uses@,
                    *coloring,
                    answers(extent_of, dag@),
                    rows,
                    head_rows,
                    sorted,
                    fallback_elems,
                    c,
                ),
        decreases count - k,
    {
        if elems[k] == 0 {
            elems.set(k, fallback_elems);
        }
        k += 1;
    }
    assert forall|k: int, c: int|
        #![trigger uses@[k], elems@[c]]
        0 <= k < uses@.len() && 0 <= c < elems@.len() && writes_colour(
            uses@[k],
            *coloring,
            c,
        ) implies needed(
        answer(extent_of, dag@[uses@[k].ordinal as int]),
        rows,
        head_rows,
        sorted,
    ) <= elems@[c] by {
        law_a_colour_holds_every_write(
            uses@,
            *coloring,
            answers(extent_of, dag@),
            rows,
            head_rows,
            sorted,
            fallback_elems,
            k,
            c as u32,
        );
    }
    elems
}

/// Every value's widest claim.
fn widest_claims<F: Fn(&Dispatch) -> ValueExtent>(
    dag: &[Dispatch],
    uses: &[Use],
    values: usize,
    extent_of: &F,
    rows: u32,
    head_rows: u32,
    sorted: u32,
) -> (held: Vec<Claim>)
    requires
        answers_the_writes(*extent_of, dag@, uses@, values as int),
    ensures
        held@ == claims(uses@, answers(*extent_of, dag@), values as nat, rows, head_rows, sorted),
        forall|i: int|
            0 <= i < uses@.len() && writes_one_of(#[trigger] uses@[i], values as int)
                ==> has_answered(*extent_of, dag@[uses@[i].ordinal as int]),
{
    let mut held: Vec<Claim> = Vec::new();
    let mut i: usize = 0;
    while i < values
        invariant
            i <= values,
            held@.len() == i,
            forall|v: int| 0 <= v < i ==> #[trigger] held@[v] == no_claim(),
        decreases values - i,
    {
        held.push(Claim { elems: 0, rows: 0 });
        i += 1;
    }
    let mut k: usize = 0;
    while k < uses.len()
        invariant
            k <= uses@.len(),
            held@.len() == values,
            answers_the_writes(*extent_of, dag@, uses@, values as int),
            forall|i: int|
                0 <= i < k && writes_one_of(#[trigger] uses@[i], values as int)
                    ==> has_answered(*extent_of, dag@[uses@[i].ordinal as int]),
            forall|v: int|
                0 <= v < values ==> #[trigger] held@[v] == claim(
                    uses@.take(k as int),
                    answers(*extent_of, dag@),
                    v,
                    rows,
                    head_rows,
                    sorted,
                ),
        decreases uses@.len() - k,
    {
        let u = uses[k];
        let ghost before = held@;
        assert(uses@.take(k + 1).drop_last() =~= uses@.take(k as int));
        assert(uses@.take(k + 1).last() == u);
        if u.is_write && (u.value as usize) < values {
            assert(writes_one_of(uses@[k as int], values as int));
            let d = dag[u.ordinal as usize];
            let e: ValueExtent = extent_of(&d);
            assert(dag@[u.ordinal as int] == d);
            assert(answer(*extent_of, d) == e);
            let n: u32 = axis_rows(e.axis, rows, head_rows, sorted);
            let most: Claim = held[u.value as usize];
            held.set(u.value as usize, widen(most, Claim { elems: e.elems, rows: n }));
        }
        assert forall|v: int| 0 <= v < values implies #[trigger] held@[v] == claim(
            uses@.take(k + 1),
            answers(*extent_of, dag@),
            v,
            rows,
            head_rows,
            sorted,
        ) by {
            assert(before[v] == claim(
                uses@.take(k as int),
                answers(*extent_of, dag@),
                v,
                rows,
                head_rows,
                sorted,
            ));
        }
        k += 1;
    }
    assert(uses@.take(k as int) =~= uses@);
    assert(held@ =~= claims(
        uses@,
        answers(*extent_of, dag@),
        values as nat,
        rows,
        head_rows,
        sorted,
    ));
    held
}

/// The pairs of a routing: how many went to each expert, in all.
pub open spec fn total(counts: Seq<nat>) -> nat
    decreases counts.len(),
{
    if counts.len() == 0 {
        0
    } else {
        total(counts.drop_last()) + counts.last()
    }
}

/// The rows of a routing with each expert's run padded to whole tiles.
pub open spec fn padded(counts: Seq<nat>, tile: int) -> int
    decreases counts.len(),
{
    if counts.len() == 0 {
        0
    } else {
        padded(counts.drop_last(), tile) + arith::ceil_div(counts.last() as int, tile) * tile
    }
}

/// The experts a routing touches.
pub open spec fn touched(counts: Seq<nat>) -> nat
    decreases counts.len(),
{
    if counts.len() == 0 {
        0
    } else {
        touched(counts.drop_last()) + (if counts.last() > 0 {
            1nat
        } else {
            0
        })
    }
}

/// Each touched expert wastes at most all but one row of a tile, no more
/// experts are touched than there are, and none without a pair.
proof fn lemma_padding(counts: Seq<nat>, tile: int)
    requires
        tile > 1,
    ensures
        padded(counts, tile) <= total(counts) + touched(counts) * (tile - 1),
        touched(counts) <= counts.len(),
        touched(counts) <= total(counts),
    decreases counts.len(),
{
    if counts.len() > 0 {
        let init = counts.drop_last();
        let c = counts.last();
        lemma_padding(init, tile);
        lemma_ceil_mul(c as int, tile);
        assert(touched(counts) * (tile - 1) == touched(init) * (tile - 1) + (if c > 0 {
            tile - 1
        } else {
            0
        })) by (nonlinear_arith)
            requires
                touched(counts) == touched(init) + (if c > 0 {
                    1nat
                } else {
                    0
                }),
        ;
        if c == 0 {
            vstd::arithmetic::div_mod::lemma_basic_div(tile - 1, tile);
            assert(arith::ceil_div(c as int, tile) == 0);
            assert(0 * tile == 0);
        }
    }
}

/// However the router spreads the pairs over the experts, the padded stack
/// fits the bound; at tile one it is the pairs themselves.
pub proof fn law_every_routing_fits_the_sorted_bound(counts: Seq<nat>, tile: int)
    requires
        tile >= 1,
    ensures
        tile > 1 ==> padded(counts, tile) <= sorted_bound(
            total(counts) as int,
            counts.len() as int,
            tile,
        ),
        tile == 1 ==> sorted_bound(total(counts) as int, counts.len() as int, tile) == total(
            counts,
        ),
{
    if tile > 1 {
        lemma_padding(counts, tile);
        let n = total(counts) as int;
        let most = arith::smaller(n, counts.len() as int);
        assert(touched(counts) * (tile - 1) <= most * (tile - 1)) by (nonlinear_arith)
            requires
                touched(counts) <= most,
                tile > 1,
        ;
        assert(0 <= most * (tile - 1)) by (nonlinear_arith)
            requires
                0 <= most,
                tile > 1,
        ;
        lemma_ceil_mul(n + most * (tile - 1), tile);
    }
}

/// The routing that wastes most: every expert it can touch gets one pair, and
/// the first gets all that are left.
pub open spec fn worst_routing(n_pairs: nat, n_experts: nat) -> Seq<nat> {
    let touched = arith::smaller(n_pairs as int, n_experts as int);
    Seq::new(
        n_experts,
        |i: int|
            if i >= touched {
                0nat
            } else if i == 0 {
                (n_pairs - touched + 1) as nat
            } else {
                1nat
            },
    )
}

/// What the first `k` experts of the worst routing hold.
proof fn lemma_worst_routing(n_pairs: nat, n_experts: nat, tile: int, k: int)
    requires
        tile > 1,
        0 <= k <= n_experts,
    ensures
        ({
            let touched = arith::smaller(n_pairs as int, n_experts as int);
            let here = arith::smaller(k, touched);
            let counts = worst_routing(n_pairs, n_experts).take(k);
            &&& total(counts) == if here == 0 {
                0
            } else {
                n_pairs - touched + here
            }
            &&& padded(counts, tile) == if here == 0 {
                0
            } else {
                ((n_pairs - touched) / tile + here) * tile
            }
        }),
    decreases k,
{
    let touched = arith::smaller(n_pairs as int, n_experts as int);
    let all = worst_routing(n_pairs, n_experts);
    let counts = all.take(k);
    if k > 0 {
        lemma_worst_routing(n_pairs, n_experts, tile, k - 1);
        assert(counts.drop_last() =~= all.take(k - 1));
        let c = counts.last() as int;
        assert(c == all[k - 1]);
        let q = (n_pairs - touched) / tile;
        if k > touched {
            vstd::arithmetic::div_mod::lemma_basic_div(tile - 1, tile);
            assert(arith::ceil_div(0, tile) == 0);
            assert(0 * tile == 0);
        } else if k == 1 {
            vstd::arithmetic::div_mod::lemma_hoist_over_denominator(
                n_pairs - touched,
                1,
                tile as nat,
            );
            assert(arith::ceil_div(c, tile) == q + 1);
        } else {
            vstd::arithmetic::div_mod::lemma_div_by_self(tile);
            assert(arith::ceil_div(1, tile) == 1);
            assert((q + (k - 1)) * tile + 1 * tile == (q + k) * tile) by (nonlinear_arith);
        }
    }
}

/// The bound is reached, and cannot be tightened without the routing itself:
/// the worst routing of so many pairs over so many experts produces just as
/// many rows. The pairs beyond one per touched expert have to fill their tiles.
pub proof fn law_the_sorted_bound_is_reached(n_pairs: nat, n_experts: nat, tile: int)
    requires
        tile > 1,
        n_experts > 0 || n_pairs == 0,
        (n_pairs - arith::smaller(n_pairs as int, n_experts as int)) % tile == 0,
    ensures
        worst_routing(n_pairs, n_experts).len() == n_experts,
        total(worst_routing(n_pairs, n_experts)) == n_pairs,
        padded(worst_routing(n_pairs, n_experts), tile) == sorted_bound(
            n_pairs as int,
            n_experts as int,
            tile,
        ),
{
    let touched = arith::smaller(n_pairs as int, n_experts as int);
    let x = n_pairs - touched;
    let q = x / tile;
    lemma_worst_routing(n_pairs, n_experts, tile, n_experts as int);
    assert(worst_routing(n_pairs, n_experts).take(n_experts as int) =~= worst_routing(
        n_pairs,
        n_experts,
    ));
    vstd::arithmetic::div_mod::lemma_fundamental_div_mod(x, tile);
    assert(n_pairs + touched * (tile - 1) + tile - 1 == (tile - 1) + (q + touched) * tile)
        by (nonlinear_arith)
        requires
            x == n_pairs - touched,
            x == tile * q,
    ;
    vstd::arithmetic::div_mod::lemma_basic_div(tile - 1, tile);
    vstd::arithmetic::div_mod::lemma_hoist_over_denominator(tile - 1, q + touched, tile as nat);
    assert(arith::ceil_div(n_pairs + touched * (tile - 1), tile) == q + touched);
    if touched == 0 {
        vstd::arithmetic::div_mod::lemma_basic_div(0, tile);
        assert(0 * tile == 0);
    }
}

/// The stack is a whole number of tiles and holds every pair.
pub proof fn law_the_sorted_bound_is_tile_aligned(n_pairs: int, n_experts: int, tile: int)
    requires
        n_pairs >= 0,
        n_experts >= 0,
        tile >= 1,
    ensures
        sorted_bound(n_pairs, n_experts, tile) >= n_pairs,
        sorted_bound(n_pairs, n_experts, tile) % tile == 0,
{
    if tile > 1 {
        let most = arith::smaller(n_pairs, n_experts);
        assert(0 <= most * (tile - 1)) by (nonlinear_arith)
            requires
                0 <= most,
                tile > 1,
        ;
        lemma_ceil_mul(n_pairs + most * (tile - 1), tile);
    }
}

/// An unbatched sort is a grouping: the matvec's stack is what the bound says
/// at tile one.
pub proof fn law_the_matvec_stack_is_the_tile_one_bound(
    g: DecodeGeometry,
    t: Tuning,
    n_tokens: int,
)
    ensures
        sorted_stack(g, t, n_tokens, RoutedProjection::Matvec) == sorted_bound(
            routed_pairs(g, n_tokens),
            g.n_experts as int,
            1,
        ),
{
}

/// A slot holds every token's row of the widest activation, and a mixture's
/// whole padded stack at either of its widths. A dense slot scales with the
/// tokens and nothing else.
pub proof fn law_a_slot_holds_the_batch_and_the_mixture(
    g: DecodeGeometry,
    t: Tuning,
    max_tokens: int,
)
    requires
        1 <= max_tokens <= u32::MAX,
    ensures
        slot_elems(g, t, max_tokens) >= widest_elems(g, t) * max_tokens,
        g.n_experts > 0 ==> slot_elems(g, t, max_tokens) >= sorted_stack(
            g,
            t,
            max_tokens,
            RoutedProjection::Matmul,
        ) * g.hidden,
        g.n_experts > 0 ==> slot_elems(g, t, max_tokens) >= sorted_stack(
            g,
            t,
            max_tokens,
            RoutedProjection::Matmul,
        ) * g.moe_intermediate,
        g.n_experts == 0 ==> slot_elems(g, t, max_tokens) == widest_elems(g, t) * max_tokens,
{
    let stack = sorted_stack(g, t, max_tokens, RoutedProjection::Matmul);
    let pairs = routed_pairs(g, max_tokens);
    assert(pairs >= 0) by (nonlinear_arith)
        requires
            pairs == max_tokens * g.experts_per_token,
            max_tokens >= 1,
            g.experts_per_token >= 0,
    ;
    law_the_sorted_bound_is_tile_aligned(
        clipped(pairs),
        g.n_experts as int,
        tuning::tile_rows(t, clipped(pairs) as u32, g.n_experts) as int,
    );
    let wide = arith::larger(g.hidden as int, g.moe_intermediate as int);
    assert(stack * g.hidden <= stack * wide && stack * g.moe_intermediate <= stack * wide)
        by (nonlinear_arith)
        requires
            stack >= 0,
            g.hidden <= wide,
            g.moe_intermediate <= wide,
    ;
}

/// A claim at least as wide in each respect takes at least as many elements.
proof fn lemma_wider_takes_more(a: Claim, b: Claim)
    requires
        a.elems <= b.elems,
        a.rows <= b.rows,
    ensures
        claimed(a) <= claimed(b),
{
    assert(a.rows * a.elems <= b.rows * b.elems) by (nonlinear_arith)
        requires
            0 <= a.elems <= b.elems,
            0 <= a.rows <= b.rows,
    ;
}

/// One more use never narrows a value: it takes at least as many elements as
/// it did, so an in-place pass cannot shrink a slot under the value already
/// living in it. A read changes nothing.
pub proof fn law_a_use_never_narrows_a_value(
    uses: Seq<Use>,
    extents: Seq<ValueExtent>,
    u: Use,
    value: int,
    rows: u32,
    head_rows: u32,
    sorted: u32,
)
    ensures
        claimed(claim(uses.push(u), extents, value, rows, head_rows, sorted)) >= claimed(
            claim(uses, extents, value, rows, head_rows, sorted),
        ),
        !u.is_write ==> claim(uses.push(u), extents, value, rows, head_rows, sorted) == claim(
            uses,
            extents,
            value,
            rows,
            head_rows,
            sorted,
        ),
{
    assert(uses.push(u).drop_last() =~= uses);
    lemma_wider_takes_more(
        claim(uses, extents, value, rows, head_rows, sorted),
        claim(uses.push(u), extents, value, rows, head_rows, sorted),
    );
}

/// A value's claim is as wide as each of its writes, in each respect.
proof fn lemma_claim_covers_write(
    uses: Seq<Use>,
    extents: Seq<ValueExtent>,
    k: int,
    rows: u32,
    head_rows: u32,
    sorted: u32,
)
    requires
        0 <= k < uses.len(),
        uses[k].is_write,
    ensures
        ({
            let write = claim_of(
                extents[uses[k].ordinal as int],
                rows,
                head_rows,
                sorted,
            );
            let all = claim(uses, extents, uses[k].value as int, rows, head_rows, sorted);
            write.elems <= all.elems && write.rows <= all.rows
        }),
    decreases uses.len(),
{
    if k < uses.len() - 1 {
        assert(uses.drop_last()[k] == uses[k]);
        lemma_claim_covers_write(uses.drop_last(), extents, k, rows, head_rows, sorted);
    }
}

/// The widest need covers each value's.
proof fn lemma_colour_need_covers(
    colors: Seq<Option<u32>>,
    held: Seq<Claim>,
    colour: int,
    n: int,
    v: int,
)
    requires
        0 <= v < n,
        colors[v] == Some(colour as u32),
    ensures
        claimed(held[v]) <= colour_need(colors, held, colour, n),
    decreases n,
{
    if v < n - 1 {
        lemma_colour_need_covers(colors, held, colour, n - 1, v);
    }
}

/// A colour holds every write of every value that lives in it, whatever else
/// is written there before or after.
pub proof fn law_a_colour_holds_every_write(
    uses: Seq<Use>,
    coloring: Coloring,
    extents: Seq<ValueExtent>,
    rows: u32,
    head_rows: u32,
    sorted: u32,
    fallback_elems: u64,
    k: int,
    colour: u32,
)
    requires
        0 <= k < uses.len(),
        writes_colour(uses[k], coloring, colour as int),
    ensures
        needed(extents[uses[k].ordinal as int], rows, head_rows, sorted)
            <= colour_elems(
            uses,
            coloring,
            extents,
            rows,
            head_rows,
            sorted,
            fallback_elems,
            colour as int,
        ),
{
    let values = coloring.color@.len();
    let held = claims(uses, extents, values, rows, head_rows, sorted);
    let v = uses[k].value as int;
    let write = claim_of(extents[uses[k].ordinal as int], rows, head_rows, sorted);
    lemma_claim_covers_write(uses, extents, k, rows, head_rows, sorted);
    lemma_wider_takes_more(write, held[v]);
    lemma_colour_need_covers(coloring.color@, held, colour as int, values as int, v);
}

/// A value whose writes are all along one axis takes that axis's rows at the
/// widest of them, and no more: one of its writes has that width.
pub proof fn law_writes_along_one_axis_take_its_rows(
    uses: Seq<Use>,
    extents: Seq<ValueExtent>,
    value: int,
    axis: RowAxis,
    rows: u32,
    head_rows: u32,
    sorted: u32,
)
    requires
        forall|k: int|
            0 <= k < uses.len() && (#[trigger] uses[k]).is_write && uses[k].value == value
                ==> extents[uses[k].ordinal as int].axis == axis,
    ensures
        ({
            let all = claim(uses, extents, value, rows, head_rows, sorted);
            all == no_claim() || all.rows == rows_along(axis, rows, head_rows, sorted) && exists|
                k: int,
            |
                0 <= k < uses.len() && (#[trigger] uses[k]).is_write && uses[k].value == value
                    && extents[uses[k].ordinal as int].elems == all.elems
        }),
    decreases uses.len(),
{
    if uses.len() > 0 {
        let init = uses.drop_last();
        assert forall|k: int|
            0 <= k < init.len() && (#[trigger] init[k]).is_write && init[k].value
                == value implies extents[init[k].ordinal as int].axis == axis by {
            assert(init[k] == uses[k]);
        }
        law_writes_along_one_axis_take_its_rows(
            init,
            extents,
            value,
            axis,
            rows,
            head_rows,
            sorted,
        );
        let before = claim(init, extents, value, rows, head_rows, sorted);
        let u = uses.last();
        assert(u == uses[uses.len() - 1]);
        if before != no_claim() {
            let j = choose|k: int|
                0 <= k < init.len() && (#[trigger] init[k]).is_write && init[k].value == value
                    && extents[init[k].ordinal as int].elems == before.elems;
            assert(uses[j] == init[j]);
        }
    }
}

/// The two lists hold the same writes, in whatever order and however often.
pub open spec fn same_writes(a: Seq<Use>, b: Seq<Use>) -> bool {
    forall|u: Use| u.is_write ==> (#[trigger] a.contains(u) <==> b.contains(u))
}

/// What a value claims, one of its writes claims, in each respect.
proof fn lemma_claim_is_attained(
    uses: Seq<Use>,
    extents: Seq<ValueExtent>,
    value: int,
    rows: u32,
    head_rows: u32,
    sorted: u32,
)
    ensures
        ({
            let all = claim(uses, extents, value, rows, head_rows, sorted);
            &&& all.elems == 0 || exists|k: int|
                0 <= k < uses.len() && (#[trigger] uses[k]).is_write && uses[k].value == value
                    && extents[uses[k].ordinal as int].elems == all.elems
            &&& all.rows == 0 || exists|k: int|
                0 <= k < uses.len() && (#[trigger] uses[k]).is_write && uses[k].value == value
                    && claim_of(
                    extents[uses[k].ordinal as int],
                    rows,
                    head_rows,
                    sorted,
                ).rows == all.rows
        }),
    decreases uses.len(),
{
    if uses.len() > 0 {
        let init = uses.drop_last();
        lemma_claim_is_attained(init, extents, value, rows, head_rows, sorted);
        let before = claim(init, extents, value, rows, head_rows, sorted);
        assert(uses.last() == uses[uses.len() - 1]);
        if before.elems != 0 {
            let k = choose|k: int|
                0 <= k < init.len() && (#[trigger] init[k]).is_write && init[k].value == value
                    && extents[init[k].ordinal as int].elems == before.elems;
            assert(uses[k] == init[k]);
        }
        if before.rows != 0 {
            let k = choose|k: int|
                0 <= k < init.len() && (#[trigger] init[k]).is_write && init[k].value == value
                    && claim_of(
                    extents[init[k].ordinal as int],
                    rows,
                    head_rows,
                    sorted,
                ).rows == before.rows;
            assert(uses[k] == init[k]);
        }
    }
}

/// A list that holds the writes of another claims at least as much.
proof fn lemma_same_writes_claim_as_much(
    a: Seq<Use>,
    b: Seq<Use>,
    extents: Seq<ValueExtent>,
    value: int,
    rows: u32,
    head_rows: u32,
    sorted: u32,
)
    requires
        same_writes(a, b),
    ensures
        ({
            let x = claim(a, extents, value, rows, head_rows, sorted);
            let y = claim(b, extents, value, rows, head_rows, sorted);
            x.elems <= y.elems && x.rows <= y.rows
        }),
{
    let x = claim(a, extents, value, rows, head_rows, sorted);
    lemma_claim_is_attained(a, extents, value, rows, head_rows, sorted);
    if x.elems != 0 {
        let k = choose|k: int|
            0 <= k < a.len() && (#[trigger] a[k]).is_write && a[k].value == value
                && extents[a[k].ordinal as int].elems == x.elems;
        assert(a.contains(a[k]));
        let j = b.index_of(a[k]);
        lemma_claim_covers_write(b, extents, j, rows, head_rows, sorted);
    }
    if x.rows != 0 {
        let k = choose|k: int|
            0 <= k < a.len() && (#[trigger] a[k]).is_write && a[k].value == value && claim_of(
                extents[a[k].ordinal as int],
                rows,
                head_rows,
                sorted,
            ).rows == x.rows;
        assert(a.contains(a[k]));
        let j = b.index_of(a[k]);
        lemma_claim_covers_write(b, extents, j, rows, head_rows, sorted);
    }
}

/// Only which writes there are decides: lists that hold the same ones claim the
/// same of every value and size every colour alike.
pub proof fn law_only_the_writes_decide(
    a: Seq<Use>,
    b: Seq<Use>,
    coloring: Coloring,
    extents: Seq<ValueExtent>,
    rows: u32,
    head_rows: u32,
    sorted: u32,
    fallback_elems: u64,
    colour: int,
)
    requires
        same_writes(a, b),
    ensures
        forall|value: int| #[trigger]
            claim(a, extents, value, rows, head_rows, sorted) == claim(
                b,
                extents,
                value,
                rows,
                head_rows,
                sorted,
            ),
        colour_elems(a, coloring, extents, rows, head_rows, sorted, fallback_elems, colour)
            == colour_elems(
            b,
            coloring,
            extents,
            rows,
            head_rows,
            sorted,
            fallback_elems,
            colour,
        ),
{
    assert forall|value: int| #[trigger]
        claim(a, extents, value, rows, head_rows, sorted) == claim(
            b,
            extents,
            value,
            rows,
            head_rows,
            sorted,
        ) by {
        lemma_same_writes_claim_as_much(a, b, extents, value, rows, head_rows, sorted);
        assert(same_writes(b, a)) by {
            assert forall|u: Use| u.is_write implies (#[trigger] b.contains(u) <==> a.contains(
                u,
            )) by {
                assert(a.contains(u) <==> b.contains(u));
            }
        }
        lemma_same_writes_claim_as_much(b, a, extents, value, rows, head_rows, sorted);
    }
    let values = coloring.color@.len();
    assert(claims(a, extents, values, rows, head_rows, sorted) =~= claims(
        b,
        extents,
        values,
        rows,
        head_rows,
        sorted,
    ));
}

/// The order of the uses does not matter: a list and a permutation of it claim
/// the same of every value and size every colour alike.
pub proof fn law_the_order_of_uses_does_not_matter(
    a: Seq<Use>,
    b: Seq<Use>,
    coloring: Coloring,
    extents: Seq<ValueExtent>,
    rows: u32,
    head_rows: u32,
    sorted: u32,
    fallback_elems: u64,
    colour: int,
)
    requires
        a.to_multiset() == b.to_multiset(),
    ensures
        forall|value: int| #[trigger]
            claim(a, extents, value, rows, head_rows, sorted) == claim(
                b,
                extents,
                value,
                rows,
                head_rows,
                sorted,
            ),
        colour_elems(a, coloring, extents, rows, head_rows, sorted, fallback_elems, colour)
            == colour_elems(
            b,
            coloring,
            extents,
            rows,
            head_rows,
            sorted,
            fallback_elems,
            colour,
        ),
{
    assert forall|u: Use| u.is_write implies (#[trigger] a.contains(u) <==> b.contains(u)) by {
        vstd::seq_lib::to_multiset_contains(a, u);
        vstd::seq_lib::to_multiset_contains(b, u);
    }
    law_only_the_writes_decide(
        a,
        b,
        coloring,
        extents,
        rows,
        head_rows,
        sorted,
        fallback_elems,
        colour,
    );
}

/// Reads claim nothing wherever they stand: without them a list claims the same
/// of every value and sizes every colour alike.
pub proof fn law_reads_change_nothing(
    uses: Seq<Use>,
    coloring: Coloring,
    extents: Seq<ValueExtent>,
    rows: u32,
    head_rows: u32,
    sorted: u32,
    fallback_elems: u64,
    colour: int,
)
    ensures
        forall|value: int| #[trigger]
            claim(uses, extents, value, rows, head_rows, sorted) == claim(
                uses.filter(|u: Use| u.is_write),
                extents,
                value,
                rows,
                head_rows,
                sorted,
            ),
        colour_elems(uses, coloring, extents, rows, head_rows, sorted, fallback_elems, colour)
            == colour_elems(
            uses.filter(|u: Use| u.is_write),
            coloring,
            extents,
            rows,
            head_rows,
            sorted,
            fallback_elems,
            colour,
        ),
{
    let is_write = |u: Use| u.is_write;
    let writes = uses.filter(is_write);
    lemma_filter_keeps(uses, is_write);
    assert forall|u: Use| u.is_write implies (#[trigger] uses.contains(u) <==> writes.contains(
        u,
    )) by {
        assert(is_write(u));
    }
    law_only_the_writes_decide(
        uses,
        writes,
        coloring,
        extents,
        rows,
        head_rows,
        sorted,
        fallback_elems,
        colour,
    );
}

/// A filter keeps what it accepts and adds nothing.
proof fn lemma_filter_keeps(uses: Seq<Use>, keep: spec_fn(Use) -> bool)
    ensures
        forall|u: Use|
            keep(u) ==> (#[trigger] uses.filter(keep).contains(u) <==> uses.contains(u)),
    decreases uses.len(),
{
    reveal(Seq::filter);
    if uses.len() > 0 {
        let init = uses.drop_last();
        let last = uses.last();
        lemma_filter_keeps(init, keep);
        assert(uses =~= init.push(last));
        assert forall|u: Use| keep(u) implies (#[trigger] uses.filter(keep).contains(u)
            <==> uses.contains(u)) by {
            assert(init.filter(keep).contains(u) <==> init.contains(u));
            lemma_push_contains(init, last, u);
            lemma_push_contains(init.filter(keep), last, u);
        }
    }
}

/// A list with one more holds what it held, and that.
proof fn lemma_push_contains(uses: Seq<Use>, last: Use, u: Use)
    ensures
        uses.push(last).contains(u) <==> uses.contains(u) || u == last,
{
    let more = uses.push(last);
    if uses.contains(u) {
        let k = uses.index_of(u);
        assert(more[k] == u);
    }
    if u == last {
        assert(more[uses.len() as int] == u);
    }
    if more.contains(u) {
        let k = more.index_of(u);
        if k < uses.len() {
            assert(uses[k] == u);
        }
    }
}

/// Fires with as many rows along every axis claim the same.
proof fn lemma_claim_by_rows(
    uses: Seq<Use>,
    extents: Seq<ValueExtent>,
    value: int,
    sorted: u32,
    rows: u32,
    head_rows: u32,
    rows2: u32,
    head_rows2: u32,
)
    requires
        forall|axis: RowAxis| #[trigger]
            rows_along(axis, rows, head_rows, sorted) == rows_along(
                axis,
                rows2,
                head_rows2,
                sorted,
            ),
    ensures
        claim(uses, extents, value, rows, head_rows, sorted) == claim(
            uses,
            extents,
            value,
            rows2,
            head_rows2,
            sorted,
        ),
    decreases uses.len(),
{
    if uses.len() > 0 {
        lemma_claim_by_rows(
            uses.drop_last(),
            extents,
            value,
            sorted,
            rows,
            head_rows,
            rows2,
            head_rows2,
        );
        let axis = extents[uses.last().ordinal as int].axis;
        assert(rows_along(axis, rows, head_rows, sorted) == rows_along(
            axis,
            rows2,
            head_rows2,
            sorted,
        ));
    }
}

/// A fire of no rows is one of one row, and one that samples no rows, or more
/// than it has, samples them all: every colour is sized alike.
pub proof fn law_missing_rows_are_made_up(
    uses: Seq<Use>,
    coloring: Coloring,
    extents: Seq<ValueExtent>,
    rows: u32,
    head_rows: u32,
    sorted: u32,
    fallback_elems: u64,
    colour: int,
)
    ensures
        rows == 0 ==> colour_elems(
            uses,
            coloring,
            extents,
            rows,
            head_rows,
            sorted,
            fallback_elems,
            colour,
        ) == colour_elems(
            uses,
            coloring,
            extents,
            1,
            head_rows,
            sorted,
            fallback_elems,
            colour,
        ),
        head_rows == 0 || head_rows > rows ==> colour_elems(
            uses,
            coloring,
            extents,
            rows,
            head_rows,
            sorted,
            fallback_elems,
            colour,
        ) == colour_elems(uses, coloring, extents, rows, rows, sorted, fallback_elems, colour),
{
    let values = coloring.color@.len();
    if rows == 0 {
        assert forall|v: int| #[trigger]
            claim(uses, extents, v, rows, head_rows, sorted) == claim(
                uses,
                extents,
                v,
                1,
                head_rows,
                sorted,
            ) by {
            lemma_claim_by_rows(uses, extents, v, sorted, rows, head_rows, 1, head_rows);
        }
        assert(claims(uses, extents, values, rows, head_rows, sorted) =~= claims(
            uses,
            extents,
            values,
            1,
            head_rows,
            sorted,
        ));
    }
    if head_rows == 0 || head_rows > rows {
        assert forall|v: int| #[trigger]
            claim(uses, extents, v, rows, head_rows, sorted) == claim(
                uses,
                extents,
                v,
                rows,
                rows,
                sorted,
            ) by {
            lemma_claim_by_rows(uses, extents, v, sorted, rows, head_rows, rows, rows);
        }
        assert(claims(uses, extents, values, rows, head_rows, sorted) =~= claims(
            uses,
            extents,
            values,
            rows,
            rows,
            sorted,
        ));
    }
}

/// The widest row holds every activation the step writes: the MLP's, the
/// linear-attention in-projection's, its preparation's (two gate scalars per
/// value head beside the value rows, at twice the pitch), its query and key
/// rows' at the same pitch, and the packed query's; for a mixture also the
/// sorted stack at the model's width and at the experts', the router's logits
/// and the shared expert's. It is as wide as one of them and no wider.
pub proof fn law_the_widest_row_holds_every_activation(g: DecodeGeometry, t: Tuning)
    ensures
        ({
            let w = widest_elems(g, t);
            let sorted = sorted_stack(g, t, 1, RoutedProjection::Matmul);
            let prep = 4 * g.gdn_v_heads + 2 * (g.gdn_v_heads * g.gdn_v_dim);
            let qk = 2 * (g.gdn_v_heads * g.gdn_k_dim);
            &&& w >= g.intermediate
            &&& w >= g.gdn_conv_dim
            &&& w >= prep
            &&& w >= qk
            &&& w >= g.n_q_heads * g.head_dim
            &&& g.n_experts > 0 ==> w >= sorted * g.hidden
            &&& g.n_experts > 0 ==> w >= sorted * g.moe_intermediate
            &&& g.n_experts > 0 ==> w >= g.n_experts
            &&& g.n_experts > 0 ==> w >= g.shared_intermediate
            &&& {
                ||| w == g.intermediate
                ||| w == g.gdn_conv_dim
                ||| w == prep
                ||| w == qk
                ||| w == g.n_q_heads * g.head_dim
                ||| g.n_experts > 0 && w == sorted * g.hidden
                ||| g.n_experts > 0 && w == sorted * g.moe_intermediate
                ||| g.n_experts > 0 && w == g.n_experts
                ||| g.n_experts > 0 && w == g.shared_intermediate
            }
        }),
{
}

/// A fire's sorted stack holds however the router spreads its pairs, one for
/// each token and expert slot and no fewer than one token's, and it wastes less
/// than a tile beyond all but one row of a tile for each expert it can touch.
/// Run one row at a time, it is the pairs themselves.
pub proof fn law_the_stack_holds_the_fires_pairs(
    g: DecodeGeometry,
    t: Tuning,
    n_tokens: u32,
    counts: Seq<nat>,
)
    requires
        counts.len() == g.n_experts,
        total(counts) == (if n_tokens == 0 {
            1
        } else {
            n_tokens as int
        }) * g.experts_per_token,
        total(counts) <= u32::MAX,
    ensures
        ({
            let pairs = total(counts) as int;
            let tile = tuning::tile_rows(t, pairs as u32, g.n_experts) as int;
            let stack = sorted_stack(g, t, n_tokens as int, RoutedProjection::Matmul);
            &&& padded(counts, tile) <= stack
            &&& pairs <= stack
            &&& stack % tile == 0
            &&& stack < pairs + pairs * (tile - 1) + tile
            &&& stack < pairs + g.n_experts * (tile - 1) + tile
            &&& sorted_stack(g, t, n_tokens as int, RoutedProjection::Matvec) == pairs
        }),
{
    let pairs = total(counts) as int;
    let tile = tuning::tile_rows(t, pairs as u32, g.n_experts) as int;
    let stack = sorted_stack(g, t, n_tokens as int, RoutedProjection::Matmul);
    assert(stack == sorted_bound(pairs, g.n_experts as int, tile));
    law_every_routing_fits_the_sorted_bound(counts, tile);
    law_the_sorted_bound_is_tile_aligned(pairs, g.n_experts as int, tile);
    if tile == 1 {
        lemma_padded_at_one(counts);
        assert(pairs * (tile - 1) == 0 && g.n_experts * (tile - 1) == 0) by (nonlinear_arith)
            requires
                tile == 1,
        ;
    } else {
        let most = arith::smaller(pairs, g.n_experts as int);
        assert(0 <= most * (tile - 1) && most * (tile - 1) <= pairs * (tile - 1) && most * (tile
            - 1) <= g.n_experts * (tile - 1)) by (nonlinear_arith)
            requires
                0 <= most <= pairs,
                most <= g.n_experts,
                tile > 1,
        ;
        lemma_ceil_mul(pairs + most * (tile - 1), tile);
    }
}

/// At tile one nothing is padded.
proof fn lemma_padded_at_one(counts: Seq<nat>)
    ensures
        padded(counts, 1) == total(counts),
    decreases counts.len(),
{
    if counts.len() > 0 {
        lemma_padded_at_one(counts.drop_last());
        assert(arith::ceil_div(counts.last() as int, 1) * 1 == counts.last());
    }
}

/// A slot is no wider than it has to be: as wide as its rows of the widest
/// activation, or as a mixture's stack at one of its widths. No tokens are
/// sized as one.
pub proof fn law_a_slot_is_no_wider_than_it_has_to_be(
    g: DecodeGeometry,
    t: Tuning,
    max_tokens: u32,
)
    ensures
        ({
            let n = if max_tokens == 0 {
                1
            } else {
                max_tokens as int
            };
            let stack = sorted_stack(g, t, n, RoutedProjection::Matmul);
            let slot = slot_elems(g, t, max_tokens as int);
            &&& slot == slot_elems(g, t, n)
            &&& {
                ||| slot == widest_elems(g, t) * n
                ||| g.n_experts > 0 && slot == stack * g.hidden
                ||| g.n_experts > 0 && slot == stack * g.moe_intermediate
            }
        }),
{
}

/// A colour is no larger than it has to be: some write's row, at some write's
/// rows of the same value, is just its size; or nothing in it is written, and it
/// is the fallback.
pub proof fn law_a_colour_is_no_larger_than_its_writes(
    uses: Seq<Use>,
    coloring: Coloring,
    extents: Seq<ValueExtent>,
    rows: u32,
    head_rows: u32,
    sorted: u32,
    fallback_elems: u64,
    colour: int,
)
    ensures
        ({
            let size = colour_elems(
                uses,
                coloring,
                extents,
                rows,
                head_rows,
                sorted,
                fallback_elems,
                colour,
            );
            size == fallback_elems || exists|i: int, j: int|
                #![trigger uses[i], uses[j]]
                0 <= i < uses.len() && 0 <= j < uses.len() && uses[i].value == uses[j].value
                    && writes_colour(uses[i], coloring, colour) && writes_colour(
                    uses[j],
                    coloring,
                    colour,
                ) && size == rows_along(
                    extents[uses[j].ordinal as int].axis,
                    rows,
                    head_rows,
                    sorted,
                ) * extents[uses[i].ordinal as int].elems
        }),
{
    let values = coloring.color@.len();
    let held = claims(uses, extents, values, rows, head_rows, sorted);
    let need = colour_need(coloring.color@, held, colour, values as int);
    if need != 0 {
        lemma_colour_need_is_attained(coloring.color@, held, colour, values as int);
        let v = choose|v: int|
            0 <= v < values && #[trigger] coloring.color@[v] == Some(colour as u32) && claimed(
                held[v],
            ) == need;
        lemma_claim_is_attained(uses, extents, v, rows, head_rows, sorted);
        let all = held[v];
        assert(all.elems != 0 && all.rows != 0) by {
            if all.elems == 0 || all.rows == 0 {
                assert(claimed(all) == 0) by (nonlinear_arith)
                    requires
                        claimed(all) == all.rows * all.elems,
                        all.elems == 0 || all.rows == 0,
                ;
            }
        }
        let i = choose|k: int|
            0 <= k < uses.len() && (#[trigger] uses[k]).is_write && uses[k].value == v
                && extents[uses[k].ordinal as int].elems == all.elems;
        let j = choose|k: int|
            0 <= k < uses.len() && (#[trigger] uses[k]).is_write && uses[k].value == v
                && claim_of(extents[uses[k].ordinal as int], rows, head_rows, sorted).rows
                == all.rows;
        assert(writes_colour(uses[i], coloring, colour));
        assert(writes_colour(uses[j], coloring, colour));
    }
}

/// The widest need is some value's.
proof fn lemma_colour_need_is_attained(
    colors: Seq<Option<u32>>,
    held: Seq<Claim>,
    colour: int,
    n: int,
)
    requires
        0 <= n <= colors.len(),
        colour_need(colors, held, colour, n) != 0,
    ensures
        exists|v: int|
            0 <= v < n && #[trigger] colors[v] == Some(colour as u32) && claimed(held[v])
                == colour_need(colors, held, colour, n),
    decreases n,
{
    let before = colour_need(colors, held, colour, n - 1);
    if colors[n - 1] == Some(colour as u32) && claimed(held[n - 1]) > before {
        assert(colors[n - 1] == Some(colour as u32));
    } else {
        lemma_colour_need_is_attained(colors, held, colour, n - 1);
        let v = choose|v: int|
            0 <= v < n - 1 && #[trigger] colors[v] == Some(colour as u32) && claimed(held[v])
                == before;
        assert(colors[v] == Some(colour as u32));
    }
}

/// How tall each axis is: the body is the fire's rows and at least one, the
/// tail is the sampled rows but never more than the body, and all of it when
/// none is stated, and the stack is the sorted rows.
pub proof fn law_each_axis_has_its_own_rows(rows: u32, head_rows: u32, sorted: u32)
    ensures
        rows > 0 ==> rows_along(RowAxis::Body, rows, head_rows, sorted) == rows,
        rows == 0 ==> rows_along(RowAxis::Body, rows, head_rows, sorted) == 1,
        0 < head_rows <= rows ==> rows_along(RowAxis::Tail, rows, head_rows, sorted) == head_rows,
        head_rows == 0 || head_rows > rows ==> rows_along(RowAxis::Tail, rows, head_rows, sorted)
            == rows_along(RowAxis::Body, rows, head_rows, sorted),
        rows_along(RowAxis::Sorted, rows, head_rows, sorted) == sorted,
{
}

} // verus!
