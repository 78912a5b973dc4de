//! The launch shapes: how a quantity becomes a thread grid.
//!
//! A grid counts threads, and a threadgroup divides it. Each function is one
//! shape of launch, shared by every kernel that launches that way.

use crate::arith;
use crate::arith::div_ceil_u32;
use vstd::prelude::*;

verus! {

/// A launch: the thread grid and its threadgroup.
#[derive(Clone, Copy, Debug, PartialEq, Eq)]
pub struct Launch {
    /// Threads along each axis.
    pub grid: [u32; 3],
    /// Threads of one threadgroup along each axis.
    pub tg: [u32; 3],
}

/// [`Launch`] as numbers.
#[verifier::ext_equal]
pub struct Shape {
    pub grid: (int, int, int),
    pub tg: (int, int, int),
}

impl View for Launch {
    type V = Shape;

    open spec fn view(&self) -> Shape {
        Shape {
            grid: (self.grid@[0] as int, self.grid@[1] as int, self.grid@[2] as int),
            tg: (self.tg@[0] as int, self.tg@[1] as int, self.tg@[2] as int),
        }
    }
}

/// A launch over `x` by `y` by `z` threads in groups of `tx` by `ty`.
pub open spec fn shape(x: int, y: int, z: int, tx: int, ty: int) -> Shape {
    Shape { grid: (x, y, z), tg: (tx, ty, 1) }
}

/// Build a launch.
fn launch(x: u32, y: u32, z: u32, tx: u32, ty: u32) -> (l: Launch)
    ensures
        l@ == shape(x as int, y as int, z as int, tx as int, ty as int),
{
    Launch { grid: [x, y, z], tg: [tx, ty, 1] }
}

/// Threads in a simdgroup.
pub const SIMD: u32 = 32;

/// The widest threadgroup the device allows.
pub const WIDEST: u32 = 1024;

/// A thread count brought to a whole number of simdgroups: at least one, at
/// most the widest threadgroup.
pub open spec fn simd_multiple(n: int) -> int {
    arith::ceil_div(arith::smaller(arith::larger(n, 1), WIDEST as int), SIMD as int) * SIMD
}

/// See [`simd_multiple`].
fn simd_round(n: u32) -> (threads: u32)
    ensures
        threads == simd_multiple(n as int),
        SIMD <= threads <= WIDEST,
{
    let at_least: u32 = if n < 1 {
        1
    } else {
        n
    };
    let capped: u32 = if at_least > WIDEST {
        WIDEST
    } else {
        at_least
    };
    div_ceil_u32(capped, SIMD) * SIMD
}

/// Rows of simdgroups that produce `width` outputs: four outputs per
/// simdgroup, two simdgroups per threadgroup, rounded up, so the last few
/// outputs are computed rather than dropped.
pub open spec fn qmv_rows(width: int) -> int {
    arith::ceil_div(width, 8) * 2
}

/// The matvec.
pub open spec fn qmv_shape(width: int) -> Shape {
    shape(32, qmv_rows(width), 1, 32, 2)
}

/// See [`qmv_shape`].
pub fn qmv(width: u32) -> (l: Launch)
    ensures
        l@ == qmv_shape(width as int),
{
    let rows: u32 = div_ceil_u32(width, 8);
    launch(32, rows * 2, 1, 32, 2)
}

/// The row-wise norm: one threadgroup per row, four elements per thread,
/// capped at the widest threadgroup.
pub open spec fn rms_shape(width: int, rows: int) -> Shape {
    let t = simd_multiple(arith::ceil_div(width, 4));
    shape(t, rows, 1, t, 1)
}

/// See [`rms_shape`].
pub fn rms(width: u32, rows: u32) -> (l: Launch)
    ensures
        l@ == rms_shape(width as int, rows as int),
{
    let t: u32 = simd_round(div_ceil_u32(width, 4));
    launch(t, rows, 1, t, 1)
}

/// The rotation: half the rotary channels per head.
pub open spec fn rope_shape(rotary: int, heads: int) -> Shape {
    let half = arith::larger(rotary / 2, 1);
    shape(half, heads, 1, half, 1)
}

/// See [`rope_shape`].
pub fn rope(rotary: u32, heads: u32) -> (l: Launch)
    ensures
        l@ == rope_shape(rotary as int, heads as int),
{
    let half: u32 = if rotary / 2 < 1 {
        1
    } else {
        rotary / 2
    };
    launch(half, heads, 1, half, 1)
}

/// A pointwise pass, 256 wide.
pub open spec fn pointwise_shape(width: int) -> Shape {
    shape(width, 1, 1, 256, 1)
}

/// See [`pointwise_shape`].
pub fn pointwise(width: u32) -> (l: Launch)
    ensures
        l@ == pointwise_shape(width as int),
{
    launch(width, 1, 1, 256, 1)
}

/// The residual add, a pointwise pass.
pub fn residual(width: u32) -> (l: Launch)
    ensures
        l@ == pointwise_shape(width as int),
{
    pointwise(width)
}

/// The embedding, a pointwise pass.
pub fn embed(width: u32) -> (l: Launch)
    ensures
        l@ == pointwise_shape(width as int),
{
    pointwise(width)
}

/// The gated activation, a pointwise pass.
pub fn silu_mul(width: u32) -> (l: Launch)
    ensures
        l@ == pointwise_shape(width as int),
{
    pointwise(width)
}

/// One threadgroup per head, as wide as the head.
pub open spec fn per_head_shape(head_dim: int, heads: int) -> Shape {
    shape(head_dim, heads, 1, head_dim, 1)
}

/// The KV append.
pub fn kv_append(head_dim: u32, heads: u32) -> (l: Launch)
    ensures
        l@ == per_head_shape(head_dim as int, heads as int),
{
    launch(head_dim, heads, 1, head_dim, 1)
}

/// The query split, which launches like the append.
pub fn q_split(head_dim: u32, heads: u32) -> (l: Launch)
    ensures
        l@ == per_head_shape(head_dim as int, heads as int),
        is_per_head(l@, head_dim as int, heads as int),
{
    kv_append(head_dim, heads)
}

/// Single-pass decode attention: one widest threadgroup per query head.
pub open spec fn sdpa_shape(q_heads: int) -> Shape {
    shape(WIDEST as int, q_heads, 1, WIDEST as int, 1)
}

/// See [`sdpa_shape`].
pub fn sdpa(q_heads: u32) -> (l: Launch)
    ensures
        l@ == sdpa_shape(q_heads as int),
{
    launch(WIDEST, q_heads, 1, WIDEST, 1)
}

/// Pointwise over every head's channels, 256 wide.
pub fn attn_gate(q_heads: u32, head_dim: u32) -> (l: Launch)
    requires
        q_heads * head_dim <= u32::MAX,
    ensures
        l@ == pointwise_shape(q_heads * head_dim),
        is_pointwise(l@, q_heads * head_dim),
{
    assert(0 <= q_heads * head_dim) by (nonlinear_arith);
    pointwise(q_heads * head_dim)
}

/// The gated norm: a row-wise norm with one row per head.
pub fn gated_rms(heads: u32, head_dim: u32) -> (l: Launch)
    ensures
        l@ == rms_shape(head_dim as int, heads as int),
        is_row_norm(l@, head_dim as int, heads as int),
{
    proof {
        lemma_row_norm(head_dim as int, heads as int);
    }
    rms(head_dim, heads)
}

/// One threadgroup as wide as the expert count, in whole simdgroups.
pub open spec fn expert_lane_shape(n_experts: int) -> Shape {
    shape(simd_multiple(n_experts), 1, 1, simd_multiple(n_experts), 1)
}

/// The router's top-k.
pub fn router_topk(n_experts: u32) -> (l: Launch)
    ensures
        l@ == expert_lane_shape(n_experts as int),
{
    let t: u32 = simd_round(n_experts);
    launch(t, 1, 1, t, 1)
}

/// The expert-major sort, which launches like the top-k.
pub fn route_sort(n_experts: u32) -> (l: Launch)
    ensures
        l@ == expert_lane_shape(n_experts as int),
{
    router_topk(n_experts)
}

/// A row's threadgroup: as wide as the row, capped at 256.
pub open spec fn row_threads(width: int) -> int {
    arith::smaller(arith::larger(width, 1), 256)
}

/// One threadgroup per row.
pub open spec fn route_rows_shape(width: int, rows: int) -> Shape {
    shape(row_threads(width), rows, 1, row_threads(width), 1)
}

/// See [`route_rows_shape`].
pub fn route_rows(width: u32, rows: u32) -> (l: Launch)
    ensures
        l@ == route_rows_shape(width as int, rows as int),
{
    let at_least: u32 = if width < 1 {
        1
    } else {
        width
    };
    let t: u32 = if at_least > 256 {
        256
    } else {
        at_least
    };
    launch(t, rows, 1, t, 1)
}

/// The routed matvec: [`qmv_shape`] per row, per expert slot.
pub open spec fn routed_qmv_shape(width: int, slots: int, rows: int) -> Shape {
    shape(32 * rows, qmv_rows(width), slots, 32, 2)
}

/// See [`routed_qmv_shape`].
pub fn routed_qmv(width: u32, slots: u32, rows: u32) -> (l: Launch)
    requires
        32 * rows <= u32::MAX,
    ensures
        l@ == routed_qmv_shape(width as int, slots as int, rows as int),
{
    let groups: u32 = div_ceil_u32(width, 8);
    launch(32 * rows, groups * 2, slots, 32, 2)
}

/// One widest threadgroup: the argmax.
pub open spec fn one_group_shape() -> Shape {
    shape(WIDEST as int, 1, 1, WIDEST as int, 1)
}

/// See [`one_group_shape`].
pub fn one_group() -> (l: Launch)
    ensures
        l@ == one_group_shape(),
{
    launch(WIDEST, 1, 1, WIDEST, 1)
}

/// The weighted sum over a row: pointwise, in groups no wider than the row.
pub open spec fn combine_shape(width: int) -> Shape {
    shape(arith::larger(width, 1), 1, 1, row_threads(width), 1)
}

/// See [`combine_shape`].
pub fn combine(width: u32) -> (l: Launch)
    ensures
        l@ == combine_shape(width as int),
        is_combine(l@, width as int),
{
    let w: u32 = if width < 1 {
        1
    } else {
        width
    };
    let t: u32 = if w > 256 {
        256
    } else {
        w
    };
    launch(w, 1, 1, t, 1)
}

/// The matvec computes every output: eight per threadgroup cover the width,
/// and not one whole threadgroup is spare.
pub proof fn law_qmv_covers_every_output(width: int)
    requires
        width >= 0,
    ensures
        width <= (qmv_rows(width) / 2) * 8,
        (qmv_rows(width) / 2) * 8 < width + 8,
{
}

/// Every norm row's threadgroup is a whole number of simdgroups the device can
/// launch.
pub proof fn law_norm_threadgroup_is_legal(width: int, rows: int)
    requires
        width >= 0,
    ensures
        SIMD <= rms_shape(width, rows).tg.0 <= WIDEST,
        rms_shape(width, rows).tg.0 % (SIMD as int) == 0,
        rms_shape(width, rows).grid.0 == rms_shape(width, rows).tg.0,
{
}

// ---- What a launch has to cover -----------------------------------------
/// Two simdgroups a threadgroup, four outputs a simdgroup: every output has a
/// simdgroup, and no threadgroup is spare.
pub open spec fn covers_outputs(s: Shape, outputs: int) -> bool {
    &&& s.tg == (32int, 2int, 1int)
    &&& s.grid.1 % 2 == 0
    &&& outputs <= 4 * s.grid.1 < outputs + 8
}

/// A matvec of one row.
pub open spec fn is_matvec(s: Shape, outputs: int) -> bool {
    covers_outputs(s, outputs) && s.grid.0 == 32 && s.grid.2 == 1
}

/// A matvec for every row and every expert slot.
pub open spec fn is_routed_matvec(s: Shape, outputs: int, slots: int, rows: int) -> bool {
    covers_outputs(s, outputs) && s.grid.0 == 32 * rows && s.grid.2 == slots
}

/// One threadgroup a row, of whole simdgroups, as many as hold the row at four
/// elements a thread and no simdgroup more, up to the widest.
pub open spec fn is_row_norm(s: Shape, width: int, rows: int) -> bool {
    &&& s.grid.1 == rows
    &&& s.grid.2 == 1
    &&& s.tg == (s.grid.0, 1int, 1int)
    &&& s.grid.0 % 32 == 0
    &&& 32 <= s.grid.0 <= 1024
    &&& s.grid.0 == 1024 || 4 * s.grid.0 >= width
    &&& s.grid.0 > 32 ==> 4 * (s.grid.0 - 32) < width
}

/// One threadgroup a head, a thread for every pair of channels it rotates.
pub open spec fn is_rotation(s: Shape, rotary: int, heads: int) -> bool {
    &&& s.grid.1 == heads
    &&& s.grid.2 == 1
    &&& s.tg == (s.grid.0, 1int, 1int)
    &&& rotary >= 2 ==> 2 * s.grid.0 <= rotary < 2 * s.grid.0 + 2
    &&& rotary < 2 ==> s.grid.0 == 1
}

/// A thread for every element of one row, 256 to a threadgroup.
pub open spec fn is_pointwise(s: Shape, width: int) -> bool {
    s.grid.0 == width && s.grid.1 == 1 && s.grid.2 == 1 && s.tg == (256int, 1int, 1int)
}

/// One threadgroup a head, as wide as the head.
pub open spec fn is_per_head(s: Shape, head_dim: int, heads: int) -> bool {
    s.grid.0 == head_dim && s.grid.1 == heads && s.grid.2 == 1 && s.tg == (head_dim, 1int, 1int)
}

/// One threadgroup a query head, the widest there is.
pub open spec fn is_attention(s: Shape, q_heads: int) -> bool {
    s.grid.0 == 1024 && s.grid.1 == q_heads && s.grid.2 == 1 && s.tg == (1024int, 1int, 1int)
}

/// One threadgroup of whole simdgroups, a thread for every expert and no
/// simdgroup more, up to the widest.
pub open spec fn is_expert_lane(s: Shape, n_experts: int) -> bool {
    &&& s.grid.1 == 1
    &&& s.grid.2 == 1
    &&& s.tg == (s.grid.0, 1int, 1int)
    &&& s.grid.0 % 32 == 0
    &&& 32 <= s.grid.0 <= 1024
    &&& s.grid.0 == 1024 || s.grid.0 >= n_experts
    &&& s.grid.0 > 32 ==> s.grid.0 - 32 < n_experts
}

/// One threadgroup a row, as wide as the row up to 256.
pub open spec fn is_row_pass(s: Shape, width: int, rows: int) -> bool {
    &&& s.grid.1 == rows
    &&& s.grid.2 == 1
    &&& s.tg == (s.grid.0, 1int, 1int)
    &&& 1 <= s.grid.0 <= 256
    &&& s.grid.0 == 256 || s.grid.0 >= width
    &&& width >= 1 ==> s.grid.0 <= width
}

/// A thread for every element of one row, in threadgroups as wide as the row up
/// to 256.
pub open spec fn is_combine(s: Shape, width: int) -> bool {
    &&& s.grid.1 == 1
    &&& s.grid.2 == 1
    &&& width >= 1 ==> s.grid.0 == width
    &&& width < 1 ==> s.grid.0 == 1
    &&& s.tg.1 == 1 && s.tg.2 == 1
    &&& 1 <= s.tg.0 <= 256
    &&& s.tg.0 == 256 || s.tg.0 >= width
    &&& s.tg.0 <= s.grid.0
}

/// One threadgroup alone, the widest there is.
pub open spec fn is_one_group(s: Shape) -> bool {
    s.grid.0 == 1024 && s.grid.1 == 1 && s.grid.2 == 1 && s.tg == (1024int, 1int, 1int)
}

/// Each shape of launch covers what it is a launch of, and no more than it has
/// to.
pub proof fn law_each_shape_covers_its_work(a: u32, b: u32, c: u32)
    ensures
        is_matvec(qmv_shape(a as int), a as int),
        is_routed_matvec(
            routed_qmv_shape(a as int, b as int, c as int),
            a as int,
            b as int,
            c as int,
        ),
        is_row_norm(rms_shape(a as int, b as int), a as int, b as int),
        is_rotation(rope_shape(a as int, b as int), a as int, b as int),
        is_pointwise(pointwise_shape(a as int), a as int),
        is_per_head(per_head_shape(a as int, b as int), a as int, b as int),
        is_attention(sdpa_shape(a as int), a as int),
        is_expert_lane(expert_lane_shape(a as int), a as int),
        is_row_pass(route_rows_shape(a as int, b as int), a as int, b as int),
        is_combine(combine_shape(a as int), a as int),
        is_one_group(one_group_shape()),
{
    lemma_matvec(a as int);
    lemma_row_norm(a as int, b as int);
    lemma_expert_lane(a as int);
}

/// The matvec's rows cover its outputs.
pub proof fn lemma_matvec(width: int)
    requires
        width >= 0,
    ensures
        is_matvec(qmv_shape(width), width),
        forall|slots: int, rows: int| #[trigger]
            is_routed_matvec(routed_qmv_shape(width, slots, rows), width, slots, rows),
{
}

/// The norm's threadgroup covers its row.
pub proof fn lemma_row_norm(width: int, rows: int)
    requires
        width >= 0,
    ensures
        is_row_norm(rms_shape(width, rows), width, rows),
{
}

/// The lane covers the experts.
pub proof fn lemma_expert_lane(n_experts: int)
    requires
        n_experts >= 0,
    ensures
        is_expert_lane(expert_lane_shape(n_experts), n_experts),
{
}

/// A row pass covers its row.
pub proof fn lemma_row_pass(width: int, rows: int)
    requires
        width >= 0,
    ensures
        is_row_pass(route_rows_shape(width, rows), width, rows),
{
}

} // verus!
