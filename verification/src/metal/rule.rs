//! How a rectangle becomes a launch.
//!
//! A lowered launch gives rows and layers; a dispatch needs a grid. The kernel
//! names a [`Rule`], the rule stays the documented shape it is, and the
//! executor's dispatch is a loop with no arm per kernel.

use crate::arith;
use crate::metal::shapes;
use crate::metal::shapes::{
    attn_gate, gated_rms, kv_append, qmv, residual, rms, rope, route_rows, routed_qmv, router_topk,
    sdpa, Launch, Shape,
};
use vstd::prelude::*;

verus! {

/// The fire-time quantities a launch rule may read.
#[derive(Clone, Copy, Debug, PartialEq, Eq, Structural)]
pub struct Dims {
    /// Rows the rectangle covers.
    pub rows: u32,
    /// Elements per row of the operand that sizes the launch.
    pub width: u32,
    /// Query heads.
    pub q_heads: u32,
    /// Key and value heads.
    pub kv_heads: u32,
    /// Elements per head.
    pub head_dim: u32,
    /// Channels a partial rotation rotates.
    pub rotary_dims: u32,
    /// Experts the router scores.
    pub n_experts: u32,
    /// Experts each token routes to.
    pub experts_per_token: u32,
}

impl Default for Dims {
    fn default() -> (dims: Self)
        ensures
            dims == (Dims {
                rows: 0,
                width: 0,
                q_heads: 0,
                kv_heads: 0,
                head_dim: 0,
                rotary_dims: 0,
                n_experts: 0,
                experts_per_token: 0,
            }),
    {
        Dims {
            rows: 0,
            width: 0,
            q_heads: 0,
            kv_heads: 0,
            head_dim: 0,
            rotary_dims: 0,
            n_experts: 0,
            experts_per_token: 0,
        }
    }
}

/// The launch rule a kernel declares: one variant per shape of launch.
#[derive(Clone, Copy, Debug, PartialEq, Eq, Structural)]
pub enum Rule {
    /// The row has not said. Nothing may be dispatched from it.
    Unstated,
    /// The matvec.
    Qmv,
    /// The row-wise norm.
    Rms,
    /// The rotation.
    Rope,
    /// Pointwise over one row.
    Elementwise,
    /// One threadgroup per head.
    PerHead,
    /// Single-pass decode attention.
    SdpaVector,
    /// Pointwise over every head's channels.
    PerHeadElementwise,
    /// The gated norm over the value heads.
    GatedRms,
    /// One threadgroup as wide as the expert count.
    RouterLane,
    /// One threadgroup per row, capped.
    RouteRows,
    /// The routed matvec.
    RoutedQmv,
}

impl Default for Rule {
    fn default() -> (rule: Self)
        ensures
            rule == Rule::Unstated,
    {
        Rule::Unstated
    }
}

/// Why a rule could not produce a launch.
#[derive(Clone, Copy, Debug, PartialEq, Eq, Structural)]
pub enum Ungeometric {
    /// The row states no rule, so nothing can be dispatched from it.
    Unstated,
}

/// The shape a rule gives, when it states one.
pub open spec fn rule_shape(rule: Rule, d: Dims) -> Option<Shape> {
    match rule {
        Rule::Unstated => None,
        Rule::Qmv => Some(shapes::qmv_shape(d.width as int)),
        Rule::Rms => Some(shapes::rms_shape(d.width as int, d.rows as int)),
        Rule::Rope => Some(shapes::rope_shape(d.rotary_dims as int, d.q_heads as int)),
        Rule::Elementwise => Some(shapes::pointwise_shape(d.width as int)),
        Rule::PerHead => Some(shapes::per_head_shape(d.head_dim as int, d.kv_heads as int)),
        Rule::SdpaVector => Some(shapes::sdpa_shape(d.q_heads as int)),
        Rule::PerHeadElementwise => Some(shapes::pointwise_shape(d.q_heads * d.head_dim)),
        Rule::GatedRms => Some(shapes::rms_shape(d.head_dim as int, d.kv_heads as int)),
        Rule::RouterLane => Some(shapes::expert_lane_shape(d.n_experts as int)),
        Rule::RouteRows => Some(shapes::route_rows_shape(d.width as int, d.rows as int)),
        Rule::RoutedQmv => Some(
            shapes::routed_qmv_shape(d.width as int, d.experts_per_token as int, d.rows as int),
        ),
    }
}

/// The rule's grid fits the 32 bits of a grid axis.
pub open spec fn grid_fits(rule: Rule, d: Dims) -> bool {
    match rule {
        Rule::PerHeadElementwise => d.q_heads * d.head_dim <= u32::MAX,
        Rule::RoutedQmv => 32 * d.rows <= u32::MAX,
        _ => true,
    }
}

impl Rule {
    /// The launch this rule produces for `dims`, or [`Ungeometric::Unstated`]
    /// when the row has not named a rule.
    pub fn eval(self, dims: Dims) -> (launch: Result<Launch, Ungeometric>)
        requires
            grid_fits(self, dims),
        ensures
            launch is Err <==> self == Rule::Unstated,
            launch matches Ok(l) ==> rule_shape(self, dims) == Some(l@),
            launch matches Err(e) ==> e == Ungeometric::Unstated,
    {
        Ok(
            match self {
                Rule::Unstated => return Err(Ungeometric::Unstated),
                Rule::Qmv => qmv(dims.width),
                Rule::Rms => rms(dims.width, dims.rows),
                Rule::Rope => rope(dims.rotary_dims, dims.q_heads),
                Rule::Elementwise => residual(dims.width),
                Rule::PerHead => kv_append(dims.head_dim, dims.kv_heads),
                Rule::SdpaVector => sdpa(dims.q_heads),
                Rule::PerHeadElementwise => attn_gate(dims.q_heads, dims.head_dim),
                Rule::GatedRms => gated_rms(dims.kv_heads, dims.head_dim),
                Rule::RouterLane => router_topk(dims.n_experts),
                Rule::RouteRows => route_rows(dims.width, dims.rows),
                Rule::RoutedQmv => routed_qmv(dims.width, dims.experts_per_token, dims.rows),
            },
        )
    }
}

/// A dimension of [`Dims`].
pub enum DimName {
    Rows,
    Width,
    QHeads,
    KvHeads,
    HeadDim,
    RotaryDims,
    NExperts,
    ExpertsPerToken,
}

/// The dimensions a rule names.
pub open spec fn names(rule: Rule, dim: DimName) -> bool {
    match rule {
        Rule::Unstated => false,
        Rule::Qmv | Rule::Elementwise => dim is Width,
        Rule::Rms | Rule::RouteRows => dim is Width || dim is Rows,
        Rule::Rope => dim is RotaryDims || dim is QHeads,
        Rule::PerHead | Rule::GatedRms => dim is HeadDim || dim is KvHeads,
        Rule::SdpaVector => dim is QHeads,
        Rule::PerHeadElementwise => dim is QHeads || dim is HeadDim,
        Rule::RouterLane => dim is NExperts,
        Rule::RoutedQmv => dim is Width || dim is ExpertsPerToken || dim is Rows,
    }
}

/// A dimension's value.
pub open spec fn dim_of(d: Dims, dim: DimName) -> u32 {
    match dim {
        DimName::Rows => d.rows,
        DimName::Width => d.width,
        DimName::QHeads => d.q_heads,
        DimName::KvHeads => d.kv_heads,
        DimName::HeadDim => d.head_dim,
        DimName::RotaryDims => d.rotary_dims,
        DimName::NExperts => d.n_experts,
        DimName::ExpertsPerToken => d.experts_per_token,
    }
}

/// A rule reads only the dimensions it names: changing any other does not move
/// its launch.
pub proof fn law_a_rule_reads_only_the_dims_it_names(rule: Rule, d: Dims, e: Dims)
    requires
        forall|dim: DimName| #[trigger] names(rule, dim) ==> dim_of(d, dim) == dim_of(e, dim),
    ensures
        rule_shape(rule, d) == rule_shape(rule, e),
{
    assert(names(rule, DimName::Rows) ==> d.rows == e.rows);
    assert(names(rule, DimName::Width) ==> d.width == e.width);
    assert(names(rule, DimName::QHeads) ==> d.q_heads == e.q_heads);
    assert(names(rule, DimName::KvHeads) ==> d.kv_heads == e.kv_heads);
    assert(names(rule, DimName::HeadDim) ==> d.head_dim == e.head_dim);
    assert(names(rule, DimName::RotaryDims) ==> d.rotary_dims == e.rotary_dims);
    assert(names(rule, DimName::NExperts) ==> d.n_experts == e.n_experts);
    assert(names(rule, DimName::ExpertsPerToken) ==> d.experts_per_token == e.experts_per_token);
}

/// Threads of a shape's threadgroup.
pub open spec fn group_size(s: Shape) -> int {
    s.tg.0 * s.tg.1 * s.tg.2
}

/// A stated rule over a fire that has something to do makes a grid the device
/// runs: it has threads along every axis, and its threadgroup is neither empty
/// nor wider than the device allows. A head is one threadgroup, and so is half
/// a rotation, so neither is wider than that.
pub proof fn law_a_stated_rule_makes_a_legal_grid(rule: Rule, d: Dims)
    requires
        rule != Rule::Unstated,
        forall|dim: DimName| #[trigger] names(rule, dim) ==> dim_of(d, dim) > 0,
        rule == Rule::PerHead ==> d.head_dim <= shapes::WIDEST,
        rule == Rule::Rope ==> d.rotary_dims / 2 <= shapes::WIDEST,
    ensures
        rule_shape(rule, d) matches Some(s) && s.grid.0 > 0 && s.grid.1 > 0 && s.grid.2 > 0 && 0
            < group_size(s) <= shapes::WIDEST,
{
    assert(names(rule, DimName::Rows) ==> d.rows > 0);
    assert(names(rule, DimName::Width) ==> d.width > 0);
    assert(names(rule, DimName::QHeads) ==> d.q_heads > 0);
    assert(names(rule, DimName::KvHeads) ==> d.kv_heads > 0);
    assert(names(rule, DimName::HeadDim) ==> d.head_dim > 0);
    assert(names(rule, DimName::RotaryDims) ==> d.rotary_dims > 0);
    assert(names(rule, DimName::NExperts) ==> d.n_experts > 0);
    assert(names(rule, DimName::ExpertsPerToken) ==> d.experts_per_token > 0);
    shapes::law_norm_threadgroup_is_legal(d.width as int, d.rows as int);
    shapes::law_norm_threadgroup_is_legal(d.head_dim as int, d.kv_heads as int);
    if rule == Rule::PerHeadElementwise {
        assert(d.q_heads * d.head_dim > 0) by (nonlinear_arith)
            requires
                d.q_heads > 0,
                d.head_dim > 0,
        ;
    }
    let s = rule_shape(rule, d)->Some_0;
    assert(group_size(s) == s.tg.0 * s.tg.1) by (nonlinear_arith)
        requires
            s.tg.2 == 1,
            group_size(s) == s.tg.0 * s.tg.1 * s.tg.2,
    ;
    if rule != Rule::Qmv && rule != Rule::RoutedQmv {
        assert(s.tg.0 * s.tg.1 == s.tg.0) by (nonlinear_arith)
            requires
                s.tg.1 == 1,
        ;
    }
}

/// A kernel that names no rule launches nothing, whatever the fire.
pub proof fn law_an_unstated_rule_has_no_shape(rule: Rule, d: Dims)
    ensures
        rule_shape(rule, d) is None <==> rule == Rule::Unstated,
{
}

/// What each rule launches, by what its documentation says it covers: outputs
/// for the matvecs, rows for the norms and the row passes, heads for the
/// rotation, the append, the attention and the gated norm, channels for the
/// pointwise passes, and experts for the router's lane.
pub proof fn law_each_rule_covers_what_it_says(rule: Rule, d: Dims)
    ensures
        rule == Rule::Unstated ==> rule_shape(rule, d) is None,
        rule != Rule::Unstated ==> rule_shape(rule, d) is Some,
        rule_shape(rule, d) matches Some(s) ==> {
            &&& rule == Rule::Qmv ==> shapes::is_matvec(s, d.width as int)
            &&& rule == Rule::Rms ==> shapes::is_row_norm(s, d.width as int, d.rows as int)
            &&& rule == Rule::Rope ==> shapes::is_rotation(
                s,
                d.rotary_dims as int,
                d.q_heads as int,
            )
            &&& rule == Rule::Elementwise ==> shapes::is_pointwise(s, d.width as int)
            &&& rule == Rule::PerHead ==> shapes::is_per_head(
                s,
                d.head_dim as int,
                d.kv_heads as int,
            )
            &&& rule == Rule::SdpaVector ==> shapes::is_attention(s, d.q_heads as int)
            &&& rule == Rule::PerHeadElementwise ==> shapes::is_pointwise(
                s,
                d.q_heads * d.head_dim,
            )
            &&& rule == Rule::GatedRms ==> shapes::is_row_norm(
                s,
                d.head_dim as int,
                d.kv_heads as int,
            )
            &&& rule == Rule::RouterLane ==> shapes::is_expert_lane(s, d.n_experts as int)
            &&& rule == Rule::RouteRows ==> shapes::is_row_pass(s, d.width as int, d.rows as int)
            &&& rule == Rule::RoutedQmv ==> shapes::is_routed_matvec(
                s,
                d.width as int,
                d.experts_per_token as int,
                d.rows as int,
            )
        },
{
    shapes::law_each_shape_covers_its_work(d.width, d.experts_per_token, d.rows);
    shapes::lemma_row_norm(d.width as int, d.rows as int);
    shapes::lemma_row_norm(d.head_dim as int, d.kv_heads as int);
    shapes::lemma_expert_lane(d.n_experts as int);
    shapes::lemma_row_pass(d.width as int, d.rows as int);
}

/// A rule's grid fits exactly where each of its axes is a 32-bit count.
pub proof fn law_a_grid_fits_where_its_axes_do(rule: Rule, d: Dims)
    ensures
        grid_fits(rule, d) <==> (rule_shape(rule, d) matches Some(s) ==> s.grid.0 <= u32::MAX
            && s.grid.1 <= u32::MAX && s.grid.2 <= u32::MAX),
{
    arith::law_rounding_up_covers_with_none_to_spare(d.width as int, 8);
}

} // verus!
