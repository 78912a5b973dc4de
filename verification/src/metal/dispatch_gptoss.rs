//! The gpt-oss family's per-token dispatch list.
//!
//! The mixture's movers are the shared sort and gather, and the residuals the
//! shared adds; what is the family's own is its biased projections, its sink
//! attention and its clamped activation.

use crate::metal::abi::Kernel;
use crate::metal::dag;
use crate::metal::dag::{DagBuilder, Dispatch, Step};
use crate::metal::geometry;
use crate::metal::geometry::GptOssGeometry;
use crate::metal::shapes;
use crate::metal::shapes::{
    combine, embed, kv_append, one_group, pointwise, qmv, residual, rms, rope, route_rows,
    route_sort, routed_qmv, router_topk, sdpa, Launch,
};
use crate::metal::sizing;
use crate::metal::sizing::sorted_rows;
use vstd::prelude::*;

verus! {

/// A pointwise pass over the sorted stack.
pub fn elementwise(width: u32) -> (l: Launch)
    ensures
        l@ == shapes::pointwise_shape(width as int),
{
    pointwise(width)
}

/// The attention half of a layer. Every head channel rotates, and the sink
/// attention launches like the plain one: the sink is one more denominator
/// term, not one more thread.
pub open spec fn with_attention(done: Seq<Step>, g: GptOssGeometry, layer: u32) -> Seq<Step> {
    let hidden = g.hidden as int;
    let head_dim = g.head_dim as int;
    let q_heads = g.n_q_heads as int;
    let kv_heads = g.n_kv_heads as int;
    done
        .push(dag::at_layer(Kernel::Rms, layer, shapes::rms_shape(hidden, 1)))
        .push(dag::at_layer(Kernel::GoQmvQ, layer, shapes::qmv_shape(q_heads * head_dim)))
        .push(dag::at_layer(Kernel::GoQmvK, layer, shapes::qmv_shape(kv_heads * head_dim)))
        .push(dag::at_layer(Kernel::GoQmvV, layer, shapes::qmv_shape(kv_heads * head_dim)))
        .push(dag::at_layer(Kernel::Rope, layer, shapes::rope_shape(head_dim, q_heads)))
        .push(dag::at_layer(Kernel::RopeK, layer, shapes::rope_shape(head_dim, kv_heads)))
        .push(dag::at_layer(Kernel::KvAppend, layer, shapes::per_head_shape(head_dim, kv_heads)))
        .push(dag::at_layer(Kernel::GoSdpaSink, layer, shapes::sdpa_shape(q_heads)))
        .push(dag::at_layer(Kernel::GoQmvO, layer, shapes::qmv_shape(hidden)))
        .push(dag::at_layer(Kernel::Residual, layer, shapes::pointwise_shape(hidden)))
}

/// The mixture half of a layer. At decode the sort is a pure grouping, one row
/// per expert slot, and the routed projections launch over those rows.
pub open spec fn with_mixture(done: Seq<Step>, g: GptOssGeometry, layer: u32) -> Seq<Step> {
    let hidden = g.hidden as int;
    let inner = g.intermediate as int;
    let experts = g.n_experts as int;
    let sorted = g.experts_per_token as int;
    done
        .push(dag::at_layer(Kernel::FfnRms, layer, shapes::rms_shape(hidden, 1)))
        .push(dag::at_layer(Kernel::GoRouter, layer, shapes::qmv_shape(experts)))
        .push(dag::at_layer(Kernel::GoRouterTopK, layer, shapes::expert_lane_shape(experts)))
        .push(dag::at_layer(Kernel::LlMoeSort, layer, shapes::expert_lane_shape(experts)))
        .push(dag::at_layer(Kernel::LlMoeGather, layer, shapes::route_rows_shape(hidden, sorted)))
        .push(
            dag::at_layer(Kernel::GoExpertGate, layer, shapes::routed_qmv_shape(inner, 1, sorted)),
        )
        .push(dag::at_layer(Kernel::GoExpertUp, layer, shapes::routed_qmv_shape(inner, 1, sorted)))
        .push(dag::at_layer(Kernel::GoSwiGlu, layer, shapes::pointwise_shape(inner * sorted)))
        .push(
            dag::at_layer(Kernel::GoExpertDown, layer, shapes::routed_qmv_shape(hidden, 1, sorted)),
        )
        .push(dag::at_layer(Kernel::GoExpertCombine, layer, shapes::combine_shape(hidden)))
        .push(dag::at_layer(Kernel::LayerOut, layer, shapes::pointwise_shape(hidden)))
}

/// One layer.
pub open spec fn with_layer(done: Seq<Step>, g: GptOssGeometry, layer: u32) -> Seq<Step> {
    with_mixture(with_attention(done, g, layer), g, layer)
}

/// The first `n` layers, in order.
pub open spec fn with_layers(done: Seq<Step>, g: GptOssGeometry, n: nat) -> Seq<Step>
    decreases n,
{
    if n == 0 {
        done
    } else {
        with_layer(with_layers(done, g, (n - 1) as nat), g, (n - 1) as u32)
    }
}

/// The embedding.
pub open spec fn first_step(g: GptOssGeometry) -> Seq<Step> {
    Seq::<Step>::empty().push(
        dag::outside(Kernel::EmbedUntied, shapes::pointwise_shape(g.hidden as int)),
    )
}

/// The whole step: the embedding, every layer, the final norm and the head,
/// and the optional argmax.
pub open spec fn gptoss_steps(g: GptOssGeometry, with_argmax: bool) -> Seq<Step> {
    let headed = with_layers(first_step(g), g, g.n_layers as nat)
        .push(dag::outside(Kernel::FinalRms, shapes::rms_shape(g.hidden as int, 1)))
        .push(dag::outside(Kernel::LmHeadUntied, shapes::qmv_shape(g.vocab as int)));
    if with_argmax {
        headed.push(dag::outside(Kernel::Argmax, shapes::one_group_shape()))
    } else {
        headed
    }
}

/// Dispatches in one layer.
pub const LAYER_DISPATCHES: u32 = 21;

/// So many layers, so many dispatches.
proof fn lemma_layers_len(done: Seq<Step>, g: GptOssGeometry, n: nat)
    ensures
        with_layers(done, g, n).len() == done.len() + n * LAYER_DISPATCHES,
    decreases n,
{
    if n > 0 {
        lemma_layers_len(done, g, (n - 1) as nat);
    }
}

/// The step is twenty-one dispatches a layer and the ends.
pub proof fn law_the_step_is_its_layers_plus_the_ends(g: GptOssGeometry, with_argmax: bool)
    ensures
        gptoss_steps(g, with_argmax).len() == 1 + g.n_layers * 21 + 2 + (if with_argmax {
            1int
        } else {
            0
        }),
{
    lemma_layers_len(first_step(g), g, g.n_layers as nat);
}

/// What the step computes from the geometry stays in 32 bits: its widths and
/// its positions.
pub open spec fn step_fits(g: GptOssGeometry) -> bool {
    &&& 4 + g.n_layers * LAYER_DISPATCHES <= u32::MAX + 1
    &&& g.n_layers > 0 ==> {
        &&& g.n_q_heads * g.head_dim <= u32::MAX
        &&& g.n_kv_heads * g.head_dim <= u32::MAX
        &&& g.intermediate * g.experts_per_token <= u32::MAX
        &&& 32 * g.experts_per_token <= u32::MAX
    }
}

/// Emit one layer.
fn emit_layer(b: &mut DagBuilder, g: &GptOssGeometry, sorted: u32, layer: u32)
    requires
        old(b).wf(),
        old(b).steps@.len() + LAYER_DISPATCHES <= u32::MAX,
        sorted == g.experts_per_token,
        g.n_q_heads * g.head_dim <= u32::MAX,
        g.n_kv_heads * g.head_dim <= u32::MAX,
        g.intermediate * g.experts_per_token <= u32::MAX,
        32 * g.experts_per_token <= u32::MAX,
    ensures
        final(b).wf(),
        final(b).steps@ == with_layer(old(b).steps@, *g, layer),
{
    let at = Some(layer);
    b.emit(Kernel::Rms, at, rms(g.hidden, 1));
    b.emit(Kernel::GoQmvQ, at, qmv(g.q_dim()));
    b.emit(Kernel::GoQmvK, at, qmv(g.kv_dim()));
    b.emit(Kernel::GoQmvV, at, qmv(g.kv_dim()));
    b.emit(Kernel::Rope, at, rope(g.head_dim, g.n_q_heads));
    b.emit(Kernel::RopeK, at, rope(g.head_dim, g.n_kv_heads));
    b.emit(Kernel::KvAppend, at, kv_append(g.head_dim, g.n_kv_heads));
    b.emit(Kernel::GoSdpaSink, at, sdpa(g.n_q_heads));
    b.emit(Kernel::GoQmvO, at, qmv(g.hidden));
    b.emit(Kernel::Residual, at, residual(g.hidden));
    b.emit(Kernel::FfnRms, at, rms(g.hidden, 1));
    b.emit(Kernel::GoRouter, at, qmv(g.n_experts));
    b.emit(Kernel::GoRouterTopK, at, router_topk(g.n_experts));
    b.emit(Kernel::LlMoeSort, at, route_sort(g.n_experts));
    b.emit(Kernel::LlMoeGather, at, route_rows(g.hidden, sorted));
    b.emit(Kernel::GoExpertGate, at, routed_qmv(g.intermediate, 1, sorted));
    b.emit(Kernel::GoExpertUp, at, routed_qmv(g.intermediate, 1, sorted));
    assert(0 <= g.intermediate * sorted) by (nonlinear_arith)
        requires
            g.intermediate >= 0,
            sorted >= 0,
    ;
    b.emit(Kernel::GoSwiGlu, at, elementwise(g.intermediate * sorted));
    b.emit(Kernel::GoExpertDown, at, routed_qmv(g.hidden, 1, sorted));
    b.emit(Kernel::GoExpertCombine, at, combine(g.hidden));
    b.emit(Kernel::LayerOut, at, residual(g.hidden));
}

/// Emit the ordered per-token dispatch list for `g`.
pub fn build_gptoss_dag(g: &GptOssGeometry, with_argmax: bool) -> (dispatches: Vec<Dispatch>)
    requires
        step_fits(*g),
    ensures
        dag::states(dispatches@, gptoss_steps(*g, with_argmax)),
{
    let sorted: u32 = sorted_rows(g.experts_per_token, g.n_experts, 1) as u32;
    assert(sorted == sizing::sorted_bound(g.experts_per_token as int, g.n_experts as int, 1));
    let mut b = DagBuilder::new();
    b.emit(Kernel::EmbedUntied, None, embed(g.hidden));
    let mut layer: u32 = 0;
    while layer < g.n_layers
        invariant
            layer <= g.n_layers,
            step_fits(*g),
            sorted == g.experts_per_token,
            b.wf(),
            b.steps@ == with_layers(first_step(*g), *g, layer as nat),
        decreases g.n_layers - layer,
    {
        proof {
            lemma_layers_len(first_step(*g), *g, layer as nat);
        }
        emit_layer(&mut b, g, sorted, layer);
        layer += 1;
    }
    proof {
        lemma_layers_len(first_step(*g), *g, layer as nat);
    }
    b.emit(Kernel::FinalRms, None, rms(g.hidden, 1));
    b.emit(Kernel::LmHeadUntied, None, qmv(g.vocab));
    if with_argmax {
        b.emit(Kernel::Argmax, None, one_group());
    }
    b.dag
}

/// What the step costs.
#[derive(Clone, Copy, Debug, PartialEq, Eq, Structural)]
pub struct GptOssDagStats {
    /// Every dispatch.
    pub total: usize,
    /// Layers attending the full context.
    pub full_attn_layers: u32,
    /// Layers attending the sliding window.
    pub sliding_attn_layers: u32,
    /// The matvecs: the step's bandwidth.
    pub gemv: usize,
    /// Of those, the ones whose weights the router picks.
    pub routed: usize,
}

impl Default for GptOssDagStats {
    fn default() -> (s: Self)
        ensures
            s == (GptOssDagStats {
                total: 0,
                full_attn_layers: 0,
                sliding_attn_layers: 0,
                gemv: 0,
                routed: 0,
            }),
    {
        GptOssDagStats {
            total: 0,
            full_attn_layers: 0,
            sliding_attn_layers: 0,
            gemv: 0,
            routed: 0,
        }
    }
}

/// The routed matvecs.
pub open spec fn is_routed(k: Kernel) -> bool {
    match k {
        Kernel::GoExpertGate | Kernel::GoExpertUp | Kernel::GoExpertDown => true,
        _ => false,
    }
}

/// The matvecs.
pub open spec fn is_gemv(k: Kernel) -> bool {
    match k {
        Kernel::GoQmvQ
        | Kernel::GoQmvK
        | Kernel::GoQmvV
        | Kernel::GoQmvO
        | Kernel::GoRouter
        | Kernel::LmHeadUntied => true,
        _ => is_routed(k),
    }
}

/// How many of the first `n` layers attend the full context.
pub open spec fn full_layers(n: nat) -> nat
    decreases n,
{
    if n == 0 {
        0
    } else {
        full_layers((n - 1) as nat) + (if geometry::attends_in_full(n - 1) {
            1nat
        } else {
            0
        })
    }
}

/// These are a list's costs.
pub open spec fn is_price(s: GptOssDagStats, dag: Seq<Dispatch>, g: GptOssGeometry) -> bool {
    &&& s.total == dag.len()
    &&& s.full_attn_layers == full_layers(g.n_layers as nat)
    &&& s.sliding_attn_layers == g.n_layers - full_layers(g.n_layers as nat)
    &&& s.gemv == dag::count_dispatches(dag, |k: Kernel| is_gemv(k))
    &&& s.routed == dag::count_dispatches(dag, |k: Kernel| is_routed(k))
}

/// Count the list's costs.
pub fn gptoss_dag_stats(dag: &[Dispatch], g: &GptOssGeometry) -> (s: GptOssDagStats)
    ensures
        s.total == dag@.len(),
        s.full_attn_layers == full_layers(g.n_layers as nat),
        s.sliding_attn_layers == g.n_layers - full_layers(g.n_layers as nat),
        s.gemv == dag::count_dispatches(dag@, |k: Kernel| is_gemv(k)),
        s.routed == dag::count_dispatches(dag@, |k: Kernel| is_routed(k)),
        is_price(s, dag@, *g),
{
    let mut full: u32 = 0;
    let mut layer: u32 = 0;
    while layer < g.n_layers
        invariant
            layer <= g.n_layers,
            full <= layer,
            full == full_layers(layer as nat),
        decreases g.n_layers - layer,
    {
        if g.is_full_attn(layer) {
            full += 1;
        }
        layer += 1;
    }
    let mut gemv: usize = 0;
    let mut routed: usize = 0;
    let mut i: usize = 0;
    while i < dag.len()
        invariant
            i <= dag@.len(),
            gemv <= i,
            routed <= i,
            gemv == dag::count_dispatches(dag@.take(i as int), |k: Kernel| is_gemv(k)),
            routed == dag::count_dispatches(dag@.take(i as int), |k: Kernel| is_routed(k)),
        decreases dag@.len() - i,
    {
        assert(dag@.take(i + 1).drop_last() =~= dag@.take(i as int));
        assert(dag@.take(i + 1).last() == dag@[i as int]);
        match dag[i].kind {
            Kernel::GoQmvQ
            | Kernel::GoQmvK
            | Kernel::GoQmvV
            | Kernel::GoQmvO
            | Kernel::GoRouter
            | Kernel::LmHeadUntied => {
                gemv += 1;
            },
            Kernel::GoExpertGate | Kernel::GoExpertUp | Kernel::GoExpertDown => {
                gemv += 1;
                routed += 1;
            },
            _ => {},
        }
        i += 1;
    }
    assert(dag@.take(i as int) =~= dag@);
    GptOssDagStats {
        total: dag.len(),
        full_attn_layers: full,
        sliding_attn_layers: g.n_layers - full,
        gemv,
        routed,
    }
}

/// Layers alternate, so half of them, rounded down, attend in full.
pub proof fn law_half_the_layers_attend_in_full(n: nat)
    ensures
        full_layers(n) == n / 2,
    decreases n,
{
    if n > 0 {
        law_half_the_layers_attend_in_full((n - 1) as nat);
    }
}

/// Counting the layers: eight matvecs each, three of them routed.
proof fn lemma_layers_counts(done: Seq<Step>, g: GptOssGeometry, n: nat)
    ensures
        dag::count_kinds(with_layers(done, g, n), |k: Kernel| is_gemv(k)) == dag::count_kinds(
            done,
            |k: Kernel| is_gemv(k),
        ) + n * 8,
        dag::count_kinds(with_layers(done, g, n), |k: Kernel| is_routed(k)) == dag::count_kinds(
            done,
            |k: Kernel| is_routed(k),
        ) + n * 3,
    decreases n,
{
    if n > 0 {
        lemma_layers_counts(done, g, (n - 1) as nat);
        assert forall|steps: Seq<Step>, s: Step, counts: spec_fn(Kernel) -> bool| #[trigger]
            dag::count_kinds(steps.push(s), counts) == dag::count_kinds(steps, counts) + (
            if counts(s.kind) {
                1int
            } else {
                0
            }) by {
            dag::lemma_count_push(steps, s, counts);
        }
    }
}

/// The built step's matvecs: eight a layer, three of them routed, and the head.
pub proof fn law_the_step_costs_its_layers_matvecs_and_the_head(
    dispatches: Seq<Dispatch>,
    g: GptOssGeometry,
    with_argmax: bool,
)
    requires
        dag::states(dispatches, gptoss_steps(g, with_argmax)),
    ensures
        dag::count_dispatches(dispatches, |k: Kernel| is_gemv(k)) == g.n_layers * 8 + 1,
        dag::count_dispatches(dispatches, |k: Kernel| is_routed(k)) == g.n_layers * 3,
{
    let gemv = |k: Kernel| is_gemv(k);
    let routed = |k: Kernel| is_routed(k);
    dag::lemma_counts_agree(dispatches, gptoss_steps(g, with_argmax), gemv);
    dag::lemma_counts_agree(dispatches, gptoss_steps(g, with_argmax), routed);
    lemma_layers_counts(first_step(g), g, g.n_layers as nat);
    assert forall|steps: Seq<Step>, s: Step, counts: spec_fn(Kernel) -> bool| #[trigger]
        dag::count_kinds(steps.push(s), counts) == dag::count_kinds(steps, counts) + (if counts(
            s.kind,
        ) {
            1int
        } else {
            0
        }) by {
        dag::lemma_count_push(steps, s, counts);
    }
    assert(dag::count_kinds(Seq::<Step>::empty(), gemv) == 0);
    assert(dag::count_kinds(Seq::<Step>::empty(), routed) == 0);
}

/// What a built step costs: every dispatch of its layers and its ends, eight
/// matvecs a layer and the head's, three of them routed; and its layers attend
/// in full and slide in turn, so that the odd one out slides.
pub proof fn law_a_built_step_has_its_price(
    s: GptOssDagStats,
    dispatches: Seq<Dispatch>,
    g: GptOssGeometry,
    with_argmax: bool,
)
    requires
        dag::states(dispatches, gptoss_steps(g, with_argmax)),
        is_price(s, dispatches, g),
    ensures
        s.total == gptoss_steps(g, with_argmax).len(),
        s.gemv == 8 * g.n_layers + 1,
        s.routed == 3 * g.n_layers,
        2 * s.full_attn_layers <= g.n_layers <= 2 * s.full_attn_layers + 1,
        s.full_attn_layers + s.sliding_attn_layers == g.n_layers,
        s.full_attn_layers <= s.sliding_attn_layers,
{
    law_the_step_costs_its_layers_matvecs_and_the_head(dispatches, g, with_argmax);
    law_half_the_layers_attend_in_full(g.n_layers as nat);
}

} // verus!
