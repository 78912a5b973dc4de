//! The llama families' per-token dispatch list.
//!
//! Almost every kind here is shared with the hybrid family, but the walk is
//! not: this family's query is plain, its gate nonexistent, and its query and
//! key norms optional. Two builders each state one shape, over one set of
//! launch shapes.

use crate::metal::abi::Kernel;
use crate::metal::dag;
use crate::metal::dag::{DagBuilder, Dispatch, Step};
use crate::metal::geometry::LlamaGeometry;
use crate::metal::shapes;
use crate::metal::shapes::{
    embed, kv_append, one_group, qmv, residual, rms, rope, route_rows, route_sort, routed_qmv,
    router_topk, sdpa, silu_mul,
};
use crate::metal::sizing;
use crate::metal::sizing::sorted_rows;
use crate::metal::tuning;
use crate::metal::tuning::Tuning;
use vstd::prelude::*;

verus! {

/// The decode sort's rows: one token's pairs, at the tile the tuning answers
/// for them.
pub open spec fn decode_sort(g: LlamaGeometry, t: Tuning) -> int {
    sizing::sorted_bound(
        g.experts_per_token as int,
        g.n_experts as int,
        tuning::tile_rows(t, g.experts_per_token, g.n_experts) as int,
    )
}

/// The attention half of a layer: norm, the three projections, the optional
/// query and key norms, the rotations, the append, the attention, the output
/// projection and its residual.
pub open spec fn with_attention(done: Seq<Step>, g: LlamaGeometry, layer: u32) -> Seq<Step> {
    let hidden = g.hidden as int;
    let head_dim = g.head_dim as int;
    let q_heads = g.n_q_heads as int;
    let kv_heads = g.n_kv_heads as int;
    let projected = done
        .push(dag::at_layer(Kernel::Rms, layer, shapes::rms_shape(hidden, 1)))
        .push(dag::at_layer(Kernel::QmvQ, layer, shapes::qmv_shape(q_heads * head_dim)))
        .push(dag::at_layer(Kernel::QmvK, layer, shapes::qmv_shape(kv_heads * head_dim)))
        .push(dag::at_layer(Kernel::QmvV, layer, shapes::qmv_shape(kv_heads * head_dim)));
    let normed = if g.qk_norm {
        projected
            .push(dag::at_layer(Kernel::QNorm, layer, shapes::rms_shape(head_dim, q_heads)))
            .push(dag::at_layer(Kernel::KNorm, layer, shapes::rms_shape(head_dim, kv_heads)))
    } else {
        projected
    };
    normed
        .push(dag::at_layer(Kernel::Rope, layer, shapes::rope_shape(head_dim, q_heads)))
        .push(dag::at_layer(Kernel::RopeK, layer, shapes::rope_shape(head_dim, kv_heads)))
        .push(dag::at_layer(Kernel::KvAppend, layer, shapes::per_head_shape(head_dim, kv_heads)))
        .push(dag::at_layer(Kernel::Sdpa, layer, shapes::sdpa_shape(q_heads)))
        .push(dag::at_layer(Kernel::QmvO, layer, shapes::qmv_shape(hidden)))
        .push(dag::at_layer(Kernel::Residual, layer, shapes::pointwise_shape(hidden)))
}

/// The dense MLP.
pub open spec fn with_dense_mlp(done: Seq<Step>, g: LlamaGeometry, layer: u32) -> Seq<Step> {
    let hidden = g.hidden as int;
    let inner = g.intermediate as int;
    done
        .push(dag::at_layer(Kernel::QmvGate, layer, shapes::qmv_shape(inner)))
        .push(dag::at_layer(Kernel::QmvUp, layer, shapes::qmv_shape(inner)))
        .push(dag::at_layer(Kernel::SiluMul, layer, shapes::pointwise_shape(inner)))
        .push(dag::at_layer(Kernel::QmvDown, layer, shapes::qmv_shape(hidden)))
}

/// The mixture: route, sort, gather, the three routed projections with their
/// activation, and the combine.
pub open spec fn with_mixture(
    done: Seq<Step>,
    g: LlamaGeometry,
    t: Tuning,
    layer: u32,
) -> Seq<Step> {
    let hidden = g.hidden as int;
    let experts = g.n_experts as int;
    let inner = g.moe_intermediate as int;
    let sorted = decode_sort(g, t);
    done
        .push(dag::at_layer(Kernel::LlRouter, layer, shapes::qmv_shape(experts)))
        .push(dag::at_layer(Kernel::GoRouterTopK, layer, shapes::expert_lane_shape(experts)))
        .push(dag::at_layer(Kernel::LlMoeSort, layer, shapes::expert_lane_shape(experts)))
        .push(dag::at_layer(Kernel::LlMoeGather, layer, shapes::route_rows_shape(hidden, sorted)))
        .push(dag::at_layer(Kernel::LlExpertGate, layer, shapes::routed_qmv_shape(inner, 1, sorted)))
        .push(dag::at_layer(Kernel::LlExpertUp, layer, shapes::routed_qmv_shape(inner, 1, sorted)))
        .push(dag::at_layer(Kernel::LlExpertSiluMul, layer, shapes::route_rows_shape(inner, sorted)))
        .push(dag::at_layer(Kernel::LlExpertDown, layer, shapes::routed_qmv_shape(hidden, 1, sorted)))
        .push(dag::at_layer(Kernel::LlMoeCombine, layer, shapes::route_rows_shape(hidden, 1)))
}

/// One layer.
pub open spec fn with_layer(
    done: Seq<Step>,
    g: LlamaGeometry,
    t: Tuning,
    layer: u32,
) -> Seq<Step> {
    let hidden = g.hidden as int;
    let normed = with_attention(done, g, layer).push(
        dag::at_layer(Kernel::FfnRms, layer, shapes::rms_shape(hidden, 1)),
    );
    let mlp = if g.n_experts > 0 {
        with_mixture(normed, g, t, layer)
    } else {
        with_dense_mlp(normed, g, layer)
    };
    mlp.push(dag::at_layer(Kernel::LayerOut, layer, shapes::pointwise_shape(hidden)))
}

/// The first `n` layers, in order.
pub open spec fn with_layers(
    done: Seq<Step>,
    g: LlamaGeometry,
    t: Tuning,
    n: nat,
) -> Seq<Step>
    decreases n,
{
    if n == 0 {
        done
    } else {
        with_layer(with_layers(done, g, t, (n - 1) as nat), g, t, (n - 1) as u32)
    }
}

/// The embedding.
pub open spec fn first_step(g: LlamaGeometry) -> Seq<Step> {
    Seq::<Step>::empty().push(
        dag::outside(
            if g.tied_embeddings {
                Kernel::EmbedGather
            } else {
                Kernel::EmbedUntied
            },
            shapes::pointwise_shape(g.hidden as int),
        ),
    )
}

/// The final norm and the head.
pub open spec fn with_head(done: Seq<Step>, g: LlamaGeometry) -> Seq<Step> {
    done
        .push(dag::outside(Kernel::FinalRms, shapes::rms_shape(g.hidden as int, 1)))
        .push(
            dag::outside(
                if g.tied_embeddings {
                    Kernel::QmvLmHead
                } else {
                    Kernel::LmHeadUntied
                },
                shapes::qmv_shape(g.vocab as int),
            ),
        )
}

/// The whole step: the embedding, every layer, the final norm and the head,
/// and the optional argmax.
pub open spec fn llama_steps(g: LlamaGeometry, t: Tuning, with_argmax: bool) -> Seq<Step> {
    let headed = with_head(with_layers(first_step(g), g, t, g.n_layers as nat), g);
    if with_argmax {
        headed.push(dag::outside(Kernel::Argmax, shapes::one_group_shape()))
    } else {
        headed
    }
}

/// Dispatches in one layer: sixteen, two more for the query and key norms, and
/// nine in place of four for a mixture.
pub open spec fn layer_len(g: LlamaGeometry) -> int {
    16 + (if g.qk_norm {
        2int
    } else {
        0
    }) + (if g.n_experts > 0 {
        5int
    } else {
        0
    })
}

/// A layer adds its own dispatches and no other.
proof fn lemma_layer_len(done: Seq<Step>, g: LlamaGeometry, t: Tuning, layer: u32)
    ensures
        with_layer(done, g, t, layer).len() == done.len() + layer_len(g),
{
}

/// So many layers, so many dispatches.
proof fn lemma_layers_len(done: Seq<Step>, g: LlamaGeometry, t: Tuning, n: nat)
    ensures
        with_layers(done, g, t, n).len() == done.len() + n * layer_len(g),
    decreases n,
{
    if n > 0 {
        let m = (n - 1) as nat;
        lemma_layers_len(done, g, t, m);
        lemma_layer_len(with_layers(done, g, t, m), g, t, m as u32);
        assert(n * layer_len(g) == m * layer_len(g) + layer_len(g)) by (nonlinear_arith)
            requires
                n == m + 1,
        ;
    } else {
        assert(0 * layer_len(g) == 0);
    }
}

/// The step is its layers' dispatches and the ends.
pub proof fn law_the_step_is_its_layers_plus_the_ends(
    g: LlamaGeometry,
    t: Tuning,
    with_argmax: bool,
)
    ensures
        llama_steps(g, t, with_argmax).len() == 1 + g.n_layers * layer_len(g) + 2 + (
        if with_argmax {
            1int
        } else {
            0
        }),
{
    lemma_layers_len(first_step(g), g, t, g.n_layers as nat);
}

/// What the step computes from the geometry stays in 32 bits: its widths, its
/// sorted rows, and its positions.
pub open spec fn step_fits(g: LlamaGeometry, t: Tuning) -> bool {
    &&& decode_sort(g, t) <= u32::MAX
    &&& 4 + g.n_layers * layer_len(g) <= u32::MAX + 1
    &&& g.n_layers > 0 ==> {
        &&& g.n_q_heads * g.head_dim <= u32::MAX
        &&& g.n_kv_heads * g.head_dim <= u32::MAX
        &&& g.n_experts > 0 ==> 32 * decode_sort(g, t) <= u32::MAX
    }
}

/// Emit the attention half of a layer.
fn emit_attention(b: &mut DagBuilder, g: &LlamaGeometry, layer: u32)
    requires
        old(b).wf(),
        old(b).steps@.len() + layer_len(*g) <= u32::MAX,
        g.n_q_heads * g.head_dim <= u32::MAX,
        g.n_kv_heads * g.head_dim <= u32::MAX,
    ensures
        final(b).wf(),
        final(b).steps@ == with_attention(old(b).steps@, *g, layer),
{
    let at = Some(layer);
    b.emit(Kernel::Rms, at, rms(g.hidden, 1));
    b.emit(Kernel::QmvQ, at, qmv(g.q_width()));
    b.emit(Kernel::QmvK, at, qmv(g.kv_width()));
    b.emit(Kernel::QmvV, at, qmv(g.kv_width()));
    if g.qk_norm {
        b.emit(Kernel::QNorm, at, rms(g.head_dim, g.n_q_heads));
        b.emit(Kernel::KNorm, at, rms(g.head_dim, g.n_kv_heads));
    }
    b.emit(Kernel::Rope, at, rope(g.rotary_dims(), g.n_q_heads));
    b.emit(Kernel::RopeK, at, rope(g.rotary_dims(), g.n_kv_heads));
    b.emit(Kernel::KvAppend, at, kv_append(g.head_dim, g.n_kv_heads));
    b.emit(Kernel::Sdpa, at, sdpa(g.n_q_heads));
    b.emit(Kernel::QmvO, at, qmv(g.hidden));
    b.emit(Kernel::Residual, at, residual(g.hidden));
}

/// Emit one layer.
fn emit_layer(b: &mut DagBuilder, g: &LlamaGeometry, Ghost(t): Ghost<Tuning>, sorted: u32, layer: u32)
    requires
        old(b).wf(),
        old(b).steps@.len() + layer_len(*g) <= u32::MAX,
        sorted == decode_sort(*g, t),
        g.n_q_heads * g.head_dim <= u32::MAX,
        g.n_kv_heads * g.head_dim <= u32::MAX,
        g.n_experts > 0 ==> 32 * sorted <= u32::MAX,
    ensures
        final(b).wf(),
        final(b).steps@ == with_layer(old(b).steps@, *g, t, layer),
{
    let at = Some(layer);
    emit_attention(b, g, layer);
    b.emit(Kernel::FfnRms, at, rms(g.hidden, 1));
    if g.is_moe() {
        b.emit(Kernel::LlRouter, at, qmv(g.n_experts));
        b.emit(Kernel::GoRouterTopK, at, router_topk(g.n_experts));
        b.emit(Kernel::LlMoeSort, at, route_sort(g.n_experts));
        b.emit(Kernel::LlMoeGather, at, route_rows(g.hidden, sorted));
        b.emit(Kernel::LlExpertGate, at, routed_qmv(g.moe_intermediate, 1, sorted));
        b.emit(Kernel::LlExpertUp, at, routed_qmv(g.moe_intermediate, 1, sorted));
        b.emit(Kernel::LlExpertSiluMul, at, route_rows(g.moe_intermediate, sorted));
        b.emit(Kernel::LlExpertDown, at, routed_qmv(g.hidden, 1, sorted));
        b.emit(Kernel::LlMoeCombine, at, route_rows(g.hidden, 1));
    } else {
        b.emit(Kernel::QmvGate, at, qmv(g.intermediate));
        b.emit(Kernel::QmvUp, at, qmv(g.intermediate));
        b.emit(Kernel::SiluMul, at, silu_mul(g.intermediate));
        b.emit(Kernel::QmvDown, at, qmv(g.hidden));
    }
    b.emit(Kernel::LayerOut, at, residual(g.hidden));
}

/// Emit the ordered per-token dispatch list for `g`.
///
/// Within a stage the order clusters independent dispatches (the three
/// projections together, then the norms, then the rotations).
pub fn build_llama_dag(g: &LlamaGeometry, tuning: &Tuning, with_argmax: bool) -> (dispatches: Vec<
    Dispatch,
>)
    requires
        step_fits(*g, *tuning),
    ensures
        dag::states(dispatches@, llama_steps(*g, *tuning, with_argmax)),
{
    let tile: u32 = tuning.moe_tile_rows(g.experts_per_token, g.n_experts);
    let sorted: u32 = sorted_rows(g.experts_per_token, g.n_experts, tile) as u32;
    let mut b = DagBuilder::new();
    if g.tied_embeddings {
        b.emit(Kernel::EmbedGather, None, embed(g.hidden));
    } else {
        b.emit(Kernel::EmbedUntied, None, embed(g.hidden));
    }
    let mut layer: u32 = 0;
    while layer < g.n_layers
        invariant
            layer <= g.n_layers,
            step_fits(*g, *tuning),
            sorted == decode_sort(*g, *tuning),
            b.wf(),
            b.steps@ == with_layers(first_step(*g), *g, *tuning, layer as nat),
        decreases g.n_layers - layer,
    {
        proof {
            lemma_layers_len(first_step(*g), *g, *tuning, layer as nat);
            let l = layer_len(*g);
            assert(layer * l + l <= g.n_layers * l) by (nonlinear_arith)
                requires
                    layer + 1 <= g.n_layers,
                    l >= 0,
            ;
        }
        emit_layer(&mut b, g, Ghost(*tuning), sorted, layer);
        layer += 1;
    }
    proof {
        lemma_layers_len(first_step(*g), *g, *tuning, layer as nat);
    }
    b.emit(Kernel::FinalRms, None, rms(g.hidden, 1));
    if g.tied_embeddings {
        b.emit(Kernel::QmvLmHead, None, qmv(g.vocab));
    } else {
        b.emit(Kernel::LmHeadUntied, None, qmv(g.vocab));
    }
    if with_argmax {
        b.emit(Kernel::Argmax, None, one_group());
    }
    b.dag
}

/// What the step costs.
#[derive(Clone, Copy, Debug, PartialEq, Eq, Structural)]
pub struct LlamaDagStats {
    /// Every dispatch.
    pub total: usize,
    /// Decoder layers.
    pub layers: u32,
    /// The matvecs: the step's bandwidth.
    pub gemv: usize,
    /// Of those, the ones whose weights the router picks.
    pub routed: usize,
}

impl Default for LlamaDagStats {
    fn default() -> (s: Self)
        ensures
            s == (LlamaDagStats { total: 0, layers: 0, gemv: 0, routed: 0 }),
    {
        LlamaDagStats { total: 0, layers: 0, gemv: 0, routed: 0 }
    }
}

/// The routed matvecs.
pub open spec fn is_routed(k: Kernel) -> bool {
    match k {
        Kernel::LlExpertGate | Kernel::LlExpertUp | Kernel::LlExpertDown => true,
        _ => false,
    }
}

/// The matvecs.
pub open spec fn is_gemv(k: Kernel) -> bool {
    match k {
        Kernel::QmvQ
        | Kernel::QmvK
        | Kernel::QmvV
        | Kernel::QmvO
        | Kernel::QmvGate
        | Kernel::QmvUp
        | Kernel::QmvDown
        | Kernel::LlRouter
        | Kernel::QmvLmHead
        | Kernel::LmHeadUntied => true,
        _ => is_routed(k),
    }
}

/// These are a list's costs.
pub open spec fn is_price(s: LlamaDagStats, dag: Seq<Dispatch>, g: LlamaGeometry) -> bool {
    &&& s.total == dag.len()
    &&& s.layers == g.n_layers
    &&& s.gemv == dag::count_dispatches(dag, |k: Kernel| is_gemv(k))
    &&& s.routed == dag::count_dispatches(dag, |k: Kernel| is_routed(k))
}

/// Count the list's costs.
pub fn llama_dag_stats(dag: &[Dispatch], g: &LlamaGeometry) -> (s: LlamaDagStats)
    ensures
        s.total == dag@.len(),
        s.layers == g.n_layers,
        s.gemv == dag::count_dispatches(dag@, |k: Kernel| is_gemv(k)),
        s.routed == dag::count_dispatches(dag@, |k: Kernel| is_routed(k)),
        is_price(s, dag@, *g),
{
    let mut gemv: usize = 0;
    let mut routed: usize = 0;
    let mut i: usize = 0;
    while i < dag.len()
        invariant
            i <= dag@.len(),
            gemv <= i,
            routed <= i,
            gemv == dag::count_dispatches(dag@.take(i as int), |k: Kernel| is_gemv(k)),
            routed == dag::count_dispatches(dag@.take(i as int), |k: Kernel| is_routed(k)),
        decreases dag@.len() - i,
    {
        assert(dag@.take(i + 1).drop_last() =~= dag@.take(i as int));
        assert(dag@.take(i + 1).last() == dag@[i as int]);
        match dag[i].kind {
            Kernel::QmvQ
            | Kernel::QmvK
            | Kernel::QmvV
            | Kernel::QmvO
            | Kernel::QmvGate
            | Kernel::QmvUp
            | Kernel::QmvDown
            | Kernel::LlRouter
            | Kernel::QmvLmHead
            | Kernel::LmHeadUntied => {
                gemv += 1;
            },
            Kernel::LlExpertGate | Kernel::LlExpertUp | Kernel::LlExpertDown => {
                gemv += 1;
                routed += 1;
            },
            _ => {},
        }
        i += 1;
    }
    assert(dag@.take(i as int) =~= dag@);
    LlamaDagStats { total: dag.len(), layers: g.n_layers, gemv, routed }
}

/// Matvecs in one layer: seven dense, or eight with three of them routed.
pub open spec fn layer_gemv(g: LlamaGeometry) -> int {
    if g.n_experts > 0 {
        8
    } else {
        7
    }
}

/// Routed matvecs in one layer.
pub open spec fn layer_routed(g: LlamaGeometry) -> int {
    if g.n_experts > 0 {
        3
    } else {
        0
    }
}

/// Counting a layer.
proof fn lemma_layer_counts(done: Seq<Step>, g: LlamaGeometry, t: Tuning, layer: u32)
    ensures
        dag::count_kinds(with_layer(done, g, t, layer), |k: Kernel| is_gemv(k))
            == dag::count_kinds(done, |k: Kernel| is_gemv(k)) + layer_gemv(g),
        dag::count_kinds(with_layer(done, g, t, layer), |k: Kernel| is_routed(k))
            == dag::count_kinds(done, |k: Kernel| is_routed(k)) + layer_routed(g),
{
    assert forall|steps: Seq<Step>, s: Step, counts: spec_fn(Kernel) -> bool| #[trigger]
        dag::count_kinds(steps.push(s), counts) == dag::count_kinds(steps, counts) + (if counts(
            s.kind,
        ) {
            1int
        } else {
            0
        }) by {
        dag::lemma_count_push(steps, s, counts);
    }
}

/// Counting the layers.
proof fn lemma_layers_counts(done: Seq<Step>, g: LlamaGeometry, t: Tuning, n: nat)
    ensures
        dag::count_kinds(with_layers(done, g, t, n), |k: Kernel| is_gemv(k)) == dag::count_kinds(
            done,
            |k: Kernel| is_gemv(k),
        ) + n * layer_gemv(g),
        dag::count_kinds(with_layers(done, g, t, n), |k: Kernel| is_routed(k))
            == dag::count_kinds(done, |k: Kernel| is_routed(k)) + n * layer_routed(g),
    decreases n,
{
    if n > 0 {
        let m = (n - 1) as nat;
        lemma_layers_counts(done, g, t, m);
        lemma_layer_counts(with_layers(done, g, t, m), g, t, m as u32);
        assert(n * layer_gemv(g) == m * layer_gemv(g) + layer_gemv(g)) by (nonlinear_arith)
            requires
                n == m + 1,
        ;
        assert(n * layer_routed(g) == m * layer_routed(g) + layer_routed(g)) by (nonlinear_arith)
            requires
                n == m + 1,
        ;
    }
}

/// The built step's matvecs: seven a layer, or eight with three routed for a
/// mixture, and the head.
pub proof fn law_the_step_costs_its_layers_matvecs_and_the_head(
    dispatches: Seq<Dispatch>,
    g: LlamaGeometry,
    t: Tuning,
    with_argmax: bool,
)
    requires
        dag::states(dispatches, llama_steps(g, t, with_argmax)),
    ensures
        dag::count_dispatches(dispatches, |k: Kernel| is_gemv(k)) == g.n_layers * layer_gemv(g) + 1,
        dag::count_dispatches(dispatches, |k: Kernel| is_routed(k)) == g.n_layers * layer_routed(g),
{
    let gemv = |k: Kernel| is_gemv(k);
    let routed = |k: Kernel| is_routed(k);
    dag::lemma_counts_agree(dispatches, llama_steps(g, t, with_argmax), gemv);
    dag::lemma_counts_agree(dispatches, llama_steps(g, t, with_argmax), routed);
    lemma_layers_counts(first_step(g), g, t, g.n_layers as nat);
    assert forall|steps: Seq<Step>, s: Step, counts: spec_fn(Kernel) -> bool| #[trigger]
        dag::count_kinds(steps.push(s), counts) == dag::count_kinds(steps, counts) + (if counts(
            s.kind,
        ) {
            1int
        } else {
            0
        }) by {
        dag::lemma_count_push(steps, s, counts);
    }
    assert(dag::count_kinds(Seq::<Step>::empty(), gemv) == 0);
    assert(dag::count_kinds(Seq::<Step>::empty(), routed) == 0);
}

/// What a built step costs: every dispatch of its layers and its ends; and a
/// layer's matvecs are four of attention's and a dense MLP's three, or the
/// router and the three routed ones, with the head's beside them all.
pub proof fn law_a_built_step_has_its_price(
    s: LlamaDagStats,
    dispatches: Seq<Dispatch>,
    g: LlamaGeometry,
    t: Tuning,
    with_argmax: bool,
)
    requires
        dag::states(dispatches, llama_steps(g, t, with_argmax)),
        is_price(s, dispatches, g),
    ensures
        s.total == llama_steps(g, t, with_argmax).len(),
        s.layers == g.n_layers,
        g.n_experts == 0 ==> s.gemv == (4 + 3) * g.n_layers + 1 && s.routed == 0,
        g.n_experts > 0 ==> s.gemv == (4 + 1 + 3) * g.n_layers + 1 && s.routed == 3 * g.n_layers,
{
    law_the_step_costs_its_layers_matvecs_and_the_head(dispatches, g, t, with_argmax);
    let n = g.n_layers as int;
    let gemv = layer_gemv(g);
    let routed = layer_routed(g);
    assert(gemv == 7 ==> n * gemv == 7 * n) by (nonlinear_arith);
    assert(gemv == 8 ==> n * gemv == 8 * n) by (nonlinear_arith);
    assert(routed == 0 ==> n * routed == 0) by (nonlinear_arith);
    assert(routed == 3 ==> n * routed == 3 * n) by (nonlinear_arith);
}

} // verus!
