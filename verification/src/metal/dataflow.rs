//! What a step's dispatch list is for: each layer's work once, in the order its
//! values flow, over grids that cover it.
//!
//! A dispatch reads what others of its layer wrote, and the residual stream
//! carries one layer to the next. The tables here say where in that flow a kind
//! stands, which kinds a checkpoint's layers have, and what each has to cover;
//! the laws hold the built lists to them.

use crate::metal::abi::Kernel;
use crate::metal::dag;
use crate::metal::dag::{Dispatch, Step};
use crate::metal::dispatch_gptoss;
use crate::metal::dispatch_llama;
use crate::metal::geometry::{GptOssGeometry, LlamaGeometry};
use crate::metal::shapes;
use crate::metal::shapes::Shape;
use crate::metal::sizing;
use crate::metal::tuning;
use crate::metal::tuning::Tuning;
use vstd::prelude::*;

verus! {

/// Past every stage of a layer.
pub const STAGES: u32 = 100;

/// Where a kind stands in a layer's flow. The norm feeds the projections; the
/// projections, normed where the checkpoint norms them, are rotated; the key
/// and the value are in the cache before attention reads it; attention's output
/// is projected and lands on the stream. The second norm reads the stream and
/// feeds the MLP: gate and up before their product, the product before the down
/// projection; or the router before the pick, the pick before the sort, the
/// sort before the gather, the gather before the experts, and the experts
/// before the combine. The layer's output lands last.
pub open spec fn stage(kind: Kernel) -> int {
    match kind {
        Kernel::Rms => 0,
        Kernel::QmvQ | Kernel::GoQmvQ => 1,
        Kernel::QmvK | Kernel::GoQmvK => 2,
        Kernel::QmvV | Kernel::GoQmvV => 3,
        Kernel::QNorm => 4,
        Kernel::KNorm => 5,
        Kernel::Rope => 6,
        Kernel::RopeK => 7,
        Kernel::KvAppend => 8,
        Kernel::Sdpa | Kernel::GoSdpaSink => 9,
        Kernel::QmvO | Kernel::GoQmvO => 10,
        Kernel::Residual => 11,
        Kernel::FfnRms => 12,
        Kernel::QmvGate => 13,
        Kernel::QmvUp => 14,
        Kernel::SiluMul => 15,
        Kernel::QmvDown => 16,
        Kernel::LlRouter | Kernel::GoRouter => 20,
        Kernel::GoRouterTopK => 21,
        Kernel::LlMoeSort => 22,
        Kernel::LlMoeGather => 23,
        Kernel::LlExpertGate | Kernel::GoExpertGate => 24,
        Kernel::LlExpertUp | Kernel::GoExpertUp => 25,
        Kernel::LlExpertSiluMul | Kernel::GoSwiGlu => 26,
        Kernel::LlExpertDown | Kernel::GoExpertDown => 27,
        Kernel::LlMoeCombine | Kernel::GoExpertCombine => 28,
        Kernel::LayerOut => 30,
        _ => 99,
    }
}

/// Where a step stands in the whole list: the embedding, the layers in their
/// order and each in its flow, the final norm, the head, and the argmax.
pub open spec fn place(s: Step, n_layers: u32) -> int {
    let end = (n_layers + 1) * STAGES;
    match s.layer {
        Some(l) => (l + 1) * STAGES + stage(s.kind),
        None => match s.kind {
            Kernel::EmbedGather | Kernel::EmbedUntied => 0,
            Kernel::FinalRms => end,
            Kernel::QmvLmHead | Kernel::LmHeadUntied => end + 1,
            Kernel::Argmax => end + 2,
            _ => end + 3,
        },
    }
}

/// The kinds a llama layer has: the attention's, the query and key norms where
/// the checkpoint has them, and a dense MLP's or a mixture's.
pub open spec fn in_llama_layer(g: LlamaGeometry, kind: Kernel) -> bool {
    match kind {
        Kernel::Rms
        | Kernel::QmvQ
        | Kernel::QmvK
        | Kernel::QmvV
        | Kernel::Rope
        | Kernel::RopeK
        | Kernel::KvAppend
        | Kernel::Sdpa
        | Kernel::QmvO
        | Kernel::Residual
        | Kernel::FfnRms
        | Kernel::LayerOut => true,
        Kernel::QNorm | Kernel::KNorm => g.qk_norm,
        Kernel::QmvGate | Kernel::QmvUp | Kernel::SiluMul | Kernel::QmvDown => g.n_experts == 0,
        Kernel::LlRouter
        | Kernel::GoRouterTopK
        | Kernel::LlMoeSort
        | Kernel::LlMoeGather
        | Kernel::LlExpertGate
        | Kernel::LlExpertUp
        | Kernel::LlExpertSiluMul
        | Kernel::LlExpertDown
        | Kernel::LlMoeCombine => g.n_experts > 0,
        _ => false,
    }
}

/// The kinds outside a llama step's layers: the embedding and the head off one
/// table or off two, the final norm, and the argmax where it is asked for.
pub open spec fn at_llama_end(g: LlamaGeometry, with_argmax: bool, kind: Kernel) -> bool {
    match kind {
        Kernel::EmbedGather | Kernel::QmvLmHead => g.tied_embeddings,
        Kernel::EmbedUntied | Kernel::LmHeadUntied => !g.tied_embeddings,
        Kernel::FinalRms => true,
        Kernel::Argmax => with_argmax,
        _ => false,
    }
}

/// The rows of one token's sorted stack.
pub open spec fn llama_stack(g: LlamaGeometry, t: Tuning) -> int {
    sizing::sorted_bound(
        g.experts_per_token as int,
        g.n_experts as int,
        tuning::tile_rows(t, g.experts_per_token, g.n_experts) as int,
    )
}

/// What a llama kind's grid has to cover: a projection its outputs, a norm its
/// rows, a head's pass its heads, a pass over the stream its width, and the
/// mixture's passes the sorted stack.
pub open spec fn llama_covers(g: LlamaGeometry, t: Tuning, kind: Kernel, s: Shape) -> bool {
    let hidden = g.hidden as int;
    let inner = g.intermediate as int;
    let head = g.head_dim as int;
    let q = g.n_q_heads as int;
    let kv = g.n_kv_heads as int;
    let experts = g.n_experts as int;
    let routed = g.moe_intermediate as int;
    let stack = llama_stack(g, t);
    match kind {
        Kernel::EmbedGather
        | Kernel::EmbedUntied
        | Kernel::Residual
        | Kernel::LayerOut => shapes::is_pointwise(s, hidden),
        Kernel::Rms | Kernel::FfnRms | Kernel::FinalRms => shapes::is_row_norm(s, hidden, 1),
        Kernel::QmvQ => shapes::is_matvec(s, q * head),
        Kernel::QmvK | Kernel::QmvV => shapes::is_matvec(s, kv * head),
        Kernel::QNorm => shapes::is_row_norm(s, head, q),
        Kernel::KNorm => shapes::is_row_norm(s, head, kv),
        Kernel::Rope => shapes::is_rotation(s, head, q),
        Kernel::RopeK => shapes::is_rotation(s, head, kv),
        Kernel::KvAppend => shapes::is_per_head(s, head, kv),
        Kernel::Sdpa => shapes::is_attention(s, q),
        Kernel::QmvO | Kernel::QmvDown => shapes::is_matvec(s, hidden),
        Kernel::QmvGate | Kernel::QmvUp => shapes::is_matvec(s, inner),
        Kernel::SiluMul => shapes::is_pointwise(s, inner),
        Kernel::LlRouter => shapes::is_matvec(s, experts),
        Kernel::GoRouterTopK | Kernel::LlMoeSort => shapes::is_expert_lane(s, experts),
        Kernel::LlMoeGather => shapes::is_row_pass(s, hidden, stack),
        Kernel::LlExpertGate
        | Kernel::LlExpertUp => shapes::is_routed_matvec(s, routed, 1, stack),
        Kernel::LlExpertSiluMul => shapes::is_row_pass(s, routed, stack),
        Kernel::LlExpertDown => shapes::is_routed_matvec(s, hidden, 1, stack),
        Kernel::LlMoeCombine => shapes::is_row_pass(s, hidden, 1),
        Kernel::QmvLmHead | Kernel::LmHeadUntied => shapes::is_matvec(s, g.vocab as int),
        Kernel::Argmax => shapes::is_one_group(s),
        _ => false,
    }
}

/// A step belongs in a llama list: to one of its layers or to its ends, over a
/// grid that covers it.
pub open spec fn in_llama_list(
    g: LlamaGeometry,
    t: Tuning,
    with_argmax: bool,
    s: Step,
) -> bool {
    &&& llama_covers(g, t, s.kind, s.shape)
    &&& match s.layer {
        Some(l) => l < g.n_layers && in_llama_layer(g, s.kind),
        None => at_llama_end(g, with_argmax, s.kind),
    }
}

/// Every shape a llama layer launches covers its work.
proof fn lemma_llama_shapes(g: LlamaGeometry, t: Tuning)
    ensures
        shapes::is_row_norm(shapes::rms_shape(g.hidden as int, 1), g.hidden as int, 1),
        shapes::is_row_norm(
            shapes::rms_shape(g.head_dim as int, g.n_q_heads as int),
            g.head_dim as int,
            g.n_q_heads as int,
        ),
        shapes::is_row_norm(
            shapes::rms_shape(g.head_dim as int, g.n_kv_heads as int),
            g.head_dim as int,
            g.n_kv_heads as int,
        ),
        shapes::is_matvec(
            shapes::qmv_shape(g.n_q_heads * g.head_dim),
            g.n_q_heads * g.head_dim,
        ),
        shapes::is_matvec(
            shapes::qmv_shape(g.n_kv_heads * g.head_dim),
            g.n_kv_heads * g.head_dim,
        ),
        shapes::is_matvec(shapes::qmv_shape(g.hidden as int), g.hidden as int),
        shapes::is_matvec(shapes::qmv_shape(g.intermediate as int), g.intermediate as int),
        shapes::is_matvec(shapes::qmv_shape(g.n_experts as int), g.n_experts as int),
        shapes::is_matvec(shapes::qmv_shape(g.vocab as int), g.vocab as int),
        shapes::is_expert_lane(shapes::expert_lane_shape(g.n_experts as int), g.n_experts as int),
        forall|rows: int| #[trigger]
            shapes::is_row_pass(
                shapes::route_rows_shape(g.hidden as int, rows),
                g.hidden as int,
                rows,
            ),
        forall|rows: int| #[trigger]
            shapes::is_row_pass(
                shapes::route_rows_shape(g.moe_intermediate as int, rows),
                g.moe_intermediate as int,
                rows,
            ),
        forall|slots: int, rows: int| #[trigger]
            shapes::is_routed_matvec(
                shapes::routed_qmv_shape(g.hidden as int, slots, rows),
                g.hidden as int,
                slots,
                rows,
            ),
        forall|slots: int, rows: int| #[trigger]
            shapes::is_routed_matvec(
                shapes::routed_qmv_shape(g.moe_intermediate as int, slots, rows),
                g.moe_intermediate as int,
                slots,
                rows,
            ),
{
    shapes::lemma_row_norm(g.hidden as int, 1);
    shapes::lemma_row_norm(g.head_dim as int, g.n_q_heads as int);
    shapes::lemma_row_norm(g.head_dim as int, g.n_kv_heads as int);
    assert(g.n_q_heads * g.head_dim >= 0) by (nonlinear_arith);
    assert(g.n_kv_heads * g.head_dim >= 0) by (nonlinear_arith);
    shapes::lemma_matvec(g.n_q_heads * g.head_dim);
    shapes::lemma_matvec(g.n_kv_heads * g.head_dim);
    shapes::lemma_matvec(g.hidden as int);
    shapes::lemma_matvec(g.intermediate as int);
    shapes::lemma_matvec(g.n_experts as int);
    shapes::lemma_matvec(g.moe_intermediate as int);
    shapes::lemma_matvec(g.vocab as int);
    shapes::lemma_expert_lane(g.n_experts as int);
    assert forall|rows: int| #[trigger]
        shapes::is_row_pass(
            shapes::route_rows_shape(g.hidden as int, rows),
            g.hidden as int,
            rows,
        ) by {
        shapes::lemma_row_pass(g.hidden as int, rows);
    }
    assert forall|rows: int| #[trigger]
        shapes::is_row_pass(
            shapes::route_rows_shape(g.moe_intermediate as int, rows),
            g.moe_intermediate as int,
            rows,
        ) by {
        shapes::lemma_row_pass(g.moe_intermediate as int, rows);
    }
}

/// A layer keeps the list rising and every step in it, and has its kinds.
#[verifier::spinoff_prover]
#[verifier::rlimit(60)]
proof fn lemma_llama_layer(
    done: Seq<Step>,
    g: LlamaGeometry,
    t: Tuning,
    with_argmax: bool,
    layer: u32,
)
    requires
        layer < g.n_layers,
        done.len() > 0,
        dag::rises(done, |s: Step| place(s, g.n_layers)),
        place(done.last(), g.n_layers) < (layer + 1) * STAGES,
        dag::all_meet(done, |s: Step| in_llama_list(g, t, with_argmax, s)),
    ensures
        ({
            let after = dispatch_llama::with_layer(done, g, t, layer);
            &&& after.len() > 0
            &&& dag::rises(after, |s: Step| place(s, g.n_layers))
            &&& place(after.last(), g.n_layers) < (layer + 2) * STAGES
            &&& dag::all_meet(after, |s: Step| in_llama_list(g, t, with_argmax, s))
        }),
{
    let at = |s: Step| place(s, g.n_layers);
    let belongs = |s: Step| in_llama_list(g, t, with_argmax, s);
    lemma_llama_shapes(g, t);
    assert forall|steps: Seq<Step>, s: Step|
        dag::rises(steps, at) && (steps.len() > 0 ==> at(steps.last()) < at(
            s,
        )) implies #[trigger] dag::rises(steps.push(s), at) by {
        dag::lemma_rises_push(steps, s, at);
    }
    assert forall|steps: Seq<Step>, s: Step|
        dag::all_meet(steps, belongs) && belongs(s) implies #[trigger] dag::all_meet(
        steps.push(s),
        belongs,
    ) by {
        dag::lemma_meets_push(steps, s, belongs);
    }
    let attended = dispatch_llama::with_attention(done, g, layer);
    assert(dag::rises(attended, at));
    assert(dag::all_meet(attended, belongs));
    assert(attended.last().kind == Kernel::Residual && attended.last().layer == Some(layer));
    let after = dispatch_llama::with_layer(done, g, t, layer);
    assert(dag::rises(after, at));
    assert(dag::all_meet(after, belongs));
    assert(after.last().kind == Kernel::LayerOut && after.last().layer == Some(layer));
}

/// A layer begins with what was done and has each of its kinds.
#[verifier::spinoff_prover]
proof fn lemma_llama_layer_has(
    done: Seq<Step>,
    g: LlamaGeometry,
    t: Tuning,
    layer: u32,
    kind: Kernel,
)
    requires
        in_llama_layer(g, kind),
    ensures
        dag::has(dispatch_llama::with_layer(done, g, t, layer), layer, kind),
{
    let after = dispatch_llama::with_layer(done, g, t, layer);
    let n = done.len() as int;
    let norms = if g.qk_norm {
        2int
    } else {
        0
    };
    let i = match kind {
        Kernel::Rms => n,
        Kernel::QmvQ => n + 1,
        Kernel::QmvK => n + 2,
        Kernel::QmvV => n + 3,
        Kernel::QNorm => n + 4,
        Kernel::KNorm => n + 5,
        Kernel::Rope => n + norms + 4,
        Kernel::RopeK => n + norms + 5,
        Kernel::KvAppend => n + norms + 6,
        Kernel::Sdpa => n + norms + 7,
        Kernel::QmvO => n + norms + 8,
        Kernel::Residual => n + norms + 9,
        Kernel::FfnRms => n + norms + 10,
        Kernel::QmvGate | Kernel::LlRouter => n + norms + 11,
        Kernel::QmvUp | Kernel::GoRouterTopK => n + norms + 12,
        Kernel::SiluMul | Kernel::LlMoeSort => n + norms + 13,
        Kernel::QmvDown | Kernel::LlMoeGather => n + norms + 14,
        Kernel::LlExpertGate => n + norms + 15,
        Kernel::LlExpertUp => n + norms + 16,
        Kernel::LlExpertSiluMul => n + norms + 17,
        Kernel::LlExpertDown => n + norms + 18,
        Kernel::LlMoeCombine => n + norms + 19,
        _ => after.len() - 1,
    };
    assert(after[i].kind == kind && after[i].layer == Some(layer));
    dag::lemma_has_at(after, i);
}

/// A layer begins with what was done.
#[verifier::spinoff_prover]
proof fn lemma_llama_layer_extends(done: Seq<Step>, g: LlamaGeometry, t: Tuning, layer: u32)
    ensures
        ({
            let after = dispatch_llama::with_layer(done, g, t, layer);
            done.len() <= after.len() && done =~= after.take(done.len() as int)
        }),
{
}

/// So many layers keep the list rising and every step in it, and each has its
/// kinds.
proof fn lemma_llama_layers(g: LlamaGeometry, t: Tuning, with_argmax: bool, n: nat)
    requires
        n <= g.n_layers,
    ensures
        ({
            let steps = dispatch_llama::with_layers(dispatch_llama::first_step(g), g, t, n);
            &&& steps.len() > 0
            &&& steps[0] == dispatch_llama::first_step(g)[0]
            &&& dag::rises(steps, |s: Step| place(s, g.n_layers))
            &&& place(steps.last(), g.n_layers) < (n + 1) * STAGES
            &&& dag::all_meet(steps, |s: Step| in_llama_list(g, t, with_argmax, s))
            &&& forall|l: u32, k: Kernel|
                l < n && in_llama_layer(g, k) ==> #[trigger] dag::has(steps, l, k)
        }),
    decreases n,
{
    let steps = dispatch_llama::with_layers(dispatch_llama::first_step(g), g, t, n);
    if n > 0 {
        let m = (n - 1) as nat;
        let before = dispatch_llama::with_layers(dispatch_llama::first_step(g), g, t, m);
        lemma_llama_layers(g, t, with_argmax, m);
        lemma_llama_layer(before, g, t, with_argmax, m as u32);
        lemma_llama_layer_extends(before, g, t, m as u32);
        assert(steps[0] == steps.take(before.len() as int)[0]);
        assert forall|l: u32, k: Kernel| l < n && in_llama_layer(g, k) implies #[trigger] dag::has(
            steps,
            l,
            k,
        ) by {
            if l < m {
                assert(dag::has(before, l, k));
                dag::lemma_has_more(before, steps, l, k);
            } else {
                lemma_llama_layer_has(before, g, t, l, k);
            }
        }
    } else {
        lemma_llama_shapes(g, t);
        assert(steps == dispatch_llama::first_step(g));
    }
}

/// The built llama list is the model's forward and nothing else. Its dispatches
/// stand in the order their values flow, layer by layer, and no two at one
/// place; each of a layer's kinds is there once in every layer; the embedding
/// comes first, and the final norm, the head and the argmax last; and each
/// dispatch covers its work, for one token, with nothing fused and no
/// projection a matmul.
pub proof fn law_a_llama_list_follows_the_dataflow(
    dispatches: Seq<Dispatch>,
    g: LlamaGeometry,
    t: Tuning,
    with_argmax: bool,
)
    requires
        dag::states(dispatches, dispatch_llama::llama_steps(g, t, with_argmax)),
    ensures
        dispatches.len() > 2,
        forall|i: int, j: int|
            #![trigger dispatches[i], dispatches[j]]
            0 <= i < j < dispatches.len() ==> position(dispatches[i], g.n_layers) < position(
                dispatches[j],
                g.n_layers,
            ),
        forall|i: int|
            0 <= i < dispatches.len() ==> {
                let d = #[trigger] dispatches[i];
                &&& d.ordinal == i
                &&& llama_covers(g, t, d.kind, d.launch@)
                &&& d.layer matches Some(l) ==> l < g.n_layers && in_llama_layer(g, d.kind)
                &&& d.layer is None ==> at_llama_end(g, with_argmax, d.kind)
                &&& !d.fuse_residual && d.qmm_bn == 0 && d.qmm_split == 1 && d.qmm_bm == 16
            },
        forall|l: u32, k: Kernel|
            l < g.n_layers && in_llama_layer(g, k) ==> #[trigger] dispatched_in(dispatches, l, k),
        forall|k: Kernel|
            at_llama_end(g, with_argmax, k) ==> #[trigger] dispatched_outside(dispatches, k),
{
    let steps = dispatch_llama::llama_steps(g, t, with_argmax);
    let at = |s: Step| place(s, g.n_layers);
    let belongs = |s: Step| in_llama_list(g, t, with_argmax, s);
    let body = dispatch_llama::with_layers(
        dispatch_llama::first_step(g),
        g,
        t,
        g.n_layers as nat,
    );
    lemma_llama_layers(g, t, with_argmax, g.n_layers as nat);
    lemma_llama_shapes(g, t);
    assert forall|steps: Seq<Step>, s: Step|
        dag::rises(steps, at) && (steps.len() > 0 ==> at(steps.last()) < at(
            s,
        )) implies #[trigger] dag::rises(steps.push(s), at) by {
        dag::lemma_rises_push(steps, s, at);
    }
    assert forall|steps: Seq<Step>, s: Step|
        dag::all_meet(steps, belongs) && belongs(s) implies #[trigger] dag::all_meet(
        steps.push(s),
        belongs,
    ) by {
        dag::lemma_meets_push(steps, s, belongs);
    }
    assert(dag::rises(steps, at));
    assert(dag::all_meet(steps, belongs));
    assert(body =~= steps.take(body.len() as int));
    let n = body.len() as int;
    assert(steps[0] == body[0]);
    assert(steps[n].kind == Kernel::FinalRms);
    assert forall|i: int, j: int|
        #![trigger dispatches[i], dispatches[j]]
        0 <= i < j < dispatches.len() implies position(dispatches[i], g.n_layers) < position(
        dispatches[j],
        g.n_layers,
    ) by {
        lemma_position(dispatches, steps, i, g.n_layers);
        lemma_position(dispatches, steps, j, g.n_layers);
        assert(at(steps[i]) < at(steps[j]));
    }
    assert forall|i: int| 0 <= i < dispatches.len() implies ({
        let d = #[trigger] dispatches[i];
        &&& d.ordinal == i
        &&& llama_covers(g, t, d.kind, d.launch@)
        &&& d.layer matches Some(l) ==> l < g.n_layers && in_llama_layer(g, d.kind)
        &&& d.layer is None ==> at_llama_end(g, with_argmax, d.kind)
        &&& !d.fuse_residual && d.qmm_bn == 0 && d.qmm_split == 1 && d.qmm_bm == 16
    }) by {
        assert(dag::is_step(dispatches[i], steps[i], i));
        assert(belongs(steps[i]));
    }
    assert forall|l: u32, k: Kernel|
        l < g.n_layers && in_llama_layer(g, k) implies #[trigger] dispatched_in(
        dispatches,
        l,
        k,
    ) by {
        assert(dag::has(body, l, k));
        dag::lemma_has_more(body, steps, l, k);
        lemma_dispatched_in(dispatches, steps, l, k);
    }
    assert forall|k: Kernel| at_llama_end(g, with_argmax, k) implies #[trigger] dispatched_outside(
        dispatches,
        k,
    ) by {
        let i = match k {
            Kernel::EmbedGather | Kernel::EmbedUntied => 0,
            Kernel::FinalRms => n,
            Kernel::QmvLmHead | Kernel::LmHeadUntied => n + 1,
            _ => n + 2,
        };
        assert(dag::is_step(dispatches[i], steps[i], i));
        assert(dispatches[i].kind == k && dispatches[i].layer is None);
    }
}

/// Where a dispatch stands in the whole list.
pub open spec fn position(d: Dispatch, n_layers: u32) -> int {
    place(Step { kind: d.kind, layer: d.layer, shape: d.launch@ }, n_layers)
}

/// A kind is dispatched in a layer.
pub open spec fn dispatched_in(dispatches: Seq<Dispatch>, layer: u32, kind: Kernel) -> bool {
    exists|i: int|
        0 <= i < dispatches.len() && (#[trigger] dispatches[i]).kind == kind
            && dispatches[i].layer == Some(layer)
}

/// A kind is dispatched outside the layers.
pub open spec fn dispatched_outside(dispatches: Seq<Dispatch>, kind: Kernel) -> bool {
    exists|i: int|
        0 <= i < dispatches.len() && (#[trigger] dispatches[i]).kind == kind
            && dispatches[i].layer is None
}

/// A dispatch stands where its step does.
proof fn lemma_position(dispatches: Seq<Dispatch>, steps: Seq<Step>, i: int, n_layers: u32)
    requires
        dag::states(dispatches, steps),
        0 <= i < dispatches.len(),
    ensures
        position(dispatches[i], n_layers) == place(steps[i], n_layers),
{
    assert(dag::is_step(dispatches[i], steps[i], i));
}

/// What a run has is dispatched.
proof fn lemma_dispatched_in(
    dispatches: Seq<Dispatch>,
    steps: Seq<Step>,
    layer: u32,
    kind: Kernel,
)
    requires
        dag::states(dispatches, steps),
        dag::has(steps, layer, kind),
    ensures
        dispatched_in(dispatches, layer, kind),
{
    let i = choose|i: int|
        0 <= i < steps.len() && (#[trigger] steps[i]).kind == kind && steps[i].layer == Some(layer);
    assert(dag::is_step(dispatches[i], steps[i], i));
    assert(dispatches[i].kind == kind);
}

/// The kinds a gpt-oss layer has: all of them in every layer.
pub open spec fn in_gptoss_layer(kind: Kernel) -> bool {
    match kind {
        Kernel::Rms
        | Kernel::GoQmvQ
        | Kernel::GoQmvK
        | Kernel::GoQmvV
        | Kernel::Rope
        | Kernel::RopeK
        | Kernel::KvAppend
        | Kernel::GoSdpaSink
        | Kernel::GoQmvO
        | Kernel::Residual
        | Kernel::FfnRms
        | Kernel::GoRouter
        | Kernel::GoRouterTopK
        | Kernel::LlMoeSort
        | Kernel::LlMoeGather
        | Kernel::GoExpertGate
        | Kernel::GoExpertUp
        | Kernel::GoSwiGlu
        | Kernel::GoExpertDown
        | Kernel::GoExpertCombine
        | Kernel::LayerOut => true,
        _ => false,
    }
}

/// The kinds outside a gpt-oss step's layers: its tables are never tied.
pub open spec fn at_gptoss_end(with_argmax: bool, kind: Kernel) -> bool {
    match kind {
        Kernel::EmbedUntied | Kernel::FinalRms | Kernel::LmHeadUntied => true,
        Kernel::Argmax => with_argmax,
        _ => false,
    }
}

/// What a gpt-oss kind's grid has to cover. One token's sorted stack is its
/// expert slots, one row each.
pub open spec fn gptoss_covers(g: GptOssGeometry, kind: Kernel, s: Shape) -> bool {
    let hidden = g.hidden as int;
    let inner = g.intermediate as int;
    let head = g.head_dim as int;
    let q = g.n_q_heads as int;
    let kv = g.n_kv_heads as int;
    let experts = g.n_experts as int;
    let slots = g.experts_per_token as int;
    match kind {
        Kernel::EmbedUntied | Kernel::Residual | Kernel::LayerOut => shapes::is_pointwise(
            s,
            hidden,
        ),
        Kernel::Rms | Kernel::FfnRms | Kernel::FinalRms => shapes::is_row_norm(s, hidden, 1),
        Kernel::GoQmvQ => shapes::is_matvec(s, q * head),
        Kernel::GoQmvK | Kernel::GoQmvV => shapes::is_matvec(s, kv * head),
        Kernel::Rope => shapes::is_rotation(s, head, q),
        Kernel::RopeK => shapes::is_rotation(s, head, kv),
        Kernel::KvAppend => shapes::is_per_head(s, head, kv),
        Kernel::GoSdpaSink => shapes::is_attention(s, q),
        Kernel::GoQmvO => shapes::is_matvec(s, hidden),
        Kernel::GoRouter => shapes::is_matvec(s, experts),
        Kernel::GoRouterTopK | Kernel::LlMoeSort => shapes::is_expert_lane(s, experts),
        Kernel::LlMoeGather => shapes::is_row_pass(s, hidden, slots),
        Kernel::GoExpertGate | Kernel::GoExpertUp => shapes::is_routed_matvec(s, inner, 1, slots),
        Kernel::GoSwiGlu => shapes::is_pointwise(s, inner * slots),
        Kernel::GoExpertDown => shapes::is_routed_matvec(s, hidden, 1, slots),
        Kernel::GoExpertCombine => shapes::is_combine(s, hidden),
        Kernel::LmHeadUntied => shapes::is_matvec(s, g.vocab as int),
        Kernel::Argmax => shapes::is_one_group(s),
        _ => false,
    }
}

/// A step belongs in a gpt-oss list.
pub open spec fn in_gptoss_list(g: GptOssGeometry, with_argmax: bool, s: Step) -> bool {
    &&& gptoss_covers(g, s.kind, s.shape)
    &&& match s.layer {
        Some(l) => l < g.n_layers && in_gptoss_layer(s.kind),
        None => at_gptoss_end(with_argmax, s.kind),
    }
}

/// Every shape a gpt-oss layer launches covers its work.
proof fn lemma_gptoss_shapes(g: GptOssGeometry)
    ensures
        shapes::is_row_norm(shapes::rms_shape(g.hidden as int, 1), g.hidden as int, 1),
        shapes::is_matvec(
            shapes::qmv_shape(g.n_q_heads * g.head_dim),
            g.n_q_heads * g.head_dim,
        ),
        shapes::is_matvec(
            shapes::qmv_shape(g.n_kv_heads * g.head_dim),
            g.n_kv_heads * g.head_dim,
        ),
        shapes::is_matvec(shapes::qmv_shape(g.hidden as int), g.hidden as int),
        shapes::is_matvec(shapes::qmv_shape(g.n_experts as int), g.n_experts as int),
        shapes::is_matvec(shapes::qmv_shape(g.vocab as int), g.vocab as int),
        shapes::is_expert_lane(shapes::expert_lane_shape(g.n_experts as int), g.n_experts as int),
        forall|rows: int| #[trigger]
            shapes::is_row_pass(
                shapes::route_rows_shape(g.hidden as int, rows),
                g.hidden as int,
                rows,
            ),
        forall|slots: int, rows: int| #[trigger]
            shapes::is_routed_matvec(
                shapes::routed_qmv_shape(g.hidden as int, slots, rows),
                g.hidden as int,
                slots,
                rows,
            ),
        forall|slots: int, rows: int| #[trigger]
            shapes::is_routed_matvec(
                shapes::routed_qmv_shape(g.intermediate as int, slots, rows),
                g.intermediate as int,
                slots,
                rows,
            ),
{
    shapes::lemma_row_norm(g.hidden as int, 1);
    assert(g.n_q_heads * g.head_dim >= 0) by (nonlinear_arith);
    assert(g.n_kv_heads * g.head_dim >= 0) by (nonlinear_arith);
    shapes::lemma_matvec(g.n_q_heads * g.head_dim);
    shapes::lemma_matvec(g.n_kv_heads * g.head_dim);
    shapes::lemma_matvec(g.hidden as int);
    shapes::lemma_matvec(g.intermediate as int);
    shapes::lemma_matvec(g.n_experts as int);
    shapes::lemma_matvec(g.vocab as int);
    shapes::lemma_expert_lane(g.n_experts as int);
    assert forall|rows: int| #[trigger]
        shapes::is_row_pass(
            shapes::route_rows_shape(g.hidden as int, rows),
            g.hidden as int,
            rows,
        ) by {
        shapes::lemma_row_pass(g.hidden as int, rows);
    }
}

/// A layer keeps the list rising and every step in it.
#[verifier::spinoff_prover]
#[verifier::rlimit(60)]
proof fn lemma_gptoss_layer(done: Seq<Step>, g: GptOssGeometry, with_argmax: bool, layer: u32)
    requires
        layer < g.n_layers,
        done.len() > 0,
        dag::rises(done, |s: Step| place(s, g.n_layers)),
        place(done.last(), g.n_layers) < (layer + 1) * STAGES,
        dag::all_meet(done, |s: Step| in_gptoss_list(g, with_argmax, s)),
    ensures
        ({
            let after = dispatch_gptoss::with_layer(done, g, layer);
            &&& after.len() > 0
            &&& dag::rises(after, |s: Step| place(s, g.n_layers))
            &&& place(after.last(), g.n_layers) < (layer + 2) * STAGES
            &&& dag::all_meet(after, |s: Step| in_gptoss_list(g, with_argmax, s))
        }),
{
    let at = |s: Step| place(s, g.n_layers);
    let belongs = |s: Step| in_gptoss_list(g, with_argmax, s);
    lemma_gptoss_shapes(g);
    assert forall|steps: Seq<Step>, s: Step|
        dag::rises(steps, at) && (steps.len() > 0 ==> at(steps.last()) < at(
            s,
        )) implies #[trigger] dag::rises(steps.push(s), at) by {
        dag::lemma_rises_push(steps, s, at);
    }
    assert forall|steps: Seq<Step>, s: Step|
        dag::all_meet(steps, belongs) && belongs(s) implies #[trigger] dag::all_meet(
        steps.push(s),
        belongs,
    ) by {
        dag::lemma_meets_push(steps, s, belongs);
    }
    let attended = dispatch_gptoss::with_attention(done, g, layer);
    assert(dag::rises(attended, at));
    assert(dag::all_meet(attended, belongs));
    assert(attended.last().kind == Kernel::Residual && attended.last().layer == Some(layer));
    let after = dispatch_gptoss::with_layer(done, g, layer);
    assert(dag::rises(after, at));
    assert(dag::all_meet(after, belongs));
    assert(after.last().kind == Kernel::LayerOut && after.last().layer == Some(layer));
}

/// A layer begins with what was done and has each of its kinds.
#[verifier::spinoff_prover]
proof fn lemma_gptoss_layer_has(done: Seq<Step>, g: GptOssGeometry, layer: u32, kind: Kernel)
    requires
        in_gptoss_layer(kind),
    ensures
        dag::has(dispatch_gptoss::with_layer(done, g, layer), layer, kind),
{
    let after = dispatch_gptoss::with_layer(done, g, layer);
    let n = done.len() as int;
    let i = match kind {
        Kernel::Rms => n,
        Kernel::GoQmvQ => n + 1,
        Kernel::GoQmvK => n + 2,
        Kernel::GoQmvV => n + 3,
        Kernel::Rope => n + 4,
        Kernel::RopeK => n + 5,
        Kernel::KvAppend => n + 6,
        Kernel::GoSdpaSink => n + 7,
        Kernel::GoQmvO => n + 8,
        Kernel::Residual => n + 9,
        Kernel::FfnRms => n + 10,
        Kernel::GoRouter => n + 11,
        Kernel::GoRouterTopK => n + 12,
        Kernel::LlMoeSort => n + 13,
        Kernel::LlMoeGather => n + 14,
        Kernel::GoExpertGate => n + 15,
        Kernel::GoExpertUp => n + 16,
        Kernel::GoSwiGlu => n + 17,
        Kernel::GoExpertDown => n + 18,
        Kernel::GoExpertCombine => n + 19,
        _ => n + 20,
    };
    assert(after[i].kind == kind && after[i].layer == Some(layer));
    dag::lemma_has_at(after, i);
}

/// A layer begins with what was done.
#[verifier::spinoff_prover]
proof fn lemma_gptoss_layer_extends(done: Seq<Step>, g: GptOssGeometry, layer: u32)
    ensures
        ({
            let after = dispatch_gptoss::with_layer(done, g, layer);
            done.len() <= after.len() && done =~= after.take(done.len() as int)
        }),
{
}

/// So many layers keep the list rising and every step in it, and each has its
/// kinds.
proof fn lemma_gptoss_layers(g: GptOssGeometry, with_argmax: bool, n: nat)
    requires
        n <= g.n_layers,
    ensures
        ({
            let steps = dispatch_gptoss::with_layers(dispatch_gptoss::first_step(g), g, n);
            &&& steps.len() > 0
            &&& steps[0] == dispatch_gptoss::first_step(g)[0]
            &&& dag::rises(steps, |s: Step| place(s, g.n_layers))
            &&& place(steps.last(), g.n_layers) < (n + 1) * STAGES
            &&& dag::all_meet(steps, |s: Step| in_gptoss_list(g, with_argmax, s))
            &&& forall|l: u32, k: Kernel|
                l < n && in_gptoss_layer(k) ==> #[trigger] dag::has(steps, l, k)
        }),
    decreases n,
{
    let steps = dispatch_gptoss::with_layers(dispatch_gptoss::first_step(g), g, n);
    if n > 0 {
        let m = (n - 1) as nat;
        let before = dispatch_gptoss::with_layers(dispatch_gptoss::first_step(g), g, m);
        lemma_gptoss_layers(g, with_argmax, m);
        lemma_gptoss_layer(before, g, with_argmax, m as u32);
        lemma_gptoss_layer_extends(before, g, m as u32);
        assert(steps[0] == steps.take(before.len() as int)[0]);
        assert forall|l: u32, k: Kernel| l < n && in_gptoss_layer(k) implies #[trigger] dag::has(
            steps,
            l,
            k,
        ) by {
            if l < m {
                assert(dag::has(before, l, k));
                dag::lemma_has_more(before, steps, l, k);
            } else {
                lemma_gptoss_layer_has(before, g, l, k);
            }
        }
    } else {
        assert(steps == dispatch_gptoss::first_step(g));
    }
}

/// The built gpt-oss list is the model's forward and nothing else, in the same
/// sense as the llama one: the order its values flow, each of a layer's kinds
/// once in every layer, the ends where they belong, and every dispatch over a
/// grid that covers its work.
pub proof fn law_a_gptoss_list_follows_the_dataflow(
    dispatches: Seq<Dispatch>,
    g: GptOssGeometry,
    with_argmax: bool,
)
    requires
        dag::states(dispatches, dispatch_gptoss::gptoss_steps(g, with_argmax)),
    ensures
        dispatches.len() > 2,
        forall|i: int, j: int|
            #![trigger dispatches[i], dispatches[j]]
            0 <= i < j < dispatches.len() ==> position(dispatches[i], g.n_layers) < position(
                dispatches[j],
                g.n_layers,
            ),
        forall|i: int|
            0 <= i < dispatches.len() ==> {
                let d = #[trigger] dispatches[i];
                &&& d.ordinal == i
                &&& gptoss_covers(g, d.kind, d.launch@)
                &&& d.layer matches Some(l) ==> l < g.n_layers && in_gptoss_layer(d.kind)
                &&& d.layer is None ==> at_gptoss_end(with_argmax, d.kind)
                &&& !d.fuse_residual && d.qmm_bn == 0 && d.qmm_split == 1 && d.qmm_bm == 16
            },
        forall|l: u32, k: Kernel|
            l < g.n_layers && in_gptoss_layer(k) ==> #[trigger] dispatched_in(dispatches, l, k),
        forall|k: Kernel|
            at_gptoss_end(with_argmax, k) ==> #[trigger] dispatched_outside(dispatches, k),
{
    let steps = dispatch_gptoss::gptoss_steps(g, with_argmax);
    let at = |s: Step| place(s, g.n_layers);
    let belongs = |s: Step| in_gptoss_list(g, with_argmax, s);
    let body = dispatch_gptoss::with_layers(
        dispatch_gptoss::first_step(g),
        g,
        g.n_layers as nat,
    );
    lemma_gptoss_layers(g, with_argmax, g.n_layers as nat);
    lemma_gptoss_shapes(g);
    assert forall|steps: Seq<Step>, s: Step|
        dag::rises(steps, at) && (steps.len() > 0 ==> at(steps.last()) < at(
            s,
        )) implies #[trigger] dag::rises(steps.push(s), at) by {
        dag::lemma_rises_push(steps, s, at);
    }
    assert forall|steps: Seq<Step>, s: Step|
        dag::all_meet(steps, belongs) && belongs(s) implies #[trigger] dag::all_meet(
        steps.push(s),
        belongs,
    ) by {
        dag::lemma_meets_push(steps, s, belongs);
    }
    assert(dag::rises(steps, at));
    assert(dag::all_meet(steps, belongs));
    assert(body =~= steps.take(body.len() as int));
    let n = body.len() as int;
    assert(steps[0] == body[0]);
    assert(steps[n].kind == Kernel::FinalRms);
    assert forall|i: int, j: int|
        #![trigger dispatches[i], dispatches[j]]
        0 <= i < j < dispatches.len() implies position(dispatches[i], g.n_layers) < position(
        dispatches[j],
        g.n_layers,
    ) by {
        lemma_position(dispatches, steps, i, g.n_layers);
        lemma_position(dispatches, steps, j, g.n_layers);
        assert(at(steps[i]) < at(steps[j]));
    }
    assert forall|i: int| 0 <= i < dispatches.len() implies ({
        let d = #[trigger] dispatches[i];
        &&& d.ordinal == i
        &&& gptoss_covers(g, d.kind, d.launch@)
        &&& d.layer matches Some(l) ==> l < g.n_layers && in_gptoss_layer(d.kind)
        &&& d.layer is None ==> at_gptoss_end(with_argmax, d.kind)
        &&& !d.fuse_residual && d.qmm_bn == 0 && d.qmm_split == 1 && d.qmm_bm == 16
    }) by {
        assert(dag::is_step(dispatches[i], steps[i], i));
        assert(belongs(steps[i]));
    }
    assert forall|l: u32, k: Kernel|
        l < g.n_layers && in_gptoss_layer(k) implies #[trigger] dispatched_in(
        dispatches,
        l,
        k,
    ) by {
        assert(dag::has(body, l, k));
        dag::lemma_has_more(body, steps, l, k);
        lemma_dispatched_in(dispatches, steps, l, k);
    }
    assert forall|k: Kernel| at_gptoss_end(with_argmax, k) implies #[trigger] dispatched_outside(
        dispatches,
        k,
    ) by {
        let i = match k {
            Kernel::EmbedUntied => 0,
            Kernel::FinalRms => n,
            Kernel::LmHeadUntied => n + 1,
            _ => n + 2,
        };
        assert(dag::is_step(dispatches[i], steps[i], i));
        assert(dispatches[i].kind == k && dispatches[i].layer is None);
    }
}

/// A step is priced by its matvecs: the kinds whose grid covers a matrix's
/// outputs, and of those the routed ones by the stack. No other kind counts.
pub proof fn law_the_price_is_the_matvecs(g: LlamaGeometry, h: GptOssGeometry, k: Kernel)
    ensures
        in_llama_layer(g, k) ==> (dispatch_llama::is_gemv(k) <==> {
            ||| k == Kernel::QmvQ || k == Kernel::QmvK || k == Kernel::QmvV || k == Kernel::QmvO
            ||| k == Kernel::QmvGate || k == Kernel::QmvUp || k == Kernel::QmvDown
            ||| k == Kernel::LlRouter
            ||| k == Kernel::LlExpertGate || k == Kernel::LlExpertUp || k == Kernel::LlExpertDown
        }),
        in_llama_layer(g, k) ==> (dispatch_llama::is_routed(k) <==> k == Kernel::LlExpertGate || k
            == Kernel::LlExpertUp || k == Kernel::LlExpertDown),
        in_gptoss_layer(k) ==> (dispatch_gptoss::is_gemv(k) <==> {
            ||| k == Kernel::GoQmvQ || k == Kernel::GoQmvK || k == Kernel::GoQmvV
            ||| k == Kernel::GoQmvO || k == Kernel::GoRouter
            ||| k == Kernel::GoExpertGate || k == Kernel::GoExpertUp || k == Kernel::GoExpertDown
        }),
        in_gptoss_layer(k) ==> (dispatch_gptoss::is_routed(k) <==> k == Kernel::GoExpertGate || k
            == Kernel::GoExpertUp || k == Kernel::GoExpertDown),
        dispatch_llama::is_gemv(Kernel::QmvLmHead) && dispatch_llama::is_gemv(Kernel::LmHeadUntied),
        dispatch_gptoss::is_gemv(Kernel::LmHeadUntied),
{
}

} // verus!
