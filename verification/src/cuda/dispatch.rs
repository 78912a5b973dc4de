//! Dispatching a bound launch, and walking a fire.

use crate::cuda::action;
use crate::cuda::action::{
    ActionView, DispatchAction, DispatchRefusal, DispatchRefusalView, Entry, Outcome,
};
use crate::cuda::arm;
use crate::cuda::arms::{attention, dense, layout, norm, recurrent, rope};
use crate::cuda::bind;
use crate::cuda::bind::{BoundLaunch, BoundView};
use crate::cuda::context::{AttnCtx, DispatchCtx, Frame, GdnCtx};
use crate::cuda::plan::{LaunchSpec, LaunchSpecView};
use crate::cuda::resolver;
use crate::cuda::resolver::Resolver;
use crate::cuda::symbols;
use vstd::prelude::*;

verus! {

/// The outcome of one entry's arm.
pub open spec fn arm_outcome<R: Resolver>(
    e: Entry,
    b: BoundView,
    s: LaunchSpecView,
    frame: Frame,
    r: R,
    c: &DispatchCtx,
    attn: Option<&AttnCtx>,
    gdn: Option<&GdnCtx>,
) -> Outcome {
    match e {
        Entry::LayoutEmbedBf16 => layout::embed(b, s, r, c),
        Entry::RopeStandardTable => rope::rope_table(b, c),
        Entry::NormRmsnormBf16 => norm::rmsnorm(b, s, r, c),
        Entry::GemmActXW => dense::gemm(b, s, r, c),
        Entry::MlpChunkedSwigluBf16 => dense::chunked_swiglu(b, c),
        Entry::AttnQkvDecodeQkNormRopeWriteKvBf16 => attention::qkv_decode(b, c, attn),
        Entry::AttnDispatchFlashinferDecode => attention::planned_decode(b, c, attn),
        Entry::AttnSplitQkvBf16 => attention::split_qkv(b, c),
        Entry::RopeQkRmsnormRopeBf16 => rope::qk_rmsnorm_rope(b, c),
        Entry::AttnWriteKvToPages => attention::write_kv(b, c, attn),
        Entry::AttnDequantKvCacheLayerToBf16Active => attention::dequant_kv(b, c, attn),
        Entry::AttnDispatchFlashinferPrefillBf16 => attention::planned_prefill(b, c, attn),
        Entry::RopeRopeBf16 => rope::rope(b, c),
        Entry::NormResidualAddBf16 => norm::residual_add(b, c),
        Entry::NormAddBiasBf16 => norm::add_bias(b, s, r, c),
        Entry::NormRmsnormGemmaBf16 => norm::rmsnorm_gemma(b, s, r, c),
        Entry::RopeRopePartialBf16 => rope::rope_partial(b, s, c),
        Entry::LayoutSplitQGateBf16 => layout::split_q_gate(b, c),
        Entry::MlpSigmoidGateInplaceBf16 => dense::sigmoid_gate(b, c),
        Entry::SsmCausalConv1dUpdateBatchedBf16 => recurrent::conv_update(b, s, r, c, gdn),
        Entry::SsmCausalConv1dPrefillBatchedBf16 => recurrent::conv_prefill(b, s, r, c, attn, gdn),
        Entry::SsmQwenGdnPostConvPrepBf16 => recurrent::gdn_prep(b, s, r, c, gdn),
        Entry::SsmRecurrentGatedDeltaStepBatchedStateBf16 => recurrent::delta_step(b, s, c, gdn),
        Entry::SsmChunkGatedDeltaPrefillBatched => recurrent::delta_prefill(
            b,
            s,
            frame,
            r,
            c,
            attn,
            gdn,
        ),
        Entry::SsmChunkGatedDeltaPrefillBatchedStateBf16 => recurrent::delta_prefill_bf16(
            b,
            s,
            frame,
            r,
            c,
            attn,
            gdn,
        ),
        Entry::NormRmsnormGatedFp32InBf16 => norm::rmsnorm_gated(b, s, r, c, gdn),
        Entry::NormScalarMulBf16 => norm::scalar_mul(b, s, c),
        Entry::MlpGegluTanhBf16 => dense::geglu(b, c),
        Entry::AttnLogitSoftcapBf16 => attention::logit_softcap(b, c),
        Entry::AttnQkvPackedQkNormRopeVnormWriteKvBf16 => attention::qkv_packed(b, c, attn),
        Entry::RopeQkRmsnormRopeBf16Rounded => rope::qk_rounded(b, c, attn),
        Entry::AttnFlashinferPrefill => attention::planless_prefill(b, c, attn),
        Entry::AttnNaivePaged => attention::naive_paged(b, c, attn),
        Entry::LayoutTransposeBf16NldToLnd => layout::transpose(b, c),
        Entry::NormRmsnormResidualAddScaleRmsnormBf16 => norm::landing(b, s, c),
        Entry::NormRmsnormResidualAddBf16 => norm::rmsnorm_residual_add(b, c),
        Entry::MlpChunkedGegluTanhBf16 => dense::chunked_geglu(b, c),
        Entry::NormRmsnormNoScaleBf16 => norm::rmsnorm_no_scale(b, s, c),
    }
}

/// What the arm computes from the launch stays in the widths its entry takes.
/// Each arm converts only the widths it hands on.
pub open spec fn arm_fits(
    e: Entry,
    b: BoundView,
    s: LaunchSpecView,
    attn: Option<&AttnCtx>,
    gdn: Option<&GdnCtx>,
) -> bool {
    match e {
        Entry::LayoutEmbedBf16 => arm::width_fits(b, 0),
        Entry::NormRmsnormBf16 => arm::width_fits(b, 0),
        Entry::GemmActXW => dense::gemm_fits(b, s),
        Entry::MlpChunkedSwigluBf16 => arm::width_fits(b, 1),
        Entry::AttnQkvDecodeQkNormRopeWriteKvBf16 => attention::qkv_decode_fits(b, attn),
        Entry::AttnSplitQkvBf16 => arm::width_fits(b, 1) && arm::width_fits(b, 2),
        Entry::RopeQkRmsnormRopeBf16 => arm::width_fits(b, 2) && arm::width_fits(b, 3),
        Entry::RopeRopeBf16 => arm::width_fits(b, 2) && arm::width_fits(b, 3),
        Entry::NormAddBiasBf16 => arm::width_fits(b, 1),
        Entry::NormRmsnormGemmaBf16 => arm::norm_rows_fit(b, s),
        Entry::RopeRopePartialBf16 => rope::rope_partial_fits(b, s),
        Entry::LayoutSplitQGateBf16 => arm::width_fits(b, 1),
        Entry::MlpSigmoidGateInplaceBf16 => dense::sigmoid_gate_fits(b),
        Entry::NormRmsnormGatedFp32InBf16 => norm::rmsnorm_gated_fits(b, gdn),
        Entry::MlpGegluTanhBf16 => dense::elements_fit(b, 2),
        Entry::AttnQkvPackedQkNormRopeVnormWriteKvBf16 => arm::width_fits(b, 1),
        Entry::RopeQkRmsnormRopeBf16Rounded => rope::qk_rounded_fits(b),
        Entry::AttnFlashinferPrefill => arm::width_fits(b, 0),
        Entry::AttnNaivePaged => arm::width_fits(b, 0),
        Entry::LayoutTransposeBf16NldToLnd => arm::width_fits(b, 0),
        Entry::NormRmsnormResidualAddScaleRmsnormBf16 => arm::width_fits(b, 0),
        Entry::NormRmsnormResidualAddBf16 => arm::width_fits(b, 0),
        Entry::MlpChunkedGegluTanhBf16 => arm::width_fits(b, 1),
        Entry::NormRmsnormNoScaleBf16 => arm::norm_rows_fit(b, s),
        _ => true,
    }
}

/// What dispatching a launch comes to: its arm's outcome, or a refusal when no
/// arm has its kernel.
pub open spec fn dispatched<R: Resolver>(
    b: BoundView,
    s: LaunchSpecView,
    frame: Frame,
    r: R,
    c: &DispatchCtx,
    attn: Option<&AttnCtx>,
    gdn: Option<&GdnCtx>,
) -> Outcome {
    match symbols::entry_named(b.kernel) {
        None => Err(DispatchRefusalView::NoArm(b.kernel)),
        Some(e) => arm_outcome(e, b, s, frame, r, c, attn, gdn),
    }
}

/// The launch's row count is a kernel's, and, where its arm launches, so is
/// everything the arm computes.
pub open spec fn dispatchable<R: Resolver>(
    b: BoundView,
    s: LaunchSpecView,
    frame: Frame,
    r: R,
    c: &DispatchCtx,
    attn: Option<&AttnCtx>,
    gdn: Option<&GdnCtx>,
) -> bool {
    &&& arm::rows_fit(b)
    &&& symbols::entry_named(b.kernel) matches Some(e) ==> dispatched(
        b,
        s,
        frame,
        r,
        c,
        attn,
        gdn,
    ) is Ok ==> arm_fits(e, b, s, attn, gdn)
}

/// Dispatch one bound launch: the action its kernel's arm makes of it.
///
/// Operand order inside each arm is the trace's stated order: inputs, then
/// outputs, then weights.
pub fn dispatch<R: Resolver>(
    bound: &BoundLaunch<'_>,
    spec: &LaunchSpec,
    frame: Frame,
    resolver: &mut R,
    ctx: &DispatchCtx,
    attn: Option<&AttnCtx>,
    gdn: Option<&GdnCtx>,
) -> (result: Result<DispatchAction, DispatchRefusal>)
    requires
        bind::addressable(frame),
        dispatchable(bound@, spec@, frame, *old(resolver), ctx, attn, gdn),
    ensures
        action::outcome_of(result) == dispatched(
            bound@,
            spec@,
            frame,
            *old(resolver),
            ctx,
            attn,
            gdn,
        ),
        resolver::same_answers(*old(resolver), *final(resolver)),
{
    outcome(bound, spec, frame, resolver, ctx, attn, gdn)
}

/// What a launch's arm comes to. A count past 32 bits is cut to them: an action
/// is performed only of a launch that stays in its kernel's widths.
pub(crate) fn outcome<R: Resolver>(
    bound: &BoundLaunch<'_>,
    spec: &LaunchSpec,
    frame: Frame,
    resolver: &mut R,
    ctx: &DispatchCtx,
    attn: Option<&AttnCtx>,
    gdn: Option<&GdnCtx>,
) -> (result: Result<DispatchAction, DispatchRefusal>)
    requires
        bind::addressable(frame),
        arm::rows_fit(bound@),
    ensures
        action::outcome_of(result) == dispatched(
            bound@,
            spec@,
            frame,
            *old(resolver),
            ctx,
            attn,
            gdn,
        ),
        resolver::same_answers(*old(resolver), *final(resolver)),
{
    let entry = match Entry::named(bound.kernel) {
        None => return Err(DispatchRefusal::NoArm(bound.kernel.to_owned())),
        Some(entry) => entry,
    };
    match entry {
        Entry::LayoutEmbedBf16 => layout::dispatch_embed(bound, spec, resolver, ctx),
        Entry::RopeStandardTable => rope::dispatch_rope_table(bound, ctx),
        Entry::NormRmsnormBf16 => norm::dispatch_rmsnorm(bound, spec, resolver, ctx),
        Entry::GemmActXW => dense::dispatch_gemm(bound, spec, resolver, ctx),
        Entry::MlpChunkedSwigluBf16 => dense::dispatch_chunked_swiglu(bound, ctx),
        Entry::AttnQkvDecodeQkNormRopeWriteKvBf16 => attention::dispatch_qkv_decode(
            bound,
            ctx,
            attn,
        ),
        Entry::AttnDispatchFlashinferDecode => attention::dispatch_planned_decode(bound, ctx, attn),
        Entry::AttnSplitQkvBf16 => attention::dispatch_split_qkv(bound, ctx),
        Entry::RopeQkRmsnormRopeBf16 => rope::dispatch_qk_rmsnorm_rope(bound, ctx),
        Entry::AttnWriteKvToPages => attention::dispatch_write_kv(bound, ctx, attn),
        Entry::AttnDequantKvCacheLayerToBf16Active => attention::dispatch_dequant_kv(
            bound,
            ctx,
            attn,
        ),
        Entry::AttnDispatchFlashinferPrefillBf16 => attention::dispatch_planned_prefill(
            bound,
            ctx,
            attn,
        ),
        Entry::RopeRopeBf16 => rope::dispatch_rope(bound, ctx),
        Entry::NormResidualAddBf16 => norm::dispatch_residual_add(bound, ctx),
        Entry::NormAddBiasBf16 => norm::dispatch_add_bias(bound, spec, resolver, ctx),
        Entry::NormRmsnormGemmaBf16 => norm::dispatch_rmsnorm_gemma(bound, spec, resolver, ctx),
        Entry::RopeRopePartialBf16 => rope::dispatch_rope_partial(bound, spec, ctx),
        Entry::LayoutSplitQGateBf16 => layout::dispatch_split_q_gate(bound, ctx),
        Entry::MlpSigmoidGateInplaceBf16 => dense::dispatch_sigmoid_gate(bound, ctx),
        Entry::SsmCausalConv1dUpdateBatchedBf16 => recurrent::dispatch_conv_update(
            bound,
            spec,
            resolver,
            ctx,
            gdn,
        ),
        Entry::SsmCausalConv1dPrefillBatchedBf16 => recurrent::dispatch_conv_prefill(
            bound,
            spec,
            resolver,
            ctx,
            attn,
            gdn,
        ),
        Entry::SsmQwenGdnPostConvPrepBf16 => recurrent::dispatch_gdn_prep(
            bound,
            spec,
            resolver,
            ctx,
            gdn,
        ),
        Entry::SsmRecurrentGatedDeltaStepBatchedStateBf16 => recurrent::dispatch_delta_step(
            bound,
            spec,
            ctx,
            gdn,
        ),
        Entry::SsmChunkGatedDeltaPrefillBatched => recurrent::dispatch_delta_prefill(
            bound,
            spec,
            frame,
            resolver,
            ctx,
            attn,
            gdn,
        ),
        Entry::SsmChunkGatedDeltaPrefillBatchedStateBf16 => recurrent::dispatch_delta_prefill_bf16(
            bound,
            spec,
            frame,
            resolver,
            ctx,
            attn,
            gdn,
        ),
        Entry::NormRmsnormGatedFp32InBf16 => norm::dispatch_rmsnorm_gated(
            bound,
            spec,
            resolver,
            ctx,
            gdn,
        ),
        Entry::NormScalarMulBf16 => norm::dispatch_scalar_mul(bound, spec, ctx),
        Entry::MlpGegluTanhBf16 => dense::dispatch_geglu(bound, ctx),
        Entry::AttnLogitSoftcapBf16 => attention::dispatch_logit_softcap(bound, ctx),
        Entry::AttnQkvPackedQkNormRopeVnormWriteKvBf16 => attention::dispatch_qkv_packed(
            bound,
            ctx,
            attn,
        ),
        Entry::RopeQkRmsnormRopeBf16Rounded => rope::dispatch_qk_rounded(bound, ctx, attn),
        Entry::AttnFlashinferPrefill => attention::dispatch_planless_prefill(bound, ctx, attn),
        Entry::AttnNaivePaged => attention::dispatch_naive_paged(bound, ctx, attn),
        Entry::LayoutTransposeBf16NldToLnd => layout::dispatch_transpose(bound, ctx),
        Entry::NormRmsnormResidualAddScaleRmsnormBf16 => norm::dispatch_landing(bound, spec, ctx),
        Entry::NormRmsnormResidualAddBf16 => norm::dispatch_rmsnorm_residual_add(bound, ctx),
        Entry::MlpChunkedGegluTanhBf16 => dense::dispatch_chunked_geglu(bound, ctx),
        Entry::NormRmsnormNoScaleBf16 => norm::dispatch_rmsnorm_no_scale(bound, spec, ctx),
    }
}

/// A launch with no arm is refused, and the refusal names its kernel.
pub proof fn law_a_missing_arm_is_refused_by_name<R: Resolver>(
    b: BoundView,
    s: LaunchSpecView,
    frame: Frame,
    r: R,
    c: &DispatchCtx,
    attn: Option<&AttnCtx>,
    gdn: Option<&GdnCtx>,
)
    requires
        forall|e: Entry| #[trigger] symbols::symbol_of(e) != b.kernel,
    ensures
        dispatched(b, s, frame, r, c, attn, gdn) == Err::<ActionView, DispatchRefusalView>(
            DispatchRefusalView::NoArm(b.kernel),
        ),
{
}

/// A dispatched launch calls the entry its own kernel names, and no other.
pub proof fn law_an_action_calls_its_own_kernel<R: Resolver>(
    b: BoundView,
    s: LaunchSpecView,
    frame: Frame,
    r: R,
    c: &DispatchCtx,
    attn: Option<&AttnCtx>,
    gdn: Option<&GdnCtx>,
)
    ensures
        dispatched(b, s, frame, r, c, attn, gdn) matches Ok(action) ==> symbols::symbol_of(
            action.entry,
        ) == b.kernel,
{
}

/// The entries whose arms read the fire's attention context.
pub open spec fn reads_attention(e: Entry) -> bool {
    match e {
        Entry::AttnQkvDecodeQkNormRopeWriteKvBf16
        | Entry::AttnDispatchFlashinferDecode
        | Entry::AttnWriteKvToPages
        | Entry::AttnDequantKvCacheLayerToBf16Active
        | Entry::AttnDispatchFlashinferPrefillBf16
        | Entry::SsmCausalConv1dPrefillBatchedBf16
        | Entry::SsmChunkGatedDeltaPrefillBatched
        | Entry::SsmChunkGatedDeltaPrefillBatchedStateBf16
        | Entry::AttnQkvPackedQkNormRopeVnormWriteKvBf16
        | Entry::RopeQkRmsnormRopeBf16Rounded
        | Entry::AttnFlashinferPrefill
        | Entry::AttnNaivePaged => true,
        _ => false,
    }
}

/// The entries whose arms read the fire's linear-attention context.
pub open spec fn reads_linear_attention(e: Entry) -> bool {
    match e {
        Entry::SsmCausalConv1dUpdateBatchedBf16
        | Entry::SsmCausalConv1dPrefillBatchedBf16
        | Entry::SsmQwenGdnPostConvPrepBf16
        | Entry::SsmRecurrentGatedDeltaStepBatchedStateBf16
        | Entry::SsmChunkGatedDeltaPrefillBatched
        | Entry::SsmChunkGatedDeltaPrefillBatchedStateBf16
        | Entry::NormRmsnormGatedFp32InBf16 => true,
        _ => false,
    }
}

/// A launch whose arm reads a context the fire does not have is refused, and
/// an arm that does not read one answers alike with it and without it.
pub proof fn law_contexts_are_needed_exactly_where_read<R: Resolver>(
    e: Entry,
    b: BoundView,
    s: LaunchSpecView,
    frame: Frame,
    r: R,
    c: &DispatchCtx,
    attn: Option<&AttnCtx>,
    gdn: Option<&GdnCtx>,
)
    ensures
        reads_attention(e) ==> arm_outcome(e, b, s, frame, r, c, None, gdn) is Err,
        reads_linear_attention(e) ==> arm_outcome(e, b, s, frame, r, c, attn, None) is Err,
        !reads_attention(e) ==> arm_outcome(e, b, s, frame, r, c, attn, gdn) == arm_outcome(
            e,
            b,
            s,
            frame,
            r,
            c,
            None,
            gdn,
        ),
        !reads_linear_attention(e) ==> arm_outcome(e, b, s, frame, r, c, attn, gdn)
            == arm_outcome(e, b, s, frame, r, c, attn, None),
{
}

/// Staging copies every row of its input's two-byte elements, and nothing when
/// the input and the output share a buffer.
pub proof fn law_staging_moves_every_row(b: BoundView, dst: int, src: int)
    requires
        arm::rows_fit(b),
    ensures
        b.args[dst].ptr == b.args[src].ptr ==> arm::stage(b, dst, src).len() == 0,
        b.args[dst].ptr != b.args[src].ptr ==> {
            &&& arm::stage(b, dst, src).len() == 1
            &&& arm::stage(b, dst, src)[0].dst == b.args[dst].ptr
            &&& arm::stage(b, dst, src)[0].src == b.args[src].ptr
            &&& arm::stage(b, dst, src)[0].bytes == arm::rows(b) * b.args[src].width * 2
        },
{
    let r = arm::rows(b);
    let w = b.args[src].width as int;
    assert(0 <= r * w * 2 <= u64::MAX) by (nonlinear_arith)
        requires
            0 <= r <= 0x7fff_ffff,
            0 <= w <= 0xffff_ffff,
    ;
}

/// No dispatched launch copies a buffer onto itself.
pub proof fn law_staging_moves_only_between_buffers<R: Resolver>(
    b: BoundView,
    s: LaunchSpecView,
    frame: Frame,
    r: R,
    c: &DispatchCtx,
    attn: Option<&AttnCtx>,
    gdn: Option<&GdnCtx>,
    k: int,
)
    ensures
        dispatched(b, s, frame, r, c, attn, gdn) matches Ok(action) ==> 0 <= k
            < action.copies.len() ==> action.copies[k].dst != action.copies[k].src,
{
}

} // verus!
