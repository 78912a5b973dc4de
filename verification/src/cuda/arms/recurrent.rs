//! The linear-attention recurrences and their convolutions.

use crate::cuda::action;
use crate::cuda::action::{
    launched, DispatchAction, DispatchRefusal, Entry, Operand, Operands, Outcome,
};
use crate::cuda::arm;
use crate::cuda::arm::{
    need, need_attention, need_linear, need_output, need_slab, need_state, row_count, text2,
    weight,
};
use crate::cuda::bind;
use crate::cuda::bind::{BoundLaunch, BoundView};
use crate::cuda::context::{AttnCtx, DispatchCtx, Frame, GdnCtx};
use crate::cuda::plan::{LaunchSpec, LaunchSpecView};
use crate::cuda::resolver;
use crate::cuda::resolver::Resolver;
use vstd::prelude::*;

verus! {

/// The convolution's bias rides its weight's name; a checkpoint may hold none.
pub open spec fn bias_of<R: Resolver>(s: LaunchSpecView, r: R) -> u64 {
    match s.weight {
        None => 0,
        Some(name) => match r.weight_at(name + "_bias"@) {
            Some(address) => address,
            None => 0,
        },
    }
}

/// The convolution's bias, zero for none.
fn conv_bias<R: Resolver>(spec: &LaunchSpec, resolver: &mut R) -> (bias: u64)
    ensures
        bias == bias_of(spec@, *old(resolver)),
        resolver::same_answers(*old(resolver), *final(resolver)),
{
    match &spec.weight {
        None => 0,
        Some(name) => {
            let bias_name = text2(name.as_str(), "_bias");
            match resolver.weight(bias_name.as_str()) {
                Some(address) => address,
                None => 0,
            }
        },
    }
}

/// `[x, y, conv_weight]`: one decode step of the convolution over the layer's
/// slab.
pub open spec fn conv_update<R: Resolver>(
    b: BoundView,
    s: LaunchSpecView,
    r: R,
    c: &DispatchCtx,
    gdn: Option<&GdnCtx>,
) -> Outcome {
    if b.args.len() != 3 {
        Err(arm::wrong_count(b, 3))
    } else {
        match arm::linear_attention(b, gdn) {
            Err(e) => Err(e),
            Ok(g) => {
                match arm::state_layer(b, s) {
                    Err(e) => Err(e),
                    Ok(l) => {
                        let bias = bias_of(s, r);
                        match arm::slab(b, g.conv_state@, l, "conv"@) {
                            Err(e) => Err(e),
                            Ok(state) => {
                                arm::launch_of(
                                    Entry::SsmCausalConv1dUpdateBatchedBf16,
                                    Seq::<Operand>::empty()
                                        .push(arm::addr_of(b, 0))
                                        .push(arm::addr_of(b, 2))
                                        .push(Operand::Addr(bias))
                                        .push(Operand::Addr(state))
                                        .push(Operand::Addr(g.slot_ids_d))
                                        .push(Operand::Long(g.conv_stride_elems))
                                        .push(arm::addr_of(b, 1))
                                        .push(arm::row_operand(b))
                                        .push(Operand::Int(g.conv_dim))
                                        .push(Operand::Int(g.conv_k))
                                        .push(Operand::Addr(c.stream)),
                                )
                            },
                        }
                    },
                }
            },
        }
    }
}

pub(crate) fn dispatch_conv_update<R: Resolver>(
    b: &BoundLaunch<'_>,
    spec: &LaunchSpec,
    resolver: &mut R,
    ctx: &DispatchCtx,
    gdn: Option<&GdnCtx>,
) -> (result: Result<DispatchAction, DispatchRefusal>)
    requires
        arm::rows_fit(b@),
    ensures
        action::outcome_of(result) == conv_update(b@, spec@, *old(resolver), ctx, gdn),
        resolver::same_answers(*old(resolver), *final(resolver)),
{
    need(b, 3)?;
    let g = need_linear(b, gdn)?;
    let l: usize = need_state(b, spec)?;
    let bias: u64 = conv_bias(spec, resolver);
    let state: u64 = need_slab(b, &g.conv_state, l, "conv")?;
    let ops = Operands::new()
        .addr(b.args[0].ptr)
        .addr(b.args[2].ptr)
        .addr(bias)
        .addr(state)
        .addr(g.slot_ids_d)
        .with(Operand::Long(g.conv_stride_elems))
        .addr(b.args[1].ptr)
        .num(row_count(b))
        .num(g.conv_dim)
        .num(g.conv_k)
        .addr(ctx.stream);
    Ok(launched(Entry::SsmCausalConv1dUpdateBatchedBf16, ops))
}

/// `[x, y, conv_weight]`: the prefill walk over the fire's query CSR; the
/// requests come from the attention context.
pub open spec fn conv_prefill<R: Resolver>(
    b: BoundView,
    s: LaunchSpecView,
    r: R,
    c: &DispatchCtx,
    attn: Option<&AttnCtx>,
    gdn: Option<&GdnCtx>,
) -> Outcome {
    if b.args.len() != 3 {
        Err(arm::wrong_count(b, 3))
    } else {
        match arm::linear_attention(b, gdn) {
            Err(e) => Err(e),
            Ok(g) => {
                match arm::attention(b, attn) {
                    Err(e) => Err(e),
                    Ok(a) => {
                        match arm::state_layer(b, s) {
                            Err(e) => Err(e),
                            Ok(l) => {
                                let bias = bias_of(s, r);
                                match arm::slab(b, g.conv_state@, l, "conv"@) {
                                    Err(e) => Err(e),
                                    Ok(state) => {
                                        arm::launch_of(
                                            Entry::SsmCausalConv1dPrefillBatchedBf16,
                                            Seq::<Operand>::empty()
                                                .push(arm::addr_of(b, 0))
                                                .push(arm::addr_of(b, 2))
                                                .push(Operand::Addr(bias))
                                                .push(arm::addr_of(b, 1))
                                                .push(Operand::Addr(state))
                                                .push(Operand::Addr(g.slot_ids_d))
                                                .push(Operand::Addr(a.qo_indptr_d))
                                                .push(Operand::Long(g.conv_stride_elems))
                                                .push(Operand::Int(a.num_requests))
                                                .push(Operand::Int(g.conv_dim))
                                                .push(Operand::Int(g.conv_k))
                                                .push(Operand::Addr(c.stream))
                                                .push(Operand::Flag(g.write_state))
                                                .push(Operand::Addr(0))
                                                .push(Operand::Addr(0)),
                                        )
                                    },
                                }
                            },
                        }
                    },
                }
            },
        }
    }
}

pub(crate) fn dispatch_conv_prefill<R: Resolver>(
    b: &BoundLaunch<'_>,
    spec: &LaunchSpec,
    resolver: &mut R,
    ctx: &DispatchCtx,
    attn: Option<&AttnCtx>,
    gdn: Option<&GdnCtx>,
) -> (result: Result<DispatchAction, DispatchRefusal>)
    ensures
        action::outcome_of(result) == conv_prefill(b@, spec@, *old(resolver), ctx, attn, gdn),
        resolver::same_answers(*old(resolver), *final(resolver)),
{
    need(b, 3)?;
    let g = need_linear(b, gdn)?;
    let a = need_attention(b, attn)?;
    let l: usize = need_state(b, spec)?;
    let bias: u64 = conv_bias(spec, resolver);
    let state: u64 = need_slab(b, &g.conv_state, l, "conv")?;
    let ops = Operands::new()
        .addr(b.args[0].ptr)
        .addr(b.args[2].ptr)
        .addr(bias)
        .addr(b.args[1].ptr)
        .addr(state)
        .addr(g.slot_ids_d)
        .addr(a.qo_indptr_d)
        .with(Operand::Long(g.conv_stride_elems))
        .num(a.num_requests)
        .num(g.conv_dim)
        .num(g.conv_k)
        .addr(ctx.stream)
        .flag(g.write_state)
        .addr(0)
        .addr(0);
    Ok(launched(Entry::SsmCausalConv1dPrefillBatchedBf16, ops))
}

/// `[qkv, a, b, q, k, v, g, beta]`: three inputs and five results; the two
/// parameters are the operation's.
pub open spec fn gdn_prep<R: Resolver>(
    b: BoundView,
    s: LaunchSpecView,
    r: R,
    c: &DispatchCtx,
    gdn: Option<&GdnCtx>,
) -> Outcome {
    if b.args.len() != 8 {
        Err(arm::wrong_count(b, 8))
    } else {
        match arm::linear_attention(b, gdn) {
            Err(e) => Err(e),
            Ok(g) => {
                match arm::named_weight(b, s.weight, r) {
                    Err(e) => Err(e),
                    Ok(a_log) => {
                        match arm::named_weight(b, s.weight2, r) {
                            Err(e) => Err(e),
                            Ok(dt_bias) => {
                                arm::launch_of(
                                    Entry::SsmQwenGdnPostConvPrepBf16,
                                    Seq::<Operand>::empty()
                                        .push(arm::addr_of(b, 0))
                                        .push(arm::addr_of(b, 1))
                                        .push(arm::addr_of(b, 2))
                                        .push(Operand::Addr(a_log))
                                        .push(Operand::Addr(dt_bias))
                                        .push(arm::addr_of(b, 3))
                                        .push(arm::addr_of(b, 4))
                                        .push(arm::addr_of(b, 5))
                                        .push(arm::addr_of(b, 6))
                                        .push(arm::addr_of(b, 7))
                                        .push(arm::row_operand(b))
                                        .push(Operand::Int(g.k_h))
                                        .push(Operand::Int(g.v_h))
                                        .push(Operand::Int(g.k_d))
                                        .push(Operand::Int(g.v_d))
                                        .push(Operand::Int(g.conv_dim))
                                        .push(Operand::Addr(c.stream)),
                                )
                            },
                        }
                    },
                }
            },
        }
    }
}

pub(crate) fn dispatch_gdn_prep<R: Resolver>(
    b: &BoundLaunch<'_>,
    spec: &LaunchSpec,
    resolver: &mut R,
    ctx: &DispatchCtx,
    gdn: Option<&GdnCtx>,
) -> (result: Result<DispatchAction, DispatchRefusal>)
    requires
        arm::rows_fit(b@),
    ensures
        action::outcome_of(result) == gdn_prep(b@, spec@, *old(resolver), ctx, gdn),
        resolver::same_answers(*old(resolver), *final(resolver)),
{
    need(b, 8)?;
    let g = need_linear(b, gdn)?;
    let a_log: u64 = weight(b, &spec.weight, resolver)?;
    let dt_bias: u64 = weight(b, &spec.weight2, resolver)?;
    let ops = Operands::new()
        .addr(b.args[0].ptr)
        .addr(b.args[1].ptr)
        .addr(b.args[2].ptr)
        .addr(a_log)
        .addr(dt_bias)
        .addr(b.args[3].ptr)
        .addr(b.args[4].ptr)
        .addr(b.args[5].ptr)
        .addr(b.args[6].ptr)
        .addr(b.args[7].ptr)
        .num(row_count(b))
        .num(g.k_h)
        .num(g.v_h)
        .num(g.k_d)
        .num(g.v_d)
        .num(g.conv_dim)
        .addr(ctx.stream);
    Ok(launched(Entry::SsmQwenGdnPostConvPrepBf16, ops))
}

/// `[q, k, v, g, beta, out]`: the decode recurrence over the layer's slab.
pub open spec fn delta_step(
    b: BoundView,
    s: LaunchSpecView,
    c: &DispatchCtx,
    gdn: Option<&GdnCtx>,
) -> Outcome {
    if b.args.len() != 6 {
        Err(arm::wrong_count(b, 6))
    } else {
        match arm::linear_attention(b, gdn) {
            Err(e) => Err(e),
            Ok(g) => {
                match arm::state_layer(b, s) {
                    Err(e) => Err(e),
                    Ok(l) => {
                        match arm::slab(b, g.recurrent_state@, l, "recurrent"@) {
                            Err(e) => Err(e),
                            Ok(state) => {
                                arm::launch_of(
                                    Entry::SsmRecurrentGatedDeltaStepBatchedStateBf16,
                                    Seq::<Operand>::empty()
                                        .push(arm::addr_of(b, 0))
                                        .push(arm::addr_of(b, 1))
                                        .push(arm::addr_of(b, 2))
                                        .push(arm::addr_of(b, 3))
                                        .push(arm::addr_of(b, 4))
                                        .push(Operand::Addr(state))
                                        .push(Operand::Addr(g.slot_ids_d))
                                        .push(Operand::Long(g.state_stride_elems))
                                        .push(arm::addr_of(b, 5))
                                        .push(arm::row_operand(b))
                                        .push(Operand::Int(g.v_h))
                                        .push(Operand::Int(g.k_d))
                                        .push(Operand::Int(g.v_d))
                                        .push(Operand::Addr(c.stream)),
                                )
                            },
                        }
                    },
                }
            },
        }
    }
}

pub(crate) fn dispatch_delta_step(
    b: &BoundLaunch<'_>,
    spec: &LaunchSpec,
    ctx: &DispatchCtx,
    gdn: Option<&GdnCtx>,
) -> (result: Result<DispatchAction, DispatchRefusal>)
    requires
        arm::rows_fit(b@),
    ensures
        action::outcome_of(result) == delta_step(b@, spec@, ctx, gdn),
{
    need(b, 6)?;
    let g = need_linear(b, gdn)?;
    let l: usize = need_state(b, spec)?;
    let state: u64 = need_slab(b, &g.recurrent_state, l, "recurrent")?;
    let ops = Operands::new()
        .addr(b.args[0].ptr)
        .addr(b.args[1].ptr)
        .addr(b.args[2].ptr)
        .addr(b.args[3].ptr)
        .addr(b.args[4].ptr)
        .addr(state)
        .addr(g.slot_ids_d)
        .with(Operand::Long(g.state_stride_elems))
        .addr(b.args[5].ptr)
        .num(row_count(b))
        .num(g.v_h)
        .num(g.k_d)
        .num(g.v_d)
        .addr(ctx.stream);
    Ok(launched(Entry::SsmRecurrentGatedDeltaStepBatchedStateBf16, ops))
}

/// `[q, k, v, g, beta]`: the chunked prefill recurrence over a float state; the
/// result is the value the join places.
pub open spec fn delta_prefill<R: Resolver>(
    b: BoundView,
    s: LaunchSpecView,
    frame: Frame,
    r: R,
    c: &DispatchCtx,
    attn: Option<&AttnCtx>,
    gdn: Option<&GdnCtx>,
) -> Outcome {
    if b.args.len() != 5 {
        Err(arm::wrong_count(b, 5))
    } else {
        match arm::linear_attention(b, gdn) {
            Err(e) => Err(e),
            Ok(g) => {
                match arm::attention(b, attn) {
                    Err(e) => Err(e),
                    Ok(a) => {
                        match arm::state_layer(b, s) {
                            Err(e) => Err(e),
                            Ok(l) => {
                                match arm::slab(b, g.recurrent_state@, l, "recurrent"@) {
                                    Err(e) => Err(e),
                                    Ok(state) => {
                                        match arm::output(b, s, frame, r) {
                                            Err(e) => Err(e),
                                            Ok(out) => {
                                                arm::launch_of(
                                                    Entry::SsmChunkGatedDeltaPrefillBatched,
                                                    Seq::<Operand>::empty()
                                                        .push(arm::addr_of(b, 0))
                                                        .push(arm::addr_of(b, 1))
                                                        .push(arm::addr_of(b, 2))
                                                        .push(arm::addr_of(b, 3))
                                                        .push(arm::addr_of(b, 4))
                                                        .push(Operand::Addr(state))
                                                        .push(Operand::Addr(g.slot_ids_d))
                                                        .push(Operand::Addr(a.qo_indptr_d))
                                                        .push(Operand::Long(g.state_stride_elems))
                                                        .push(Operand::Addr(out.ptr))
                                                        .push(Operand::Int(a.num_requests))
                                                        .push(Operand::Int(g.k_h))
                                                        .push(Operand::Int(g.v_h))
                                                        .push(Operand::Int(g.k_d))
                                                        .push(Operand::Int(g.v_d))
                                                        .push(Operand::Addr(c.stream))
                                                        .push(Operand::Flag(g.write_state))
                                                        .push(Operand::Addr(0))
                                                        .push(Operand::Addr(0)),
                                                )
                                            },
                                        }
                                    },
                                }
                            },
                        }
                    },
                }
            },
        }
    }
}

pub(crate) fn dispatch_delta_prefill<R: Resolver>(
    b: &BoundLaunch<'_>,
    spec: &LaunchSpec,
    frame: Frame,
    resolver: &mut R,
    ctx: &DispatchCtx,
    attn: Option<&AttnCtx>,
    gdn: Option<&GdnCtx>,
) -> (result: Result<DispatchAction, DispatchRefusal>)
    requires
        bind::addressable(frame),
    ensures
        action::outcome_of(result) == delta_prefill(b@, spec@, frame, *old(resolver), ctx, attn, gdn),
        resolver::same_answers(*old(resolver), *final(resolver)),
{
    need(b, 5)?;
    let g = need_linear(b, gdn)?;
    let a = need_attention(b, attn)?;
    let l: usize = need_state(b, spec)?;
    let state: u64 = need_slab(b, &g.recurrent_state, l, "recurrent")?;
    let out = need_output(b, spec, frame, resolver)?;
    let ops = Operands::new()
        .addr(b.args[0].ptr)
        .addr(b.args[1].ptr)
        .addr(b.args[2].ptr)
        .addr(b.args[3].ptr)
        .addr(b.args[4].ptr)
        .addr(state)
        .addr(g.slot_ids_d)
        .addr(a.qo_indptr_d)
        .with(Operand::Long(g.state_stride_elems))
        .addr(out.ptr)
        .num(a.num_requests)
        .num(g.k_h)
        .num(g.v_h)
        .num(g.k_d)
        .num(g.v_d)
        .addr(ctx.stream)
        .flag(g.write_state)
        .addr(0)
        .addr(0);
    Ok(launched(Entry::SsmChunkGatedDeltaPrefillBatched, ops))
}

/// [`delta_prefill`] over a half-width state.
pub open spec fn delta_prefill_bf16<R: Resolver>(
    b: BoundView,
    s: LaunchSpecView,
    frame: Frame,
    r: R,
    c: &DispatchCtx,
    attn: Option<&AttnCtx>,
    gdn: Option<&GdnCtx>,
) -> Outcome {
    if b.args.len() != 5 {
        Err(arm::wrong_count(b, 5))
    } else {
        match arm::linear_attention(b, gdn) {
            Err(e) => Err(e),
            Ok(g) => {
                match arm::attention(b, attn) {
                    Err(e) => Err(e),
                    Ok(a) => {
                        match arm::state_layer(b, s) {
                            Err(e) => Err(e),
                            Ok(l) => {
                                match arm::slab(b, g.recurrent_state@, l, "recurrent"@) {
                                    Err(e) => Err(e),
                                    Ok(state) => {
                                        match arm::output(b, s, frame, r) {
                                            Err(e) => Err(e),
                                            Ok(out) => {
                                                arm::launch_of(
                                                    Entry::SsmChunkGatedDeltaPrefillBatchedStateBf16,
                                                    Seq::<Operand>::empty()
                                                        .push(arm::addr_of(b, 0))
                                                        .push(arm::addr_of(b, 1))
                                                        .push(arm::addr_of(b, 2))
                                                        .push(arm::addr_of(b, 3))
                                                        .push(arm::addr_of(b, 4))
                                                        .push(Operand::Addr(state))
                                                        .push(Operand::Addr(g.slot_ids_d))
                                                        .push(Operand::Addr(a.qo_indptr_d))
                                                        .push(Operand::Long(g.state_stride_elems))
                                                        .push(Operand::Addr(out.ptr))
                                                        .push(Operand::Int(a.num_requests))
                                                        .push(Operand::Int(g.k_h))
                                                        .push(Operand::Int(g.v_h))
                                                        .push(Operand::Int(g.k_d))
                                                        .push(Operand::Int(g.v_d))
                                                        .push(Operand::Addr(c.stream))
                                                        .push(Operand::Flag(g.write_state))
                                                        .push(Operand::Addr(0))
                                                        .push(Operand::Addr(0)),
                                                )
                                            },
                                        }
                                    },
                                }
                            },
                        }
                    },
                }
            },
        }
    }
}

pub(crate) fn dispatch_delta_prefill_bf16<R: Resolver>(
    b: &BoundLaunch<'_>,
    spec: &LaunchSpec,
    frame: Frame,
    resolver: &mut R,
    ctx: &DispatchCtx,
    attn: Option<&AttnCtx>,
    gdn: Option<&GdnCtx>,
) -> (result: Result<DispatchAction, DispatchRefusal>)
    requires
        bind::addressable(frame),
    ensures
        action::outcome_of(result) == delta_prefill_bf16(b@, spec@, frame, *old(resolver), ctx, attn, gdn),
        resolver::same_answers(*old(resolver), *final(resolver)),
{
    need(b, 5)?;
    let g = need_linear(b, gdn)?;
    let a = need_attention(b, attn)?;
    let l: usize = need_state(b, spec)?;
    let state: u64 = need_slab(b, &g.recurrent_state, l, "recurrent")?;
    let out = need_output(b, spec, frame, resolver)?;
    let ops = Operands::new()
        .addr(b.args[0].ptr)
        .addr(b.args[1].ptr)
        .addr(b.args[2].ptr)
        .addr(b.args[3].ptr)
        .addr(b.args[4].ptr)
        .addr(state)
        .addr(g.slot_ids_d)
        .addr(a.qo_indptr_d)
        .with(Operand::Long(g.state_stride_elems))
        .addr(out.ptr)
        .num(a.num_requests)
        .num(g.k_h)
        .num(g.v_h)
        .num(g.k_d)
        .num(g.v_d)
        .addr(ctx.stream)
        .flag(g.write_state)
        .addr(0)
        .addr(0);
    Ok(launched(Entry::SsmChunkGatedDeltaPrefillBatchedStateBf16, ops))
}

} // verus!
