//! Attention: projections, page writes and the attention itself.

use crate::cuda::action;
use crate::cuda::action::{
    launched, staged, DispatchAction, DispatchRefusal, Entry, Operand, Operands, Outcome,
};
use crate::cuda::arm;
use crate::cuda::arm::{
    element_count, heads_in, miscounted, need, need_layer, row_count, stage_one, window,
};
use crate::cuda::bind::{BoundLaunch, BoundView};
use crate::cuda::context::{AttnCtx, DispatchCtx};
use crate::cuda::launch::KvCacheLayerView;
use vstd::prelude::*;

verus! {

/// `[packed, q, k, v]`.
pub open spec fn split_qkv(
    b: BoundView,
    c: &DispatchCtx,
) -> Outcome {
    if b.args.len() != 4 {
        Err(arm::wrong_count(b, 4))
    } else {
        arm::launch_of(
            Entry::AttnSplitQkvBf16,
            Seq::<Operand>::empty()
                .push(arm::addr_of(b, 0))
                .push(arm::addr_of(b, 1))
                .push(arm::addr_of(b, 2))
                .push(arm::addr_of(b, 3))
                .push(arm::row_operand(b))
                .push(arm::width_of(b, 1))
                .push(arm::width_of(b, 2))
                .push(Operand::Addr(c.stream)),
        )
    }
}

pub(crate) fn dispatch_split_qkv(
    b: &BoundLaunch<'_>,
    ctx: &DispatchCtx,
) -> (result: Result<DispatchAction, DispatchRefusal>)
    requires
        arm::rows_fit(b@),
    ensures
        action::outcome_of(result) == split_qkv(b@, ctx),
{
    need(b, 4)?;
    let ops = Operands::new()
        .addr(b.args[0].ptr)
        .addr(b.args[1].ptr)
        .addr(b.args[2].ptr)
        .addr(b.args[3].ptr)
        .num(row_count(b))
        .num(b.args[1].width as i32)
        .num(b.args[2].width as i32)
        .addr(ctx.stream);
    Ok(launched(Entry::AttnSplitQkvBf16, ops))
}

/// `[k, v]`: the layer view, the CSRs and the fire scalars are the fire's.
pub open spec fn write_kv(
    b: BoundView,
    c: &DispatchCtx,
    attn: Option<&AttnCtx>,
) -> Outcome {
    if b.args.len() != 2 {
        Err(arm::wrong_count(b, 2))
    } else {
        match arm::attention_layer(b, attn) {
            Err(e) => Err(e),
            Ok((a, layer)) => {
                arm::launch_of(
                    Entry::AttnWriteKvToPages,
                    Seq::<Operand>::empty()
                        .push(Operand::Layer(layer))
                        .push(arm::addr_of(b, 0))
                        .push(arm::addr_of(b, 1))
                        .push(Operand::Addr(a.qo_indptr_d))
                        .push(Operand::Addr(a.kv_page_indices_d))
                        .push(Operand::Addr(a.kv_page_indptr_d))
                        .push(Operand::Addr(a.kv_last_page_lens_d))
                        .push(arm::row_operand(b))
                        .push(Operand::Int(a.num_requests))
                        .push(Operand::Addr(c.stream))
                        .push(Operand::Addr(a.row_valid_d))
                        .push(Operand::Int(a.first_token)),
                )
            },
        }
    }
}

pub(crate) fn dispatch_write_kv(
    b: &BoundLaunch<'_>,
    ctx: &DispatchCtx,
    attn: Option<&AttnCtx>,
) -> (result: Result<DispatchAction, DispatchRefusal>)
    requires
        arm::rows_fit(b@),
    ensures
        action::outcome_of(result) == write_kv(b@, ctx, attn),
{
    need(b, 2)?;
    let (a, layer) = need_layer(b, attn)?;
    let ops = Operands::new()
        .with(Operand::Layer(layer))
        .addr(b.args[0].ptr)
        .addr(b.args[1].ptr)
        .addr(a.qo_indptr_d)
        .addr(a.kv_page_indices_d)
        .addr(a.kv_page_indptr_d)
        .addr(a.kv_last_page_lens_d)
        .num(row_count(b))
        .num(a.num_requests)
        .addr(ctx.stream)
        .addr(a.row_valid_d)
        .num(a.first_token);
    Ok(launched(Entry::AttnWriteKvToPages, ops))
}

/// No operands: everything is the fire's. On a native cache the kernel does
/// nothing, and it is launched all the same.
pub open spec fn dequant_kv(
    b: BoundView,
    c: &DispatchCtx,
    attn: Option<&AttnCtx>,
) -> Outcome {
    if b.args.len() != 0 {
        Err(arm::wrong_count(b, 0))
    } else {
        match arm::attention_layer(b, attn) {
            Err(e) => Err(e),
            Ok((a, layer)) => {
                arm::launch_of(
                    Entry::AttnDequantKvCacheLayerToBf16Active,
                    Seq::<Operand>::empty()
                        .push(Operand::Layer(layer))
                        .push(Operand::Addr(a.kv_page_indices_d))
                        .push(Operand::Int(a.num_pages_in_batch))
                        .push(Operand::Addr(c.stream)),
                )
            },
        }
    }
}

pub(crate) fn dispatch_dequant_kv(
    b: &BoundLaunch<'_>,
    ctx: &DispatchCtx,
    attn: Option<&AttnCtx>,
) -> (result: Result<DispatchAction, DispatchRefusal>)
    ensures
        action::outcome_of(result) == dequant_kv(b@, ctx, attn),
{
    need(b, 0)?;
    let (a, layer) = need_layer(b, attn)?;
    let ops = Operands::new()
        .with(Operand::Layer(layer))
        .addr(a.kv_page_indices_d)
        .num(a.num_pages_in_batch)
        .addr(ctx.stream);
    Ok(launched(Entry::AttnDequantKvCacheLayerToBf16Active, ops))
}

/// `[x_in, x_out]`: the deployment's final softcap, in place over the staged
/// logits.
pub open spec fn logit_softcap(
    b: BoundView,
    c: &DispatchCtx,
) -> Outcome {
    if b.args.len() != 2 {
        Err(arm::wrong_count(b, 2))
    } else {
        arm::staged_launch(
            arm::stage(b, 1, 0),
            Entry::AttnLogitSoftcapBf16,
            Seq::<Operand>::empty()
                .push(arm::addr_of(b, 1))
                .push(Operand::Float(c.final_logit_softcap))
                .push(Operand::Count(arm::elements_of(b, 1) as u64))
                .push(Operand::Addr(c.stream)),
        )
    }
}

pub(crate) fn dispatch_logit_softcap(
    b: &BoundLaunch<'_>,
    ctx: &DispatchCtx,
) -> (result: Result<DispatchAction, DispatchRefusal>)
    requires
        arm::rows_fit(b@),
    ensures
        action::outcome_of(result) == logit_softcap(b@, ctx),
{
    need(b, 2)?;
    let ops = Operands::new()
        .addr(b.args[1].ptr)
        .float(ctx.final_logit_softcap)
        .with(Operand::Count(element_count(b, 1)))
        .addr(ctx.stream);
    let copies = stage_one(b, 1, 0);
    Ok(staged(copies, Entry::AttnLogitSoftcapBf16, ops))
}

/// `[packed, q_out, q_norm, k_norm]`: split, norm, rotate and write keys and
/// values straight to the pages; only the query survives as a value.
pub open spec fn qkv_packed(
    b: BoundView,
    c: &DispatchCtx,
    attn: Option<&AttnCtx>,
) -> Outcome {
    if b.args.len() != 4 {
        Err(arm::wrong_count(b, 4))
    } else {
        match arm::attention_layer(b, attn) {
            Err(e) => Err(e),
            Ok((a, layer)) => {
                arm::launch_of(
                    Entry::AttnQkvPackedQkNormRopeVnormWriteKvBf16,
                    Seq::<Operand>::empty()
                        .push(arm::addr_of(b, 0))
                        .push(arm::addr_of(b, 1))
                        .push(Operand::Addr(layer.k_pages))
                        .push(Operand::Addr(layer.v_pages))
                        .push(arm::addr_of(b, 2))
                        .push(arm::addr_of(b, 3))
                        .push(Operand::Addr(c.positions))
                        .push(Operand::Addr(a.kv_page_indices_d))
                        .push(Operand::Addr(a.kv_page_indptr_d))
                        .push(Operand::Addr(a.kv_last_page_lens_d))
                        .push(Operand::Addr(a.row_valid_d))
                        .push(arm::row_operand(b))
                        .push(arm::heads_of(b, 1, layer.head_dim))
                        .push(Operand::Int(layer.num_kv_heads))
                        .push(Operand::Int(layer.head_dim))
                        .push(Operand::Int(layer.page_size))
                        .push(Operand::Flag(layer.hnd_layout))
                        .push(Operand::Float(c.rope_theta))
                        .push(Operand::Float(c.rms_eps))
                        .push(Operand::Addr(c.stream)),
                )
            },
        }
    }
}

pub(crate) fn dispatch_qkv_packed(
    b: &BoundLaunch<'_>,
    ctx: &DispatchCtx,
    attn: Option<&AttnCtx>,
) -> (result: Result<DispatchAction, DispatchRefusal>)
    requires
        arm::rows_fit(b@),
    ensures
        action::outcome_of(result) == qkv_packed(b@, ctx, attn),
{
    need(b, 4)?;
    let (a, layer) = need_layer(b, attn)?;
    let ops = Operands::new()
        .addr(b.args[0].ptr)
        .addr(b.args[1].ptr)
        .addr(layer.k_pages)
        .addr(layer.v_pages)
        .addr(b.args[2].ptr)
        .addr(b.args[3].ptr)
        .addr(ctx.positions)
        .addr(a.kv_page_indices_d)
        .addr(a.kv_page_indptr_d)
        .addr(a.kv_last_page_lens_d)
        .addr(a.row_valid_d)
        .num(row_count(b))
        .num(heads_in(b.args[1].width, layer.head_dim))
        .num(layer.num_kv_heads)
        .num(layer.head_dim)
        .num(layer.page_size)
        .flag(layer.hnd_layout)
        .float(ctx.rope_theta)
        .float(ctx.rms_eps)
        .addr(ctx.stream);
    Ok(launched(Entry::AttnQkvPackedQkNormRopeVnormWriteKvBf16, ops))
}

/// `[q, o]`: the prefill that plans inside the launch, from the host CSRs.
pub open spec fn planless_prefill(
    b: BoundView,
    c: &DispatchCtx,
    attn: Option<&AttnCtx>,
) -> Outcome {
    if b.args.len() != 2 {
        Err(arm::wrong_count(b, 2))
    } else {
        match arm::attention_layer(b, attn) {
            Err(e) => Err(e),
            Ok((a, layer)) => {
                arm::launch_of(
                    Entry::AttnFlashinferPrefill,
                    Seq::<Operand>::empty()
                        .push(arm::addr_of(b, 0))
                        .push(Operand::Layer(layer))
                        .push(arm::addr_of(b, 1))
                        .push(Operand::Addr(a.qo_indptr_d))
                        .push(Operand::Addr(a.kv_page_indices_d))
                        .push(Operand::Addr(a.kv_page_indptr_d))
                        .push(Operand::Addr(a.kv_last_page_lens_d))
                        .push(Operand::Addr(a.qo_indptr_h))
                        .push(Operand::Addr(a.kv_page_indptr_h))
                        .push(arm::row_operand(b))
                        .push(Operand::Int(a.num_requests))
                        .push(arm::heads_of(b, 0, layer.head_dim))
                        .push(Operand::Workspace(a.workspace))
                        .push(Operand::Addr(c.stream))
                        .push(Operand::Int(arm::window_of(b, a)))
                        .push(Operand::Float(a.logits_soft_cap))
                        .push(Operand::Float(a.sm_scale))
                        .push(Operand::Addr(a.lse_out_d)),
                )
            },
        }
    }
}

pub(crate) fn dispatch_planless_prefill(
    b: &BoundLaunch<'_>,
    ctx: &DispatchCtx,
    attn: Option<&AttnCtx>,
) -> (result: Result<DispatchAction, DispatchRefusal>)
    requires
        arm::rows_fit(b@),
    ensures
        action::outcome_of(result) == planless_prefill(b@, ctx, attn),
{
    need(b, 2)?;
    let (a, layer) = need_layer(b, attn)?;
    let ops = Operands::new()
        .addr(b.args[0].ptr)
        .with(Operand::Layer(layer))
        .addr(b.args[1].ptr)
        .addr(a.qo_indptr_d)
        .addr(a.kv_page_indices_d)
        .addr(a.kv_page_indptr_d)
        .addr(a.kv_last_page_lens_d)
        .addr(a.qo_indptr_h)
        .addr(a.kv_page_indptr_h)
        .num(row_count(b))
        .num(a.num_requests)
        .num(heads_in(b.args[0].width, layer.head_dim))
        .with(Operand::Workspace(a.workspace))
        .addr(ctx.stream)
        .num(window(b, a))
        .float(a.logits_soft_cap)
        .float(a.sm_scale)
        .addr(a.lse_out_d);
    Ok(launched(Entry::AttnFlashinferPrefill, ops))
}

/// `[q, o]`: the naive paged prefill, for the head widths the planned one
/// refuses.
pub open spec fn naive_paged(
    b: BoundView,
    c: &DispatchCtx,
    attn: Option<&AttnCtx>,
) -> Outcome {
    if b.args.len() != 2 {
        Err(arm::wrong_count(b, 2))
    } else {
        match arm::attention_layer(b, attn) {
            Err(e) => Err(e),
            Ok((a, layer)) => {
                arm::launch_of(
                    Entry::AttnNaivePaged,
                    Seq::<Operand>::empty()
                        .push(arm::addr_of(b, 0))
                        .push(Operand::Layer(layer))
                        .push(arm::addr_of(b, 1))
                        .push(Operand::Addr(a.qo_indptr_d))
                        .push(Operand::Addr(a.kv_page_indices_d))
                        .push(Operand::Addr(a.kv_page_indptr_d))
                        .push(Operand::Addr(a.kv_last_page_lens_d))
                        .push(arm::row_operand(b))
                        .push(Operand::Int(a.num_requests))
                        .push(Operand::Int(a.num_pages_in_batch))
                        .push(arm::heads_of(b, 0, layer.head_dim))
                        .push(Operand::Addr(c.stream))
                        .push(Operand::Int(arm::window_of(b, a)))
                        .push(Operand::Float(a.sm_scale)),
                )
            },
        }
    }
}

pub(crate) fn dispatch_naive_paged(
    b: &BoundLaunch<'_>,
    ctx: &DispatchCtx,
    attn: Option<&AttnCtx>,
) -> (result: Result<DispatchAction, DispatchRefusal>)
    requires
        arm::rows_fit(b@),
    ensures
        action::outcome_of(result) == naive_paged(b@, ctx, attn),
{
    need(b, 2)?;
    let (a, layer) = need_layer(b, attn)?;
    let ops = Operands::new()
        .addr(b.args[0].ptr)
        .with(Operand::Layer(layer))
        .addr(b.args[1].ptr)
        .addr(a.qo_indptr_d)
        .addr(a.kv_page_indices_d)
        .addr(a.kv_page_indptr_d)
        .addr(a.kv_last_page_lens_d)
        .num(row_count(b))
        .num(a.num_requests)
        .num(a.num_pages_in_batch)
        .num(heads_in(b.args[0].width, layer.head_dim))
        .addr(ctx.stream)
        .num(window(b, a))
        .float(a.sm_scale);
    Ok(launched(Entry::AttnNaivePaged, ops))
}

/// Where a planned dispatch writes: the operand it records, or, for `[q]`
/// alone, the slot the guard around it owns.
pub open spec fn attention_output(b: BoundView, a: &AttnCtx) -> u64 {
    if b.args.len() == 1 {
        a.o_out
    } else {
        b.args[1].ptr
    }
}

/// `[q]` or `[q, o]`: the planned decode over the layer's pages.
pub open spec fn planned_decode(
    b: BoundView,
    c: &DispatchCtx,
    attn: Option<&AttnCtx>,
) -> Outcome {
    match arm::attention_layer(b, attn) {
        Err(e) => Err(e),
        Ok((a, layer)) => if b.args.len() != 1 && b.args.len() != 2 {
            Err(arm::wrong_count(b, 1))
        } else {
            arm::launch_of(
                Entry::AttnDispatchFlashinferDecode,
                Seq::<Operand>::empty()
                    .push(Operand::Addr(a.decode_plan))
                    .push(arm::addr_of(b, 0))
                    .push(Operand::Layer(layer))
                    .push(Operand::Addr(attention_output(b, a)))
                    .push(Operand::Addr(a.kv_page_indices_d))
                    .push(Operand::Addr(a.kv_page_indptr_d))
                    .push(Operand::Addr(a.kv_last_page_lens_d))
                    .push(Operand::Workspace(a.workspace))
                    .push(Operand::Addr(c.stream))
                    .push(Operand::Int(arm::window_of(b, a)))
                    .push(Operand::Float(a.logits_soft_cap))
                    .push(Operand::Float(a.sm_scale))
                    .push(Operand::Addr(a.lse_out_d)),
            )
        },
    }
}

pub(crate) fn dispatch_planned_decode(
    b: &BoundLaunch<'_>,
    ctx: &DispatchCtx,
    attn: Option<&AttnCtx>,
) -> (result: Result<DispatchAction, DispatchRefusal>)
    ensures
        action::outcome_of(result) == planned_decode(b@, ctx, attn),
{
    let (a, layer) = need_layer(b, attn)?;
    let o: u64 = if b.args.len() == 1 {
        a.o_out
    } else if b.args.len() == 2 {
        b.args[1].ptr
    } else {
        return Err(miscounted(b, 1));
    };
    let ops = Operands::new()
        .addr(a.decode_plan)
        .addr(b.args[0].ptr)
        .with(Operand::Layer(layer))
        .addr(o)
        .addr(a.kv_page_indices_d)
        .addr(a.kv_page_indptr_d)
        .addr(a.kv_last_page_lens_d)
        .with(Operand::Workspace(a.workspace))
        .addr(ctx.stream)
        .num(window(b, a))
        .float(a.logits_soft_cap)
        .float(a.sm_scale)
        .addr(a.lse_out_d);
    Ok(launched(Entry::AttnDispatchFlashinferDecode, ops))
}

/// `[q]` or `[q, o]`: the planned prefill over the layer's bf16 pages.
pub open spec fn planned_prefill(
    b: BoundView,
    c: &DispatchCtx,
    attn: Option<&AttnCtx>,
) -> Outcome {
    match arm::attention_layer(b, attn) {
        Err(e) => Err(e),
        Ok((a, layer)) => if b.args.len() != 1 && b.args.len() != 2 {
            Err(arm::wrong_count(b, 1))
        } else {
            arm::launch_of(
                Entry::AttnDispatchFlashinferPrefillBf16,
                Seq::<Operand>::empty()
                    .push(Operand::Addr(a.prefill_plan))
                    .push(arm::addr_of(b, 0))
                    .push(Operand::Addr(layer.k_bf16_pages))
                    .push(Operand::Addr(layer.v_bf16_pages))
                    .push(Operand::Addr(attention_output(b, a)))
                    .push(Operand::Addr(a.qo_indptr_d))
                    .push(Operand::Addr(a.kv_page_indices_d))
                    .push(Operand::Addr(a.kv_page_indptr_d))
                    .push(Operand::Addr(a.kv_last_page_lens_d))
                    .push(Operand::Workspace(a.workspace))
                    .push(Operand::Addr(c.stream))
                    .push(Operand::Float(a.logits_soft_cap))
                    .push(Operand::Float(a.sm_scale))
                    .push(Operand::Addr(a.lse_out_d)),
            )
        },
    }
}

pub(crate) fn dispatch_planned_prefill(
    b: &BoundLaunch<'_>,
    ctx: &DispatchCtx,
    attn: Option<&AttnCtx>,
) -> (result: Result<DispatchAction, DispatchRefusal>)
    ensures
        action::outcome_of(result) == planned_prefill(b@, ctx, attn),
{
    let (a, layer) = need_layer(b, attn)?;
    let o: u64 = if b.args.len() == 1 {
        a.o_out
    } else if b.args.len() == 2 {
        b.args[1].ptr
    } else {
        return Err(miscounted(b, 1));
    };
    let ops = Operands::new()
        .addr(a.prefill_plan)
        .addr(b.args[0].ptr)
        .addr(layer.k_bf16_pages)
        .addr(layer.v_bf16_pages)
        .addr(o)
        .addr(a.qo_indptr_d)
        .addr(a.kv_page_indices_d)
        .addr(a.kv_page_indptr_d)
        .addr(a.kv_last_page_lens_d)
        .with(Operand::Workspace(a.workspace))
        .addr(ctx.stream)
        .float(a.logits_soft_cap)
        .float(a.sm_scale)
        .addr(a.lse_out_d);
    Ok(launched(Entry::AttnDispatchFlashinferPrefillBf16, ops))
}

/// The quotient a kernel's integer division gives: towards zero.
pub open spec fn toward_zero(n: int, d: int) -> int {
    if n >= 0 {
        n / d
    } else {
        -((-n) / d)
    }
}

/// Query heads of a packed projection: what the key and value heads leave of
/// its width.
pub open spec fn query_heads(b: BoundView, layer: KvCacheLayerView) -> int {
    toward_zero(
        b.args[0].width - 2 * layer.num_kv_heads * layer.head_dim,
        arm::at_least_one(layer.head_dim),
    )
}

/// Every step of [`query_heads`] stays in 32 bits.
pub open spec fn query_heads_fit(b: BoundView, layer: KvCacheLayerView) -> bool {
    &&& arm::width_fits(b, 0)
    &&& i32::MIN <= 2 * layer.num_kv_heads <= i32::MAX
    &&& i32::MIN <= 2 * layer.num_kv_heads * layer.head_dim <= i32::MAX
    &&& b.args.len() > 0 ==> i32::MIN <= b.args[0].width - 2 * layer.num_kv_heads * layer.head_dim
        <= i32::MAX
}

/// `[packed, rope_table, q_norm, k_norm]`: the fused decode projection. The
/// query output is the observed-query pin; the pages, the CSRs and the write
/// descriptors are the fire's.
pub open spec fn qkv_decode(
    b: BoundView,
    c: &DispatchCtx,
    attn: Option<&AttnCtx>,
) -> Outcome {
    if b.args.len() != 4 {
        Err(arm::wrong_count(b, 4))
    } else {
        match arm::attention_layer(b, attn) {
            Err(e) => Err(e),
            Ok((a, layer)) => arm::launch_of(
                Entry::AttnQkvDecodeQkNormRopeWriteKvBf16,
                Seq::<Operand>::empty()
                    .push(arm::addr_of(b, 0))
                    .push(Operand::Addr(a.q_out))
                    .push(Operand::Addr(layer.k_pages))
                    .push(Operand::Addr(layer.v_pages))
                    .push(arm::addr_of(b, 2))
                    .push(arm::addr_of(b, 3))
                    .push(Operand::Addr(c.positions))
                    .push(arm::addr_of(b, 1))
                    .push(Operand::Addr(a.kv_page_indices_d))
                    .push(Operand::Addr(a.kv_page_indptr_d))
                    .push(Operand::Addr(a.kv_last_page_lens_d))
                    .push(Operand::Addr(a.w_page_d))
                    .push(Operand::Addr(a.w_off_d))
                    .push(Operand::Addr(a.row_valid_d))
                    .push(arm::row_operand(b))
                    .push(Operand::Int(query_heads(b, layer) as i32))
                    .push(Operand::Int(layer.num_kv_heads))
                    .push(Operand::Int(layer.head_dim))
                    .push(Operand::Int(layer.page_size))
                    .push(Operand::Flag(layer.hnd_layout))
                    .push(Operand::Float(c.rope_theta))
                    .push(Operand::Float(c.rms_eps))
                    .push(Operand::Addr(c.stream)),
            ),
        }
    }
}

/// What [`qkv_decode`] computes can be computed.
pub open spec fn qkv_decode_fits(b: BoundView, attn: Option<&AttnCtx>) -> bool {
    arm::attention_layer(b, attn) matches Ok((a, layer)) ==> query_heads_fit(b, layer)
}

/// What the key and value heads leave of a packed width, in query heads.
fn query_head_count(width: u32, num_kv_heads: i32, head_dim: i32) -> (heads: i32)
    ensures
        heads == toward_zero(
            width - 2 * num_kv_heads * head_dim,
            arm::at_least_one(head_dim),
        ) as i32,
{
    let n: i128 = num_kv_heads as i128;
    let h: i128 = head_dim as i128;
    assert(-0x1_0000_0000_0000_0000 <= 2 * n * h <= 0x1_0000_0000_0000_0000) by (nonlinear_arith)
        requires
            -0x8000_0000 <= n <= 0x7fff_ffff,
            -0x8000_0000 <= h <= 0x7fff_ffff,
    ;
    let d: i128 = if head_dim < 1 {
        1
    } else {
        h
    };
    let left: i128 = width as i128 - 2 * n * h;
    (left / d) as i32
}

pub(crate) fn dispatch_qkv_decode(
    b: &BoundLaunch<'_>,
    ctx: &DispatchCtx,
    attn: Option<&AttnCtx>,
) -> (result: Result<DispatchAction, DispatchRefusal>)
    requires
        arm::rows_fit(b@),
    ensures
        action::outcome_of(result) == qkv_decode(b@, ctx, attn),
{
    need(b, 4)?;
    let (a, layer) = need_layer(b, attn)?;
    let heads: i32 = query_head_count(b.args[0].width, layer.num_kv_heads, layer.head_dim);
    let ops = Operands::new()
        .addr(b.args[0].ptr)
        .addr(a.q_out)
        .addr(layer.k_pages)
        .addr(layer.v_pages)
        .addr(b.args[2].ptr)
        .addr(b.args[3].ptr)
        .addr(ctx.positions)
        .addr(b.args[1].ptr)
        .addr(a.kv_page_indices_d)
        .addr(a.kv_page_indptr_d)
        .addr(a.kv_last_page_lens_d)
        .addr(a.w_page_d)
        .addr(a.w_off_d)
        .addr(a.row_valid_d)
        .num(row_count(b))
        .num(heads)
        .num(layer.num_kv_heads)
        .num(layer.head_dim)
        .num(layer.page_size)
        .flag(layer.hnd_layout)
        .float(ctx.rope_theta)
        .float(ctx.rms_eps)
        .addr(ctx.stream);
    Ok(launched(Entry::AttnQkvDecodeQkNormRopeWriteKvBf16, ops))
}

} // verus!
