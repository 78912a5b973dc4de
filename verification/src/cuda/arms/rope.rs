//! Rotations, and the norms fused with them.

use crate::cuda::action;
use crate::cuda::action::{
    launched, staged, DispatchAction, DispatchRefusal, DispatchRefusalView, Entry, Operand,
    Operands, Outcome,
};
use crate::cuda::arm;
use crate::cuda::arm::{
    heads_in, miscounted, need, need_layer, row_count, stage_one, stage_pair, text2,
};
use crate::cuda::bind::{BoundLaunch, BoundView};
use crate::cuda::context::{AttnCtx, DispatchCtx};
use crate::cuda::plan::{LaunchSpec, LaunchSpecView};
use vstd::prelude::*;

verus! {

/// `[table]`: the positions are the fire's.
pub open spec fn rope_table(
    b: BoundView,
    c: &DispatchCtx,
) -> Outcome {
    if b.args.len() != 1 {
        Err(arm::wrong_count(b, 1))
    } else {
        arm::launch_of(
            Entry::RopeStandardTable,
            Seq::<Operand>::empty()
                .push(Operand::Addr(c.positions))
                .push(arm::addr_of(b, 0))
                .push(arm::row_operand(b))
                .push(Operand::Int(c.head_dim))
                .push(Operand::Float(c.rope_theta))
                .push(Operand::Addr(c.stream)),
        )
    }
}

pub(crate) fn dispatch_rope_table(
    b: &BoundLaunch<'_>,
    ctx: &DispatchCtx,
) -> (result: Result<DispatchAction, DispatchRefusal>)
    requires
        arm::rows_fit(b@),
    ensures
        action::outcome_of(result) == rope_table(b@, ctx),
{
    need(b, 1)?;
    let ops = Operands::new()
        .addr(ctx.positions)
        .addr(b.args[0].ptr)
        .num(row_count(b))
        .num(ctx.head_dim)
        .float(ctx.rope_theta)
        .addr(ctx.stream);
    Ok(launched(Entry::RopeStandardTable, ops))
}

/// `[q_in, k_in, q_out, k_out, q_norm, k_norm]`: the kernel is in place, so each
/// input is staged into its output first.
pub open spec fn qk_rmsnorm_rope(
    b: BoundView,
    c: &DispatchCtx,
) -> Outcome {
    if b.args.len() != 6 {
        Err(arm::wrong_count(b, 6))
    } else {
        arm::staged_launch(
            arm::stage(b, 2, 0) + arm::stage(b, 3, 1),
            Entry::RopeQkRmsnormRopeBf16,
            Seq::<Operand>::empty()
                .push(arm::addr_of(b, 2))
                .push(arm::addr_of(b, 3))
                .push(arm::addr_of(b, 4))
                .push(arm::addr_of(b, 5))
                .push(Operand::Addr(c.positions))
                .push(arm::row_operand(b))
                .push(arm::heads_of(b, 2, c.head_dim))
                .push(arm::heads_of(b, 3, c.head_dim))
                .push(Operand::Int(c.head_dim))
                .push(Operand::Float(c.rope_theta))
                .push(Operand::Float(c.rms_eps))
                .push(Operand::Addr(c.stream)),
        )
    }
}

pub(crate) fn dispatch_qk_rmsnorm_rope(
    b: &BoundLaunch<'_>,
    ctx: &DispatchCtx,
) -> (result: Result<DispatchAction, DispatchRefusal>)
    requires
        arm::rows_fit(b@),
    ensures
        action::outcome_of(result) == qk_rmsnorm_rope(b@, ctx),
{
    need(b, 6)?;
    let ops = Operands::new()
        .addr(b.args[2].ptr)
        .addr(b.args[3].ptr)
        .addr(b.args[4].ptr)
        .addr(b.args[5].ptr)
        .addr(ctx.positions)
        .num(row_count(b))
        .num(heads_in(b.args[2].width, ctx.head_dim))
        .num(heads_in(b.args[3].width, ctx.head_dim))
        .num(ctx.head_dim)
        .float(ctx.rope_theta)
        .float(ctx.rms_eps)
        .addr(ctx.stream);
    let copies = stage_pair(b);
    Ok(staged(copies, Entry::RopeQkRmsnormRopeBf16, ops))
}

/// `[q_in, k_in, q_out, k_out]`: staged like [`qk_rmsnorm_rope`], then rotated.
pub open spec fn rope(
    b: BoundView,
    c: &DispatchCtx,
) -> Outcome {
    if b.args.len() != 4 {
        Err(arm::wrong_count(b, 4))
    } else {
        arm::staged_launch(
            arm::stage(b, 2, 0) + arm::stage(b, 3, 1),
            Entry::RopeRopeBf16,
            Seq::<Operand>::empty()
                .push(arm::addr_of(b, 2))
                .push(arm::addr_of(b, 3))
                .push(Operand::Addr(c.positions))
                .push(arm::row_operand(b))
                .push(arm::heads_of(b, 2, c.head_dim))
                .push(arm::heads_of(b, 3, c.head_dim))
                .push(Operand::Int(c.head_dim))
                .push(Operand::Float(c.rope_theta))
                .push(Operand::Addr(c.stream))
                .push(Operand::Flag(c.rope_interleaved)),
        )
    }
}

pub(crate) fn dispatch_rope(
    b: &BoundLaunch<'_>,
    ctx: &DispatchCtx,
) -> (result: Result<DispatchAction, DispatchRefusal>)
    requires
        arm::rows_fit(b@),
    ensures
        action::outcome_of(result) == rope(b@, ctx),
{
    need(b, 4)?;
    let ops = Operands::new()
        .addr(b.args[2].ptr)
        .addr(b.args[3].ptr)
        .addr(ctx.positions)
        .num(row_count(b))
        .num(heads_in(b.args[2].width, ctx.head_dim))
        .num(heads_in(b.args[3].width, ctx.head_dim))
        .num(ctx.head_dim)
        .float(ctx.rope_theta)
        .addr(ctx.stream)
        .flag(ctx.rope_interleaved);
    let copies = stage_pair(b);
    Ok(staged(copies, Entry::RopeRopeBf16, ops))
}

/// `[q_in, k_in, q_out, k_out]`: staged like [`rope`]; the rotary width is the
/// operation's statement.
pub open spec fn rope_partial(
    b: BoundView,
    s: LaunchSpecView,
    c: &DispatchCtx,
) -> Outcome {
    if b.args.len() != 4 {
        Err(arm::wrong_count(b, 4))
    } else {
        match s.rope_partial {
            None => Err(
                DispatchRefusalView::NoArm(b.kernel + ": op states no rotary width"@),
            ),
            Some(rotary) => arm::staged_launch(
                arm::stage(b, 2, 0) + arm::stage(b, 3, 1),
                Entry::RopeRopePartialBf16,
                Seq::<Operand>::empty()
                    .push(arm::addr_of(b, 2))
                    .push(arm::addr_of(b, 3))
                    .push(Operand::Addr(c.positions))
                    .push(arm::row_operand(b))
                    .push(arm::heads_of(b, 2, c.head_dim))
                    .push(arm::heads_of(b, 3, c.head_dim))
                    .push(Operand::Int(c.head_dim))
                    .push(Operand::Int(rotary as i32))
                    .push(Operand::Float(c.rope_theta))
                    .push(Operand::Addr(c.stream)),
            ),
        }
    }
}

/// The widths and the rotary width [`rope_partial`] converts.
pub open spec fn rope_partial_fits(b: BoundView, s: LaunchSpecView) -> bool {
    &&& arm::width_fits(b, 2)
    &&& arm::width_fits(b, 3)
    &&& s.rope_partial matches Some(rotary) ==> rotary <= i32::MAX
}

pub(crate) fn dispatch_rope_partial(
    b: &BoundLaunch<'_>,
    spec: &LaunchSpec,
    ctx: &DispatchCtx,
) -> (result: Result<DispatchAction, DispatchRefusal>)
    requires
        arm::rows_fit(b@),
    ensures
        action::outcome_of(result) == rope_partial(b@, spec@, ctx),
{
    need(b, 4)?;
    let rotary: u32 = match spec.rope_partial {
        Some(n) => n,
        None => return Err(
            DispatchRefusal::NoArm(text2(b.kernel, ": op states no rotary width")),
        ),
    };
    let copies = stage_pair(b);
    let ops = Operands::new()
        .addr(b.args[2].ptr)
        .addr(b.args[3].ptr)
        .addr(ctx.positions)
        .num(row_count(b))
        .num(heads_in(b.args[2].width, ctx.head_dim))
        .num(heads_in(b.args[3].width, ctx.head_dim))
        .num(ctx.head_dim)
        .num(rotary as i32)
        .float(ctx.rope_theta)
        .addr(ctx.stream);
    Ok(staged(copies, Entry::RopeRopePartialBf16, ops))
}

/// The rounded fused norm and rotation, in both its shapes: `[q, k, q_norm,
/// k_norm]` in place, and `[q_in, q_out, q_norm]`, a KV-shared layer's
/// query-only form, which passes no key and no KV heads.
pub open spec fn qk_rounded(
    b: BoundView,
    c: &DispatchCtx,
    attn: Option<&AttnCtx>,
) -> Outcome {
    match arm::attention_layer(b, attn) {
        Err(e) => Err(e),
        Ok((a, layer)) => if b.args.len() == 4 {
            arm::launch_of(
                Entry::RopeQkRmsnormRopeBf16Rounded,
                Seq::<Operand>::empty()
                    .push(arm::addr_of(b, 0))
                    .push(arm::addr_of(b, 1))
                    .push(arm::addr_of(b, 2))
                    .push(arm::addr_of(b, 3))
                    .push(Operand::Addr(c.positions))
                    .push(arm::row_operand(b))
                    .push(arm::heads_of(b, 0, layer.head_dim))
                    .push(Operand::Int(layer.num_kv_heads))
                    .push(Operand::Int(layer.head_dim))
                    .push(Operand::Float(c.rope_theta))
                    .push(Operand::Float(c.rms_eps))
                    .push(Operand::Addr(c.stream)),
            )
        } else if b.args.len() == 3 {
            arm::staged_launch(
                arm::stage(b, 1, 0),
                Entry::RopeQkRmsnormRopeBf16Rounded,
                Seq::<Operand>::empty()
                    .push(arm::addr_of(b, 1))
                    .push(Operand::Addr(0))
                    .push(arm::addr_of(b, 2))
                    .push(Operand::Addr(0))
                    .push(Operand::Addr(c.positions))
                    .push(arm::row_operand(b))
                    .push(arm::heads_of(b, 1, layer.head_dim))
                    .push(Operand::Int(0))
                    .push(Operand::Int(layer.head_dim))
                    .push(Operand::Float(c.rope_theta))
                    .push(Operand::Float(c.rms_eps))
                    .push(Operand::Addr(c.stream)),
            )
        } else {
            Err(arm::wrong_count(b, 4))
        },
    }
}

/// The query width [`qk_rounded`] converts.
pub open spec fn qk_rounded_fits(b: BoundView) -> bool {
    if b.args.len() == 3 {
        arm::width_fits(b, 1)
    } else {
        arm::width_fits(b, 0)
    }
}

pub(crate) fn dispatch_qk_rounded(
    b: &BoundLaunch<'_>,
    ctx: &DispatchCtx,
    attn: Option<&AttnCtx>,
) -> (result: Result<DispatchAction, DispatchRefusal>)
    requires
        arm::rows_fit(b@),
    ensures
        action::outcome_of(result) == qk_rounded(b@, ctx, attn),
{
    let (_a, layer) = need_layer(b, attn)?;
    if b.args.len() == 4 {
        let ops = Operands::new()
            .addr(b.args[0].ptr)
            .addr(b.args[1].ptr)
            .addr(b.args[2].ptr)
            .addr(b.args[3].ptr)
            .addr(ctx.positions)
            .num(row_count(b))
            .num(heads_in(b.args[0].width, layer.head_dim))
            .num(layer.num_kv_heads)
            .num(layer.head_dim)
            .float(ctx.rope_theta)
            .float(ctx.rms_eps)
            .addr(ctx.stream);
        Ok(launched(Entry::RopeQkRmsnormRopeBf16Rounded, ops))
    } else if b.args.len() == 3 {
        let copies = stage_one(b, 1, 0);
        let ops = Operands::new()
            .addr(b.args[1].ptr)
            .addr(0)
            .addr(b.args[2].ptr)
            .addr(0)
            .addr(ctx.positions)
            .num(row_count(b))
            .num(heads_in(b.args[1].width, layer.head_dim))
            .num(0)
            .num(layer.head_dim)
            .float(ctx.rope_theta)
            .float(ctx.rms_eps)
            .addr(ctx.stream);
        Ok(staged(copies, Entry::RopeQkRmsnormRopeBf16Rounded, ops))
    } else {
        Err(miscounted(b, 4))
    }
}

} // verus!
