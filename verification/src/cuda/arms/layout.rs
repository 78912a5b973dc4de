//! Gathers, splits and transposes.

use crate::cuda::action;
use crate::cuda::action::{
    launched, DispatchAction, DispatchRefusal, DispatchRefusalView, Entry, Operand, Operands,
    Outcome,
};
use crate::cuda::arm;
use crate::cuda::arm::{heads_in, need, row_count, text2, weight};
use crate::cuda::bind::{BoundLaunch, BoundView};
use crate::cuda::context::{DispatchCtx};
use crate::cuda::plan::{LaunchSpec, LaunchSpecView};
use crate::cuda::resolver;
use crate::cuda::resolver::Resolver;
use vstd::prelude::*;

verus! {

/// `[y]`: the token ids are the fire's and the weight is the operation's.
pub open spec fn embed<R: Resolver>(
    b: BoundView,
    s: LaunchSpecView,
    r: R,
    c: &DispatchCtx,
) -> Outcome {
    if b.args.len() != 1 {
        Err(arm::wrong_count(b, 1))
    } else {
        match arm::named_weight(b, s.weight, r) {
            Err(e) => Err(e),
            Ok(w) => {
                arm::launch_of(
                    Entry::LayoutEmbedBf16,
                    Seq::<Operand>::empty()
                        .push(Operand::Addr(c.token_ids))
                        .push(Operand::Addr(w))
                        .push(arm::addr_of(b, 0))
                        .push(arm::row_operand(b))
                        .push(arm::width_of(b, 0))
                        .push(Operand::Int(c.vocab))
                        .push(Operand::Addr(c.stream)),
                )
            },
        }
    }
}

pub(crate) fn dispatch_embed<R: Resolver>(
    b: &BoundLaunch<'_>,
    spec: &LaunchSpec,
    resolver: &mut R,
    ctx: &DispatchCtx,
) -> (result: Result<DispatchAction, DispatchRefusal>)
    requires
        arm::rows_fit(b@),
    ensures
        action::outcome_of(result) == embed(b@, spec@, *old(resolver), ctx),
        resolver::same_answers(*old(resolver), *final(resolver)),
{
    need(b, 1)?;
    let w: u64 = weight(b, &spec.weight, resolver)?;
    let ops = Operands::new()
        .addr(ctx.token_ids)
        .addr(w)
        .addr(b.args[0].ptr)
        .num(row_count(b))
        .num(b.args[0].width as i32)
        .num(ctx.vocab)
        .addr(ctx.stream);
    Ok(launched(Entry::LayoutEmbedBf16, ops))
}

/// `[packed, q, gate]`: the double-wide gated query pack, de-interleaved per
/// head.
pub open spec fn split_q_gate(
    b: BoundView,
    c: &DispatchCtx,
) -> Outcome {
    if b.args.len() != 3 {
        Err(arm::wrong_count(b, 3))
    } else {
        arm::launch_of(
            Entry::LayoutSplitQGateBf16,
            Seq::<Operand>::empty()
                .push(arm::addr_of(b, 0))
                .push(arm::addr_of(b, 1))
                .push(arm::addr_of(b, 2))
                .push(arm::row_operand(b))
                .push(arm::heads_of(b, 1, c.head_dim))
                .push(Operand::Int(c.head_dim))
                .push(Operand::Addr(c.stream)),
        )
    }
}

pub(crate) fn dispatch_split_q_gate(
    b: &BoundLaunch<'_>,
    ctx: &DispatchCtx,
) -> (result: Result<DispatchAction, DispatchRefusal>)
    requires
        arm::rows_fit(b@),
    ensures
        action::outcome_of(result) == split_q_gate(b@, ctx),
{
    need(b, 3)?;
    let ops = Operands::new()
        .addr(b.args[0].ptr)
        .addr(b.args[1].ptr)
        .addr(b.args[2].ptr)
        .num(row_count(b))
        .num(heads_in(b.args[1].width, ctx.head_dim))
        .num(ctx.head_dim)
        .addr(ctx.stream);
    Ok(launched(Entry::LayoutSplitQGateBf16, ops))
}

/// `[src, dst]`: the per-layer embedding relay, `[rows, layers * dim]`
/// transposed to `[layers, rows, dim]`.
pub open spec fn transpose(b: BoundView, c: &DispatchCtx) -> Outcome {
    if b.args.len() != 2 {
        Err(arm::wrong_count(b, 2))
    } else if c.ple_dim <= 0 {
        Err(DispatchRefusalView::NoArm(b.kernel + ": the fire states no ple_dim"@))
    } else {
        arm::launch_of(
            Entry::LayoutTransposeBf16NldToLnd,
            Seq::<Operand>::empty()
                .push(arm::addr_of(b, 0))
                .push(arm::addr_of(b, 1))
                .push(arm::row_operand(b))
                .push(arm::heads_of(b, 0, c.ple_dim))
                .push(Operand::Int(c.ple_dim))
                .push(Operand::Addr(c.stream)),
        )
    }
}

pub(crate) fn dispatch_transpose(b: &BoundLaunch<'_>, ctx: &DispatchCtx) -> (result: Result<
    DispatchAction,
    DispatchRefusal,
>)
    requires
        arm::rows_fit(b@),
    ensures
        action::outcome_of(result) == transpose(b@, ctx),
{
    need(b, 2)?;
    if ctx.ple_dim <= 0 {
        return Err(DispatchRefusal::NoArm(text2(b.kernel, ": the fire states no ple_dim")));
    }
    let ops = Operands::new()
        .addr(b.args[0].ptr)
        .addr(b.args[1].ptr)
        .num(row_count(b))
        .num(heads_in(b.args[0].width, ctx.ple_dim))
        .num(ctx.ple_dim)
        .addr(ctx.stream);
    Ok(launched(Entry::LayoutTransposeBf16NldToLnd, ops))
}

} // verus!
