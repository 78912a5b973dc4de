//! Projections and the pointwise activations between them.

use crate::cuda::action;
use crate::cuda::action::{
    launched, staged, DispatchAction, DispatchRefusal, Entry, Operand, Operands, Outcome,
};
use crate::cuda::arm;
use crate::cuda::arm::{element_count, miscounted, need, row_count, stage_one, weight};
use crate::cuda::bind::{BoundLaunch, BoundView};
use crate::cuda::context::{DispatchCtx, F32_ONE, F32_ZERO};
use crate::cuda::launch::DType;
use crate::cuda::plan::{LaunchSpec, LaunchSpecView};
use crate::cuda::resolver;
use crate::cuda::resolver::Resolver;
use vstd::prelude::*;

verus! {

/// `[packed, y]`: the gated activation over a packed gate and up.
pub open spec fn chunked_swiglu(
    b: BoundView,
    c: &DispatchCtx,
) -> Outcome {
    if b.args.len() != 2 {
        Err(arm::wrong_count(b, 2))
    } else {
        arm::launch_of(
            Entry::MlpChunkedSwigluBf16,
            Seq::<Operand>::empty()
                .push(arm::addr_of(b, 0))
                .push(arm::addr_of(b, 1))
                .push(arm::row_operand(b))
                .push(arm::width_of(b, 1))
                .push(Operand::Addr(c.stream))
                .push(Operand::Flag(c.gate_second)),
        )
    }
}

pub(crate) fn dispatch_chunked_swiglu(
    b: &BoundLaunch<'_>,
    ctx: &DispatchCtx,
) -> (result: Result<DispatchAction, DispatchRefusal>)
    requires
        arm::rows_fit(b@),
    ensures
        action::outcome_of(result) == chunked_swiglu(b@, ctx),
{
    need(b, 2)?;
    let ops = Operands::new()
        .addr(b.args[0].ptr)
        .addr(b.args[1].ptr)
        .num(row_count(b))
        .num(b.args[1].width as i32)
        .addr(ctx.stream)
        .flag(ctx.gate_second);
    Ok(launched(Entry::MlpChunkedSwigluBf16, ops))
}

/// `[packed, y]`: [`chunked_swiglu`] with the tanh gate.
pub open spec fn chunked_geglu(
    b: BoundView,
    c: &DispatchCtx,
) -> Outcome {
    if b.args.len() != 2 {
        Err(arm::wrong_count(b, 2))
    } else {
        arm::launch_of(
            Entry::MlpChunkedGegluTanhBf16,
            Seq::<Operand>::empty()
                .push(arm::addr_of(b, 0))
                .push(arm::addr_of(b, 1))
                .push(arm::row_operand(b))
                .push(arm::width_of(b, 1))
                .push(Operand::Addr(c.stream))
                .push(Operand::Flag(c.gate_second)),
        )
    }
}

pub(crate) fn dispatch_chunked_geglu(
    b: &BoundLaunch<'_>,
    ctx: &DispatchCtx,
) -> (result: Result<DispatchAction, DispatchRefusal>)
    requires
        arm::rows_fit(b@),
    ensures
        action::outcome_of(result) == chunked_geglu(b@, ctx),
{
    need(b, 2)?;
    let ops = Operands::new()
        .addr(b.args[0].ptr)
        .addr(b.args[1].ptr)
        .num(row_count(b))
        .num(b.args[1].width as i32)
        .addr(ctx.stream)
        .flag(ctx.gate_second);
    Ok(launched(Entry::MlpChunkedGegluTanhBf16, ops))
}

/// Operand `i`'s width, and its elements over the rectangle, are 32-bit counts.
pub open spec fn elements_fit(b: BoundView, i: int) -> bool {
    0 <= i < b.args.len() ==> arm::width_fits(b, i) && arm::elements_of(b, i) <= i32::MAX
}

/// Elements operand `i` holds over the rectangle, as a 32-bit count.
fn elements_i32(b: &BoundLaunch<'_>, i: usize) -> (n: i32)
    requires
        arm::rows_fit(b@),
        i < b.args@.len(),
    ensures
        n == arm::elements_of(b@, i as int) as i32,
{
    let n: u64 = element_count(b, i);
    n as i32
}

/// `[gate, up, y]`: the result lands on the first operand's bytes, staged when
/// that is a different buffer from the third.
pub open spec fn geglu(
    b: BoundView,
    c: &DispatchCtx,
) -> Outcome {
    if b.args.len() != 3 {
        Err(arm::wrong_count(b, 3))
    } else {
        arm::staged_launch(
            arm::stage(b, 2, 0),
            Entry::MlpGegluTanhBf16,
            Seq::<Operand>::empty()
                .push(arm::addr_of(b, 2))
                .push(arm::addr_of(b, 1))
                .push(arm::addr_of(b, 2))
                .push(Operand::Int(arm::elements_of(b, 2) as i32))
                .push(Operand::Addr(c.stream)),
        )
    }
}

pub(crate) fn dispatch_geglu(
    b: &BoundLaunch<'_>,
    ctx: &DispatchCtx,
) -> (result: Result<DispatchAction, DispatchRefusal>)
    requires
        arm::rows_fit(b@),
    ensures
        action::outcome_of(result) == geglu(b@, ctx),
{
    need(b, 3)?;
    let ops = Operands::new()
        .addr(b.args[2].ptr)
        .addr(b.args[1].ptr)
        .addr(b.args[2].ptr)
        .num(elements_i32(b, 2))
        .addr(ctx.stream);
    let copies = stage_one(b, 2, 0);
    Ok(staged(copies, Entry::MlpGegluTanhBf16, ops))
}

/// `[x, gate]` in place, or `[x, gate, out]` staged.
pub open spec fn sigmoid_gate(b: BoundView, c: &DispatchCtx) -> Outcome {
    if b.args.len() == 2 {
        arm::launch_of(
            Entry::MlpSigmoidGateInplaceBf16,
            Seq::<Operand>::empty()
                .push(arm::addr_of(b, 0))
                .push(arm::addr_of(b, 1))
                .push(Operand::Int(arm::elements_of(b, 0) as i32))
                .push(Operand::Addr(c.stream)),
        )
    } else if b.args.len() == 3 {
        arm::staged_launch(
            arm::stage(b, 2, 0),
            Entry::MlpSigmoidGateInplaceBf16,
            Seq::<Operand>::empty()
                .push(arm::addr_of(b, 2))
                .push(arm::addr_of(b, 1))
                .push(Operand::Int(arm::elements_of(b, 2) as i32))
                .push(Operand::Addr(c.stream)),
        )
    } else {
        Err(arm::wrong_count(b, 2))
    }
}

/// The element count [`sigmoid_gate`] hands on.
pub open spec fn sigmoid_gate_fits(b: BoundView) -> bool {
    if b.args.len() == 2 {
        elements_fit(b, 0)
    } else {
        elements_fit(b, 2)
    }
}

pub(crate) fn dispatch_sigmoid_gate(b: &BoundLaunch<'_>, ctx: &DispatchCtx) -> (result: Result<
    DispatchAction,
    DispatchRefusal,
>)
    requires
        arm::rows_fit(b@),
    ensures
        action::outcome_of(result) == sigmoid_gate(b@, ctx),
{
    if b.args.len() == 2 {
        let ops = Operands::new()
            .addr(b.args[0].ptr)
            .addr(b.args[1].ptr)
            .num(elements_i32(b, 0))
            .addr(ctx.stream);
        Ok(launched(Entry::MlpSigmoidGateInplaceBf16, ops))
    } else if b.args.len() == 3 {
        let copies = stage_one(b, 2, 0);
        let ops = Operands::new()
            .addr(b.args[2].ptr)
            .addr(b.args[1].ptr)
            .num(elements_i32(b, 2))
            .addr(ctx.stream);
        Ok(staged(copies, Entry::MlpSigmoidGateInplaceBf16, ops))
    } else {
        Err(miscounted(b, 2))
    }
}

/// Which operand the projection writes: the last, which is the accumulate
/// target when the residual is folded in.
pub open spec fn gemm_result(s: LaunchSpecView) -> int {
    if s.beta_one {
        2
    } else {
        1
    }
}

/// `[act, y]`, or `[act, resid, y]` with the residual folded in: the output
/// aliases the residual's bytes and the product accumulates in place. The
/// extents come from the rectangle and the widths; the weight is the
/// operation's, raw bf16.
pub open spec fn gemm<R: Resolver>(
    b: BoundView,
    s: LaunchSpecView,
    r: R,
    c: &DispatchCtx,
) -> Outcome {
    let y = gemm_result(s);
    if b.args.len() != y + 1 {
        Err(arm::wrong_count(b, (y + 1) as usize))
    } else {
        match arm::named_weight(b, s.weight, r) {
            Err(e) => Err(e),
            Ok(w) => arm::launch_of(
                Entry::GemmActXW,
                Seq::<Operand>::empty()
                    .push(Operand::Addr(c.cublas))
                    .push(arm::addr_of(b, 0))
                    .push(Operand::RawWeight(w, DType::Bf16))
                    .push(arm::addr_of(b, y))
                    .push(arm::row_operand(b))
                    .push(arm::width_of(b, y))
                    .push(arm::width_of(b, 0))
                    .push(Operand::Float(if s.beta_one { F32_ONE } else { F32_ZERO }))
                    .push(Operand::Type(DType::Bf16))
                    .push(Operand::Type(DType::Bf16)),
            ),
        }
    }
}

/// The widths [`gemm`] converts.
pub open spec fn gemm_fits(b: BoundView, s: LaunchSpecView) -> bool {
    arm::width_fits(b, 0) && arm::width_fits(b, gemm_result(s))
}

pub(crate) fn dispatch_gemm<R: Resolver>(
    b: &BoundLaunch<'_>,
    spec: &LaunchSpec,
    resolver: &mut R,
    ctx: &DispatchCtx,
) -> (result: Result<DispatchAction, DispatchRefusal>)
    requires
        arm::rows_fit(b@),
    ensures
        action::outcome_of(result) == gemm(b@, spec@, *old(resolver), ctx),
        resolver::same_answers(*old(resolver), *final(resolver)),
{
    let y: usize = if spec.beta_one {
        2
    } else {
        1
    };
    need(b, y + 1)?;
    let beta: u32 = if spec.beta_one {
        F32_ONE
    } else {
        F32_ZERO
    };
    let w: u64 = weight(b, &spec.weight, resolver)?;
    let ops = Operands::new()
        .addr(ctx.cublas)
        .addr(b.args[0].ptr)
        .with(Operand::RawWeight(w, DType::Bf16))
        .addr(b.args[y].ptr)
        .num(row_count(b))
        .num(b.args[y].width as i32)
        .num(b.args[0].width as i32)
        .float(beta)
        .with(Operand::Type(DType::Bf16))
        .with(Operand::Type(DType::Bf16));
    Ok(launched(Entry::GemmActXW, ops))
}

} // verus!
