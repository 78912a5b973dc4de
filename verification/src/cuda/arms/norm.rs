//! Norms, residual landings and scalings.

use crate::cuda::action;
use crate::cuda::action::{
    launched, staged, DispatchAction, DispatchRefusal, DispatchRefusalView, Entry, Operand,
    Operands, Outcome,
};
use crate::cuda::arm;
use crate::cuda::arm::{
    element_count, need, need_linear, norm_shape, row_count, stage_one, text2, weight,
};
use crate::cuda::bind::{BoundLaunch, BoundView};
use crate::cuda::context::{DispatchCtx, GdnCtx, F32_ONE};
use crate::cuda::plan::{LaunchSpec, LaunchSpecView};
use crate::cuda::resolver;
use crate::cuda::resolver::Resolver;
use crate::strings;
use crate::strings::{without_prefix, without_suffix};
use vstd::prelude::*;

verus! {

/// `[x, y]`: the norm's weight is the operation's.
pub open spec fn rmsnorm<R: Resolver>(
    b: BoundView,
    s: LaunchSpecView,
    r: R,
    c: &DispatchCtx,
) -> Outcome {
    if b.args.len() != 2 {
        Err(arm::wrong_count(b, 2))
    } else {
        match arm::named_weight(b, s.weight, r) {
            Err(e) => Err(e),
            Ok(w) => {
                arm::launch_of(
                    Entry::NormRmsnormBf16,
                    Seq::<Operand>::empty()
                        .push(arm::addr_of(b, 0))
                        .push(Operand::Addr(w))
                        .push(arm::addr_of(b, 1))
                        .push(arm::row_operand(b))
                        .push(arm::width_of(b, 0))
                        .push(Operand::Float(c.rms_eps))
                        .push(Operand::Addr(c.stream)),
                )
            },
        }
    }
}

pub(crate) fn dispatch_rmsnorm<R: Resolver>(
    b: &BoundLaunch<'_>,
    spec: &LaunchSpec,
    resolver: &mut R,
    ctx: &DispatchCtx,
) -> (result: Result<DispatchAction, DispatchRefusal>)
    requires
        arm::rows_fit(b@),
    ensures
        action::outcome_of(result) == rmsnorm(b@, spec@, *old(resolver), ctx),
        resolver::same_answers(*old(resolver), *final(resolver)),
{
    need(b, 2)?;
    let w: u64 = weight(b, &spec.weight, resolver)?;
    let ops = Operands::new()
        .addr(b.args[0].ptr)
        .addr(w)
        .addr(b.args[1].ptr)
        .num(row_count(b))
        .num(b.args[0].width as i32)
        .float(ctx.rms_eps)
        .addr(ctx.stream);
    Ok(launched(Entry::NormRmsnormBf16, ops))
}

/// `[a, b, out]`: `out = a + b`. The kernel adds in place, so the first is staged
/// and the second added.
pub open spec fn residual_add(
    b: BoundView,
    c: &DispatchCtx,
) -> Outcome {
    if b.args.len() != 3 {
        Err(arm::wrong_count(b, 3))
    } else {
        arm::staged_launch(
            arm::stage(b, 2, 0),
            Entry::NormResidualAddBf16,
            Seq::<Operand>::empty()
                .push(arm::addr_of(b, 2))
                .push(arm::addr_of(b, 1))
                .push(Operand::Count(arm::elements_of(b, 2) as u64))
                .push(Operand::Addr(c.stream)),
        )
    }
}

pub(crate) fn dispatch_residual_add(
    b: &BoundLaunch<'_>,
    ctx: &DispatchCtx,
) -> (result: Result<DispatchAction, DispatchRefusal>)
    requires
        arm::rows_fit(b@),
    ensures
        action::outcome_of(result) == residual_add(b@, ctx),
{
    need(b, 3)?;
    let ops = Operands::new()
        .addr(b.args[2].ptr)
        .addr(b.args[1].ptr)
        .with(Operand::Count(element_count(b, 2)))
        .addr(ctx.stream);
    let copies = stage_one(b, 2, 0);
    Ok(staged(copies, Entry::NormResidualAddBf16, ops))
}

/// `[x, out]`: `out = x + bias`, staged and added in place; the bias is the
/// operation's weight.
pub open spec fn add_bias<R: Resolver>(
    b: BoundView,
    s: LaunchSpecView,
    r: R,
    c: &DispatchCtx,
) -> Outcome {
    if b.args.len() != 2 {
        Err(arm::wrong_count(b, 2))
    } else {
        match arm::named_weight(b, s.weight, r) {
            Err(e) => Err(e),
            Ok(w) => {
                arm::staged_launch(
                    arm::stage(b, 1, 0),
                    Entry::NormAddBiasBf16,
                    Seq::<Operand>::empty()
                        .push(arm::addr_of(b, 1))
                        .push(Operand::Addr(w))
                        .push(arm::row_operand(b))
                        .push(arm::width_of(b, 1))
                        .push(Operand::Addr(c.stream)),
                )
            },
        }
    }
}

pub(crate) fn dispatch_add_bias<R: Resolver>(
    b: &BoundLaunch<'_>,
    spec: &LaunchSpec,
    resolver: &mut R,
    ctx: &DispatchCtx,
) -> (result: Result<DispatchAction, DispatchRefusal>)
    requires
        arm::rows_fit(b@),
    ensures
        action::outcome_of(result) == add_bias(b@, spec@, *old(resolver), ctx),
        resolver::same_answers(*old(resolver), *final(resolver)),
{
    need(b, 2)?;
    let w: u64 = weight(b, &spec.weight, resolver)?;
    let ops = Operands::new()
        .addr(b.args[1].ptr)
        .addr(w)
        .num(row_count(b))
        .num(b.args[1].width as i32)
        .addr(ctx.stream);
    let copies = stage_one(b, 1, 0);
    Ok(staged(copies, Entry::NormAddBiasBf16, ops))
}

/// `[x, hidden_in, hidden_out, w]`: norm `x` and land it on the staged stream.
pub open spec fn rmsnorm_residual_add(
    b: BoundView,
    c: &DispatchCtx,
) -> Outcome {
    if b.args.len() != 4 {
        Err(arm::wrong_count(b, 4))
    } else {
        arm::staged_launch(
            arm::stage(b, 2, 1),
            Entry::NormRmsnormResidualAddBf16,
            Seq::<Operand>::empty()
                .push(arm::addr_of(b, 0))
                .push(arm::addr_of(b, 3))
                .push(arm::addr_of(b, 2))
                .push(arm::row_operand(b))
                .push(arm::width_of(b, 0))
                .push(Operand::Float(c.rms_eps))
                .push(Operand::Addr(c.stream)),
        )
    }
}

pub(crate) fn dispatch_rmsnorm_residual_add(
    b: &BoundLaunch<'_>,
    ctx: &DispatchCtx,
) -> (result: Result<DispatchAction, DispatchRefusal>)
    requires
        arm::rows_fit(b@),
    ensures
        action::outcome_of(result) == rmsnorm_residual_add(b@, ctx),
{
    need(b, 4)?;
    let ops = Operands::new()
        .addr(b.args[0].ptr)
        .addr(b.args[3].ptr)
        .addr(b.args[2].ptr)
        .num(row_count(b))
        .num(b.args[0].width as i32)
        .float(ctx.rms_eps)
        .addr(ctx.stream);
    let copies = stage_one(b, 2, 1);
    Ok(staged(copies, Entry::NormRmsnormResidualAddBf16, ops))
}

/// `[x, y]`: whole-row, or one row per head when the operation states a head
/// width.
pub open spec fn rmsnorm_gemma<R: Resolver>(
    b: BoundView,
    s: LaunchSpecView,
    r: R,
    c: &DispatchCtx,
) -> Outcome {
    if b.args.len() != 2 {
        Err(arm::wrong_count(b, 2))
    } else {
        match arm::named_weight(b, s.weight, r) {
            Err(e) => Err(e),
            Ok(w) => {
                arm::launch_of(
                    Entry::NormRmsnormGemmaBf16,
                    Seq::<Operand>::empty()
                        .push(arm::addr_of(b, 0))
                        .push(Operand::Addr(w))
                        .push(arm::addr_of(b, 1))
                        .push(Operand::Int(arm::norm_rows(b, s).0 as i32))
                        .push(Operand::Int(arm::norm_rows(b, s).1 as i32))
                        .push(Operand::Float(c.rms_eps))
                        .push(Operand::Addr(c.stream)),
                )
            },
        }
    }
}

pub(crate) fn dispatch_rmsnorm_gemma<R: Resolver>(
    b: &BoundLaunch<'_>,
    spec: &LaunchSpec,
    resolver: &mut R,
    ctx: &DispatchCtx,
) -> (result: Result<DispatchAction, DispatchRefusal>)
    requires
        arm::rows_fit(b@),
    ensures
        action::outcome_of(result) == rmsnorm_gemma(b@, spec@, *old(resolver), ctx),
        resolver::same_answers(*old(resolver), *final(resolver)),
{
    need(b, 2)?;
    let w: u64 = weight(b, &spec.weight, resolver)?;
    let shape: (i32, i32) = norm_shape(b, spec);
    let ops = Operands::new()
        .addr(b.args[0].ptr)
        .addr(w)
        .addr(b.args[1].ptr)
        .num(shape.0)
        .num(shape.1)
        .float(ctx.rms_eps)
        .addr(ctx.stream);
    Ok(launched(Entry::NormRmsnormGemmaBf16, ops))
}

/// `[x, y]`: the weightless norm, with [`rmsnorm_gemma`]'s two readings.
pub open spec fn rmsnorm_no_scale(
    b: BoundView,
    s: LaunchSpecView,
    c: &DispatchCtx,
) -> Outcome {
    if b.args.len() != 2 {
        Err(arm::wrong_count(b, 2))
    } else {
        arm::launch_of(
            Entry::NormRmsnormNoScaleBf16,
            Seq::<Operand>::empty()
                .push(arm::addr_of(b, 0))
                .push(arm::addr_of(b, 1))
                .push(Operand::Int(arm::norm_rows(b, s).0 as i32))
                .push(Operand::Int(arm::norm_rows(b, s).1 as i32))
                .push(Operand::Float(c.rms_eps))
                .push(Operand::Addr(c.stream)),
        )
    }
}

pub(crate) fn dispatch_rmsnorm_no_scale(
    b: &BoundLaunch<'_>,
    spec: &LaunchSpec,
    ctx: &DispatchCtx,
) -> (result: Result<DispatchAction, DispatchRefusal>)
    requires
        arm::rows_fit(b@),
    ensures
        action::outcome_of(result) == rmsnorm_no_scale(b@, spec@, ctx),
{
    need(b, 2)?;
    let shape: (i32, i32) = norm_shape(b, spec);
    let ops = Operands::new()
        .addr(b.args[0].ptr)
        .addr(b.args[1].ptr)
        .num(shape.0)
        .num(shape.1)
        .float(ctx.rms_eps)
        .addr(ctx.stream);
    Ok(launched(Entry::NormRmsnormNoScaleBf16, ops))
}

/// `[x, gate, y]`: the linear-attention landing norm, one row per value head.
pub open spec fn rmsnorm_gated<R: Resolver>(
    b: BoundView,
    s: LaunchSpecView,
    r: R,
    c: &DispatchCtx,
    gdn: Option<&GdnCtx>,
) -> Outcome {
    if b.args.len() != 3 {
        Err(arm::wrong_count(b, 3))
    } else {
        match arm::linear_attention(b, gdn) {
            Err(e) => Err(e),
            Ok(g) => {
                match arm::named_weight(b, s.weight, r) {
                    Err(e) => Err(e),
                    Ok(w) => {
                        arm::launch_of(
                            Entry::NormRmsnormGatedFp32InBf16,
                            Seq::<Operand>::empty()
                                .push(arm::addr_of(b, 0))
                                .push(arm::addr_of(b, 1))
                                .push(Operand::Addr(w))
                                .push(arm::addr_of(b, 2))
                                .push(Operand::Int((arm::rows(b) * g.v_h) as i32))
                                .push(Operand::Int(g.v_d))
                                .push(Operand::Float(c.rms_eps))
                                .push(Operand::Addr(c.stream)),
                        )
                    },
                }
            },
        }
    }
}

/// The row count [`rmsnorm_gated`] hands on.
pub open spec fn rmsnorm_gated_fits(b: BoundView, gdn: Option<&GdnCtx>) -> bool {
    gdn matches Some(g) ==> i32::MIN <= arm::rows(b) * g.v_h <= i32::MAX
}

pub(crate) fn dispatch_rmsnorm_gated<R: Resolver>(
    b: &BoundLaunch<'_>,
    spec: &LaunchSpec,
    resolver: &mut R,
    ctx: &DispatchCtx,
    gdn: Option<&GdnCtx>,
) -> (result: Result<DispatchAction, DispatchRefusal>)
    requires
        arm::rows_fit(b@),
    ensures
        action::outcome_of(result) == rmsnorm_gated(b@, spec@, *old(resolver), ctx, gdn),
        resolver::same_answers(*old(resolver), *final(resolver)),
{
    need(b, 3)?;
    let g = need_linear(b, gdn)?;
    let w: u64 = weight(b, &spec.weight, resolver)?;
    let rows: i64 = row_count(b) as i64;
    let heads: i64 = g.v_h as i64;
    assert(i64::MIN <= rows * heads <= i64::MAX) by (nonlinear_arith)
        requires
            0 <= rows <= 0x7fff_ffff,
            -0x8000_0000 <= heads <= 0x7fff_ffff,
    ;
    let ops = Operands::new()
        .addr(b.args[0].ptr)
        .addr(b.args[1].ptr)
        .addr(w)
        .addr(b.args[2].ptr)
        .num((rows * heads) as i32)
        .num(g.v_d)
        .float(ctx.rms_eps)
        .addr(ctx.stream);
    Ok(launched(Entry::NormRmsnormGatedFp32InBf16, ops))
}

/// The name of the constant in the weight slot: what follows `scale.`.
pub open spec fn constant_name(s: LaunchSpecView) -> Option<Seq<char>> {
    match s.weight {
        Some(name) => if strings::is_prefix(name, "scale."@) {
            Some(name.skip(6))
        } else {
            None
        },
        None => None,
    }
}

/// `[x_in, x_out, scale]`: `x *= s`, the constant named in the weight slot.
pub open spec fn scalar_mul(
    b: BoundView,
    s: LaunchSpecView,
    c: &DispatchCtx,
) -> Outcome {
    if b.args.len() != 3 {
        Err(arm::wrong_count(b, 3))
    } else {
        match constant_name(s) {
            None => Err(DispatchRefusalView::NoWeight(b.kernel)),
            Some(name) => match c.scales.lookup(name) {
                None => Err(DispatchRefusalView::UnknownWeight("scale."@ + name)),
                Some(factor) => arm::staged_launch(
                    arm::stage(b, 1, 0),
                    Entry::NormScalarMulBf16,
                    Seq::<Operand>::empty()
                        .push(arm::addr_of(b, 1))
                        .push(Operand::Float(factor))
                        .push(Operand::Count(arm::elements_of(b, 1) as u64))
                        .push(Operand::Addr(c.stream)),
                ),
            },
        }
    }
}

pub(crate) fn dispatch_scalar_mul(
    b: &BoundLaunch<'_>,
    spec: &LaunchSpec,
    ctx: &DispatchCtx,
) -> (result: Result<DispatchAction, DispatchRefusal>)
    requires
        arm::rows_fit(b@),
    ensures
        action::outcome_of(result) == scalar_mul(b@, spec@, ctx),
{
    need(b, 3)?;
    proof {
        reveal_strlit("scale.");
    }
    let name: &str = match &spec.weight {
        None => return Err(DispatchRefusal::NoWeight(b.kernel.to_owned())),
        Some(full) => match without_prefix(full.as_str(), "scale.") {
            None => return Err(DispatchRefusal::NoWeight(b.kernel.to_owned())),
            Some(name) => name,
        },
    };
    assert(constant_name(spec@) == Some(name@));
    let factor: u32 = match ctx.scales.get(name) {
        None => return Err(DispatchRefusal::UnknownWeight(text2("scale.", name))),
        Some(factor) => factor,
    };
    let copies = stage_one(b, 1, 0);
    let ops = Operands::new()
        .addr(b.args[1].ptr)
        .float(factor)
        .with(Operand::Count(element_count(b, 1)))
        .addr(ctx.stream);
    Ok(staged(copies, Entry::NormScalarMulBf16, ops))
}

/// The landing's scale: the layer's own scalar under a per-layer-embedding
/// norm that the deployment scales, and one everywhere else.
pub open spec fn landing_scale(s: LaunchSpecView, c: &DispatchCtx) -> u32 {
    match s.weight {
        Some(name) => if strings::is_suffix(name, "ple_norm"@) {
            match c.scales.lookup(name) {
                Some(scale) => scale,
                None => F32_ONE,
            }
        } else {
            F32_ONE
        },
        None => F32_ONE,
    }
}

/// The landing's scale.
fn scale_of(spec: &LaunchSpec, ctx: &DispatchCtx) -> (scale: u32)
    ensures
        scale == landing_scale(spec@, ctx),
{
    match &spec.weight {
        Some(name) => match without_suffix(name.as_str(), "ple_norm") {
            Some(_) => match ctx.scales.get(name.as_str()) {
                Some(scale) => scale,
                None => F32_ONE,
            },
            None => F32_ONE,
        },
        None => F32_ONE,
    }
}

/// `[x, hidden_in, hidden_out, norm_out, w, next_w]`: norm `x`, land it on the
/// staged stream, scale, and norm that with the next block's weight.
pub open spec fn landing(
    b: BoundView,
    s: LaunchSpecView,
    c: &DispatchCtx,
) -> Outcome {
    if b.args.len() != 6 {
        Err(arm::wrong_count(b, 6))
    } else {
        arm::staged_launch(
            arm::stage(b, 2, 1),
            Entry::NormRmsnormResidualAddScaleRmsnormBf16,
            Seq::<Operand>::empty()
                .push(arm::addr_of(b, 0))
                .push(arm::addr_of(b, 4))
                .push(arm::addr_of(b, 2))
                .push(Operand::Float(landing_scale(s, c)))
                .push(arm::addr_of(b, 5))
                .push(arm::addr_of(b, 3))
                .push(arm::row_operand(b))
                .push(arm::width_of(b, 0))
                .push(Operand::Float(c.rms_eps))
                .push(Operand::Addr(c.stream)),
        )
    }
}

pub(crate) fn dispatch_landing(
    b: &BoundLaunch<'_>,
    spec: &LaunchSpec,
    ctx: &DispatchCtx,
) -> (result: Result<DispatchAction, DispatchRefusal>)
    requires
        arm::rows_fit(b@),
    ensures
        action::outcome_of(result) == landing(b@, spec@, ctx),
{
    need(b, 6)?;
    let ops = Operands::new()
        .addr(b.args[0].ptr)
        .addr(b.args[4].ptr)
        .addr(b.args[2].ptr)
        .float(scale_of(spec, ctx))
        .addr(b.args[5].ptr)
        .addr(b.args[3].ptr)
        .num(row_count(b))
        .num(b.args[0].width as i32)
        .float(ctx.rms_eps)
        .addr(ctx.stream);
    let copies = stage_one(b, 2, 1);
    Ok(staged(copies, Entry::NormRmsnormResidualAddScaleRmsnormBf16, ops))
}

} // verus!
