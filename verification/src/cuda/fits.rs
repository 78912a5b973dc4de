//! Whether a bound launch stays in the widths its kernel takes.
//!
//! A kernel counts rows, widths and elements in 32 bits, and an arm hands on
//! only some of a launch's. What is asked here is asked of those.

use crate::cuda::action::Entry;
use crate::cuda::arm;
use crate::cuda::arms::{attention, dense, norm, rope};
use crate::cuda::bind::{BoundLaunch, BoundView};
use crate::cuda::context::{AttnCtx, DispatchCtx, Frame, GdnCtx};
use crate::cuda::dispatch;
use crate::cuda::launch::KvCacheLayerView;
use crate::cuda::plan::{LaunchSpec, LaunchSpecView};
use crate::cuda::resolver::Resolver;
use crate::cuda::symbols;
use vstd::prelude::*;

verus! {

/// The launch's rows are a kernel's count, and so is everything that the arm
/// of its kernel computes.
pub open spec fn within(
    b: BoundView,
    s: LaunchSpecView,
    attn: Option<&AttnCtx>,
    gdn: Option<&GdnCtx>,
) -> bool {
    &&& arm::rows_fit(b)
    &&& symbols::entry_named(b.kernel) matches Some(e) ==> dispatch::arm_fits(e, b, s, attn, gdn)
}

/// A 32-bit count.
fn counts(n: i128) -> (yes: bool)
    ensures
        yes <==> i32::MIN <= n <= i32::MAX,
{
    -0x8000_0000 <= n && n <= 0x7fff_ffff
}

/// The rectangle is one, and its rows are a 32-bit count.
pub(crate) fn rows_ok(b: &BoundLaunch<'_>) -> (yes: bool)
    ensures
        yes == arm::rows_fit(b@),
{
    b.rows.start <= b.rows.end && b.rows.end - b.rows.start <= 0x7fff_ffff
}

fn width_ok(b: &BoundLaunch<'_>, i: usize) -> (yes: bool)
    ensures
        yes == arm::width_fits(b@, i as int),
{
    i >= b.args.len() || b.args[i].width <= 0x7fff_ffff
}

fn elements_ok(b: &BoundLaunch<'_>, i: usize) -> (yes: bool)
    requires
        arm::rows_fit(b@),
    ensures
        yes == dense::elements_fit(b@, i as int),
{
    i >= b.args.len() || (width_ok(b, i) && arm::element_count(b, i) <= 0x7fff_ffff)
}

fn norm_rows_ok(b: &BoundLaunch<'_>, spec: &LaunchSpec) -> (yes: bool)
    requires
        arm::rows_fit(b@),
    ensures
        yes == arm::norm_rows_fit(b@, spec@),
{
    if !width_ok(b, 0) {
        return false;
    }
    match spec.per_head_dim {
        None => true,
        Some(d) => {
            if d == 0 || d > 0x7fff_ffff {
                return false;
            }
            if b.args.len() == 0 {
                return true;
            }
            let rows: u64 = (b.rows.end - b.rows.start) as u64;
            let heads: u64 = (b.args[0].width / d) as u64;
            assert(rows * heads <= u64::MAX && 0 <= rows * heads) by (nonlinear_arith)
                requires
                    rows <= 0x7fff_ffff,
                    heads <= 0xffff_ffff,
            ;
            rows * heads <= 0x7fff_ffff
        },
    }
}

fn query_heads_ok(b: &BoundLaunch<'_>, layer: KvCacheLayerView) -> (yes: bool)
    ensures
        yes == attention::query_heads_fit(b@, layer),
{
    let n: i128 = layer.num_kv_heads as i128;
    let d: i128 = layer.head_dim as i128;
    assert(-0x1_0000_0000_0000_0000 <= 2 * n * d <= 0x1_0000_0000_0000_0000) by (nonlinear_arith)
        requires
            -0x8000_0000 <= n <= 0x7fff_ffff,
            -0x8000_0000 <= d <= 0x7fff_ffff,
    ;
    let kv: i128 = 2 * n * d;
    width_ok(b, 0) && counts(2 * n) && counts(kv) && (b.args.len() == 0 || counts(
        b.args[0].width as i128 - kv,
    ))
}

fn qkv_decode_ok(b: &BoundLaunch<'_>, attn: Option<&AttnCtx>) -> (yes: bool)
    ensures
        yes == attention::qkv_decode_fits(b@, attn),
{
    match attn {
        None => true,
        Some(a) => {
            let layer: usize = b.layers.start as usize;
            layer >= a.layers.len() || query_heads_ok(b, a.layers[layer])
        },
    }
}

fn rmsnorm_gated_ok(b: &BoundLaunch<'_>, gdn: Option<&GdnCtx>) -> (yes: bool)
    requires
        arm::rows_fit(b@),
    ensures
        yes == norm::rmsnorm_gated_fits(b@, gdn),
{
    match gdn {
        None => true,
        Some(g) => {
            let rows: i128 = (b.rows.end - b.rows.start) as i128;
            let heads: i128 = g.v_h as i128;
            assert(-0x1_0000_0000_0000_0000 <= rows * heads <= 0x1_0000_0000_0000_0000)
                by (nonlinear_arith)
                requires
                    0 <= rows <= 0x7fff_ffff,
                    -0x8000_0000 <= heads <= 0x7fff_ffff,
            ;
            counts(rows * heads)
        },
    }
}

fn rope_partial_ok(b: &BoundLaunch<'_>, spec: &LaunchSpec) -> (yes: bool)
    ensures
        yes == rope::rope_partial_fits(b@, spec@),
{
    width_ok(b, 2) && width_ok(b, 3) && match spec.rope_partial {
        None => true,
        Some(rotary) => rotary <= 0x7fff_ffff,
    }
}

fn arm_ok(
    e: Entry,
    b: &BoundLaunch<'_>,
    spec: &LaunchSpec,
    attn: Option<&AttnCtx>,
    gdn: Option<&GdnCtx>,
) -> (yes: bool)
    requires
        arm::rows_fit(b@),
    ensures
        yes == dispatch::arm_fits(e, b@, spec@, attn, gdn),
{
    match e {
        Entry::LayoutEmbedBf16
        | Entry::NormRmsnormBf16
        | Entry::AttnFlashinferPrefill
        | Entry::AttnNaivePaged
        | Entry::LayoutTransposeBf16NldToLnd
        | Entry::NormRmsnormResidualAddScaleRmsnormBf16
        | Entry::NormRmsnormResidualAddBf16 => width_ok(b, 0),
        Entry::MlpChunkedSwigluBf16
        | Entry::NormAddBiasBf16
        | Entry::LayoutSplitQGateBf16
        | Entry::AttnQkvPackedQkNormRopeVnormWriteKvBf16
        | Entry::MlpChunkedGegluTanhBf16 => width_ok(b, 1),
        Entry::AttnSplitQkvBf16 => width_ok(b, 1) && width_ok(b, 2),
        Entry::RopeQkRmsnormRopeBf16 | Entry::RopeRopeBf16 => width_ok(b, 2) && width_ok(b, 3),
        Entry::GemmActXW => width_ok(b, 0) && width_ok(
            b,
            if spec.beta_one {
                2
            } else {
                1
            },
        ),
        Entry::AttnQkvDecodeQkNormRopeWriteKvBf16 => qkv_decode_ok(b, attn),
        Entry::NormRmsnormGemmaBf16 | Entry::NormRmsnormNoScaleBf16 => norm_rows_ok(b, spec),
        Entry::RopeRopePartialBf16 => rope_partial_ok(b, spec),
        Entry::MlpSigmoidGateInplaceBf16 => elements_ok(
            b,
            if b.args.len() == 2 {
                0
            } else {
                2
            },
        ),
        Entry::NormRmsnormGatedFp32InBf16 => rmsnorm_gated_ok(b, gdn),
        Entry::MlpGegluTanhBf16 => elements_ok(b, 2),
        Entry::RopeQkRmsnormRopeBf16Rounded => width_ok(
            b,
            if b.args.len() == 3 {
                1
            } else {
                0
            },
        ),
        _ => true,
    }
}

/// Does a bound launch stay in the widths its kernel takes?
pub fn fits(
    bound: &BoundLaunch<'_>,
    spec: &LaunchSpec,
    attn: Option<&AttnCtx>,
    gdn: Option<&GdnCtx>,
) -> (yes: bool)
    ensures
        yes == within(bound@, spec@, attn, gdn),
{
    rows_ok(bound) && match Entry::named(bound.kernel) {
        None => true,
        Some(e) => arm_ok(e, bound, spec, attn, gdn),
    }
}

/// A launch that stays in its kernel's widths can be dispatched, whatever the
/// fire.
pub proof fn law_what_fits_can_be_dispatched<R: Resolver>(
    b: BoundView,
    s: LaunchSpecView,
    frame: Frame,
    r: R,
    c: &DispatchCtx,
    attn: Option<&AttnCtx>,
    gdn: Option<&GdnCtx>,
)
    requires
        within(b, s, attn, gdn),
    ensures
        dispatch::dispatchable(b, s, frame, r, c, attn, gdn),
{
}

} // verus!
