//! The gpt-oss family's compile list: which entrypoints it instantiates.
//!
//! Every choice is spelled from the geometry, because either wrong answer
//! runs: the router's width selects its matvec, the bank's packing selects
//! which routed matvec reads it, and the head width names the attention, so a
//! width nothing instantiates fails to build by name.

use crate::metal::geometry;
use crate::metal::geometry::{AffineFormat, GptOssGeometry};
use crate::strings;
use crate::strings::push_decimal;
use vstd::prelude::*;
use vstd::string::*;

verus! {

/// The head width the matrix-unit attention is instantiated at.
pub const SDPA_MMA_HEAD_DIM: u32 = 64;

/// Which table slot a compiled pipeline lands in.
#[derive(Clone, Copy, Debug, PartialEq, Eq, Hash, Structural)]
pub enum GptOssSlot {
    QmvTail,
    QmvTailBias,
    QmvRoutedBias,
    QmvRouter,
    RouterTopK,
    MoeSort,
    MoeGather,
    MoeCombine,
    SwiGlu,
    SdpaSink,
    SdpaSinkPaged,
    SdpaSinkPagedTiled,
    SdpaSinkPagedMma,
    RopeFreqs,
    RopeFreqsMb,
    RowGather,
}

/// One entrypoint the plan wants compiled.
#[derive(Clone, Debug, PartialEq, Eq)]
pub struct GptOssPsoRequest {
    /// Where the pipeline goes.
    pub slot: GptOssSlot,
    /// The shader file, relative to the kernels directory.
    pub file: &'static str,
    /// The entrypoint name.
    pub entry: String,
}

/// [`GptOssPsoRequest`] with its texts as sequences.
pub struct RequestView {
    pub slot: GptOssSlot,
    pub file: Seq<char>,
    pub entry: Seq<char>,
}

impl View for GptOssPsoRequest {
    type V = RequestView;

    open spec fn view(&self) -> RequestView {
        RequestView { slot: self.slot, file: self.file@, entry: self.entry@ }
    }
}

/// A request.
pub open spec fn request(slot: GptOssSlot, file: Seq<char>, entry: Seq<char>) -> RequestView {
    RequestView { slot, file, entry }
}

/// An entrypoint instantiated at a head width.
pub open spec fn at_width(entry: Seq<char>, head_dim: u32) -> Seq<char> {
    entry + ("_d_"@ + strings::decimal(head_dim as nat))
}

/// An entrypoint instantiated at a format.
pub open spec fn at_format(entry: Seq<char>, bits: u32, group: u32) -> Seq<char> {
    entry + geometry::format_suffix(bits, group)
}

/// The compile list. Every projection runs the tail-handling matvec, the
/// router's at its own width; the bank's matvec reads its own packing; and the
/// matrix-unit attention is asked for only at the width it is instantiated at.
pub open spec fn planned(g: GptOssGeometry) -> Seq<RequestView> {
    let qmv = "quant/qmv.metal"@;
    let route = "moe/route.metal"@;
    let paged = "attn/sdpa_paged.metal"@;
    let neox = "rope/neox.metal"@;
    let d = g.head_dim;
    let attended = Seq::<RequestView>::empty()
        .push(request(GptOssSlot::QmvTail, qmv, at_format("affine_qmv_tail"@, g.proj_bits, 64)))
        .push(
            request(
                GptOssSlot::QmvTailBias,
                qmv,
                at_format("affine_qmv_tail_bias"@, g.proj_bits, 64),
            ),
        )
        .push(
            request(
                GptOssSlot::QmvRoutedBias,
                qmv,
                if g.mxfp4_experts {
                    at_format("mxfp4_qmv_routed_bias"@, 4, 32)
                } else {
                    at_format("affine_qmv_routed_bias"@, 4, 64)
                },
            ),
        )
        .push(
            request(
                GptOssSlot::QmvRouter,
                qmv,
                at_format("affine_qmv_tail_bias"@, g.router_bits, 64),
            ),
        )
        .push(request(GptOssSlot::RouterTopK, route, "router_topk_bfloat16"@))
        .push(request(GptOssSlot::MoeSort, route, "route_sort"@))
        .push(request(GptOssSlot::MoeGather, route, "route_gather"@))
        .push(request(GptOssSlot::MoeCombine, route, "combine_sorted"@))
        .push(request(GptOssSlot::SwiGlu, "mlp/gated.metal"@, "gptoss_swiglu_bfloat16"@))
        .push(
            request(
                GptOssSlot::SdpaSink,
                "attn/sdpa_sliding.metal"@,
                at_width("sdpa_vector_decode_sink_bfloat16"@, d),
            ),
        )
        .push(
            request(
                GptOssSlot::SdpaSinkPaged,
                paged,
                at_width("sdpa_paged_decode_sink_bfloat16"@, d),
            ),
        )
        .push(
            request(
                GptOssSlot::SdpaSinkPagedTiled,
                paged,
                at_width("sdpa_paged_tiled_sink_bfloat16"@, d),
            ),
        );
    let matrixed = if d == SDPA_MMA_HEAD_DIM {
        attended.push(
            request(
                GptOssSlot::SdpaSinkPagedMma,
                "attn/sdpa_paged_mma.metal"@,
                at_width("sdpa_paged_mma_sink_bfloat16"@, d),
            ),
        )
    } else {
        attended
    };
    matrixed
        .push(request(GptOssSlot::RopeFreqs, neox, "neox_freqs_decode_bfloat16"@))
        .push(request(GptOssSlot::RopeFreqsMb, neox, "neox_freqs_mb_bfloat16"@))
        .push(
            request(GptOssSlot::RowGather, "layout/row_gather.metal"@, "row_gather_bfloat16"@),
        )
}

/// The views of a run of requests.
pub open spec fn request_views(requests: Seq<GptOssPsoRequest>) -> Seq<RequestView> {
    Seq::new(requests.len(), |i: int| requests[i]@)
}

/// A format's entrypoint suffix.
pub fn suffix(bits: u32, group: u32) -> (text: String)
    ensures
        text@ == geometry::format_suffix(bits, group),
{
    AffineFormat { bits, group }.kernel_suffix()
}

/// An entrypoint with its suffix.
fn suffixed(entry: &str, tail: &str) -> (text: String)
    ensures
        text@ == entry@ + tail@,
{
    let mut text = String::from_str(entry);
    text.append(tail);
    text
}

/// Append one request.
fn want(
    out: &mut Vec<GptOssPsoRequest>,
    slot: GptOssSlot,
    file: &'static str,
    entry: String,
)
    ensures
        request_views(final(out)@) == request_views(old(out)@).push(
            request(slot, file@, entry@),
        ),
{
    let ghost before = out@;
    out.push(GptOssPsoRequest { slot, file, entry });
    assert(request_views(out@) =~= request_views(before).push(request(slot, file@, entry@)));
}

/// Lay out the compile list for `g`.
pub fn plan_gptoss_psos(g: &GptOssGeometry) -> (requests: Vec<GptOssPsoRequest>)
    ensures
        request_views(requests@) == planned(*g),
{
    let mut out: Vec<GptOssPsoRequest> = Vec::new();
    assert(request_views(out@) =~= Seq::<RequestView>::empty());
    let proj = suffix(g.proj_bits, 64);
    let qmv = "quant/qmv.metal";
    want(&mut out, GptOssSlot::QmvTail, qmv, suffixed("affine_qmv_tail", proj.as_str()));
    want(&mut out, GptOssSlot::QmvTailBias, qmv, suffixed("affine_qmv_tail_bias", proj.as_str()));
    if g.mxfp4_experts {
        let bank = suffix(4, 32);
        want(
            &mut out,
            GptOssSlot::QmvRoutedBias,
            qmv,
            suffixed("mxfp4_qmv_routed_bias", bank.as_str()),
        );
    } else {
        let bank = suffix(4, 64);
        want(
            &mut out,
            GptOssSlot::QmvRoutedBias,
            qmv,
            suffixed("affine_qmv_routed_bias", bank.as_str()),
        );
    }
    let router = suffix(g.router_bits, 64);
    want(&mut out, GptOssSlot::QmvRouter, qmv, suffixed("affine_qmv_tail_bias", router.as_str()));
    let route = "moe/route.metal";
    want(&mut out, GptOssSlot::RouterTopK, route, "router_topk_bfloat16".to_owned());
    want(&mut out, GptOssSlot::MoeSort, route, "route_sort".to_owned());
    want(&mut out, GptOssSlot::MoeGather, route, "route_gather".to_owned());
    want(&mut out, GptOssSlot::MoeCombine, route, "combine_sorted".to_owned());
    want(
        &mut out,
        GptOssSlot::SwiGlu,
        "mlp/gated.metal",
        "gptoss_swiglu_bfloat16".to_owned(),
    );
    let mut d = String::from_str("_d_");
    push_decimal(&mut d, g.head_dim as u64);
    want(
        &mut out,
        GptOssSlot::SdpaSink,
        "attn/sdpa_sliding.metal",
        suffixed("sdpa_vector_decode_sink_bfloat16", d.as_str()),
    );
    let paged = "attn/sdpa_paged.metal";
    want(
        &mut out,
        GptOssSlot::SdpaSinkPaged,
        paged,
        suffixed("sdpa_paged_decode_sink_bfloat16", d.as_str()),
    );
    want(
        &mut out,
        GptOssSlot::SdpaSinkPagedTiled,
        paged,
        suffixed("sdpa_paged_tiled_sink_bfloat16", d.as_str()),
    );
    if g.head_dim == SDPA_MMA_HEAD_DIM {
        want(
            &mut out,
            GptOssSlot::SdpaSinkPagedMma,
            "attn/sdpa_paged_mma.metal",
            suffixed("sdpa_paged_mma_sink_bfloat16", d.as_str()),
        );
    }
    let neox = "rope/neox.metal";
    want(&mut out, GptOssSlot::RopeFreqs, neox, "neox_freqs_decode_bfloat16".to_owned());
    want(&mut out, GptOssSlot::RopeFreqsMb, neox, "neox_freqs_mb_bfloat16".to_owned());
    want(
        &mut out,
        GptOssSlot::RowGather,
        "layout/row_gather.metal",
        "row_gather_bfloat16".to_owned(),
    );
    out
}

/// A plan fills no slot twice.
pub proof fn law_each_slot_is_filled_once(g: GptOssGeometry, i: int, j: int)
    requires
        0 <= i < j < planned(g).len(),
    ensures
        planned(g)[i].slot != planned(g)[j].slot,
{
}

/// The matrix unit is asked for at its own width and no other.
pub proof fn law_the_matrix_unit_is_asked_for_at_its_width(g: GptOssGeometry)
    ensures
        g.head_dim == SDPA_MMA_HEAD_DIM ==> planned(g).len() == 16 && planned(g)[12].slot
            == GptOssSlot::SdpaSinkPagedMma,
        g.head_dim != SDPA_MMA_HEAD_DIM ==> planned(g).len() == 15 && forall|i: int|
            0 <= i < planned(g).len() ==> (#[trigger] planned(g)[i]).slot
                != GptOssSlot::SdpaSinkPagedMma,
{
}

/// The shader a slot's kernel is written in.
pub open spec fn shader_of(slot: GptOssSlot) -> Seq<char> {
    match slot {
        GptOssSlot::QmvTail
        | GptOssSlot::QmvTailBias
        | GptOssSlot::QmvRoutedBias
        | GptOssSlot::QmvRouter => "quant/qmv.metal"@,
        GptOssSlot::RouterTopK
        | GptOssSlot::MoeSort
        | GptOssSlot::MoeGather
        | GptOssSlot::MoeCombine => "moe/route.metal"@,
        GptOssSlot::SwiGlu => "mlp/gated.metal"@,
        GptOssSlot::SdpaSink => "attn/sdpa_sliding.metal"@,
        GptOssSlot::SdpaSinkPaged | GptOssSlot::SdpaSinkPagedTiled => "attn/sdpa_paged.metal"@,
        GptOssSlot::SdpaSinkPagedMma => "attn/sdpa_paged_mma.metal"@,
        GptOssSlot::RopeFreqs | GptOssSlot::RopeFreqsMb => "rope/neox.metal"@,
        GptOssSlot::RowGather => "layout/row_gather.metal"@,
    }
}

/// The kernel a slot holds. A matvec handles tails, with a bias where the
/// projection has one; the bank's is routed, and reads four-bit floats where
/// the bank keeps them; and every attention has the learned sink.
pub open spec fn kernel_of(slot: GptOssSlot, mxfp4_experts: bool) -> Seq<char> {
    match slot {
        GptOssSlot::QmvTail => "affine_qmv_tail"@,
        GptOssSlot::QmvTailBias | GptOssSlot::QmvRouter => "affine_qmv_tail_bias"@,
        GptOssSlot::QmvRoutedBias => if mxfp4_experts {
            "mxfp4_qmv_routed_bias"@
        } else {
            "affine_qmv_routed_bias"@
        },
        GptOssSlot::RouterTopK => "router_topk_bfloat16"@,
        GptOssSlot::MoeSort => "route_sort"@,
        GptOssSlot::MoeGather => "route_gather"@,
        GptOssSlot::MoeCombine => "combine_sorted"@,
        GptOssSlot::SwiGlu => "gptoss_swiglu_bfloat16"@,
        GptOssSlot::SdpaSink => "sdpa_vector_decode_sink_bfloat16"@,
        GptOssSlot::SdpaSinkPaged => "sdpa_paged_decode_sink_bfloat16"@,
        GptOssSlot::SdpaSinkPagedTiled => "sdpa_paged_tiled_sink_bfloat16"@,
        GptOssSlot::SdpaSinkPagedMma => "sdpa_paged_mma_sink_bfloat16"@,
        GptOssSlot::RopeFreqs => "neox_freqs_decode_bfloat16"@,
        GptOssSlot::RopeFreqsMb => "neox_freqs_mb_bfloat16"@,
        GptOssSlot::RowGather => "row_gather_bfloat16"@,
    }
}

/// What a slot's kernel is instantiated at: a matvec at the format of the
/// weights it reads, an attention at the head width, and the rest at nothing.
pub open spec fn instance_of(slot: GptOssSlot, g: GptOssGeometry) -> Seq<char> {
    match slot {
        GptOssSlot::QmvTail | GptOssSlot::QmvTailBias => "_bfloat16_gs_64_b_"@ + strings::decimal(
            g.proj_bits as nat,
        ),
        GptOssSlot::QmvRouter => "_bfloat16_gs_64_b_"@ + strings::decimal(g.router_bits as nat),
        GptOssSlot::QmvRoutedBias => if g.mxfp4_experts {
            "_bfloat16_gs_32_b_4"@
        } else {
            "_bfloat16_gs_64_b_4"@
        },
        GptOssSlot::SdpaSink
        | GptOssSlot::SdpaSinkPaged
        | GptOssSlot::SdpaSinkPagedTiled
        | GptOssSlot::SdpaSinkPagedMma => "_d_"@ + strings::decimal(g.head_dim as nat),
        _ => Seq::empty(),
    }
}

/// A list has a request for a slot.
pub open spec fn asks_for(requests: Seq<RequestView>, slot: GptOssSlot) -> bool {
    exists|i: int| 0 <= i < requests.len() && (#[trigger] requests[i]).slot == slot
}

/// The formats' suffixes, written out.
proof fn lemma_format_texts(bits: u32)
    ensures
        geometry::format_suffix(bits, 64) == "_bfloat16_gs_64_b_"@ + strings::decimal(bits as nat),
        geometry::format_suffix(4, 64) == "_bfloat16_gs_64_b_4"@,
        geometry::format_suffix(4, 32) == "_bfloat16_gs_32_b_4"@,
{
    reveal_strlit("_bfloat16_gs_");
    reveal_strlit("_b_");
    reveal_strlit("_bfloat16_gs_64_b_");
    reveal_strlit("_bfloat16_gs_64_b_4");
    reveal_strlit("_bfloat16_gs_32_b_4");
    reveal_with_fuel(strings::decimal, 3);
    assert(strings::decimal(64) =~= seq!['6', '4']);
    assert(strings::decimal(32) =~= seq!['3', '2']);
    assert(strings::decimal(4) =~= seq!['4']);
    assert(geometry::format_suffix(bits, 64) =~= "_bfloat16_gs_64_b_"@ + strings::decimal(
        bits as nat,
    ));
    assert(geometry::format_suffix(4, 64) =~= "_bfloat16_gs_64_b_4"@);
    assert(geometry::format_suffix(4, 32) =~= "_bfloat16_gs_32_b_4"@);
}

/// Every request compiles its slot's own kernel: off the shader the kernel is
/// written in, at the instance the geometry states; and every slot is asked
/// for, the matrix unit's at its width.
pub proof fn law_each_slot_holds_its_own_kernel(g: GptOssGeometry, i: int, slot: GptOssSlot)
    ensures
        0 <= i < planned(g).len() ==> {
            let r = planned(g)[i];
            &&& r.file == shader_of(r.slot)
            &&& r.entry == kernel_of(r.slot, g.mxfp4_experts) + instance_of(r.slot, g)
        },
        asks_for(planned(g), slot) <==> (slot == GptOssSlot::SdpaSinkPagedMma ==> g.head_dim == 64),
{
    lemma_format_texts(g.proj_bits);
    lemma_format_texts(g.router_bits);
    let list = planned(g);
    if 0 <= i < list.len() {
        let r = list[i];
        assert(kernel_of(r.slot, g.mxfp4_experts) + Seq::empty() =~= kernel_of(
            r.slot,
            g.mxfp4_experts,
        ));
    }
    let last = list.len() as int;
    let at = match slot {
        GptOssSlot::QmvTail => 0int,
        GptOssSlot::QmvTailBias => 1,
        GptOssSlot::QmvRoutedBias => 2,
        GptOssSlot::QmvRouter => 3,
        GptOssSlot::RouterTopK => 4,
        GptOssSlot::MoeSort => 5,
        GptOssSlot::MoeGather => 6,
        GptOssSlot::MoeCombine => 7,
        GptOssSlot::SwiGlu => 8,
        GptOssSlot::SdpaSink => 9,
        GptOssSlot::SdpaSinkPaged => 10,
        GptOssSlot::SdpaSinkPagedTiled => 11,
        GptOssSlot::SdpaSinkPagedMma => 12,
        GptOssSlot::RopeFreqs => last - 3,
        GptOssSlot::RopeFreqsMb => last - 2,
        GptOssSlot::RowGather => last - 1,
    };
    assert(slot != GptOssSlot::SdpaSinkPagedMma || g.head_dim == 64 ==> list[at].slot == slot);
    law_the_matrix_unit_is_asked_for_at_its_width(g);
}

/// Texts that agree up to their ends agree at them.
proof fn lemma_tails(head: Seq<char>, a: Seq<char>, b: Seq<char>)
    ensures
        head + a == head + b <==> a == b,
{
    if head + a == head + b {
        assert(a =~= (head + a).skip(head.len() as int));
        assert(b =~= (head + b).skip(head.len() as int));
    }
}

/// Different numbers are written differently.
proof fn lemma_decimals(a: u32, b: u32)
    ensures
        strings::decimal(a as nat) == strings::decimal(b as nat) <==> a == b,
{
    strings::law_what_is_written_is_read(a as nat);
    strings::law_what_is_written_is_read(b as nat);
}

/// The entrypoints of two formats of one group differ with the bits.
proof fn lemma_formats(entry: Seq<char>, a: u32, b: u32, group: u32)
    ensures
        at_format(entry, a, group) == at_format(entry, b, group) <==> a == b,
{
    let lead = "_bfloat16_gs_"@ + strings::decimal(group as nat) + "_b_"@;
    lemma_tails(lead, strings::decimal(a as nat), strings::decimal(b as nat));
    lemma_tails(entry, geometry::format_suffix(a, group), geometry::format_suffix(b, group));
    lemma_decimals(a, b);
}

/// The entrypoints of two head widths differ.
proof fn lemma_widths(entry: Seq<char>, a: u32, b: u32)
    ensures
        at_width(entry, a) == at_width(entry, b) <==> a == b,
{
    lemma_tails("_d_"@, strings::decimal(a as nat), strings::decimal(b as nat));
    lemma_tails(
        entry,
        "_d_"@ + strings::decimal(a as nat),
        "_d_"@ + strings::decimal(b as nat),
    );
    lemma_decimals(a, b);
}

/// Every choice is spelled from the geometry: two geometries ask for one
/// projection, one bank matvec, one router matvec or one attention exactly when
/// they agree on the fact that selects it.
pub proof fn law_each_choice_is_spelled_from_the_geometry(g: GptOssGeometry, h: GptOssGeometry)
    ensures
        planned(g)[0] == planned(h)[0] <==> g.proj_bits == h.proj_bits,
        planned(g)[1] == planned(h)[1] <==> g.proj_bits == h.proj_bits,
        planned(g)[2] == planned(h)[2] <==> g.mxfp4_experts == h.mxfp4_experts,
        planned(g)[3] == planned(h)[3] <==> g.router_bits == h.router_bits,
        planned(g)[9] == planned(h)[9] <==> g.head_dim == h.head_dim,
        planned(g)[10] == planned(h)[10] <==> g.head_dim == h.head_dim,
        planned(g)[11] == planned(h)[11] <==> g.head_dim == h.head_dim,
{
    lemma_formats("affine_qmv_tail"@, g.proj_bits, h.proj_bits, 64);
    lemma_formats("affine_qmv_tail_bias"@, g.proj_bits, h.proj_bits, 64);
    lemma_formats("affine_qmv_tail_bias"@, g.router_bits, h.router_bits, 64);
    lemma_widths("sdpa_vector_decode_sink_bfloat16"@, g.head_dim, h.head_dim);
    lemma_widths("sdpa_paged_decode_sink_bfloat16"@, g.head_dim, h.head_dim);
    lemma_widths("sdpa_paged_tiled_sink_bfloat16"@, g.head_dim, h.head_dim);
    reveal_strlit("mxfp4_qmv_routed_bias");
    reveal_strlit("affine_qmv_routed_bias");
    assert(at_format("mxfp4_qmv_routed_bias"@, 4, 32)[0] == 'm');
    assert(at_format("affine_qmv_routed_bias"@, 4, 64)[0] == 'a');
}

} // verus!
