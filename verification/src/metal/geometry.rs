//! The checkpoint shapes the planners read.

use crate::strings;
use crate::strings::push_decimal;
use vstd::prelude::*;
use vstd::string::*;

verus! {

/// An affine quantization: code bits and group size.
#[derive(Clone, Copy, Debug, PartialEq, Eq, Structural)]
pub struct AffineFormat {
    /// Bits per code.
    pub bits: u32,
    /// Codes per group.
    pub group: u32,
}

/// The suffix of an entrypoint instantiated at a format.
pub open spec fn format_suffix(bits: u32, group: u32) -> Seq<char> {
    "_bfloat16_gs_"@ + strings::decimal(group as nat) + "_b_"@ + strings::decimal(bits as nat)
}

impl AffineFormat {
    /// The entrypoint suffix this format instantiates.
    pub fn kernel_suffix(&self) -> (suffix: String)
        ensures
            suffix@ == format_suffix(self.bits, self.group),
    {
        let mut suffix = String::from_str("_bfloat16_gs_");
        push_decimal(&mut suffix, self.group as u64);
        suffix.append("_b_");
        push_decimal(&mut suffix, self.bits as u64);
        suffix
    }
}

/// The hybrid family's shape, as the scratch pool reads it.
#[derive(Clone, Copy, Debug, PartialEq, Eq, Structural)]
pub struct DecodeGeometry {
    /// Model width.
    pub hidden: u32,
    /// Dense MLP width.
    pub intermediate: u32,
    /// Query heads.
    pub n_q_heads: u32,
    /// Elements per head.
    pub head_dim: u32,
    /// Linear-attention in-projection width.
    pub gdn_conv_dim: u32,
    /// Linear-attention value heads.
    pub gdn_v_heads: u32,
    /// Linear-attention value head width.
    pub gdn_v_dim: u32,
    /// Linear-attention key head width.
    pub gdn_k_dim: u32,
    /// Experts, zero for a dense checkpoint.
    pub n_experts: u32,
    /// Experts each token routes to.
    pub experts_per_token: u32,
    /// Expert MLP width.
    pub moe_intermediate: u32,
    /// Shared expert MLP width.
    pub shared_intermediate: u32,
}

impl Default for DecodeGeometry {
    fn default() -> (g: Self)
        ensures
            g == (DecodeGeometry {
                hidden: 1024,
                intermediate: 3584,
                n_q_heads: 8,
                head_dim: 256,
                gdn_conv_dim: 6144,
                gdn_v_heads: 16,
                gdn_v_dim: 128,
                gdn_k_dim: 128,
                n_experts: 0,
                experts_per_token: 0,
                moe_intermediate: 0,
                shared_intermediate: 0,
            }),
    {
        DecodeGeometry {
            hidden: 1024,
            intermediate: 3584,
            n_q_heads: 8,
            head_dim: 256,
            gdn_conv_dim: 6144,
            gdn_v_heads: 16,
            gdn_v_dim: 128,
            gdn_k_dim: 128,
            n_experts: 0,
            experts_per_token: 0,
            moe_intermediate: 0,
            shared_intermediate: 0,
        }
    }
}

impl DecodeGeometry {
    /// Is the checkpoint a mixture?
    pub fn is_moe(&self) -> (yes: bool)
        ensures
            yes <==> self.n_experts > 0,
    {
        self.n_experts > 0
    }
}

/// A llama-family shape.
#[derive(Clone, Copy, Debug, PartialEq, Eq, Structural)]
pub struct LlamaGeometry {
    /// Decoder layers.
    pub n_layers: u32,
    /// Model width.
    pub hidden: u32,
    /// Query heads.
    pub n_q_heads: u32,
    /// Key and value heads.
    pub n_kv_heads: u32,
    /// Elements per head.
    pub head_dim: u32,
    /// Dense MLP width.
    pub intermediate: u32,
    /// Vocabulary rows.
    pub vocab: u32,
    /// Whether one table serves both the embedding and the head.
    pub tied_embeddings: bool,
    /// Whether the checkpoint norms each query and key head.
    pub qk_norm: bool,
    /// Experts, zero for a dense checkpoint.
    pub n_experts: u32,
    /// Experts each token routes to.
    pub experts_per_token: u32,
    /// Expert MLP width.
    pub moe_intermediate: u32,
}

impl Default for LlamaGeometry {
    fn default() -> (g: Self)
        ensures
            g == (LlamaGeometry {
                n_layers: 32,
                hidden: 4096,
                n_q_heads: 32,
                n_kv_heads: 8,
                head_dim: 128,
                intermediate: 14336,
                vocab: 128256,
                tied_embeddings: false,
                qk_norm: false,
                n_experts: 0,
                experts_per_token: 0,
                moe_intermediate: 0,
            }),
    {
        LlamaGeometry {
            n_layers: 32,
            hidden: 4096,
            n_q_heads: 32,
            n_kv_heads: 8,
            head_dim: 128,
            intermediate: 14336,
            vocab: 128256,
            tied_embeddings: false,
            qk_norm: false,
            n_experts: 0,
            experts_per_token: 0,
            moe_intermediate: 0,
        }
    }
}

impl LlamaGeometry {
    /// Is the checkpoint a mixture?
    pub fn is_moe(&self) -> (yes: bool)
        ensures
            yes <==> self.n_experts > 0,
    {
        self.n_experts > 0
    }

    /// The query projection's width.
    pub fn q_width(&self) -> (w: u32)
        requires
            self.n_q_heads * self.head_dim <= u32::MAX,
        ensures
            w == self.n_q_heads * self.head_dim,
    {
        assert(0 <= self.n_q_heads * self.head_dim) by (nonlinear_arith)
            requires
                self.n_q_heads >= 0,
                self.head_dim >= 0,
        ;
        self.n_q_heads * self.head_dim
    }

    /// The key or value projection's width.
    pub fn kv_width(&self) -> (w: u32)
        requires
            self.n_kv_heads * self.head_dim <= u32::MAX,
        ensures
            w == self.n_kv_heads * self.head_dim,
    {
        assert(0 <= self.n_kv_heads * self.head_dim) by (nonlinear_arith)
            requires
                self.n_kv_heads >= 0,
                self.head_dim >= 0,
        ;
        self.n_kv_heads * self.head_dim
    }

    /// Channels the rotation turns: the whole head.
    pub fn rotary_dims(&self) -> (d: u32)
        ensures
            d == self.head_dim,
    {
        self.head_dim
    }
}

/// The gpt-oss family's shape.
#[derive(Clone, Copy, Debug, PartialEq, Eq, Structural)]
pub struct GptOssGeometry {
    /// Decoder layers.
    pub n_layers: u32,
    /// Model width.
    pub hidden: u32,
    /// Query heads.
    pub n_q_heads: u32,
    /// Key and value heads.
    pub n_kv_heads: u32,
    /// Elements per head.
    pub head_dim: u32,
    /// Expert MLP width.
    pub intermediate: u32,
    /// Vocabulary rows.
    pub vocab: u32,
    /// Experts.
    pub n_experts: u32,
    /// Experts each token routes to.
    pub experts_per_token: u32,
    /// Bits of the projections' codes.
    pub proj_bits: u32,
    /// Bits of the router's codes.
    pub router_bits: u32,
    /// Whether the expert bank keeps the checkpoint's own four-bit floats.
    pub mxfp4_experts: bool,
}

impl Default for GptOssGeometry {
    fn default() -> (g: Self)
        ensures
            g == (GptOssGeometry {
                n_layers: 24,
                hidden: 2880,
                n_q_heads: 64,
                n_kv_heads: 8,
                head_dim: 64,
                intermediate: 2880,
                vocab: 201088,
                n_experts: 32,
                experts_per_token: 4,
                proj_bits: 4,
                router_bits: 8,
                mxfp4_experts: false,
            }),
    {
        GptOssGeometry {
            n_layers: 24,
            hidden: 2880,
            n_q_heads: 64,
            n_kv_heads: 8,
            head_dim: 64,
            intermediate: 2880,
            vocab: 201088,
            n_experts: 32,
            experts_per_token: 4,
            proj_bits: 4,
            router_bits: 8,
            mxfp4_experts: false,
        }
    }
}

/// Layers alternate, the sliding window first.
pub open spec fn attends_in_full(layer: int) -> bool {
    layer % 2 == 1
}

impl GptOssGeometry {
    /// The query projection's width.
    pub fn q_dim(&self) -> (w: u32)
        requires
            self.n_q_heads * self.head_dim <= u32::MAX,
        ensures
            w == self.n_q_heads * self.head_dim,
    {
        assert(0 <= self.n_q_heads * self.head_dim) by (nonlinear_arith)
            requires
                self.n_q_heads >= 0,
                self.head_dim >= 0,
        ;
        self.n_q_heads * self.head_dim
    }

    /// The key or value projection's width.
    pub fn kv_dim(&self) -> (w: u32)
        requires
            self.n_kv_heads * self.head_dim <= u32::MAX,
        ensures
            w == self.n_kv_heads * self.head_dim,
    {
        assert(0 <= self.n_kv_heads * self.head_dim) by (nonlinear_arith)
            requires
                self.n_kv_heads >= 0,
                self.head_dim >= 0,
        ;
        self.n_kv_heads * self.head_dim
    }

    /// Does the layer attend the full context?
    pub fn is_full_attn(&self, layer: u32) -> (yes: bool)
        ensures
            yes == attends_in_full(layer as int),
    {
        layer % 2 == 1
    }
}

/// Layers alternate, and the first one slides.
pub proof fn law_layers_alternate_from_a_sliding_one(layer: int)
    requires
        layer >= 0,
    ensures
        !attends_in_full(0),
        attends_in_full(layer + 1) <==> !attends_in_full(layer),
{
}

/// A suffix states the group first and the bits last, so formats that differ
/// in either are spelled apart.
pub proof fn law_a_suffix_states_its_group_and_its_bits(bits: u32, group: u32)
    ensures
        ("_bfloat16_gs_"@ + strings::decimal(group as nat)).is_prefix_of(
            format_suffix(bits, group),
        ),
        ("_b_"@ + strings::decimal(bits as nat)).is_suffix_of(format_suffix(bits, group)),
        format_suffix(bits, group).len() == "_bfloat16_gs_"@.len() + strings::decimal(
            group as nat,
        ).len() + "_b_"@.len() + strings::decimal(bits as nat).len(),
{
    let whole = format_suffix(bits, group);
    let head = "_bfloat16_gs_"@ + strings::decimal(group as nat);
    let tail = "_b_"@ + strings::decimal(bits as nat);
    assert(head =~= whole.subrange(0, head.len() as int));
    assert(tail =~= whole.subrange((whole.len() - tail.len()) as int, whole.len() as int));
}

} // verus!
