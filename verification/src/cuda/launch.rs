//! The records a launcher takes that are neither scalars nor addresses.
//!
//! Each is a description a launcher reads and forgets: no driver state lives
//! here, and a device address is a plain number, zero for none.

use vstd::prelude::*;

verus! {

/// The element type of stored pages and weights.
#[derive(Clone, Copy, Debug, PartialEq, Eq, Structural)]
pub enum DType {
    /// Brain float, the model's own type.
    Bf16,
    /// Eight-bit float.
    Fp8,
    /// Eight-bit integer.
    Int8,
    /// Four-bit float.
    Fp4,
}

/// How a KV cache stores its pages. The order is the launchers' own.
#[derive(Clone, Copy, Debug, PartialEq, Eq, Hash, Structural)]
pub enum KvCacheScheme {
    /// Stored as the model's own type; no scales.
    Native,
    /// FP8 with one scale for the whole tensor.
    Fp8PerTensor,
    /// INT8 with a scale per (token, head).
    Int8PerTokenHead,
    /// FP8 with a scale per (token, head).
    Fp8PerTokenHead,
    /// FP4 with a scale per block.
    Fp4Block,
}

/// One layer's KV storage, as a kernel sees it.
#[derive(Clone, Copy, Debug, PartialEq, Eq, Structural)]
pub struct KvCacheLayerView {
    /// Which layer this describes.
    pub layer: i32,
    /// Where its pages actually live, for a KV-shared layer.
    pub source_layer: i32,
    /// Pages in this layer's pool.
    pub num_pages: i32,
    /// Tokens per page.
    pub page_size: i32,
    /// KV heads, after any grouping.
    pub num_kv_heads: i32,
    /// Channels per head.
    pub head_dim: i32,
    /// How the pages are stored, and so whether the scale planes below mean
    /// anything.
    pub scheme: KvCacheScheme,
    /// The element type the pages hold, which is the model's only under
    /// [`KvCacheScheme::Native`].
    pub storage_dtype: DType,
    /// The quantisation block, for the schemes that have one.
    pub block_size: i32,
    /// The K pages.
    pub k_pages: u64,
    /// The V pages.
    pub v_pages: u64,
    /// K's scale plane; zero under [`KvCacheScheme::Native`].
    pub k_scales: u64,
    /// V's scale plane; zero under [`KvCacheScheme::Native`].
    pub v_scales: u64,
    /// A bf16 shadow of K, for the kernels that cannot dequantise inline.
    pub k_bf16_pages: u64,
    /// A bf16 shadow of V, for the same reason.
    pub v_bf16_pages: u64,
    /// Per-page key envelopes; zero unless envelopes were enabled.
    pub k_env_min: u64,
    /// The other envelope plane; see [`Self::has_envelopes`].
    pub k_env_max: u64,
    /// Pages are head-major rather than token-major.
    pub hnd_layout: bool,
    /// Storage is the model's own bf16.
    pub native_bf16: bool,
}

/// The layer has its envelopes.
pub open spec fn enveloped(layer: KvCacheLayerView) -> bool {
    layer.k_env_min != 0 && layer.k_env_max != 0
}

impl KvCacheLayerView {
    /// Both envelope planes are present. A cache that allocated one of them
    /// has none.
    pub fn has_envelopes(&self) -> (yes: bool)
        ensures
            yes <==> self.k_env_min != 0 && self.k_env_max != 0,
            yes == enveloped(*self),
    {
        self.k_env_min != 0 && self.k_env_max != 0
    }

    /// Storage is the model's own bf16, so no dequantisation step applies.
    pub fn is_native_bf16(&self) -> (yes: bool)
        ensures
            yes == self.native_bf16,
    {
        self.native_bf16
    }
}

/// The attention workspace, as launchers take it.
#[derive(Clone, Copy, Debug, PartialEq, Eq, Structural)]
pub struct AttentionWorkspaceView {
    /// The float scratch.
    pub float_buffer: u64,
    /// Its bytes.
    pub float_bytes: u64,
    /// The integer scratch a plan's arrays sit in.
    pub int_buffer: u64,
    /// Its bytes.
    pub int_bytes: u64,
    /// The pinned host slot a planner stages through.
    pub page_locked_int: u64,
}

/// A layer that lost either plane of its envelopes has none, and one that has
/// both has them.
pub proof fn law_one_plane_is_no_envelope(layer: KvCacheLayerView)
    ensures
        !enveloped(KvCacheLayerView { k_env_min: 0, ..layer }),
        !enveloped(KvCacheLayerView { k_env_max: 0, ..layer }),
        enveloped(layer) || layer.k_env_min == 0 || layer.k_env_max == 0,
{
}

} // verus!
